use vstd::prelude::*;
use vstd::string::*;

use crate::api::page::request::GenerateCoverImageRequest;
use crate::text::{copy_text, same_text};

pub mod request;
pub mod response;

verus! {

/// What a client asks over the socket.
pub enum Action {
    /// Authenticate with an API key.
    Auth { api_key: String },
    /// Generate a cover image for the page `id`.
    GenerateCoverImage { id: String, body: GenerateCoverImageRequest },
}

/// What the socket answers, as a JSON object tagged by `action`.
pub enum ActionResponse {
    Auth { message: String },
    GenerateCoverImage { message: String },
}

/// What reaches a session.
pub enum SessionEvent {
    /// The client closed the connection.
    Close,
    /// A text message: the action it names, or `None` when it names none.
    Text(Option<Action>),
    /// A message of another kind (binary, ping, pong).
    Other,
    /// The cover image asked for earlier was made (`Ok`) or not (`Err` with
    /// the reason).
    Generated(Result<(), String>),
}

/// What a session does in answer.
pub enum SessionStep {
    /// Send this response.
    Reply(ActionResponse),
    /// Send this plain text.
    ReplyText(String),
    /// Make the cover image of page `id`, then report with `Generated`.
    Generate { id: String, body: GenerateCoverImageRequest },
    /// Nothing to do.
    Wait,
    /// End the session.
    Stop,
}

/// One client connection: whether it has authenticated, and the key it must
/// present.
pub struct Session {
    authorized: bool,
    accept_api_key: String,
}

/// The text of a response message.
pub open spec fn reply_is(step: SessionStep, auth: bool, message: Seq<char>) -> bool {
    match step {
        SessionStep::Reply(ActionResponse::Auth { message: m }) => auth && m@ == message,
        SessionStep::Reply(ActionResponse::GenerateCoverImage { message: m }) => !auth && m@
            == message,
        _ => false,
    }
}

impl Session {
    /// Whether the client has authenticated.
    pub closed spec fn is_authorized(&self) -> bool {
        self.authorized
    }

    /// The key that authenticates.
    pub closed spec fn accepted_key(&self) -> Seq<char> {
        self.accept_api_key@
    }

    /// A new session, not authenticated, that accepts `accept_api_key`.
    pub fn new(accept_api_key: String) -> (s: Self)
        ensures
            !s.is_authorized(),
            s.accepted_key() == accept_api_key@,
    {
        Session { authorized: false, accept_api_key }
    }

    /// Whether the client has authenticated.
    pub fn authorized(&self) -> (b: bool)
        ensures
            b == self.is_authorized(),
    {
        self.authorized
    }

    /// Whether `api_key` is the accepted key.
    pub fn authorize(&self, api_key: &str) -> (ok: bool)
        ensures
            ok == (api_key@ == self.accepted_key()),
    {
        same_text(api_key, self.accept_api_key.as_str())
    }

    /// Handles one event.
    ///
    /// - `Close` ends the session.
    /// - An `Auth` action authenticates the session exactly when its key is
    ///   the accepted one, and answers `authenticated` or `invalid token`.
    /// - A `GenerateCoverImage` action answers `not allowed` before
    ///   authentication, `invalid id` for an empty page id, `invalid prompt`
    ///   for an empty prompt, and otherwise asks for the image.
    /// - A text that names no action answers `invalid method`.
    /// - A finished generation answers `success` or its error.
    /// - Anything else is ignored.
    /// Only an `Auth` action changes whether the session is authenticated.
    pub fn step(&mut self, event: SessionEvent) -> (step: SessionStep)
        ensures
            final(self).accepted_key() == old(self).accepted_key(),
            match event {
                SessionEvent::Text(Some(Action::Auth { api_key })) => {
                    &&& final(self).is_authorized() == (api_key@ == old(self).accepted_key())
                    &&& reply_is(
                        step,
                        true,
                        if api_key@ == old(self).accepted_key() {
                            "authenticated"@
                        } else {
                            "invalid token"@
                        },
                    )
                },
                SessionEvent::Text(Some(Action::GenerateCoverImage { id, body })) => {
                    &&& final(self).is_authorized() == old(self).is_authorized()
                    &&& if !old(self).is_authorized() {
                        reply_is(step, false, "not allowed"@)
                    } else if id@.len() == 0 {
                        reply_is(step, false, "invalid id"@)
                    } else if body.prompt@.len() == 0 {
                        reply_is(step, false, "invalid prompt"@)
                    } else {
                        step matches SessionStep::Generate { id: i, body: b } && i@ == id@
                            && b.prompt@ == body.prompt@
                    }
                },
                SessionEvent::Text(None) => {
                    &&& final(self).is_authorized() == old(self).is_authorized()
                    &&& step matches SessionStep::ReplyText(t) && t@ == "invalid method"@
                },
                SessionEvent::Generated(Ok(())) => {
                    &&& final(self).is_authorized() == old(self).is_authorized()
                    &&& reply_is(step, false, "success"@)
                },
                SessionEvent::Generated(Err(e)) => {
                    &&& final(self).is_authorized() == old(self).is_authorized()
                    &&& reply_is(step, false, e@)
                },
                SessionEvent::Close => {
                    &&& final(self).is_authorized() == old(self).is_authorized()
                    &&& step is Stop
                },
                SessionEvent::Other => {
                    &&& final(self).is_authorized() == old(self).is_authorized()
                    &&& step is Wait
                },
            },
    {
        match event {
            SessionEvent::Close => SessionStep::Stop,
            SessionEvent::Other => SessionStep::Wait,
            SessionEvent::Text(None) => SessionStep::ReplyText(String::from_str("invalid method")),
            SessionEvent::Text(Some(Action::Auth { api_key })) => {
                let ok = self.authorize(api_key.as_str());
                self.authorized = ok;
                let message = if ok {
                    String::from_str("authenticated")
                } else {
                    String::from_str("invalid token")
                };
                SessionStep::Reply(ActionResponse::Auth { message })
            },
            SessionEvent::Text(Some(Action::GenerateCoverImage { id, body })) => {
                if !self.authorized {
                    SessionStep::Reply(
                        ActionResponse::GenerateCoverImage { message: String::from_str("not allowed") },
                    )
                } else if id.as_str().is_empty() {
                    SessionStep::Reply(
                        ActionResponse::GenerateCoverImage { message: String::from_str("invalid id") },
                    )
                } else if body.prompt.as_str().is_empty() {
                    SessionStep::Reply(
                        ActionResponse::GenerateCoverImage {
                            message: String::from_str("invalid prompt"),
                        },
                    )
                } else {
                    SessionStep::Generate { id, body }
                }
            },
            SessionEvent::Generated(Ok(())) => SessionStep::Reply(
                ActionResponse::GenerateCoverImage { message: String::from_str("success") },
            ),
            SessionEvent::Generated(Err(e)) => SessionStep::Reply(
                ActionResponse::GenerateCoverImage { message: copy_text(&e) },
            ),
        }
    }
}

} // verus!
