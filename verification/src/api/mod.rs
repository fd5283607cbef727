use vstd::prelude::*;

use crate::text::copy_text;

pub mod agent;
pub mod auth;
pub mod block;
pub mod clients;
pub mod event;
pub mod nudge;
pub mod page;
pub mod response;
pub mod runtime;
pub mod search;
pub mod token;
pub mod util;
pub mod ws;

verus! {

/// Why a request failed: its caller is not allowed, its caller sent something
/// wrong, or the server could not serve it.
pub enum ApiError {
    AuthError(String),
    ClientError(String),
    ServerError(String),
}

/// The mathematical value of an [`ApiError`].
pub enum ApiErrorView {
    AuthError(Seq<char>),
    ClientError(Seq<char>),
    ServerError(Seq<char>),
}

impl View for ApiError {
    type V = ApiErrorView;

    open spec fn view(&self) -> ApiErrorView {
        match self {
            ApiError::AuthError(m) => ApiErrorView::AuthError(m@),
            ApiError::ClientError(m) => ApiErrorView::ClientError(m@),
            ApiError::ServerError(m) => ApiErrorView::ServerError(m@),
        }
    }
}

/// The HTTP status that answers an error: 401, 400 or 500.
pub open spec fn status_of(e: ApiErrorView) -> u16 {
    match e {
        ApiErrorView::AuthError(_) => 401,
        ApiErrorView::ClientError(_) => 400,
        ApiErrorView::ServerError(_) => 500,
    }
}

/// The message that an error carries.
pub open spec fn message_of(e: ApiErrorView) -> Seq<char> {
    match e {
        ApiErrorView::AuthError(m) => m,
        ApiErrorView::ClientError(m) => m,
        ApiErrorView::ServerError(m) => m,
    }
}

impl ApiError {
    /// The HTTP response that answers the error: its status and its body,
    /// the error's message.
    pub fn into_response(self) -> (r: (u16, String))
        ensures
            r.0 == status_of(self@),
            r.1@ == message_of(self@),
    {
        match self {
            ApiError::AuthError(message) => (401, message),
            ApiError::ClientError(message) => (400, message),
            ApiError::ServerError(message) => (500, message),
        }
    }

    /// A copy of the error.
    pub fn duplicate(&self) -> (e: ApiError)
        ensures
            e@ == self@,
    {
        match self {
            ApiError::AuthError(m) => ApiError::AuthError(copy_text(m)),
            ApiError::ClientError(m) => ApiError::ClientError(copy_text(m)),
            ApiError::ServerError(m) => ApiError::ServerError(copy_text(m)),
        }
    }
}

/// Where generated images are stored.
pub struct AWS {
    pub bucket: String,
    pub s3_url: String,
}

/// Where vectors are searched.
pub struct Qdrant {
    pub collection: String,
}

/// The settings of the server.
pub struct Config {
    pub aws: AWS,
    pub qdrant: Qdrant,
}

} // verus!
