use api::api::page::request::GenerateCoverImageRequest;
use api::api::ws::{Action, ActionResponse, Session, SessionEvent, SessionStep};

fn auth(key: &str) -> SessionEvent {
    SessionEvent::Text(Some(Action::Auth { api_key: key.to_string() }))
}

fn generate(id: &str, prompt: &str) -> SessionEvent {
    SessionEvent::Text(Some(Action::GenerateCoverImage {
        id: id.to_string(),
        body: GenerateCoverImageRequest { prompt: prompt.to_string() },
    }))
}

fn auth_reply(step: SessionStep) -> String {
    match step {
        SessionStep::Reply(ActionResponse::Auth { message }) => message,
        _ => panic!("expected an auth reply"),
    }
}

fn generate_reply(step: SessionStep) -> String {
    match step {
        SessionStep::Reply(ActionResponse::GenerateCoverImage { message }) => message,
        _ => panic!("expected a generate reply"),
    }
}

#[test]
fn generation_needs_authentication() {
    let mut s = Session::new("key".to_string());
    assert_eq!(generate_reply(s.step(generate("p", "a cat"))), "not allowed");
    assert_eq!(auth_reply(s.step(auth("nope"))), "invalid token");
    assert!(!s.authorized());
    assert_eq!(auth_reply(s.step(auth("key"))), "authenticated");
    assert!(s.authorized());
    match s.step(generate("p", "a cat")) {
        SessionStep::Generate { id, body } => {
            assert_eq!(id, "p");
            assert_eq!(body.prompt, "a cat");
        }
        _ => panic!("expected a generation"),
    }
    assert_eq!(generate_reply(s.step(SessionEvent::Generated(Ok(())))), "success");
    assert_eq!(generate_reply(s.step(SessionEvent::Generated(Err("s3 down".to_string())))), "s3 down");
}

#[test]
fn generation_checks_id_and_prompt() {
    let mut s = Session::new("key".to_string());
    s.step(auth("key"));
    assert_eq!(generate_reply(s.step(generate("", "x"))), "invalid id");
    assert_eq!(generate_reply(s.step(generate("p", ""))), "invalid prompt");
}

#[test]
fn a_wrong_key_revokes_authentication() {
    let mut s = Session::new("key".to_string());
    s.step(auth("key"));
    s.step(auth("bad"));
    assert!(!s.authorized());
    assert_eq!(generate_reply(s.step(generate("p", "x"))), "not allowed");
}

#[test]
fn other_messages() {
    let mut s = Session::new("key".to_string());
    match s.step(SessionEvent::Text(None)) {
        SessionStep::ReplyText(t) => assert_eq!(t, "invalid method"),
        _ => panic!("expected a plain reply"),
    }
    assert!(matches!(s.step(SessionEvent::Other), SessionStep::Wait));
    assert!(matches!(s.step(SessionEvent::Close), SessionStep::Stop));
}
