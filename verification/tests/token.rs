use api::api::token::{find_key, required_claims, token_key, KeyEntry, TokenKey, TOKEN_AUDIENCE};
use api::api::ApiError;

fn s(x: &str) -> String {
    x.to_string()
}

const WITH_KID: &str = "eyJhbGciOiJSUzI1NiIsImtpZCI6ImsxIn0.e30.c2ln";
const WITHOUT_KID: &str = "eyJhbGciOiJSUzI1NiJ9.e30.c2ln";

fn keys() -> Vec<KeyEntry> {
    vec![
        KeyEntry { key_id: None, rsa: Some((s("n0"), s("e0"))) },
        KeyEntry { key_id: Some(s("k2")), rsa: None },
        KeyEntry { key_id: Some(s("k1")), rsa: Some((s("n1"), s("AQAB"))) },
        KeyEntry { key_id: Some(s("k1")), rsa: Some((s("n9"), s("e9"))) },
    ]
}

fn invalid(r: Result<TokenKey, ApiError>) -> bool {
    matches!(r, Err(ApiError::AuthError(m)) if m == "invalid token")
}

#[test]
fn the_first_key_with_the_header_id_checks_the_token() {
    assert_eq!(find_key(&keys(), "k1"), Some(2));
    assert_eq!(find_key(&keys(), "k3"), None);
    match token_key(WITH_KID, &keys()) {
        Ok(TokenKey::Rsa { modulus, exponent }) => {
            assert_eq!(modulus, "n1");
            assert_eq!(exponent, "AQAB");
        }
        _ => panic!("expected the RSA key k1"),
    }
}

#[test]
fn tokens_that_name_no_known_key_are_invalid() {
    assert!(invalid(token_key(WITHOUT_KID, &keys())));
    assert!(invalid(token_key("not a token", &keys())));
    assert!(invalid(token_key(WITH_KID, &vec![])));
    let other = vec![KeyEntry { key_id: Some(s("k1")), rsa: None }];
    assert!(matches!(token_key(WITH_KID, &other), Ok(TokenKey::NotRsa)));
}

#[test]
fn audience_and_required_claims() {
    assert_eq!(TOKEN_AUDIENCE, "https://takassh.shuttleapp.rs");
    assert_eq!(required_claims(), vec!["sub", "exp", "iss"]);
}
