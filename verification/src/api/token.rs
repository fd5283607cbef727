use vstd::prelude::*;
use vstd::string::*;

use jsonwebtoken::decode_header;

use crate::api::{ApiError, ApiErrorView};
use crate::text::{copy_text, same_text};

verus! {

/// The audience that an accepted token must name.
pub const TOKEN_AUDIENCE: &'static str = "https://takassh.shuttleapp.rs";

/// The claims that an accepted token must carry.
pub fn required_claims() -> (v: Vec<&'static str>)
    ensures
        v@.map_values(|c: &str| c@) == seq!["sub"@, "exp"@, "iss"@],
{
    let v = vec!["sub", "exp", "iss"];
    assert(v@.map_values(|c: &str| c@) =~= seq!["sub"@, "exp"@, "iss"@]);
    v
}

/// The key id in the header of a JSON web token: `None` when the header does
/// not decode, `Some(None)` when it names no key.
pub uninterp spec fn header_key_id(token: Seq<char>) -> Option<Option<Seq<char>>>;

/// Decodes the header of `token` with `jsonwebtoken::decode_header` and gives
/// its `kid`. Claimed: the outcome depends on the token alone.
#[verifier::external_body]
pub(crate) fn token_key_id(token: &str) -> (r: Option<Option<String>>)
    ensures
        match r {
            None => header_key_id(token@) is None,
            Some(None) => header_key_id(token@) == Some(None::<Seq<char>>),
            Some(Some(k)) => header_key_id(token@) == Some(Some(k@)),
        },
{
    decode_header(token).ok().map(|header| header.kid)
}

/// A key of the identity provider's key set: its id, and its modulus and
/// exponent when it is an RSA key.
pub struct KeyEntry {
    pub key_id: Option<String>,
    pub rsa: Option<(String, String)>,
}

/// Whether `key` has the id `kid`.
pub open spec fn has_key_id(key: KeyEntry, kid: Seq<char>) -> bool {
    key.key_id matches Some(k) && k@ == kid
}

/// The position of the first key with the id `kid`, if any.
pub open spec fn first_key(keys: Seq<KeyEntry>, kid: Seq<char>) -> Option<int> {
    if exists|i: int| 0 <= i < keys.len() && has_key_id(#[trigger] keys[i], kid) {
        Some(
            choose|i: int|
                0 <= i < keys.len() && has_key_id(#[trigger] keys[i], kid) && forall|j: int|
                    0 <= j < i ==> !has_key_id(#[trigger] keys[j], kid),
        )
    } else {
        None
    }
}

/// The position of the first key with the id `kid` (the key that
/// `JwkSet::find` gives), if any.
pub fn find_key(keys: &Vec<KeyEntry>, kid: &str) -> (r: Option<usize>)
    ensures
        match r {
            Some(i) => i < keys@.len() && has_key_id(keys@[i as int], kid@) && forall|j: int|
                0 <= j < i ==> !has_key_id(#[trigger] keys@[j], kid@),
            None => forall|j: int| 0 <= j < keys@.len() ==> !has_key_id(#[trigger] keys@[j], kid@),
        },
        r matches Some(i) ==> first_key(keys@, kid@) == Some(i as int),
        r is None ==> first_key(keys@, kid@) is None,
{
    for i in 0..keys.len()
        invariant
            forall|j: int| 0 <= j < i ==> !has_key_id(#[trigger] keys@[j], kid@),
    {
        let found = match &keys[i].key_id {
            Some(k) => same_text(k.as_str(), kid),
            None => false,
        };
        if found {
            proof {
                let w = choose|w: int|
                    0 <= w < keys@.len() && has_key_id(#[trigger] keys@[w], kid@) && forall|j: int|
                        0 <= j < w ==> !has_key_id(#[trigger] keys@[j], kid@);
                assert(0 <= i < keys@.len() && has_key_id(keys@[i as int], kid@) && forall|j: int|
                    0 <= j < i ==> !has_key_id(#[trigger] keys@[j], kid@));
                if w < i {
                } else if w > i {
                    assert(!has_key_id(keys@[i as int], kid@));
                }
            }
            return Some(i);
        }
    }
    None
}

/// The key that checks a token's signature.
pub enum TokenKey {
    /// An RSA key, by its modulus and exponent.
    Rsa { modulus: String, exponent: String },
    /// A key of another algorithm.
    NotRsa,
}

/// Whether `r` is the refusal of a token that cannot be checked.
pub open spec fn refused(r: Result<TokenKey, ApiError>) -> bool {
    r matches Err(e) && e@ == ApiErrorView::AuthError("invalid token"@)
}

/// The key that checks `token` among `keys`: the first key with the id that
/// the token's header names. A token whose header does not decode, names no
/// key, or names a key that is not there is refused as an invalid token.
pub fn token_key(token: &str, keys: &Vec<KeyEntry>) -> (r: Result<TokenKey, ApiError>)
    ensures
        match header_key_id(token@) {
            Some(Some(kid)) => match first_key(keys@, kid) {
                Some(i) => match keys@[i].rsa {
                    Some(rsa) => r matches Ok(TokenKey::Rsa { modulus, exponent }) && modulus@
                        == rsa.0@ && exponent@ == rsa.1@,
                    None => r matches Ok(TokenKey::NotRsa),
                },
                None => refused(r),
            },
            _ => refused(r),
        },
{
    let kid = match token_key_id(token) {
        Some(Some(k)) => k,
        _ => {
            return Err(ApiError::AuthError(String::from_str("invalid token")));
        },
    };
    match find_key(keys, kid.as_str()) {
        Some(i) => match &keys[i].rsa {
            Some(rsa) => Ok(TokenKey::Rsa { modulus: copy_text(&rsa.0), exponent: copy_text(&rsa.1) }),
            None => Ok(TokenKey::NotRsa),
        },
        None => Err(ApiError::AuthError(String::from_str("invalid token"))),
    }
}

} // verus!
