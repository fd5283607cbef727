use vstd::prelude::*;

use crate::api::{message_of, status_of, ApiError, ApiErrorView};
use crate::text::{chars_of, copy_text, same_text};

verus! {

/// A result whose error is an [`ApiError`].
pub type ApiResponse<T> = Result<T, ApiError>;

/// The message that `code` has among `entries`: that of its first entry.
pub open spec fn message_for(entries: Seq<(Seq<char>, Seq<char>)>, code: Seq<char>) -> Option<
    Seq<char>,
>
    decreases entries.len(),
{
    if entries.len() == 0 {
        None
    } else if entries[0].0 == code {
        Some(entries[0].1)
    } else {
        message_for(entries.drop_first(), code)
    }
}

/// The error that answers a failure with `code`: a client error when the code
/// begins with `4`, a server error otherwise, with the code's message.
pub open spec fn error_for(code: Seq<char>, message: Seq<char>) -> ApiErrorView {
    if code.len() > 0 && code[0] == '4' {
        ApiErrorView::ClientError(message)
    } else {
        ApiErrorView::ServerError(message)
    }
}

/// The messages of the error codes, each code with its text.
pub struct ErrorCodes {
    entries: Vec<(String, String)>,
}

impl ErrorCodes {
    /// The codes and their messages, in order.
    pub closed spec fn entries(&self) -> Seq<(Seq<char>, Seq<char>)> {
        self.entries@.map_values(|e: (String, String)| (e.0@, e.1@))
    }

    /// The message of `code`, if it has one.
    pub open spec fn message(&self, code: Seq<char>) -> Option<Seq<char>> {
        message_for(self.entries(), code)
    }

    /// The codes and messages given, in order; where a code comes twice, its
    /// first message counts.
    pub fn new(entries: Vec<(String, String)>) -> (c: Self)
        ensures
            c.entries() == entries@.map_values(|e: (String, String)| (e.0@, e.1@)),
    {
        ErrorCodes { entries }
    }

    /// The message of `code`, if it has one.
    pub fn lookup(&self, code: &str) -> (m: Option<String>)
        ensures
            match m {
                Some(s) => self.message(code@) == Some(s@),
                None => self.message(code@) is None,
            },
    {
        let ghost es = self.entries();
        let mut i: usize = 0;
        assert(es.skip(0) =~= es);
        while i < self.entries.len()
            invariant
                es == self.entries(),
                i <= self.entries@.len(),
                message_for(es, code@) == message_for(es.skip(i as int), code@),
            decreases self.entries.len() - i,
        {
            assert(es.skip(i as int)[0] == es[i as int]);
            assert(es[i as int] == (self.entries@[i as int].0@, self.entries@[i as int].1@));
            if same_text(self.entries[i].0.as_str(), code) {
                return Some(copy_text(&self.entries[i].1));
            }
            assert(es.skip(i as int).drop_first() =~= es.skip(i + 1));
            i = i + 1;
        }
        None
    }
}

/// The error that answers a failure with `code`: a client error when the code
/// begins with `4`, a server error otherwise, carrying the code's message.
/// The code must have a message.
pub fn error_for_code(code: &str, codes: &ErrorCodes) -> (e: ApiError)
    requires
        codes.message(code@) is Some,
    ensures
        e@ == error_for(code@, codes.message(code@)->0),
{
    let message = match codes.lookup(code) {
        Some(m) => m,
        None => String::new(),
    };
    let cs = chars_of(code);
    let is_client = cs.len() > 0 && cs[0] == '4';
    if is_client {
        ApiError::ClientError(message)
    } else {
        ApiError::ServerError(message)
    }
}

/// Turns the outcome of an operation into the answer of a request: a success
/// passes through, a failure becomes the error of its code.
pub trait IntoApiResponse<T>: Sized {
    /// Whether the operation failed.
    spec fn failed(&self) -> bool;

    /// What the operation gave, when it succeeded.
    spec fn value(&self) -> T;

    /// A success passes through; a failure becomes [`error_for_code`] of
    /// `error_code`, which must then have a message.
    fn into_response(self, error_code: &str, codes: &ErrorCodes) -> (r: ApiResponse<T>)
        requires
            self.failed() ==> codes.message(error_code@) is Some,
        ensures
            !self.failed() ==> r == Ok::<T, ApiError>(self.value()),
            self.failed() ==> (r is Err && r->Err_0@ == error_for(
                error_code@,
                codes.message(error_code@)->0,
            )),
    ;
}

impl<T, E> IntoApiResponse<T> for Result<T, E> {
    open spec fn failed(&self) -> bool {
        self is Err
    }

    open spec fn value(&self) -> T {
        self->Ok_0
    }

    fn into_response(self, error_code: &str, codes: &ErrorCodes) -> (r: ApiResponse<T>) {
        match self {
            Ok(t) => Ok(t),
            Err(_) => Err(error_for_code(error_code, codes)),
        }
    }
}

/// A failure answers 400 when its code begins with `4` and 500 otherwise, and
/// its body is the code's message.
pub proof fn status_follows_error_code(code: Seq<char>, message: Seq<char>)
    ensures
        status_of(error_for(code, message)) == (if code.len() > 0 && code[0] == '4' {
            400u16
        } else {
            500u16
        }),
        message_of(error_for(code, message)) == message,
{
}

} // verus!
