//! The authorization guard's header handling: extracting the bearer
//! credential from the transport's `Authorization` value.

use vstd::prelude::*;
use vstd::string::*;

use crate::errors::{SResult, YaddakError, YaddakErrorKind};
use crate::text::{tail_after, tail_after_last};

verus! {

/// The bearer token carried by an `Authorization` value: its last
/// space-delimited segment, which skips an optional scheme prefix such as
/// `Bearer `.
pub open spec fn bearer_token(header: Seq<char>) -> Seq<char> {
    tail_after(header, ' ')
}

/// Extracts the bearer token from the `Authorization` value, when one was
/// sent.  A missing header or an empty token is a missing-credential
/// failure.
pub fn auth_handler(header: Option<&String>) -> (r: SResult<String>)
    ensures
        match header {
            None => r is Err && r->Err_0.kind == YaddakErrorKind::AuthError && r->Err_0.msg()
                == "No Authorization Header"@,
            Some(h) => {
                if bearer_token(h@).len() == 0 {
                    r is Err && r->Err_0.kind == YaddakErrorKind::AuthError && r->Err_0.msg()
                        == "Authorization Header is empty"@
                } else {
                    r is Ok && r->Ok_0@ == bearer_token(h@)
                }
            },
        },
{
    match header {
        Some(value) => {
            let token = tail_after_last(value.as_str(), ' ');
            if token.as_str().unicode_len() == 0 {
                Err(YaddakError::authorize_error(String::from_str("Authorization Header is empty")))
            } else {
                Ok(token)
            }
        },
        None => Err(YaddakError::authorize_error(String::from_str("No Authorization Header"))),
    }
}

} // verus!
