//! The client side of the `kryxd` daemon: where it is, the URL of a v2
//! endpoint, and the errors of talking to it (the HTTP call itself is made
//! outside).
use vstd::prelude::*;
use crate::text::{
    chars_of, copy_range, dec, owned, push_all, push_dec, push_str, string_from_chars,
    strip_trailing, strip_trailing_chars,
};

verus! {

/// Where `kryxd` listens when `KRYXD_URL` is not set.
pub const DEFAULT_KRYXD_URL: &'static str = "http://127.0.0.1:8080";

/// An error of talking to `kryxd`.
#[derive(Debug)]
pub enum KryxdError {
    /// It could not be reached (connection refused, timeout…).
    Unreachable(String),
    /// It answered with an HTTP error status.
    HttpStatus { status: u16, body: String },
    /// Its answer was not the JSON expected.
    Decode(String),
}

/// The message of an error (at most the first 200 characters of an error
/// body are shown).
pub open spec fn kryxd_error_message(e: KryxdError) -> Seq<char> {
    match e {
        KryxdError::Unreachable(d) => "KVE Backend Error: daemon is unreachable ("@ + d@ + seq![')'],
        KryxdError::HttpStatus { status, body } => "KVE Backend Error: HTTP "@ + dec(status as nat)
            + " — "@ + if body@.len() <= 200 {
            body@
        } else {
            body@.take(200)
        },
        KryxdError::Decode(d) => "KVE Backend Error: malformed response ("@ + d@ + seq![')'],
    }
}

impl KryxdError {
    /// The error as the user reads it.
    pub fn message(&self) -> (m: String)
        ensures
            m@ == kryxd_error_message(*self),
    {
        match self {
            KryxdError::Unreachable(d) => {
                let mut v = chars_of("KVE Backend Error: daemon is unreachable (");
                push_str(&mut v, d.as_str());
                v.push(')');
                string_from_chars(v.as_slice())
            },
            KryxdError::HttpStatus { status, body } => {
                let mut v = chars_of("KVE Backend Error: HTTP ");
                push_dec(&mut v, *status as u64);
                push_str(&mut v, " — ");
                let b = chars_of(body.as_str());
                if b.len() <= 200 {
                    push_all(&mut v, b.as_slice());
                } else {
                    let t = copy_range(b.as_slice(), 0, 200);
                    assert(t@ =~= b@.take(200));
                    push_all(&mut v, t.as_slice());
                }
                string_from_chars(v.as_slice())
            },
            KryxdError::Decode(d) => {
                let mut v = chars_of("KVE Backend Error: malformed response (");
                push_str(&mut v, d.as_str());
                v.push(')');
                string_from_chars(v.as_slice())
            },
        }
    }
}

/// The base URL of `kryxd`: `KRYXD_URL` when set, else the default.
pub fn base_url_from(env: Option<String>) -> (u: String)
    ensures
        u@ == match env {
            Some(e) => e@,
            None => DEFAULT_KRYXD_URL@,
        },
{
    match env {
        Some(e) => e,
        None => owned(DEFAULT_KRYXD_URL),
    }
}

/// The URL of a v2 endpoint: the base without trailing slashes, then
/// `/api/v2/` and the path.
pub fn v2_url(base: &str, path: &str) -> (u: String)
    ensures
        u@ == strip_trailing(base@, '/') + "/api/v2/"@ + path@,
{
    let b = chars_of(base);
    let mut v = strip_trailing_chars(b.as_slice(), '/');
    push_str(&mut v, "/api/v2/");
    push_str(&mut v, path);
    string_from_chars(v.as_slice())
}

/// The body shown when an error response's body cannot be read.
pub const UNREADABLE_BODY: &'static str = "<body unreadable>";

} // verus!
