//! The authorization gate: one static bearer credential, compared byte for
//! byte with the `Authorization` header.

use vstd::prelude::*;
use vstd::utf8::encode_utf8;
use crate::text::bytes_equal;

verus! {

/// The configuration that the core reads.
#[derive(Debug, PartialEq, Eq)]
pub struct Secrets {
    /// The token that callers present as `Bearer <token>`, and that token
    /// issuance hands out.
    pub dummy_token: String,
    /// The whole `Authorization` header that token issuance expects.
    pub basic_auth_header: String,
}

impl Clone for Secrets {
    fn clone(&self) -> (res: Self)
        ensures
            res == *self,
    {
        Secrets {
            dummy_token: self.dummy_token.clone(),
            basic_auth_header: self.basic_auth_header.clone(),
        }
    }
}

/// The bytes of a header, if there is one.
pub open spec fn header_bytes(header: Option<&[u8]>) -> Option<Seq<u8>> {
    match header {
        Some(bytes) => Some(bytes@),
        None => None,
    }
}

/// The bytes of the header that carries `token`: `Bearer`, a space, the token.
pub open spec fn bearer_credential(token: Seq<char>) -> Seq<u8> {
    encode_utf8("Bearer "@ + token)
}

/// Whether `header` is exactly the credential for `token`. An absent header is
/// not, nor one that differs in any byte; so one that is not UTF-8 is not.
pub open spec fn authorized(token: Seq<char>, header: Option<Seq<u8>>) -> bool {
    header == Some(bearer_credential(token))
}

/// Whether the header is there and is `expected`, byte for byte.
pub fn header_is(header: Option<&[u8]>, expected: &str) -> (same: bool)
    ensures
        same == (header_bytes(header) == Some(encode_utf8(expected@))),
{
    match header {
        Some(bytes) => bytes_equal(bytes, expected.as_bytes()),
        None => false,
    }
}

/// Allows a call exactly where the `Authorization` header is `Bearer`, a space
/// and the configured token.
pub fn authorizer(secrets: &Secrets, header: Option<&[u8]>) -> (allowed: bool)
    ensures
        allowed == authorized(secrets.dummy_token@, header_bytes(header)),
{
    let credential = String::from_str("Bearer ").concat(secrets.dummy_token.as_str());
    header_is(header, credential.as_str())
}

} // verus!
