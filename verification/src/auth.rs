//! Request authentication: HMAC-SHA-256 under the session key over a
//! request's canonical bytes.

use crate::protocol::lemma_canonical_bytes_are_unambiguous;
use crate::protocol::lemma_canonical_len;
use crate::protocol::Request;
use ring::hmac;
use vstd::prelude::*;

verus! {

/// The HMAC-SHA-256 tag of `data` under `key`, as `ring` computes it.
pub uninterp spec fn hmac_sha256(key: Seq<u8>, data: Seq<u8>) -> Seq<u8>;

/// The authenticator that `request` must carry under `session_key`.
pub open spec fn expected_auth(session_key: Seq<u8>, request: Request) -> Seq<u8> {
    hmac_sha256(session_key, request.spec_canonical())
}

/// Whether `request` passes authentication under `session_key`: it needs no
/// authenticator, or it carries the right one.
pub open spec fn authentic(session_key: Seq<u8>, request: Request) -> bool {
    match request.spec_auth() {
        None => true,
        Some(auth) => auth == expected_auth(session_key, request),
    }
}

/// An authenticator binds the signed fields: where one authenticator is
/// right for two requests whose signed fields differ, HMAC gives two
/// different messages the same tag.
pub proof fn lemma_auth_binds_the_fields(session_key: Seq<u8>, first: Request, second: Request)
    requires
        first.spec_auth() is Some,
        first.spec_auth() == second.spec_auth(),
        authentic(session_key, first),
        authentic(session_key, second),
        first.signed_fields() != second.signed_fields(),
    ensures
        first.spec_canonical() != second.spec_canonical(),
        hmac_sha256(session_key, first.spec_canonical()) == hmac_sha256(session_key, second.spec_canonical()),
{
    if first.spec_canonical() == second.spec_canonical() {
        lemma_canonical_bytes_are_unambiguous(first, second);
    }
}

/// Calls `ring::hmac::Key::new` with `HMAC_SHA256` and `ring::hmac::sign`.
/// The tag is named, not described. Inputs of four gigabytes and more are
/// left out, far below the length at which `sign` gives up.
#[verifier::external_body]
fn hmac_sign(key: &[u8; 32], data: &[u8]) -> (tag: Vec<u8>)
    requires
        data@.len() <= 0xffff_ffff,
    ensures
        tag@ == hmac_sha256(key@, data@),
{
    let key = hmac::Key::new(hmac::HMAC_SHA256, key);
    hmac::sign(&key, data).as_ref().to_vec()
}

/// Calls `ring::hmac::Key::new` with `HMAC_SHA256` and `ring::hmac::verify`,
/// which computes the tag of `data` and compares it with `tag` in constant
/// time.
#[verifier::external_body]
fn hmac_verify(key: &[u8; 32], data: &[u8], tag: &[u8]) -> (valid: bool)
    requires
        data@.len() <= 0xffff_ffff,
    ensures
        valid == (tag@ == hmac_sha256(key@, data@)),
{
    let key = hmac::Key::new(hmac::HMAC_SHA256, key);
    hmac::verify(&key, data, tag).is_ok()
}

/// The authenticator of `request` under `session_key`.
pub fn compute_auth(session_key: &[u8; 32], request: &Request) -> (tag: Vec<u8>)
    ensures
        tag@ == expected_auth(session_key@, *request),
{
    let canonical = request.canonical_bytes_without_auth();
    proof {
        lemma_canonical_len(*request);
    }
    hmac_sign(session_key, canonical.as_slice())
}

/// Whether `request` passes authentication under `session_key`. The
/// comparison of authenticators runs in constant time.
pub fn validate_auth(session_key: &[u8; 32], request: &Request) -> (valid: bool)
    ensures
        valid == authentic(session_key@, *request),
{
    match request.auth() {
        None => true,
        Some(provided) => {
            let canonical = request.canonical_bytes_without_auth();
            proof {
                lemma_canonical_len(*request);
            }
            hmac_verify(session_key, canonical.as_slice(), provided)
        },
    }
}

} // verus!
