//! Requests and responses, and the canonical bytes that a request's
//! authenticator is computed over.
//!
//! The canonical bytes are the CBOR encoding of the request's fields without
//! `auth`: one byte string where there is one field, otherwise a
//! definite-length array of the fields in order, with every binary field as
//! a byte string and integers in their shortest form.

use serde_bytes::Bytes;
use vstd::prelude::*;

verus! {

/// A request from the orchestrator. Every variant but `HealthCheck` carries
/// in `auth` the HMAC of its canonical bytes.
#[derive(Debug, Clone)]
pub enum Request {
    /// Asks for a one-shot grant for `(frame_id, level, data_digest)`.
    AuthorizeConstruct { frame_id: [u8; 16], level: u32, data_digest: [u8; 32], auth: Vec<u8> },
    /// Redeems a grant for its construction ticket and the frame's seal.
    RedeemGrant { grant_id: [u8; 16], auth: Vec<u8> },
    /// Spends a construction ticket.
    ConsumeConstructionTicket { ticket: [u8; 32], auth: Vec<u8> },
    /// Asks for the seal of a registered frame.
    ComputeSeal { frame_id: [u8; 16], level: u32, data_digest: [u8; 32], auth: Vec<u8> },
    /// Asks whether a seal is the seal of a registered frame.
    VerifySeal { frame_id: [u8; 16], level: u32, data_digest: [u8; 32], seal: [u8; 32], auth: Vec<u8> },
    /// Asks after the daemon's health; not authenticated.
    HealthCheck,
}

/// The daemon's answer. `expires_at` counts nanoseconds since the Unix epoch.
#[derive(Debug, Clone)]
pub enum Response {
    AuthorizeConstructReply { grant_id: [u8; 16], expires_at: u128 },
    RedeemGrantReply { construction_ticket: [u8; 32], seal: [u8; 32], audit_id: u64 },
    ComputeSealReply { seal: [u8; 32], audit_id: u64 },
    ConsumeTicketReply { consumed: bool, audit_id: u64 },
    VerifySealReply { valid: bool, audit_id: u64 },
    HealthCheckReply { status: String, uptime_secs: u64, requests_served: u64 },
    Error { error: String, reason: String },
}

/// A response as contracts speak of it: byte fields as sequences of bytes,
/// texts as sequences of characters.
pub enum ResponseView {
    AuthorizeConstructReply { grant_id: Seq<u8>, expires_at: u128 },
    RedeemGrantReply { construction_ticket: Seq<u8>, seal: Seq<u8>, audit_id: u64 },
    ComputeSealReply { seal: Seq<u8>, audit_id: u64 },
    ConsumeTicketReply { consumed: bool, audit_id: u64 },
    VerifySealReply { valid: bool, audit_id: u64 },
    HealthCheckReply { status: Seq<char>, uptime_secs: u64, requests_served: u64 },
    Error { error: Seq<char>, reason: Seq<char> },
}

impl View for Response {
    type V = ResponseView;

    open spec fn view(&self) -> ResponseView {
        match *self {
            Response::AuthorizeConstructReply { grant_id, expires_at } => ResponseView::AuthorizeConstructReply {
                grant_id: grant_id@,
                expires_at,
            },
            Response::RedeemGrantReply { construction_ticket, seal, audit_id } => ResponseView::RedeemGrantReply {
                construction_ticket: construction_ticket@,
                seal: seal@,
                audit_id,
            },
            Response::ComputeSealReply { seal, audit_id } => ResponseView::ComputeSealReply { seal: seal@, audit_id },
            Response::ConsumeTicketReply { consumed, audit_id } => ResponseView::ConsumeTicketReply {
                consumed,
                audit_id,
            },
            Response::VerifySealReply { valid, audit_id } => ResponseView::VerifySealReply { valid, audit_id },
            Response::HealthCheckReply { status, uptime_secs, requests_served } => ResponseView::HealthCheckReply {
                status: status@,
                uptime_secs,
                requests_served,
            },
            Response::Error { error, reason } => ResponseView::Error { error: error@, reason: reason@ },
        }
    }
}

/// The head of a CBOR item: the major type in the top three bits of the first
/// byte and `value` in the shortest of the five forms that can hold it.
pub open spec fn cbor_head(major: u8, value: u64) -> Seq<u8> {
    if value <= 23 {
        seq![(major * 32 + value) as u8]
    } else if value <= 0xff {
        seq![(major * 32 + 24) as u8, value as u8]
    } else if value <= 0xffff {
        seq![(major * 32 + 25) as u8, (value / 0x100) as u8, (value % 0x100) as u8]
    } else if value <= 0xffff_ffff {
        seq![
            (major * 32 + 26) as u8,
            (value / 0x100_0000) as u8,
            (value / 0x1_0000 % 0x100) as u8,
            (value / 0x100 % 0x100) as u8,
            (value % 0x100) as u8,
        ]
    } else {
        seq![
            (major * 32 + 27) as u8,
            (value / 0x100_0000_0000_0000) as u8,
            (value / 0x1_0000_0000_0000 % 0x100) as u8,
            (value / 0x100_0000_0000 % 0x100) as u8,
            (value / 0x1_0000_0000 % 0x100) as u8,
            (value / 0x100_0000 % 0x100) as u8,
            (value / 0x1_0000 % 0x100) as u8,
            (value / 0x100 % 0x100) as u8,
            (value % 0x100) as u8,
        ]
    }
}

/// An unsigned integer as a CBOR item.
pub open spec fn cbor_uint(value: u64) -> Seq<u8> {
    cbor_head(0, value)
}

/// A byte string as a CBOR item of definite length.
pub open spec fn cbor_bytes(bytes: Seq<u8>) -> Seq<u8> {
    cbor_head(2, bytes.len() as u64) + bytes
}

/// The head of a CBOR array of `count` items.
pub open spec fn cbor_array(count: u64) -> Seq<u8> {
    cbor_head(4, count)
}

/// The canonical bytes of `(frame_id, level, data_digest)`.
pub open spec fn canonical_triple(frame_id: Seq<u8>, level: u32, data_digest: Seq<u8>) -> Seq<u8> {
    cbor_array(3) + cbor_bytes(frame_id) + cbor_uint(level as u64) + cbor_bytes(data_digest)
}

/// The canonical bytes of `(frame_id, level, data_digest, seal)`.
pub open spec fn canonical_quad(frame_id: Seq<u8>, level: u32, data_digest: Seq<u8>, seal: Seq<u8>) -> Seq<u8> {
    cbor_array(4) + cbor_bytes(frame_id) + cbor_uint(level as u64) + cbor_bytes(data_digest) + cbor_bytes(seal)
}

/// Calls `ciborium::into_writer` on one `serde_bytes::Bytes`, which writes
/// the head of a definite-length byte string and then the bytes.
#[verifier::external_body]
fn encode_byte_string(bytes: &[u8]) -> (encoded: Vec<u8>)
    ensures
        encoded@ == cbor_bytes(bytes@),
{
    let mut encoded = Vec::new();
    ciborium::into_writer(Bytes::new(bytes), &mut encoded).unwrap();
    encoded
}

/// Calls `ciborium::into_writer` on a tuple of a `serde_bytes::Bytes`, a
/// `u32` and a `serde_bytes::Bytes`, which writes the head of an array of
/// three and then the three items in order.
#[verifier::external_body]
fn encode_triple(frame_id: &[u8; 16], level: u32, data_digest: &[u8; 32]) -> (encoded: Vec<u8>)
    ensures
        encoded@ == canonical_triple(frame_id@, level, data_digest@),
{
    let mut encoded = Vec::new();
    let fields = (Bytes::new(frame_id), level, Bytes::new(data_digest));
    ciborium::into_writer(&fields, &mut encoded).unwrap();
    encoded
}

/// Calls `ciborium::into_writer` on a tuple of a `serde_bytes::Bytes`, a
/// `u32` and two more `serde_bytes::Bytes`, which writes the head of an array
/// of four and then the four items in order.
#[verifier::external_body]
fn encode_quad(frame_id: &[u8; 16], level: u32, data_digest: &[u8; 32], seal: &[u8; 32]) -> (encoded: Vec<u8>)
    ensures
        encoded@ == canonical_quad(frame_id@, level, data_digest@, seal@),
{
    let mut encoded = Vec::new();
    let fields = (Bytes::new(frame_id), level, Bytes::new(data_digest), Bytes::new(seal));
    ciborium::into_writer(&fields, &mut encoded).unwrap();
    encoded
}

/// The head of an unsigned integer tells the integer: two levels with the
/// same encoding are the same level.
#[verifier::spinoff_prover]
pub proof fn lemma_level_encoding_is_injective(first: u32, second: u32)
    requires
        cbor_uint(first as u64) == cbor_uint(second as u64),
    ensures
        first == second,
{
    let x = first as u64;
    let y = second as u64;
    let a = cbor_uint(x);
    let b = cbor_uint(y);
    assert(a.len() == b.len());
    assert(x <= 0xffff_ffff && y <= 0xffff_ffff);
    if x <= 23 {
        assert(a.len() == 1);
        assert(y <= 23);
        assert(a[0] == x as u8 && b[0] == y as u8);
    } else if x <= 0xff {
        assert(a.len() == 2);
        assert(23 < y <= 0xff);
        assert(a[1] == x as u8 && b[1] == y as u8);
    } else if x <= 0xffff {
        assert(a.len() == 3);
        assert(0xff < y <= 0xffff);
        assert(a[1] == (x / 0x100) as u8 && b[1] == (y / 0x100) as u8);
        assert(a[2] == (x % 0x100) as u8 && b[2] == (y % 0x100) as u8);
        assert(x / 0x100 == y / 0x100);
        assert(x % 0x100 == y % 0x100);
    } else {
        assert(a.len() == 5);
        assert(0xffff < y);
        assert(a[1] == (x / 0x100_0000) as u8 && b[1] == (y / 0x100_0000) as u8);
        assert(a[2] == (x / 0x1_0000 % 0x100) as u8 && b[2] == (y / 0x1_0000 % 0x100) as u8);
        assert(a[3] == (x / 0x100 % 0x100) as u8 && b[3] == (y / 0x100 % 0x100) as u8);
        assert(a[4] == (x % 0x100) as u8 && b[4] == (y % 0x100) as u8);
        assert(x / 0x100_0000 == y / 0x100_0000);
        assert(x / 0x1_0000 % 0x100 == y / 0x1_0000 % 0x100);
        assert(x / 0x100 % 0x100 == y / 0x100 % 0x100);
        assert(x % 0x100 == y % 0x100);
        assert(x / 0x1_0000 == y / 0x1_0000);
        assert(x / 0x100 == y / 0x100);
    }
}

/// The canonical bytes of a triple tell the triple.
#[verifier::spinoff_prover]
pub proof fn lemma_canonical_triple_is_injective(
    frame_id: Seq<u8>,
    level: u32,
    data_digest: Seq<u8>,
    other_frame_id: Seq<u8>,
    other_level: u32,
    other_data_digest: Seq<u8>,
)
    requires
        frame_id.len() == 16,
        other_frame_id.len() == 16,
        data_digest.len() == 32,
        other_data_digest.len() == 32,
        canonical_triple(frame_id, level, data_digest) == canonical_triple(
            other_frame_id,
            other_level,
            other_data_digest,
        ),
    ensures
        frame_id == other_frame_id,
        level == other_level,
        data_digest == other_data_digest,
{
    let a = canonical_triple(frame_id, level, data_digest);
    let b = canonical_triple(other_frame_id, other_level, other_data_digest);
    let head = cbor_uint(level as u64);
    let other_head = cbor_uint(other_level as u64);
    assert(a.len() == 52 + head.len());
    assert(b.len() == 52 + other_head.len());
    let n = head.len() as int;
    assert(other_head.len() == n);
    assert forall|i: int| 0 <= i < 16 implies frame_id[i] == other_frame_id[i] by {
        assert(a[2 + i] == frame_id[i]);
        assert(b[2 + i] == other_frame_id[i]);
    }
    assert(frame_id =~= other_frame_id);
    assert forall|i: int| 0 <= i < n implies head[i] == other_head[i] by {
        assert(a[18 + i] == head[i]);
        assert(b[18 + i] == other_head[i]);
    }
    assert(head =~= other_head);
    lemma_level_encoding_is_injective(level, other_level);
    assert forall|i: int| 0 <= i < 32 implies data_digest[i] == other_data_digest[i] by {
        assert(a[20 + n + i] == data_digest[i]);
        assert(b[20 + n + i] == other_data_digest[i]);
    }
    assert(data_digest =~= other_data_digest);
}

/// The canonical bytes of a quadruple tell the quadruple.
#[verifier::spinoff_prover]
pub proof fn lemma_canonical_quad_is_injective(
    frame_id: Seq<u8>,
    level: u32,
    data_digest: Seq<u8>,
    seal: Seq<u8>,
    other_frame_id: Seq<u8>,
    other_level: u32,
    other_data_digest: Seq<u8>,
    other_seal: Seq<u8>,
)
    requires
        frame_id.len() == 16,
        other_frame_id.len() == 16,
        data_digest.len() == 32,
        other_data_digest.len() == 32,
        seal.len() == 32,
        other_seal.len() == 32,
        canonical_quad(frame_id, level, data_digest, seal) == canonical_quad(
            other_frame_id,
            other_level,
            other_data_digest,
            other_seal,
        ),
    ensures
        frame_id == other_frame_id,
        level == other_level,
        data_digest == other_data_digest,
        seal == other_seal,
{
    let a = canonical_quad(frame_id, level, data_digest, seal);
    let b = canonical_quad(other_frame_id, other_level, other_data_digest, other_seal);
    let head = cbor_uint(level as u64);
    let other_head = cbor_uint(other_level as u64);
    assert(a.len() == 86 + head.len());
    assert(b.len() == 86 + other_head.len());
    let n = head.len() as int;
    assert(other_head.len() == n);
    assert forall|i: int| 0 <= i < 16 implies frame_id[i] == other_frame_id[i] by {
        assert(a[2 + i] == frame_id[i]);
        assert(b[2 + i] == other_frame_id[i]);
    }
    assert(frame_id =~= other_frame_id);
    assert forall|i: int| 0 <= i < n implies head[i] == other_head[i] by {
        assert(a[18 + i] == head[i]);
        assert(b[18 + i] == other_head[i]);
    }
    assert(head =~= other_head);
    lemma_level_encoding_is_injective(level, other_level);
    assert forall|i: int| 0 <= i < 32 implies data_digest[i] == other_data_digest[i] by {
        assert(a[20 + n + i] == data_digest[i]);
        assert(b[20 + n + i] == other_data_digest[i]);
    }
    assert(data_digest =~= other_data_digest);
    assert forall|i: int| 0 <= i < 32 implies seal[i] == other_seal[i] by {
        assert(a[54 + n + i] == seal[i]);
        assert(b[54 + n + i] == other_seal[i]);
    }
    assert(seal =~= other_seal);
}

/// What a request's authenticator covers: its fields without `auth`. An
/// authorization and a seal computation both cover their triple.
pub enum SignedFields {
    Triple { frame_id: [u8; 16], level: u32, data_digest: [u8; 32] },
    Quad { frame_id: [u8; 16], level: u32, data_digest: [u8; 32], seal: [u8; 32] },
    GrantId { grant_id: [u8; 16] },
    Ticket { ticket: [u8; 32] },
    Nothing,
}

/// The canonical form leaves no ambiguity: two requests with the same
/// canonical bytes have the same signed fields.
#[verifier::spinoff_prover]
pub proof fn lemma_canonical_bytes_are_unambiguous(first: Request, second: Request)
    requires
        first.spec_canonical() == second.spec_canonical(),
    ensures
        first.signed_fields() == second.signed_fields(),
{
    let a = first.spec_canonical();
    let b = second.spec_canonical();
    assert(a.len() == b.len());
    if a.len() > 0 {
        assert(a[0] == b[0]);
    }
    match (first.signed_fields(), second.signed_fields()) {
        (
            SignedFields::Triple { frame_id, level, data_digest },
            SignedFields::Triple { frame_id: other_frame_id, level: other_level, data_digest: other_data_digest },
        ) => {
            lemma_canonical_triple_is_injective(
                frame_id@,
                level,
                data_digest@,
                other_frame_id@,
                other_level,
                other_data_digest@,
            );
            assert(frame_id =~= other_frame_id);
            assert(data_digest =~= other_data_digest);
        },
        (
            SignedFields::Quad { frame_id, level, data_digest, seal },
            SignedFields::Quad {
                frame_id: other_frame_id,
                level: other_level,
                data_digest: other_data_digest,
                seal: other_seal,
            },
        ) => {
            lemma_canonical_quad_is_injective(
                frame_id@,
                level,
                data_digest@,
                seal@,
                other_frame_id@,
                other_level,
                other_data_digest@,
                other_seal@,
            );
            assert(frame_id =~= other_frame_id);
            assert(data_digest =~= other_data_digest);
            assert(seal =~= other_seal);
        },
        (SignedFields::GrantId { grant_id }, SignedFields::GrantId { grant_id: other_grant_id }) => {
            assert forall|i: int| 0 <= i < 16 implies grant_id@[i] == other_grant_id@[i] by {
                assert(a[1 + i] == grant_id@[i]);
                assert(b[1 + i] == other_grant_id@[i]);
            }
            assert(grant_id =~= other_grant_id);
        },
        (SignedFields::Ticket { ticket }, SignedFields::Ticket { ticket: other_ticket }) => {
            assert forall|i: int| 0 <= i < 32 implies ticket@[i] == other_ticket@[i] by {
                assert(a[2 + i] == ticket@[i]);
                assert(b[2 + i] == other_ticket@[i]);
            }
            assert(ticket =~= other_ticket);
        },
        _ => {},
    }
}

/// The canonical bytes of a request are few: at most 108.
pub proof fn lemma_canonical_len(request: Request)
    ensures
        request.spec_canonical().len() <= 108,
{
}

impl Request {
    /// The authenticator that the request carries, if its variant carries one.
    pub open spec fn spec_auth(&self) -> Option<Seq<u8>> {
        match self {
            Request::AuthorizeConstruct { auth, .. } => Some(auth@),
            Request::RedeemGrant { auth, .. } => Some(auth@),
            Request::ConsumeConstructionTicket { auth, .. } => Some(auth@),
            Request::ComputeSeal { auth, .. } => Some(auth@),
            Request::VerifySeal { auth, .. } => Some(auth@),
            Request::HealthCheck => None,
        }
    }

    /// The fields that the request's authenticator covers.
    pub open spec fn signed_fields(&self) -> SignedFields {
        match *self {
            Request::AuthorizeConstruct { frame_id, level, data_digest, .. } => SignedFields::Triple {
                frame_id,
                level,
                data_digest,
            },
            Request::RedeemGrant { grant_id, .. } => SignedFields::GrantId { grant_id },
            Request::ConsumeConstructionTicket { ticket, .. } => SignedFields::Ticket { ticket },
            Request::ComputeSeal { frame_id, level, data_digest, .. } => SignedFields::Triple {
                frame_id,
                level,
                data_digest,
            },
            Request::VerifySeal { frame_id, level, data_digest, seal, .. } => SignedFields::Quad {
                frame_id,
                level,
                data_digest,
                seal,
            },
            Request::HealthCheck => SignedFields::Nothing,
        }
    }

    /// The canonical bytes of the request: its fields without `auth`.
    pub open spec fn spec_canonical(&self) -> Seq<u8> {
        match self {
            Request::AuthorizeConstruct { frame_id, level, data_digest, .. } => canonical_triple(
                frame_id@,
                *level,
                data_digest@,
            ),
            Request::RedeemGrant { grant_id, .. } => cbor_bytes(grant_id@),
            Request::ConsumeConstructionTicket { ticket, .. } => cbor_bytes(ticket@),
            Request::ComputeSeal { frame_id, level, data_digest, .. } => canonical_triple(
                frame_id@,
                *level,
                data_digest@,
            ),
            Request::VerifySeal { frame_id, level, data_digest, seal, .. } => canonical_quad(
                frame_id@,
                *level,
                data_digest@,
                seal@,
            ),
            Request::HealthCheck => Seq::empty(),
        }
    }

    /// The authenticator that the request carries; `None` for the variant
    /// that is not authenticated.
    pub fn auth(&self) -> (found: Option<&[u8]>)
        ensures
            found is Some == self.spec_auth() is Some,
            found matches Some(bytes) ==> Some(bytes@) == self.spec_auth(),
    {
        match self {
            Request::AuthorizeConstruct { auth, .. } => Some(auth.as_slice()),
            Request::RedeemGrant { auth, .. } => Some(auth.as_slice()),
            Request::ConsumeConstructionTicket { auth, .. } => Some(auth.as_slice()),
            Request::ComputeSeal { auth, .. } => Some(auth.as_slice()),
            Request::VerifySeal { auth, .. } => Some(auth.as_slice()),
            Request::HealthCheck => None,
        }
    }

    /// Whether the request must carry a valid authenticator: every variant
    /// but `HealthCheck`.
    pub fn requires_auth(&self) -> (needed: bool)
        ensures
            needed == !(*self is HealthCheck),
            needed == self.spec_auth() is Some,
    {
        match self {
            Request::HealthCheck => false,
            _ => true,
        }
    }

    /// The canonical bytes of the request, over which its authenticator is
    /// computed. `HealthCheck` has none.
    pub fn canonical_bytes_without_auth(&self) -> (bytes: Vec<u8>)
        ensures
            bytes@ == self.spec_canonical(),
    {
        match self {
            Request::AuthorizeConstruct { frame_id, level, data_digest, .. } => encode_triple(
                frame_id,
                *level,
                data_digest,
            ),
            Request::RedeemGrant { grant_id, .. } => encode_byte_string(grant_id.as_slice()),
            Request::ConsumeConstructionTicket { ticket, .. } => encode_byte_string(ticket.as_slice()),
            Request::ComputeSeal { frame_id, level, data_digest, .. } => encode_triple(frame_id, *level, data_digest),
            Request::VerifySeal { frame_id, level, data_digest, seal, .. } => encode_quad(
                frame_id,
                *level,
                data_digest,
                seal,
            ),
            Request::HealthCheck => Vec::new(),
        }
    }
}

} // verus!
