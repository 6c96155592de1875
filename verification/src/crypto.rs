//! The daemon's two secrets and the seals computed under them.
//!
//! A seal is a BLAKE2s-256 keyed MAC over `frame_id || be32(level) || data_digest`.

use crate::entropy::fill_random;
use crate::entropy::EntropyError;
use blake2::digest::FixedOutput;
use blake2::digest::KeyInit;
use blake2::digest::Update;
use blake2::Blake2sMac256;
use subtle::ConstantTimeEq;
use vstd::prelude::*;

verus! {

/// The BLAKE2s-256 keyed MAC of `message` under `key`, as the `blake2` crate
/// computes it.
pub uninterp spec fn blake2s_mac256(key: Seq<u8>, message: Seq<u8>) -> Seq<u8>;

/// The four bytes of `level`, most significant first.
pub open spec fn be32(level: u32) -> Seq<u8> {
    seq![
        (level >> 24) as u8,
        ((level >> 16) & 0xff) as u8,
        ((level >> 8) & 0xff) as u8,
        (level & 0xff) as u8,
    ]
}

/// The byte string that a seal authenticates.
pub open spec fn seal_message(frame_id: Seq<u8>, level: u32, data_digest: Seq<u8>) -> Seq<u8> {
    frame_id + be32(level) + data_digest
}

/// The seal of a triple under `seal_key`.
pub open spec fn seal_of(seal_key: Seq<u8>, frame_id: Seq<u8>, level: u32, data_digest: Seq<u8>) -> Seq<u8> {
    blake2s_mac256(seal_key, seal_message(frame_id, level, data_digest))
}

/// The four bytes of a level tell the level.
#[verifier::spinoff_prover]
pub proof fn lemma_be32_is_injective(level: u32, other: u32)
    requires
        be32(level) == be32(other),
    ensures
        level == other,
{
    let a = be32(level);
    let b = be32(other);
    assert(a[0] == b[0] && a[1] == b[1] && a[2] == b[2] && a[3] == b[3]);
    assert((level >> 24) as u8 == (other >> 24) as u8 && ((level >> 16) & 0xff) as u8 == ((other >> 16) & 0xff) as u8
        && ((level >> 8) & 0xff) as u8 == ((other >> 8) & 0xff) as u8 && (level & 0xff) as u8 == (other & 0xff) as u8
        ==> level == other) by (bit_vector);
}

/// The message that a seal authenticates tells the triple: different
/// triples give different messages.
#[verifier::spinoff_prover]
pub proof fn lemma_seal_message_is_injective(
    frame_id: [u8; 16],
    level: u32,
    data_digest: [u8; 32],
    other_frame_id: [u8; 16],
    other_level: u32,
    other_data_digest: [u8; 32],
)
    requires
        seal_message(frame_id@, level, data_digest@) == seal_message(other_frame_id@, other_level, other_data_digest@),
    ensures
        frame_id == other_frame_id,
        level == other_level,
        data_digest == other_data_digest,
{
    let a = seal_message(frame_id@, level, data_digest@);
    let b = seal_message(other_frame_id@, other_level, other_data_digest@);
    assert forall|i: int| 0 <= i < 16 implies frame_id@[i] == other_frame_id@[i] by {
        assert(a[i] == frame_id@[i]);
        assert(b[i] == other_frame_id@[i]);
    }
    assert(frame_id =~= other_frame_id);
    assert forall|i: int| 0 <= i < 4 implies be32(level)[i] == be32(other_level)[i] by {
        assert(a[16 + i] == be32(level)[i]);
        assert(b[16 + i] == be32(other_level)[i]);
    }
    assert(be32(level) =~= be32(other_level));
    lemma_be32_is_injective(level, other_level);
    assert forall|i: int| 0 <= i < 32 implies data_digest@[i] == other_data_digest@[i] by {
        assert(a[20 + i] == data_digest@[i]);
        assert(b[20 + i] == other_data_digest@[i]);
    }
    assert(data_digest =~= other_data_digest);
}

/// Calls `Blake2sMac256::new_from_slice`, `update` and `finalize_fixed` of the
/// `blake2` crate. The result is named, not described: it is the crate's MAC
/// of `message` under `key`. A 32-byte key is within the length the
/// constructor accepts.
#[verifier::external_body]
fn keyed_mac(key: &[u8; 32], message: &[u8]) -> (tag: [u8; 32])
    ensures
        tag@ == blake2s_mac256(key@, message@),
{
    let mut mac = Blake2sMac256::new_from_slice(key).unwrap();
    mac.update(message);
    mac.finalize_fixed().into()
}

/// Calls `subtle::ConstantTimeEq::ct_eq` on two byte slices, which yields 1
/// exactly when they are equal (slices of different lengths are unequal).
#[verifier::external_body]
pub(crate) fn constant_time_eq(left: &[u8], right: &[u8]) -> (same: bool)
    ensures
        same == (left@ == right@),
{
    left.ct_eq(right).into()
}

/// The construction token and the seal key.
pub struct Secrets {
    construction_token: [u8; 32],
    seal_key: [u8; 32],
}

impl Secrets {
    /// The construction token's bytes.
    pub closed spec fn token(&self) -> Seq<u8> {
        self.construction_token@
    }

    /// The seal key's bytes.
    pub closed spec fn key(&self) -> Seq<u8> {
        self.seal_key@
    }

    /// The seal this value computes for a triple.
    pub open spec fn spec_seal(&self, frame_id: [u8; 16], level: u32, data_digest: [u8; 32]) -> Seq<u8> {
        seal_of(self.key(), frame_id@, level, data_digest@)
    }

    /// Whether this value accepts `seal` as the seal of a triple.
    pub open spec fn spec_verify(&self, frame_id: [u8; 16], level: u32, data_digest: [u8; 32], seal: Seq<u8>) -> bool {
        seal == self.spec_seal(frame_id, level, data_digest)
    }

    /// A computed seal verifies: the seal that is computed for a triple is
    /// accepted for that triple.
    pub proof fn lemma_computed_seal_verifies(&self, frame_id: [u8; 16], level: u32, data_digest: [u8; 32])
        ensures
            self.spec_verify(frame_id, level, data_digest, self.spec_seal(frame_id, level, data_digest)),
    {
    }

    /// The seal of one triple is accepted for another only where the MAC
    /// gives two different messages the same tag.
    pub proof fn lemma_wrong_triple_needs_a_collision(
        &self,
        frame_id: [u8; 16],
        level: u32,
        data_digest: [u8; 32],
        other_frame_id: [u8; 16],
        other_level: u32,
        other_data_digest: [u8; 32],
    )
        requires
            frame_id != other_frame_id || level != other_level || data_digest != other_data_digest,
            self.spec_verify(
                other_frame_id,
                other_level,
                other_data_digest,
                self.spec_seal(frame_id, level, data_digest),
            ),
        ensures
            seal_message(frame_id@, level, data_digest@) != seal_message(
                other_frame_id@,
                other_level,
                other_data_digest@,
            ),
            blake2s_mac256(self.key(), seal_message(frame_id@, level, data_digest@)) == blake2s_mac256(
                self.key(),
                seal_message(other_frame_id@, other_level, other_data_digest@),
            ),
    {
        if seal_message(frame_id@, level, data_digest@) == seal_message(
            other_frame_id@,
            other_level,
            other_data_digest@,
        ) {
            lemma_seal_message_is_injective(
                frame_id,
                level,
                data_digest,
                other_frame_id,
                other_level,
                other_data_digest,
            );
        }
    }

    /// A seal depends on the seal key and the triple alone: two values with
    /// the same seal key compute the same seal for the same triple.
    pub proof fn lemma_seal_is_a_function(&self, other: &Secrets, frame_id: [u8; 16], level: u32, data_digest: [u8; 32])
        requires
            self.key() == other.key(),
        ensures
            self.spec_seal(frame_id, level, data_digest) == other.spec_seal(frame_id, level, data_digest),
    {
    }

    /// Partitions 64 bytes into the two secrets: the first half is the
    /// construction token, the second the seal key.
    pub fn from_entropy(bytes: &[u8; 64]) -> (secrets: Secrets)
        ensures
            secrets.token() == bytes@.subrange(0, 32),
            secrets.key() == bytes@.subrange(32, 64),
    {
        let mut construction_token = [0u8; 32];
        let mut seal_key = [0u8; 32];
        let mut i: usize = 0;
        while i < 32
            invariant
                i <= 32,
                forall|j: int| 0 <= j < i ==> construction_token@[j] == bytes@[j],
                forall|j: int| 0 <= j < i ==> seal_key@[j] == bytes@[j + 32],
            decreases 32 - i,
        {
            construction_token[i] = bytes[i];
            seal_key[i] = bytes[i + 32];
            i += 1;
        }
        assert(construction_token@ =~= bytes@.subrange(0, 32));
        assert(seal_key@ =~= bytes@.subrange(32, 64));
        Secrets { construction_token, seal_key }
    }

    /// Draws 64 random bytes and partitions them. Fails only when the system
    /// generator does.
    pub fn generate() -> (outcome: Result<Secrets, EntropyError>)
        ensures
            outcome matches Ok(secrets) ==> secrets.token().len() == 32 && secrets.key().len() == 32,
    {
        match fill_random::<64>() {
            Some(bytes) => Ok(Secrets::from_entropy(&bytes)),
            None => Err(EntropyError),
        }
    }

    /// The construction token.
    pub fn construction_ticket(&self) -> (token: [u8; 32])
        ensures
            token@ == self.token(),
    {
        self.construction_token
    }

    /// The seal of `(frame_id, level, data_digest)` under the seal key.
    pub fn compute_seal(&self, frame_id: [u8; 16], level: u32, data_digest: &[u8; 32]) -> (seal: [u8; 32])
        ensures
            seal@ == self.spec_seal(frame_id, level, *data_digest),
    {
        let mut message: Vec<u8> = Vec::with_capacity(52);
        message.extend_from_slice(frame_id.as_slice());
        message.push((level >> 24) as u8);
        message.push(((level >> 16) & 0xff) as u8);
        message.push(((level >> 8) & 0xff) as u8);
        message.push((level & 0xff) as u8);
        message.extend_from_slice(data_digest.as_slice());
        assert(message@ =~= seal_message(frame_id@, level, data_digest@));
        keyed_mac(&self.seal_key, message.as_slice())
    }

    /// Whether `seal` is the seal of the triple. The comparison runs in
    /// constant time; a candidate of another length is refused on its length.
    pub fn verify_seal(&self, frame_id: [u8; 16], level: u32, data_digest: &[u8; 32], seal: &[u8]) -> (valid: bool)
        ensures
            valid == self.spec_verify(frame_id, level, *data_digest, seal@),
    {
        let expected = self.compute_seal(frame_id, level, data_digest);
        if seal.len() != 32 {
            return false;
        }
        constant_time_eq(seal, expected.as_slice())
    }
}

} // verus!
