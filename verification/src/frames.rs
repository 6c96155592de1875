//! The registered frames: the frame ids that a redeemed grant has admitted.
//!
//! Seals are computed and verified only for frames in this table, and only a
//! redemption puts a frame in it.

use crate::grants::GrantRequest;
use dashmap::DashMap;
use uuid::Uuid;
use vstd::prelude::*;

verus! {

/// What is on record for a registered frame.
#[derive(Clone, Copy, Debug, PartialEq, Eq)]
pub struct FrameMetadata {
    pub level: u32,
    pub data_digest: [u8; 32],
}

/// The map that holds the registered frames, by frame id.
pub type FrameMap = DashMap<[u8; 16], FrameMetadata>;

/// The entries of a map of frames.
pub uninterp spec fn frame_entries(frames: FrameMap) -> Map<[u8; 16], FrameMetadata>;

/// The table with no frame in it.
pub open spec fn no_frames() -> Map<[u8; 16], FrameMetadata> {
    Map::empty()
}

/// The lower-case hexadecimal digit of a value below 16.
pub open spec fn hex_digit(nibble: u8) -> char {
    seq!['0', '1', '2', '3', '4', '5', '6', '7', '8', '9', 'a', 'b', 'c', 'd', 'e', 'f'][nibble as int]
}

/// Two lower-case hexadecimal digits for each byte, in order.
pub open spec fn hex_text(bytes: Seq<u8>) -> Seq<char>
    decreases bytes.len(),
{
    if bytes.len() == 0 {
        Seq::empty()
    } else {
        hex_text(bytes.drop_last()) + seq![hex_digit(bytes.last() >> 4), hex_digit(bytes.last() & 0x0f)]
    }
}

/// A 16-byte identifier in hyphenated form: groups of 4, 2, 2, 2 and 6 bytes
/// in lower-case hexadecimal.
pub open spec fn hyphenated(id: Seq<u8>) -> Seq<char> {
    hex_text(id.subrange(0, 4)) + seq!['-'] + hex_text(id.subrange(4, 6)) + seq!['-'] + hex_text(
        id.subrange(6, 8),
    ) + seq!['-'] + hex_text(id.subrange(8, 10)) + seq!['-'] + hex_text(id.subrange(10, 16))
}

/// The metadata that a grant registers for its frame.
pub open spec fn metadata_of(grant: GrantRequest) -> FrameMetadata {
    FrameMetadata { level: grant.level, data_digest: grant.data_digest }
}

/// Registration is idempotent in the triple: registering the same grant
/// again leaves the table as the first registration left it.
pub proof fn lemma_registration_is_idempotent(entries: Map<[u8; 16], FrameMetadata>, grant: GrantRequest)
    ensures
        entries.insert(grant.frame_id, metadata_of(grant)).insert(grant.frame_id, metadata_of(grant))
            == entries.insert(grant.frame_id, metadata_of(grant)),
{
    assert(entries.insert(grant.frame_id, metadata_of(grant)).insert(grant.frame_id, metadata_of(grant))
        =~= entries.insert(grant.frame_id, metadata_of(grant)));
}

/// Calls `Uuid::from_bytes` and the `Display` of `uuid::Uuid`, which writes
/// the identifier in lower-case hyphenated form.
#[verifier::external_body]
pub(crate) fn frame_id_text(frame_id: &[u8; 16]) -> (text: String)
    ensures
        text@ == hyphenated(frame_id@),
{
    Uuid::from_bytes(*frame_id).to_string()
}

/// `DashMap::new`: an empty map.
#[verifier::external_body]
fn frames_new() -> (fresh: FrameMap)
    ensures
        frame_entries(fresh) == no_frames(),
{
    DashMap::new()
}

/// `DashMap::insert`: the key holds the value afterwards, other keys are
/// untouched.
#[verifier::external_body]
fn frames_insert(frames: &mut FrameMap, frame_id: [u8; 16], metadata: FrameMetadata)
    ensures
        frame_entries(*final(frames)) == frame_entries(*old(frames)).insert(frame_id, metadata),
{
    frames.insert(frame_id, metadata);
}

/// `DashMap::contains_key`: whether the key has an entry.
#[verifier::external_body]
fn frames_contains(frames: &FrameMap, frame_id: &[u8; 16]) -> (present: bool)
    ensures
        present == frame_entries(*frames).contains_key(*frame_id),
{
    frames.contains_key(frame_id)
}

/// `DashMap::get`: the key's value, copied out, if it has one.
#[verifier::external_body]
fn frames_get(frames: &FrameMap, frame_id: &[u8; 16]) -> (found: Option<FrameMetadata>)
    ensures
        found == (if frame_entries(*frames).contains_key(*frame_id) {
            Some(frame_entries(*frames)[*frame_id])
        } else {
            None
        }),
{
    match frames.get(frame_id) {
        Some(entry) => Some(*entry),
        None => None,
    }
}

/// An update named a frame that no redemption has registered.
#[derive(Clone, Copy, Debug, PartialEq, Eq)]
pub struct UnknownFrame {
    pub frame_id: [u8; 16],
}

impl UnknownFrame {
    /// Text for operators.
    pub fn message(&self) -> (text: String)
        ensures
            text@ == "Cannot update unknown frame: "@ + hyphenated(self.frame_id@),
    {
        let id = frame_id_text(&self.frame_id);
        "Cannot update unknown frame: ".to_string().concat(id.as_str())
    }
}

/// The table of registered frames.
pub struct RegisteredFrameTable {
    frames: FrameMap,
}

impl RegisteredFrameTable {
    /// The registered frames with their metadata, by frame id.
    pub closed spec fn entries(&self) -> Map<[u8; 16], FrameMetadata> {
        frame_entries(self.frames)
    }

    /// A table with no frame in it.
    pub fn new() -> (table: RegisteredFrameTable)
        ensures
            table.entries() == no_frames(),
    {
        RegisteredFrameTable { frames: frames_new() }
    }

    /// Registers the frame of a redeemed grant with the grant's level and
    /// digest, replacing what was on record for it.
    pub fn register_from_grant(&mut self, grant: GrantRequest)
        ensures
            final(self).entries() == old(self).entries().insert(grant.frame_id, metadata_of(grant)),
    {
        let metadata = FrameMetadata { level: grant.level, data_digest: grant.data_digest };
        frames_insert(&mut self.frames, grant.frame_id, metadata);
    }

    /// Replaces the metadata of a registered frame. A frame that is not
    /// registered is refused and the table stays as it was.
    pub fn update(&mut self, frame_id: [u8; 16], level: u32, digest: &[u8; 32]) -> (outcome: Result<(), UnknownFrame>)
        ensures
            outcome is Ok <==> old(self).entries().contains_key(frame_id),
            outcome is Ok ==> final(self).entries() == old(self).entries().insert(
                frame_id,
                (FrameMetadata { level, data_digest: *digest }),
            ),
            outcome matches Err(unknown) ==> unknown.frame_id == frame_id && final(self).entries() == old(
                self,
            ).entries(),
    {
        if !self.contains(frame_id) {
            return Err(UnknownFrame { frame_id });
        }
        let metadata = FrameMetadata { level, data_digest: *digest };
        frames_insert(&mut self.frames, frame_id, metadata);
        Ok(())
    }

    /// The metadata on record for `frame_id`, if it is registered.
    pub fn get(&self, frame_id: [u8; 16]) -> (found: Option<FrameMetadata>)
        ensures
            found == (if self.entries().contains_key(frame_id) {
                Some(self.entries()[frame_id])
            } else {
                None
            }),
    {
        frames_get(&self.frames, &frame_id)
    }

    /// Whether `frame_id` is registered.
    pub fn contains(&self, frame_id: [u8; 16]) -> (present: bool)
        ensures
            present == self.entries().contains_key(frame_id),
    {
        frames_contains(&self.frames, &frame_id)
    }
}

impl Default for RegisteredFrameTable {
    fn default() -> (table: RegisteredFrameTable)
        ensures
            table.entries() == no_frames(),
    {
        RegisteredFrameTable::new()
    }
}

} // verus!
