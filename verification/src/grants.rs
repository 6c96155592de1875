//! One-shot grants with a time to live.
//!
//! A grant is entered by `authorize` and leaves the table on its first
//! redemption, whatever that redemption's outcome, or at cleanup once it has
//! expired.

use crate::clock::nanos_since;
use crate::clock::MAX_DURATION_NANOS;
use crate::entropy::fill_random;
use crate::entropy::EntropyError;
use dashmap::DashMap;
use std::time::Duration;
use std::time::Instant;
pub use crate::tickets::ConstructionTicketTable;
pub use crate::tickets::TicketError;
use vstd::prelude::*;

verus! {

/// `dashmap::DashMap`, the concurrent map that holds each table's entries.
/// Nothing inside it is looked into: the tables speak of its entries by
/// name.
#[verifier::external_type_specification]
#[verifier::external_body]
#[verifier::reject_recursive_types(K)]
#[verifier::reject_recursive_types(V)]
#[verifier::reject_recursive_types(S)]
pub struct ExDashMap<K, V, S>(DashMap<K, V, S>);

/// What is asked for: construction of one frame at one level over one digest.
#[derive(Clone, Copy, Debug, PartialEq, Eq)]
pub struct GrantRequest {
    pub frame_id: [u8; 16],
    pub level: u32,
    pub data_digest: [u8; 32],
}

/// A pending grant. `expires_at` counts nanoseconds on the table's own
/// monotonic clock.
#[derive(Clone, Copy, Debug)]
pub struct Grant {
    pub request: GrantRequest,
    pub construction_ticket: [u8; 32],
    pub expires_at: u128,
}

/// Why a redemption failed.
#[derive(Clone, Copy, Debug, PartialEq, Eq)]
pub enum GrantError {
    /// No such grant: never issued, already redeemed, or cleaned up.
    NotFound,
    /// The grant was found, and removed, after its expiry.
    Expired,
}

impl GrantError {
    /// The text of `message`.
    pub open spec fn spec_message(&self) -> Seq<char> {
        match *self {
            GrantError::NotFound => "Grant not found or already redeemed"@,
            GrantError::Expired => "Grant expired"@,
        }
    }

    /// Text for operators.
    pub fn message(&self) -> (text: String)
        ensures
            text@ == self.spec_message(),
    {
        match self {
            GrantError::NotFound => "Grant not found or already redeemed".to_string(),
            GrantError::Expired => "Grant expired".to_string(),
        }
    }
}

/// The map that holds the pending grants, by grant id.
pub type GrantMap = DashMap<[u8; 16], Grant>;

/// The entries of a map of grants.
pub uninterp spec fn grant_entries(table: GrantMap) -> Map<[u8; 16], Grant>;

/// The table with no grant in it.
pub open spec fn no_grants() -> Map<[u8; 16], Grant> {
    Map::empty()
}

/// A grant is live strictly before its expiry.
pub open spec fn grant_is_live(grant: Grant, now: u128) -> bool {
    grant.expires_at > now
}

/// The grants of `entries` that are live at `now`.
pub open spec fn live_grants(entries: Map<[u8; 16], Grant>, now: u128) -> Map<[u8; 16], Grant> {
    entries.restrict(Set::new(|id: [u8; 16]| entries.contains_key(id) && grant_is_live(entries[id], now)))
}

/// Cleanup only removes: what is live is a part of what was there.
pub proof fn lemma_live_grants_subset(entries: Map<[u8; 16], Grant>, now: u128)
    requires
        entries.dom().finite(),
    ensures
        live_grants(entries, now).dom().subset_of(entries.dom()),
        live_grants(entries, now).dom().finite(),
        forall|id: [u8; 16]| #[trigger]
            live_grants(entries, now).contains_key(id) ==> live_grants(entries, now)[id] == entries[id],
{
    vstd::set_lib::lemma_set_subset_finite(entries.dom(), live_grants(entries, now).dom());
}

/// Cleanup keeps exactly the live grants: a grant is there afterwards if and
/// only if it was there and its expiry is later than `now`.
pub proof fn lemma_cleanup_keeps_the_live_grants(entries: Map<[u8; 16], Grant>, now: u128, grant_id: [u8; 16])
    ensures
        live_grants(entries, now).contains_key(grant_id) <==> entries.contains_key(grant_id)
            && entries[grant_id].expires_at > now,
{
}

/// The table after a grant for `request` is entered under `grant_id` at
/// `now`, with `ticket` and a time to live of `ttl` nanoseconds.
pub open spec fn with_grant(
    entries: Map<[u8; 16], Grant>,
    request: GrantRequest,
    grant_id: [u8; 16],
    ticket: [u8; 32],
    now: u128,
    ttl: nat,
) -> Map<[u8; 16], Grant> {
    entries.insert(
        grant_id,
        Grant { request, construction_ticket: ticket, expires_at: (now + ttl) as u128 },
    )
}

/// `after` is `before` with a grant for `request` entered under `grant_id`,
/// with some ticket, at some reading of the clock.
pub open spec fn granted(
    before: Map<[u8; 16], Grant>,
    after: Map<[u8; 16], Grant>,
    request: GrantRequest,
    grant_id: [u8; 16],
    ttl: nat,
) -> bool {
    exists|ticket: [u8; 32], now: u128|
        now <= MAX_DURATION_NANOS && after == #[trigger] with_grant(before, request, grant_id, ticket, now, ttl)
}

/// What a redemption at `now` returns on a table holding `entries`.
pub open spec fn redeem_outcome(entries: Map<[u8; 16], Grant>, grant_id: [u8; 16], now: u128) -> Result<
    (GrantRequest, [u8; 32]),
    GrantError,
> {
    if !entries.contains_key(grant_id) {
        Err(GrantError::NotFound)
    } else if now > entries[grant_id].expires_at {
        Err(GrantError::Expired)
    } else {
        Ok((entries[grant_id].request, entries[grant_id].construction_ticket))
    }
}

/// A grant is redeemed at most once: whatever the first redemption of an id
/// returned, a second one finds nothing.
pub proof fn lemma_redeem_is_one_shot(entries: Map<[u8; 16], Grant>, grant_id: [u8; 16], now: u128)
    ensures
        redeem_outcome(entries.remove(grant_id), grant_id, now) == Err::<(GrantRequest, [u8; 32]), GrantError>(
            GrantError::NotFound,
        ),
{
}

/// A redeemed grant stays gone: an id that is absent is absent after the
/// redemption of any id, after cleanup, and after a grant is entered under
/// another id.
pub proof fn lemma_absent_grant_stays_absent(
    entries: Map<[u8; 16], Grant>,
    grant_id: [u8; 16],
    other: [u8; 16],
    request: GrantRequest,
    ticket: [u8; 32],
    now: u128,
    ttl: nat,
)
    requires
        !entries.contains_key(grant_id),
    ensures
        !entries.remove(other).contains_key(grant_id),
        !live_grants(entries, now).contains_key(grant_id),
        other != grant_id ==> !with_grant(entries, request, other, ticket, now, ttl).contains_key(grant_id),
{
}

/// A grant that is redeemed later than its time to live after it was entered
/// is refused as expired.
pub proof fn lemma_redeem_after_ttl_fails(
    entries: Map<[u8; 16], Grant>,
    request: GrantRequest,
    grant_id: [u8; 16],
    ticket: [u8; 32],
    issued_at: u128,
    ttl: nat,
    now: u128,
)
    requires
        issued_at <= MAX_DURATION_NANOS,
        ttl <= MAX_DURATION_NANOS,
        now > issued_at + ttl,
    ensures
        redeem_outcome(with_grant(entries, request, grant_id, ticket, issued_at, ttl), grant_id, now) == Err::<
            (GrantRequest, [u8; 32]),
            GrantError,
        >(GrantError::Expired),
{
}

/// A grant that is redeemed within its time to live yields its request and
/// its ticket.
pub proof fn lemma_redeem_within_ttl_succeeds(
    entries: Map<[u8; 16], Grant>,
    request: GrantRequest,
    grant_id: [u8; 16],
    ticket: [u8; 32],
    issued_at: u128,
    ttl: nat,
    now: u128,
)
    requires
        issued_at <= MAX_DURATION_NANOS,
        ttl <= MAX_DURATION_NANOS,
        now <= issued_at + ttl,
    ensures
        redeem_outcome(with_grant(entries, request, grant_id, ticket, issued_at, ttl), grant_id, now) == Ok::<
            (GrantRequest, [u8; 32]),
            GrantError,
        >((request, ticket)),
{
}

/// `DashMap::new`: an empty map.
#[verifier::external_body]
fn grants_new() -> (fresh: GrantMap)
    ensures
        grant_entries(fresh) == no_grants(),
{
    DashMap::new()
}

/// `DashMap::insert`: the key holds the value afterwards, other keys are
/// untouched.
#[verifier::external_body]
fn grants_insert(table: &mut GrantMap, grant_id: [u8; 16], grant: Grant)
    ensures
        grant_entries(*final(table)) == grant_entries(*old(table)).insert(grant_id, grant),
{
    table.insert(grant_id, grant);
}

/// `DashMap::remove`: the key's value if it had one, and the key is absent
/// afterwards.
#[verifier::external_body]
fn grants_remove(table: &mut GrantMap, grant_id: &[u8; 16]) -> (removed: Option<Grant>)
    ensures
        grant_entries(*final(table)) == grant_entries(*old(table)).remove(*grant_id),
        removed == (if grant_entries(*old(table)).contains_key(*grant_id) {
            Some(grant_entries(*old(table))[*grant_id])
        } else {
            None
        }),
{
    match table.remove(grant_id) {
        Some((_, grant)) => Some(grant),
        None => None,
    }
}

/// `DashMap::retain` with the liveness test: exactly the live entries stay.
#[verifier::external_body]
fn grants_retain_live(table: &mut GrantMap, now: u128)
    ensures
        grant_entries(*final(table)) == live_grants(grant_entries(*old(table)), now),
{
    table.retain(|_, grant| is_live(grant, now));
}

/// `DashMap::len`: the number of entries.
#[verifier::external_body]
fn grants_len(table: &GrantMap) -> (count: usize)
    ensures
        count == grant_entries(*table).dom().len(),
{
    table.len()
}

/// Whether `grant` is live at `now`.
pub fn is_live(grant: &Grant, now: u128) -> (live: bool)
    ensures
        live == grant_is_live(*grant, now),
{
    grant.expires_at > now
}

/// The table of pending grants.
pub struct GrantTable {
    grants: GrantMap,
    ttl: u128,
    epoch: Instant,
}

impl GrantTable {
    /// The pending grants, by grant id.
    pub closed spec fn entries(&self) -> Map<[u8; 16], Grant> {
        grant_entries(self.grants)
    }

    /// The time to live of a grant, in nanoseconds.
    pub closed spec fn ttl_nanos(&self) -> nat {
        self.ttl as nat
    }

    /// Finitely many grants, and a time to live that a `Duration` can hold.
    pub closed spec fn wf(&self) -> bool {
        &&& self.entries().dom().finite()
        &&& self.ttl <= MAX_DURATION_NANOS
    }

    /// An empty table whose grants live for `ttl`.
    pub fn new(ttl: Duration) -> (table: GrantTable)
        ensures
            table.wf(),
            table.entries() == no_grants(),
            table.ttl_nanos() == crate::clock::duration_nanos(ttl),
    {
        GrantTable { grants: grants_new(), ttl: ttl.as_nanos(), epoch: Instant::now() }
    }

    /// The time to live of a grant, in nanoseconds.
    pub fn ttl(&self) -> (nanos: u128)
        requires
            self.wf(),
        ensures
            nanos == self.ttl_nanos(),
            nanos <= MAX_DURATION_NANOS,
    {
        self.ttl
    }

    /// Nanoseconds since the table was made, on the monotonic clock.
    pub fn now(&self) -> (nanos: u128)
        ensures
            nanos <= MAX_DURATION_NANOS,
    {
        nanos_since(&self.epoch)
    }

    /// Enters a grant for `request` under `grant_id`, with `ticket`, expiring
    /// one time to live after `now`. An entry already under `grant_id` is
    /// replaced.
    pub fn authorize_with(&mut self, request: GrantRequest, grant_id: [u8; 16], ticket: [u8; 32], now: u128) -> (id:
        [u8; 16])
        requires
            old(self).wf(),
            now <= MAX_DURATION_NANOS,
        ensures
            final(self).wf(),
            final(self).ttl_nanos() == old(self).ttl_nanos(),
            id == grant_id,
            final(self).entries() == with_grant(
                old(self).entries(),
                request,
                grant_id,
                ticket,
                now,
                old(self).ttl_nanos(),
            ),
    {
        let grant = Grant { request, construction_ticket: ticket, expires_at: now + self.ttl };
        grants_insert(&mut self.grants, grant_id, grant);
        grant_id
    }

    /// Enters a grant for `request` under a fresh random id with a fresh
    /// random ticket, drawn independently, expiring one time to live from
    /// now. Fails, leaving the table as it was, only when the system
    /// generator does.
    pub fn authorize(&mut self, request: GrantRequest) -> (outcome: Result<[u8; 16], EntropyError>)
        requires
            old(self).wf(),
        ensures
            final(self).wf(),
            final(self).ttl_nanos() == old(self).ttl_nanos(),
            match outcome {
                Ok(grant_id) => granted(
                    old(self).entries(),
                    final(self).entries(),
                    request,
                    grant_id,
                    old(self).ttl_nanos(),
                ),
                Err(_) => final(self).entries() == old(self).entries(),
            },
    {
        let grant_id = match fill_random::<16>() {
            Some(bytes) => bytes,
            None => { return Err(EntropyError); },
        };
        let ticket = match fill_random::<32>() {
            Some(bytes) => bytes,
            None => { return Err(EntropyError); },
        };
        let now = self.now();
        let id = self.authorize_with(request, grant_id, ticket, now);
        assert(self.entries() == with_grant(old(self).entries(), request, id, ticket, now, old(self).ttl_nanos()));
        Ok(id)
    }

    /// Redeems `grant_id` at `now`. The entry leaves the table before its
    /// expiry is looked at, so no later redemption finds it.
    pub fn redeem_at(&mut self, grant_id: &[u8; 16], now: u128) -> (outcome: Result<(GrantRequest, [u8; 32]), GrantError>)
        requires
            old(self).wf(),
        ensures
            final(self).wf(),
            final(self).ttl_nanos() == old(self).ttl_nanos(),
            final(self).entries() == old(self).entries().remove(*grant_id),
            outcome == redeem_outcome(old(self).entries(), *grant_id, now),
    {
        match grants_remove(&mut self.grants, grant_id) {
            None => Err(GrantError::NotFound),
            Some(grant) => {
                if now > grant.expires_at {
                    Err(GrantError::Expired)
                } else {
                    Ok((grant.request, grant.construction_ticket))
                }
            },
        }
    }

    /// Redeems `grant_id` now.
    pub fn redeem(&mut self, grant_id: &[u8; 16]) -> (outcome: Result<(GrantRequest, [u8; 32]), GrantError>)
        requires
            old(self).wf(),
        ensures
            final(self).wf(),
            final(self).ttl_nanos() == old(self).ttl_nanos(),
            final(self).entries() == old(self).entries().remove(*grant_id),
            exists|now: u128| outcome == redeem_outcome(old(self).entries(), *grant_id, now),
    {
        let now = self.now();
        self.redeem_at(grant_id, now)
    }

    /// Drops every grant whose expiry is at or before `now`.
    pub fn cleanup_expired_at(&mut self, now: u128)
        requires
            old(self).wf(),
        ensures
            final(self).wf(),
            final(self).ttl_nanos() == old(self).ttl_nanos(),
            final(self).entries() == live_grants(old(self).entries(), now),
    {
        proof {
            lemma_live_grants_subset(self.entries(), now);
        }
        grants_retain_live(&mut self.grants, now);
    }

    /// Drops every grant that has expired by now.
    pub fn cleanup_expired(&mut self)
        requires
            old(self).wf(),
        ensures
            final(self).wf(),
            final(self).ttl_nanos() == old(self).ttl_nanos(),
            exists|now: u128| final(self).entries() == live_grants(old(self).entries(), now),
    {
        let now = self.now();
        self.cleanup_expired_at(now);
    }

    /// The number of pending grants.
    pub fn active_count(&self) -> (count: usize)
        requires
            self.wf(),
        ensures
            count == self.entries().len(),
    {
        grants_len(&self.grants)
    }
}

} // verus!
