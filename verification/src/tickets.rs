//! Construction tickets: issued at redemption, spent once.
//!
//! Two sets are kept, both keyed by the ticket: the issued tickets and the
//! consumed ones, each entry with the time at which cleanup may drop it.

use crate::clock::nanos_since;
use crate::clock::MAX_DURATION_NANOS;
use dashmap::DashMap;
use std::time::Duration;
use std::time::Instant;
use vstd::prelude::*;

verus! {

/// Why a ticket could not be consumed.
#[derive(Clone, Copy, Debug, PartialEq, Eq)]
pub enum TicketError {
    /// The ticket is not among the issued ones: forged, spent and dropped, or
    /// expired.
    NeverIssued,
    /// The ticket is among the consumed ones.
    AlreadyConsumed,
}

impl TicketError {
    /// The text of `message`.
    pub open spec fn spec_message(&self) -> Seq<char> {
        match *self {
            TicketError::NeverIssued => "Construction ticket not found (never issued or expired)"@,
            TicketError::AlreadyConsumed => "Construction ticket already consumed"@,
        }
    }

    /// Text for operators.
    pub fn message(&self) -> (text: String)
        ensures
            text@ == self.spec_message(),
    {
        match self {
            TicketError::NeverIssued => "Construction ticket not found (never issued or expired)".to_string(),
            TicketError::AlreadyConsumed => "Construction ticket already consumed".to_string(),
        }
    }
}

/// A set of tickets, each with its expiry in nanoseconds on the table's
/// monotonic clock.
pub type TicketMap = DashMap<[u8; 32], u128>;

/// The entries of a set of tickets.
pub uninterp spec fn ticket_entries(tickets: TicketMap) -> Map<[u8; 32], u128>;

/// The set with no ticket in it.
pub open spec fn no_tickets() -> Map<[u8; 32], u128> {
    Map::empty()
}

/// An entry is kept by cleanup strictly before its expiry.
pub open spec fn ticket_is_live(expires_at: u128, now: u128) -> bool {
    expires_at > now
}

/// The entries of `entries` that are live at `now`.
pub open spec fn live_tickets(entries: Map<[u8; 32], u128>, now: u128) -> Map<[u8; 32], u128> {
    entries.restrict(Set::new(|ticket: [u8; 32]| entries.contains_key(ticket) && ticket_is_live(entries[ticket], now)))
}

/// Cleanup only removes: what is live is a part of what was there.
pub proof fn lemma_live_tickets_subset(entries: Map<[u8; 32], u128>, now: u128)
    requires
        entries.dom().finite(),
    ensures
        live_tickets(entries, now).dom().subset_of(entries.dom()),
        live_tickets(entries, now).dom().finite(),
{
    vstd::set_lib::lemma_set_subset_finite(entries.dom(), live_tickets(entries, now).dom());
}

/// Cleanup keeps exactly the live entries: a ticket is in a set afterwards if
/// and only if it was in it and its expiry is later than `now`.
pub proof fn lemma_cleanup_keeps_the_live_tickets(entries: Map<[u8; 32], u128>, now: u128, ticket: [u8; 32])
    ensures
        live_tickets(entries, now).contains_key(ticket) <==> entries.contains_key(ticket) && entries[ticket] > now,
{
}

/// `DashMap::new`: an empty map.
#[verifier::external_body]
fn tickets_new() -> (fresh: TicketMap)
    ensures
        ticket_entries(fresh) == no_tickets(),
{
    DashMap::new()
}

/// `DashMap::insert`: the key holds the value afterwards, other keys are
/// untouched.
#[verifier::external_body]
fn tickets_insert(tickets: &mut TicketMap, ticket: [u8; 32], expires_at: u128)
    ensures
        ticket_entries(*final(tickets)) == ticket_entries(*old(tickets)).insert(ticket, expires_at),
{
    tickets.insert(ticket, expires_at);
}

/// `DashMap::remove`: the key is absent afterwards, other keys are untouched.
#[verifier::external_body]
fn tickets_remove(tickets: &mut TicketMap, ticket: &[u8; 32])
    ensures
        ticket_entries(*final(tickets)) == ticket_entries(*old(tickets)).remove(*ticket),
{
    tickets.remove(ticket);
}

/// `DashMap::contains_key`: whether the key has an entry.
#[verifier::external_body]
fn tickets_contains(tickets: &TicketMap, ticket: &[u8; 32]) -> (present: bool)
    ensures
        present == ticket_entries(*tickets).contains_key(*ticket),
{
    tickets.contains_key(ticket)
}

/// `DashMap::retain` with the liveness test: exactly the live entries stay.
#[verifier::external_body]
fn tickets_retain_live(tickets: &mut TicketMap, now: u128)
    ensures
        ticket_entries(*final(tickets)) == live_tickets(ticket_entries(*old(tickets)), now),
{
    tickets.retain(|_, expires_at| is_live(*expires_at, now));
}

/// `DashMap::len`: the number of entries.
#[verifier::external_body]
fn tickets_len(tickets: &TicketMap) -> (count: usize)
    ensures
        count == ticket_entries(*tickets).dom().len(),
{
    tickets.len()
}

/// Whether an entry that expires at `expires_at` is live at `now`.
pub fn is_live(expires_at: u128, now: u128) -> (live: bool)
    ensures
        live == ticket_is_live(expires_at, now),
{
    expires_at > now
}

/// What `consume` returns for `ticket` on the two sets.
pub open spec fn consume_outcome(issued: Map<[u8; 32], u128>, consumed: Map<[u8; 32], u128>, ticket: [u8; 32]) -> Result<
    (),
    TicketError,
> {
    if !issued.contains_key(ticket) {
        Err(TicketError::NeverIssued)
    } else if consumed.contains_key(ticket) {
        Err(TicketError::AlreadyConsumed)
    } else {
        Ok(())
    }
}

/// The issued set after `ticket` is issued at `now`.
pub open spec fn after_issue(issued: Map<[u8; 32], u128>, ticket: [u8; 32], now: u128, ttl: nat) -> Map<
    [u8; 32],
    u128,
> {
    issued.insert(ticket, (now + ttl) as u128)
}

/// The issued set after `consume` of `ticket`: without the ticket if it was
/// spent, as before if it was refused.
pub open spec fn issued_after_consume(issued: Map<[u8; 32], u128>, consumed: Map<[u8; 32], u128>, ticket: [u8; 32]) -> Map<
    [u8; 32],
    u128,
> {
    if consume_outcome(issued, consumed, ticket) is Ok {
        issued.remove(ticket)
    } else {
        issued
    }
}

/// The consumed set after `consume` of `ticket` at `now`: with the ticket if
/// it was spent, as before if it was refused.
pub open spec fn consumed_after_consume(
    issued: Map<[u8; 32], u128>,
    consumed: Map<[u8; 32], u128>,
    ticket: [u8; 32],
    now: u128,
    ttl: nat,
) -> Map<[u8; 32], u128> {
    if consume_outcome(issued, consumed, ticket) is Ok {
        consumed.insert(ticket, (now + ttl) as u128)
    } else {
        consumed
    }
}

/// `after` is `before` with `ticket` issued at some reading of the clock.
pub open spec fn issued_at_some_time(
    before: Map<[u8; 32], u128>,
    after: Map<[u8; 32], u128>,
    ticket: [u8; 32],
    ttl: nat,
) -> bool {
    exists|now: u128| now <= MAX_DURATION_NANOS && after == #[trigger] after_issue(before, ticket, now, ttl)
}

/// `after` is the consumed set after `consume` of `ticket` at some reading of
/// the clock.
pub open spec fn consumed_at_some_time(
    issued: Map<[u8; 32], u128>,
    consumed: Map<[u8; 32], u128>,
    after: Map<[u8; 32], u128>,
    ticket: [u8; 32],
    ttl: nat,
) -> bool {
    exists|now: u128|
        now <= MAX_DURATION_NANOS && after == #[trigger] consumed_after_consume(issued, consumed, ticket, now, ttl)
}

/// A ticket is spent at most once: after a `consume` that succeeded, a second
/// `consume` of the same ticket is refused.
pub proof fn lemma_consume_is_one_shot(
    issued: Map<[u8; 32], u128>,
    consumed: Map<[u8; 32], u128>,
    ticket: [u8; 32],
    now: u128,
    ttl: nat,
)
    requires
        consume_outcome(issued, consumed, ticket) is Ok,
    ensures
        consume_outcome(
            issued_after_consume(issued, consumed, ticket),
            consumed_after_consume(issued, consumed, ticket, now, ttl),
            ticket,
        ) is Err,
{
}

/// A ticket that was never issued is refused as never issued, whatever the
/// consumed set holds.
pub proof fn lemma_forged_ticket_is_refused(issued: Map<[u8; 32], u128>, consumed: Map<[u8; 32], u128>, ticket: [u8; 32])
    requires
        !issued.contains_key(ticket),
    ensures
        consume_outcome(issued, consumed, ticket) == Err::<(), TicketError>(TicketError::NeverIssued),
{
}

/// A ticket that is not issued stays so: it is not issued after the
/// `consume` of any ticket, after cleanup, and after another ticket is
/// issued.
pub proof fn lemma_unissued_ticket_stays_unissued(
    issued: Map<[u8; 32], u128>,
    consumed: Map<[u8; 32], u128>,
    ticket: [u8; 32],
    other: [u8; 32],
    now: u128,
    ttl: nat,
)
    requires
        !issued.contains_key(ticket),
    ensures
        !issued_after_consume(issued, consumed, other).contains_key(ticket),
        !live_tickets(issued, now).contains_key(ticket),
        other != ticket ==> !after_issue(issued, other, now, ttl).contains_key(ticket),
{
}

/// No ticket is in both sets after a `consume`, after cleanup, or after a
/// ticket that is not consumed is issued, if none was before.
pub proof fn lemma_sets_stay_disjoint(
    issued: Map<[u8; 32], u128>,
    consumed: Map<[u8; 32], u128>,
    ticket: [u8; 32],
    now: u128,
    ttl: nat,
)
    requires
        issued.dom().disjoint(consumed.dom()),
    ensures
        issued_after_consume(issued, consumed, ticket).dom().disjoint(
            consumed_after_consume(issued, consumed, ticket, now, ttl).dom(),
        ),
        live_tickets(issued, now).dom().disjoint(live_tickets(consumed, now).dom()),
        !consumed.contains_key(ticket) ==> after_issue(issued, ticket, now, ttl).dom().disjoint(consumed.dom()),
{
}

/// The two sets after a cleanup at some reading of the clock.
pub open spec fn cleaned(
    issued_before: Map<[u8; 32], u128>,
    consumed_before: Map<[u8; 32], u128>,
    issued_after: Map<[u8; 32], u128>,
    consumed_after: Map<[u8; 32], u128>,
) -> bool {
    exists|now: u128|
        issued_after == #[trigger] live_tickets(issued_before, now) && consumed_after == live_tickets(
            consumed_before,
            now,
        )
}

/// The issued and the consumed construction tickets.
pub struct ConstructionTicketTable {
    issued_tickets: TicketMap,
    consumed_tickets: TicketMap,
    ttl: u128,
    epoch: Instant,
}

impl ConstructionTicketTable {
    /// The issued tickets that are not spent, with their expiries.
    pub closed spec fn issued(&self) -> Map<[u8; 32], u128> {
        ticket_entries(self.issued_tickets)
    }

    /// The consumed tickets, with their expiries.
    pub closed spec fn consumed(&self) -> Map<[u8; 32], u128> {
        ticket_entries(self.consumed_tickets)
    }

    /// The time to live of an entry, in nanoseconds.
    pub closed spec fn ttl_nanos(&self) -> nat {
        self.ttl as nat
    }

    /// Finitely many tickets, and a time to live that a `Duration` can hold.
    pub closed spec fn wf(&self) -> bool {
        &&& self.issued().dom().finite()
        &&& self.consumed().dom().finite()
        &&& self.ttl <= MAX_DURATION_NANOS
    }

    /// No ticket is both issued and consumed.
    pub open spec fn disjoint(&self) -> bool {
        self.issued().dom().disjoint(self.consumed().dom())
    }

    /// An empty table whose entries live for `ttl`.
    pub fn new(ttl: Duration) -> (table: ConstructionTicketTable)
        ensures
            table.wf(),
            table.disjoint(),
            table.issued() == no_tickets(),
            table.consumed() == no_tickets(),
            table.ttl_nanos() == crate::clock::duration_nanos(ttl),
    {
        ConstructionTicketTable {
            issued_tickets: tickets_new(),
            consumed_tickets: tickets_new(),
            ttl: ttl.as_nanos(),
            epoch: Instant::now(),
        }
    }

    /// Nanoseconds since the table was made, on the monotonic clock.
    pub fn now(&self) -> (nanos: u128)
        ensures
            nanos <= MAX_DURATION_NANOS,
    {
        nanos_since(&self.epoch)
    }

    /// Records `ticket` as issued at `now`.
    pub fn issue_at(&mut self, ticket: [u8; 32], now: u128)
        requires
            old(self).wf(),
            now <= MAX_DURATION_NANOS,
        ensures
            final(self).wf(),
            final(self).ttl_nanos() == old(self).ttl_nanos(),
            final(self).issued() == after_issue(old(self).issued(), ticket, now, old(self).ttl_nanos()),
            final(self).consumed() == old(self).consumed(),
            old(self).disjoint() && !old(self).consumed().contains_key(ticket) ==> final(self).disjoint(),
    {
        let expires_at = now + self.ttl;
        tickets_insert(&mut self.issued_tickets, ticket, expires_at);
    }

    /// Records `ticket` as issued now. Called when a grant is redeemed, so
    /// that only a ticket handed out by a redemption can be spent.
    pub fn issue(&mut self, ticket: [u8; 32])
        requires
            old(self).wf(),
        ensures
            final(self).wf(),
            final(self).ttl_nanos() == old(self).ttl_nanos(),
            issued_at_some_time(old(self).issued(), final(self).issued(), ticket, old(self).ttl_nanos()),
            final(self).consumed() == old(self).consumed(),
            old(self).disjoint() && !old(self).consumed().contains_key(ticket) ==> final(self).disjoint(),
    {
        let now = self.now();
        self.issue_at(ticket, now);
    }

    /// Spends `ticket` at `now`. A ticket that was never issued is refused
    /// first, then one that is already consumed; otherwise the ticket moves
    /// from the issued set to the consumed set. A refusal changes nothing.
    pub fn consume_at(&mut self, ticket: &[u8; 32], now: u128) -> (outcome: Result<(), TicketError>)
        requires
            old(self).wf(),
            now <= MAX_DURATION_NANOS,
        ensures
            final(self).wf(),
            final(self).ttl_nanos() == old(self).ttl_nanos(),
            outcome == consume_outcome(old(self).issued(), old(self).consumed(), *ticket),
            final(self).issued() == issued_after_consume(old(self).issued(), old(self).consumed(), *ticket),
            final(self).consumed() == consumed_after_consume(
                old(self).issued(),
                old(self).consumed(),
                *ticket,
                now,
                old(self).ttl_nanos(),
            ),
            old(self).disjoint() ==> final(self).disjoint(),
    {
        if !tickets_contains(&self.issued_tickets, ticket) {
            return Err(TicketError::NeverIssued);
        }
        if tickets_contains(&self.consumed_tickets, ticket) {
            return Err(TicketError::AlreadyConsumed);
        }
        let expires_at = now + self.ttl;
        tickets_insert(&mut self.consumed_tickets, *ticket, expires_at);
        tickets_remove(&mut self.issued_tickets, ticket);
        Ok(())
    }

    /// Spends `ticket` now.
    pub fn consume(&mut self, ticket: &[u8; 32]) -> (outcome: Result<(), TicketError>)
        requires
            old(self).wf(),
        ensures
            final(self).wf(),
            final(self).ttl_nanos() == old(self).ttl_nanos(),
            outcome == consume_outcome(old(self).issued(), old(self).consumed(), *ticket),
            final(self).issued() == issued_after_consume(old(self).issued(), old(self).consumed(), *ticket),
            consumed_at_some_time(
                old(self).issued(),
                old(self).consumed(),
                final(self).consumed(),
                *ticket,
                old(self).ttl_nanos(),
            ),
            old(self).disjoint() ==> final(self).disjoint(),
    {
        let now = self.now();
        self.consume_at(ticket, now)
    }

    /// Drops from both sets every entry whose expiry is at or before `now`.
    pub fn cleanup_expired_at(&mut self, now: u128)
        requires
            old(self).wf(),
        ensures
            final(self).wf(),
            final(self).ttl_nanos() == old(self).ttl_nanos(),
            final(self).issued() == live_tickets(old(self).issued(), now),
            final(self).consumed() == live_tickets(old(self).consumed(), now),
            old(self).disjoint() ==> final(self).disjoint(),
    {
        proof {
            lemma_live_tickets_subset(self.issued(), now);
            lemma_live_tickets_subset(self.consumed(), now);
        }
        tickets_retain_live(&mut self.issued_tickets, now);
        tickets_retain_live(&mut self.consumed_tickets, now);
    }

    /// Drops from both sets every entry that has expired by now.
    pub fn cleanup_expired(&mut self)
        requires
            old(self).wf(),
        ensures
            final(self).wf(),
            final(self).ttl_nanos() == old(self).ttl_nanos(),
            cleaned(old(self).issued(), old(self).consumed(), final(self).issued(), final(self).consumed()),
            old(self).disjoint() ==> final(self).disjoint(),
    {
        let now = self.now();
        self.cleanup_expired_at(now);
    }

    /// Whether `ticket` is among the consumed ones.
    pub fn is_consumed(&self, ticket: &[u8; 32]) -> (present: bool)
        ensures
            present == self.consumed().contains_key(*ticket),
    {
        tickets_contains(&self.consumed_tickets, ticket)
    }

    /// Whether `ticket` is issued and not yet spent.
    pub fn is_issued(&self, ticket: &[u8; 32]) -> (present: bool)
        ensures
            present == self.issued().contains_key(*ticket),
    {
        tickets_contains(&self.issued_tickets, ticket)
    }

    /// The number of issued tickets that are not spent.
    pub fn issued_count(&self) -> (count: usize)
        requires
            self.wf(),
        ensures
            count == self.issued().len(),
    {
        tickets_len(&self.issued_tickets)
    }

    /// The number of consumed tickets.
    pub fn consumed_count(&self) -> (count: usize)
        requires
            self.wf(),
        ensures
            count == self.consumed().len(),
    {
        tickets_len(&self.consumed_tickets)
    }
}

} // verus!
