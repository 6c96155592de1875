//! The request handler: authentication, dispatch, and the replies.
//!
//! One request is handled per connection. What the handler reads from outside
//! (the clocks, the random generator) is gathered in `Readings`, so that what
//! a request does to the tables, and the reply it gets, is a function of the
//! state, the request and the readings.

use crate::auth::authentic;
use crate::auth::compute_auth;
use crate::auth::expected_auth;
use crate::auth::validate_auth;
use crate::clock::unix_nanos;
use crate::clock::MAX_DURATION_NANOS;
use crate::config::Config;
use crate::crypto::seal_of;
use crate::crypto::Secrets;
use crate::entropy::fill_random;
use crate::entropy::EntropyError;
use crate::frames::frame_id_text;
use crate::frames::hyphenated;
use crate::frames::no_frames;
use crate::frames::FrameMetadata;
use crate::frames::RegisteredFrameTable;
use crate::grants::live_grants;
use crate::grants::no_grants;
use crate::grants::redeem_outcome;
use crate::grants::with_grant;
use crate::grants::Grant;
use crate::grants::GrantError;
use crate::grants::GrantRequest;
use crate::grants::GrantTable;
use crate::protocol::Request;
use crate::protocol::Response;
use crate::protocol::ResponseView;
use crate::tickets::after_issue;
use crate::tickets::consume_outcome;
use crate::tickets::consumed_after_consume;
use crate::tickets::issued_after_consume;
use crate::tickets::live_tickets;
use crate::tickets::no_tickets;
use crate::tickets::ConstructionTicketTable;
use crate::tickets::TicketError;
use std::time::Instant;
use vstd::prelude::*;

verus! {

/// What changes as requests are handled.
pub struct ServerState {
    /// The pending grants.
    pub grants: Map<[u8; 16], Grant>,
    /// The issued tickets that are not spent.
    pub issued: Map<[u8; 32], u128>,
    /// The consumed tickets.
    pub consumed: Map<[u8; 32], u128>,
    /// The registered frames.
    pub frames: Map<[u8; 16], FrameMetadata>,
    /// How many requests passed authentication.
    pub requests_served: u64,
    /// How many audited replies were given.
    pub audits: u64,
}

/// What is fixed when the server is made.
pub struct ServerSetup {
    /// The key under which seals are computed.
    pub seal_key: Seq<u8>,
    /// The key under which requests are authenticated.
    pub session_key: Seq<u8>,
    /// The time to live of grants and tickets, in nanoseconds.
    pub ttl: nat,
    /// The only user id whose connections are served.
    pub appuser_uid: u32,
    /// The largest request that is read, in bytes.
    pub max_request_size_bytes: u64,
}

/// What the handler reads from outside for one request.
#[derive(Clone, Copy, Debug)]
pub struct Readings {
    /// The grant table's clock, in nanoseconds.
    pub grant_clock: u128,
    /// The ticket table's clock, in nanoseconds.
    pub ticket_clock: u128,
    /// The wall clock in nanoseconds since the Unix epoch; `None` where it is
    /// set before the epoch.
    pub wall_clock: Option<u128>,
    /// Whole seconds since the server was made.
    pub uptime_secs: u64,
    /// A fresh grant id and a fresh ticket; `None` where the generator
    /// failed.
    pub entropy: Option<([u8; 16], [u8; 32])>,
}

impl Readings {
    /// The clock readings are within what a `Duration` can hold.
    pub open spec fn wf(&self) -> bool {
        &&& self.grant_clock <= MAX_DURATION_NANOS
        &&& self.ticket_clock <= MAX_DURATION_NANOS
        &&& (self.wall_clock matches Some(nanos) ==> nanos <= MAX_DURATION_NANOS)
    }

    /// The readings of a handler that has read nothing.
    pub open spec fn nothing() -> Readings {
        Readings { grant_clock: 0, ticket_clock: 0, wall_clock: None, uptime_secs: 0, entropy: None }
    }

    /// Of these readings, those that `request` needs: the generator, the
    /// grant clock and the wall clock for an authorization, the two tables'
    /// clocks for a redemption, the ticket clock for a consumption, the
    /// uptime for a health check, none for a seal request. The others are as
    /// in `nothing`.
    pub open spec fn needed_for(&self, request: Request) -> Readings {
        match request {
            Request::AuthorizeConstruct { .. } => Readings {
                grant_clock: self.grant_clock,
                wall_clock: self.wall_clock,
                entropy: self.entropy,
                ..Readings::nothing()
            },
            Request::RedeemGrant { .. } => Readings {
                grant_clock: self.grant_clock,
                ticket_clock: self.ticket_clock,
                ..Readings::nothing()
            },
            Request::ConsumeConstructionTicket { .. } => Readings {
                ticket_clock: self.ticket_clock,
                ..Readings::nothing()
            },
            Request::HealthCheck => Readings { uptime_secs: self.uptime_secs, ..Readings::nothing() },
            Request::ComputeSeal { .. } => Readings::nothing(),
            Request::VerifySeal { .. } => Readings::nothing(),
        }
    }
}

/// The request counter after one more request; it wraps.
pub open spec fn counted(served: u64) -> u64 {
    if served == u64::MAX {
        0
    } else {
        (served + 1) as u64
    }
}

/// The audit counter after one more audited reply; it never decreases.
pub open spec fn audited(audits: u64) -> u64 {
    if audits == u64::MAX {
        audits
    } else {
        (audits + 1) as u64
    }
}

/// The reply to a request whose authenticator is wrong.
pub open spec fn authentication_failure() -> ResponseView {
    ResponseView::Error { error: "Authentication failed"@, reason: "Invalid HMAC signature"@ }
}

/// The reply to a seal request for a frame that is not registered.
pub open spec fn frame_not_registered(frame_id: [u8; 16]) -> ResponseView {
    ResponseView::Error {
        error: "Frame not registered"@,
        reason: "Frame "@ + hyphenated(frame_id@) + " must be registered via grant redemption first"@,
    }
}

/// The reply to a request that failed for a reason of the daemon's own.
pub open spec fn request_failure(reason: Seq<char>) -> ResponseView {
    ResponseView::Error { error: "Request failed"@, reason }
}

/// `AuthorizeConstruct`: a grant is entered under the fresh id, and the reply
/// names the id and the wall-clock time one time to live from now.
pub open spec fn authorize_step(setup: ServerSetup, state: ServerState, request: GrantRequest, readings: Readings) -> (
    ServerState,
    ResponseView,
) {
    match readings.entropy {
        None => (state, request_failure("RNG failure"@)),
        Some((grant_id, ticket)) => {
            let entered = ServerState {
                grants: with_grant(state.grants, request, grant_id, ticket, readings.grant_clock, setup.ttl),
                ..state
            };
            match readings.wall_clock {
                None => (entered, request_failure("system clock is set before the Unix epoch"@)),
                Some(wall) => (
                    entered,
                    ResponseView::AuthorizeConstructReply {
                        grant_id: grant_id@,
                        expires_at: (wall + setup.ttl) as u128,
                    },
                ),
            }
        },
    }
}

/// `RedeemGrant`: the grant leaves the table; if it was there and has not
/// expired, its ticket is issued, its frame is registered, and the reply
/// carries the ticket and the frame's seal.
pub open spec fn redeem_step(setup: ServerSetup, state: ServerState, grant_id: [u8; 16], readings: Readings) -> (
    ServerState,
    ResponseView,
) {
    let removed = ServerState { grants: state.grants.remove(grant_id), ..state };
    match redeem_outcome(state.grants, grant_id, readings.grant_clock) {
        Err(error) => (
            removed,
            ResponseView::Error { error: "Grant redemption failed"@, reason: error.spec_message() },
        ),
        Ok((request, ticket)) => (
            ServerState {
                issued: after_issue(removed.issued, ticket, readings.ticket_clock, setup.ttl),
                frames: removed.frames.insert(
                    request.frame_id,
                    FrameMetadata { level: request.level, data_digest: request.data_digest },
                ),
                audits: audited(removed.audits),
                ..removed
            },
            ResponseView::RedeemGrantReply {
                construction_ticket: ticket@,
                seal: seal_of(setup.seal_key, request.frame_id@, request.level, request.data_digest@),
                audit_id: removed.audits,
            },
        ),
    }
}

/// `ConsumeConstructionTicket`: an issued ticket that is not yet consumed
/// moves to the consumed set; any other is refused and nothing changes.
pub open spec fn consume_step(setup: ServerSetup, state: ServerState, ticket: [u8; 32], readings: Readings) -> (
    ServerState,
    ResponseView,
) {
    match consume_outcome(state.issued, state.consumed, ticket) {
        Err(error) => (
            state,
            ResponseView::Error { error: "Ticket consumption failed"@, reason: error.spec_message() },
        ),
        Ok(_) => (
            ServerState {
                issued: issued_after_consume(state.issued, state.consumed, ticket),
                consumed: consumed_after_consume(
                    state.issued,
                    state.consumed,
                    ticket,
                    readings.ticket_clock,
                    setup.ttl,
                ),
                audits: audited(state.audits),
                ..state
            },
            ResponseView::ConsumeTicketReply { consumed: true, audit_id: state.audits },
        ),
    }
}

/// `ComputeSeal`: for a registered frame, the seal of the triple, which
/// becomes the frame's metadata; an unregistered frame is refused.
pub open spec fn compute_seal_step(
    setup: ServerSetup,
    state: ServerState,
    frame_id: [u8; 16],
    level: u32,
    data_digest: [u8; 32],
) -> (ServerState, ResponseView) {
    if !state.frames.contains_key(frame_id) {
        (state, frame_not_registered(frame_id))
    } else {
        (
            ServerState {
                frames: state.frames.insert(frame_id, FrameMetadata { level, data_digest }),
                audits: audited(state.audits),
                ..state
            },
            ResponseView::ComputeSealReply {
                seal: seal_of(setup.seal_key, frame_id@, level, data_digest@),
                audit_id: state.audits,
            },
        )
    }
}

/// `VerifySeal`: for a registered frame, whether the seal is the seal of
/// the triple; an unregistered frame is refused.
pub open spec fn verify_seal_step(
    setup: ServerSetup,
    state: ServerState,
    frame_id: [u8; 16],
    level: u32,
    data_digest: [u8; 32],
    seal: [u8; 32],
) -> (ServerState, ResponseView) {
    if !state.frames.contains_key(frame_id) {
        (state, frame_not_registered(frame_id))
    } else {
        (
            ServerState { audits: audited(state.audits), ..state },
            ResponseView::VerifySealReply {
                valid: seal@ == seal_of(setup.seal_key, frame_id@, level, data_digest@),
                audit_id: state.audits,
            },
        )
    }
}

/// `HealthCheck`: the uptime and the number of requests served, this one
/// among them.
pub open spec fn health_step(state: ServerState, readings: Readings) -> (ServerState, ResponseView) {
    (
        state,
        ResponseView::HealthCheckReply {
            status: "healthy"@,
            uptime_secs: readings.uptime_secs,
            requests_served: state.requests_served,
        },
    )
}

/// What a request that passed authentication does: it is counted, then
/// handled by its variant.
pub open spec fn step(setup: ServerSetup, state: ServerState, request: Request, readings: Readings) -> (
    ServerState,
    ResponseView,
) {
    let state = ServerState { requests_served: counted(state.requests_served), ..state };
    match request {
        Request::AuthorizeConstruct { frame_id, level, data_digest, .. } => authorize_step(
            setup,
            state,
            GrantRequest { frame_id, level, data_digest },
            readings,
        ),
        Request::RedeemGrant { grant_id, .. } => redeem_step(setup, state, grant_id, readings),
        Request::ConsumeConstructionTicket { ticket, .. } => consume_step(setup, state, ticket, readings),
        Request::ComputeSeal { frame_id, level, data_digest, .. } => compute_seal_step(
            setup,
            state,
            frame_id,
            level,
            data_digest,
        ),
        Request::VerifySeal { frame_id, level, data_digest, seal, .. } => verify_seal_step(
            setup,
            state,
            frame_id,
            level,
            data_digest,
            seal,
        ),
        Request::HealthCheck => health_step(state, readings),
    }
}

/// What a request does: one that fails authentication changes nothing, is
/// not counted, and is told no more than that it failed.
pub open spec fn handle(setup: ServerSetup, state: ServerState, request: Request, readings: Readings) -> (
    ServerState,
    ResponseView,
) {
    if authentic(setup.session_key, request) {
        step(setup, state, request, readings)
    } else {
        (state, authentication_failure())
    }
}

/// `after` and `reply` are what `request` makes of `before` under some
/// readings of the clocks and the generator.
pub open spec fn handled(
    setup: ServerSetup,
    before: ServerState,
    request: Request,
    after: ServerState,
    reply: ResponseView,
) -> bool {
    exists|readings: Readings| readings.wf() && #[trigger] handle(setup, before, request, readings) == (after, reply)
}

/// Cleanup: both tables lose their expired entries; the frames and the
/// counters stay.
pub open spec fn cleanup_step(state: ServerState, grant_clock: u128, ticket_clock: u128) -> ServerState {
    ServerState {
        grants: live_grants(state.grants, grant_clock),
        issued: live_tickets(state.issued, ticket_clock),
        consumed: live_tickets(state.consumed, ticket_clock),
        ..state
    }
}

/// `after` is `before` cleaned up at some readings of the two clocks.
pub open spec fn cleaned_up(before: ServerState, after: ServerState) -> bool {
    exists|grant_clock: u128, ticket_clock: u128| after == #[trigger] cleanup_step(before, grant_clock, ticket_clock)
}

/// What happens to a server: a request is handled under some readings, or
/// the tables are cleaned up.
pub enum Event {
    Handle { request: Request, readings: Readings },
    Cleanup { grant_clock: u128, ticket_clock: u128 },
}

/// The state after one event.
pub open spec fn after(setup: ServerSetup, state: ServerState, event: Event) -> ServerState {
    match event {
        Event::Handle { request, readings } => handle(setup, state, request, readings).0,
        Event::Cleanup { grant_clock, ticket_clock } => cleanup_step(state, grant_clock, ticket_clock),
    }
}

/// The state after `events` in order, starting from `state`.
pub open spec fn run(setup: ServerSetup, state: ServerState, events: Seq<Event>) -> ServerState
    decreases events.len(),
{
    if events.len() == 0 {
        state
    } else {
        after(setup, run(setup, state, events.drop_last()), events.last())
    }
}

/// `event`, met in `state`, is the redemption of a grant for `frame_id`.
pub open spec fn redeems_frame(setup: ServerSetup, state: ServerState, event: Event, frame_id: [u8; 16]) -> bool {
    &&& event matches Event::Handle { request, readings }
    &&& authentic(setup.session_key, request)
    &&& request matches Request::RedeemGrant { grant_id, .. }
    &&& redeem_outcome(state.grants, grant_id, readings.grant_clock) matches Ok((granted, _))
    &&& granted.frame_id == frame_id
}

/// `event`, met in `state`, is the redemption of a grant whose ticket is
/// `ticket`.
pub open spec fn issues_ticket(setup: ServerSetup, state: ServerState, event: Event, ticket: [u8; 32]) -> bool {
    &&& event matches Event::Handle { request, readings }
    &&& authentic(setup.session_key, request)
    &&& request matches Request::RedeemGrant { grant_id, .. }
    &&& redeem_outcome(state.grants, grant_id, readings.grant_clock) matches Ok((_, issued))
    &&& issued == ticket
}

/// `event` is an authorization that enters a grant under `grant_id`.
pub open spec fn enters_grant(setup: ServerSetup, event: Event, grant_id: [u8; 16]) -> bool {
    &&& event matches Event::Handle { request, readings }
    &&& authentic(setup.session_key, request)
    &&& request is AuthorizeConstruct
    &&& readings.entropy matches Some((entered, _))
    &&& entered == grant_id
}

/// `request` is a seal request, `ComputeSeal` or `VerifySeal`, for
/// `frame_id`.
pub open spec fn asks_seal_for(request: Request, frame_id: [u8; 16]) -> bool {
    match request {
        Request::ComputeSeal { frame_id: named, .. } => named == frame_id,
        Request::VerifySeal { frame_id: named, .. } => named == frame_id,
        _ => false,
    }
}

/// The reply to a redemption that found no grant.
pub open spec fn grant_not_found() -> ResponseView {
    ResponseView::Error { error: "Grant redemption failed"@, reason: GrantError::NotFound.spec_message() }
}

/// The reply to the consumption of a ticket that is not issued.
pub open spec fn ticket_never_issued() -> ResponseView {
    ResponseView::Error { error: "Ticket consumption failed"@, reason: TicketError::NeverIssued.spec_message() }
}

/// A frame is registered only by the redemption of a grant for it.
pub proof fn lemma_registration_needs_redemption(setup: ServerSetup, state: ServerState, event: Event, frame_id: [u8; 16])
    requires
        !state.frames.contains_key(frame_id),
        after(setup, state, event).frames.contains_key(frame_id),
    ensures
        redeems_frame(setup, state, event, frame_id),
{
}

/// A registered frame is never removed.
pub proof fn lemma_registered_frame_stays(setup: ServerSetup, state: ServerState, event: Event, frame_id: [u8; 16])
    requires
        state.frames.contains_key(frame_id),
    ensures
        after(setup, state, event).frames.contains_key(frame_id),
{
}

/// A registered frame stays registered through any run.
pub proof fn lemma_registered_frame_stays_in_run(
    setup: ServerSetup,
    state: ServerState,
    events: Seq<Event>,
    frame_id: [u8; 16],
)
    requires
        state.frames.contains_key(frame_id),
    ensures
        run(setup, state, events).frames.contains_key(frame_id),
    decreases events.len(),
{
    if events.len() > 0 {
        lemma_registered_frame_stays_in_run(setup, state, events.drop_last(), frame_id);
        lemma_registered_frame_stays(setup, run(setup, state, events.drop_last()), events.last(), frame_id);
    }
}

/// After any run from the initial state in which no grant for `frame_id` was
/// redeemed, the frame is not registered.
pub proof fn lemma_unredeemed_frame_is_unregistered(setup: ServerSetup, events: Seq<Event>, frame_id: [u8; 16])
    requires
        forall|i: int|
            0 <= i < events.len() ==> !redeems_frame(
                setup,
                run(setup, Server::initial(), #[trigger] events.take(i)),
                events[i],
                frame_id,
            ),
    ensures
        !run(setup, Server::initial(), events).frames.contains_key(frame_id),
    decreases events.len(),
{
    if events.len() > 0 {
        let shorter = events.drop_last();
        assert forall|i: int| 0 <= i < shorter.len() implies !redeems_frame(
            setup,
            run(setup, Server::initial(), #[trigger] shorter.take(i)),
            shorter[i],
            frame_id,
        ) by {
            assert(shorter.take(i) =~= events.take(i));
        }
        lemma_unredeemed_frame_is_unregistered(setup, shorter, frame_id);
        let last = events.len() - 1;
        assert(events.take(last) =~= shorter);
        assert(!redeems_frame(setup, run(setup, Server::initial(), events.take(last)), events[last], frame_id));
    }
}

/// A seal request for a frame that is not registered is refused, and nothing
/// but the request counter changes.
pub proof fn lemma_seal_refused_for_unregistered(
    setup: ServerSetup,
    state: ServerState,
    request: Request,
    readings: Readings,
    frame_id: [u8; 16],
)
    requires
        authentic(setup.session_key, request),
        asks_seal_for(request, frame_id),
        !state.frames.contains_key(frame_id),
    ensures
        handle(setup, state, request, readings).1 == frame_not_registered(frame_id),
        handle(setup, state, request, readings).0 == (ServerState {
            requests_served: counted(state.requests_served),
            ..state
        }),
{
}

/// A seal request for a frame for which no grant was redeemed since the
/// server was made is refused.
pub proof fn lemma_seal_needs_redemption(
    setup: ServerSetup,
    events: Seq<Event>,
    request: Request,
    readings: Readings,
    frame_id: [u8; 16],
)
    requires
        authentic(setup.session_key, request),
        asks_seal_for(request, frame_id),
        forall|i: int|
            0 <= i < events.len() ==> !redeems_frame(
                setup,
                run(setup, Server::initial(), #[trigger] events.take(i)),
                events[i],
                frame_id,
            ),
    ensures
        handle(setup, run(setup, Server::initial(), events), request, readings).1 == frame_not_registered(frame_id),
{
    lemma_unredeemed_frame_is_unregistered(setup, events, frame_id);
    lemma_seal_refused_for_unregistered(setup, run(setup, Server::initial(), events), request, readings, frame_id);
}

/// A grant id under which nothing is pending stays so through any run in
/// which no grant is entered under it.
pub proof fn lemma_absent_grant_stays_absent_in_run(
    setup: ServerSetup,
    state: ServerState,
    events: Seq<Event>,
    grant_id: [u8; 16],
)
    requires
        !state.grants.contains_key(grant_id),
        forall|i: int| 0 <= i < events.len() ==> !enters_grant(setup, #[trigger] events[i], grant_id),
    ensures
        !run(setup, state, events).grants.contains_key(grant_id),
    decreases events.len(),
{
    if events.len() > 0 {
        let shorter = events.drop_last();
        assert forall|i: int| 0 <= i < shorter.len() implies !enters_grant(setup, #[trigger] shorter[i], grant_id) by {
            assert(shorter[i] == events[i]);
        }
        lemma_absent_grant_stays_absent_in_run(setup, state, shorter, grant_id);
        assert(!enters_grant(setup, events[events.len() - 1], grant_id));
    }
}

/// A grant is redeemed at most once: after a redemption of `grant_id`,
/// whatever it returned, and any run in which no grant is entered under that
/// id again, a redemption of it is refused as not found.
pub proof fn lemma_second_redemption_fails(
    setup: ServerSetup,
    state: ServerState,
    first: Request,
    first_readings: Readings,
    between: Seq<Event>,
    second: Request,
    second_readings: Readings,
    grant_id: [u8; 16],
)
    requires
        authentic(setup.session_key, first),
        authentic(setup.session_key, second),
        first matches Request::RedeemGrant { grant_id: named, .. } && named == grant_id,
        second matches Request::RedeemGrant { grant_id: named, .. } && named == grant_id,
        forall|i: int| 0 <= i < between.len() ==> !enters_grant(setup, #[trigger] between[i], grant_id),
    ensures
        handle(setup, run(setup, handle(setup, state, first, first_readings).0, between), second, second_readings).1
            == grant_not_found(),
{
    lemma_absent_grant_stays_absent_in_run(setup, handle(setup, state, first, first_readings).0, between, grant_id);
}

/// A ticket that is not issued stays so through any run in which no
/// redemption hands it out.
pub proof fn lemma_unissued_ticket_stays_unissued_in_run(
    setup: ServerSetup,
    state: ServerState,
    events: Seq<Event>,
    ticket: [u8; 32],
)
    requires
        !state.issued.contains_key(ticket),
        forall|i: int|
            0 <= i < events.len() ==> !issues_ticket(
                setup,
                run(setup, state, #[trigger] events.take(i)),
                events[i],
                ticket,
            ),
    ensures
        !run(setup, state, events).issued.contains_key(ticket),
    decreases events.len(),
{
    if events.len() > 0 {
        let shorter = events.drop_last();
        assert forall|i: int| 0 <= i < shorter.len() implies !issues_ticket(
            setup,
            run(setup, state, #[trigger] shorter.take(i)),
            shorter[i],
            ticket,
        ) by {
            assert(shorter.take(i) =~= events.take(i));
        }
        lemma_unissued_ticket_stays_unissued_in_run(setup, state, shorter, ticket);
        let last = events.len() - 1;
        assert(events.take(last) =~= shorter);
        assert(!issues_ticket(setup, run(setup, state, events.take(last)), events[last], ticket));
    }
}

/// A ticket is spent at most once: after a consumption that succeeded and
/// any run in which no redemption hands the ticket out again, a second
/// consumption is refused as never issued.
pub proof fn lemma_second_consumption_fails(
    setup: ServerSetup,
    state: ServerState,
    first: Request,
    first_readings: Readings,
    between: Seq<Event>,
    second: Request,
    second_readings: Readings,
    ticket: [u8; 32],
)
    requires
        authentic(setup.session_key, first),
        authentic(setup.session_key, second),
        first matches Request::ConsumeConstructionTicket { ticket: named, .. } && named == ticket,
        second matches Request::ConsumeConstructionTicket { ticket: named, .. } && named == ticket,
        handle(setup, state, first, first_readings).1 is ConsumeTicketReply,
        forall|i: int|
            0 <= i < between.len() ==> !issues_ticket(
                setup,
                run(setup, handle(setup, state, first, first_readings).0, #[trigger] between.take(i)),
                between[i],
                ticket,
            ),
    ensures
        handle(setup, run(setup, handle(setup, state, first, first_readings).0, between), second, second_readings).1
            == ticket_never_issued(),
{
    lemma_unissued_ticket_stays_unissued_in_run(
        setup,
        handle(setup, state, first, first_readings).0,
        between,
        ticket,
    );
}

/// `event` is a cleanup that may drop a ticket entry that expires at
/// `expires_at`.
pub open spec fn cleans_past(event: Event, expires_at: u128) -> bool {
    event matches Event::Cleanup { ticket_clock, .. } && ticket_clock >= expires_at
}

/// A consumed ticket stays consumed, with its expiry, through any run in
/// which no cleanup comes at or after that expiry.
pub proof fn lemma_consumed_ticket_stays_consumed_in_run(
    setup: ServerSetup,
    state: ServerState,
    events: Seq<Event>,
    ticket: [u8; 32],
)
    requires
        state.consumed.contains_key(ticket),
        forall|i: int| 0 <= i < events.len() ==> !cleans_past(#[trigger] events[i], state.consumed[ticket]),
    ensures
        run(setup, state, events).consumed.contains_key(ticket),
        run(setup, state, events).consumed[ticket] == state.consumed[ticket],
    decreases events.len(),
{
    if events.len() > 0 {
        let shorter = events.drop_last();
        assert forall|i: int| 0 <= i < shorter.len() implies !cleans_past(
            #[trigger] shorter[i],
            state.consumed[ticket],
        ) by {
            assert(shorter[i] == events[i]);
        }
        lemma_consumed_ticket_stays_consumed_in_run(setup, state, shorter, ticket);
        assert(!cleans_past(events[events.len() - 1], state.consumed[ticket]));
    }
}

/// A ticket is spent at most once: after a consumption that succeeded and
/// any run in which no cleanup comes at or after the expiry of the consumed
/// entry, a second consumption is refused, whether or not the ticket was
/// handed out again.
pub proof fn lemma_second_consumption_fails_before_cleanup(
    setup: ServerSetup,
    state: ServerState,
    first: Request,
    first_readings: Readings,
    between: Seq<Event>,
    second: Request,
    second_readings: Readings,
    ticket: [u8; 32],
)
    requires
        authentic(setup.session_key, first),
        authentic(setup.session_key, second),
        first matches Request::ConsumeConstructionTicket { ticket: named, .. } && named == ticket,
        second matches Request::ConsumeConstructionTicket { ticket: named, .. } && named == ticket,
        handle(setup, state, first, first_readings).1 is ConsumeTicketReply,
        first_readings.wf(),
        setup.ttl <= MAX_DURATION_NANOS,
        forall|i: int|
            0 <= i < between.len() ==> !cleans_past(
                #[trigger] between[i],
                (first_readings.ticket_clock + setup.ttl) as u128,
            ),
    ensures
        handle(setup, run(setup, handle(setup, state, first, first_readings).0, between), second, second_readings).1
            matches ResponseView::Error { error, .. } && error == "Ticket consumption failed"@,
{
    lemma_consumed_ticket_stays_consumed_in_run(
        setup,
        handle(setup, state, first, first_readings).0,
        between,
        ticket,
    );
}

/// A ticket that no redemption has handed out since the server was made is
/// refused as never issued.
pub proof fn lemma_forged_ticket_fails(
    setup: ServerSetup,
    events: Seq<Event>,
    request: Request,
    readings: Readings,
    ticket: [u8; 32],
)
    requires
        authentic(setup.session_key, request),
        request matches Request::ConsumeConstructionTicket { ticket: named, .. } && named == ticket,
        forall|i: int|
            0 <= i < events.len() ==> !issues_ticket(
                setup,
                run(setup, Server::initial(), #[trigger] events.take(i)),
                events[i],
                ticket,
            ),
    ensures
        handle(setup, run(setup, Server::initial(), events), request, readings).1 == ticket_never_issued(),
{
    lemma_unissued_ticket_stays_unissued_in_run(setup, Server::initial(), events, ticket);
}

/// A redemption later than the time to live after the authorization that
/// entered the grant is refused as expired, if the grant is still there.
pub proof fn lemma_late_redemption_fails(
    setup: ServerSetup,
    state: ServerState,
    authorize: Request,
    authorize_readings: Readings,
    redeem: Request,
    redeem_readings: Readings,
    grant_id: [u8; 16],
)
    requires
        authentic(setup.session_key, authorize),
        authentic(setup.session_key, redeem),
        authorize is AuthorizeConstruct,
        authorize_readings.entropy matches Some((entered, _)) && entered == grant_id,
        redeem matches Request::RedeemGrant { grant_id: named, .. } && named == grant_id,
        authorize_readings.wf(),
        setup.ttl <= MAX_DURATION_NANOS,
        redeem_readings.grant_clock > authorize_readings.grant_clock + setup.ttl,
    ensures
        handle(setup, handle(setup, state, authorize, authorize_readings).0, redeem, redeem_readings).1 == (
        ResponseView::Error { error: "Grant redemption failed"@, reason: GrantError::Expired.spec_message() }),
{
}

/// A request is handled by the readings it needs alone: what it does, and
/// the reply it gets, is the same under any readings that agree on those.
pub proof fn lemma_step_reads_only_what_is_needed(
    setup: ServerSetup,
    state: ServerState,
    request: Request,
    readings: Readings,
)
    ensures
        handle(setup, state, request, readings) == handle(setup, state, request, readings.needed_for(request)),
        readings.wf() ==> readings.needed_for(request).wf(),
{
}

/// A health check changes nothing but the request counter, and its reply
/// holds nothing but the uptime and that counter: a second health check
/// leaves the state where the first left it, counter apart.
pub proof fn lemma_health_check_is_idempotent(setup: ServerSetup, state: ServerState, first: Readings, second: Readings)
    ensures
        ({
            let once = handle(setup, state, Request::HealthCheck, first);
            let twice = handle(setup, once.0, Request::HealthCheck, second);
            &&& once.0 == (ServerState { requests_served: counted(state.requests_served), ..state })
            &&& twice.0 == (ServerState { requests_served: counted(once.0.requests_served), ..once.0 })
            &&& once.1 == (ResponseView::HealthCheckReply {
                status: "healthy"@,
                uptime_secs: first.uptime_secs,
                requests_served: once.0.requests_served,
            })
            &&& twice.1 == (ResponseView::HealthCheckReply {
                status: "healthy"@,
                uptime_secs: second.uptime_secs,
                requests_served: twice.0.requests_served,
            })
        }),
{
}

/// What becomes of a connection once its payload has been read.
#[derive(Clone, Copy, Debug, PartialEq, Eq, Structural)]
pub enum PayloadVerdict {
    /// The peer sent nothing: the connection is closed without a reply.
    Empty,
    /// The payload is over the limit: one error reply, then the connection is
    /// closed.
    TooLarge,
    /// The payload is decoded and handled.
    Accept,
}

/// The verdict on a payload of `received` bytes under a limit of `limit`.
pub open spec fn payload_verdict(received: u64, limit: u64) -> PayloadVerdict {
    if received > limit {
        PayloadVerdict::TooLarge
    } else if received == 0 {
        PayloadVerdict::Empty
    } else {
        PayloadVerdict::Accept
    }
}

/// The reply to a payload over the limit.
pub fn oversized_response() -> (response: Response)
    ensures
        response@ == request_failure("payload exceeds maximum size"@),
{
    error_response("Request failed", "payload exceeds maximum size".to_string())
}

/// The reply to a request that could not be decoded or handled, for the
/// given reason.
pub fn failure_response(reason: String) -> (response: Response)
    ensures
        response@ == request_failure(reason@),
{
    error_response("Request failed", reason)
}

/// An error reply.
pub fn error_response(error: &str, reason: String) -> (response: Response)
    ensures
        response@ == (ResponseView::Error { error: error@, reason: reason@ }),
{
    Response::Error { error: error.to_string(), reason }
}

/// The sidecar server: the secrets, the three tables, the session key and
/// the counters.
pub struct Server {
    config: Config,
    secrets: Secrets,
    grants: GrantTable,
    tickets: ConstructionTicketTable,
    frames: RegisteredFrameTable,
    session_key: [u8; 32],
    start_time: Instant,
    requests_served: u64,
    audits: u64,
}

impl Server {
    /// The tables and the counters.
    pub closed spec fn state(&self) -> ServerState {
        ServerState {
            grants: self.grants.entries(),
            issued: self.tickets.issued(),
            consumed: self.tickets.consumed(),
            frames: self.frames.entries(),
            requests_served: self.requests_served,
            audits: self.audits,
        }
    }

    /// The keys and the limits.
    pub closed spec fn setup(&self) -> ServerSetup {
        ServerSetup {
            seal_key: self.secrets.key(),
            session_key: self.session_key@,
            ttl: self.grants.ttl_nanos(),
            appuser_uid: self.config.appuser_uid,
            max_request_size_bytes: self.config.max_request_size_bytes,
        }
    }

    /// The tables are well formed and share one time to live.
    pub closed spec fn wf(&self) -> bool {
        &&& self.grants.wf()
        &&& self.tickets.wf()
        &&& self.tickets.ttl_nanos() == self.grants.ttl_nanos()
        &&& self.grants.ttl_nanos() <= MAX_DURATION_NANOS
    }

    /// The state of a server that has handled nothing.
    pub open spec fn initial() -> ServerState {
        ServerState {
            grants: no_grants(),
            issued: no_tickets(),
            consumed: no_tickets(),
            frames: no_frames(),
            requests_served: 0,
            audits: 0,
        }
    }

    /// A server with empty tables that holds `secrets` and authenticates
    /// requests under `session_key`.
    pub fn with_secrets(config: Config, session_key: [u8; 32], secrets: Secrets) -> (server: Server)
        ensures
            server.wf(),
            server.state() == Server::initial(),
            server.setup() == (ServerSetup {
                seal_key: secrets.key(),
                session_key: session_key@,
                ttl: (config.grant_ttl_secs * 1_000_000_000) as nat,
                appuser_uid: config.appuser_uid,
                max_request_size_bytes: config.max_request_size_bytes,
            }),
    {
        let grants = GrantTable::new(config.grant_ttl());
        let tickets = ConstructionTicketTable::new(config.grant_ttl());
        let frames = RegisteredFrameTable::new();
        Server {
            config,
            secrets,
            grants,
            tickets,
            frames,
            session_key,
            start_time: Instant::now(),
            requests_served: 0,
            audits: 0,
        }
    }

    /// A server with empty tables and freshly generated secrets. Fails only
    /// when the system generator does.
    pub fn new(config: Config, session_key: [u8; 32]) -> (outcome: Result<Server, EntropyError>)
        ensures
            outcome matches Ok(server) ==> {
                &&& server.wf()
                &&& server.state() == Server::initial()
                &&& server.setup().session_key == session_key@
                &&& server.setup().ttl == config.grant_ttl_secs * 1_000_000_000
                &&& server.setup().appuser_uid == config.appuser_uid
                &&& server.setup().max_request_size_bytes == config.max_request_size_bytes
            },
    {
        match Secrets::generate() {
            Ok(secrets) => Ok(Server::with_secrets(config, session_key, secrets)),
            Err(error) => Err(error),
        }
    }

    /// The authenticator that `request` must carry.
    pub fn compute_request_auth(&self, request: &Request) -> (tag: Vec<u8>)
        ensures
            tag@ == expected_auth(self.setup().session_key, *request),
    {
        compute_auth(&self.session_key, request)
    }

    /// Whether `frame_id` is registered.
    pub fn is_frame_registered(&self, frame_id: [u8; 16]) -> (present: bool)
        ensures
            present == self.state().frames.contains_key(frame_id),
    {
        self.frames.contains(frame_id)
    }

    /// Whether a connection from `peer_uid` is served: only the configured
    /// user's is. A refused connection is closed before anything is read
    /// from it.
    pub fn admits_peer(&self, peer_uid: u32) -> (admitted: bool)
        ensures
            admitted == (peer_uid == self.setup().appuser_uid),
    {
        peer_uid == self.config.appuser_uid
    }

    /// The largest payload that is accepted, in bytes.
    pub fn max_request_size(&self) -> (limit: u64)
        ensures
            limit == self.setup().max_request_size_bytes,
    {
        self.config.max_request_size_bytes
    }

    /// What becomes of a connection whose payload had `received` bytes when
    /// reading stopped, at the end of the stream or past the limit.
    pub fn screen_payload(&self, received: u64) -> (verdict: PayloadVerdict)
        ensures
            verdict == payload_verdict(received, self.setup().max_request_size_bytes),
    {
        if received > self.config.max_request_size_bytes {
            PayloadVerdict::TooLarge
        } else if received == 0 {
            PayloadVerdict::Empty
        } else {
            PayloadVerdict::Accept
        }
    }

    /// Drops the expired entries of the grant table and of both ticket
    /// sets, at the given readings of their clocks.
    pub fn cleanup_expired_at(&mut self, grant_clock: u128, ticket_clock: u128)
        requires
            old(self).wf(),
        ensures
            final(self).wf(),
            final(self).setup() == old(self).setup(),
            final(self).state() == cleanup_step(old(self).state(), grant_clock, ticket_clock),
    {
        self.grants.cleanup_expired_at(grant_clock);
        self.tickets.cleanup_expired_at(ticket_clock);
    }

    /// Drops the entries of the grant table and of both ticket sets that
    /// have expired by now.
    pub fn cleanup_expired(&mut self)
        requires
            old(self).wf(),
        ensures
            final(self).wf(),
            final(self).setup() == old(self).setup(),
            cleaned_up(old(self).state(), final(self).state()),
    {
        let grant_clock = self.grants.now();
        let ticket_clock = self.tickets.now();
        self.cleanup_expired_at(grant_clock, ticket_clock);
        assert(self.state() == cleanup_step(old(self).state(), grant_clock, ticket_clock));
    }

    /// Reads from outside what `request` needs, and nothing else: the
    /// generator, the grant clock and the wall clock for an authorization,
    /// the two tables' clocks for a redemption, the ticket clock for a
    /// consumption, the uptime for a health check. A seal request needs no
    /// reading, and gets `Readings::nothing()`.
    pub fn read_for(&self, request: &Request) -> (readings: Readings)
        ensures
            readings.wf(),
            readings == readings.needed_for(*request),
    {
        let mut readings = Readings {
            grant_clock: 0,
            ticket_clock: 0,
            wall_clock: None,
            uptime_secs: 0,
            entropy: None,
        };
        match request {
            Request::AuthorizeConstruct { .. } => {
                readings.entropy = match fill_random::<16>() {
                    None => None,
                    Some(grant_id) => match fill_random::<32>() {
                        None => None,
                        Some(ticket) => Some((grant_id, ticket)),
                    },
                };
                readings.grant_clock = self.grants.now();
                readings.wall_clock = unix_nanos();
            },
            Request::RedeemGrant { .. } => {
                readings.grant_clock = self.grants.now();
                readings.ticket_clock = self.tickets.now();
            },
            Request::ConsumeConstructionTicket { .. } => {
                readings.ticket_clock = self.tickets.now();
            },
            Request::HealthCheck => {
                let elapsed = self.start_time.elapsed();
                readings.uptime_secs = elapsed.as_secs();
            },
            _ => {},
        }
        readings
    }

    /// Handles one request: reads what it needs from outside, and answers.
    pub fn handle_request(&mut self, request: Request) -> (response: Response)
        requires
            old(self).wf(),
        ensures
            final(self).wf(),
            final(self).setup() == old(self).setup(),
            handled(old(self).setup(), old(self).state(), request, final(self).state(), response@),
            !authentic(old(self).setup().session_key, request) ==> final(self).state() == old(self).state()
                && response@ == authentication_failure(),
    {
        if request.requires_auth() && !validate_auth(&self.session_key, &request) {
            let response = error_response("Authentication failed", "Invalid HMAC signature".to_string());
            proof {
                let readings = Readings {
                    grant_clock: 0,
                    ticket_clock: 0,
                    wall_clock: None,
                    uptime_secs: 0,
                    entropy: None,
                };
                assert(handle(self.setup(), self.state(), request, readings) == (self.state(), response@));
            }
            return response;
        }
        let readings = self.read_for(&request);
        let response = self.dispatch(request, &readings);
        proof {
            assert(handle(old(self).setup(), old(self).state(), request, readings) == (self.state(), response@));
        }
        response
    }

    /// Answers a request that has passed authentication, under the given
    /// readings: counts it, then handles it by its variant.
    pub fn dispatch(&mut self, request: Request, readings: &Readings) -> (response: Response)
        requires
            old(self).wf(),
            readings.wf(),
        ensures
            final(self).wf(),
            final(self).setup() == old(self).setup(),
            (final(self).state(), response@) == step(old(self).setup(), old(self).state(), request, *readings),
    {
        self.requests_served = if self.requests_served == u64::MAX {
            0
        } else {
            self.requests_served + 1
        };
        match request {
            Request::AuthorizeConstruct { frame_id, level, data_digest, .. } => self.handle_authorize_construct(
                frame_id,
                level,
                data_digest,
                readings,
            ),
            Request::RedeemGrant { grant_id, .. } => self.handle_redeem_grant(grant_id, readings),
            Request::ComputeSeal { frame_id, level, data_digest, .. } => self.handle_compute_seal(
                frame_id,
                level,
                data_digest,
            ),
            Request::VerifySeal { frame_id, level, data_digest, seal, .. } => self.handle_verify_seal(
                frame_id,
                level,
                data_digest,
                seal,
            ),
            Request::HealthCheck => self.handle_health_check(readings),
            Request::ConsumeConstructionTicket { ticket, .. } => self.handle_consume_construction_ticket(
                ticket,
                readings,
            ),
        }
    }

    /// The next audit id; the counter moves on.
    fn next_audit_id(&mut self) -> (audit_id: u64)
        requires
            old(self).wf(),
        ensures
            final(self).wf(),
            final(self).setup() == old(self).setup(),
            audit_id == old(self).state().audits,
            final(self).state() == (ServerState { audits: audited(old(self).state().audits), ..old(self).state() }),
    {
        let audit_id = self.audits;
        if self.audits < u64::MAX {
            self.audits = self.audits + 1;
        }
        audit_id
    }

    fn handle_health_check(&self, readings: &Readings) -> (response: Response)
        ensures
            (self.state(), response@) == health_step(self.state(), *readings),
    {
        Response::HealthCheckReply {
            status: "healthy".to_string(),
            uptime_secs: readings.uptime_secs,
            requests_served: self.requests_served,
        }
    }

    fn handle_authorize_construct(
        &mut self,
        frame_id: [u8; 16],
        level: u32,
        data_digest: [u8; 32],
        readings: &Readings,
    ) -> (response: Response)
        requires
            old(self).wf(),
            readings.wf(),
        ensures
            final(self).wf(),
            final(self).setup() == old(self).setup(),
            (final(self).state(), response@) == authorize_step(
                old(self).setup(),
                old(self).state(),
                (GrantRequest { frame_id, level, data_digest }),
                *readings,
            ),
    {
        let request = GrantRequest { frame_id, level, data_digest };
        let (grant_id, ticket) = match readings.entropy {
            Some(pair) => pair,
            None => {
                return error_response("Request failed", "RNG failure".to_string());
            },
        };
        let grant_id = self.grants.authorize_with(request, grant_id, ticket, readings.grant_clock);
        match readings.wall_clock {
            None => error_response("Request failed", "system clock is set before the Unix epoch".to_string()),
            Some(wall) => Response::AuthorizeConstructReply { grant_id, expires_at: wall + self.grants.ttl() },
        }
    }

    fn handle_redeem_grant(&mut self, grant_id: [u8; 16], readings: &Readings) -> (response: Response)
        requires
            old(self).wf(),
            readings.wf(),
        ensures
            final(self).wf(),
            final(self).setup() == old(self).setup(),
            (final(self).state(), response@) == redeem_step(old(self).setup(), old(self).state(), grant_id, *readings),
    {
        let (grant_request, construction_ticket) = match self.grants.redeem_at(&grant_id, readings.grant_clock) {
            Ok(redeemed) => redeemed,
            Err(error) => {
                return error_response("Grant redemption failed", error.message());
            },
        };
        self.tickets.issue_at(construction_ticket, readings.ticket_clock);
        self.frames.register_from_grant(grant_request);
        let seal = self.secrets.compute_seal(
            grant_request.frame_id,
            grant_request.level,
            &grant_request.data_digest,
        );
        let audit_id = self.next_audit_id();
        Response::RedeemGrantReply { construction_ticket, seal, audit_id }
    }

    fn handle_compute_seal(&mut self, frame_id: [u8; 16], level: u32, data_digest: [u8; 32]) -> (response: Response)
        requires
            old(self).wf(),
        ensures
            final(self).wf(),
            final(self).setup() == old(self).setup(),
            (final(self).state(), response@) == compute_seal_step(
                old(self).setup(),
                old(self).state(),
                frame_id,
                level,
                data_digest,
            ),
    {
        if !self.frames.contains(frame_id) {
            return Server::unregistered(&frame_id);
        }
        let seal = self.secrets.compute_seal(frame_id, level, &data_digest);
        match self.frames.update(frame_id, level, &data_digest) {
            Ok(()) => {},
            Err(unknown) => {
                return error_response("Request failed", unknown.message());
            },
        }
        let audit_id = self.next_audit_id();
        Response::ComputeSealReply { seal, audit_id }
    }

    fn handle_verify_seal(
        &mut self,
        frame_id: [u8; 16],
        level: u32,
        data_digest: [u8; 32],
        seal: [u8; 32],
    ) -> (response: Response)
        requires
            old(self).wf(),
        ensures
            final(self).wf(),
            final(self).setup() == old(self).setup(),
            (final(self).state(), response@) == verify_seal_step(
                old(self).setup(),
                old(self).state(),
                frame_id,
                level,
                data_digest,
                seal,
            ),
    {
        if !self.frames.contains(frame_id) {
            return Server::unregistered(&frame_id);
        }
        let valid = self.secrets.verify_seal(frame_id, level, &data_digest, seal.as_slice());
        let audit_id = self.next_audit_id();
        Response::VerifySealReply { valid, audit_id }
    }

    fn handle_consume_construction_ticket(&mut self, ticket: [u8; 32], readings: &Readings) -> (response: Response)
        requires
            old(self).wf(),
            readings.wf(),
        ensures
            final(self).wf(),
            final(self).setup() == old(self).setup(),
            (final(self).state(), response@) == consume_step(old(self).setup(), old(self).state(), ticket, *readings),
    {
        match self.tickets.consume_at(&ticket, readings.ticket_clock) {
            Ok(()) => {
                let audit_id = self.next_audit_id();
                Response::ConsumeTicketReply { consumed: true, audit_id }
            },
            Err(error) => error_response("Ticket consumption failed", error.message()),
        }
    }

    /// The reply to a seal request for a frame that is not registered.
    fn unregistered(frame_id: &[u8; 16]) -> (response: Response)
        ensures
            response@ == frame_not_registered(*frame_id),
    {
        let id = frame_id_text(frame_id);
        let reason = "Frame ".to_string().concat(id.as_str()).concat(
            " must be registered via grant redemption first",
        );
        error_response("Frame not registered", reason)
    }
}

} // verus!
