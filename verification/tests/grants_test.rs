use elspeth_sidecar::clock::MAX_DURATION_NANOS;
use elspeth_sidecar::grants::ConstructionTicketTable;
use elspeth_sidecar::grants::GrantError;
use elspeth_sidecar::grants::GrantRequest;
use elspeth_sidecar::grants::GrantTable;
use elspeth_sidecar::grants::TicketError;
use std::time::Duration;
use std::time::Instant;
use uuid::Uuid;

fn digest(tag: u8) -> [u8; 32] {
    [tag; 32]
}

fn wait(span: Duration) {
    let start = Instant::now();
    while start.elapsed() < span {
        std::hint::spin_loop();
    }
}

#[test]
fn test_authorize_creates_unique_ids() {
    let mut table = GrantTable::new(Duration::from_secs(60));
    let request = GrantRequest { frame_id: Uuid::new_v4().into_bytes(), level: 3, data_digest: [0xAA; 32] };

    let id1 = table.authorize(request.clone()).unwrap();
    let id2 = table.authorize(request.clone()).unwrap();

    assert_ne!(id1, id2);
}

#[test]
fn test_ticket_consumption_is_one_shot() {
    let mut table = ConstructionTicketTable::new(Duration::from_secs(60));
    let ticket = [0xBB; 32];

    // Issue ticket first (simulates redeem_grant)
    table.issue(ticket);

    // First consumption succeeds
    assert!(table.consume(&ticket).is_ok());

    // Second consumption fails (already consumed)
    assert!(table.consume(&ticket).is_err());
}

#[test]
fn test_different_tickets_can_be_consumed() {
    let mut table = ConstructionTicketTable::new(Duration::from_secs(60));
    let ticket1 = [0xCC; 32];
    let ticket2 = [0xDD; 32];

    // Issue both tickets first
    table.issue(ticket1);
    table.issue(ticket2);

    assert!(table.consume(&ticket1).is_ok());
    assert!(table.consume(&ticket2).is_ok());
}

#[test]
fn test_forged_ticket_rejected() {
    let mut table = ConstructionTicketTable::new(Duration::from_secs(60));
    let forged_ticket = [0xEE; 32];

    // Attempt to consume without issuing (simulates forgery attack)
    let result = table.consume(&forged_ticket);
    assert!(result.is_err());
    assert!(result.unwrap_err().message().contains("never issued"));
}

#[test]
fn test_issued_tickets_tracked() {
    let mut table = ConstructionTicketTable::new(Duration::from_secs(60));
    let ticket = [0xFF; 32];

    // Before issuing
    assert!(!table.is_issued(&ticket));
    assert_eq!(table.issued_count(), 0);

    // After issuing
    table.issue(ticket);
    assert!(table.is_issued(&ticket));
    assert_eq!(table.issued_count(), 1);

    // After consuming
    table.consume(&ticket).unwrap();
    assert!(!table.is_issued(&ticket)); // Removed from issued set
    assert!(table.is_consumed(&ticket)); // Added to consumed set
    assert_eq!(table.issued_count(), 0);
    assert_eq!(table.consumed_count(), 1);
}

#[test]
fn test_grant_authorize_and_redeem_success() {
    let mut table = GrantTable::new(Duration::from_secs(60));
    let request = GrantRequest { frame_id: Uuid::new_v4().into_bytes(), level: 3, data_digest: digest(0x90) };

    // Authorize creates grant
    let grant_id = table.authorize(request.clone()).unwrap();
    assert_eq!(grant_id.len(), 16);

    // Redeem succeeds once
    let result = table.redeem(&grant_id);
    assert!(result.is_ok());
    let (redeemed, ticket) = result.unwrap();
    assert_eq!(redeemed.frame_id, request.frame_id);
    assert_eq!(redeemed.level, 3);
    assert_eq!(redeemed.data_digest, request.data_digest);
    assert_eq!(ticket.len(), 32);

    // Redeem fails second time (one-shot)
    let result2 = table.redeem(&grant_id);
    assert!(result2.is_err());
}

#[test]
fn test_grant_expires_after_ttl() {
    let mut table = GrantTable::new(Duration::from_millis(100));
    let request = GrantRequest { frame_id: Uuid::new_v4().into_bytes(), level: 3, data_digest: digest(0x33) };

    let grant_id = table.authorize(request).unwrap();

    // Wait for expiry
    wait(Duration::from_millis(150));

    // Redeem fails (expired)
    let result = table.redeem(&grant_id);
    assert!(matches!(result, Err(_)));
}

#[test]
fn test_grant_cleanup_removes_expired() {
    let mut table = GrantTable::new(Duration::from_millis(50));

    // Create 3 grants
    for tag in 0..3 {
        let request = GrantRequest { frame_id: Uuid::new_v4().into_bytes(), level: 3, data_digest: digest(tag) };
        table.authorize(request).unwrap();
    }

    // Wait for expiry
    wait(Duration::from_millis(100));

    // Trigger cleanup
    table.cleanup_expired();

    // All grants should be removed (checking via active count)
    assert_eq!(table.active_count(), 0);
}

const SECOND: u128 = 1_000_000_000;

fn request(tag: u8) -> GrantRequest {
    GrantRequest { frame_id: [tag; 16], level: 3, data_digest: digest(tag) }
}

#[test]
fn redeem_at_the_expiry_succeeds_and_just_after_fails() {
    let mut table = GrantTable::new(Duration::from_secs(60));
    assert_eq!(table.ttl(), 60 * SECOND);

    table.authorize_with(request(1), [1; 16], [0x11; 32], 5 * SECOND);
    table.authorize_with(request(2), [2; 16], [0x22; 32], 5 * SECOND);
    assert_eq!(table.active_count(), 2);

    // The expiry is 65 s: a redemption exactly then is still good.
    let (redeemed, ticket) = table.redeem_at(&[1; 16], 65 * SECOND).unwrap();
    assert_eq!(redeemed, request(1));
    assert_eq!(ticket, [0x11; 32]);

    // One nanosecond later it is not, and the grant is gone all the same.
    assert_eq!(table.redeem_at(&[2; 16], 65 * SECOND + 1), Err(GrantError::Expired));
    assert_eq!(table.active_count(), 0);
    assert_eq!(table.redeem_at(&[2; 16], 6 * SECOND), Err(GrantError::NotFound));
}

#[test]
fn redeem_of_an_unknown_id_is_not_found() {
    let mut table = GrantTable::new(Duration::from_secs(60));
    table.authorize_with(request(1), [1; 16], [0x11; 32], 0);
    assert_eq!(table.redeem_at(&[9; 16], 0), Err(GrantError::NotFound));
    assert_eq!(table.active_count(), 1);
}

#[test]
fn second_redemption_is_not_found_whatever_the_first_returned() {
    let mut table = GrantTable::new(Duration::from_secs(1));
    table.authorize_with(request(1), [1; 16], [0x11; 32], 0);
    assert!(table.redeem_at(&[1; 16], 0).is_ok());
    assert_eq!(table.redeem_at(&[1; 16], 0), Err(GrantError::NotFound));

    table.authorize_with(request(2), [2; 16], [0x22; 32], 0);
    assert_eq!(table.redeem_at(&[2; 16], 2 * SECOND), Err(GrantError::Expired));
    assert_eq!(table.redeem_at(&[2; 16], 0), Err(GrantError::NotFound));
}

#[test]
fn authorize_with_replaces_an_entry_under_the_same_id() {
    let mut table = GrantTable::new(Duration::from_secs(60));
    assert_eq!(table.authorize_with(request(1), [7; 16], [0x11; 32], 0), [7; 16]);
    table.authorize_with(request(2), [7; 16], [0x22; 32], 0);
    assert_eq!(table.active_count(), 1);
    let (redeemed, ticket) = table.redeem_at(&[7; 16], 0).unwrap();
    assert_eq!(redeemed, request(2));
    assert_eq!(ticket, [0x22; 32]);
}

#[test]
fn cleanup_drops_entries_at_their_expiry_and_keeps_later_ones() {
    let mut table = GrantTable::new(Duration::from_secs(10));
    table.authorize_with(request(1), [1; 16], [0x11; 32], 0); // expires at 10 s
    table.authorize_with(request(2), [2; 16], [0x22; 32], 1); // expires at 10 s + 1 ns
    table.authorize_with(request(3), [3; 16], [0x33; 32], 5 * SECOND); // expires at 15 s

    table.cleanup_expired_at(10 * SECOND - 1);
    assert_eq!(table.active_count(), 3);

    // An entry whose expiry equals the time of cleanup is dropped.
    table.cleanup_expired_at(10 * SECOND);
    assert_eq!(table.active_count(), 2);
    assert_eq!(table.redeem_at(&[1; 16], 0), Err(GrantError::NotFound));

    table.cleanup_expired_at(10 * SECOND + 1);
    assert_eq!(table.active_count(), 1);
    assert!(table.redeem_at(&[3; 16], 0).is_ok());
}

#[test]
fn grant_error_messages() {
    assert_eq!(GrantError::NotFound.message(), "Grant not found or already redeemed");
    assert_eq!(GrantError::Expired.message(), "Grant expired");
}

#[test]
fn grant_times_do_not_overflow_at_the_limits() {
    let mut table = GrantTable::new(Duration::MAX);
    assert_eq!(table.ttl(), MAX_DURATION_NANOS);
    table.authorize_with(request(1), [1; 16], [0x11; 32], MAX_DURATION_NANOS);
    assert!(table.redeem_at(&[1; 16], 2 * MAX_DURATION_NANOS).is_ok());
    table.authorize_with(request(1), [1; 16], [0x11; 32], MAX_DURATION_NANOS);
    assert_eq!(table.redeem_at(&[1; 16], 2 * MAX_DURATION_NANOS + 1), Err(GrantError::Expired));
}

#[test]
fn zero_ttl_grant_is_redeemable_only_at_its_issue_time() {
    let mut table = GrantTable::new(Duration::from_secs(0));
    table.authorize_with(request(1), [1; 16], [0x11; 32], 42);
    assert!(table.redeem_at(&[1; 16], 42).is_ok());
    table.authorize_with(request(1), [1; 16], [0x11; 32], 42);
    assert_eq!(table.redeem_at(&[1; 16], 43), Err(GrantError::Expired));
}

#[test]
fn authorize_draws_the_ticket_independently_of_the_id() {
    let mut table = GrantTable::new(Duration::from_secs(60));
    let grant_id = table.authorize(request(1)).unwrap();
    let (_, ticket) = table.redeem(&grant_id).unwrap();
    assert_ne!(&ticket[..16], &grant_id[..]);
    assert_ne!(&ticket[16..], &grant_id[..]);
}

#[test]
fn consume_checks_issued_before_consumed() {
    let mut table = ConstructionTicketTable::new(Duration::from_secs(60));
    let ticket = [0x41; 32];

    assert_eq!(table.consume_at(&ticket, 0), Err(TicketError::NeverIssued));
    assert!(!table.is_consumed(&ticket));

    table.issue_at(ticket, 0);
    assert_eq!(table.consume_at(&ticket, 1), Ok(()));
    // Spent: no longer issued, so the refusal is that of a ticket that is not issued.
    assert_eq!(table.consume_at(&ticket, 2), Err(TicketError::NeverIssued));

    // Issued again while still among the consumed: refused as already consumed.
    table.issue_at(ticket, 3);
    assert!(table.is_issued(&ticket));
    assert!(table.is_consumed(&ticket));
    assert_eq!(table.consume_at(&ticket, 4), Err(TicketError::AlreadyConsumed));
    assert!(table.is_issued(&ticket));
    assert_eq!(table.issued_count(), 1);
    assert_eq!(table.consumed_count(), 1);
}

#[test]
fn ticket_cleanup_prunes_both_sets() {
    let mut table = ConstructionTicketTable::new(Duration::from_secs(10));
    table.issue_at([1; 32], 0);
    table.issue_at([2; 32], 0);
    table.issue_at([3; 32], 5 * SECOND);
    table.consume_at(&[1; 32], SECOND).unwrap(); // consumed entry expires at 11 s
    assert_eq!(table.issued_count(), 2);
    assert_eq!(table.consumed_count(), 1);

    table.cleanup_expired_at(10 * SECOND); // drops issued [2]
    assert_eq!(table.issued_count(), 1);
    assert_eq!(table.consumed_count(), 1);
    assert!(!table.is_issued(&[2; 32]));
    assert!(table.is_issued(&[3; 32]));

    table.cleanup_expired_at(11 * SECOND); // drops consumed [1]
    assert_eq!(table.consumed_count(), 0);
    assert_eq!(table.issued_count(), 1);

    table.cleanup_expired_at(15 * SECOND);
    assert_eq!(table.issued_count(), 0);
    table.cleanup_expired();
    assert_eq!(table.issued_count(), 0);
}

#[test]
fn ticket_error_messages() {
    assert_eq!(TicketError::NeverIssued.message(), "Construction ticket not found (never issued or expired)");
    assert_eq!(TicketError::AlreadyConsumed.message(), "Construction ticket already consumed");
}
