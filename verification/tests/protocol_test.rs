use elspeth_sidecar::protocol::Request;
use serde_bytes::Bytes;

fn hex(bytes: &[u8]) -> String {
    let mut text = String::new();
    for byte in bytes {
        text.push_str(&format!("{:02x}", byte));
    }
    text
}

#[test]
fn test_canonical_bytes_deterministic() {
    let req = Request::AuthorizeConstruct { frame_id: [0x01; 16], level: 3, data_digest: [0x02; 32], auth: vec![] };

    let bytes1 = req.canonical_bytes_without_auth();
    let bytes2 = req.canonical_bytes_without_auth();

    assert_eq!(bytes1, bytes2);
}

#[test]
fn test_canonical_cbor_format() {
    let frame_id: [u8; 16] =
        [0x62, 0xab, 0x9b, 0x90, 0x25, 0xc1, 0x48, 0xd4, 0x9b, 0x4e, 0x9d, 0x36, 0x95, 0xd8, 0x6a, 0x72];
    let level: u32 = 2;
    let data_digest: [u8; 32] = [0xAA; 32];

    let request = Request::AuthorizeConstruct { frame_id, level, data_digest, auth: vec![] };

    let canonical_bytes = request.canonical_bytes_without_auth();

    let hex_string = hex(&canonical_bytes);

    println!("  Hex: {}", hex_string);
    println!("  Length: {} bytes", canonical_bytes.len());

    assert_eq!(canonical_bytes.len(), 53, "Canonical CBOR should be 53 bytes to match Python");
    assert_eq!(&hex_string[..4], "8350", "Should start with array(3) + bytes(16) markers");
    assert_eq!(
        hex_string,
        "835062ab9b9025c148d49b4e9d3695d86a72025820aaaaaaaaaaaaaaaaaaaaaaaaaaaaaaaaaaaaaaaaaaaaaaaaaaaaaaaaaaaaaaaa"
    );
}

#[test]
fn canonical_bytes_leave_auth_out() {
    let with = Request::ComputeSeal { frame_id: [0x01; 16], level: 3, data_digest: [0x02; 32], auth: vec![0xAB; 32] };
    let without = Request::ComputeSeal { frame_id: [0x01; 16], level: 3, data_digest: [0x02; 32], auth: vec![] };
    assert_eq!(with.canonical_bytes_without_auth(), without.canonical_bytes_without_auth());
}

#[test]
fn canonical_bytes_of_redeem_grant_are_one_byte_string() {
    let request = Request::RedeemGrant { grant_id: [0x5A; 16], auth: vec![1, 2, 3] };
    let mut expected = vec![0x50];
    expected.extend_from_slice(&[0x5A; 16]);
    assert_eq!(request.canonical_bytes_without_auth(), expected);
}

#[test]
fn canonical_bytes_of_consume_ticket_are_one_byte_string() {
    let request = Request::ConsumeConstructionTicket { ticket: [0xEE; 32], auth: vec![] };
    let mut expected = vec![0x58, 0x20];
    expected.extend_from_slice(&[0xEE; 32]);
    assert_eq!(request.canonical_bytes_without_auth(), expected);
}

#[test]
fn canonical_bytes_of_verify_seal_are_an_array_of_four() {
    let request =
        Request::VerifySeal { frame_id: [0x01; 16], level: 3, data_digest: [0xAA; 32], seal: [0xBB; 32], auth: vec![] };
    let mut expected = vec![0x84, 0x50];
    expected.extend_from_slice(&[0x01; 16]);
    expected.push(0x03);
    expected.extend_from_slice(&[0x58, 0x20]);
    expected.extend_from_slice(&[0xAA; 32]);
    expected.extend_from_slice(&[0x58, 0x20]);
    expected.extend_from_slice(&[0xBB; 32]);
    assert_eq!(request.canonical_bytes_without_auth(), expected);
    assert_eq!(expected.len(), 87);
}

#[test]
fn canonical_bytes_of_health_check_are_empty() {
    assert!(Request::HealthCheck.canonical_bytes_without_auth().is_empty());
}

fn level_bytes(level: u32) -> Vec<u8> {
    let request = Request::AuthorizeConstruct { frame_id: [0; 16], level, data_digest: [0; 32], auth: vec![] };
    let bytes = request.canonical_bytes_without_auth();
    bytes[18..bytes.len() - 34].to_vec()
}

#[test]
fn level_is_encoded_in_its_shortest_form() {
    assert_eq!(level_bytes(0), vec![0x00]);
    assert_eq!(level_bytes(23), vec![0x17]);
    assert_eq!(level_bytes(24), vec![0x18, 0x18]);
    assert_eq!(level_bytes(255), vec![0x18, 0xff]);
    assert_eq!(level_bytes(256), vec![0x19, 0x01, 0x00]);
    assert_eq!(level_bytes(65535), vec![0x19, 0xff, 0xff]);
    assert_eq!(level_bytes(65536), vec![0x1a, 0x00, 0x01, 0x00, 0x00]);
    assert_eq!(level_bytes(0x0102_0304), vec![0x1a, 0x01, 0x02, 0x03, 0x04]);
    assert_eq!(level_bytes(u32::MAX), vec![0x1a, 0xff, 0xff, 0xff, 0xff]);
}

#[test]
fn canonical_bytes_match_the_encoder_on_the_tuple() {
    let frame_id = [0x10u8; 16];
    let digest = [0x20u8; 32];
    let seal = [0x30u8; 32];
    let level = 70_000u32;

    let mut triple = Vec::new();
    ciborium::into_writer(&(Bytes::new(&frame_id), level, Bytes::new(&digest)), &mut triple).unwrap();
    let request = Request::AuthorizeConstruct { frame_id, level, data_digest: digest, auth: vec![9] };
    assert_eq!(request.canonical_bytes_without_auth(), triple);

    let mut quad = Vec::new();
    ciborium::into_writer(&(Bytes::new(&frame_id), level, Bytes::new(&digest), Bytes::new(&seal)), &mut quad).unwrap();
    let request = Request::VerifySeal { frame_id, level, data_digest: digest, seal, auth: vec![9] };
    assert_eq!(request.canonical_bytes_without_auth(), quad);
}

#[test]
fn auth_is_present_on_every_variant_but_health_check() {
    let auth = vec![0xDE, 0xAD];
    let requests = vec![
        Request::AuthorizeConstruct { frame_id: [0; 16], level: 0, data_digest: [0; 32], auth: auth.clone() },
        Request::RedeemGrant { grant_id: [0; 16], auth: auth.clone() },
        Request::ConsumeConstructionTicket { ticket: [0; 32], auth: auth.clone() },
        Request::ComputeSeal { frame_id: [0; 16], level: 0, data_digest: [0; 32], auth: auth.clone() },
        Request::VerifySeal { frame_id: [0; 16], level: 0, data_digest: [0; 32], seal: [0; 32], auth: auth.clone() },
    ];
    for request in &requests {
        assert!(request.requires_auth());
        assert_eq!(request.auth(), Some(&auth[..]));
    }
    assert!(!Request::HealthCheck.requires_auth());
    assert_eq!(Request::HealthCheck.auth(), None);
}
