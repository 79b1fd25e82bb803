use ota_provision::credentials::{
    decode_credentials, CredentialError, DecodeError, NetworkCredentials, PAYLOAD_LEN,
};

fn payload_with(ssid: &[u8], password: &[u8], flag: u8, bssid: [u8; 6]) -> Vec<u8> {
    let mut payload = vec![0u8; PAYLOAD_LEN];
    payload[..ssid.len()].copy_from_slice(ssid);
    payload[32..32 + password.len()].copy_from_slice(password);
    payload[96] = flag;
    payload[97..103].copy_from_slice(&bssid);
    payload
}

#[test]
fn round_trip_of_longest_name_and_password() {
    let ssid = [b'n'; 32];
    let password = [b'p'; 64];
    let made = NetworkCredentials::new(&ssid, &password, None).unwrap();
    let payload = made.encode();
    assert_eq!(payload.len(), 103);
    let back = decode_credentials(&payload).unwrap();
    assert_eq!(back.ssid().as_slice(), &ssid[..]);
    assert_eq!(back.password().as_slice(), &password[..]);
    assert_eq!(back.bssid(), None);
    assert_eq!(back, made);
}

#[test]
fn round_trip_with_hardware_address() {
    let address = [0xde, 0xad, 0xbe, 0xef, 0x00, 0x01];
    let made = NetworkCredentials::new(b"home", b"secret", Some(address)).unwrap();
    let payload = made.encode();
    assert_eq!(payload.len(), PAYLOAD_LEN);
    assert_eq!(&payload[..5], b"home\0");
    assert_eq!(&payload[32..39], b"secret\0");
    assert_eq!(payload[96], 1);
    assert_eq!(&payload[97..103], &address[..]);
    let back = decode_credentials(&payload).unwrap();
    assert_eq!(back, made);
    assert_eq!(back.bssid(), Some(address));
}

#[test]
fn encode_pads_with_zero_bytes() {
    let made = NetworkCredentials::new(b"ab", b"c", None).unwrap();
    let payload = made.encode();
    let mut expected = vec![0u8; 103];
    expected[0] = b'a';
    expected[1] = b'b';
    expected[32] = b'c';
    assert_eq!(payload, expected);
}

#[test]
fn decode_stops_at_first_zero_byte() {
    let mut payload = payload_with(b"net", b"pw", 0, [9; 6]);
    payload[5] = b'x';
    payload[40] = b'y';
    let decoded = decode_credentials(&payload).unwrap();
    assert_eq!(decoded.ssid().as_slice(), b"net");
    assert_eq!(decoded.password().as_slice(), b"pw");
    assert_eq!(decoded.bssid(), None);
}

#[test]
fn decode_does_not_read_past_a_full_field() {
    let ssid = [b's'; 32];
    let payload = payload_with(&ssid, b"pw", 0, [0; 6]);
    let decoded = decode_credentials(&payload).unwrap();
    assert_eq!(decoded.ssid().len(), 32);
    assert_eq!(decoded.password().as_slice(), b"pw");
}

#[test]
fn decode_ignores_auxiliary_data() {
    let mut payload = payload_with(b"net", b"pw", 1, [1, 2, 3, 4, 5, 6]);
    payload.extend_from_slice(&[0xff; 33]);
    let decoded = decode_credentials(&payload).unwrap();
    assert_eq!(decoded.ssid().as_slice(), b"net");
    assert_eq!(decoded.bssid(), Some([1, 2, 3, 4, 5, 6]));
}

#[test]
fn decode_refuses_short_payload() {
    assert_eq!(decode_credentials(&[]), Err(DecodeError::Truncated));
    assert_eq!(decode_credentials(&[b'a'; 102]), Err(DecodeError::Truncated));
}

#[test]
fn decode_refuses_bad_address_flag() {
    let payload = payload_with(b"net", b"pw", 2, [0; 6]);
    assert_eq!(decode_credentials(&payload), Err(DecodeError::BadAddressFlag));
}

#[test]
fn decode_accepts_empty_name() {
    let payload = payload_with(b"", b"", 0, [0; 6]);
    let decoded = decode_credentials(&payload).unwrap();
    assert!(!decoded.has_ssid());
    assert_eq!(decoded.password().len(), 0);
}

#[test]
fn new_refuses_long_name() {
    assert_eq!(
        NetworkCredentials::new(&[b'a'; 33], b"pw", None),
        Err(CredentialError::SsidTooLong)
    );
}

#[test]
fn new_refuses_long_password() {
    assert_eq!(
        NetworkCredentials::new(b"net", &[b'a'; 65], None),
        Err(CredentialError::PasswordTooLong)
    );
}

#[test]
fn new_refuses_zero_bytes() {
    assert_eq!(
        NetworkCredentials::new(b"ne\0t", b"pw", None),
        Err(CredentialError::EmbeddedNul)
    );
    assert_eq!(
        NetworkCredentials::new(b"net", b"\0", None),
        Err(CredentialError::EmbeddedNul)
    );
}

#[test]
fn name_length_is_checked_before_the_rest() {
    assert_eq!(
        NetworkCredentials::new(&[0u8; 40], &[0u8; 70], None),
        Err(CredentialError::SsidTooLong)
    );
    assert_eq!(
        NetworkCredentials::new(b"\0", &[0u8; 70], None),
        Err(CredentialError::PasswordTooLong)
    );
}

#[test]
fn duplicate_of_credentials_is_equal() {
    let made = NetworkCredentials::new(b"home", b"secret", Some([1; 6])).unwrap();
    let copy = made.duplicate();
    assert_eq!(copy, made);
    assert!(copy.has_ssid());
}
