use ota_provision::http_status::status_ok;
use ota_provision::manifest::{
    check_update, decode_manifest, PollError, Update, UpdateJson, MANIFEST_CAPACITY,
};
use ota_provision::version::Version;

#[test]
fn manifest_is_read_from_a_successful_response() {
    let body = br#"{"version":"1.2.0","link":"http://x/fw.bin"}"#;
    let update = check_update(200, body).unwrap();
    assert_eq!(update.version, Version::release(1, 2, 0));
    assert_eq!(update.link, "http://x/fw.bin");
}

#[test]
fn manifest_may_hold_more_members_and_spaces() {
    let body = b" { \"note\": 7, \"link\": \"http://h/a\", \"version\": \"0.3.1-rc.2\" }\n";
    let update = check_update(204, body).unwrap();
    assert_eq!(update.version, Version::parse("0.3.1-rc.2").unwrap());
    assert_eq!(update.link, "http://h/a");
}

#[test]
fn status_404_is_a_failed_poll() {
    let body = br#"{"version":"1.2.0","link":"http://x/fw.bin"}"#;
    assert_eq!(check_update(404, body), Err(PollError::Status(404)));
}

#[test]
fn only_statuses_from_200_to_299_succeed() {
    assert!(!status_ok(199));
    assert!(status_ok(200));
    assert!(status_ok(299));
    assert!(!status_ok(300));
    assert!(!status_ok(0));
    assert_eq!(check_update(199, b"{}"), Err(PollError::Status(199)));
    assert_eq!(check_update(300, b"{}"), Err(PollError::Status(300)));
    assert_eq!(check_update(500, b""), Err(PollError::Status(500)));
}

#[test]
fn empty_body_is_a_failed_poll() {
    assert_eq!(check_update(200, b""), Err(PollError::EmptyBody));
}

#[test]
fn body_beyond_one_read_is_a_failed_poll() {
    let mut body = br#"{"version":"1.2.0","link":"http://x/fw.bin""#.to_vec();
    while body.len() < MANIFEST_CAPACITY {
        body.push(b' ');
    }
    body.push(b'}');
    assert_eq!(body.len(), 257);
    assert_eq!(check_update(200, &body), Err(PollError::Oversized));
}

#[test]
fn body_of_exactly_one_read_is_accepted() {
    let mut body = br#"{"version":"1.2.0","link":"http://x/fw.bin""#.to_vec();
    while body.len() < MANIFEST_CAPACITY - 1 {
        body.push(b' ');
    }
    body.push(b'}');
    assert_eq!(body.len(), 256);
    assert_eq!(check_update(200, &body).unwrap().link, "http://x/fw.bin");
}

#[test]
fn body_that_is_no_document_is_a_failed_poll() {
    assert_eq!(check_update(200, b"not json"), Err(PollError::Malformed));
    assert_eq!(
        check_update(200, br#"{"version":"1.2.0","link":"http://x/fw"#),
        Err(PollError::Malformed)
    );
    assert_eq!(
        check_update(200, br#"{"version":"1.2.0","link":"a"} trailing"#),
        Err(PollError::Malformed)
    );
}

#[test]
fn document_without_both_members_is_a_failed_poll() {
    assert_eq!(check_update(200, b"{}"), Err(PollError::MissingField));
    assert_eq!(check_update(200, br#"{"version":"1.2.0"}"#), Err(PollError::MissingField));
    assert_eq!(check_update(200, br#"{"link":"http://x"}"#), Err(PollError::MissingField));
    assert_eq!(
        check_update(200, br#"{"version":120,"link":"http://x"}"#),
        Err(PollError::MissingField)
    );
    assert_eq!(
        check_update(200, br#"{"version":"1.2.0","link":null}"#),
        Err(PollError::MissingField)
    );
    assert_eq!(check_update(200, br#"["1.2.0","http://x"]"#), Err(PollError::MissingField));
    assert_eq!(check_update(200, b"42"), Err(PollError::MissingField));
}

#[test]
fn version_that_is_no_version_is_a_failed_poll() {
    assert_eq!(
        check_update(200, br#"{"version":"1.2","link":"http://x"}"#),
        Err(PollError::BadVersion)
    );
    assert_eq!(
        check_update(200, br#"{"version":"","link":"http://x"}"#),
        Err(PollError::BadVersion)
    );
}

#[test]
fn decode_manifest_hands_out_both_texts() {
    let json = decode_manifest(br#"{"link":"lA","version":"v\n"}"#).unwrap();
    assert_eq!(json, UpdateJson { version: String::from("v\n"), link: String::from("lA") });
}

#[test]
fn update_is_made_from_decoded_document() {
    let json = UpdateJson { version: String::from("4.5.6"), link: String::from("http://y") };
    let update = Update::new(json);
    assert_eq!(update.version, Version::release(4, 5, 6));
    assert_eq!(update.link, "http://y");
    assert_eq!(update.duplicate(), update);
}

#[test]
fn update_from_json_tests_the_version_text() {
    let json = UpdateJson { version: String::from("4.5.6-rc.1"), link: String::from("http://y") };
    let update = Update::from_json(json).unwrap();
    assert_eq!(update.version, Version::parse("4.5.6-rc.1").unwrap());
    assert_eq!(update.link, "http://y");
}

#[test]
fn update_from_bad_version_text_fails() {
    let json = UpdateJson { version: String::from("four"), link: String::from("http://y") };
    assert_eq!(Update::from_json(json), Err(PollError::BadVersion));
}

#[test]
fn both_members_are_needed() {
    let version = || Some(String::from("1.0.0"));
    let link = || Some(String::from("http://z"));
    assert_eq!(
        UpdateJson::from_members(version(), link()),
        Ok(UpdateJson { version: String::from("1.0.0"), link: String::from("http://z") })
    );
    assert_eq!(UpdateJson::from_members(None, link()), Err(PollError::MissingField));
    assert_eq!(UpdateJson::from_members(version(), None), Err(PollError::MissingField));
    assert_eq!(UpdateJson::from_members(None, None), Err(PollError::MissingField));
}

#[test]
fn escapes_in_the_document_are_resolved() {
    let body = br#"{"version":"1.0.0","link":"http:\/\/x\/fw.bin"}"#;
    let update = check_update(200, body).unwrap();
    assert_eq!(update.link, "http://x/fw.bin");
}

#[test]
fn last_of_repeated_members_counts() {
    let body = br#"{"version":"1.0.0","link":"a","version":"2.0.0"}"#;
    let update = check_update(200, body).unwrap();
    assert_eq!(update.version, Version::release(2, 0, 0));
    assert_eq!(update.link, "a");
}
