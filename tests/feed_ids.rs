use feed_bridge::error::ErrorKind;
use feed_bridge::feed_id::{feed_id_from, parse_feed_id};

#[test]
fn room_identifier_is_accepted() {
    let id = parse_feed_id("!n8f893n9:example.com").unwrap();
    assert_eq!(id.as_str(), "!n8f893n9:example.com");
}

#[test]
fn identifier_without_sigil_is_invalid() {
    assert_eq!(parse_feed_id("room1"), Err(ErrorKind::InvalidIdentifier));
    assert_eq!(parse_feed_id(""), Err(ErrorKind::InvalidIdentifier));
}

#[test]
fn overlong_identifier_is_invalid() {
    let long = format!("!{}:example.com", "a".repeat(300));
    assert_eq!(parse_feed_id(&long), Err(ErrorKind::InvalidIdentifier));
}

#[test]
fn parse_result_is_mapped() {
    assert_eq!(feed_id_from(ruma::RoomId::parse("nope")), Err(ErrorKind::InvalidIdentifier));
    let ok = feed_id_from(ruma::RoomId::parse("!abc:example.org")).unwrap();
    assert_eq!(ok.as_str(), "!abc:example.org");
}
