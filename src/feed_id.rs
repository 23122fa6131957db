use vstd::prelude::*;
use crate::error::ErrorKind;

verus! {

#[verifier::external_type_specification]
#[verifier::external_body]
pub struct ExOwnedRoomId(ruma::OwnedRoomId);

#[verifier::external_type_specification]
#[verifier::external_body]
pub struct ExIdParseError(ruma::IdParseError);

/// Whether ruma accepts `s` as a room identifier.
pub uninterp spec fn is_room_id(s: Seq<char>) -> bool;

/// Relies on ruma's `RoomId::parse`, which accepts or refuses `s` by its
/// text alone, and refuses any string that does not start with `!`.
#[verifier::external_body]
fn parse_room_id(s: &str) -> (r: Result<ruma::OwnedRoomId, ruma::IdParseError>)
    ensures
        r is Ok == is_room_id(s@),
        r is Ok ==> s@.len() > 0 && s@[0] == '!',
{
    ruma::RoomId::parse(s)
}

/// Reads the result of parsing a feed identifier: an accepted identifier is
/// kept, a refused one is reported as `InvalidIdentifier`.
pub fn feed_id_from(parsed: Result<ruma::OwnedRoomId, ruma::IdParseError>) -> (r: Result<ruma::OwnedRoomId, ErrorKind>)
    ensures
        parsed is Ok ==> r is Ok && r->Ok_0 == parsed->Ok_0,
        parsed is Err ==> r == Err::<ruma::OwnedRoomId, ErrorKind>(ErrorKind::InvalidIdentifier),
{
    match parsed {
        Ok(id) => Ok(id),
        Err(_) => Err(ErrorKind::InvalidIdentifier),
    }
}

/// Turns a feed identifier, as a command receives it, into the room
/// identifier that the feed is resolved by. It fails with
/// `InvalidIdentifier` exactly when ruma refuses the text.
pub fn parse_feed_id(s: &str) -> (r: Result<ruma::OwnedRoomId, ErrorKind>)
    ensures
        r is Ok == is_room_id(s@),
        r is Ok ==> s@.len() > 0 && s@[0] == '!',
        r is Err ==> r == Err::<ruma::OwnedRoomId, ErrorKind>(ErrorKind::InvalidIdentifier),
{
    feed_id_from(parse_room_id(s))
}

} // verus!
