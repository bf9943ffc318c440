//! Matrix identifiers: user, room and event ids with their server names.
use vstd::prelude::*;
use crate::error::{Error, ErrorKind};

verus! {

/// Whether the user id parser accepts `s`.
pub uninterp spec fn user_id_accepted(s: Seq<char>) -> bool;

/// Whether the room id parser accepts `s`.
pub uninterp spec fn room_id_accepted(s: Seq<char>) -> bool;

/// Whether the event id parser accepts `s`.
pub uninterp spec fn event_id_accepted(s: Seq<char>) -> bool;

/// `i` is the position of the first `:` in `s`.
pub open spec fn first_colon_at(s: Seq<char>, i: int) -> bool {
    &&& 0 <= i < s.len()
    &&& s[i] == ':'
    &&& forall|j: int| 0 <= j < i ==> s[j] != ':'
}

/// `n` is what follows the first `:` of `s`.
pub open spec fn server_suffix(s: Seq<char>, n: Seq<char>) -> bool {
    exists|i: int| first_colon_at(s, i) && n == s.subrange(i + 1, s.len() as int)
}

/// Whether `s` holds a `:` at all.
pub open spec fn has_colon(s: Seq<char>) -> bool {
    exists|i: int| 0 <= i < s.len() && s[i] == ':'
}

/// Relies on `ruma_identifiers::UserId::try_from`: it accepts `@localpart:server`,
/// and `server_name` of the parsed id is what follows the first colon.
#[verifier::external_body]
fn parse_user_id(s: &str) -> (r: Option<String>)
    ensures
        r is Some == user_id_accepted(s@),
        r matches Some(n) ==> s@.len() > 0 && s@[0] == '@' && server_suffix(s@, n@),
{
    ruma_identifiers::UserId::try_from(s).ok().map(|u| u.server_name().as_str().to_owned())
}

/// Relies on `ruma_identifiers::RoomId::try_from`: it accepts `!localpart:server`,
/// and `server_name` of the parsed id is what follows the first colon.
#[verifier::external_body]
fn parse_room_id(s: &str) -> (r: Option<String>)
    ensures
        r is Some == room_id_accepted(s@),
        r matches Some(n) ==> s@.len() > 0 && s@[0] == '!' && server_suffix(s@, n@),
{
    ruma_identifiers::RoomId::try_from(s).ok().map(|u| u.server_name().as_str().to_owned())
}

/// Relies on `ruma_identifiers::EventId::try_from`: it accepts `$opaque` and
/// `$localpart:server`; `server_name` of the parsed id is what follows the first
/// colon, and there is none where the id holds no colon.
#[verifier::external_body]
fn parse_event_id(s: &str) -> (r: Option<Option<String>>)
    ensures
        r is Some == event_id_accepted(s@),
        r matches Some(o) ==> s@.len() > 0 && s@[0] == '$' && (o is Some == has_colon(s@)),
        r matches Some(Some(n)) ==> server_suffix(s@, n@),
{
    ruma_identifiers::EventId::try_from(s).ok().map(|e| e.server_name().map(|n| n.as_str().to_owned()))
}

/// A user id such as `@alice:example.org`, with its server name.
#[derive(Debug)]
pub struct UserId {
    pub full: String,
    pub server: String,
}

/// A room id such as `!room:example.org`, with its server name.
#[derive(Debug)]
pub struct RoomId {
    pub full: String,
    pub server: String,
}

/// An event id; ids of the format of room versions 1 and 2 (`$local:server`)
/// carry a server name.
#[derive(Debug)]
pub struct EventId {
    pub full: String,
    pub server: Option<String>,
}

impl UserId {
    /// Parses a user id.
    pub fn parse(s: &str) -> (r: Result<UserId, Error>)
        ensures
            r is Ok == user_id_accepted(s@),
            r matches Ok(u) ==> u.full@ == s@ && server_suffix(s@, u.server@),
            r matches Err(e) ==> e.spec_kind() == ErrorKind::InvalidPdu,
    {
        match parse_user_id(s) {
            Some(server) => Ok(UserId { full: s.to_owned(), server }),
            None => Err(Error::InvalidPdu("invalid user id".to_owned())),
        }
    }

    pub fn as_str(&self) -> (r: &str)
        ensures
            r@ == self.full@,
    {
        self.full.as_str()
    }

    pub fn server_name(&self) -> (r: &str)
        ensures
            r@ == self.server@,
    {
        self.server.as_str()
    }
}

impl RoomId {
    /// Parses a room id.
    pub fn parse(s: &str) -> (r: Result<RoomId, Error>)
        ensures
            r is Ok == room_id_accepted(s@),
            r matches Ok(u) ==> u.full@ == s@ && server_suffix(s@, u.server@),
            r matches Err(e) ==> e.spec_kind() == ErrorKind::InvalidPdu,
    {
        match parse_room_id(s) {
            Some(server) => Ok(RoomId { full: s.to_owned(), server }),
            None => Err(Error::InvalidPdu("invalid room id".to_owned())),
        }
    }

    pub fn server_name(&self) -> (r: &str)
        ensures
            r@ == self.server@,
    {
        self.server.as_str()
    }
}

impl EventId {
    /// Parses an event id.
    pub fn parse(s: &str) -> (r: Result<EventId, Error>)
        ensures
            r is Ok == event_id_accepted(s@),
            r matches Ok(e) ==> e.full@ == s@ && (e.server is Some == has_colon(s@)),
            r matches Ok(e) ==> (e.server matches Some(n) ==> server_suffix(s@, n@)),
            r matches Err(e) ==> e.spec_kind() == ErrorKind::InvalidPdu,
    {
        match parse_event_id(s) {
            Some(server) => Ok(EventId { full: s.to_owned(), server }),
            None => Err(Error::InvalidPdu("invalid event id".to_owned())),
        }
    }

    pub fn as_str(&self) -> (r: &str)
        ensures
            r@ == self.full@,
    {
        self.full.as_str()
    }
}

} // verus!
