//! Room version profiles: the feature flags that select which rules apply.
use vstd::prelude::*;
use vstd::string::*;
use crate::error::{Error, ErrorKind};

verus! {

/// The flags of one room version.
#[derive(Debug, Clone, Copy, PartialEq, Eq, Structural)]
pub struct RoomVersion {
    /// `m.room.aliases` events have their own rule.
    pub special_case_aliases_auth: bool,
    /// Redactions need power or a matching server name.
    pub extra_redaction_checks: bool,
    /// Changing the `@room` notification level needs power.
    pub limit_notifications_power_levels: bool,
    /// Signing keys must be within their validity period.
    pub enforce_key_validity: bool,
    /// Canonical JSON is enforced strictly.
    pub strict_canonicaljson: bool,
    /// The `knock` membership and join rule exist.
    pub allow_knocking: bool,
    /// The `restricted` join rule exists.
    pub restricted_join_rules: bool,
}

/// The number of a known room version id (`"1"` to `"9"`).
pub open spec fn version_number(id: Seq<char>) -> Option<u32> {
    if id.len() == 1 && '1' <= id[0] && id[0] <= '9' {
        Some((id[0] as u32 - '0' as u32) as u32)
    } else {
        None
    }
}

/// Whether `id` names a room version that the engine knows.
pub open spec fn is_known_version(id: Seq<char>) -> bool {
    version_number(id) is Some
}

/// The profile of room version `n`, for `1 <= n <= 9`.
pub open spec fn profile_of(n: u32) -> RoomVersion {
    RoomVersion {
        special_case_aliases_auth: n <= 5,
        extra_redaction_checks: n <= 2,
        limit_notifications_power_levels: n >= 6,
        enforce_key_validity: n >= 5,
        strict_canonicaljson: n >= 6,
        allow_knocking: n >= 7,
        restricted_join_rules: n >= 8,
    }
}

impl RoomVersion {
    /// The profile of the room version with id `id`.
    pub fn new(id: &str) -> (r: Result<RoomVersion, Error>)
        ensures
            r is Ok == is_known_version(id@),
            r matches Ok(v) ==> v == profile_of(version_number(id@)->Some_0),
            r matches Err(e) ==> e.spec_kind() == ErrorKind::UnsupportedRoomVersion,
    {
        let n = known_version_number(id);
        match n {
            Some(n) => Ok(RoomVersion {
                special_case_aliases_auth: n <= 5,
                extra_redaction_checks: n <= 2,
                limit_notifications_power_levels: n >= 6,
                enforce_key_validity: n >= 5,
                strict_canonicaljson: n >= 6,
                allow_knocking: n >= 7,
                restricted_join_rules: n >= 8,
            }),
            None => Err(Error::UnsupportedRoomVersion(id.to_owned())),
        }
    }
}

/// The number of the known room version `id`, if it is one.
pub fn known_version_number(id: &str) -> (r: Option<u32>)
    ensures
        r == version_number(id@),
{
    if id.unicode_len() != 1 {
        return None;
    }
    let c = id.get_char(0);
    if '1' <= c && c <= '9' {
        Some(c as u32 - '0' as u32)
    } else {
        None
    }
}

} // verus!
