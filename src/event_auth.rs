//! The authorization rules for room events.
use vstd::prelude::*;
use crate::error::{outcome, Error, ErrorKind};
use crate::events::{
    deref_pdu, type_eq, Content, EventType, Field, JoinRule, MembershipState, Pdu, PowerLevels,
    ThirdPartyInvite, ThirdPartyInviteKeys,
};
use crate::ids::{user_id_accepted, UserId};
use crate::power_levels::{
    check_power_levels, find_user_level, get_send_level, levels_of, spec_check_power_levels,
    spec_send_level, user_level,
};
use crate::room_version::{is_known_version, known_version_number, RoomVersion};
use crate::state_map::StateMap;

verus! {

// ---------------------------------------------------------------------------
// The state keys needed to authorize an event.

/// A list of state keys seen as type and characters.
pub open spec fn keys_view(v: Seq<(EventType, String)>) -> Seq<(EventType, Seq<char>)> {
    v.map_values(|p: (EventType, String)| (p.0, p.1@))
}

/// `s` with `k` appended, unless `s` holds it already.
pub open spec fn push_unique(s: Seq<(EventType, Seq<char>)>, k: (EventType, Seq<char>)) -> Seq<
    (EventType, Seq<char>),
> {
    if s.contains(k) {
        s
    } else {
        s.push(k)
    }
}

/// The keys needed by every event but a create event.
pub open spec fn base_auth_types(sender: Seq<char>) -> Seq<(EventType, Seq<char>)> {
    seq![
        (EventType::RoomPowerLevels, Seq::<char>::empty()),
        (EventType::RoomMember, sender),
        (EventType::RoomCreate, Seq::<char>::empty()),
    ]
}

/// The state keys needed to authorize an event of type `kind`.
pub open spec fn spec_auth_types(
    kind: EventType,
    sender: Seq<char>,
    state_key: Option<Seq<char>>,
    content: Content,
) -> Seq<(EventType, Seq<char>)> {
    if kind is RoomCreate {
        Seq::empty()
    } else if kind is RoomMember && state_key is Some && content.membership is Valid {
        let m = content.membership->Valid_0;
        let s1 = if m == MembershipState::Join || m == MembershipState::Invite {
            push_unique(base_auth_types(sender), (EventType::RoomJoinRules, Seq::<char>::empty()))
        } else {
            base_auth_types(sender)
        };
        let s2 = push_unique(s1, (EventType::RoomMember, state_key->Some_0));
        if m == MembershipState::Invite && content.third_party_invite is Valid {
            push_unique(
                s2,
                (
                    EventType::RoomThirdPartyInvite,
                    content.third_party_invite->Valid_0.signed.token@,
                ),
            )
        } else {
            s2
        }
    } else {
        base_auth_types(sender)
    }
}

proof fn lemma_type_eq_unit(a: EventType, b: EventType)
    requires
        !(b is Custom),
        type_eq(a, b),
    ensures
        a == b,
{
}

fn push_key(v: &mut Vec<(EventType, String)>, t: EventType, k: String)
    requires
        !(t is Custom),
    ensures
        keys_view(final(v)@) == push_unique(keys_view(old(v)@), (t, k@)),
{
    let ghost key = (t, k@);
    let mut i: usize = 0;
    while i < v.len()
        invariant
            !(t is Custom),
            key == (t, k@),
            i <= v@.len(),
            forall|j: int| 0 <= j < i ==> !(type_eq((#[trigger] v@[j]).0, t) && v@[j].1@ == k@),
        decreases v@.len() - i,
    {
        let same_type = v[i].0.same_as(&t);
        let same_key = v[i].1 == k;
        if same_type && same_key {
            proof {
                lemma_type_eq_unit(v@[i as int].0, t);
                assert(keys_view(v@)[i as int] == key);
            }
            return;
        }
        i = i + 1;
    }
    assert forall|j: int| 0 <= j < v@.len() implies keys_view(v@)[j] != key by {
        assert(!(type_eq(v@[j].0, t) && v@[j].1@ == k@));
    }
    assert(!keys_view(v@).contains(key));
    let ghost before = v@;
    v.push((t, k));
    assert(keys_view(v@) =~= keys_view(before).push(key));
}

/// The `(type, state_key)` pairs of the state that authorizes an event of type
/// `kind` sent by `sender`, in order and without repeats.
pub fn auth_types_for_event(
    kind: &EventType,
    sender: &UserId,
    state_key: Option<String>,
    content: &Content,
) -> (r: Vec<(EventType, String)>)
    ensures
        keys_view(r@) == spec_auth_types(
            *kind,
            sender.full@,
            match state_key {
                Some(k) => Some(k@),
                None => None,
            },
            *content,
        ),
{
    if let EventType::RoomCreate = kind {
        let r = Vec::new();
        assert(keys_view(r@) =~= Seq::empty());
        return r;
    }
    let mut auth_types: Vec<(EventType, String)> = Vec::new();
    auth_types.push((EventType::RoomPowerLevels, String::new()));
    auth_types.push((EventType::RoomMember, sender.full.clone()));
    auth_types.push((EventType::RoomCreate, String::new()));
    assert(keys_view(auth_types@) =~= base_auth_types(sender.full@));
    if let EventType::RoomMember = kind {
        if let Some(state_key) = state_key {
            if let Field::Valid(membership) = &content.membership {
                let membership = *membership;
                if membership == MembershipState::Join || membership == MembershipState::Invite {
                    push_key(&mut auth_types, EventType::RoomJoinRules, String::new());
                }
                push_key(&mut auth_types, EventType::RoomMember, state_key);
                if membership == MembershipState::Invite {
                    if let Field::Valid(t_id) = &content.third_party_invite {
                        push_key(
                            &mut auth_types,
                            EventType::RoomThirdPartyInvite,
                            t_id.signed.token.clone(),
                        );
                    }
                }
            }
        }
    }
    auth_types
}

// ---------------------------------------------------------------------------
// Third-party invites.

/// One of the keys of the invite event is the token.
pub open spec fn key_matches(k: ThirdPartyInviteKeys, token: Seq<char>) -> bool {
    ||| exists|i: int| 0 <= i < k.public_keys@.len() && (#[trigger] k.public_keys@[i])@ == token
    ||| k.public_key@ == token
}

/// The verdict on a third-party invite `tp` by `sender` for `target`, against
/// the room's current `m.room.third_party_invite` event `cur`.
pub open spec fn spec_verify_third_party_invite(
    target: Option<Seq<char>>,
    sender: Seq<char>,
    tp: ThirdPartyInvite,
    cur: Option<Pdu>,
) -> bool {
    &&& target == Some(tp.signed.mxid@)
    &&& cur is Some
    &&& cur->Some_0.state_key is Some
    &&& cur->Some_0.state_key->Some_0@ == tp.signed.token@
    &&& cur->Some_0.sender.full@ == sender
    &&& cur->Some_0.content.invite_keys is Some
    &&& key_matches(cur->Some_0.content.invite_keys->Some_0, tp.signed.token@)
}

fn any_key_matches(keys: &ThirdPartyInviteKeys, token: &String) -> (r: bool)
    ensures
        r == key_matches(*keys, token@),
{
    let mut i: usize = 0;
    while i < keys.public_keys.len()
        invariant
            i <= keys.public_keys@.len(),
            forall|j: int| 0 <= j < i ==> (#[trigger] keys.public_keys@[j])@ != token@,
        decreases keys.public_keys@.len() - i,
    {
        if keys.public_keys[i] == *token {
            assert(keys.public_keys@[i as int]@ == token@);
            return true;
        }
        i = i + 1;
    }
    keys.public_key == *token
}

/// Whether the third-party invite `tp_id`, sent by `sender` for `target_user`,
/// is backed by the room's current third-party-invite event.
pub fn verify_third_party_invite(
    target_user: Option<&UserId>,
    sender: &UserId,
    tp_id: &ThirdPartyInvite,
    current_third_party_invite: Option<&Pdu>,
) -> (r: bool)
    ensures
        r == spec_verify_third_party_invite(
            match target_user {
                Some(u) => Some(u.full@),
                None => None,
            },
            sender.full@,
            *tp_id,
            deref_pdu(current_third_party_invite),
        ),
{
    let target = match target_user {
        Some(u) => u,
        None => {
            return false;
        },
    };
    if target.full != tp_id.signed.mxid {
        return false;
    }
    let current = match current_third_party_invite {
        Some(c) => c,
        None => {
            return false;
        },
    };
    match &current.state_key {
        Some(k) => {
            if *k != tp_id.signed.token {
                return false;
            }
        },
        None => {
            return false;
        },
    }
    if current.sender.full != sender.full {
        return false;
    }
    if current.content.invite_keys.is_none() {
        return false;
    }
    let keys = current.content.invite_keys.as_ref().unwrap();
    any_key_matches(keys, &tp_id.signed.token)
}

// ---------------------------------------------------------------------------
// Membership changes.

/// The membership that a member event records: `Leave` where there is no
/// event, `Err` where the event's `membership` is missing or malformed.
pub open spec fn recorded_membership(p: Option<Pdu>) -> Result<MembershipState, ()> {
    match p {
        None => Ok(MembershipState::Leave),
        Some(e) => match e.content.membership {
            Field::Valid(m) => Ok(m),
            _ => Err(()),
        },
    }
}

/// `p` is at least `x`; an undefined level is below every level.
pub open spec fn at_least(p: Option<i64>, x: i64) -> bool {
    p is Some && p->Some_0 >= x
}

/// `a < b` where an undefined level is below every defined one.
pub open spec fn level_lt(a: Option<i64>, b: Option<i64>) -> bool {
    match (a, b) {
        (None, Some(_)) => true,
        (Some(x), Some(y)) => x < y,
        _ => false,
    }
}

/// The `invite` level, 50 without power levels.
pub open spec fn invite_level(l: Option<PowerLevels>) -> i64 {
    match l {
        Some(l) => l.invite,
        None => 50,
    }
}

/// The `kick` level, 50 without power levels.
pub open spec fn kick_level(l: Option<PowerLevels>) -> i64 {
    match l {
        Some(l) => l.kick,
        None => 50,
    }
}

/// The `ban` level, 50 without power levels.
pub open spec fn ban_level(l: Option<PowerLevels>) -> i64 {
    match l {
        Some(l) => l.ban,
        None => 50,
    }
}

/// The level of `u`: the one listed, else `users_default` where `fallback`
/// holds, else undefined.
pub open spec fn member_power(l: Option<PowerLevels>, u: Seq<char>, fallback: bool) -> Option<i64> {
    match l {
        Some(l) => match user_level(l.users@, u) {
            Some(x) => Some(x),
            None => if fallback {
                Some(l.users_default)
            } else {
                None
            },
        },
        None => if fallback {
            Some(0)
        } else {
            None
        },
    }
}

/// The table of membership transitions.
pub open spec fn transition_allowed(
    target: MembershipState,
    current: MembershipState,
    sender_joined: bool,
    self_target: bool,
    join_rule: JoinRule,
    third_party: Option<bool>,
    sender_power: Option<i64>,
    target_power: Option<i64>,
    l: Option<PowerLevels>,
) -> bool {
    match target {
        MembershipState::Join => self_target && current != MembershipState::Ban && (
        join_rule == JoinRule::Public || (join_rule == JoinRule::Invite && (current
            == MembershipState::Join || current == MembershipState::Invite))),
        MembershipState::Invite => match third_party {
            Some(v) => current != MembershipState::Ban && v,
            None => sender_joined && current != MembershipState::Join && current
                != MembershipState::Ban && at_least(sender_power, invite_level(l)),
        },
        MembershipState::Leave => if self_target {
            current == MembershipState::Join || current == MembershipState::Invite
        } else {
            sender_joined && (current != MembershipState::Ban || at_least(
                sender_power,
                ban_level(l),
            )) && at_least(sender_power, kick_level(l)) && level_lt(target_power, sender_power)
        },
        MembershipState::Ban => sender_joined && at_least(sender_power, ban_level(l)) && level_lt(
            target_power,
            sender_power,
        ),
        MembershipState::Knock => false,
    }
}

/// The event just before is the room's first event: the creator's own join.
pub open spec fn is_bootstrap(prev: Option<Pdu>) -> bool {
    prev is Some && prev->Some_0.event_type is RoomCreate && prev->Some_0.prev_events@.len() == 0
}

/// Whether some input of a membership change is malformed.
pub open spec fn membership_inputs_malformed(
    content: Content,
    target_member: Option<Pdu>,
    sender_member: Option<Pdu>,
    pl: Option<Pdu>,
    jr: Option<Pdu>,
) -> bool {
    ||| !(content.membership is Valid)
    ||| recorded_membership(sender_member) is Err
    ||| recorded_membership(target_member) is Err
    ||| (pl is Some && pl->Some_0.content.power_levels is None)
    ||| (jr is Some && !(jr->Some_0.content.join_rule is Valid))
}

/// The verdict on a change of `target`'s membership to `content` by `sender`.
pub open spec fn spec_valid_membership_change(
    target: Seq<char>,
    target_member: Option<Pdu>,
    sender: Seq<char>,
    sender_member: Option<Pdu>,
    content: Content,
    prev: Option<Pdu>,
    tpi: Option<Pdu>,
    pl: Option<Pdu>,
    jr: Option<Pdu>,
) -> Result<bool, ErrorKind> {
    if membership_inputs_malformed(content, target_member, sender_member, pl, jr) {
        Err(ErrorKind::Deserialization)
    } else if is_bootstrap(prev) {
        Ok(true)
    } else {
        let target_m = content.membership->Valid_0;
        let sender_joined = recorded_membership(sender_member) == Ok::<
            MembershipState,
            (),
        >(MembershipState::Join);
        let l = levels_of(pl);
        let join_rule = match jr {
            Some(e) => e.content.join_rule->Valid_0,
            None => JoinRule::Invite,
        };
        let third_party = match content.third_party_invite {
            Field::Valid(tp) => Some(spec_verify_third_party_invite(Some(target), sender, tp, tpi)),
            _ => None,
        };
        Ok(
            transition_allowed(
                target_m,
                recorded_membership(target_member)->Ok_0,
                sender_joined,
                sender == target,
                join_rule,
                third_party,
                member_power(l, sender, sender_joined),
                member_power(l, target, target_m == MembershipState::Join),
                l,
            ),
        )
    }
}

fn read_membership(p: Option<&Pdu>) -> (r: Result<MembershipState, Error>)
    ensures
        match recorded_membership(deref_pdu(p)) {
            Ok(m) => r == Ok::<MembershipState, Error>(m),
            Err(_) => r is Err && r->Err_0.spec_kind() == ErrorKind::Deserialization,
        },
{
    match p {
        None => Ok(MembershipState::Leave),
        Some(e) => match &e.content.membership {
            Field::Valid(m) => Ok(*m),
            _ => Err(Error::Deserialization("member event without a valid membership".to_owned())),
        },
    }
}

fn member_level(l: Option<&PowerLevels>, u: &str, fallback: bool) -> (r: Option<i64>)
    ensures
        r == member_power(
            match l {
                Some(x) => Some(*x),
                None => None,
            },
            u@,
            fallback,
        ),
{
    match l {
        Some(l) => match find_user_level(&l.users, u) {
            Some(x) => Some(x),
            None => if fallback {
                Some(l.users_default)
            } else {
                None
            },
        },
        None => if fallback {
            Some(0)
        } else {
            None
        },
    }
}

fn exec_at_least(p: Option<i64>, x: i64) -> (r: bool)
    ensures
        r == at_least(p, x),
{
    match p {
        Some(v) => v >= x,
        None => false,
    }
}

fn exec_level_lt(a: Option<i64>, b: Option<i64>) -> (r: bool)
    ensures
        r == level_lt(a, b),
{
    match (a, b) {
        (None, Some(_)) => true,
        (Some(x), Some(y)) => x < y,
        _ => false,
    }
}

/// Whether `sender` may change the membership of `target_user` to what
/// `content` says, given the member events of both, the event before this
/// one, the room's third-party invite, power levels and join rules.
pub fn valid_membership_change(
    target_user: &UserId,
    target_user_membership_event: Option<&Pdu>,
    sender: &UserId,
    sender_membership_event: Option<&Pdu>,
    content: &Content,
    prev_event: Option<&Pdu>,
    current_third_party_invite: Option<&Pdu>,
    power_levels_event: Option<&Pdu>,
    join_rules_event: Option<&Pdu>,
) -> (r: Result<bool, Error>)
    ensures
        outcome(r) == spec_valid_membership_change(
            target_user.full@,
            deref_pdu(target_user_membership_event),
            sender.full@,
            deref_pdu(sender_membership_event),
            *content,
            deref_pdu(prev_event),
            deref_pdu(current_third_party_invite),
            deref_pdu(power_levels_event),
            deref_pdu(join_rules_event),
        ),
{
    let target_membership = match &content.membership {
        Field::Valid(m) => *m,
        _ => {
            return Err(Error::Deserialization("membership is missing or malformed".to_owned()));
        },
    };
    let sender_membership = match read_membership(sender_membership_event) {
        Ok(m) => m,
        Err(e) => {
            return Err(e);
        },
    };
    let sender_is_joined = sender_membership == MembershipState::Join;
    let current = match read_membership(target_user_membership_event) {
        Ok(m) => m,
        Err(e) => {
            return Err(e);
        },
    };
    let levels: Option<&PowerLevels> = match power_levels_event {
        Some(ev) => match &ev.content.power_levels {
            Some(l) => Some(l),
            None => {
                return Err(Error::Deserialization("malformed power levels".to_owned()));
            },
        },
        None => None,
    };
    let join_rule = match join_rules_event {
        Some(jr) => match &jr.content.join_rule {
            Field::Valid(j) => *j,
            _ => {
                return Err(Error::Deserialization("malformed join rules".to_owned()));
            },
        },
        None => JoinRule::Invite,
    };
    if let Some(prev) = prev_event {
        if let EventType::RoomCreate = prev.event_type {
            if prev.prev_events.len() == 0 {
                return Ok(true);
            }
        }
    }
    let sender_power = member_level(levels, sender.full.as_str(), sender_is_joined);
    let target_power = member_level(
        levels,
        target_user.full.as_str(),
        target_membership == MembershipState::Join,
    );
    let (invite, kick, ban) = match levels {
        Some(l) => (l.invite, l.kick, l.ban),
        None => (50i64, 50i64, 50i64),
    };
    let self_target = sender.full == target_user.full;
    let allow = match target_membership {
        MembershipState::Join => {
            if !self_target {
                false
            } else if current == MembershipState::Ban {
                false
            } else {
                join_rule == JoinRule::Invite && (current == MembershipState::Join || current
                    == MembershipState::Invite) || join_rule == JoinRule::Public
            }
        },
        MembershipState::Invite => {
            if let Field::Valid(tp_id) = &content.third_party_invite {
                if current == MembershipState::Ban {
                    false
                } else {
                    verify_third_party_invite(
                        Some(target_user),
                        sender,
                        tp_id,
                        current_third_party_invite,
                    )
                }
            } else if !sender_is_joined || current == MembershipState::Join || current
                == MembershipState::Ban {
                false
            } else {
                exec_at_least(sender_power, invite)
            }
        },
        MembershipState::Leave => {
            if self_target {
                current == MembershipState::Join || current == MembershipState::Invite
            } else if !sender_is_joined || (current == MembershipState::Ban && !exec_at_least(
                sender_power,
                ban,
            )) {
                false
            } else {
                exec_at_least(sender_power, kick) && exec_level_lt(target_power, sender_power)
            }
        },
        MembershipState::Ban => {
            if !sender_is_joined {
                false
            } else {
                exec_at_least(sender_power, ban) && exec_level_lt(target_power, sender_power)
            }
        },
        MembershipState::Knock => false,
    };
    Ok(allow)
}

// ---------------------------------------------------------------------------
// Sending, redaction, membership and federation checks.

/// The event's state key names a user other than its sender.
pub open spec fn state_key_names_other_user(ev: Pdu) -> bool {
    &&& ev.state_key is Some
    &&& ev.state_key->Some_0@.len() > 0
    &&& ev.state_key->Some_0@[0] == '@'
    &&& ev.state_key->Some_0@ != ev.sender.full@
}

/// Whether a sender at level `lvl` may send `ev` under power levels `pl`.
pub open spec fn spec_can_send(ev: Pdu, pl: Option<Pdu>, lvl: i64) -> bool {
    lvl >= spec_send_level(ev.event_type, ev.state_key is Some, pl) && !state_key_names_other_user(
        ev,
    )
}

fn clone_state_key(k: &Option<String>) -> (r: Option<String>)
    ensures
        r is Some == k is Some,
        r is Some ==> r->Some_0@ == k->Some_0@,
{
    match k {
        Some(s) => Some(s.clone()),
        None => None,
    }
}

/// Whether a sender at level `user_level` may send `event`: the level its
/// type needs is reached, and a state key naming a user names the sender.
pub fn can_send_event(event: &Pdu, ple: Option<&Pdu>, user_level: i64) -> (r: bool)
    ensures
        r == spec_can_send(*event, deref_pdu(ple), user_level),
{
    let needed = get_send_level(&event.event_type, clone_state_key(&event.state_key), ple);
    if user_level < needed {
        return false;
    }
    match &event.state_key {
        Some(k) => {
            if crate::text::starts_with_char(k.as_str(), '@') && *k != event.sender.full {
                return false;
            }
        },
        None => {},
    }
    true
}

/// Two optional server names are the same.
pub open spec fn same_server(a: Option<String>, b: Option<String>) -> bool {
    match (a, b) {
        (None, None) => true,
        (Some(x), Some(y)) => x@ == y@,
        _ => false,
    }
}

/// Whether the redaction `ev` by a sender at `user_level` is allowed where
/// `redact_level` is needed.
pub open spec fn spec_redaction_allowed(ev: Pdu, user_level: i64, redact_level: i64) -> bool {
    ||| user_level >= redact_level
    ||| (ev.redacts is Some && same_server(ev.event_id.server, ev.redacts->Some_0.server))
}

/// Whether the sender of `redaction_event` may redact: by power, or because the
/// redacted event comes from the same server as the redaction.
pub fn check_redaction(
    room_version: &RoomVersion,
    redaction_event: &Pdu,
    user_level: i64,
    redact_level: i64,
) -> (r: Result<bool, Error>)
    ensures
        r == Ok::<bool, Error>(spec_redaction_allowed(*redaction_event, user_level, redact_level)),
{
    if user_level >= redact_level {
        return Ok(true);
    }
    match &redaction_event.redacts {
        Some(redacted) => {
            let same = match (&redaction_event.event_id.server, &redacted.server) {
                (None, None) => true,
                (Some(x), Some(y)) => *x == *y,
                _ => false,
            };
            Ok(same)
        },
        None => Ok(false),
    }
}

/// Whether `member_event` is there and records membership `state`.
pub fn check_membership(member_event: Option<&Pdu>, state: MembershipState) -> (r: bool)
    ensures
        r == (member_event is Some && member_event->Some_0.content.membership == Field::<
            MembershipState,
        >::Valid(state)),
{
    match member_event {
        Some(e) => match &e.content.membership {
            Field::Valid(m) => *m == state,
            _ => false,
        },
        None => false,
    }
}

/// Whether the room of `auth_events` may federate: its create event says
/// `m.federate: true`.
pub fn can_federate(auth_events: &StateMap) -> (r: bool)
    ensures
        r == (auth_events.spec_get(EventType::RoomCreate, Seq::empty()) matches Some(c)
            && c.content.federate == Field::<bool>::Valid(true)),
{
    let empty = String::new();
    match auth_events.get(&EventType::RoomCreate, empty.as_str()) {
        Some(ev) => match &ev.content.federate {
            Field::Valid(b) => *b,
            _ => false,
        },
        None => false,
    }
}

// ---------------------------------------------------------------------------
// The whole check.

/// `room_version` of a create event's content is absent or a known version.
pub open spec fn room_version_ok(f: Field<String>) -> bool {
    match f {
        Field::Absent => true,
        Field::Invalid => false,
        Field::Valid(v) => is_known_version(v@),
    }
}

/// The rules on an `m.room.create` event.
pub open spec fn spec_create_allowed(ev: Pdu) -> bool {
    &&& ev.prev_events@.len() == 0
    &&& ev.room_id.server@ == ev.sender.server@
    &&& room_version_ok(ev.content.room_version)
    &&& ev.content.creator is Valid
}

/// The power level of `sender`: from the power levels where there are any
/// (0 where they do not parse), else 100 for the room's creator and 0 for
/// everyone else.
pub open spec fn spec_sender_power(pl: Option<Pdu>, create: Pdu, sender: Seq<char>) -> i64 {
    match pl {
        Some(p) => match p.content.power_levels {
            Some(l) => match user_level(l.users@, sender) {
                Some(x) => x,
                None => l.users_default,
            },
            None => 0,
        },
        None => if create.content.creator is Valid && create.content.creator->Valid_0@ == sender {
            100
        } else {
            0
        },
    }
}

/// The level needed to redact: 50 without power levels; where they exist, their
/// `redact` field, 0 where it is absent and 50 where it is malformed.
pub open spec fn spec_redact_level(pl: Option<Pdu>) -> i64 {
    match pl {
        None => 50,
        Some(p) => match p.content.redact {
            Field::Absent => 0,
            Field::Invalid => 50,
            Field::Valid(x) => x,
        },
    }
}

/// The rules that follow once the sender of `ev` is known to have joined.
pub open spec fn spec_joined_sender_verdict(
    rv: RoomVersion,
    ev: Pdu,
    create: Pdu,
    pl: Option<Pdu>,
) -> Result<bool, ErrorKind> {
    let power = spec_sender_power(pl, create, ev.sender.full@);
    if ev.event_type is RoomThirdPartyInvite && pl is Some && levels_of(pl) is None {
        Err(ErrorKind::Deserialization)
    } else if ev.event_type is RoomThirdPartyInvite && power < invite_level(levels_of(pl)) {
        Ok(false)
    } else if !spec_can_send(ev, pl, power) {
        Ok(false)
    } else if ev.event_type is RoomPowerLevels && spec_check_power_levels(rv, ev, pl, power)
        != Some(true) {
        Ok(false)
    } else if rv.extra_redaction_checks && ev.event_type is RoomRedaction {
        Ok(spec_redaction_allowed(ev, power, spec_redact_level(pl)))
    } else {
        Ok(true)
    }
}

/// The rules on an `m.room.member` event.
pub open spec fn spec_member_verdict(
    ev: Pdu,
    prev: Option<Pdu>,
    tpi: Option<Pdu>,
    state: StateMap,
) -> Result<bool, ErrorKind> {
    match ev.state_key {
        None => Ok(false),
        Some(k) => if !(ev.content.membership is Valid) {
            Ok(false)
        } else if !user_id_accepted(k@) {
            Err(ErrorKind::InvalidPdu)
        } else {
            spec_valid_membership_change(
                k@,
                state.spec_get(EventType::RoomMember, k@),
                ev.sender.full@,
                state.spec_get(EventType::RoomMember, ev.sender.full@),
                ev.content,
                prev,
                tpi,
                state.spec_get(EventType::RoomPowerLevels, Seq::empty()),
                state.spec_get(EventType::RoomJoinRules, Seq::empty()),
            )
        },
    }
}

/// The verdict on `ev` against the room state `state`.
pub open spec fn spec_auth_check(
    rv: RoomVersion,
    ev: Pdu,
    prev: Option<Pdu>,
    tpi: Option<Pdu>,
    state: StateMap,
) -> Result<bool, ErrorKind> {
    if ev.event_type is RoomCreate {
        Ok(spec_create_allowed(ev))
    } else {
        match state.spec_get(EventType::RoomCreate, Seq::empty()) {
            None => Ok(false),
            Some(create) => if ev.event_type is RoomAliases && rv.special_case_aliases_auth {
                Ok(ev.state_key is Some && ev.state_key->Some_0@ == ev.sender.server@)
            } else if ev.event_type is RoomMember {
                spec_member_verdict(ev, prev, tpi, state)
            } else {
                match state.spec_get(EventType::RoomMember, ev.sender.full@) {
                    None => Ok(false),
                    Some(m) => match m.content.membership {
                        Field::Valid(ms) => if ms != MembershipState::Join {
                            Ok(false)
                        } else {
                            spec_joined_sender_verdict(
                                rv,
                                ev,
                                create,
                                state.spec_get(EventType::RoomPowerLevels, Seq::empty()),
                            )
                        },
                        _ => Err(ErrorKind::Deserialization),
                    },
                }
            },
        }
    }
}

fn sender_power_level(pl: Option<&Pdu>, create: &Pdu, sender: &UserId) -> (r: i64)
    ensures
        r == spec_sender_power(deref_pdu(pl), *create, sender.full@),
{
    match pl {
        Some(p) => match &p.content.power_levels {
            Some(l) => match find_user_level(&l.users, sender.full.as_str()) {
                Some(x) => x,
                None => l.users_default,
            },
            None => 0,
        },
        None => match &create.content.creator {
            Field::Valid(c) => if *c == sender.full {
                100
            } else {
                0
            },
            _ => 0,
        },
    }
}

fn redact_level(pl: Option<&Pdu>) -> (r: i64)
    ensures
        r == spec_redact_level(deref_pdu(pl)),
{
    match pl {
        None => 50,
        Some(p) => match &p.content.redact {
            Field::Absent => 0,
            Field::Invalid => 50,
            Field::Valid(x) => *x,
        },
    }
}

fn create_allowed(ev: &Pdu) -> (r: bool)
    ensures
        r == spec_create_allowed(*ev),
{
    if ev.prev_events.len() != 0 {
        return false;
    }
    if ev.room_id.server != ev.sender.server {
        return false;
    }
    let version_ok = match &ev.content.room_version {
        Field::Absent => true,
        Field::Invalid => false,
        Field::Valid(v) => known_version_number(v.as_str()).is_some(),
    };
    if !version_ok {
        return false;
    }
    match &ev.content.creator {
        Field::Valid(_) => true,
        _ => false,
    }
}

fn joined_sender_verdict(
    room_version: &RoomVersion,
    incoming_event: &Pdu,
    create: &Pdu,
    power_levels_event: Option<&Pdu>,
) -> (r: Result<bool, Error>)
    ensures
        outcome(r) == spec_joined_sender_verdict(
            *room_version,
            *incoming_event,
            *create,
            deref_pdu(power_levels_event),
        ),
{
    let sender_power = sender_power_level(power_levels_event, create, &incoming_event.sender);
    if let EventType::RoomThirdPartyInvite = incoming_event.event_type {
        let invite_level = match power_levels_event {
            Some(p) => match &p.content.power_levels {
                Some(l) => l.invite,
                None => {
                    return Err(Error::Deserialization("malformed power levels".to_owned()));
                },
            },
            None => 50,
        };
        if sender_power < invite_level {
            return Ok(false);
        }
    }
    if !can_send_event(incoming_event, power_levels_event, sender_power) {
        return Ok(false);
    }
    if let EventType::RoomPowerLevels = incoming_event.event_type {
        match check_power_levels(room_version, incoming_event, power_levels_event, sender_power) {
            Some(true) => {},
            _ => {
                return Ok(false);
            },
        }
    }
    if room_version.extra_redaction_checks {
        if let EventType::RoomRedaction = incoming_event.event_type {
            let level = redact_level(power_levels_event);
            return check_redaction(room_version, incoming_event, sender_power, level);
        }
    }
    Ok(true)
}

/// Authorizes `incoming_event` against the room state `state`.
///
/// `prev_event` is the event just before it, and `current_third_party_invite`
/// the room's `m.room.third_party_invite` event that an invite may redeem.
/// Rule violations give `Ok(false)`; an `Err` means malformed input:
/// `InvalidPdu` where the state key of a member event is not a user id, and
/// `Deserialization` where a member event of the state records no valid
/// membership, or where power levels or join rules that a rule needs do not
/// parse.
pub fn auth_check(
    room_version: &RoomVersion,
    incoming_event: &Pdu,
    prev_event: Option<&Pdu>,
    current_third_party_invite: Option<&Pdu>,
    state: &StateMap,
) -> (r: Result<bool, Error>)
    ensures
        outcome(r) == spec_auth_check(
            *room_version,
            *incoming_event,
            deref_pdu(prev_event),
            deref_pdu(current_third_party_invite),
            *state,
        ),
{
    if let EventType::RoomCreate = incoming_event.event_type {
        return Ok(create_allowed(incoming_event));
    }
    let empty = String::new();
    let room_create_event = match state.get(&EventType::RoomCreate, empty.as_str()) {
        Some(c) => c,
        None => {
            return Ok(false);
        },
    };
    let sender = &incoming_event.sender;
    if let EventType::RoomAliases = incoming_event.event_type {
        if room_version.special_case_aliases_auth {
            return match &incoming_event.state_key {
                Some(k) => Ok(*k == sender.server),
                None => Ok(false),
            };
        }
    }
    let power_levels_event = state.get(&EventType::RoomPowerLevels, empty.as_str());
    let sender_member_event = state.get(&EventType::RoomMember, sender.full.as_str());
    if let EventType::RoomMember = incoming_event.event_type {
        let state_key = match &incoming_event.state_key {
            Some(k) => k,
            None => {
                return Ok(false);
            },
        };
        match &incoming_event.content.membership {
            Field::Valid(_) => {},
            _ => {
                return Ok(false);
            },
        }
        let target_user = match UserId::parse(state_key.as_str()) {
            Ok(u) => u,
            Err(e) => {
                return Err(e);
            },
        };
        return valid_membership_change(
            &target_user,
            state.get(&EventType::RoomMember, target_user.full.as_str()),
            sender,
            sender_member_event,
            &incoming_event.content,
            prev_event,
            current_third_party_invite,
            power_levels_event,
            state.get(&EventType::RoomJoinRules, empty.as_str()),
        );
    }
    let mem = match sender_member_event {
        Some(m) => m,
        None => {
            return Ok(false);
        },
    };
    match &mem.content.membership {
        Field::Valid(m) => {
            if *m != MembershipState::Join {
                return Ok(false);
            }
        },
        _ => {
            return Err(Error::Deserialization("sender membership is malformed".to_owned()));
        },
    }
    joined_sender_verdict(room_version, incoming_event, room_create_event, power_levels_event)
}

} // verus!
