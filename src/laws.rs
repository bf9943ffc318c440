//! Laws of the authorization rules, proved over their specifications.
use vstd::prelude::*;
use crate::error::{outcome, Error};
use crate::event_auth::{
    at_least, ban_level, base_auth_types, invite_level, is_bootstrap, kick_level, level_lt,
    member_power, membership_inputs_malformed, push_unique, recorded_membership, same_server,
    spec_auth_check, spec_auth_types, spec_can_send, spec_redact_level, spec_sender_power,
    spec_valid_membership_change,
};
use crate::events::{type_eq, Content, EventType, Field, JoinRule, MembershipState, Pdu};
use crate::power_levels::{
    event_level, level_above, levels_of, notifications_allowed, scalars_within,
    spec_check_power_levels, spec_send_level, user_level,
};
use crate::room_version::RoomVersion;
use crate::state_map::StateMap;

verus! {

/// `auth_check` is a function of its inputs: two results that meet its
/// contract on the same inputs are the same verdict.
pub proof fn auth_check_is_deterministic(
    rv: RoomVersion,
    ev: Pdu,
    prev: Option<Pdu>,
    tpi: Option<Pdu>,
    state: StateMap,
    r1: Result<bool, Error>,
    r2: Result<bool, Error>,
)
    requires
        outcome(r1) == spec_auth_check(rv, ev, prev, tpi, state),
        outcome(r2) == spec_auth_check(rv, ev, prev, tpi, state),
    ensures
        outcome(r1) == outcome(r2),
{
}

/// A create event with any previous event is denied.
pub proof fn create_with_prev_events_is_denied(
    rv: RoomVersion,
    ev: Pdu,
    prev: Option<Pdu>,
    tpi: Option<Pdu>,
    state: StateMap,
)
    requires
        ev.event_type is RoomCreate,
        ev.prev_events@.len() > 0,
    ensures
        spec_auth_check(rv, ev, prev, tpi, state) == Ok::<bool, crate::error::ErrorKind>(false),
{
}

/// A create event whose room id and sender are on different servers is denied.
pub proof fn create_from_other_server_is_denied(
    rv: RoomVersion,
    ev: Pdu,
    prev: Option<Pdu>,
    tpi: Option<Pdu>,
    state: StateMap,
)
    requires
        ev.event_type is RoomCreate,
        ev.room_id.server@ != ev.sender.server@,
    ensures
        spec_auth_check(rv, ev, prev, tpi, state) == Ok::<bool, crate::error::ErrorKind>(false),
{
}

/// The sender of `ev` has joined the room of `state`, which has a create event,
/// and `ev` is neither a create, member nor special-cased aliases event, and
/// the power levels, if any, parse.
pub open spec fn reaches_send_gate(rv: RoomVersion, ev: Pdu, state: StateMap) -> bool {
    let pl = state.spec_get(EventType::RoomPowerLevels, Seq::empty());
    let m = state.spec_get(EventType::RoomMember, ev.sender.full@);
    &&& !(ev.event_type is RoomCreate)
    &&& !(ev.event_type is RoomMember)
    &&& !(ev.event_type is RoomAliases && rv.special_case_aliases_auth)
    &&& state.spec_get(EventType::RoomCreate, Seq::empty()) is Some
    &&& m is Some
    &&& m->Some_0.content.membership == Field::<MembershipState>::Valid(MembershipState::Join)
    &&& (pl is None || levels_of(pl) is Some)
}

/// The sender's power level as `auth_check` computes it.
pub open spec fn sender_power_in(ev: Pdu, state: StateMap) -> i64 {
    spec_sender_power(
        state.spec_get(EventType::RoomPowerLevels, Seq::empty()),
        state.spec_get(EventType::RoomCreate, Seq::empty())->Some_0,
        ev.sender.full@,
    )
}

/// An event whose type needs more power than the sender has is denied, even
/// where every other precondition holds.
pub proof fn send_level_above_sender_is_denied(
    rv: RoomVersion,
    ev: Pdu,
    prev: Option<Pdu>,
    tpi: Option<Pdu>,
    state: StateMap,
)
    requires
        reaches_send_gate(rv, ev, state),
        spec_send_level(
            ev.event_type,
            ev.state_key is Some,
            state.spec_get(EventType::RoomPowerLevels, Seq::empty()),
        ) > sender_power_in(ev, state),
    ensures
        spec_auth_check(rv, ev, prev, tpi, state) == Ok::<bool, crate::error::ErrorKind>(false),
{
}

/// A state event whose state key begins with `@` and is not its sender is
/// denied.
pub proof fn state_key_of_other_user_is_denied(
    rv: RoomVersion,
    ev: Pdu,
    prev: Option<Pdu>,
    tpi: Option<Pdu>,
    state: StateMap,
)
    requires
        reaches_send_gate(rv, ev, state),
        ev.state_key is Some,
        ev.state_key->Some_0@.len() > 0,
        ev.state_key->Some_0@[0] == '@',
        ev.state_key->Some_0@ != ev.sender.full@,
    ensures
        spec_auth_check(rv, ev, prev, tpi, state) == Ok::<bool, crate::error::ErrorKind>(false),
{
}

/// Where redactions get extra checks, a redaction that passed every other rule
/// but was sent below the redact level is allowed exactly when it redacts an
/// event of its own server.
pub proof fn redaction_falls_back_to_server(
    rv: RoomVersion,
    ev: Pdu,
    prev: Option<Pdu>,
    tpi: Option<Pdu>,
    state: StateMap,
)
    requires
        rv.extra_redaction_checks,
        ev.event_type is RoomRedaction,
        reaches_send_gate(rv, ev, state),
        spec_can_send(
            ev,
            state.spec_get(EventType::RoomPowerLevels, Seq::empty()),
            sender_power_in(ev, state),
        ),
        sender_power_in(ev, state) < spec_redact_level(
            state.spec_get(EventType::RoomPowerLevels, Seq::empty()),
        ),
    ensures
        spec_auth_check(rv, ev, prev, tpi, state) == Ok::<bool, crate::error::ErrorKind>(
            ev.redacts is Some && same_server(ev.event_id.server, ev.redacts->Some_0.server),
        ),
{
}

/// The membership table, entry by entry for each pair of current and target
/// membership: `self_target` says that the sender is the target, `joined` that
/// the sender has joined; `ps` and `pt` are the sender's and target's levels.
pub open spec fn membership_table(
    current: MembershipState,
    target: MembershipState,
    self_target: bool,
    joined: bool,
    rule: JoinRule,
    ps: Option<i64>,
    pt: Option<i64>,
    invite: i64,
    kick: i64,
    ban: i64,
) -> bool {
    match (current, target) {
        (MembershipState::Ban, MembershipState::Join) => false,
        (MembershipState::Join, MembershipState::Join) => self_target && (rule == JoinRule::Public
            || rule == JoinRule::Invite),
        (MembershipState::Invite, MembershipState::Join) => self_target && (rule == JoinRule::Public
            || rule == JoinRule::Invite),
        (MembershipState::Leave, MembershipState::Join) => self_target && rule == JoinRule::Public,
        (MembershipState::Join, MembershipState::Invite) => false,
        (MembershipState::Ban, MembershipState::Invite) => false,
        (MembershipState::Leave, MembershipState::Invite) => joined && at_least(ps, invite),
        (MembershipState::Invite, MembershipState::Invite) => joined && at_least(ps, invite),
        (MembershipState::Join, MembershipState::Leave) => self_target || (joined && at_least(
            ps,
            kick,
        ) && level_lt(pt, ps)),
        (MembershipState::Invite, MembershipState::Leave) => self_target || (joined && at_least(
            ps,
            kick,
        ) && level_lt(pt, ps)),
        (MembershipState::Leave, MembershipState::Leave) => !self_target && joined && at_least(
            ps,
            kick,
        ) && level_lt(pt, ps),
        (MembershipState::Ban, MembershipState::Leave) => !self_target && joined && at_least(
            ps,
            ban,
        ) && at_least(ps, kick) && level_lt(pt, ps),
        (MembershipState::Join, MembershipState::Ban) => joined && at_least(ps, ban) && level_lt(
            pt,
            ps,
        ),
        (MembershipState::Leave, MembershipState::Ban) => joined && at_least(ps, ban) && level_lt(
            pt,
            ps,
        ),
        (MembershipState::Invite, MembershipState::Ban) => joined && at_least(ps, ban) && level_lt(
            pt,
            ps,
        ),
        (MembershipState::Ban, MembershipState::Ban) => joined && at_least(ps, ban) && level_lt(
            pt,
            ps,
        ),
        _ => false,
    }
}

/// For every pair of current and target membership among join, leave, invite
/// and ban, with well-formed inputs, no third-party invite and no bootstrap,
/// the membership rules give the entry of the table.
pub proof fn membership_follows_table(
    target: Seq<char>,
    target_member: Option<Pdu>,
    sender: Seq<char>,
    sender_member: Option<Pdu>,
    content: Content,
    prev: Option<Pdu>,
    tpi: Option<Pdu>,
    pl: Option<Pdu>,
    jr: Option<Pdu>,
)
    requires
        !membership_inputs_malformed(content, target_member, sender_member, pl, jr),
        !is_bootstrap(prev),
        !(content.third_party_invite is Valid),
        content.membership->Valid_0 != MembershipState::Knock,
        recorded_membership(target_member)->Ok_0 != MembershipState::Knock,
    ensures
        ({
            let current = recorded_membership(target_member)->Ok_0;
            let target_m = content.membership->Valid_0;
            let joined = recorded_membership(sender_member) == Ok::<MembershipState, ()>(
                MembershipState::Join,
            );
            let l = levels_of(pl);
            let rule = match jr {
                Some(e) => e.content.join_rule->Valid_0,
                None => JoinRule::Invite,
            };
            spec_valid_membership_change(
                target,
                target_member,
                sender,
                sender_member,
                content,
                prev,
                tpi,
                pl,
                jr,
            ) == Ok::<bool, crate::error::ErrorKind>(
                membership_table(
                    current,
                    target_m,
                    sender == target,
                    joined,
                    rule,
                    member_power(l, sender, joined),
                    member_power(l, target, target_m == MembershipState::Join),
                    invite_level(l),
                    kick_level(l),
                    ban_level(l),
                ),
            )
        }),
{
}

proof fn lemma_user_level_found(s: Seq<(String, i64)>, u: Seq<char>)
    requires
        user_level(s, u) is Some,
    ensures
        exists|i: int| 0 <= i < s.len() && (#[trigger] s[i]).0@ == u,
    decreases s.len(),
{
    if s[0].0@ == u {
        assert(s[0].0@ == u);
    } else {
        lemma_user_level_found(s.drop_first(), u);
        let i = choose|i: int| 0 <= i < s.drop_first().len() && (#[trigger] s.drop_first()[i]).0@ == u;
        assert(s[i + 1] == s.drop_first()[i]);
    }
}

proof fn lemma_event_level_found(s: Seq<(EventType, i64)>, t: EventType)
    requires
        event_level(s, t) is Some,
    ensures
        exists|i: int| 0 <= i < s.len() && type_eq((#[trigger] s[i]).0, t),
    decreases s.len(),
{
    if type_eq(s[0].0, t) {
        assert(type_eq(s[0].0, t));
    } else {
        lemma_event_level_found(s.drop_first(), t);
        let i = choose|i: int|
            0 <= i < s.drop_first().len() && type_eq((#[trigger] s.drop_first()[i]).0, t);
        assert(s[i + 1] == s.drop_first()[i]);
    }
}

proof fn lemma_event_level_same_type(s: Seq<(EventType, i64)>, a: EventType, b: EventType)
    requires
        type_eq(a, b),
    ensures
        event_level(s, a) == event_level(s, b),
    decreases s.len(),
{
    if s.len() > 0 {
        assert(type_eq(s[0].0, a) == type_eq(s[0].0, b));
        lemma_event_level_same_type(s.drop_first(), a, b);
    }
}

/// An accepted power-levels edit leaves every level that it changes, before
/// and after, at most the sender's level; it changes no other user who stood at
/// the sender's own level; and every scalar level is at most the sender's.
pub proof fn power_level_edit_is_bounded(rv: RoomVersion, ev: Pdu, prev: Pdu, lvl: i64)
    requires
        spec_check_power_levels(rv, ev, Some(prev), lvl) == Some(true),
    ensures
        ev.content.power_levels is Some,
        prev.content.power_levels is Some,
        ({
            let new = ev.content.power_levels->Some_0;
            let old = prev.content.power_levels->Some_0;
            &&& forall|u: Seq<char>|
                #![trigger user_level(new.users@, u)]
                #![trigger user_level(old.users@, u)]
                !(user_level(old.users@, u) is Some && user_level(old.users@, u) == user_level(
                    new.users@,
                    u,
                )) ==> {
                    &&& !level_above(user_level(new.users@, u), lvl)
                    &&& !level_above(user_level(old.users@, u), lvl)
                    &&& (u != ev.sender.full@ ==> user_level(old.users@, u) != Some(lvl))
                }
            &&& forall|t: EventType|
                #![trigger event_level(new.events@, t)]
                #![trigger event_level(old.events@, t)]
                !(event_level(old.events@, t) is Some && event_level(old.events@, t)
                    == event_level(new.events@, t)) ==> {
                    &&& !level_above(event_level(new.events@, t), lvl)
                    &&& !level_above(event_level(old.events@, t), lvl)
                }
            &&& notifications_allowed(rv, old, new, lvl)
            &&& scalars_within(old, lvl)
            &&& scalars_within(new, lvl)
        }),
{
    let new = ev.content.power_levels->Some_0;
    let old = prev.content.power_levels->Some_0;
    assert forall|u: Seq<char>|
        #![trigger user_level(new.users@, u)]
        #![trigger user_level(old.users@, u)]
        !(user_level(old.users@, u) is Some && user_level(old.users@, u) == user_level(
            new.users@,
            u,
        )) implies {
        &&& !level_above(user_level(new.users@, u), lvl)
        &&& !level_above(user_level(old.users@, u), lvl)
        &&& (u != ev.sender.full@ ==> user_level(old.users@, u) != Some(lvl))
    } by {
        if user_level(old.users@, u) is Some {
            lemma_user_level_found(old.users@, u);
            let i = choose|i: int| 0 <= i < old.users@.len() && (#[trigger] old.users@[i]).0@ == u;
            assert(old.users@[i].0@ == u);
        } else if user_level(new.users@, u) is Some {
            lemma_user_level_found(new.users@, u);
            let i = choose|i: int| 0 <= i < new.users@.len() && (#[trigger] new.users@[i]).0@ == u;
            assert(new.users@[i].0@ == u);
        }
    }
    assert forall|t: EventType|
        #![trigger event_level(new.events@, t)]
        #![trigger event_level(old.events@, t)]
        !(event_level(old.events@, t) is Some && event_level(old.events@, t) == event_level(
            new.events@,
            t,
        )) implies {
        &&& !level_above(event_level(new.events@, t), lvl)
        &&& !level_above(event_level(old.events@, t), lvl)
    } by {
        if event_level(old.events@, t) is Some {
            lemma_event_level_found(old.events@, t);
            let i = choose|i: int|
                0 <= i < old.events@.len() && type_eq((#[trigger] old.events@[i]).0, t);
            lemma_event_level_same_type(old.events@, old.events@[i].0, t);
            lemma_event_level_same_type(new.events@, old.events@[i].0, t);
        } else if event_level(new.events@, t) is Some {
            lemma_event_level_found(new.events@, t);
            let i = choose|i: int|
                0 <= i < new.events@.len() && type_eq((#[trigger] new.events@[i]).0, t);
            lemma_event_level_same_type(old.events@, new.events@[i].0, t);
            lemma_event_level_same_type(new.events@, new.events@[i].0, t);
        }
    }
}

/// No key occurs twice in `s`.
pub open spec fn no_repeats(s: Seq<(EventType, Seq<char>)>) -> bool {
    forall|i: int, j: int| 0 <= i < j < s.len() ==> s[i] != s[j]
}

proof fn lemma_push_unique(s: Seq<(EventType, Seq<char>)>, k: (EventType, Seq<char>))
    requires
        no_repeats(s),
    ensures
        no_repeats(push_unique(s, k)),
        push_unique(s, k).len() >= s.len(),
        forall|i: int| 0 <= i < s.len() ==> push_unique(s, k)[i] == s[i],
{
    if !s.contains(k) {
        assert forall|i: int, j: int|
            0 <= i < j < s.push(k).len() implies s.push(k)[i] != s.push(k)[j] by {
            if j == s.len() {
                assert(s[i] != k);
            }
        }
    }
}

/// For every type but create, the keys needed to authorize an event begin
/// with the power levels, the sender's membership and the create event, in
/// that order, and hold each of the three exactly once.
pub proof fn auth_types_hold_base_keys_once(
    kind: EventType,
    sender: Seq<char>,
    state_key: Option<Seq<char>>,
    content: Content,
)
    requires
        !(kind is RoomCreate),
    ensures
        ({
            let r = spec_auth_types(kind, sender, state_key, content);
            &&& r.len() >= 3
            &&& r[0] == (EventType::RoomPowerLevels, Seq::<char>::empty())
            &&& r[1] == (EventType::RoomMember, sender)
            &&& r[2] == (EventType::RoomCreate, Seq::<char>::empty())
            &&& forall|i: int| 3 <= i < r.len() ==> #[trigger] r[i] != r[0] && r[i] != r[1] && r[i] != r[2]
            &&& no_repeats(r)
        }),
{
    let b = base_auth_types(sender);
    assert(no_repeats(b));
    if kind is RoomMember && state_key is Some && content.membership is Valid {
        let m = content.membership->Valid_0;
        let s1 = if m == MembershipState::Join || m == MembershipState::Invite {
            push_unique(b, (EventType::RoomJoinRules, Seq::<char>::empty()))
        } else {
            b
        };
        lemma_push_unique(b, (EventType::RoomJoinRules, Seq::<char>::empty()));
        let s2 = push_unique(s1, (EventType::RoomMember, state_key->Some_0));
        lemma_push_unique(s1, (EventType::RoomMember, state_key->Some_0));
        if m == MembershipState::Invite && content.third_party_invite is Valid {
            lemma_push_unique(
                s2,
                (
                    EventType::RoomThirdPartyInvite,
                    content.third_party_invite->Valid_0.signed.token@,
                ),
            );
        }
    }
}

} // verus!
