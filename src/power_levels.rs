//! Power levels: lookups, the level needed to send an event, and the rules on
//! changing a room's power levels.
use vstd::prelude::*;
use crate::events::{deref_pdu, type_eq, EventType, Pdu, PowerLevels};
use crate::ids::UserId;
use crate::room_version::RoomVersion;

verus! {

/// The level of user `u` in `users` (the first entry for `u`).
pub open spec fn user_level(users: Seq<(String, i64)>, u: Seq<char>) -> Option<i64>
    decreases users.len(),
{
    if users.len() == 0 {
        None
    } else if users[0].0@ == u {
        Some(users[0].1)
    } else {
        user_level(users.drop_first(), u)
    }
}

/// The level of event type `t` in `events` (the first entry for `t`).
pub open spec fn event_level(events: Seq<(EventType, i64)>, t: EventType) -> Option<i64>
    decreases events.len(),
{
    if events.len() == 0 {
        None
    } else if type_eq(events[0].0, t) {
        Some(events[0].1)
    } else {
        event_level(events.drop_first(), t)
    }
}

proof fn lemma_user_level_skip(s: Seq<(String, i64)>, u: Seq<char>, i: int)
    requires
        0 <= i <= s.len(),
        forall|j: int| 0 <= j < i ==> (#[trigger] s[j]).0@ != u,
    ensures
        user_level(s, u) == user_level(s.subrange(i, s.len() as int), u),
    decreases i,
{
    if i > 0 {
        assert(s.drop_first().subrange(i - 1, s.drop_first().len() as int) =~= s.subrange(
            i,
            s.len() as int,
        ));
        assert(s[0].0@ != u);
        lemma_user_level_skip(s.drop_first(), u, i - 1);
    } else {
        assert(s.subrange(0, s.len() as int) =~= s);
    }
}

proof fn lemma_event_level_skip(s: Seq<(EventType, i64)>, t: EventType, i: int)
    requires
        0 <= i <= s.len(),
        forall|j: int| 0 <= j < i ==> !type_eq((#[trigger] s[j]).0, t),
    ensures
        event_level(s, t) == event_level(s.subrange(i, s.len() as int), t),
    decreases i,
{
    if i > 0 {
        assert(s.drop_first().subrange(i - 1, s.drop_first().len() as int) =~= s.subrange(
            i,
            s.len() as int,
        ));
        assert(!type_eq(s[0].0, t));
        lemma_event_level_skip(s.drop_first(), t, i - 1);
    } else {
        assert(s.subrange(0, s.len() as int) =~= s);
    }
}

/// The level that `users` gives to `u`.
pub fn find_user_level(users: &Vec<(String, i64)>, u: &str) -> (r: Option<i64>)
    ensures
        r == user_level(users@, u@),
{
    let mut i: usize = 0;
    while i < users.len()
        invariant
            i <= users@.len(),
            forall|j: int| 0 <= j < i ==> (#[trigger] users@[j]).0@ != u@,
        decreases users@.len() - i,
    {
        if crate::text::str_eq(users[i].0.as_str(), u) {
            proof {
                lemma_user_level_skip(users@, u@, i as int);
            }
            return Some(users[i].1);
        }
        i = i + 1;
    }
    proof {
        lemma_user_level_skip(users@, u@, i as int);
    }
    None
}

/// The level that `events` gives to type `t`.
pub fn find_event_level(events: &Vec<(EventType, i64)>, t: &EventType) -> (r: Option<i64>)
    ensures
        r == event_level(events@, *t),
{
    let mut i: usize = 0;
    while i < events.len()
        invariant
            i <= events@.len(),
            forall|j: int| 0 <= j < i ==> !type_eq((#[trigger] events@[j]).0, *t),
        decreases events@.len() - i,
    {
        if events[i].0.same_as(t) {
            proof {
                lemma_event_level_skip(events@, *t, i as int);
            }
            return Some(events[i].1);
        }
        i = i + 1;
    }
    proof {
        lemma_event_level_skip(events@, *t, i as int);
    }
    None
}

/// The power levels that an event's content holds, if the event is there and
/// its content parses.
pub open spec fn levels_of(pl: Option<Pdu>) -> Option<PowerLevels> {
    match pl {
        Some(p) => p.content.power_levels,
        None => None,
    }
}

/// The level needed to send an event of type `t`, with or without a state key.
pub open spec fn spec_send_level(t: EventType, has_state_key: bool, pl: Option<Pdu>) -> i64 {
    match levels_of(pl) {
        Some(l) => match event_level(l.events@, t) {
            Some(x) => x,
            None => if has_state_key {
                l.state_default
            } else {
                l.events_default
            },
        },
        None => if has_state_key {
            50
        } else {
            0
        },
    }
}

/// The level needed to send an event of type `e_type`, from the room's
/// `m.room.power_levels` event.
pub fn get_send_level(e_type: &EventType, state_key: Option<String>, power_lvl: Option<&Pdu>) -> (r:
    i64)
    ensures
        r == spec_send_level(*e_type, state_key is Some, deref_pdu(power_lvl)),
{
    let levels = match power_lvl {
        Some(ple) => ple.content.power_levels.as_ref(),
        None => None,
    };
    match levels {
        Some(content) => match find_event_level(&content.events, e_type) {
            Some(x) => x,
            None => if state_key.is_some() {
                content.state_default
            } else {
                content.events_default
            },
        },
        None => if state_key.is_some() {
            50
        } else {
            0
        },
    }
}

/// `o` is a level above `lvl` (a missing level is below every level).
pub open spec fn level_above(o: Option<i64>, lvl: i64) -> bool {
    o is Some && o->Some_0 > lvl
}

/// Whether a user or event level may go from `o` to `n` for a sender at
/// `lvl`; `peer` says that the entry is a user other than the sender.
pub open spec fn change_allowed(o: Option<i64>, n: Option<i64>, peer: bool, lvl: i64) -> bool {
    ||| (o is Some && n is Some && o == n)
    ||| (!(peer && o == Some(lvl)) && !level_above(o, lvl) && !level_above(n, lvl))
}

/// Whether the level of user `u` may change from `old` to `new`.
pub open spec fn user_change_allowed(
    old: PowerLevels,
    new: PowerLevels,
    u: Seq<char>,
    sender: Seq<char>,
    lvl: i64,
) -> bool {
    change_allowed(user_level(old.users@, u), user_level(new.users@, u), u != sender, lvl)
}

/// Whether the level of event type `t` may change from `old` to `new`.
pub open spec fn event_change_allowed(
    old: PowerLevels,
    new: PowerLevels,
    t: EventType,
    lvl: i64,
) -> bool {
    change_allowed(event_level(old.events@, t), event_level(new.events@, t), false, lvl)
}

/// Every user named in `keys` may have its level changed.
pub open spec fn users_allowed(
    keys: Seq<(String, i64)>,
    old: PowerLevels,
    new: PowerLevels,
    sender: Seq<char>,
    lvl: i64,
) -> bool {
    forall|i: int|
        0 <= i < keys.len() ==> user_change_allowed(old, new, (#[trigger] keys[i]).0@, sender, lvl)
}

/// Every event type named in `keys` may have its level changed.
pub open spec fn events_allowed(
    keys: Seq<(EventType, i64)>,
    old: PowerLevels,
    new: PowerLevels,
    lvl: i64,
) -> bool {
    forall|i: int| 0 <= i < keys.len() ==> event_change_allowed(old, new, (#[trigger] keys[i]).0, lvl)
}

/// The `@room` notification level may change.
pub open spec fn notifications_allowed(
    rv: RoomVersion,
    old: PowerLevels,
    new: PowerLevels,
    lvl: i64,
) -> bool {
    !rv.limit_notifications_power_levels || old.notifications_room == new.notifications_room || (
    old.notifications_room <= lvl && new.notifications_room <= lvl)
}

/// No scalar level of `l` is above `lvl`.
pub open spec fn scalars_within(l: PowerLevels, lvl: i64) -> bool {
    &&& l.users_default <= lvl
    &&& l.events_default <= lvl
    &&& l.state_default <= lvl
    &&& l.ban <= lvl
    &&& l.redact <= lvl
    &&& l.kick <= lvl
    &&& l.invite <= lvl
}

/// The verdict on a power-levels event `ev` sent at level `lvl` over the
/// previous power-levels event `prev`; `None` where no check can be made.
pub open spec fn spec_check_power_levels(
    rv: RoomVersion,
    ev: Pdu,
    prev: Option<Pdu>,
    lvl: i64,
) -> Option<bool> {
    if !(ev.state_key is Some && ev.state_key->Some_0@.len() == 0) {
        None
    } else if prev is None {
        Some(true)
    } else if ev.content.power_levels is None || prev->Some_0.content.power_levels is None {
        None
    } else {
        let new = ev.content.power_levels->Some_0;
        let old = prev->Some_0.content.power_levels->Some_0;
        let s = ev.sender.full@;
        Some(
            users_allowed(old.users@, old, new, s, lvl) && users_allowed(new.users@, old, new, s, lvl)
                && events_allowed(old.events@, old, new, lvl) && events_allowed(
                new.events@,
                old,
                new,
                lvl,
            ) && notifications_allowed(rv, old, new, lvl) && scalars_within(old, lvl)
                && scalars_within(new, lvl),
        )
    }
}

fn check_change(o: Option<i64>, n: Option<i64>, peer: bool, lvl: i64) -> (r: bool)
    ensures
        r == change_allowed(o, n, peer, lvl),
{
    let unchanged = match (o, n) {
        (Some(a), Some(b)) => a == b,
        _ => false,
    };
    if unchanged {
        return true;
    }
    let at_own = match o {
        Some(a) => a == lvl,
        None => false,
    };
    let old_above = match o {
        Some(a) => a > lvl,
        None => false,
    };
    let new_above = match n {
        Some(b) => b > lvl,
        None => false,
    };
    !(peer && at_own) && !old_above && !new_above
}

fn check_users(
    keys: &Vec<(String, i64)>,
    old: &PowerLevels,
    new: &PowerLevels,
    sender: &UserId,
    lvl: i64,
) -> (r: bool)
    ensures
        r == users_allowed(keys@, *old, *new, sender.full@, lvl),
{
    let mut i: usize = 0;
    while i < keys.len()
        invariant
            i <= keys@.len(),
            forall|j: int|
                0 <= j < i ==> user_change_allowed(
                    *old,
                    *new,
                    (#[trigger] keys@[j]).0@,
                    sender.full@,
                    lvl,
                ),
        decreases keys@.len() - i,
    {
        let u = keys[i].0.as_str();
        let o = find_user_level(&old.users, u);
        let n = find_user_level(&new.users, u);
        let peer = !crate::text::str_eq(u, sender.full.as_str());
        if !check_change(o, n, peer, lvl) {
            return false;
        }
        i = i + 1;
    }
    true
}

fn check_events(keys: &Vec<(EventType, i64)>, old: &PowerLevels, new: &PowerLevels, lvl: i64) -> (r:
    bool)
    ensures
        r == events_allowed(keys@, *old, *new, lvl),
{
    let mut i: usize = 0;
    while i < keys.len()
        invariant
            i <= keys@.len(),
            forall|j: int| 0 <= j < i ==> event_change_allowed(*old, *new, (#[trigger] keys@[j]).0, lvl),
        decreases keys@.len() - i,
    {
        let t = &keys[i].0;
        let o = find_event_level(&old.events, t);
        let n = find_event_level(&new.events, t);
        if !check_change(o, n, false, lvl) {
            return false;
        }
        i = i + 1;
    }
    true
}

fn scalars_ok(l: &PowerLevels, lvl: i64) -> (r: bool)
    ensures
        r == scalars_within(*l, lvl),
{
    l.users_default <= lvl && l.events_default <= lvl && l.state_default <= lvl && l.ban <= lvl
        && l.redact <= lvl && l.kick <= lvl && l.invite <= lvl
}

/// Whether a sender at level `user_level` may replace the power levels of
/// `previous_power_event` by those of `power_event`; `None` where the check
/// cannot be made, which the caller must treat as a denial.
pub fn check_power_levels(
    room_version: &RoomVersion,
    power_event: &Pdu,
    previous_power_event: Option<&Pdu>,
    user_level: i64,
) -> (r: Option<bool>)
    ensures
        r == spec_check_power_levels(
            *room_version,
            *power_event,
            deref_pdu(previous_power_event),
            user_level,
        ),
{
    match &power_event.state_key {
        Some(k) => {
            if !k.as_str().is_empty() {
                return None;
            }
        },
        None => {
            return None;
        },
    }
    let current_state = match previous_power_event {
        Some(c) => c,
        None => {
            return Some(true);
        },
    };
    let new = match &power_event.content.power_levels {
        Some(l) => l,
        None => {
            return None;
        },
    };
    let old = match &current_state.content.power_levels {
        Some(l) => l,
        None => {
            return None;
        },
    };
    let sender = &power_event.sender;
    if !check_users(&old.users, old, new, sender, user_level) || !check_users(
        &new.users,
        old,
        new,
        sender,
        user_level,
    ) {
        return Some(false);
    }
    if !check_events(&old.events, old, new, user_level) || !check_events(
        &new.events,
        old,
        new,
        user_level,
    ) {
        return Some(false);
    }
    if room_version.limit_notifications_power_levels {
        let o = old.notifications_room;
        let n = new.notifications_room;
        if o != n && (o > user_level || n > user_level) {
            return Some(false);
        }
    }
    Some(scalars_ok(old, user_level) && scalars_ok(new, user_level))
}

} // verus!
