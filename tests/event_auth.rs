use ruma_state_res::error::{Error, ErrorKind};
use ruma_state_res::event_auth::{
    auth_check, auth_types_for_event, can_federate, can_send_event, check_membership,
    check_redaction, valid_membership_change, verify_third_party_invite,
};
use ruma_state_res::events::{
    Content, EventType, Field, JoinRule, MembershipState, Pdu, PowerLevels, SignedContent,
    ThirdPartyInvite, ThirdPartyInviteKeys,
};
use ruma_state_res::ids::{EventId, RoomId, UserId};
use ruma_state_res::power_levels::{check_power_levels, get_send_level};
use ruma_state_res::room_version::RoomVersion;
use ruma_state_res::state_map::StateMap;
use ruma_state_res::events::MembershipState::{Ban, Invite, Join, Knock, Leave};

fn user(s: &str) -> UserId {
    UserId::parse(s).unwrap()
}

fn alice() -> UserId {
    user("@alice:foo")
}

fn bob() -> UserId {
    user("@bob:foo")
}

fn charlie() -> UserId {
    user("@charlie:foo")
}

fn event_id(id: &str) -> String {
    format!("${}:foo", id)
}

fn pdu(
    id: &str,
    sender: &str,
    room: &str,
    event_type: EventType,
    state_key: Option<&str>,
    content: Content,
    prev_events: &[&str],
) -> Pdu {
    Pdu {
        event_id: EventId::parse(id).unwrap(),
        room_id: RoomId::parse(room).unwrap(),
        sender: user(sender),
        event_type,
        state_key: state_key.map(|s| s.to_owned()),
        content,
        prev_events: prev_events.iter().map(|e| EventId::parse(e).unwrap()).collect(),
        redacts: None,
    }
}

fn member_content(m: MembershipState) -> Content {
    let mut c = Content::empty();
    c.membership = Field::Valid(m);
    c
}

fn levels(users: &[(&str, i64)]) -> PowerLevels {
    PowerLevels {
        users: users.iter().map(|(u, l)| (u.to_string(), *l)).collect(),
        users_default: 0,
        events: Vec::new(),
        events_default: 0,
        state_default: 50,
        ban: 50,
        kick: 50,
        redact: 50,
        invite: 50,
        notifications_room: 50,
    }
}

fn pl_content(l: PowerLevels) -> Content {
    let mut c = Content::empty();
    c.redact = Field::Valid(l.redact);
    c.power_levels = Some(l);
    c
}

fn create_content(creator: &str) -> Content {
    let mut c = Content::empty();
    c.creator = Field::Valid(creator.to_owned());
    c
}

fn join_rules_content(rule: JoinRule) -> Content {
    let mut c = Content::empty();
    c.join_rule = Field::Valid(rule);
    c
}

fn create_event() -> Pdu {
    pdu(&event_id("CREATE"), "@alice:foo", "!test:foo", EventType::RoomCreate, Some(""),
        create_content("@alice:foo"), &[])
}

fn member_event(id: &str, who: &str, m: MembershipState) -> Pdu {
    pdu(&event_id(id), who, "!test:foo", EventType::RoomMember, Some(who), member_content(m),
        &[])
}

/// The state of the room used by the ban tests: alice created it, holds
/// power 100, the join rule is public, and alice, bob and charlie joined.
fn initial_state() -> StateMap {
    let mut s = StateMap::new();
    s.insert(EventType::RoomCreate, String::new(), create_event());
    s.insert(
        EventType::RoomMember,
        "@alice:foo".to_owned(),
        member_event("IMA", "@alice:foo", MembershipState::Join),
    );
    s.insert(
        EventType::RoomPowerLevels,
        String::new(),
        pdu(&event_id("IPOWER"), "@alice:foo", "!test:foo", EventType::RoomPowerLevels, Some(""),
            pl_content(levels(&[("@alice:foo", 100)])), &[]),
    );
    s.insert(
        EventType::RoomJoinRules,
        String::new(),
        pdu(&event_id("IJR"), "@alice:foo", "!test:foo", EventType::RoomJoinRules, Some(""),
            join_rules_content(JoinRule::Public), &[]),
    );
    s.insert(
        EventType::RoomMember,
        "@bob:foo".to_owned(),
        member_event("IMB", "@bob:foo", MembershipState::Join),
    );
    s.insert(
        EventType::RoomMember,
        "@charlie:foo".to_owned(),
        member_event("IMC", "@charlie:foo", MembershipState::Join),
    );
    s
}

#[test]
fn test_ban_pass() {
    let state = initial_state();
    let prev_event = member_event("IMC", "@charlie:foo", MembershipState::Join);
    let requester = pdu(&event_id("HELLO"), "@alice:foo", "!test:foo", EventType::RoomMember,
        Some("@charlie:foo"), member_content(MembershipState::Ban), &[&event_id("IMC")]);
    let target_user = charlie();
    let sender = alice();
    assert!(valid_membership_change(
        &target_user,
        state.get(&EventType::RoomMember, target_user.as_str()),
        &sender,
        state.get(&EventType::RoomMember, sender.as_str()),
        &requester.content,
        Some(&prev_event),
        None,
        state.get(&EventType::RoomPowerLevels, ""),
        state.get(&EventType::RoomJoinRules, ""),
    )
    .unwrap());
}

#[test]
fn test_ban_fail() {
    let state = initial_state();
    let prev_event = member_event("IMC", "@charlie:foo", MembershipState::Join);
    let requester = pdu(&event_id("HELLO"), "@charlie:foo", "!test:foo", EventType::RoomMember,
        Some("@alice:foo"), member_content(MembershipState::Ban), &[&event_id("IMC")]);
    let target_user = alice();
    let sender = charlie();
    assert!(!valid_membership_change(
        &target_user,
        state.get(&EventType::RoomMember, target_user.as_str()),
        &sender,
        state.get(&EventType::RoomMember, sender.as_str()),
        &requester.content,
        Some(&prev_event),
        None,
        state.get(&EventType::RoomPowerLevels, ""),
        state.get(&EventType::RoomJoinRules, ""),
    )
    .unwrap());
}

fn v6() -> RoomVersion {
    RoomVersion::new("6").unwrap()
}

fn s1_create(room: &str) -> Pdu {
    let mut c = create_content("@alice:a.example");
    c.room_version = Field::Valid("6".to_owned());
    pdu("$c1:a.example", "@alice:a.example", room, EventType::RoomCreate, Some(""), c, &[])
}

#[test]
fn creator_bootstraps_room() {
    let state = StateMap::new();
    let ev = s1_create("!x:a.example");
    assert_eq!(auth_check(&v6(), &ev, None, None, &state).unwrap(), true);
}

#[test]
fn cross_domain_create_rejected() {
    let state = StateMap::new();
    let ev = s1_create("!x:b.example");
    assert_eq!(auth_check(&v6(), &ev, None, None, &state).unwrap(), false);
}

#[test]
fn create_with_prev_events_denied() {
    let state = StateMap::new();
    let mut ev = s1_create("!x:a.example");
    ev.prev_events.push(EventId::parse("$p:a.example").unwrap());
    assert_eq!(auth_check(&v6(), &ev, None, None, &state).unwrap(), false);
}

#[test]
fn create_with_unknown_room_version_denied() {
    let state = StateMap::new();
    let mut ev = s1_create("!x:a.example");
    ev.content.room_version = Field::Valid("42".to_owned());
    assert_eq!(auth_check(&v6(), &ev, None, None, &state).unwrap(), false);
    ev.content.room_version = Field::Absent;
    assert_eq!(auth_check(&v6(), &ev, None, None, &state).unwrap(), true);
    ev.content.creator = Field::Absent;
    assert_eq!(auth_check(&v6(), &ev, None, None, &state).unwrap(), false);
}

/// Create (creator alice), power levels (alice = 100), the given join rule,
/// alice joined.
fn s3_state(rule: JoinRule) -> StateMap {
    let mut s = StateMap::new();
    s.insert(EventType::RoomCreate, String::new(), create_event());
    s.insert(
        EventType::RoomPowerLevels,
        String::new(),
        pdu("$pl:foo", "@alice:foo", "!test:foo", EventType::RoomPowerLevels, Some(""),
            pl_content(levels(&[("@alice:foo", 100)])), &[]),
    );
    s.insert(
        EventType::RoomJoinRules,
        String::new(),
        pdu("$jr:foo", "@alice:foo", "!test:foo", EventType::RoomJoinRules, Some(""),
            join_rules_content(rule), &[]),
    );
    s.insert(
        EventType::RoomMember,
        "@alice:foo".to_owned(),
        member_event("IMA", "@alice:foo", MembershipState::Join),
    );
    s
}

fn bob_joins() -> Pdu {
    pdu("$bj:b.example", "@bob:b.example", "!test:foo", EventType::RoomMember,
        Some("@bob:b.example"), member_content(MembershipState::Join), &["$prev:foo"])
}

#[test]
fn public_join() {
    let state = s3_state(JoinRule::Public);
    assert_eq!(auth_check(&v6(), &bob_joins(), None, None, &state).unwrap(), true);
}

#[test]
fn invite_only_join_denied() {
    let state = s3_state(JoinRule::Invite);
    assert_eq!(auth_check(&v6(), &bob_joins(), None, None, &state).unwrap(), false);
}

#[test]
fn ban_by_moderator() {
    let mut state = StateMap::new();
    state.insert(EventType::RoomCreate, String::new(), create_event());
    state.insert(
        EventType::RoomPowerLevels,
        String::new(),
        pdu("$pl:foo", "@alice:foo", "!test:foo", EventType::RoomPowerLevels, Some(""),
            pl_content(levels(&[("@alice:foo", 100), ("@mallory:foo", 50)])), &[]),
    );
    state.insert(
        EventType::RoomMember,
        "@mallory:foo".to_owned(),
        member_event("IMM", "@mallory:foo", MembershipState::Join),
    );
    state.insert(
        EventType::RoomMember,
        "@carol:foo".to_owned(),
        member_event("IMCA", "@carol:foo", MembershipState::Join),
    );
    let ev = pdu("$ban:foo", "@mallory:foo", "!test:foo", EventType::RoomMember,
        Some("@carol:foo"), member_content(MembershipState::Ban), &["$prev:foo"]);
    assert_eq!(auth_check(&v6(), &ev, None, None, &state).unwrap(), true);
}

fn pl_state(alice_level: i64) -> StateMap {
    let mut s = s3_state(JoinRule::Public);
    s.insert(
        EventType::RoomPowerLevels,
        String::new(),
        pdu("$pl:foo", "@alice:foo", "!test:foo", EventType::RoomPowerLevels, Some(""),
            pl_content(levels(&[("@alice:foo", alice_level)])), &[]),
    );
    s
}

#[test]
fn self_promotion_rejected() {
    let state = pl_state(50);
    let new_levels = levels(&[("@alice:foo", 100)]);
    let ev = pdu("$npl:foo", "@alice:foo", "!test:foo", EventType::RoomPowerLevels, Some(""),
        pl_content(new_levels), &["$prev:foo"]);
    let previous = state.get(&EventType::RoomPowerLevels, "");
    assert_eq!(check_power_levels(&v6(), &ev, previous, 50), Some(false));
    assert_eq!(auth_check(&v6(), &ev, None, None, &state).unwrap(), false);
}

fn third_party_invite(mxid: &str, token: &str) -> ThirdPartyInvite {
    ThirdPartyInvite {
        display_name: "bob".to_owned(),
        signed: SignedContent { mxid: mxid.to_owned(), token: token.to_owned() },
    }
}

fn tpi_event(state_key: &str, sender: &str, public_key: &str) -> Pdu {
    let mut c = Content::empty();
    c.invite_keys = Some(ThirdPartyInviteKeys {
        public_key: public_key.to_owned(),
        public_keys: Vec::new(),
    });
    pdu("$tpi:foo", sender, "!test:foo", EventType::RoomThirdPartyInvite, Some(state_key), c,
        &[])
}

#[test]
fn third_party_invite_mismatch() {
    let state = s3_state(JoinRule::Invite);
    let mut c = member_content(MembershipState::Invite);
    c.third_party_invite = Field::Valid(third_party_invite("@bob:foo", "T"));
    let ev = pdu("$inv:foo", "@alice:foo", "!test:foo", EventType::RoomMember, Some("@bob:foo"),
        c, &["$prev:foo"]);
    let current = tpi_event("U", "@alice:foo", "T");
    assert_eq!(auth_check(&v6(), &ev, None, Some(&current), &state).unwrap(), false);
    let matching = tpi_event("T", "@alice:foo", "T");
    assert_eq!(auth_check(&v6(), &ev, None, Some(&matching), &state).unwrap(), true);
}

#[test]
fn verify_third_party_invite_checks_each_part() {
    let tp = third_party_invite("@bob:foo", "T");
    let b = bob();
    let a = alice();
    let ok = tpi_event("T", "@alice:foo", "T");
    assert!(verify_third_party_invite(Some(&b), &a, &tp, Some(&ok)));
    assert!(!verify_third_party_invite(Some(&a), &a, &tp, Some(&ok)));
    assert!(!verify_third_party_invite(None, &a, &tp, Some(&ok)));
    assert!(!verify_third_party_invite(Some(&b), &a, &tp, None));
    let other_sender = tpi_event("T", "@charlie:foo", "T");
    assert!(!verify_third_party_invite(Some(&b), &a, &tp, Some(&other_sender)));
    let other_key = tpi_event("T", "@alice:foo", "K");
    assert!(!verify_third_party_invite(Some(&b), &a, &tp, Some(&other_key)));
    let mut listed = tpi_event("T", "@alice:foo", "K");
    listed.content.invite_keys.as_mut().unwrap().public_keys.push("T".to_owned());
    assert!(verify_third_party_invite(Some(&b), &a, &tp, Some(&listed)));
}

#[test]
fn auth_check_is_deterministic_on_a_snapshot() {
    let state = s3_state(JoinRule::Public);
    let ev = bob_joins();
    let first = auth_check(&v6(), &ev, None, None, &state).unwrap();
    let second = auth_check(&v6(), &ev, None, None, &state).unwrap();
    assert_eq!(first, second);
    assert!(state.get(&EventType::RoomMember, "@alice:foo").is_some());
    assert!(state.get(&EventType::RoomMember, "@bob:b.example").is_none());
}

fn message(sender: &str, state_key: Option<&str>, event_type: EventType) -> Pdu {
    pdu("$m:foo", sender, "!test:foo", event_type, state_key, Content::empty(), &["$prev:foo"])
}

#[test]
fn send_gate_denies_below_send_level() {
    let mut state = s3_state(JoinRule::Public);
    let mut l = levels(&[("@alice:foo", 100)]);
    l.events.push((EventType::Custom("m.room.message".to_owned()), 10));
    state.insert(
        EventType::RoomPowerLevels,
        String::new(),
        pdu("$pl:foo", "@alice:foo", "!test:foo", EventType::RoomPowerLevels, Some(""),
            pl_content(l), &[]),
    );
    state.insert(
        EventType::RoomMember,
        "@bob:foo".to_owned(),
        member_event("IMB", "@bob:foo", MembershipState::Join),
    );
    let ty = || EventType::Custom("m.room.message".to_owned());
    assert_eq!(auth_check(&v6(), &message("@bob:foo", None, ty()), None, None, &state).unwrap(),
        false);
    assert_eq!(auth_check(&v6(), &message("@alice:foo", None, ty()), None, None, &state).unwrap(),
        true);
    let topic = || EventType::Custom("m.room.topic".to_owned());
    assert_eq!(
        auth_check(&v6(), &message("@bob:foo", Some(""), topic()), None, None, &state).unwrap(),
        false
    );
}

#[test]
fn state_key_of_other_user_denied() {
    let state = s3_state(JoinRule::Public);
    let ty = || EventType::Custom("org.example.status".to_owned());
    let other = message("@alice:foo", Some("@bob:foo"), ty());
    assert_eq!(auth_check(&v6(), &other, None, None, &state).unwrap(), false);
    let own = message("@alice:foo", Some("@alice:foo"), ty());
    assert_eq!(auth_check(&v6(), &own, None, None, &state).unwrap(), true);
}

#[test]
fn send_level_formula() {
    let mut l = levels(&[]);
    l.events.push((EventType::Custom("m.room.name".to_owned()), 75));
    l.state_default = 40;
    l.events_default = 5;
    let ple = pdu("$pl:foo", "@alice:foo", "!test:foo", EventType::RoomPowerLevels, Some(""),
        pl_content(l), &[]);
    let name = EventType::Custom("m.room.name".to_owned());
    let topic = EventType::Custom("m.room.topic".to_owned());
    assert_eq!(get_send_level(&name, None, Some(&ple)), 75);
    assert_eq!(get_send_level(&topic, Some(String::new()), Some(&ple)), 40);
    assert_eq!(get_send_level(&topic, None, Some(&ple)), 5);
    assert_eq!(get_send_level(&topic, Some(String::new()), None), 50);
    assert_eq!(get_send_level(&topic, None, None), 0);
    let broken = pdu("$pl2:foo", "@alice:foo", "!test:foo", EventType::RoomPowerLevels, Some(""),
        Content::empty(), &[]);
    assert_eq!(get_send_level(&topic, Some(String::new()), Some(&broken)), 50);
}

#[test]
fn can_send_event_checks_level_and_state_key() {
    let ev = message("@bob:foo", Some("@bob:foo"), EventType::Custom("x.y".to_owned()));
    assert!(can_send_event(&ev, None, 50));
    assert!(!can_send_event(&ev, None, 49));
    let other = message("@bob:foo", Some("@carol:foo"), EventType::Custom("x.y".to_owned()));
    assert!(!can_send_event(&other, None, 100));
}

fn redaction(id: &str, redacts: Option<&str>) -> Pdu {
    let mut ev = pdu(id, "@bob:foo", "!test:foo", EventType::RoomRedaction, None, Content::empty(),
        &["$prev:foo"]);
    ev.redacts = redacts.map(|r| EventId::parse(r).unwrap());
    ev
}

#[test]
fn redaction_falls_back_to_server_name() {
    let v1 = RoomVersion::new("1").unwrap();
    let same = redaction("$r:foo", Some("$x:foo"));
    let other = redaction("$r:foo", Some("$x:bar"));
    assert_eq!(check_redaction(&v1, &same, 0, 50).unwrap(), true);
    assert_eq!(check_redaction(&v1, &other, 0, 50).unwrap(), false);
    assert_eq!(check_redaction(&v1, &other, 50, 50).unwrap(), true);
    let mut state = s3_state(JoinRule::Public);
    state.insert(
        EventType::RoomMember,
        "@bob:foo".to_owned(),
        member_event("IMB", "@bob:foo", MembershipState::Join),
    );
    assert_eq!(auth_check(&v1, &same, None, None, &state).unwrap(), true);
    assert_eq!(auth_check(&v1, &other, None, None, &state).unwrap(), false);
    assert_eq!(auth_check(&v6(), &other, None, None, &state).unwrap(), true);
}

#[test]
fn auth_types_base_keys_in_order() {
    let sender = alice();
    let r = auth_types_for_event(&EventType::Custom("m.room.message".to_owned()), &sender, None,
        &Content::empty());
    assert_eq!(r.len(), 3);
    assert!(matches!(r[0].0, EventType::RoomPowerLevels));
    assert_eq!(r[0].1, "");
    assert!(matches!(r[1].0, EventType::RoomMember));
    assert_eq!(r[1].1, "@alice:foo");
    assert!(matches!(r[2].0, EventType::RoomCreate));
    assert_eq!(r[2].1, "");
    let none = auth_types_for_event(&EventType::RoomCreate, &sender, Some(String::new()),
        &Content::empty());
    assert!(none.is_empty());
}

#[test]
fn auth_types_for_invites() {
    let sender = alice();
    let mut c = member_content(MembershipState::Invite);
    c.third_party_invite = Field::Valid(third_party_invite("@bob:foo", "tok"));
    let r = auth_types_for_event(&EventType::RoomMember, &sender, Some("@bob:foo".to_owned()), &c);
    assert_eq!(r.len(), 6);
    assert!(matches!(r[3].0, EventType::RoomJoinRules));
    assert!(matches!(r[4].0, EventType::RoomMember));
    assert_eq!(r[4].1, "@bob:foo");
    assert!(matches!(r[5].0, EventType::RoomThirdPartyInvite));
    assert_eq!(r[5].1, "tok");
    let own = auth_types_for_event(&EventType::RoomMember, &sender, Some("@alice:foo".to_owned()),
        &member_content(MembershipState::Leave));
    assert_eq!(own.len(), 3);
}

fn membership_verdict(current: Option<MembershipState>, target: MembershipState, self_target: bool) -> bool {
    let state = s3_state(JoinRule::Invite);
    let target_id = if self_target { "@alice:foo" } else { "@bob:foo" };
    let current_event = current.map(|m| member_event("CUR", target_id, m));
    let sender_event = member_event("IMA", "@alice:foo", MembershipState::Join);
    let pl = pdu("$pl:foo", "@alice:foo", "!test:foo", EventType::RoomPowerLevels, Some(""),
        pl_content(levels(&[("@alice:foo", 100)])), &[]);
    valid_membership_change(
        &user(target_id),
        current_event.as_ref(),
        &alice(),
        if self_target { current_event.as_ref() } else { Some(&sender_event) },
        &member_content(target),
        None,
        None,
        Some(&pl),
        state.get(&EventType::RoomJoinRules, ""),
    )
    .unwrap()
}

#[test]
fn membership_lattice_for_other_target() {
    // alice (joined, power 100) acts on bob (power 0); join rule is invite.
    let cases = [
        (Join, Join, false), (Leave, Join, false), (Invite, Join, false), (Ban, Join, false),
        (Join, Invite, false), (Leave, Invite, true), (Invite, Invite, true), (Ban, Invite, false),
        (Join, Leave, true), (Leave, Leave, true), (Invite, Leave, true), (Ban, Leave, true),
        (Join, Ban, true), (Leave, Ban, true), (Invite, Ban, true), (Ban, Ban, true),
    ];
    for (current, target, expected) in cases {
        assert_eq!(membership_verdict(Some(current), target, false), expected,
            "{:?} -> {:?}", current, target);
    }
    assert_eq!(membership_verdict(None, Invite, false), true);
}

#[test]
fn membership_lattice_for_self() {
    assert_eq!(membership_verdict(Some(Join), Join, true), true);
    assert_eq!(membership_verdict(Some(Join), Leave, true), true);
    assert_eq!(membership_verdict(Some(Join), Invite, true), false);
    assert_eq!(membership_verdict(Some(Join), Knock, true), false);
}

#[test]
fn bootstrap_join_after_create_allowed() {
    let create = create_event();
    let c = member_content(MembershipState::Join);
    let r = valid_membership_change(&alice(), None, &alice(), None, &c, Some(&create), None, None,
        None);
    assert_eq!(r.unwrap(), true);
}

#[test]
fn malformed_inputs_are_errors() {
    let bad_member = pdu("$bm:foo", "@alice:foo", "!test:foo", EventType::RoomMember,
        Some("@alice:foo"), Content::empty(), &[]);
    let c = member_content(MembershipState::Join);
    let r = valid_membership_change(&alice(), None, &alice(), Some(&bad_member), &c, None, None,
        None, None);
    assert_eq!(r.unwrap_err().kind(), ErrorKind::Deserialization);
    let r = valid_membership_change(&alice(), None, &alice(), None, &Content::empty(), None, None,
        None, None);
    assert_eq!(r.unwrap_err().kind(), ErrorKind::Deserialization);

    let mut state = s3_state(JoinRule::Public);
    let ev = pdu("$m:foo", "@bob:foo", "!test:foo", EventType::RoomMember, Some("not a user"),
        member_content(MembershipState::Join), &["$prev:foo"]);
    let err = auth_check(&v6(), &ev, None, None, &state).unwrap_err();
    assert_eq!(err.kind(), ErrorKind::InvalidPdu);
    assert!(matches!(err, Error::InvalidPdu(_)));

    state.insert(EventType::RoomMember, "@bob:foo".to_owned(), bad_member_for("@bob:foo"));
    let msg = message("@bob:foo", None, EventType::Custom("m.room.message".to_owned()));
    let err = auth_check(&v6(), &msg, None, None, &state).unwrap_err();
    assert_eq!(err.kind(), ErrorKind::Deserialization);
}

fn bad_member_for(who: &str) -> Pdu {
    pdu("$bad:foo", who, "!test:foo", EventType::RoomMember, Some(who), Content::empty(), &[])
}

#[test]
fn missing_create_or_membership_denies() {
    let state = StateMap::new();
    let msg = message("@bob:foo", None, EventType::Custom("m.room.message".to_owned()));
    assert_eq!(auth_check(&v6(), &msg, None, None, &state).unwrap(), false);
    let state = s3_state(JoinRule::Public);
    assert_eq!(auth_check(&v6(), &msg, None, None, &state).unwrap(), false);
    let mut no_key = bob_joins();
    no_key.state_key = None;
    assert_eq!(auth_check(&v6(), &no_key, None, None, &state).unwrap(), false);
    let mut no_membership = bob_joins();
    no_membership.content.membership = Field::Invalid;
    assert_eq!(auth_check(&v6(), &no_membership, None, None, &state).unwrap(), false);
}

#[test]
fn aliases_need_matching_server() {
    let state = s3_state(JoinRule::Public);
    let v1 = RoomVersion::new("1").unwrap();
    let ok = message("@bob:foo", Some("foo"), EventType::RoomAliases);
    let bad = message("@bob:foo", Some("bar"), EventType::RoomAliases);
    assert_eq!(auth_check(&v1, &ok, None, None, &state).unwrap(), true);
    assert_eq!(auth_check(&v1, &bad, None, None, &state).unwrap(), false);
}

#[test]
fn power_level_edits() {
    let v = v6();
    let old = pdu("$old:foo", "@alice:foo", "!test:foo", EventType::RoomPowerLevels, Some(""),
        pl_content(levels(&[("@alice:foo", 50), ("@bob:foo", 50), ("@carol:foo", 10)])), &[]);
    let edit = |users: &[(&str, i64)]| {
        pdu("$new:foo", "@alice:foo", "!test:foo", EventType::RoomPowerLevels, Some(""),
            pl_content(levels(users)), &[])
    };
    // raising carol to the sender's level is fine
    let e = edit(&[("@alice:foo", 50), ("@bob:foo", 50), ("@carol:foo", 50)]);
    assert_eq!(check_power_levels(&v, &e, Some(&old), 50), Some(true));
    // changing a peer at the sender's own level is not
    let e = edit(&[("@alice:foo", 50), ("@bob:foo", 0), ("@carol:foo", 10)]);
    assert_eq!(check_power_levels(&v, &e, Some(&old), 50), Some(false));
    // raising anyone above the sender is not
    let e = edit(&[("@alice:foo", 50), ("@bob:foo", 50), ("@carol:foo", 51)]);
    assert_eq!(check_power_levels(&v, &e, Some(&old), 50), Some(false));
    // lowering oneself is fine
    let e = edit(&[("@alice:foo", 10), ("@bob:foo", 50), ("@carol:foo", 10)]);
    assert_eq!(check_power_levels(&v, &e, Some(&old), 50), Some(true));
    // no previous power levels: allowed
    assert_eq!(check_power_levels(&v, &e, None, 50), Some(true));
    // a state key other than "" gives no verdict
    let mut keyed = edit(&[]);
    keyed.state_key = Some("x".to_owned());
    assert_eq!(check_power_levels(&v, &keyed, Some(&old), 50), None);
    // a scalar above the sender is refused
    let mut l = levels(&[("@alice:foo", 50), ("@bob:foo", 50), ("@carol:foo", 10)]);
    l.ban = 60;
    let e = pdu("$new:foo", "@alice:foo", "!test:foo", EventType::RoomPowerLevels, Some(""),
        pl_content(l), &[]);
    assert_eq!(check_power_levels(&v, &e, Some(&old), 50), Some(false));
    // a notification level above the sender is refused from version 6 on
    let mut l = levels(&[("@alice:foo", 50), ("@bob:foo", 50), ("@carol:foo", 10)]);
    l.notifications_room = 60;
    let e = pdu("$new:foo", "@alice:foo", "!test:foo", EventType::RoomPowerLevels, Some(""),
        pl_content(l), &[]);
    assert_eq!(check_power_levels(&v, &e, Some(&old), 50), Some(false));
    let v1 = RoomVersion::new("1").unwrap();
    assert_eq!(check_power_levels(&v1, &e, Some(&old), 50), Some(true));
}

#[test]
fn check_membership_reads_membership() {
    let joined = member_event("IMA", "@alice:foo", MembershipState::Join);
    assert!(check_membership(Some(&joined), MembershipState::Join));
    assert!(!check_membership(Some(&joined), MembershipState::Leave));
    assert!(!check_membership(None, MembershipState::Join));
    let bad = bad_member_for("@alice:foo");
    assert!(!check_membership(Some(&bad), MembershipState::Join));
}

#[test]
fn can_federate_reads_create_event() {
    let mut state = StateMap::new();
    assert!(!can_federate(&state));
    let mut create = create_event();
    state.insert(EventType::RoomCreate, String::new(), create_event());
    assert!(!can_federate(&state));
    create.content.federate = Field::Valid(true);
    state.insert(EventType::RoomCreate, String::new(), create);
    assert!(can_federate(&state));
    let mut refusing = create_event();
    refusing.content.federate = Field::Valid(false);
    state.insert(EventType::RoomCreate, String::new(), refusing);
    assert!(!can_federate(&state));
}

#[test]
fn third_party_invite_event_needs_invite_level() {
    let mut state = s3_state(JoinRule::Public);
    state.insert(
        EventType::RoomMember,
        "@bob:foo".to_owned(),
        member_event("IMB", "@bob:foo", MembershipState::Join),
    );
    let ev = tpi_event("tok", "@bob:foo", "k");
    assert_eq!(auth_check(&v6(), &ev, None, None, &state).unwrap(), false);
    let ev = tpi_event("tok", "@alice:foo", "k");
    assert_eq!(auth_check(&v6(), &ev, None, None, &state).unwrap(), true);
}

#[test]
fn redact_level_defaults() {
    let v1 = RoomVersion::new("1").unwrap();
    let other = redaction("$r:foo", Some("$x:bar"));
    let mut state = s3_state(JoinRule::Public);
    state.insert(
        EventType::RoomMember,
        "@bob:foo".to_owned(),
        member_event("IMB", "@bob:foo", MembershipState::Join),
    );
    // power levels without a `redact` field: the level needed is 0
    let mut c = pl_content(levels(&[("@alice:foo", 100)]));
    c.redact = Field::Absent;
    state.insert(
        EventType::RoomPowerLevels,
        String::new(),
        pdu("$pl:foo", "@alice:foo", "!test:foo", EventType::RoomPowerLevels, Some(""), c, &[]),
    );
    assert_eq!(auth_check(&v1, &other, None, None, &state).unwrap(), true);
    // a malformed `redact` field: the level needed is 50
    let mut c = pl_content(levels(&[("@alice:foo", 100)]));
    c.redact = Field::Invalid;
    state.insert(
        EventType::RoomPowerLevels,
        String::new(),
        pdu("$pl:foo", "@alice:foo", "!test:foo", EventType::RoomPowerLevels, Some(""), c, &[]),
    );
    assert_eq!(auth_check(&v1, &other, None, None, &state).unwrap(), false);
}

#[test]
fn creator_has_power_without_power_levels() {
    let mut state = StateMap::new();
    state.insert(EventType::RoomCreate, String::new(), create_event());
    state.insert(
        EventType::RoomMember,
        "@alice:foo".to_owned(),
        member_event("IMA", "@alice:foo", MembershipState::Join),
    );
    state.insert(
        EventType::RoomMember,
        "@bob:foo".to_owned(),
        member_event("IMB", "@bob:foo", MembershipState::Join),
    );
    let topic = || EventType::Custom("m.room.topic".to_owned());
    let by_alice = message("@alice:foo", Some(""), topic());
    let by_bob = message("@bob:foo", Some(""), topic());
    assert_eq!(auth_check(&v6(), &by_alice, None, None, &state).unwrap(), true);
    assert_eq!(auth_check(&v6(), &by_bob, None, None, &state).unwrap(), false);
}

#[test]
fn event_type_names() {
    assert!(matches!(EventType::from_name("m.room.member"), EventType::RoomMember));
    assert!(matches!(EventType::from_name("m.room.create"), EventType::RoomCreate));
    assert!(matches!(EventType::from_name("m.room.power_levels"), EventType::RoomPowerLevels));
    match EventType::from_name("m.room.message") {
        EventType::Custom(n) => assert_eq!(n, "m.room.message"),
        other => panic!("unexpected {:?}", other),
    }
}
