use mah_core::event::{Event, MessageOrEvent};
use mah_core::json::Json;
use mah_core::message::{AnyMessage, Message};

fn s(x: &str) -> Json {
    Json::Str(x.to_string())
}

fn obj(entries: Vec<(&str, Json)>) -> Json {
    Json::Object(entries.into_iter().map(|(k, v)| (k.to_string(), v)).collect())
}

fn group(id: i64) -> Json {
    obj(vec![("id", Json::Int(id)), ("name", s("g")), ("permission", s("OWNER"))])
}

fn user(id: i64) -> Json {
    obj(vec![("id", Json::Int(id)), ("nickname", s("n")), ("remark", s("r"))])
}

fn member(id: i64) -> Json {
    obj(vec![
        ("id", Json::Int(id)),
        ("memberName", s("m")),
        ("specialTitle", s("t")),
        ("permission", s("MEMBER")),
        ("joinTimestamp", Json::Int(1)),
        ("lastSpeakTimestamp", Json::Int(2)),
        ("muteTimeRemaining", Json::Int(3)),
        ("group", group(50)),
    ])
}

fn tagged(tag: &str, mut rest: Vec<(&str, Json)>) -> Json {
    rest.insert(0, ("type", s(tag)));
    obj(rest)
}

fn event(j: Json) -> Event {
    match MessageOrEvent::decode(&j).unwrap() {
        MessageOrEvent::Event(e) => e,
        MessageOrEvent::Message(_) => panic!("expected an event"),
    }
}

#[test]
fn bot_state_tags() {
    assert!(matches!(event(tagged("BotOnlineEvent", vec![("qq", Json::Int(1))])), Event::BotOnline(e) if e.id == 1));
    assert!(matches!(event(tagged("BotOfflineEventActive", vec![("qq", Json::Int(1))])), Event::BotOfflineActive(_)));
    assert!(matches!(
        event(tagged("BotOfflineEventForce", vec![("qq", Json::Int(1)), ("title", s("t")), ("message", s("m"))])),
        Event::BotOfflineForced(_)
    ));
    assert!(matches!(event(tagged("BotOfflineEventDropped", vec![("qq", Json::Int(1))])), Event::BotOfflineDropped(_)));
    assert!(matches!(event(tagged("BotReloginEvent", vec![("qq", Json::Int(1))])), Event::BotRelogin(_)));
}

#[test]
fn group_tags() {
    assert!(matches!(
        event(tagged("BotLeaveEventKick", vec![("group", group(1)), ("operator", member(2))])),
        Event::BotLeaveGroupKicked(_)
    ));
    assert!(matches!(
        event(tagged("BotGroupPermissionChangeEvent", vec![("group", group(1)), ("origin", s("MEMBER")), ("current", s("ADMINISTRATOR"))])),
        Event::BotPermissionChange(_)
    ));
    assert!(matches!(
        event(tagged("BotJoinGroupEvent", vec![("group", group(1))])),
        Event::BotJoinGroup(e) if e.inviter.is_none()
    ));
    assert!(matches!(
        event(tagged("GroupMuteAllEvent", vec![("group", group(1)), ("origin", Json::Bool(false)), ("current", Json::Bool(true))])),
        Event::GroupMuteAll(e) if e.is_operator()
    ));
}

#[test]
fn member_tags() {
    assert!(matches!(
        event(tagged("MemberCardChangeEvent", vec![("member", member(1)), ("origin", s("a")), ("current", s("b"))])),
        Event::MemberNameChange(e) if e.current == "b"
    ));
    assert!(matches!(event(tagged("MemberLeaveEventQuit", vec![("member", member(1))])), Event::MemberLeaveActive(_)));
    assert!(matches!(
        event(tagged("MemberLeaveEventKick", vec![("member", member(1)), ("operator", Json::Null)])),
        Event::MemberLeaveKicked(e) if e.is_operator()
    ));
    assert!(matches!(
        event(tagged("MemberHonorChangeEvent", vec![("member", member(1)), ("action", s("achieve")), ("honor", s("龙王"))])),
        Event::MemberHonorChange(e) if e.honor == mah_core::GroupHonor::Talkative
    ));
    assert!(matches!(
        event(tagged("MemberMuteEvent", vec![("member", member(1)), ("durationSeconds", Json::Int(30))])),
        Event::MemberMute(e) if e.duration() == std::time::Duration::from_secs(30)
    ));
}

#[test]
fn friend_tags() {
    assert!(matches!(
        event(tagged("FriendInputStatusChangedEvent", vec![("friend", user(1)), ("inputting", Json::Bool(true))])),
        Event::FriendTyping(e) if e.typing
    ));
    assert!(matches!(
        event(tagged("FriendNickChangedEvent", vec![("friend", user(1)), ("from", s("a")), ("to", s("b"))])),
        Event::FriendNicknameChange(e) if e.original == "a"
    ));
    assert!(matches!(
        event(tagged("FriendAddEvent", vec![("friend", user(1)), ("stranger", Json::Bool(true))])),
        Event::FriendAdd(e) if e.was_stranger
    ));
}

#[test]
fn request_tags_and_answers() {
    let e = event(tagged(
        "MemberJoinRequestEvent",
        vec![
            ("eventId", Json::Int(1)),
            ("fromId", Json::Int(2)),
            ("nick", s("n")),
            ("groupId", Json::Int(3)),
            ("groupName", s("g")),
            ("invitorId", Json::Int(4)),
            ("message", s("please")),
        ],
    ));
    match e {
        Event::MemberJoinRequest(r) => {
            let inviter = r.inviter().unwrap();
            assert_eq!(inviter.group().id(), 3);
            let args = r.reject_args(Some("no".to_string()), true);
            assert_eq!(args.operation, mah_core::types::MemberJoinRequestOperation::RejectAndBlock);
            assert_eq!(args.message, "no");
        }
        _ => panic!("expected a join request"),
    }
    let e = event(tagged(
        "NewFriendRequestEvent",
        vec![
            ("eventId", Json::Int(1)),
            ("fromId", Json::Int(2)),
            ("nick", s("n")),
            ("groupId", Json::Int(0)),
            ("message", s("hi")),
        ],
    ));
    match e {
        Event::NewFriendRequest(r) => {
            assert!(r.group().is_none());
            assert_eq!(r.accept_args().operation, mah_core::types::NewFriendRequestOperation::Accept);
        }
        _ => panic!("expected a friend request"),
    }
}

#[test]
fn message_handles_follow_the_context() {
    let chain = Json::Array(vec![obj(vec![("type", s("Source")), ("id", Json::Int(9)), ("time", Json::Int(1))])]);
    let temp = Message::decode(&tagged("TempMessage", vec![("sender", member(7)), ("messageChain", chain_clone(&chain))])).unwrap();
    assert_eq!(temp.handle().unwrap().context(), 7);
    let sync = Message::decode(&tagged("GroupSyncMessage", vec![("subject", group(8)), ("messageChain", chain_clone(&chain))])).unwrap();
    assert_eq!(sync.handle().unwrap().context(), 8);
    let other = Message::decode(&tagged(
        "OtherClientMessage",
        vec![("sender", obj(vec![("id", Json::Int(5)), ("platform", s("pc"))])), ("messageChain", chain_clone(&chain))],
    ))
    .unwrap();
    assert!(other.handle().is_none());
    assert_eq!(other.id(), Some(9));
}

fn chain_clone(j: &Json) -> Json {
    match j {
        Json::Array(items) => Json::Array(items.iter().map(chain_clone).collect()),
        Json::Object(es) => Json::Object(es.iter().map(|(k, v)| (k.clone(), chain_clone(v))).collect()),
        Json::Str(x) => Json::Str(x.clone()),
        Json::Int(i) => Json::Int(*i),
        Json::Bool(b) => Json::Bool(*b),
        Json::Null => Json::Null,
        Json::OtherNumber => Json::OtherNumber,
    }
}
