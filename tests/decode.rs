use mah_core::event::{CommandSource, Event, MessageOrEvent};
use mah_core::json::{DecodeError, Json};
use mah_core::message::{
    AnyMessage, AnyQuotedMessage, IncomingMessageContents, IncomingMessageNode, Message,
    QuotedMessage,
};
use mah_core::{AnyUserHandle, FileDetails, GroupDetails, MemberPermission};

fn s(x: &str) -> Json {
    Json::Str(x.to_string())
}

fn obj(entries: Vec<(&str, Json)>) -> Json {
    Json::Object(entries.into_iter().map(|(k, v)| (k.to_string(), v)).collect())
}

fn group(id: i64) -> Json {
    obj(vec![("id", Json::Int(id)), ("name", s("g")), ("permission", s("MEMBER"))])
}

fn user(id: i64) -> Json {
    obj(vec![("id", Json::Int(id)), ("nickname", s("n")), ("remark", s("r"))])
}

fn member(id: i64, group_id: i64) -> Json {
    obj(vec![
        ("id", Json::Int(id)),
        ("memberName", s("m")),
        ("specialTitle", s("")),
        ("permission", s("ADMINISTRATOR")),
        ("joinTimestamp", Json::Int(1)),
        ("lastSpeakTimestamp", Json::Int(2)),
        ("muteTimeRemaining", Json::Int(0)),
        ("group", group(group_id)),
    ])
}

fn source(id: i64, time: i64) -> Json {
    obj(vec![("type", s("Source")), ("id", Json::Int(id)), ("time", Json::Int(time))])
}

fn plain(text: &str) -> Json {
    obj(vec![("type", s("Plain")), ("text", s(text))])
}

fn quote(id: i64, group_id: i64) -> Json {
    obj(vec![
        ("type", s("Quote")),
        ("id", Json::Int(id)),
        ("senderId", Json::Int(11)),
        ("targetId", Json::Int(22)),
        ("groupId", Json::Int(group_id)),
        ("origin", Json::Array(vec![plain("quoted")])),
    ])
}

#[test]
fn group_details_decode() {
    let d = GroupDetails::decode(&group(7)).unwrap();
    assert_eq!(d.id, 7);
    assert_eq!(d.name, "g");
    assert_eq!(d.permission, MemberPermission::Member);
}

#[test]
fn unknown_permission_is_an_error() {
    let j = obj(vec![("id", Json::Int(7)), ("name", s("g")), ("permission", s("BOSS"))]);
    assert!(GroupDetails::decode(&j).is_err());
}

#[test]
fn missing_field_is_an_error() {
    let j = obj(vec![("id", Json::Int(7)), ("name", s("g"))]);
    assert_eq!(GroupDetails::decode(&j).unwrap_err(), DecodeError::MissingField);
}

#[test]
fn out_of_range_i32_is_an_error() {
    let j = obj(vec![("type", s("Dice")), ("value", Json::Int(1 << 40))]);
    assert!(IncomingMessageNode::decode(&j).is_err());
}

#[test]
fn zero_message_id_is_absent() {
    let c = IncomingMessageContents::decode(&Json::Array(vec![source(0, 100), plain("hi")])).unwrap();
    assert_eq!(c.id, None);
    assert_eq!(c.time_secs, Some(100));
    assert_eq!(c.nodes.len(), 1);
}

#[test]
fn nonzero_message_id_is_present() {
    let c = IncomingMessageContents::decode(&Json::Array(vec![source(42, 100), plain("hi")])).unwrap();
    assert_eq!(c.id, Some(42));
}

#[test]
fn chain_without_source_has_no_id_or_time() {
    let c = IncomingMessageContents::decode(&Json::Array(vec![plain("a"), plain("b")])).unwrap();
    assert_eq!(c.id, None);
    assert_eq!(c.time_secs, None);
    assert!(c.quote.is_none());
    assert_eq!(c.nodes.len(), 2);
    assert!(c.time().is_none());
}

#[test]
fn duplicate_source_is_an_error() {
    let r = IncomingMessageContents::decode(&Json::Array(vec![source(1, 1), source(2, 2)]));
    assert_eq!(r.unwrap_err(), DecodeError::DuplicateSource);
}

#[test]
fn duplicate_quote_is_an_error() {
    let r = IncomingMessageContents::decode(&Json::Array(vec![quote(1, 0), quote(2, 0)]));
    assert_eq!(r.unwrap_err(), DecodeError::DuplicateQuote);
}

#[test]
fn quote_with_zero_group_is_user_quote() {
    let c = IncomingMessageContents::decode(&Json::Array(vec![source(5, 1), quote(9, 0), plain("x")]))
        .unwrap();
    match c.quote.as_ref().unwrap() {
        QuotedMessage::User(u) => {
            assert_eq!(u.receiver_id, 22);
            assert_eq!(u.sender_id, 11);
            assert_eq!(u.contents.id, Some(9));
        }
        QuotedMessage::Group(_) => panic!("expected a user quote"),
    }
    let q = c.quote.unwrap();
    assert_eq!(q.handle().unwrap().context(), 11);
    assert_eq!(q.nodes().len(), 1);
}

#[test]
fn quote_with_group_is_group_quote() {
    let c = IncomingMessageContents::decode(&Json::Array(vec![quote(9, 33)])).unwrap();
    match c.quote.unwrap() {
        QuotedMessage::Group(g) => {
            assert_eq!(g.context_id, 22);
            assert_eq!(g.handle().unwrap().context(), 22);
        }
        QuotedMessage::User(_) => panic!("expected a group quote"),
    }
}

#[test]
fn zero_quote_id_is_absent() {
    let c = IncomingMessageContents::decode(&Json::Array(vec![quote(0, 33)])).unwrap();
    let q = c.quote.unwrap();
    assert_eq!(q.id(), None);
    assert!(q.handle().is_none());
}

#[test]
fn unknown_node_tag_is_an_error() {
    let r = IncomingMessageContents::decode(&Json::Array(vec![obj(vec![("type", s("Sparkle"))])]));
    assert_eq!(r.unwrap_err(), DecodeError::UnknownTag);
}

#[test]
fn file_node_id_gets_leading_slash() {
    let j = obj(vec![("type", s("File")), ("id", s("abc")), ("name", s("f")), ("size", Json::Int(3))]);
    match IncomingMessageNode::decode(&j).unwrap() {
        IncomingMessageNode::File(f) => assert_eq!(f.id, "/abc"),
        _ => panic!("expected a file"),
    }
}

#[test]
fn file_node_id_with_slash_is_kept() {
    let j = obj(vec![("type", s("File")), ("id", s("/abc")), ("name", s("f")), ("size", Json::Int(3))]);
    match IncomingMessageNode::decode(&j).unwrap() {
        IncomingMessageNode::File(f) => assert_eq!(f.id, "/abc"),
        _ => panic!("expected a file"),
    }
}

#[test]
fn forward_node_decodes_nested_messages() {
    let fm = obj(vec![
        ("senderId", Json::Int(1)),
        ("time", Json::Int(2)),
        ("senderName", s("a")),
        ("messageChain", Json::Array(vec![source(3, 4), plain("inner")])),
    ]);
    let j = obj(vec![("type", s("Forward")), ("nodeList", Json::Array(vec![fm]))]);
    match IncomingMessageNode::decode(&j).unwrap() {
        IncomingMessageNode::Forward(f) => {
            assert_eq!(f.messages.len(), 1);
            assert_eq!(f.messages[0].sender_name, "a");
            assert_eq!(f.messages[0].nodes.len(), 1);
            assert_eq!(f.messages[0].sender().id(), 1);
        }
        _ => panic!("expected a forward"),
    }
}

#[test]
fn group_message_decodes_with_handle() {
    let j = obj(vec![
        ("type", s("GroupMessage")),
        ("sender", member(5, 77)),
        ("messageChain", Json::Array(vec![source(12, 1000), plain("hello")])),
    ]);
    match MessageOrEvent::decode(&j).unwrap() {
        MessageOrEvent::Message(Message::Group(m)) => {
            assert_eq!(m.context().id, 77);
            let h = m.handle().unwrap();
            assert_eq!(h.id(), 12);
            assert_eq!(h.context(), 77);
            assert_eq!(m.id(), Some(12));
            assert_eq!(m.time_secs(), Some(1000));
            assert_eq!(m.nodes().len(), 1);
        }
        _ => panic!("expected a group message"),
    }
}

#[test]
fn message_with_zero_id_has_no_handle() {
    let j = obj(vec![
        ("type", s("FriendMessage")),
        ("sender", user(3)),
        ("messageChain", Json::Array(vec![source(0, 1)])),
    ]);
    let m = Message::decode(&j).unwrap();
    assert!(m.handle().is_none());
    assert_eq!(m.id(), None);
}

#[test]
fn unknown_type_is_an_error() {
    let j = obj(vec![("type", s("MysteryEvent"))]);
    assert_eq!(MessageOrEvent::decode(&j).unwrap_err(), DecodeError::UnknownTag);
}

fn nudge(kind: &str, subject: Json) -> Json {
    let mut entries = match subject {
        Json::Object(es) => es,
        _ => unreachable!(),
    };
    entries.push(("kind".to_string(), s(kind)));
    obj(vec![
        ("type", s("NudgeEvent")),
        ("fromId", Json::Int(1)),
        ("target", Json::Int(2)),
        ("subject", Json::Object(entries)),
        ("action", s("poke")),
        ("suffix", s("!")),
    ])
}

#[test]
fn nudge_with_group_subject_is_group_nudge() {
    match MessageOrEvent::decode(&nudge("Group", group(9))).unwrap() {
        MessageOrEvent::Event(Event::GroupNudge(e)) => {
            assert_eq!(e.context.id, 9);
            assert_eq!(e.from_id, 1);
            assert_eq!(e.to_id, 2);
            assert_eq!(e.from().group().id(), 9);
        }
        _ => panic!("expected a group nudge"),
    }
}

#[test]
fn nudge_with_friend_subject_is_friend_nudge() {
    match MessageOrEvent::decode(&nudge("Friend", user(4))).unwrap() {
        MessageOrEvent::Event(Event::FriendNudge(e)) => assert_eq!(e.context.0.id, 4),
        _ => panic!("expected a friend nudge"),
    }
}

#[test]
fn nudge_with_stranger_subject_is_stranger_nudge() {
    match MessageOrEvent::decode(&nudge("Stranger", user(4))).unwrap() {
        MessageOrEvent::Event(Event::StrangerNudge(e)) => assert_eq!(e.context.0.id, 4),
        _ => panic!("expected a stranger nudge"),
    }
}

#[test]
fn nudge_with_unknown_subject_is_an_error() {
    assert!(MessageOrEvent::decode(&nudge("Planet", user(4))).is_err());
}

fn command(friend: Json, member_value: Json) -> Json {
    obj(vec![
        ("type", s("CommandExecutedEvent")),
        ("name", s("help")),
        ("args", Json::Array(vec![plain("x")])),
        ("friend", friend),
        ("member", member_value),
    ])
}

#[test]
fn command_source_friend() {
    match Event::decode(&command(user(8), Json::Null)).unwrap() {
        Event::CommandExecuted(e) => {
            assert!(matches!(e.source, CommandSource::Friend(ref f) if f.0.id == 8));
            assert_eq!(e.args.len(), 1);
            assert_eq!(e.name, "help");
        }
        _ => panic!("expected a command"),
    }
}

#[test]
fn command_source_member() {
    match Event::decode(&command(Json::Null, member(6, 2))).unwrap() {
        Event::CommandExecuted(e) => {
            assert!(matches!(e.source, CommandSource::Member(ref m) if m.id == 6))
        }
        _ => panic!("expected a command"),
    }
}

#[test]
fn command_source_console() {
    match Event::decode(&command(Json::Null, Json::Null)).unwrap() {
        Event::CommandExecuted(e) => assert_eq!(e.source, CommandSource::Console),
        _ => panic!("expected a command"),
    }
}

#[test]
fn command_source_both_is_an_error() {
    let j = command(user(8), member(6, 2));
    assert_eq!(CommandSource::decode(&j).unwrap_err(), DecodeError::ConflictingFields);
    assert!(Event::decode(&j).is_err());
}

#[test]
fn friend_recall_zero_id_is_absent() {
    let j = obj(vec![
        ("type", s("FriendRecallEvent")),
        ("messageId", Json::Int(0)),
        ("authorId", Json::Int(3)),
        ("time", Json::Int(5)),
    ]);
    match Event::decode(&j).unwrap() {
        Event::FriendMessageRecall(e) => assert!(e.message().is_none()),
        _ => panic!("expected a recall"),
    }
}

#[test]
fn group_recall_nonzero_id_is_present() {
    let j = obj(vec![
        ("type", s("GroupRecallEvent")),
        ("messageId", Json::Int(15)),
        ("group", group(4)),
        ("authorId", Json::Int(3)),
        ("time", Json::Int(5)),
    ]);
    match Event::decode(&j).unwrap() {
        Event::GroupMessageRecall(e) => {
            let h = e.message().unwrap();
            assert_eq!((h.id(), h.context()), (15, 4));
            assert!(e.is_operator());
        }
        _ => panic!("expected a recall"),
    }
}

#[test]
fn operator_present_is_not_bot() {
    let j = obj(vec![
        ("type", s("MemberUnmuteEvent")),
        ("member", member(1, 2)),
        ("operator", member(3, 2)),
    ]);
    match Event::decode(&j).unwrap() {
        Event::MemberUnmute(e) => assert!(!e.is_operator()),
        _ => panic!("expected an unmute"),
    }
}

#[test]
fn confess_talk_flag_is_kept() {
    let j = obj(vec![
        ("type", s("GroupAllowConfessTalkEvent")),
        ("group", group(2)),
        ("origin", Json::Bool(false)),
        ("current", Json::Bool(true)),
        ("isByBot", Json::Bool(true)),
    ]);
    match Event::decode(&j).unwrap() {
        Event::GroupAllowConfessTalk(e) => assert!(e.is_operator && e.current && !e.original),
        _ => panic!("expected a confess talk change"),
    }
}

#[test]
fn directory_entry_has_no_metadata() {
    let j = obj(vec![
        ("id", s("/d")),
        ("name", s("d")),
        ("path", s("/d")),
        ("parent", Json::Null),
        ("contact", group(1)),
        ("isFile", Json::Bool(false)),
        ("isDirectory", Json::Bool(true)),
        ("size", Json::Int(0)),
    ]);
    let d = FileDetails::decode(&j).unwrap();
    assert!(d.metadata.is_none());
    assert!(d.uploader().is_none());
}

#[test]
fn file_entry_with_missing_digest_is_an_error() {
    let j = obj(vec![
        ("id", s("/f")),
        ("name", s("f")),
        ("path", s("/f")),
        ("contact", group(1)),
        ("isFile", Json::Bool(true)),
        ("isDirectory", Json::Bool(false)),
        ("size", Json::Int(5)),
        ("md5", s("m")),
        ("uploaderId", Json::Int(1)),
        ("uploadTime", Json::Int(1)),
        ("lastModifyTime", Json::Int(1)),
    ]);
    assert_eq!(FileDetails::decode(&j).unwrap_err(), DecodeError::NotFileOrDirectory);
}

#[test]
fn file_entry_with_parent() {
    let parent = obj(vec![
        ("id", s("/d")),
        ("name", s("d")),
        ("path", s("/d")),
        ("contact", group(1)),
        ("isFile", Json::Bool(false)),
        ("isDirectory", Json::Bool(true)),
        ("size", Json::Int(0)),
    ]);
    let j = obj(vec![
        ("id", s("/d/f")),
        ("name", s("f")),
        ("path", s("/d/f")),
        ("parent", parent),
        ("contact", group(1)),
        ("isFile", Json::Bool(true)),
        ("isDirectory", Json::Bool(false)),
        ("size", Json::Int(5)),
        ("sha1", s("s")),
        ("md5", s("m")),
        ("uploaderId", Json::Int(44)),
        ("uploadTime", Json::Int(1)),
        ("lastModifyTime", Json::Int(2)),
    ]);
    let d = FileDetails::decode(&j).unwrap();
    assert_eq!(d.parent.as_ref().unwrap().id, "/d");
    assert_eq!(d.metadata.as_ref().unwrap().size, 5);
    let u = d.uploader().unwrap();
    assert_eq!(u.group().id(), 1);
    assert_eq!(u.id(), 44);
}
