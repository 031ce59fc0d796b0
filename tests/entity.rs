use std::time::Duration;

use mah_core::adapter::{validate, Error, REJECTED_CODE};
use mah_core::event::BotMuteEvent;
use mah_core::json::Json;
use mah_core::message::{IncomingMessageContents, IncomingVoiceNode};
use mah_core::types::SendMessageResult;
use mah_core::{
    Announcement, AnnouncementImage, AnyUserHandle, Bot, Command, GroupConfigUpdate,
    MemberInfoUpdate, Profile, Sex,
};

fn obj(entries: Vec<(&str, Json)>) -> Json {
    Json::Object(entries.into_iter().map(|(k, v)| (k.to_string(), v)).collect())
}

#[test]
fn handles_keep_their_ids() {
    let group = Bot.get_group(10);
    assert_eq!(group.id(), 10);
    let member = group.get_member(20);
    assert_eq!(member.id(), 20);
    assert_eq!(member.group(), group);
    assert_eq!(Bot.get_message(3, 4).id(), 3);
    assert_eq!(Bot.get_message(3, 4).context(), 4);
    assert_eq!(group.get_files_root().id(), "");
    assert_eq!(group.get_announcement("a".to_string()).id(), "a");
    assert_eq!(Bot.get_user(5), Bot.get_friend(5).to_user());
    assert_eq!(Bot.get_stranger(6).to_member(group), group.get_member(6));
    assert_eq!(Bot.get_other_client(9).id(), 9);
}

#[test]
fn avatar_url_names_the_user() {
    assert_eq!(Bot.get_user(12345).avatar_url(), "https://q1.qlogo.cn/g?b=qq&nk=12345&s=640");
}

#[test]
fn durations_are_whole_seconds() {
    let voice = IncomingVoiceNode { voice_id: "v".to_string(), url: "u".to_string(), length_secs: 7 };
    assert_eq!(voice.length(), Duration::from_secs(7));
}

#[test]
fn bot_mute_duration() {
    let j = obj(vec![
        ("durationSeconds", Json::Int(60)),
        (
            "operator",
            obj(vec![
                ("id", Json::Int(1)),
                ("memberName", Json::Str("m".to_string())),
                ("specialTitle", Json::Str(String::new())),
                ("permission", Json::Str("OWNER".to_string())),
                ("joinTimestamp", Json::Int(0)),
                ("lastSpeakTimestamp", Json::Int(0)),
                ("muteTimeRemaining", Json::Int(0)),
                (
                    "group",
                    obj(vec![
                        ("id", Json::Int(2)),
                        ("name", Json::Str("g".to_string())),
                        ("permission", Json::Str("MEMBER".to_string())),
                    ]),
                ),
            ]),
        ),
    ]);
    let e = BotMuteEvent::decode(&j).unwrap();
    assert_eq!(e.duration(), Duration::from_secs(60));
    assert_eq!(e.operator.handle().group().id(), 2);
}

#[test]
fn profile_decode() {
    let j = obj(vec![
        ("nickname", Json::Str("n".to_string())),
        ("email", Json::Str("e".to_string())),
        ("age", Json::Int(20)),
        ("level", Json::Int(3)),
        ("sign", Json::Str("s".to_string())),
        ("sex", Json::Str("FEMALE".to_string())),
    ]);
    let p = Profile::decode(&j).unwrap();
    assert_eq!(p.sex, Sex::Female);
    assert_eq!(p.age, 20);
}

#[test]
fn error_shape_is_a_rejection() {
    let j = obj(vec![("code", Json::Int(3)), ("msg", Json::Str("bad".to_string()))]);
    let e = validate(&j).unwrap_err();
    assert_eq!(e.code, 3);
    assert_eq!(e.to_string(), "bad");
    let no_msg = obj(vec![("code", Json::Int(5))]);
    assert_eq!(validate(&no_msg).unwrap_err().message, "");
}

#[test]
fn zero_code_is_no_rejection() {
    let j = obj(vec![("code", Json::Int(0)), ("msg", Json::Str(String::new())), ("data", Json::Int(1))]);
    assert!(validate(&j).is_ok());
    assert!(Error::decode(&j).is_err());
}

#[test]
fn rejected_send() {
    let e = SendMessageResult { message_id: -1 }.into_result().unwrap_err();
    assert_eq!(e.code, REJECTED_CODE);
    assert_eq!(e.message, "message was rejected");
    assert_eq!(SendMessageResult { message_id: 4 }.into_result(), Ok(4));
}

#[test]
fn builders_set_fields() {
    let a = Announcement::new("hi".to_string())
        .pinned(true)
        .show_popup(true)
        .image(Some(AnnouncementImage::Url("u".to_string())));
    assert!(a.pinned && a.show_popup && !a.send_to_new_member);
    match a.encode() {
        Json::Object(es) => {
            let keys: Vec<&str> = es.iter().map(|(k, _)| k.as_str()).collect();
            assert_eq!(keys, vec!["content", "pinned", "showPopup", "imageUrl"]);
        }
        _ => panic!("expected an object"),
    }
    let c = Command::new("c".to_string()).alias(vec!["x".to_string()]).usage(Some("u".to_string()));
    match c.encode() {
        Json::Object(es) => {
            let keys: Vec<&str> = es.iter().map(|(k, _)| k.as_str()).collect();
            assert_eq!(keys, vec!["name", "alias", "usage"]);
        }
        _ => panic!("expected an object"),
    }
    let g = GroupConfigUpdate::new().allow_member_invite(Some(true));
    match g.encode() {
        Json::Object(es) => assert_eq!(es.len(), 1),
        _ => panic!("expected an object"),
    }
    let m = MemberInfoUpdate::default().special_title(Some("t".to_string()));
    assert_eq!(m.special_title.as_deref(), Some("t"));
    assert!(m.name.is_none());
}

#[test]
fn poll_interval_defaults_to_fifty_millis() {
    let config = mah_core::pump::HttpAdapterEvents::new();
    assert_eq!(config.get_poll_interval(), Duration::from_millis(50));
    assert_eq!(config.get_buffer(), 1);
    assert_eq!(config.get_batch_size(), None);
}

#[test]
fn times_count_from_the_epoch() {
    let details = mah_core::AnnouncementDetails {
        id: "a".to_string(),
        contents: "c".to_string(),
        publisher_id: 1,
        publication_time_secs: 100,
        confirmed_count: 0,
        all_confirmed: false,
        group: mah_core::GroupDetails {
            id: 1,
            name: "g".to_string(),
            permission: mah_core::MemberPermission::Owner,
        },
    };
    assert_eq!(
        details.publication_time(),
        Some(std::time::SystemTime::UNIX_EPOCH + Duration::from_secs(100))
    );
    assert_eq!(details.handle().group().id(), 1);
}

#[test]
fn avatar_url_of_negative_and_small_ids() {
    assert_eq!(Bot.get_user(0).avatar_url(), "https://q1.qlogo.cn/g?b=qq&nk=0&s=640");
    assert_eq!(Bot.get_user(-42).avatar_url(), "https://q1.qlogo.cn/g?b=qq&nk=-42&s=640");
    assert_eq!(
        Bot.get_user(i64::MIN).avatar_url(),
        format!("https://q1.qlogo.cn/g?b=qq&nk={}&s=640", i64::MIN)
    );
    assert_eq!(
        Bot.get_user(i64::MAX).avatar_url(),
        format!("https://q1.qlogo.cn/g?b=qq&nk={}&s=640", i64::MAX)
    );
}

#[test]
fn message_time_is_present_for_a_source_time() {
    let c = IncomingMessageContents { id: Some(1), time_secs: Some(1_000), quote: None, nodes: vec![] };
    assert_eq!(c.time(), Some(std::time::SystemTime::UNIX_EPOCH + Duration::from_secs(1_000)));
    let none = IncomingMessageContents { id: None, time_secs: None, quote: None, nodes: vec![] };
    assert!(none.time().is_none());
}

#[test]
fn announcement_flags_are_written_as_true() {
    let a = Announcement::new("hi".to_string()).send_to_new_member(true).require_confirmation(true);
    match a.encode() {
        Json::Object(es) => {
            assert_eq!(es.len(), 3);
            assert!(matches!(es[1].1, Json::Bool(true)));
            assert!(matches!(es[2].1, Json::Bool(true)));
        }
        _ => panic!("expected an object"),
    }
}

#[test]
fn member_join_time_counts_from_the_epoch() {
    let m = mah_core::MemberDetails {
        id: 1,
        member_name: "m".to_string(),
        special_title: String::new(),
        permission: mah_core::MemberPermission::Member,
        join_time_secs: 60,
        last_speak_time_secs: 0,
        mute_time_remaining_secs: 5,
        group: mah_core::GroupDetails { id: 2, name: "g".to_string(), permission: mah_core::MemberPermission::Member },
    };
    assert_eq!(m.join_time(), Some(std::time::SystemTime::UNIX_EPOCH + Duration::from_secs(60)));
    assert_eq!(m.mute_time_remaining(), Duration::from_secs(5));
}
