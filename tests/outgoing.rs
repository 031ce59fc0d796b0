use mah_core::json::Json;
use mah_core::message::{
    at, dice, face_from_id, face_from_name, forward, image_from_id, image_from_url,
    voice_from_base64, CustomForwardedMessage, ForwardDisplay, IncomingFaceNode, IncomingFileNode,
    IncomingForwardNode, IncomingForwardedMessage, IncomingImageNode, IncomingMarketFaceNode,
    IncomingMessageNode, IncomingShortVideoNode, IncomingVoiceNode, ImageType,
    OutgoingForwardedMessage, OutgoingMessageContents, OutgoingMessageNode, PlainNode,
    RefForwardedMessage, TryIntoOutgoingError,
};
use mah_core::types::{
    FileArgs, FileLocator, HandleMemberJoinRequestArgs, KickArgs, ListFileArgs,
    MemberJoinRequestOperation, MoveFileArgs,
};

fn get<'a>(j: &'a Json, key: &str) -> Option<&'a Json> {
    match j {
        Json::Object(es) => es.iter().find(|(k, _)| k == key).map(|(_, v)| v),
        _ => None,
    }
}

fn keys(j: &Json) -> Vec<String> {
    match j {
        Json::Object(es) => es.iter().map(|(k, _)| k.clone()).collect(),
        _ => panic!("expected an object"),
    }
}

fn get_str(j: &Json, key: &str) -> String {
    match get(j, key) {
        Some(Json::Str(s)) => s.clone(),
        other => panic!("expected a string under {key}, found {other:?}"),
    }
}

fn get_int(j: &Json, key: &str) -> i64 {
    match get(j, key) {
        Some(Json::Int(n)) => *n,
        other => panic!("expected an integer under {key}, found {other:?}"),
    }
}

fn image() -> IncomingImageNode {
    IncomingImageNode {
        image_id: "{ABC}.png".to_string(),
        url: "http://x/y".to_string(),
        width: 10,
        height: 20,
        size: 300,
        image_type: ImageType::Png,
        is_emoji: false,
    }
}

#[test]
fn face_round_trips_id_and_flag() {
    let n = IncomingMessageNode::Face(IncomingFaceNode { id: 14, name: "smile".to_string(), super_face: true });
    let o = n.to_outgoing().unwrap();
    let j = o.encode();
    assert_eq!(get_str(&j, "type"), "Face");
    assert_eq!(get_int(&j, "faceId"), 14);
    assert!(matches!(get(&j, "isSuperFace"), Some(Json::Bool(true))));
    assert!(get(&j, "name").is_none());
}

#[test]
fn image_round_trips_only_its_id() {
    let n = IncomingMessageNode::Image(image());
    let j = n.to_outgoing().unwrap().encode();
    assert_eq!(keys(&j), vec!["type", "imageId"]);
    assert_eq!(get_str(&j, "imageId"), "{ABC}.png");
}

#[test]
fn plain_round_trips_text() {
    let n = IncomingMessageNode::Plain(PlainNode { text: "hello".to_string() });
    let j = n.to_outgoing().unwrap().encode();
    assert_eq!(keys(&j), vec!["type", "text"]);
    assert_eq!(get_str(&j, "text"), "hello");
}

#[test]
fn voice_does_not_convert() {
    let n = IncomingMessageNode::Voice(IncomingVoiceNode {
        voice_id: "v".to_string(),
        url: "u".to_string(),
        length_secs: 3,
    });
    assert_eq!(n.to_outgoing().unwrap_err(), TryIntoOutgoingError);
}

#[test]
fn market_face_does_not_convert() {
    let n = IncomingMessageNode::MarketFace(IncomingMarketFaceNode { id: 1, name: "m".to_string() });
    assert!(n.to_outgoing().is_err());
}

#[test]
fn file_does_not_convert() {
    let n = IncomingMessageNode::File(IncomingFileNode { id: "/f".to_string(), name: "f".to_string(), size: 1 });
    assert!(n.to_outgoing().is_err());
}

#[test]
fn short_video_does_not_convert() {
    let n = IncomingMessageNode::ShortVideo(IncomingShortVideoNode {
        video_id: "v".to_string(),
        name: "n".to_string(),
        size: 1,
        video_type: "mp4".to_string(),
        url: None,
        md5: "m".to_string(),
    });
    assert!(n.to_outgoing().is_err());
}

fn forwarded(nodes: Vec<IncomingMessageNode>) -> IncomingForwardedMessage {
    IncomingForwardedMessage { sender_id: 5, sender_name: "five".to_string(), time: 99, quote: None, nodes }
}

#[test]
fn forward_with_voice_does_not_convert() {
    let inner = IncomingMessageNode::Voice(IncomingVoiceNode {
        voice_id: "v".to_string(),
        url: "u".to_string(),
        length_secs: 3,
    });
    let n = IncomingMessageNode::Forward(IncomingForwardNode {
        messages: vec![forwarded(vec![IncomingMessageNode::Plain(PlainNode { text: "ok".to_string() })]), forwarded(vec![inner])],
    });
    assert_eq!(n.to_outgoing().unwrap_err(), TryIntoOutgoingError);
}

#[test]
fn nested_forward_with_file_does_not_convert() {
    let file = IncomingMessageNode::File(IncomingFileNode { id: "/f".to_string(), name: "f".to_string(), size: 1 });
    let inner = IncomingMessageNode::Forward(IncomingForwardNode { messages: vec![forwarded(vec![file])] });
    let n = IncomingMessageNode::Forward(IncomingForwardNode { messages: vec![forwarded(vec![inner])] });
    assert!(n.to_outgoing().is_err());
}

#[test]
fn forward_converts_to_custom_messages() {
    let n = IncomingMessageNode::Forward(IncomingForwardNode {
        messages: vec![forwarded(vec![IncomingMessageNode::Image(image())])],
    });
    match n.to_outgoing().unwrap() {
        OutgoingMessageNode::Forward(f) => {
            assert!(f.display.is_none());
            match &f.messages[0] {
                OutgoingForwardedMessage::Custom(c) => {
                    assert_eq!((c.sender_id, c.sender_name.as_str(), c.time), (5, "five", Some(99)));
                    assert_eq!(c.nodes.len(), 1);
                }
                _ => panic!("expected a custom message"),
            }
            let j = OutgoingMessageNode::Forward(f).encode();
            assert_eq!(keys(&j), vec!["type", "nodeList"]);
            assert!(get(&j, "display").is_none());
            match get(&j, "nodeList") {
                Some(Json::Array(v)) => {
                    assert_eq!(keys(&v[0]), vec!["senderId", "time", "senderName", "messageChain"]);
                    assert_eq!(get_int(&v[0], "time"), 99);
                }
                _ => panic!("expected a node list"),
            }
        }
        _ => panic!("expected a forward"),
    }
}

#[test]
fn ref_forwarded_message_encoding() {
    let with_context = OutgoingForwardedMessage::Ref(RefForwardedMessage { context: Some(3), id: 4 }).encode();
    assert_eq!(keys(&with_context), vec!["messageRef"]);
    let inner = get(&with_context, "messageRef").unwrap();
    assert_eq!((get_int(inner, "target"), get_int(inner, "messageId")), (3, 4));
    let bare = OutgoingForwardedMessage::Ref(RefForwardedMessage { context: None, id: 4 }).encode();
    assert_eq!(keys(&bare), vec!["messageId"]);
    let custom = OutgoingForwardedMessage::Custom(CustomForwardedMessage {
        sender_id: 1,
        sender_name: "a".to_string(),
        time: None,
        nodes: vec![],
    })
    .encode();
    assert_eq!(keys(&custom), vec!["senderId", "senderName", "messageChain"]);
}

#[test]
fn forward_display_writes_only_set_fields() {
    let display = ForwardDisplay {
        brief: None,
        preview: Some(vec!["a".to_string(), "b".to_string()]),
        source: None,
        summary: Some("s".to_string()),
        title: None,
    };
    let j = display.encode();
    assert_eq!(keys(&j), vec!["preview", "summary"]);
    assert_eq!(get_str(&j, "summary"), "s");
    let node = OutgoingMessageNode::Forward(forward(vec![], Some(display))).encode();
    assert_eq!(keys(&node), vec!["type", "nodeList", "display"]);
    let empty = ForwardDisplay { brief: None, preview: None, source: None, summary: None, title: None };
    assert!(keys(&empty.encode()).is_empty());
}

#[test]
fn constructors_encode() {
    assert_eq!(get_int(&OutgoingMessageNode::At(at(7)).encode(), "target"), 7);
    assert_eq!(get_int(&OutgoingMessageNode::Dice(dice(6)).encode(), "value"), 6);
    assert_eq!(get_str(&OutgoingMessageNode::Face(face_from_name("hi".to_string())).encode(), "name"), "hi");
    assert_eq!(get_int(&OutgoingMessageNode::Face(face_from_id(3).to_super_face(true)).encode(), "faceId"), 3);
    assert_eq!(get_str(&OutgoingMessageNode::Image(image_from_id("i".to_string())).encode(), "imageId"), "i");
    assert_eq!(get_str(&OutgoingMessageNode::Image(image_from_url("u".to_string())).encode(), "url"), "u");
    assert_eq!(get_str(&OutgoingMessageNode::Voice(voice_from_base64("b".to_string())).encode(), "base64"), "b");
    assert_eq!(get_str(&OutgoingMessageNode::from("text".to_string()).encode(), "text"), "text");
    let f = forward(vec![], None);
    assert!(f.messages.is_empty());
}

#[test]
fn contents_omit_absent_quote() {
    let c = OutgoingMessageContents::new(vec![OutgoingMessageNode::from("a".to_string())]);
    assert_eq!(keys(&c.encode()), vec!["messageChain"]);
    let q = c.quote_id(Some(8));
    let j = q.encode();
    assert_eq!(keys(&j), vec!["quote", "messageChain"]);
    assert_eq!(get_int(&j, "quote"), 8);
}

#[test]
fn empty_id_locator_omits_id() {
    let j = FileLocator::Id(String::new()).encode();
    assert!(keys(&j).is_empty());
    let root = FileLocator::root().encode();
    assert!(keys(&root).is_empty());
}

#[test]
fn id_locator_writes_id() {
    let j = FileLocator::Id("/x".to_string()).encode();
    assert_eq!(keys(&j), vec!["id"]);
    assert_eq!(get_str(&j, "id"), "/x");
}

#[test]
fn path_locator_always_writes_path() {
    let j = FileLocator::Path(String::new()).encode();
    assert_eq!(keys(&j), vec!["path"]);
    assert_eq!(get_str(&j, "path"), "");
}

#[test]
fn file_args_flatten_locator() {
    let j = FileArgs { file: FileLocator::root(), target: 5 }.encode();
    assert_eq!(keys(&j), vec!["target"]);
    let j = ListFileArgs {
        directory: FileLocator::Path("/p".to_string()),
        target: 5,
        offset: 0,
        size: Some(10),
        with_download_info: true,
    }
    .encode();
    assert_eq!(keys(&j), vec!["path", "target", "size", "withDownloadInfo"]);
    let j = MoveFileArgs { file: FileLocator::Id("/a".to_string()), target: 1, move_to: FileLocator::root() }.encode();
    assert_eq!(keys(&j), vec!["id", "target", "moveTo"]);
    assert_eq!(get_str(&j, "moveTo"), "");
}

#[test]
fn kick_omits_unset_fields() {
    let j = KickArgs { target: 1, member_id: 2, block: false, msg: String::new() }.encode();
    assert_eq!(keys(&j), vec!["target", "memberId"]);
    let j = KickArgs { target: 1, member_id: 2, block: true, msg: "bye".to_string() }.encode();
    assert_eq!(keys(&j), vec!["target", "memberId", "block", "msg"]);
}

#[test]
fn request_answer_codes() {
    let j = HandleMemberJoinRequestArgs {
        event_id: 1,
        from_id: 2,
        group_id: 3,
        operation: MemberJoinRequestOperation::IgnoreAndBlock,
        message: "m".to_string(),
    }
    .encode();
    assert_eq!(keys(&j), vec!["eventId", "fromId", "groupId", "operate", "message"]);
    assert_eq!(get_int(&j, "operate"), 4);
}
