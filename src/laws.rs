//! Laws that relate the decoders, the conversion to outgoing nodes and the
//! encoders.
use vstd::prelude::*;
use crate::json::{carries, carries_str, field_of, i32_of, int_of, object_is, value_at, Json};
use crate::message::{
    chain_source_matches, convertible, converts, encodes, forwarded_encodes, items_of, nonzero, quote_wire_matches,
    scan, chain_quote_matches, AnyMessage, AnyQuotedMessage, IncomingForwardNode,
    IncomingMessageNode, Message, OutgoingMessageNode, QuotedMessage,
};
use crate::event::{FriendMessageRecallEvent, GroupMessageRecallEvent};
use crate::pump::PullPump;
use crate::types::FileLocator;

verus! {

/// Converting an incoming node to its outgoing shape and encoding that
/// shape writes every field that the outgoing shape keeps, unchanged: the
/// mention target, the sticker id and flag, the text, the image id, the
/// card contents, the poke name, the die value, each field of a shared
/// piece of music, and for a forward chain the sender id, sender name and
/// time of every message, in order.
pub proof fn outgoing_encoding_keeps_fields(n: IncomingMessageNode, o: OutgoingMessageNode, j: Json)
    requires
        converts(n, o),
        encodes(o, j),
    ensures
        match n {
            IncomingMessageNode::At(a) => carries(j, "target"@, Json::Int(a.target_id)),
            IncomingMessageNode::Face(f) => carries(j, "faceId"@, Json::Int(f.id as i64)) && carries(
                j,
                "isSuperFace"@,
                Json::Bool(f.super_face),
            ),
            IncomingMessageNode::Plain(p) => carries_str(j, "text"@, p.text@),
            IncomingMessageNode::Image(i) => carries_str(j, "imageId"@, i.image_id@),
            IncomingMessageNode::Xml(x) => carries_str(j, "xml"@, x.contents@),
            IncomingMessageNode::App(a) => carries_str(j, "content"@, a.contents@),
            IncomingMessageNode::Poke(p) => carries_str(j, "name"@, p.name@),
            IncomingMessageNode::Dice(d) => carries(j, "value"@, Json::Int(d.value as i64)),
            IncomingMessageNode::MusicShare(m) => {
                &&& carries_str(j, "kind"@, m.kind@)
                &&& carries_str(j, "title"@, m.title@)
                &&& carries_str(j, "summary"@, m.summary@)
                &&& carries_str(j, "jumpUrl"@, m.jump_url@)
                &&& carries_str(j, "pictureUrl"@, m.picture_url@)
                &&& carries_str(j, "musicUrl"@, m.music_url@)
                &&& carries_str(j, "brief"@, m.brief@)
            },
            IncomingMessageNode::Forward(f) => carries_forwarded(j, f),
            _ => true,
        },
{
    if let Json::Object(es) = j {
        match n {
            IncomingMessageNode::At(_) => {
                assert(es@[1].0@ == "target"@);
            },
            IncomingMessageNode::Face(_) => {
                assert(es@[1].0@ == "faceId"@);
                assert(es@[2].0@ == "isSuperFace"@);
            },
            IncomingMessageNode::Plain(_) => {
                assert(es@[1].0@ == "text"@);
            },
            IncomingMessageNode::Image(_) => {
                assert(es@[1].0@ == "imageId"@);
            },
            IncomingMessageNode::Xml(_) => {
                assert(es@[1].0@ == "xml"@);
            },
            IncomingMessageNode::App(_) => {
                assert(es@[1].0@ == "content"@);
            },
            IncomingMessageNode::Poke(_) => {
                assert(es@[1].0@ == "name"@);
            },
            IncomingMessageNode::Dice(_) => {
                assert(es@[1].0@ == "value"@);
            },
            IncomingMessageNode::MusicShare(_) => {
                assert(es@[1].0@ == "kind"@);
                assert(es@[2].0@ == "title"@);
                assert(es@[3].0@ == "summary"@);
                assert(es@[4].0@ == "jumpUrl"@);
                assert(es@[5].0@ == "pictureUrl"@);
                assert(es@[6].0@ == "musicUrl"@);
                assert(es@[7].0@ == "brief"@);
            },
            IncomingMessageNode::Forward(f) => {
                let g = o->Forward_0;
                assert(es@[1].0@ == "nodeList"@);
                if let Json::Array(v) = value_at(j, 1) {
                    assert forall|i: int| 0 <= i < f.messages@.len() implies carries(
                        #[trigger] v@[i],
                        "senderId"@,
                        Json::Int(f.messages@[i].sender_id),
                    ) && carries(v@[i], "time"@, Json::Int(f.messages@[i].time as i64)) && carries_str(
                        v@[i],
                        "senderName"@,
                        f.messages@[i].sender_name@,
                    ) by {
                        assert(forwarded_encodes(g.messages@[i], v@[i]));
                        if let Json::Object(fs) = v@[i] {
                            assert(fs@[0].0@ == "senderId"@);
                            assert(fs@[1].0@ == "time"@);
                            assert(fs@[2].0@ == "senderName"@);
                        }
                    }
                }
            },
            _ => {},
        }
    }
}

/// The wire form `j` of a converted forward chain `f` holds, under
/// `nodeList`, one entry per message of `f` with its sender id, time and
/// sender name.
pub open spec fn carries_forwarded(j: Json, f: IncomingForwardNode) -> bool {
    &&& j matches Json::Object(es) && es@.len() > 1 && es@[1].0@ == "nodeList"@
    &&& value_at(j, 1) matches Json::Array(v) && v@.len() == f.messages@.len() && forall|i: int|
        0 <= i < f.messages@.len() ==> {
            &&& carries(#[trigger] v@[i], "senderId"@, Json::Int(f.messages@[i].sender_id))
            &&& carries(v@[i], "time"@, Json::Int(f.messages@[i].time as i64))
            &&& carries_str(v@[i], "senderName"@, f.messages@[i].sender_name@)
        }
}

/// Voice clips, market stickers, files and short videos have no outgoing
/// shape.
pub proof fn incoming_only_nodes_do_not_convert(n: IncomingMessageNode)
    requires
        n is Voice || n is MarketFace || n is File || n is ShortVideo,
    ensures
        !convertible(n),
{
}

/// A forward chain that holds, in any of its messages, a node without an
/// outgoing shape has none either: the failure is not skipped.
pub proof fn unconvertible_node_spoils_forward(f: IncomingForwardNode, i: int, k: int)
    requires
        0 <= i < f.messages@.len(),
        0 <= k < f.messages@[i].nodes@.len(),
        !convertible(f.messages@[i].nodes@[k]),
    ensures
        !convertible(IncomingMessageNode::Forward(f)),
{
}

/// The zero-sentinel rule for message ids: a decoded chain whose `Source`
/// carries id 0 has no id, and one that carries any other id has that id.
pub proof fn zero_message_id_is_absent(c: Json, id: Option<i32>, time_secs: Option<i32>)
    requires
        chain_source_matches(c, id, time_secs),
        scan(items_of(c), items_of(c).len() as int).0 is Some,
    ensures
        ({
            let si = scan(items_of(c), items_of(c).len() as int).0->Some_0;
            i32_of(field_of(items_of(c)[si], "id"@)) matches Some(w) && (w == 0 ==> id is None) && (w
                != 0 ==> id == Some(w))
        }),
{
}

/// The zero-sentinel rule for quote ids: a decoded quote whose wire id is
/// 0 has no id, and one with any other id has that id.
pub proof fn zero_quote_id_is_absent(q: Json, qm: QuotedMessage)
    requires
        quote_wire_matches(q, qm),
    ensures
        ({
            let id = match qm {
                QuotedMessage::Group(g) => g.contents.id,
                QuotedMessage::User(u) => u.contents.id,
            };
            i32_of(field_of(q, "id"@)) matches Some(w) && (w == 0 ==> id is None) && (w != 0 ==> id
                == Some(w))
        }),
{
}

/// The zero-sentinel rule itself: 0 is absent, any other id is present.
pub proof fn nonzero_is_zero_sentinel(n: i32)
    ensures
        nonzero(n) is None <==> n == 0,
        n != 0 ==> nonzero(n) == Some(n),
{
}

/// A locator made from the empty id, the root directory, is written as an
/// object without any entry.
pub proof fn root_locator_writes_no_id(id: String, j: Json)
    requires
        id@.len() == 0,
        object_is(j, FileLocator::Id(id).keys()),
    ensures
        j matches Json::Object(es) && es@.len() == 0,
{
}

/// A locator made from a path is always written with its `path` entry,
/// whatever the path, the empty one included.
pub proof fn path_locator_writes_path(p: String, j: Json)
    requires
        object_is(j, FileLocator::Path(p).keys()),
        FileLocator::Path(p).entries_at(j, 0),
    ensures
        carries_str(j, "path"@, p@),
{
    if let Json::Object(es) = j {
        assert(es@[0].0@ == "path"@);
    }
}

/// A pull pump hands out items in the order fetched, each once: what it
/// has sent is always a prefix of what it has fetched, and the rest is
/// still pending, whatever fetches failed in between.
pub proof fn pump_sends_a_prefix_of_what_it_fetched<T>(p: PullPump<T>)
    requires
        p.wf(),
    ensures
        p.sent().len() <= p.fetched().len(),
        p.fetched().subrange(0, p.sent().len() as int) == p.sent(),
        p.fetched().subrange(p.sent().len() as int, p.fetched().len() as int) == p.pending(),
{
    assert(p.fetched().subrange(0, p.sent().len() as int) =~= p.sent());
    assert(p.fetched().subrange(p.sent().len() as int, p.fetched().len() as int) =~= p.pending());
}

/// The zero-sentinel rule on decoded messages of every kind: the message's
/// id is absent when its chain has no `Source`, or a `Source` with id 0,
/// and is the `Source` id otherwise.
pub proof fn decoded_message_id_follows_zero_sentinel(j: Json, m: Message, c: Json)
    requires
        Message::wire_matches(j, m),
        field_of(j, "messageChain"@) == Some(c),
    ensures
        match scan(items_of(c), items_of(c).len() as int).0 {
            Some(si) => i32_of(field_of(items_of(c)[si], "id"@)) matches Some(w) && m.chain().id
                == nonzero(w),
            None => m.chain().id is None,
        },
{
}

/// The zero-sentinel rule on decoded quotes: the quote of a decoded chain
/// has no id when its `Quote` carries id 0, and that id otherwise, for a
/// group quote and a user quote alike.
pub proof fn decoded_quote_id_follows_zero_sentinel(c: Json, qm: QuotedMessage)
    requires
        chain_quote_matches(c, Some(qm)),
    ensures
        scan(items_of(c), items_of(c).len() as int).1 matches Some(qi) && i32_of(
            field_of(items_of(c)[qi], "id"@),
        ) matches Some(w) && qm.quoted().id == nonzero(w),
{
}

/// The zero-sentinel rule on friend recalls: the recalled message's id,
/// which `message` turns into a handle only when present, is absent exactly
/// when the wire id is 0; the handle's conversation is the author.
pub proof fn friend_recall_id_follows_zero_sentinel(j: Json, e: FriendMessageRecallEvent)
    requires
        FriendMessageRecallEvent::from_wire(j) == Some(e),
    ensures
        i32_of(field_of(j, "messageId"@)) matches Some(k) && (k == 0 ==> nonzero(e.message_id) is None)
            && (k != 0 ==> nonzero(e.message_id) == Some(k)),
        int_of(field_of(j, "authorId"@)) == Some(e.sender_id),
{
}

/// The zero-sentinel rule on group recalls: as for friend recalls, with
/// the group as the handle's conversation.
pub proof fn group_recall_id_follows_zero_sentinel(j: Json, e: GroupMessageRecallEvent)
    requires
        GroupMessageRecallEvent::from_wire(j) == Some(e),
    ensures
        i32_of(field_of(j, "messageId"@)) matches Some(k) && (k == 0 ==> nonzero(e.message_id) is None)
            && (k != 0 ==> nonzero(e.message_id) == Some(k)),
{
}

} // verus!
