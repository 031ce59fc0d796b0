//! Argument and result records of the gateway's calls, and their wire
//! forms. Optional fields are left out of the wire form when unset.
use vstd::prelude::*;
use crate::entity::UserDetails;
use crate::json::{
    agrees, field_of, object_is, put, read_i32, read_string, require, str_is, string_of,
    text, value_at, DecodeError, Json, i32_of,
};
use crate::message::{encodes, OutgoingMessageContents, OutgoingMessageNode};
use crate::request::{Announcement, GroupConfigUpdate, MemberInfoUpdate};

verus! {

/// The handshake that obtains a session.
#[derive(Clone, Debug, PartialEq, Eq)]
pub struct VerifyArgs {
    pub verify_key: String,
}

impl VerifyArgs {
    pub open spec fn encodes_to(&self, j: Json) -> bool {
        &&& object_is(j, seq!["verifyKey"@])
        &&& str_is(value_at(j, 0), self.verify_key@)
    }

    pub fn encode(&self) -> (r: Json)
        ensures
            self.encodes_to(r),
    {
        let mut es: Vec<(String, Json)> = Vec::new();
        put(&mut es, "verifyKey", text(self.verify_key.as_str()));
        Json::Object(es)
    }
}

/// Binds a session to an account.
#[derive(Clone, Copy, Debug, PartialEq, Eq, Structural)]
pub struct BindArgs {
    pub qq: i64,
}

impl BindArgs {
    pub open spec fn encodes_to(&self, j: Json) -> bool {
        &&& object_is(j, seq!["qq"@])
        &&& value_at(j, 0) == Json::Int(self.qq)
    }

    pub fn encode(&self) -> (r: Json)
        ensures
            self.encodes_to(r),
    {
        let mut es: Vec<(String, Json)> = Vec::new();
        put(&mut es, "qq", Json::Int(self.qq));
        Json::Object(es)
    }
}

/// Names one user or group.
#[derive(Clone, Copy, Debug, PartialEq, Eq, Structural)]
pub struct TargetArgs {
    pub target: i64,
}

impl TargetArgs {
    pub open spec fn encodes_to(&self, j: Json) -> bool {
        &&& object_is(j, seq!["target"@])
        &&& value_at(j, 0) == Json::Int(self.target)
    }

    pub fn encode(&self) -> (r: Json)
        ensures
            self.encodes_to(r),
    {
        let mut es: Vec<(String, Json)> = Vec::new();
        put(&mut es, "target", Json::Int(self.target));
        Json::Object(es)
    }
}

/// Names a message by conversation and id.
#[derive(Clone, Copy, Debug, PartialEq, Eq, Structural)]
pub struct MessageIdArgs {
    pub target: i64,
    pub message_id: i32,
}

impl MessageIdArgs {
    pub open spec fn encodes_to(&self, j: Json) -> bool {
        &&& object_is(j, seq!["target"@, "messageId"@])
        &&& value_at(j, 0) == Json::Int(self.target)
        &&& value_at(j, 1) == Json::Int(self.message_id as i64)
    }

    pub fn encode(&self) -> (r: Json)
        ensures
            self.encodes_to(r),
    {
        let mut es: Vec<(String, Json)> = Vec::new();
        put(&mut es, "target", Json::Int(self.target));
        put(&mut es, "messageId", Json::Int(self.message_id as i64));
        Json::Object(es)
    }
}

/// Mutes a member for `time` seconds.
#[derive(Clone, Copy, Debug, PartialEq, Eq, Structural)]
pub struct MuteArgs {
    pub target: i64,
    pub member_id: i64,
    pub time: i32,
}

impl MuteArgs {
    pub open spec fn encodes_to(&self, j: Json) -> bool {
        &&& object_is(j, seq!["target"@, "memberId"@, "time"@])
        &&& value_at(j, 0) == Json::Int(self.target)
        &&& value_at(j, 1) == Json::Int(self.member_id)
        &&& value_at(j, 2) == Json::Int(self.time as i64)
    }

    pub fn encode(&self) -> (r: Json)
        ensures
            self.encodes_to(r),
    {
        let mut es: Vec<(String, Json)> = Vec::new();
        put(&mut es, "target", Json::Int(self.target));
        put(&mut es, "memberId", Json::Int(self.member_id));
        put(&mut es, "time", Json::Int(self.time as i64));
        Json::Object(es)
    }
}

/// Grants or revokes a member's admin rank.
#[derive(Clone, Copy, Debug, PartialEq, Eq, Structural)]
pub struct ModifyMemberAdminArgs {
    pub target: i64,
    pub member_id: i64,
    pub assign: bool,
}

impl ModifyMemberAdminArgs {
    pub open spec fn encodes_to(&self, j: Json) -> bool {
        &&& object_is(j, seq!["target"@, "memberId"@, "assign"@])
        &&& value_at(j, 0) == Json::Int(self.target)
        &&& value_at(j, 1) == Json::Int(self.member_id)
        &&& value_at(j, 2) == Json::Bool(self.assign)
    }

    pub fn encode(&self) -> (r: Json)
        ensures
            self.encodes_to(r),
    {
        let mut es: Vec<(String, Json)> = Vec::new();
        put(&mut es, "target", Json::Int(self.target));
        put(&mut es, "memberId", Json::Int(self.member_id));
        put(&mut es, "assign", Json::Bool(self.assign));
        Json::Object(es)
    }
}

/// Names a member of a group.
#[derive(Clone, Copy, Debug, PartialEq, Eq, Structural)]
pub struct MemberArgs {
    pub target: i64,
    pub member_id: i64,
}

impl MemberArgs {
    pub open spec fn encodes_to(&self, j: Json) -> bool {
        &&& object_is(j, seq!["target"@, "memberId"@])
        &&& value_at(j, 0) == Json::Int(self.target)
        &&& value_at(j, 1) == Json::Int(self.member_id)
    }

    pub fn encode(&self) -> (r: Json)
        ensures
            self.encodes_to(r),
    {
        let mut es: Vec<(String, Json)> = Vec::new();
        put(&mut es, "target", Json::Int(self.target));
        put(&mut es, "memberId", Json::Int(self.member_id));
        Json::Object(es)
    }
}

/// Names an announcement of a group.
#[derive(Clone, Debug, PartialEq, Eq)]
pub struct AnnouncementArgs {
    pub id: i64,
    pub fid: String,
}

impl AnnouncementArgs {
    pub open spec fn encodes_to(&self, j: Json) -> bool {
        &&& object_is(j, seq!["id"@, "fid"@])
        &&& value_at(j, 0) == Json::Int(self.id)
        &&& str_is(value_at(j, 1), self.fid@)
    }

    pub fn encode(&self) -> (r: Json)
        ensures
            self.encodes_to(r),
    {
        let mut es: Vec<(String, Json)> = Vec::new();
        put(&mut es, "id", Json::Int(self.id));
        put(&mut es, "fid", text(self.fid.as_str()));
        Json::Object(es)
    }
}


/// The session that the handshake returns.
#[derive(Clone, Debug, PartialEq, Eq)]
pub struct VerifyResult {
    pub session: String,
}

impl VerifyResult {
    pub open spec fn from_wire(j: Json) -> Option<VerifyResult> {
        match string_of(field_of(j, "session"@)) {
            Some(session) => Some(VerifyResult { session }),
            None => None,
        }
    }

    pub fn decode(j: &Json) -> (r: Result<VerifyResult, DecodeError>)
        ensures
            agrees(r, VerifyResult::from_wire(*j)),
    {
        Ok(VerifyResult { session: read_string(j, "session")? })
    }
}

/// The gateway's version.
#[derive(Clone, Debug, PartialEq, Eq)]
pub struct AboutResult {
    pub version: String,
}

impl AboutResult {
    pub open spec fn from_wire(j: Json) -> Option<AboutResult> {
        match string_of(field_of(j, "version"@)) {
            Some(version) => Some(AboutResult { version }),
            None => None,
        }
    }

    pub fn decode(j: &Json) -> (r: Result<AboutResult, DecodeError>)
        ensures
            agrees(r, AboutResult::from_wire(*j)),
    {
        Ok(AboutResult { version: read_string(j, "version")? })
    }
}

/// The account that a session is bound to.
#[derive(Clone, Debug, PartialEq, Eq)]
pub struct GetSessionInfoResult {
    pub qq: UserDetails,
}

impl GetSessionInfoResult {
    pub open spec fn from_wire(j: Json) -> Option<GetSessionInfoResult> {
        match field_of(j, "qq"@) {
            Some(q) => match UserDetails::from_wire(q) {
                Some(qq) => Some(GetSessionInfoResult { qq }),
                None => None,
            },
            None => None,
        }
    }

    pub fn decode(j: &Json) -> (r: Result<GetSessionInfoResult, DecodeError>)
        ensures
            agrees(r, GetSessionInfoResult::from_wire(*j)),
    {
        Ok(GetSessionInfoResult { qq: UserDetails::decode(require(j, "qq")?)? })
    }
}

/// The kind of conversation a nudge is sent in.
#[derive(Clone, Copy, Debug, PartialEq, Eq, Hash, Structural)]
pub enum SubjectKind {
    Friend,
    Group,
    Stranger,
}

impl SubjectKind {
    pub open spec fn name_spec(&self) -> Seq<char> {
        match self {
            SubjectKind::Friend => "Friend"@,
            SubjectKind::Group => "Group"@,
            SubjectKind::Stranger => "Stranger"@,
        }
    }

    pub fn name(&self) -> (r: Json)
        ensures
            str_is(r, self.name_spec()),
    {
        match self {
            SubjectKind::Friend => text("Friend"),
            SubjectKind::Group => text("Group"),
            SubjectKind::Stranger => text("Stranger"),
        }
    }
}

/// Nudges `target` in the conversation `subject` of kind `kind`.
#[derive(Clone, Copy, Debug, PartialEq, Eq, Structural)]
pub struct NudgeArgs {
    pub target: i64,
    pub subject: i64,
    pub kind: SubjectKind,
}

impl NudgeArgs {
    pub open spec fn encodes_to(&self, j: Json) -> bool {
        &&& object_is(j, seq!["target"@, "subject"@, "kind"@])
        &&& value_at(j, 0) == Json::Int(self.target)
        &&& value_at(j, 1) == Json::Int(self.subject)
        &&& str_is(value_at(j, 2), self.kind.name_spec())
    }

    pub fn encode(&self) -> (r: Json)
        ensures
            self.encodes_to(r),
    {
        let mut es: Vec<(String, Json)> = Vec::new();
        put(&mut es, "target", Json::Int(self.target));
        put(&mut es, "subject", Json::Int(self.subject));
        put(&mut es, "kind", self.kind.name());
        Json::Object(es)
    }
}

/// The chain of a message to send and the id of a quoted message, as the
/// trailing entries of a call's wire form.
pub open spec fn contents_entries(c: OutgoingMessageContents, j: Json, at: int) -> bool {
    let chain_at: int = if c.quote is Some { at + 1 } else { at };
    &&& match c.quote {
        Some(q) => value_at(j, at) == Json::Int(q as i64),
        None => true,
    }
    &&& match value_at(j, chain_at) {
        Json::Array(v) => v@.len() == c.nodes@.len() && forall|k: int|
            0 <= k < v@.len() ==> encodes(#[trigger] c.nodes@[k], v@[k]),
        _ => false,
    }
}

fn put_contents(es: &mut Vec<(String, Json)>, c: &OutgoingMessageContents)
    ensures
        match c.quote {
            Some(_) => final(es)@.len() == old(es)@.len() + 2 && final(es)@[old(es)@.len() as int].0@
                == "quote"@ && final(es)@[old(es)@.len() + 1int].0@ == "messageChain"@,
            None => final(es)@.len() == old(es)@.len() + 1 && final(es)@[old(es)@.len() as int].0@
                == "messageChain"@,
        },
        forall|i: int| 0 <= i < old(es)@.len() ==> final(es)@[i] == old(es)@[i],
        contents_entries(*c, Json::Object(*final(es)), old(es)@.len() as int),
{
    match c.quote {
        Some(q) => put(es, "quote", Json::Int(q as i64)),
        None => {},
    }
    put(es, "messageChain", c.encode_chain());
}

/// Sends a message to a friend, a group or another client.
#[derive(Debug)]
pub struct SendMessageArgs {
    pub target: i64,
    pub contents: OutgoingMessageContents,
}

impl SendMessageArgs {
    pub open spec fn encodes_to(&self, j: Json) -> bool {
        &&& if self.contents.quote is Some {
            object_is(j, seq!["target"@, "quote"@, "messageChain"@])
        } else {
            object_is(j, seq!["target"@, "messageChain"@])
        }
        &&& value_at(j, 0) == Json::Int(self.target)
        &&& contents_entries(self.contents, j, 1)
    }

    pub fn encode(&self) -> (r: Json)
        ensures
            self.encodes_to(r),
    {
        let mut es: Vec<(String, Json)> = Vec::new();
        put(&mut es, "target", Json::Int(self.target));
        put_contents(&mut es, &self.contents);
        Json::Object(es)
    }
}

/// Sends a private message to a member of a group.
#[derive(Debug)]
pub struct SendTempMessageArgs {
    pub qq: i64,
    pub group: i64,
    pub contents: OutgoingMessageContents,
}

impl SendTempMessageArgs {
    pub open spec fn encodes_to(&self, j: Json) -> bool {
        &&& if self.contents.quote is Some {
            object_is(j, seq!["qq"@, "group"@, "quote"@, "messageChain"@])
        } else {
            object_is(j, seq!["qq"@, "group"@, "messageChain"@])
        }
        &&& value_at(j, 0) == Json::Int(self.qq)
        &&& value_at(j, 1) == Json::Int(self.group)
        &&& contents_entries(self.contents, j, 2)
    }

    pub fn encode(&self) -> (r: Json)
        ensures
            self.encodes_to(r),
    {
        let mut es: Vec<(String, Json)> = Vec::new();
        put(&mut es, "qq", Json::Int(self.qq));
        put(&mut es, "group", Json::Int(self.group));
        put_contents(&mut es, &self.contents);
        Json::Object(es)
    }
}

/// The id that the gateway gave a sent message; -1 when it rejected it.
#[derive(Clone, Copy, Debug, PartialEq, Eq, Structural)]
pub struct SendMessageResult {
    pub message_id: i32,
}

impl SendMessageResult {
    pub open spec fn from_wire(j: Json) -> Option<SendMessageResult> {
        match i32_of(field_of(j, "messageId"@)) {
            Some(message_id) => Some(SendMessageResult { message_id }),
            None => None,
        }
    }

    pub fn decode(j: &Json) -> (r: Result<SendMessageResult, DecodeError>)
        ensures
            agrees(r, SendMessageResult::from_wire(*j)),
    {
        Ok(SendMessageResult { message_id: read_i32(j, "messageId")? })
    }
}

/// The kind of conversation a file is uploaded for.
#[derive(Clone, Copy, Debug, PartialEq, Eq, Hash, Structural)]
pub enum MediaType {
    Friend,
    Group,
    Temp,
}

impl MediaType {
    pub open spec fn name_spec(&self) -> Seq<char> {
        match self {
            MediaType::Friend => "Friend"@,
            MediaType::Group => "Group"@,
            MediaType::Temp => "Temp"@,
        }
    }

    /// The name the upload form carries.
    pub fn name(&self) -> (r: &'static str)
        ensures
            r@ == self.name_spec(),
    {
        match self {
            MediaType::Friend => "Friend",
            MediaType::Group => "Group",
            MediaType::Temp => "Temp",
        }
    }
}

/// Whose stored messages to fetch.
#[derive(Clone, Copy, Debug, PartialEq, Eq, Structural)]
pub enum RoamingMessagesTarget {
    Friend(i64),
    Group(i64),
}

/// Fetches the stored messages of a conversation between two times.
#[derive(Clone, Copy, Debug, PartialEq, Eq, Structural)]
pub struct RoamingMessagesArgs {
    pub time_start: i64,
    pub time_end: i64,
    pub target: RoamingMessagesTarget,
}

impl RoamingMessagesArgs {
    /// A friend is named under `qq`, a group under `group`.
    pub open spec fn encodes_to(&self, j: Json) -> bool {
        &&& value_at(j, 0) == Json::Int(self.time_start)
        &&& value_at(j, 1) == Json::Int(self.time_end)
        &&& match self.target {
            RoamingMessagesTarget::Friend(id) => object_is(j, seq!["timeStart"@, "timeEnd"@, "qq"@])
                && value_at(j, 2) == Json::Int(id),
            RoamingMessagesTarget::Group(id) => object_is(j, seq!["timeStart"@, "timeEnd"@, "group"@])
                && value_at(j, 2) == Json::Int(id),
        }
    }

    pub fn encode(&self) -> (r: Json)
        ensures
            self.encodes_to(r),
    {
        let mut es: Vec<(String, Json)> = Vec::new();
        put(&mut es, "timeStart", Json::Int(self.time_start));
        put(&mut es, "timeEnd", Json::Int(self.time_end));
        match self.target {
            RoamingMessagesTarget::Friend(id) => put(&mut es, "qq", Json::Int(id)),
            RoamingMessagesTarget::Group(id) => put(&mut es, "group", Json::Int(id)),
        }
        Json::Object(es)
    }
}

/// The shared wire form of the three request-handling calls.
pub open spec fn request_encodes(
    j: Json,
    event_id: i64,
    from_id: i64,
    group_id: i64,
    operate: i32,
    message: Seq<char>,
) -> bool {
    &&& object_is(j, seq!["eventId"@, "fromId"@, "groupId"@, "operate"@, "message"@])
    &&& value_at(j, 0) == Json::Int(event_id)
    &&& value_at(j, 1) == Json::Int(from_id)
    &&& value_at(j, 2) == Json::Int(group_id)
    &&& value_at(j, 3) == Json::Int(operate as i64)
    &&& str_is(value_at(j, 4), message)
}

fn request_json(event_id: i64, from_id: i64, group_id: i64, operate: i32, message: &str) -> (r: Json)
    ensures
        request_encodes(r, event_id, from_id, group_id, operate, message@),
{
    let mut es: Vec<(String, Json)> = Vec::new();
    put(&mut es, "eventId", Json::Int(event_id));
    put(&mut es, "fromId", Json::Int(from_id));
    put(&mut es, "groupId", Json::Int(group_id));
    put(&mut es, "operate", Json::Int(operate as i64));
    put(&mut es, "message", text(message));
    Json::Object(es)
}

/// How to answer a friend request.
#[derive(Clone, Copy, Debug, PartialEq, Eq, Hash, Structural)]
pub enum NewFriendRequestOperation {
    Accept,
    Reject,
    RejectAndBlock,
}

impl NewFriendRequestOperation {
    pub open spec fn code_spec(&self) -> i32 {
        match self {
            NewFriendRequestOperation::Accept => 0,
            NewFriendRequestOperation::Reject => 1,
            NewFriendRequestOperation::RejectAndBlock => 2,
        }
    }

    /// The operation's code on the wire.
    pub fn code(&self) -> (r: i32)
        ensures
            r == self.code_spec(),
    {
        match self {
            NewFriendRequestOperation::Accept => 0,
            NewFriendRequestOperation::Reject => 1,
            NewFriendRequestOperation::RejectAndBlock => 2,
        }
    }
}

/// Answers a friend request.
#[derive(Clone, Copy, Debug, PartialEq, Eq, Structural)]
pub struct HandleNewFriendRequestArgs {
    pub event_id: i64,
    pub from_id: i64,
    pub operation: NewFriendRequestOperation,
}

impl HandleNewFriendRequestArgs {
    /// No group and no message are sent with a friend request's answer.
    pub fn encode(&self) -> (r: Json)
        ensures
            request_encodes(r, self.event_id, self.from_id, 0, self.operation.code_spec(), ""@),
    {
        request_json(self.event_id, self.from_id, 0, self.operation.code(), "")
    }
}

/// How to answer a request to join a group.
#[derive(Clone, Copy, Debug, PartialEq, Eq, Hash, Structural)]
pub enum MemberJoinRequestOperation {
    Accept,
    Reject,
    Ignore,
    RejectAndBlock,
    IgnoreAndBlock,
}

impl MemberJoinRequestOperation {
    pub open spec fn code_spec(&self) -> i32 {
        match self {
            MemberJoinRequestOperation::Accept => 0,
            MemberJoinRequestOperation::Reject => 1,
            MemberJoinRequestOperation::Ignore => 2,
            MemberJoinRequestOperation::RejectAndBlock => 3,
            MemberJoinRequestOperation::IgnoreAndBlock => 4,
        }
    }

    pub fn code(&self) -> (r: i32)
        ensures
            r == self.code_spec(),
    {
        match self {
            MemberJoinRequestOperation::Accept => 0,
            MemberJoinRequestOperation::Reject => 1,
            MemberJoinRequestOperation::Ignore => 2,
            MemberJoinRequestOperation::RejectAndBlock => 3,
            MemberJoinRequestOperation::IgnoreAndBlock => 4,
        }
    }
}

/// Answers a request to join a group, with a message for a rejection.
#[derive(Clone, Debug, PartialEq, Eq)]
pub struct HandleMemberJoinRequestArgs {
    pub event_id: i64,
    pub from_id: i64,
    pub group_id: i64,
    pub operation: MemberJoinRequestOperation,
    pub message: String,
}

impl HandleMemberJoinRequestArgs {
    pub fn encode(&self) -> (r: Json)
        ensures
            request_encodes(
                r,
                self.event_id,
                self.from_id,
                self.group_id,
                self.operation.code_spec(),
                self.message@,
            ),
    {
        request_json(self.event_id, self.from_id, self.group_id, self.operation.code(), self.message.as_str())
    }
}

/// How to answer an invitation of the bot to a group.
#[derive(Clone, Copy, Debug, PartialEq, Eq, Hash, Structural)]
pub enum BotInvitedJoinGroupRequestOperation {
    Accept,
    Ignore,
}

impl BotInvitedJoinGroupRequestOperation {
    pub open spec fn code_spec(&self) -> i32 {
        match self {
            BotInvitedJoinGroupRequestOperation::Accept => 0,
            BotInvitedJoinGroupRequestOperation::Ignore => 1,
        }
    }

    pub fn code(&self) -> (r: i32)
        ensures
            r == self.code_spec(),
    {
        match self {
            BotInvitedJoinGroupRequestOperation::Accept => 0,
            BotInvitedJoinGroupRequestOperation::Ignore => 1,
        }
    }
}

/// Answers an invitation of the bot to a group.
#[derive(Clone, Copy, Debug, PartialEq, Eq, Structural)]
pub struct HandleBotInvitedJoinGroupRequestArgs {
    pub event_id: i64,
    pub from_id: i64,
    pub group_id: i64,
    pub operation: BotInvitedJoinGroupRequestOperation,
}

impl HandleBotInvitedJoinGroupRequestArgs {
    pub fn encode(&self) -> (r: Json)
        ensures
            request_encodes(r, self.event_id, self.from_id, self.group_id, self.operation.code_spec(), ""@),
    {
        request_json(self.event_id, self.from_id, self.group_id, self.operation.code(), "")
    }
}

/// Removes a member, optionally blocking it and with a message.
#[derive(Clone, Debug, PartialEq, Eq)]
pub struct KickArgs {
    pub target: i64,
    pub member_id: i64,
    pub block: bool,
    pub msg: String,
}

impl KickArgs {
    /// `block` is written only when set, `msg` only when not empty.
    pub open spec fn encodes_to(&self, j: Json) -> bool {
        let keys = seq!["target"@, "memberId"@] + (if self.block {
            seq!["block"@]
        } else {
            Seq::empty()
        }) + (if self.msg@.len() > 0 {
            seq!["msg"@]
        } else {
            Seq::empty()
        });
        &&& object_is(j, keys)
        &&& value_at(j, 0) == Json::Int(self.target)
        &&& value_at(j, 1) == Json::Int(self.member_id)
        &&& self.block ==> value_at(j, 2) == Json::Bool(true)
        &&& self.msg@.len() > 0 ==> str_is(value_at(j, keys.len() - 1), self.msg@)
    }

    pub fn encode(&self) -> (r: Json)
        ensures
            self.encodes_to(r),
    {
        let mut es: Vec<(String, Json)> = Vec::new();
        put(&mut es, "target", Json::Int(self.target));
        put(&mut es, "memberId", Json::Int(self.member_id));
        if self.block {
            put(&mut es, "block", Json::Bool(true));
        }
        if self.msg.as_str().unicode_len() > 0 {
            put(&mut es, "msg", text(self.msg.as_str()));
        }
        let r = Json::Object(es);
        proof {
            let keys = seq!["target"@, "memberId"@] + (if self.block {
                seq!["block"@]
            } else {
                Seq::empty()
            }) + (if self.msg@.len() > 0 {
                seq!["msg"@]
            } else {
                Seq::empty()
            });
            assert(es@.len() == keys.len());
            assert forall|i: int| 0 <= i < keys.len() implies #[trigger] es@[i].0@ == keys[i] by {}
        }
        r
    }
}

/// Asks for the current details of some members of a group, or of all
/// when `member_ids` is empty.
#[derive(Clone, Debug, PartialEq, Eq)]
pub struct MultiMemberArgs {
    pub target: i64,
    pub member_ids: Vec<i64>,
}

impl MultiMemberArgs {
    /// The query pairs: `target`, then one `memberIds` per id, in order.
    pub fn query_pairs(&self) -> (r: Vec<(String, i64)>)
        ensures
            r@.len() == 1 + self.member_ids@.len(),
            r@[0].0@ == "target"@ && r@[0].1 == self.target,
            forall|i: int|
                0 <= i < self.member_ids@.len() ==> (#[trigger] r@[i + 1]).0@ == "memberIds"@ && r@[i
                    + 1].1 == self.member_ids@[i],
    {
        let mut r: Vec<(String, i64)> = Vec::new();
        r.push((String::from_str("target"), self.target));
        let mut i: usize = 0;
        while i < self.member_ids.len()
            invariant
                i <= self.member_ids@.len(),
                r@.len() == 1 + i,
                r@[0].0@ == "target"@ && r@[0].1 == self.target,
                forall|k: int|
                    0 <= k < i ==> (#[trigger] r@[k + 1]).0@ == "memberIds"@ && r@[k + 1].1
                        == self.member_ids@[k],
            decreases self.member_ids.len() - i,
        {
            r.push((String::from_str("memberIds"), self.member_ids[i]));
            i += 1;
        }
        r
    }
}

/// Addresses a file or directory by its id or by its path.
#[derive(Clone, Debug, PartialEq, Eq)]
pub enum FileLocator {
    Id(String),
    Path(String),
}

impl FileLocator {
    /// The root directory, whose id is empty.
    pub fn root() -> (r: FileLocator)
        ensures
            r matches FileLocator::Id(id) && id@.len() == 0,
    {
        FileLocator::Id(String::new())
    }

    /// The wire keys of a locator: `id`, left out when the id is empty (the
    /// root), or `path`, always written.
    pub open spec fn keys(&self) -> Seq<Seq<char>> {
        match self {
            FileLocator::Id(id) => if id@.len() == 0 {
                Seq::empty()
            } else {
                seq!["id"@]
            },
            FileLocator::Path(_) => seq!["path"@],
        }
    }

    /// The locator's entries start at index `at` of `j`.
    pub open spec fn entries_at(&self, j: Json, at: int) -> bool {
        match self {
            FileLocator::Id(id) => id@.len() > 0 ==> str_is(value_at(j, at), id@),
            FileLocator::Path(p) => str_is(value_at(j, at), p@),
        }
    }

    pub fn put_entries(&self, es: &mut Vec<(String, Json)>)
        ensures
            final(es)@.len() == old(es)@.len() + self.keys().len(),
            forall|i: int| 0 <= i < old(es)@.len() ==> final(es)@[i] == old(es)@[i],
            forall|i: int|
                0 <= i < self.keys().len() ==> #[trigger] final(es)@[old(es)@.len() + i].0@
                    == self.keys()[i],
            self.entries_at(Json::Object(*final(es)), old(es)@.len() as int),
    {
        match self {
            FileLocator::Id(id) => if id.as_str().unicode_len() > 0 {
                put(es, "id", text(id.as_str()));
            },
            FileLocator::Path(p) => put(es, "path", text(p.as_str())),
        }
    }

    pub fn encode(&self) -> (r: Json)
        ensures
            object_is(r, self.keys()),
            self.entries_at(r, 0),
    {
        let mut es: Vec<(String, Json)> = Vec::new();
        self.put_entries(&mut es);
        proof {
            assert forall|i: int| 0 <= i < self.keys().len() implies #[trigger] es@[i].0@ == self.keys()[i] by {
                assert(es@[0 + i].0@ == self.keys()[i]);
            }
        }
        Json::Object(es)
    }
}

/// Names a file of a group.
#[derive(Clone, Debug, PartialEq, Eq)]
pub struct FileArgs {
    pub file: FileLocator,
    pub target: i64,
}

impl FileArgs {
    pub open spec fn encodes_to(&self, j: Json) -> bool {
        let n = self.file.keys().len() as int;
        &&& object_is(j, self.file.keys().push("target"@))
        &&& self.file.entries_at(j, 0)
        &&& value_at(j, n) == Json::Int(self.target)
    }

    pub fn encode(&self) -> (r: Json)
        ensures
            self.encodes_to(r),
    {
        let mut es: Vec<(String, Json)> = Vec::new();
        self.file.put_entries(&mut es);
        put(&mut es, "target", Json::Int(self.target));
        let r = Json::Object(es);
        proof {
            assert forall|i: int| 0 <= i < self.file.keys().push("target"@).len() implies #[trigger] es@[i].0@
                == self.file.keys().push("target"@)[i] by {
                if i < self.file.keys().len() {
                    assert(es@[0 + i].0@ == self.file.keys()[i]);
                }
            }
        }
        r
    }
}

/// Lists a directory, from entry `offset`, at most `size` entries, with
/// download links when asked.
#[derive(Clone, Debug, PartialEq, Eq)]
pub struct ListFileArgs {
    pub directory: FileLocator,
    pub target: i64,
    pub offset: i32,
    pub size: Option<i32>,
    pub with_download_info: bool,
}

impl ListFileArgs {
    /// The keys after the locator and `target`: `offset` unless it is 0,
    /// `size` when given, `withDownloadInfo` when set.
    pub open spec fn option_keys(&self) -> Seq<Seq<char>> {
        (if self.offset != 0 {
            seq!["offset"@]
        } else {
            Seq::empty()
        }) + (if self.size is Some {
            seq!["size"@]
        } else {
            Seq::empty()
        }) + (if self.with_download_info {
            seq!["withDownloadInfo"@]
        } else {
            Seq::empty()
        })
    }

    pub open spec fn encodes_to(&self, j: Json) -> bool {
        let n = self.directory.keys().len() as int;
        &&& object_is(j, self.directory.keys().push("target"@) + self.option_keys())
        &&& self.directory.entries_at(j, 0)
        &&& value_at(j, n) == Json::Int(self.target)
        &&& self.offset != 0 ==> value_at(j, n + 1) == Json::Int(self.offset as i64)
        &&& self.size matches Some(s) ==> value_at(j, n + 1 + (if self.offset != 0 { 1int } else { 0 }))
            == Json::Int(s as i64)
    }

    pub fn encode(&self) -> (r: Json)
        ensures
            self.encodes_to(r),
    {
        let mut es: Vec<(String, Json)> = Vec::new();
        self.directory.put_entries(&mut es);
        put(&mut es, "target", Json::Int(self.target));
        if self.offset != 0 {
            put(&mut es, "offset", Json::Int(self.offset as i64));
        }
        match self.size {
            Some(s) => put(&mut es, "size", Json::Int(s as i64)),
            None => {},
        }
        if self.with_download_info {
            put(&mut es, "withDownloadInfo", Json::Bool(true));
        }
        let r = Json::Object(es);
        proof {
            let keys = self.directory.keys().push("target"@) + self.option_keys();
            assert(es@.len() == keys.len());
            assert forall|i: int| 0 <= i < keys.len() implies #[trigger] es@[i].0@ == keys[i] by {
                if i < self.directory.keys().len() {
                    assert(es@[0 + i].0@ == self.directory.keys()[i]);
                }
            }
        }
        r
    }
}

/// Asks for one file's details.
#[derive(Clone, Debug, PartialEq, Eq)]
pub struct GetFileInfoArgs {
    pub file: FileLocator,
    pub target: i64,
    pub with_download_info: bool,
}

impl GetFileInfoArgs {
    pub open spec fn encodes_to(&self, j: Json) -> bool {
        let n = self.file.keys().len() as int;
        &&& object_is(
            j,
            self.file.keys().push("target"@) + (if self.with_download_info {
                seq!["withDownloadInfo"@]
            } else {
                Seq::empty()
            }),
        )
        &&& self.file.entries_at(j, 0)
        &&& value_at(j, n) == Json::Int(self.target)
    }

    pub fn encode(&self) -> (r: Json)
        ensures
            self.encodes_to(r),
    {
        let mut es: Vec<(String, Json)> = Vec::new();
        self.file.put_entries(&mut es);
        put(&mut es, "target", Json::Int(self.target));
        if self.with_download_info {
            put(&mut es, "withDownloadInfo", Json::Bool(true));
        }
        let r = Json::Object(es);
        proof {
            let keys = self.file.keys().push("target"@) + (if self.with_download_info {
                seq!["withDownloadInfo"@]
            } else {
                Seq::empty()
            });
            assert forall|i: int| 0 <= i < keys.len() implies #[trigger] es@[i].0@ == keys[i] by {
                if i < self.file.keys().len() {
                    assert(es@[0 + i].0@ == self.file.keys()[i]);
                }
            }
        }
        r
    }
}

/// Makes a directory named `directory_name` in `directory`.
#[derive(Clone, Debug, PartialEq, Eq)]
pub struct MkDirArgs {
    pub directory: FileLocator,
    pub target: i64,
    pub directory_name: String,
}

impl MkDirArgs {
    pub open spec fn encodes_to(&self, j: Json) -> bool {
        let n = self.directory.keys().len() as int;
        &&& object_is(j, self.directory.keys().push("target"@).push("directoryName"@))
        &&& self.directory.entries_at(j, 0)
        &&& value_at(j, n) == Json::Int(self.target)
        &&& str_is(value_at(j, n + 1), self.directory_name@)
    }

    pub fn encode(&self) -> (r: Json)
        ensures
            self.encodes_to(r),
    {
        let mut es: Vec<(String, Json)> = Vec::new();
        self.directory.put_entries(&mut es);
        put(&mut es, "target", Json::Int(self.target));
        put(&mut es, "directoryName", text(self.directory_name.as_str()));
        let r = Json::Object(es);
        proof {
            let keys = self.directory.keys().push("target"@).push("directoryName"@);
            assert forall|i: int| 0 <= i < keys.len() implies #[trigger] es@[i].0@ == keys[i] by {
                if i < self.directory.keys().len() {
                    assert(es@[0 + i].0@ == self.directory.keys()[i]);
                }
            }
        }
        r
    }
}

/// Renames a file to `rename_to`.
#[derive(Clone, Debug, PartialEq, Eq)]
pub struct RenameFileArgs {
    pub file: FileLocator,
    pub target: i64,
    pub rename_to: String,
}

impl RenameFileArgs {
    pub open spec fn encodes_to(&self, j: Json) -> bool {
        let n = self.file.keys().len() as int;
        &&& object_is(j, self.file.keys().push("target"@).push("renameTo"@))
        &&& self.file.entries_at(j, 0)
        &&& value_at(j, n) == Json::Int(self.target)
        &&& str_is(value_at(j, n + 1), self.rename_to@)
    }

    pub fn encode(&self) -> (r: Json)
        ensures
            self.encodes_to(r),
    {
        let mut es: Vec<(String, Json)> = Vec::new();
        self.file.put_entries(&mut es);
        put(&mut es, "target", Json::Int(self.target));
        put(&mut es, "renameTo", text(self.rename_to.as_str()));
        let r = Json::Object(es);
        proof {
            let keys = self.file.keys().push("target"@).push("renameTo"@);
            assert forall|i: int| 0 <= i < keys.len() implies #[trigger] es@[i].0@ == keys[i] by {
                if i < self.file.keys().len() {
                    assert(es@[0 + i].0@ == self.file.keys()[i]);
                }
            }
        }
        r
    }
}

/// Moves a file into the directory `move_to`.
#[derive(Clone, Debug, PartialEq, Eq)]
pub struct MoveFileArgs {
    pub file: FileLocator,
    pub target: i64,
    pub move_to: FileLocator,
}

impl MoveFileArgs {
    /// The destination is written as `moveTo` (an id, also an empty one)
    /// or `moveToPath`.
    pub open spec fn encodes_to(&self, j: Json) -> bool {
        let n = self.file.keys().len() as int;
        &&& object_is(
            j,
            self.file.keys().push("target"@).push(
                if self.move_to is Id {
                    "moveTo"@
                } else {
                    "moveToPath"@
                },
            ),
        )
        &&& self.file.entries_at(j, 0)
        &&& value_at(j, n) == Json::Int(self.target)
        &&& match self.move_to {
            FileLocator::Id(id) => str_is(value_at(j, n + 1), id@),
            FileLocator::Path(p) => str_is(value_at(j, n + 1), p@),
        }
    }

    pub fn encode(&self) -> (r: Json)
        ensures
            self.encodes_to(r),
    {
        let mut es: Vec<(String, Json)> = Vec::new();
        self.file.put_entries(&mut es);
        put(&mut es, "target", Json::Int(self.target));
        match &self.move_to {
            FileLocator::Id(id) => put(&mut es, "moveTo", text(id.as_str())),
            FileLocator::Path(p) => put(&mut es, "moveToPath", text(p.as_str())),
        }
        let r = Json::Object(es);
        proof {
            let keys = self.file.keys().push("target"@).push(
                if self.move_to is Id {
                    "moveTo"@
                } else {
                    "moveToPath"@
                },
            );
            assert forall|i: int| 0 <= i < keys.len() implies #[trigger] es@[i].0@ == keys[i] by {
                if i < self.file.keys().len() {
                    assert(es@[0 + i].0@ == self.file.keys()[i]);
                }
            }
        }
        r
    }
}

/// Runs a command given as message nodes.
#[derive(Debug)]
pub struct ExecuteCommandArgs {
    pub command: Vec<OutgoingMessageNode>,
}

impl ExecuteCommandArgs {
    pub fn encode(&self) -> (r: Json)
        ensures
            object_is(r, seq!["command"@]),
            value_at(r, 0) matches Json::Array(v) && v@.len() == self.command@.len() && forall|k: int|
                0 <= k < v@.len() ==> encodes(#[trigger] self.command@[k], v@[k]),
    {
        let mut chain: Vec<Json> = Vec::new();
        let mut k: usize = 0;
        while k < self.command.len()
            invariant
                k <= self.command@.len(),
                chain@.len() == k,
                forall|b: int| 0 <= b < k ==> encodes(#[trigger] self.command@[b], chain@[b]),
            decreases self.command.len() - k,
        {
            chain.push(self.command[k].encode());
            k += 1;
        }
        let mut es: Vec<(String, Json)> = Vec::new();
        put(&mut es, "command", Json::Array(chain));
        Json::Object(es)
    }
}

/// Lists the announcements of group `id`, from `offset`, at most `size`.
#[derive(Clone, Copy, Debug, PartialEq, Eq, Structural)]
pub struct ListAnnouncementArgs {
    pub id: i64,
    pub offset: i32,
    pub size: Option<i32>,
}

impl ListAnnouncementArgs {
    pub open spec fn encodes_to(&self, j: Json) -> bool {
        &&& object_is(
            j,
            seq!["id"@] + (if self.offset != 0 {
                seq!["offset"@]
            } else {
                Seq::empty()
            }) + (if self.size is Some {
                seq!["size"@]
            } else {
                Seq::empty()
            }),
        )
        &&& value_at(j, 0) == Json::Int(self.id)
        &&& self.offset != 0 ==> value_at(j, 1) == Json::Int(self.offset as i64)
        &&& self.size matches Some(s) ==> value_at(j, if self.offset != 0 { 2int } else { 1 }) == Json::Int(
            s as i64,
        )
    }

    pub fn encode(&self) -> (r: Json)
        ensures
            self.encodes_to(r),
    {
        let mut es: Vec<(String, Json)> = Vec::new();
        put(&mut es, "id", Json::Int(self.id));
        if self.offset != 0 {
            put(&mut es, "offset", Json::Int(self.offset as i64));
        }
        match self.size {
            Some(s) => put(&mut es, "size", Json::Int(s as i64)),
            None => {},
        }
        let r = Json::Object(es);
        proof {
            let keys = seq!["id"@] + (if self.offset != 0 {
                seq!["offset"@]
            } else {
                Seq::empty()
            }) + (if self.size is Some {
                seq!["size"@]
            } else {
                Seq::empty()
            });
            assert forall|i: int| 0 <= i < keys.len() implies #[trigger] es@[i].0@ == keys[i] by {}
        }
        r
    }
}

/// Asks for at most `count` queued messages and events, or all.
#[derive(Clone, Copy, Debug, PartialEq, Eq, Structural)]
pub struct CountArgs {
    pub count: Option<u32>,
}

impl CountArgs {
    /// The query pairs: `count` when given, nothing otherwise.
    pub fn query_pairs(&self) -> (r: Vec<(String, u32)>)
        ensures
            match self.count {
                Some(n) => r@.len() == 1 && r@[0].0@ == "count"@ && r@[0].1 == n,
                None => r@.len() == 0,
            },
    {
        let mut r: Vec<(String, u32)> = Vec::new();
        match self.count {
            Some(n) => r.push((String::from_str("count"), n)),
            None => {},
        }
        r
    }
}

/// Changes a group's settings.
#[derive(Clone, Debug, PartialEq, Eq)]
pub struct UpdateGroupConfigArgs {
    pub target: i64,
    pub config: GroupConfigUpdate,
}

impl UpdateGroupConfigArgs {
    pub fn encode(&self) -> (r: Json)
        ensures
            object_is(r, seq!["target"@, "config"@]),
            value_at(r, 0) == Json::Int(self.target),
            self.config.encodes_to(value_at(r, 1)),
    {
        let mut es: Vec<(String, Json)> = Vec::new();
        put(&mut es, "target", Json::Int(self.target));
        put(&mut es, "config", self.config.encode());
        Json::Object(es)
    }
}

/// Changes a member's name card or special title.
#[derive(Clone, Debug, PartialEq, Eq)]
pub struct UpdateMemberInfoArgs {
    pub target: i64,
    pub member_id: i64,
    pub info: MemberInfoUpdate,
}

impl UpdateMemberInfoArgs {
    pub fn encode(&self) -> (r: Json)
        ensures
            object_is(r, seq!["target"@, "memberId"@, "info"@]),
            value_at(r, 0) == Json::Int(self.target),
            value_at(r, 1) == Json::Int(self.member_id),
            self.info.encodes_to(value_at(r, 2)),
    {
        let mut es: Vec<(String, Json)> = Vec::new();
        put(&mut es, "target", Json::Int(self.target));
        put(&mut es, "memberId", Json::Int(self.member_id));
        put(&mut es, "info", self.info.encode());
        Json::Object(es)
    }
}

/// Publishes an announcement in group `target`.
#[derive(Clone, Debug, PartialEq, Eq)]
pub struct PublishAnnouncementArgs {
    pub target: i64,
    pub announcement: Announcement,
}

impl PublishAnnouncementArgs {
    pub fn encode(&self) -> (r: Json)
        ensures
            r matches Json::Object(es) && es@.len() > 0 && es@[0].0@ == "target"@ && es@[0].1
                == Json::Int(self.target),
            self.announcement.encodes_after(r, 1),
    {
        let mut es: Vec<(String, Json)> = Vec::new();
        put(&mut es, "target", Json::Int(self.target));
        self.announcement.put_entries(&mut es);
        Json::Object(es)
    }
}

} // verus!
