//! Events: state changes that the gateway reports, and the decoding of one
//! wire payload into a message or an event.
use vstd::prelude::*;
use std::time::{Duration, SystemTime};
use crate::entity::{
    Bot, FriendDetails, FriendHandle, GroupDetails, GroupHandle, GroupHonor, MemberDetails,
    MemberHandle, MemberPermission, MessageHandle, OtherClientDetails, StrangerDetails,
    StrangerHandle, UserHandle,
};
use crate::json::{
    agrees, bool_of, field_of, has_tag, i32_of, int_of, nested, opt_int_of, opt_nested, present,
    read_bool, read_i32, read_i64, read_opt_i64, read_string, require, str_eq, string_of, tag_of,
    DecodeError, Json,
};
use crate::message::{
    chain_nodes_match, chain_wire_ok, handle_matches, is_tagged, nonzero, IncomingMessageContents,
    IncomingMessageNode, Message,
};
use crate::time::{duration_of_secs, epoch_plus_secs, secs_duration};
use crate::types::{
    BotInvitedJoinGroupRequestOperation, HandleBotInvitedJoinGroupRequestArgs,
    HandleMemberJoinRequestArgs, HandleNewFriendRequestArgs, MemberJoinRequestOperation,
    NewFriendRequestOperation,
};

verus! {

/// Whether a member gained or lost an honor.
#[derive(Clone, Copy, Debug, PartialEq, Eq, Hash, Structural)]
pub enum MemberHonorChangeAction {
    Achieve,
    Lose,
}

impl MemberHonorChangeAction {
    pub open spec fn from_wire(j: Json) -> Option<MemberHonorChangeAction> {
        match j {
            Json::Str(s) => if s@ == "achieve"@ {
                Some(MemberHonorChangeAction::Achieve)
            } else if s@ == "lose"@ {
                Some(MemberHonorChangeAction::Lose)
            } else {
                None
            },
            _ => None,
        }
    }

    pub fn decode(j: &Json) -> (r: Result<MemberHonorChangeAction, DecodeError>)
        ensures
            agrees(r, MemberHonorChangeAction::from_wire(*j)),
    {
        match j {
            Json::Str(s) => if str_eq(s.as_str(), "achieve") {
                Ok(MemberHonorChangeAction::Achieve)
            } else if str_eq(s.as_str(), "lose") {
                Ok(MemberHonorChangeAction::Lose)
            } else {
                Err(DecodeError::UnknownTag)
            },
            _ => Err(DecodeError::InvalidValue),
        }
    }
}

/// The `kind` of a nudge's `subject`, which selects the nudge's variant.
pub open spec fn nudge_kind(j: Json) -> Option<Seq<char>> {
    match field_of(j, "subject"@) {
        Some(s) => tag_of(s, "kind"@),
        None => None,
    }
}

/// A nudge whose subject is a friend; `from` and `to` are resolved to
/// handles only when asked for.
#[derive(Clone, Debug, PartialEq, Eq)]
pub struct FriendNudgeEvent {
    pub context: FriendDetails,
    pub from_id: i64,
    pub to_id: i64,
    pub action: String,
    pub suffix: String,
}

impl FriendNudgeEvent {
    /// A `NudgeEvent` payload whose subject has kind `Friend`.
    pub open spec fn from_wire(j: Json) -> Option<FriendNudgeEvent> {
        match (
            field_of(j, "subject"@),
            int_of(field_of(j, "fromId"@)),
            int_of(field_of(j, "target"@)),
            string_of(field_of(j, "action"@)),
            string_of(field_of(j, "suffix"@)),
        ) {
            (Some(s), Some(from_id), Some(to_id), Some(action), Some(suffix)) => if tag_of(s, "kind"@)
                == Some("Friend"@) {
                match FriendDetails::from_wire(s) {
                    Some(context) => Some(FriendNudgeEvent { context, from_id, to_id, action, suffix }),
                    None => None,
                }
            } else {
                None
            },
            _ => None,
        }
    }

    pub fn from(&self) -> (r: FriendHandle)
        ensures
            r@ == self.from_id,
    {
        Bot.get_friend(self.from_id)
    }

    pub fn to(&self) -> (r: FriendHandle)
        ensures
            r@ == self.to_id,
    {
        Bot.get_friend(self.to_id)
    }
}

/// A nudge whose subject is a group; `from` and `to` are resolved to
/// handles only when asked for.
#[derive(Clone, Debug, PartialEq, Eq)]
pub struct GroupNudgeEvent {
    pub context: GroupDetails,
    pub from_id: i64,
    pub to_id: i64,
    pub action: String,
    pub suffix: String,
}

impl GroupNudgeEvent {
    /// A `NudgeEvent` payload whose subject has kind `Group`.
    pub open spec fn from_wire(j: Json) -> Option<GroupNudgeEvent> {
        match (
            field_of(j, "subject"@),
            int_of(field_of(j, "fromId"@)),
            int_of(field_of(j, "target"@)),
            string_of(field_of(j, "action"@)),
            string_of(field_of(j, "suffix"@)),
        ) {
            (Some(s), Some(from_id), Some(to_id), Some(action), Some(suffix)) => if tag_of(s, "kind"@)
                == Some("Group"@) {
                match GroupDetails::from_wire(s) {
                    Some(context) => Some(GroupNudgeEvent { context, from_id, to_id, action, suffix }),
                    None => None,
                }
            } else {
                None
            },
            _ => None,
        }
    }

    pub fn from(&self) -> (r: MemberHandle)
        ensures
            r@ == (self.from_id, self.context.id),
    {
        self.context.handle().get_member(self.from_id)
    }

    pub fn to(&self) -> (r: MemberHandle)
        ensures
            r@ == (self.to_id, self.context.id),
    {
        self.context.handle().get_member(self.to_id)
    }
}

/// A nudge whose subject is a stranger; `from` and `to` are resolved to
/// handles only when asked for.
#[derive(Clone, Debug, PartialEq, Eq)]
pub struct StrangerNudgeEvent {
    pub context: StrangerDetails,
    pub from_id: i64,
    pub to_id: i64,
    pub action: String,
    pub suffix: String,
}

impl StrangerNudgeEvent {
    /// A `NudgeEvent` payload whose subject has kind `Stranger`.
    pub open spec fn from_wire(j: Json) -> Option<StrangerNudgeEvent> {
        match (
            field_of(j, "subject"@),
            int_of(field_of(j, "fromId"@)),
            int_of(field_of(j, "target"@)),
            string_of(field_of(j, "action"@)),
            string_of(field_of(j, "suffix"@)),
        ) {
            (Some(s), Some(from_id), Some(to_id), Some(action), Some(suffix)) => if tag_of(s, "kind"@)
                == Some("Stranger"@) {
                match StrangerDetails::from_wire(s) {
                    Some(context) => Some(StrangerNudgeEvent { context, from_id, to_id, action, suffix }),
                    None => None,
                }
            } else {
                None
            },
            _ => None,
        }
    }

    pub fn from(&self) -> (r: StrangerHandle)
        ensures
            r@ == self.from_id,
    {
        Bot.get_stranger(self.from_id)
    }

    pub fn to(&self) -> (r: StrangerHandle)
        ensures
            r@ == self.to_id,
    {
        Bot.get_stranger(self.to_id)
    }
}

/// Whether a `NudgeEvent` payload decodes: its subject's `kind` selects
/// the variant, whose context is the subject's details.
pub open spec fn nudge_wire_ok(j: Json) -> bool {
    if nudge_kind(j) == Some("Friend"@) {
        FriendNudgeEvent::from_wire(j) is Some
    } else if nudge_kind(j) == Some("Group"@) {
        GroupNudgeEvent::from_wire(j) is Some
    } else if nudge_kind(j) == Some("Stranger"@) {
        StrangerNudgeEvent::from_wire(j) is Some
    } else {
        false
    }
}

/// Decodes a nudge in two stages: the shared fields and the subject's
/// `kind` first, then the variant that the kind selects.
fn decode_nudge(j: &Json) -> (r: Result<Event, DecodeError>)
    ensures
        r is Ok <==> nudge_wire_ok(*j),
        r matches Ok(e) ==> match e {
            Event::FriendNudge(x) => FriendNudgeEvent::from_wire(*j) == Some(x),
            Event::GroupNudge(x) => GroupNudgeEvent::from_wire(*j) == Some(x),
            Event::StrangerNudge(x) => StrangerNudgeEvent::from_wire(*j) == Some(x),
            _ => false,
        },
{
    let subject = require(j, "subject")?;
    let from_id = read_i64(j, "fromId")?;
    let to_id = read_i64(j, "target")?;
    let action = read_string(j, "action")?;
    let suffix = read_string(j, "suffix")?;
    if has_tag(subject, "kind", "Friend") {
        let context = FriendDetails::decode(subject)?;
        Ok(Event::FriendNudge(FriendNudgeEvent { context, from_id, to_id, action, suffix }))
    } else if has_tag(subject, "kind", "Group") {
        let context = GroupDetails::decode(subject)?;
        Ok(Event::GroupNudge(GroupNudgeEvent { context, from_id, to_id, action, suffix }))
    } else if has_tag(subject, "kind", "Stranger") {
        let context = StrangerDetails::decode(subject)?;
        Ok(Event::StrangerNudge(StrangerNudgeEvent { context, from_id, to_id, action, suffix }))
    } else {
        Err(DecodeError::UnknownTag)
    }
}

/// Who invoked a command: a friend, a group member, or the console.
#[derive(Clone, Debug, PartialEq, Eq)]
pub enum CommandSource {
    Friend(FriendDetails),
    Member(MemberDetails),
    Console,
}

impl CommandSource {
    /// Read from the optional fields `friend` and `member`: exactly one
    /// present selects `Friend` or `Member`, neither selects `Console`, and
    /// both present is an error.
    pub open spec fn from_wire(j: Json) -> Option<CommandSource> {
        match (
            opt_nested(field_of(j, "friend"@), |x| FriendDetails::from_wire(x)),
            opt_nested(field_of(j, "member"@), |x| MemberDetails::from_wire(x)),
        ) {
            (Some(Some(f)), Some(None)) => Some(CommandSource::Friend(f)),
            (Some(None), Some(Some(m))) => Some(CommandSource::Member(m)),
            (Some(None), Some(None)) => Some(CommandSource::Console),
            _ => None,
        }
    }

    pub fn decode(j: &Json) -> (r: Result<CommandSource, DecodeError>)
        ensures
            agrees(r, CommandSource::from_wire(*j)),
            r == Err::<CommandSource, DecodeError>(DecodeError::ConflictingFields) <== (
            opt_nested(field_of(*j, "friend"@), |x| FriendDetails::from_wire(x)) matches Some(Some(_))
                && opt_nested(field_of(*j, "member"@), |x| MemberDetails::from_wire(x)) matches Some(
                Some(_),
            )),
    {
        let friend = match present(j, "friend") {
            Some(x) => Some(FriendDetails::decode(x)?),
            None => None,
        };
        let member = match present(j, "member") {
            Some(x) => Some(MemberDetails::decode(x)?),
            None => None,
        };
        match (friend, member) {
            (Some(_), Some(_)) => Err(DecodeError::ConflictingFields),
            (Some(f), None) => Ok(CommandSource::Friend(f)),
            (None, Some(m)) => Ok(CommandSource::Member(m)),
            (None, None) => Ok(CommandSource::Console),
        }
    }
}

/// A registered command was executed.
#[derive(Debug)]
pub struct CommandExecutedEvent {
    pub name: String,
    pub args: Vec<IncomingMessageNode>,
    pub source: CommandSource,
}

impl CommandExecutedEvent {
    pub open spec fn wire_ok(j: Json) -> bool {
        &&& string_of(field_of(j, "name"@)) is Some
        &&& field_of(j, "args"@) matches Some(c) && chain_wire_ok(c)
        &&& CommandSource::from_wire(j) is Some
    }

    /// The arguments are the content nodes of the `args` chain.
    pub open spec fn wire_matches(j: Json, e: CommandExecutedEvent) -> bool {
        &&& string_of(field_of(j, "name"@)) == Some(e.name)
        &&& field_of(j, "args"@) matches Some(c) && chain_nodes_match(c, e.args@)
        &&& CommandSource::from_wire(j) == Some(e.source)
    }

    pub fn decode(j: &Json) -> (r: Result<CommandExecutedEvent, DecodeError>)
        ensures
            r is Ok <==> CommandExecutedEvent::wire_ok(*j),
            r matches Ok(e) ==> CommandExecutedEvent::wire_matches(*j, e),
    {
        let name = read_string(j, "name")?;
        let args = IncomingMessageContents::decode(require(j, "args")?)?;
        let source = CommandSource::decode(j)?;
        Ok(CommandExecutedEvent { name, args: args.nodes, source })
    }
}

/// The bot's account came online.
#[derive(Clone, Debug, PartialEq, Eq)]
pub struct BotOnlineEvent {
    pub id: i64,
}

impl BotOnlineEvent {
    pub open spec fn from_wire(j: Json) -> Option<BotOnlineEvent> {
        match int_of(field_of(j, "qq"@)) {
            Some(id) => Some(BotOnlineEvent { id }),
            None => None,
        }
    }

    pub fn decode(j: &Json) -> (r: Result<BotOnlineEvent, DecodeError>)
        ensures
            agrees(r, BotOnlineEvent::from_wire(*j)),
    {
        let id = read_i64(j, "qq")?;
        Ok(BotOnlineEvent { id })
    }
}

/// The bot's account logged out by itself.
#[derive(Clone, Debug, PartialEq, Eq)]
pub struct BotOfflineActiveEvent {
    pub id: i64,
}

impl BotOfflineActiveEvent {
    pub open spec fn from_wire(j: Json) -> Option<BotOfflineActiveEvent> {
        match int_of(field_of(j, "qq"@)) {
            Some(id) => Some(BotOfflineActiveEvent { id }),
            None => None,
        }
    }

    pub fn decode(j: &Json) -> (r: Result<BotOfflineActiveEvent, DecodeError>)
        ensures
            agrees(r, BotOfflineActiveEvent::from_wire(*j)),
    {
        let id = read_i64(j, "qq")?;
        Ok(BotOfflineActiveEvent { id })
    }
}

/// The bot's account was forced offline by another login.
#[derive(Clone, Debug, PartialEq, Eq)]
pub struct BotOfflineForcedEvent {
    pub id: i64,
    pub title: String,
    pub message: String,
}

impl BotOfflineForcedEvent {
    pub open spec fn from_wire(j: Json) -> Option<BotOfflineForcedEvent> {
        match (
            int_of(field_of(j, "qq"@)),
            string_of(field_of(j, "title"@)),
            string_of(field_of(j, "message"@)),
        ) {
            (
                Some(id),
                Some(title),
                Some(message),
            ) => Some(
                BotOfflineForcedEvent {
                    id,
                    title,
                    message,
                },
            ),
            _ => None,
        }
    }

    pub fn decode(j: &Json) -> (r: Result<BotOfflineForcedEvent, DecodeError>)
        ensures
            agrees(r, BotOfflineForcedEvent::from_wire(*j)),
    {
        let id = read_i64(j, "qq")?;
        let title = read_string(j, "title")?;
        let message = read_string(j, "message")?;
        Ok(BotOfflineForcedEvent { id, title, message })
    }
}

/// The bot's account lost its connection.
#[derive(Clone, Debug, PartialEq, Eq)]
pub struct BotOfflineDroppedEvent {
    pub id: i64,
}

impl BotOfflineDroppedEvent {
    pub open spec fn from_wire(j: Json) -> Option<BotOfflineDroppedEvent> {
        match int_of(field_of(j, "qq"@)) {
            Some(id) => Some(BotOfflineDroppedEvent { id }),
            None => None,
        }
    }

    pub fn decode(j: &Json) -> (r: Result<BotOfflineDroppedEvent, DecodeError>)
        ensures
            agrees(r, BotOfflineDroppedEvent::from_wire(*j)),
    {
        let id = read_i64(j, "qq")?;
        Ok(BotOfflineDroppedEvent { id })
    }
}

/// The bot's account logged in again.
#[derive(Clone, Debug, PartialEq, Eq)]
pub struct BotReloginEvent {
    pub id: i64,
}

impl BotReloginEvent {
    pub open spec fn from_wire(j: Json) -> Option<BotReloginEvent> {
        match int_of(field_of(j, "qq"@)) {
            Some(id) => Some(BotReloginEvent { id }),
            None => None,
        }
    }

    pub fn decode(j: &Json) -> (r: Result<BotReloginEvent, DecodeError>)
        ensures
            agrees(r, BotReloginEvent::from_wire(*j)),
    {
        let id = read_i64(j, "qq")?;
        Ok(BotReloginEvent { id })
    }
}

/// The bot was muted in a group.
#[derive(Clone, Debug, PartialEq, Eq)]
pub struct BotMuteEvent {
    pub duration_secs: i32,
    pub operator: MemberDetails,
}

impl BotMuteEvent {
    pub open spec fn from_wire(j: Json) -> Option<BotMuteEvent> {
        match (
            i32_of(field_of(j, "durationSeconds"@)),
            nested(field_of(j, "operator"@), |x| MemberDetails::from_wire(x)),
        ) {
            (Some(duration_secs), Some(operator)) => Some(BotMuteEvent { duration_secs, operator }),
            _ => None,
        }
    }

    pub fn decode(j: &Json) -> (r: Result<BotMuteEvent, DecodeError>)
        ensures
            agrees(r, BotMuteEvent::from_wire(*j)),
    {
        let duration_secs = read_i32(j, "durationSeconds")?;
        let operator = MemberDetails::decode(require(j, "operator")?)?;
        Ok(BotMuteEvent { duration_secs, operator })
    }
}

/// The bot was unmuted in a group.
#[derive(Clone, Debug, PartialEq, Eq)]
pub struct BotUnmuteEvent {
    pub operator: MemberDetails,
}

impl BotUnmuteEvent {
    pub open spec fn from_wire(j: Json) -> Option<BotUnmuteEvent> {
        match nested(field_of(j, "operator"@), |x| MemberDetails::from_wire(x)) {
            Some(operator) => Some(BotUnmuteEvent { operator }),
            None => None,
        }
    }

    pub fn decode(j: &Json) -> (r: Result<BotUnmuteEvent, DecodeError>)
        ensures
            agrees(r, BotUnmuteEvent::from_wire(*j)),
    {
        let operator = MemberDetails::decode(require(j, "operator")?)?;
        Ok(BotUnmuteEvent { operator })
    }
}

/// The bot joined a group.
#[derive(Clone, Debug, PartialEq, Eq)]
pub struct BotJoinGroupEvent {
    pub group: GroupDetails,
    pub inviter: Option<MemberDetails>,
}

impl BotJoinGroupEvent {
    pub open spec fn from_wire(j: Json) -> Option<BotJoinGroupEvent> {
        match (
            nested(field_of(j, "group"@), |x| GroupDetails::from_wire(x)),
            opt_nested(field_of(j, "invitor"@), |x| MemberDetails::from_wire(x)),
        ) {
            (Some(group), Some(inviter)) => Some(BotJoinGroupEvent { group, inviter }),
            _ => None,
        }
    }

    pub fn decode(j: &Json) -> (r: Result<BotJoinGroupEvent, DecodeError>)
        ensures
            agrees(r, BotJoinGroupEvent::from_wire(*j)),
    {
        let group = GroupDetails::decode(require(j, "group")?)?;
        let inviter = match present(j, "invitor") {
            Some(x) => Some(MemberDetails::decode(x)?),
            None => None,
        };
        Ok(BotJoinGroupEvent { group, inviter })
    }
}

/// The bot left a group by itself.
#[derive(Clone, Debug, PartialEq, Eq)]
pub struct BotLeaveGroupActiveEvent {
    pub group: GroupDetails,
}

impl BotLeaveGroupActiveEvent {
    pub open spec fn from_wire(j: Json) -> Option<BotLeaveGroupActiveEvent> {
        match nested(field_of(j, "group"@), |x| GroupDetails::from_wire(x)) {
            Some(group) => Some(BotLeaveGroupActiveEvent { group }),
            None => None,
        }
    }

    pub fn decode(j: &Json) -> (r: Result<BotLeaveGroupActiveEvent, DecodeError>)
        ensures
            agrees(r, BotLeaveGroupActiveEvent::from_wire(*j)),
    {
        let group = GroupDetails::decode(require(j, "group")?)?;
        Ok(BotLeaveGroupActiveEvent { group })
    }
}

/// The bot was removed from a group.
#[derive(Clone, Debug, PartialEq, Eq)]
pub struct BotLeaveGroupKickedEvent {
    pub group: GroupDetails,
    pub operator: MemberDetails,
}

impl BotLeaveGroupKickedEvent {
    pub open spec fn from_wire(j: Json) -> Option<BotLeaveGroupKickedEvent> {
        match (
            nested(field_of(j, "group"@), |x| GroupDetails::from_wire(x)),
            nested(field_of(j, "operator"@), |x| MemberDetails::from_wire(x)),
        ) {
            (Some(group), Some(operator)) => Some(BotLeaveGroupKickedEvent { group, operator }),
            _ => None,
        }
    }

    pub fn decode(j: &Json) -> (r: Result<BotLeaveGroupKickedEvent, DecodeError>)
        ensures
            agrees(r, BotLeaveGroupKickedEvent::from_wire(*j)),
    {
        let group = GroupDetails::decode(require(j, "group")?)?;
        let operator = MemberDetails::decode(require(j, "operator")?)?;
        Ok(BotLeaveGroupKickedEvent { group, operator })
    }
}

/// A group of the bot was disbanded.
#[derive(Clone, Debug, PartialEq, Eq)]
pub struct BotLeaveGroupDisbandEvent {
    pub group: GroupDetails,
    pub operator: MemberDetails,
}

impl BotLeaveGroupDisbandEvent {
    pub open spec fn from_wire(j: Json) -> Option<BotLeaveGroupDisbandEvent> {
        match (
            nested(field_of(j, "group"@), |x| GroupDetails::from_wire(x)),
            nested(field_of(j, "operator"@), |x| MemberDetails::from_wire(x)),
        ) {
            (Some(group), Some(operator)) => Some(BotLeaveGroupDisbandEvent { group, operator }),
            _ => None,
        }
    }

    pub fn decode(j: &Json) -> (r: Result<BotLeaveGroupDisbandEvent, DecodeError>)
        ensures
            agrees(r, BotLeaveGroupDisbandEvent::from_wire(*j)),
    {
        let group = GroupDetails::decode(require(j, "group")?)?;
        let operator = MemberDetails::decode(require(j, "operator")?)?;
        Ok(BotLeaveGroupDisbandEvent { group, operator })
    }
}

/// The bot's rank in a group changed.
#[derive(Clone, Debug, PartialEq, Eq)]
pub struct BotPermissionChangeEvent {
    pub group: GroupDetails,
    pub original: MemberPermission,
    pub current: MemberPermission,
}

impl BotPermissionChangeEvent {
    pub open spec fn from_wire(j: Json) -> Option<BotPermissionChangeEvent> {
        match (
            nested(field_of(j, "group"@), |x| GroupDetails::from_wire(x)),
            nested(field_of(j, "origin"@), |x| MemberPermission::from_wire(x)),
            nested(field_of(j, "current"@), |x| MemberPermission::from_wire(x)),
        ) {
            (
                Some(group),
                Some(original),
                Some(current),
            ) => Some(
                BotPermissionChangeEvent {
                    group,
                    original,
                    current,
                },
            ),
            _ => None,
        }
    }

    pub fn decode(j: &Json) -> (r: Result<BotPermissionChangeEvent, DecodeError>)
        ensures
            agrees(r, BotPermissionChangeEvent::from_wire(*j)),
    {
        let group = GroupDetails::decode(require(j, "group")?)?;
        let original = MemberPermission::decode(require(j, "origin")?)?;
        let current = MemberPermission::decode(require(j, "current")?)?;
        Ok(BotPermissionChangeEvent { group, original, current })
    }
}

/// A friend recalled a message.
#[derive(Clone, Debug, PartialEq, Eq)]
pub struct FriendMessageRecallEvent {
    pub message_id: i32,
    pub sender_id: i64,
    pub time_secs: i64,
}

impl FriendMessageRecallEvent {
    pub open spec fn from_wire(j: Json) -> Option<FriendMessageRecallEvent> {
        match (
            i32_of(field_of(j, "messageId"@)),
            int_of(field_of(j, "authorId"@)),
            int_of(field_of(j, "time"@)),
        ) {
            (
                Some(message_id),
                Some(sender_id),
                Some(time_secs),
            ) => Some(
                FriendMessageRecallEvent {
                    message_id,
                    sender_id,
                    time_secs,
                },
            ),
            _ => None,
        }
    }

    pub fn decode(j: &Json) -> (r: Result<FriendMessageRecallEvent, DecodeError>)
        ensures
            agrees(r, FriendMessageRecallEvent::from_wire(*j)),
    {
        let message_id = read_i32(j, "messageId")?;
        let sender_id = read_i64(j, "authorId")?;
        let time_secs = read_i64(j, "time")?;
        Ok(FriendMessageRecallEvent { message_id, sender_id, time_secs })
    }
}

/// A friend was added.
#[derive(Clone, Debug, PartialEq, Eq)]
pub struct FriendAddEvent {
    pub friend: FriendDetails,
    pub was_stranger: bool,
}

impl FriendAddEvent {
    pub open spec fn from_wire(j: Json) -> Option<FriendAddEvent> {
        match (
            nested(field_of(j, "friend"@), |x| FriendDetails::from_wire(x)),
            bool_of(field_of(j, "stranger"@)),
        ) {
            (Some(friend), Some(was_stranger)) => Some(FriendAddEvent { friend, was_stranger }),
            _ => None,
        }
    }

    pub fn decode(j: &Json) -> (r: Result<FriendAddEvent, DecodeError>)
        ensures
            agrees(r, FriendAddEvent::from_wire(*j)),
    {
        let friend = FriendDetails::decode(require(j, "friend")?)?;
        let was_stranger = read_bool(j, "stranger")?;
        Ok(FriendAddEvent { friend, was_stranger })
    }
}

/// A friend was removed.
#[derive(Clone, Debug, PartialEq, Eq)]
pub struct FriendDeleteEvent {
    pub friend: FriendDetails,
}

impl FriendDeleteEvent {
    pub open spec fn from_wire(j: Json) -> Option<FriendDeleteEvent> {
        match nested(field_of(j, "friend"@), |x| FriendDetails::from_wire(x)) {
            Some(friend) => Some(FriendDeleteEvent { friend }),
            None => None,
        }
    }

    pub fn decode(j: &Json) -> (r: Result<FriendDeleteEvent, DecodeError>)
        ensures
            agrees(r, FriendDeleteEvent::from_wire(*j)),
    {
        let friend = FriendDetails::decode(require(j, "friend")?)?;
        Ok(FriendDeleteEvent { friend })
    }
}

/// A friend changed nickname.
#[derive(Clone, Debug, PartialEq, Eq)]
pub struct FriendNicknameChangeEvent {
    pub friend: FriendDetails,
    pub original: String,
    pub current: String,
}

impl FriendNicknameChangeEvent {
    pub open spec fn from_wire(j: Json) -> Option<FriendNicknameChangeEvent> {
        match (
            nested(field_of(j, "friend"@), |x| FriendDetails::from_wire(x)),
            string_of(field_of(j, "from"@)),
            string_of(field_of(j, "to"@)),
        ) {
            (
                Some(friend),
                Some(original),
                Some(current),
            ) => Some(
                FriendNicknameChangeEvent {
                    friend,
                    original,
                    current,
                },
            ),
            _ => None,
        }
    }

    pub fn decode(j: &Json) -> (r: Result<FriendNicknameChangeEvent, DecodeError>)
        ensures
            agrees(r, FriendNicknameChangeEvent::from_wire(*j)),
    {
        let friend = FriendDetails::decode(require(j, "friend")?)?;
        let original = read_string(j, "from")?;
        let current = read_string(j, "to")?;
        Ok(FriendNicknameChangeEvent { friend, original, current })
    }
}

/// A friend started or stopped typing.
#[derive(Clone, Debug, PartialEq, Eq)]
pub struct FriendTypingEvent {
    pub friend: FriendDetails,
    pub typing: bool,
}

impl FriendTypingEvent {
    pub open spec fn from_wire(j: Json) -> Option<FriendTypingEvent> {
        match (
            nested(field_of(j, "friend"@), |x| FriendDetails::from_wire(x)),
            bool_of(field_of(j, "inputting"@)),
        ) {
            (Some(friend), Some(typing)) => Some(FriendTypingEvent { friend, typing }),
            _ => None,
        }
    }

    pub fn decode(j: &Json) -> (r: Result<FriendTypingEvent, DecodeError>)
        ensures
            agrees(r, FriendTypingEvent::from_wire(*j)),
    {
        let friend = FriendDetails::decode(require(j, "friend")?)?;
        let typing = read_bool(j, "inputting")?;
        Ok(FriendTypingEvent { friend, typing })
    }
}

/// A message of a group was recalled.
#[derive(Clone, Debug, PartialEq, Eq)]
pub struct GroupMessageRecallEvent {
    pub message_id: i32,
    pub context: GroupDetails,
    pub sender_id: i64,
    pub time_secs: i64,
    pub operator: Option<MemberDetails>,
}

impl GroupMessageRecallEvent {
    pub open spec fn from_wire(j: Json) -> Option<GroupMessageRecallEvent> {
        match (
            i32_of(field_of(j, "messageId"@)),
            nested(field_of(j, "group"@), |x| GroupDetails::from_wire(x)),
            int_of(field_of(j, "authorId"@)),
            int_of(field_of(j, "time"@)),
            opt_nested(field_of(j, "operator"@), |x| MemberDetails::from_wire(x)),
        ) {
            (
                Some(message_id),
                Some(context),
                Some(sender_id),
                Some(time_secs),
                Some(operator),
            ) => Some(
                GroupMessageRecallEvent {
                    message_id,
                    context,
                    sender_id,
                    time_secs,
                    operator,
                },
            ),
            _ => None,
        }
    }

    pub fn decode(j: &Json) -> (r: Result<GroupMessageRecallEvent, DecodeError>)
        ensures
            agrees(r, GroupMessageRecallEvent::from_wire(*j)),
    {
        let message_id = read_i32(j, "messageId")?;
        let context = GroupDetails::decode(require(j, "group")?)?;
        let sender_id = read_i64(j, "authorId")?;
        let time_secs = read_i64(j, "time")?;
        let operator = match present(j, "operator") {
            Some(x) => Some(MemberDetails::decode(x)?),
            None => None,
        };
        Ok(GroupMessageRecallEvent { message_id, context, sender_id, time_secs, operator })
    }
}

/// A group was renamed.
#[derive(Clone, Debug, PartialEq, Eq)]
pub struct GroupNameChangeEvent {
    pub group: GroupDetails,
    pub original: String,
    pub current: String,
    pub operator: Option<MemberDetails>,
}

impl GroupNameChangeEvent {
    pub open spec fn from_wire(j: Json) -> Option<GroupNameChangeEvent> {
        match (
            nested(field_of(j, "group"@), |x| GroupDetails::from_wire(x)),
            string_of(field_of(j, "origin"@)),
            string_of(field_of(j, "current"@)),
            opt_nested(field_of(j, "operator"@), |x| MemberDetails::from_wire(x)),
        ) {
            (
                Some(group),
                Some(original),
                Some(current),
                Some(operator),
            ) => Some(
                GroupNameChangeEvent {
                    group,
                    original,
                    current,
                    operator,
                },
            ),
            _ => None,
        }
    }

    pub fn decode(j: &Json) -> (r: Result<GroupNameChangeEvent, DecodeError>)
        ensures
            agrees(r, GroupNameChangeEvent::from_wire(*j)),
    {
        let group = GroupDetails::decode(require(j, "group")?)?;
        let original = read_string(j, "origin")?;
        let current = read_string(j, "current")?;
        let operator = match present(j, "operator") {
            Some(x) => Some(MemberDetails::decode(x)?),
            None => None,
        };
        Ok(GroupNameChangeEvent { group, original, current, operator })
    }
}

/// Muting of all members of a group was switched.
#[derive(Clone, Debug, PartialEq, Eq)]
pub struct GroupMuteAllEvent {
    pub group: GroupDetails,
    pub original: bool,
    pub current: bool,
    pub operator: Option<MemberDetails>,
}

impl GroupMuteAllEvent {
    pub open spec fn from_wire(j: Json) -> Option<GroupMuteAllEvent> {
        match (
            nested(field_of(j, "group"@), |x| GroupDetails::from_wire(x)),
            bool_of(field_of(j, "origin"@)),
            bool_of(field_of(j, "current"@)),
            opt_nested(field_of(j, "operator"@), |x| MemberDetails::from_wire(x)),
        ) {
            (
                Some(group),
                Some(original),
                Some(current),
                Some(operator),
            ) => Some(
                GroupMuteAllEvent {
                    group,
                    original,
                    current,
                    operator,
                },
            ),
            _ => None,
        }
    }

    pub fn decode(j: &Json) -> (r: Result<GroupMuteAllEvent, DecodeError>)
        ensures
            agrees(r, GroupMuteAllEvent::from_wire(*j)),
    {
        let group = GroupDetails::decode(require(j, "group")?)?;
        let original = read_bool(j, "origin")?;
        let current = read_bool(j, "current")?;
        let operator = match present(j, "operator") {
            Some(x) => Some(MemberDetails::decode(x)?),
            None => None,
        };
        Ok(GroupMuteAllEvent { group, original, current, operator })
    }
}

/// Anonymous chat in a group was switched.
#[derive(Clone, Debug, PartialEq, Eq)]
pub struct GroupAllowAnonymousChatEvent {
    pub group: GroupDetails,
    pub original: bool,
    pub current: bool,
    pub operator: Option<MemberDetails>,
}

impl GroupAllowAnonymousChatEvent {
    pub open spec fn from_wire(j: Json) -> Option<GroupAllowAnonymousChatEvent> {
        match (
            nested(field_of(j, "group"@), |x| GroupDetails::from_wire(x)),
            bool_of(field_of(j, "origin"@)),
            bool_of(field_of(j, "current"@)),
            opt_nested(field_of(j, "operator"@), |x| MemberDetails::from_wire(x)),
        ) {
            (
                Some(group),
                Some(original),
                Some(current),
                Some(operator),
            ) => Some(
                GroupAllowAnonymousChatEvent {
                    group,
                    original,
                    current,
                    operator,
                },
            ),
            _ => None,
        }
    }

    pub fn decode(j: &Json) -> (r: Result<GroupAllowAnonymousChatEvent, DecodeError>)
        ensures
            agrees(r, GroupAllowAnonymousChatEvent::from_wire(*j)),
    {
        let group = GroupDetails::decode(require(j, "group")?)?;
        let original = read_bool(j, "origin")?;
        let current = read_bool(j, "current")?;
        let operator = match present(j, "operator") {
            Some(x) => Some(MemberDetails::decode(x)?),
            None => None,
        };
        Ok(GroupAllowAnonymousChatEvent { group, original, current, operator })
    }
}

/// Confess talk in a group was switched; `is_operator` tells whether the bot did it.
#[derive(Clone, Debug, PartialEq, Eq)]
pub struct GroupAllowConfessTalkEvent {
    pub group: GroupDetails,
    pub original: bool,
    pub current: bool,
    pub is_operator: bool,
}

impl GroupAllowConfessTalkEvent {
    pub open spec fn from_wire(j: Json) -> Option<GroupAllowConfessTalkEvent> {
        match (
            nested(field_of(j, "group"@), |x| GroupDetails::from_wire(x)),
            bool_of(field_of(j, "origin"@)),
            bool_of(field_of(j, "current"@)),
            bool_of(field_of(j, "isByBot"@)),
        ) {
            (
                Some(group),
                Some(original),
                Some(current),
                Some(is_operator),
            ) => Some(
                GroupAllowConfessTalkEvent {
                    group,
                    original,
                    current,
                    is_operator,
                },
            ),
            _ => None,
        }
    }

    pub fn decode(j: &Json) -> (r: Result<GroupAllowConfessTalkEvent, DecodeError>)
        ensures
            agrees(r, GroupAllowConfessTalkEvent::from_wire(*j)),
    {
        let group = GroupDetails::decode(require(j, "group")?)?;
        let original = read_bool(j, "origin")?;
        let current = read_bool(j, "current")?;
        let is_operator = read_bool(j, "isByBot")?;
        Ok(GroupAllowConfessTalkEvent { group, original, current, is_operator })
    }
}

/// Member invitations in a group were switched.
#[derive(Clone, Debug, PartialEq, Eq)]
pub struct GroupAllowMemberInviteEvent {
    pub group: GroupDetails,
    pub original: bool,
    pub current: bool,
    pub operator: Option<MemberDetails>,
}

impl GroupAllowMemberInviteEvent {
    pub open spec fn from_wire(j: Json) -> Option<GroupAllowMemberInviteEvent> {
        match (
            nested(field_of(j, "group"@), |x| GroupDetails::from_wire(x)),
            bool_of(field_of(j, "origin"@)),
            bool_of(field_of(j, "current"@)),
            opt_nested(field_of(j, "operator"@), |x| MemberDetails::from_wire(x)),
        ) {
            (
                Some(group),
                Some(original),
                Some(current),
                Some(operator),
            ) => Some(
                GroupAllowMemberInviteEvent {
                    group,
                    original,
                    current,
                    operator,
                },
            ),
            _ => None,
        }
    }

    pub fn decode(j: &Json) -> (r: Result<GroupAllowMemberInviteEvent, DecodeError>)
        ensures
            agrees(r, GroupAllowMemberInviteEvent::from_wire(*j)),
    {
        let group = GroupDetails::decode(require(j, "group")?)?;
        let original = read_bool(j, "origin")?;
        let current = read_bool(j, "current")?;
        let operator = match present(j, "operator") {
            Some(x) => Some(MemberDetails::decode(x)?),
            None => None,
        };
        Ok(GroupAllowMemberInviteEvent { group, original, current, operator })
    }
}

/// A member was muted.
#[derive(Clone, Debug, PartialEq, Eq)]
pub struct MemberMuteEvent {
    pub member: MemberDetails,
    pub duration_secs: i32,
    pub operator: Option<MemberDetails>,
}

impl MemberMuteEvent {
    pub open spec fn from_wire(j: Json) -> Option<MemberMuteEvent> {
        match (
            nested(field_of(j, "member"@), |x| MemberDetails::from_wire(x)),
            i32_of(field_of(j, "durationSeconds"@)),
            opt_nested(field_of(j, "operator"@), |x| MemberDetails::from_wire(x)),
        ) {
            (
                Some(member),
                Some(duration_secs),
                Some(operator),
            ) => Some(
                MemberMuteEvent {
                    member,
                    duration_secs,
                    operator,
                },
            ),
            _ => None,
        }
    }

    pub fn decode(j: &Json) -> (r: Result<MemberMuteEvent, DecodeError>)
        ensures
            agrees(r, MemberMuteEvent::from_wire(*j)),
    {
        let member = MemberDetails::decode(require(j, "member")?)?;
        let duration_secs = read_i32(j, "durationSeconds")?;
        let operator = match present(j, "operator") {
            Some(x) => Some(MemberDetails::decode(x)?),
            None => None,
        };
        Ok(MemberMuteEvent { member, duration_secs, operator })
    }
}

/// A member was unmuted.
#[derive(Clone, Debug, PartialEq, Eq)]
pub struct MemberUnmuteEvent {
    pub member: MemberDetails,
    pub operator: Option<MemberDetails>,
}

impl MemberUnmuteEvent {
    pub open spec fn from_wire(j: Json) -> Option<MemberUnmuteEvent> {
        match (
            nested(field_of(j, "member"@), |x| MemberDetails::from_wire(x)),
            opt_nested(field_of(j, "operator"@), |x| MemberDetails::from_wire(x)),
        ) {
            (Some(member), Some(operator)) => Some(MemberUnmuteEvent { member, operator }),
            _ => None,
        }
    }

    pub fn decode(j: &Json) -> (r: Result<MemberUnmuteEvent, DecodeError>)
        ensures
            agrees(r, MemberUnmuteEvent::from_wire(*j)),
    {
        let member = MemberDetails::decode(require(j, "member")?)?;
        let operator = match present(j, "operator") {
            Some(x) => Some(MemberDetails::decode(x)?),
            None => None,
        };
        Ok(MemberUnmuteEvent { member, operator })
    }
}

/// A member joined a group.
#[derive(Clone, Debug, PartialEq, Eq)]
pub struct MemberJoinEvent {
    pub member: MemberDetails,
    pub inviter: Option<MemberDetails>,
}

impl MemberJoinEvent {
    pub open spec fn from_wire(j: Json) -> Option<MemberJoinEvent> {
        match (
            nested(field_of(j, "member"@), |x| MemberDetails::from_wire(x)),
            opt_nested(field_of(j, "invitor"@), |x| MemberDetails::from_wire(x)),
        ) {
            (Some(member), Some(inviter)) => Some(MemberJoinEvent { member, inviter }),
            _ => None,
        }
    }

    pub fn decode(j: &Json) -> (r: Result<MemberJoinEvent, DecodeError>)
        ensures
            agrees(r, MemberJoinEvent::from_wire(*j)),
    {
        let member = MemberDetails::decode(require(j, "member")?)?;
        let inviter = match present(j, "invitor") {
            Some(x) => Some(MemberDetails::decode(x)?),
            None => None,
        };
        Ok(MemberJoinEvent { member, inviter })
    }
}

/// A member left a group.
#[derive(Clone, Debug, PartialEq, Eq)]
pub struct MemberLeaveActiveEvent {
    pub member: MemberDetails,
}

impl MemberLeaveActiveEvent {
    pub open spec fn from_wire(j: Json) -> Option<MemberLeaveActiveEvent> {
        match nested(field_of(j, "member"@), |x| MemberDetails::from_wire(x)) {
            Some(member) => Some(MemberLeaveActiveEvent { member }),
            None => None,
        }
    }

    pub fn decode(j: &Json) -> (r: Result<MemberLeaveActiveEvent, DecodeError>)
        ensures
            agrees(r, MemberLeaveActiveEvent::from_wire(*j)),
    {
        let member = MemberDetails::decode(require(j, "member")?)?;
        Ok(MemberLeaveActiveEvent { member })
    }
}

/// A member was removed from a group.
#[derive(Clone, Debug, PartialEq, Eq)]
pub struct MemberLeaveKickedEvent {
    pub member: MemberDetails,
    pub operator: Option<MemberDetails>,
}

impl MemberLeaveKickedEvent {
    pub open spec fn from_wire(j: Json) -> Option<MemberLeaveKickedEvent> {
        match (
            nested(field_of(j, "member"@), |x| MemberDetails::from_wire(x)),
            opt_nested(field_of(j, "operator"@), |x| MemberDetails::from_wire(x)),
        ) {
            (Some(member), Some(operator)) => Some(MemberLeaveKickedEvent { member, operator }),
            _ => None,
        }
    }

    pub fn decode(j: &Json) -> (r: Result<MemberLeaveKickedEvent, DecodeError>)
        ensures
            agrees(r, MemberLeaveKickedEvent::from_wire(*j)),
    {
        let member = MemberDetails::decode(require(j, "member")?)?;
        let operator = match present(j, "operator") {
            Some(x) => Some(MemberDetails::decode(x)?),
            None => None,
        };
        Ok(MemberLeaveKickedEvent { member, operator })
    }
}

/// A member's name card changed.
#[derive(Clone, Debug, PartialEq, Eq)]
pub struct MemberNameChangeEvent {
    pub member: MemberDetails,
    pub original: String,
    pub current: String,
}

impl MemberNameChangeEvent {
    pub open spec fn from_wire(j: Json) -> Option<MemberNameChangeEvent> {
        match (
            nested(field_of(j, "member"@), |x| MemberDetails::from_wire(x)),
            string_of(field_of(j, "origin"@)),
            string_of(field_of(j, "current"@)),
        ) {
            (
                Some(member),
                Some(original),
                Some(current),
            ) => Some(
                MemberNameChangeEvent {
                    member,
                    original,
                    current,
                },
            ),
            _ => None,
        }
    }

    pub fn decode(j: &Json) -> (r: Result<MemberNameChangeEvent, DecodeError>)
        ensures
            agrees(r, MemberNameChangeEvent::from_wire(*j)),
    {
        let member = MemberDetails::decode(require(j, "member")?)?;
        let original = read_string(j, "origin")?;
        let current = read_string(j, "current")?;
        Ok(MemberNameChangeEvent { member, original, current })
    }
}

/// A member's special title changed.
#[derive(Clone, Debug, PartialEq, Eq)]
pub struct MemberSpecialTitleChangeEvent {
    pub member: MemberDetails,
    pub original: String,
    pub current: String,
}

impl MemberSpecialTitleChangeEvent {
    pub open spec fn from_wire(j: Json) -> Option<MemberSpecialTitleChangeEvent> {
        match (
            nested(field_of(j, "member"@), |x| MemberDetails::from_wire(x)),
            string_of(field_of(j, "origin"@)),
            string_of(field_of(j, "current"@)),
        ) {
            (
                Some(member),
                Some(original),
                Some(current),
            ) => Some(
                MemberSpecialTitleChangeEvent {
                    member,
                    original,
                    current,
                },
            ),
            _ => None,
        }
    }

    pub fn decode(j: &Json) -> (r: Result<MemberSpecialTitleChangeEvent, DecodeError>)
        ensures
            agrees(r, MemberSpecialTitleChangeEvent::from_wire(*j)),
    {
        let member = MemberDetails::decode(require(j, "member")?)?;
        let original = read_string(j, "origin")?;
        let current = read_string(j, "current")?;
        Ok(MemberSpecialTitleChangeEvent { member, original, current })
    }
}

/// A member's rank changed.
#[derive(Clone, Debug, PartialEq, Eq)]
pub struct MemberPermissionChangeEvent {
    pub member: MemberDetails,
    pub original: MemberPermission,
    pub current: MemberPermission,
}

impl MemberPermissionChangeEvent {
    pub open spec fn from_wire(j: Json) -> Option<MemberPermissionChangeEvent> {
        match (
            nested(field_of(j, "member"@), |x| MemberDetails::from_wire(x)),
            nested(field_of(j, "origin"@), |x| MemberPermission::from_wire(x)),
            nested(field_of(j, "current"@), |x| MemberPermission::from_wire(x)),
        ) {
            (
                Some(member),
                Some(original),
                Some(current),
            ) => Some(
                MemberPermissionChangeEvent {
                    member,
                    original,
                    current,
                },
            ),
            _ => None,
        }
    }

    pub fn decode(j: &Json) -> (r: Result<MemberPermissionChangeEvent, DecodeError>)
        ensures
            agrees(r, MemberPermissionChangeEvent::from_wire(*j)),
    {
        let member = MemberDetails::decode(require(j, "member")?)?;
        let original = MemberPermission::decode(require(j, "origin")?)?;
        let current = MemberPermission::decode(require(j, "current")?)?;
        Ok(MemberPermissionChangeEvent { member, original, current })
    }
}

/// A member gained or lost an honor.
#[derive(Clone, Debug, PartialEq, Eq)]
pub struct MemberHonorChangeEvent {
    pub member: MemberDetails,
    pub action: MemberHonorChangeAction,
    pub honor: GroupHonor,
}

impl MemberHonorChangeEvent {
    pub open spec fn from_wire(j: Json) -> Option<MemberHonorChangeEvent> {
        match (
            nested(field_of(j, "member"@), |x| MemberDetails::from_wire(x)),
            nested(field_of(j, "action"@), |x| MemberHonorChangeAction::from_wire(x)),
            nested(field_of(j, "honor"@), |x| GroupHonor::from_wire(x)),
        ) {
            (
                Some(member),
                Some(action),
                Some(honor),
            ) => Some(
                MemberHonorChangeEvent {
                    member,
                    action,
                    honor,
                },
            ),
            _ => None,
        }
    }

    pub fn decode(j: &Json) -> (r: Result<MemberHonorChangeEvent, DecodeError>)
        ensures
            agrees(r, MemberHonorChangeEvent::from_wire(*j)),
    {
        let member = MemberDetails::decode(require(j, "member")?)?;
        let action = MemberHonorChangeAction::decode(require(j, "action")?)?;
        let honor = GroupHonor::decode(require(j, "honor")?)?;
        Ok(MemberHonorChangeEvent { member, action, honor })
    }
}

/// Another client of the bot's account came online.
#[derive(Clone, Debug, PartialEq, Eq)]
pub struct OtherClientOnlineEvent {
    pub client: OtherClientDetails,
}

impl OtherClientOnlineEvent {
    pub open spec fn from_wire(j: Json) -> Option<OtherClientOnlineEvent> {
        match nested(field_of(j, "client"@), |x| OtherClientDetails::from_wire(x)) {
            Some(client) => Some(OtherClientOnlineEvent { client }),
            None => None,
        }
    }

    pub fn decode(j: &Json) -> (r: Result<OtherClientOnlineEvent, DecodeError>)
        ensures
            agrees(r, OtherClientOnlineEvent::from_wire(*j)),
    {
        let client = OtherClientDetails::decode(require(j, "client")?)?;
        Ok(OtherClientOnlineEvent { client })
    }
}

/// Another client of the bot's account went offline.
#[derive(Clone, Debug, PartialEq, Eq)]
pub struct OtherClientOfflineEvent {
    pub client: OtherClientDetails,
}

impl OtherClientOfflineEvent {
    pub open spec fn from_wire(j: Json) -> Option<OtherClientOfflineEvent> {
        match nested(field_of(j, "client"@), |x| OtherClientDetails::from_wire(x)) {
            Some(client) => Some(OtherClientOfflineEvent { client }),
            None => None,
        }
    }

    pub fn decode(j: &Json) -> (r: Result<OtherClientOfflineEvent, DecodeError>)
        ensures
            agrees(r, OtherClientOfflineEvent::from_wire(*j)),
    {
        let client = OtherClientDetails::decode(require(j, "client")?)?;
        Ok(OtherClientOfflineEvent { client })
    }
}

/// A user asks to become a friend.
#[derive(Clone, Debug, PartialEq, Eq)]
pub struct NewFriendRequestEvent {
    pub event_id: i64,
    pub from_id: i64,
    pub from_nickname: String,
    pub group_id: i64,
    pub message: String,
}

impl NewFriendRequestEvent {
    pub open spec fn from_wire(j: Json) -> Option<NewFriendRequestEvent> {
        match (
            int_of(field_of(j, "eventId"@)),
            int_of(field_of(j, "fromId"@)),
            string_of(field_of(j, "nick"@)),
            int_of(field_of(j, "groupId"@)),
            string_of(field_of(j, "message"@)),
        ) {
            (
                Some(event_id),
                Some(from_id),
                Some(from_nickname),
                Some(group_id),
                Some(message),
            ) => Some(
                NewFriendRequestEvent {
                    event_id,
                    from_id,
                    from_nickname,
                    group_id,
                    message,
                },
            ),
            _ => None,
        }
    }

    pub fn decode(j: &Json) -> (r: Result<NewFriendRequestEvent, DecodeError>)
        ensures
            agrees(r, NewFriendRequestEvent::from_wire(*j)),
    {
        let event_id = read_i64(j, "eventId")?;
        let from_id = read_i64(j, "fromId")?;
        let from_nickname = read_string(j, "nick")?;
        let group_id = read_i64(j, "groupId")?;
        let message = read_string(j, "message")?;
        Ok(NewFriendRequestEvent { event_id, from_id, from_nickname, group_id, message })
    }
}

/// A user asks to join a group of the bot.
#[derive(Clone, Debug, PartialEq, Eq)]
pub struct MemberJoinRequestEvent {
    pub event_id: i64,
    pub from_id: i64,
    pub from_nickname: String,
    pub group_id: i64,
    pub group_name: String,
    pub inviter_id: Option<i64>,
    pub message: String,
}

impl MemberJoinRequestEvent {
    pub open spec fn from_wire(j: Json) -> Option<MemberJoinRequestEvent> {
        match (
            int_of(field_of(j, "eventId"@)),
            int_of(field_of(j, "fromId"@)),
            string_of(field_of(j, "nick"@)),
            int_of(field_of(j, "groupId"@)),
            string_of(field_of(j, "groupName"@)),
            opt_int_of(field_of(j, "invitorId"@)),
            string_of(field_of(j, "message"@)),
        ) {
            (
                Some(event_id),
                Some(from_id),
                Some(from_nickname),
                Some(group_id),
                Some(group_name),
                Some(inviter_id),
                Some(message),
            ) => Some(
                MemberJoinRequestEvent {
                    event_id,
                    from_id,
                    from_nickname,
                    group_id,
                    group_name,
                    inviter_id,
                    message,
                },
            ),
            _ => None,
        }
    }

    pub fn decode(j: &Json) -> (r: Result<MemberJoinRequestEvent, DecodeError>)
        ensures
            agrees(r, MemberJoinRequestEvent::from_wire(*j)),
    {
        let event_id = read_i64(j, "eventId")?;
        let from_id = read_i64(j, "fromId")?;
        let from_nickname = read_string(j, "nick")?;
        let group_id = read_i64(j, "groupId")?;
        let group_name = read_string(j, "groupName")?;
        let inviter_id = read_opt_i64(j, "invitorId")?;
        let message = read_string(j, "message")?;
        Ok(
            MemberJoinRequestEvent {
                event_id,
                from_id,
                from_nickname,
                group_id,
                group_name,
                inviter_id,
                message,
            },
        )
    }
}

/// The bot is invited to a group.
#[derive(Clone, Debug, PartialEq, Eq)]
pub struct BotInvitedJoinGroupRequestEvent {
    pub event_id: i64,
    pub from_id: i64,
    pub from_nickname: String,
    pub group_id: i64,
    pub group_name: String,
}

impl BotInvitedJoinGroupRequestEvent {
    pub open spec fn from_wire(j: Json) -> Option<BotInvitedJoinGroupRequestEvent> {
        match (
            int_of(field_of(j, "eventId"@)),
            int_of(field_of(j, "fromId"@)),
            string_of(field_of(j, "nick"@)),
            int_of(field_of(j, "groupId"@)),
            string_of(field_of(j, "groupName"@)),
        ) {
            (
                Some(event_id),
                Some(from_id),
                Some(from_nickname),
                Some(group_id),
                Some(group_name),
            ) => Some(
                BotInvitedJoinGroupRequestEvent {
                    event_id,
                    from_id,
                    from_nickname,
                    group_id,
                    group_name,
                },
            ),
            _ => None,
        }
    }

    pub fn decode(j: &Json) -> (r: Result<BotInvitedJoinGroupRequestEvent, DecodeError>)
        ensures
            agrees(r, BotInvitedJoinGroupRequestEvent::from_wire(*j)),
    {
        let event_id = read_i64(j, "eventId")?;
        let from_id = read_i64(j, "fromId")?;
        let from_nickname = read_string(j, "nick")?;
        let group_id = read_i64(j, "groupId")?;
        let group_name = read_string(j, "groupName")?;
        Ok(
            BotInvitedJoinGroupRequestEvent {
                event_id,
                from_id,
                from_nickname,
                group_id,
                group_name,
            },
        )
    }
}


impl BotMuteEvent {
    pub fn duration(&self) -> (r: Duration)
        ensures
            r == duration_of_secs(self.duration_secs as u64),
    {
        secs_duration(self.duration_secs as u64)
    }
}

impl FriendMessageRecallEvent {
    /// The recalled message; `None` when the wire id is 0.
    pub fn message(&self) -> (r: Option<MessageHandle>)
        ensures
            handle_matches(r, nonzero(self.message_id), Some(self.sender_id)),
    {
        if self.message_id != 0 {
            Some(Bot.get_message(self.message_id, self.sender_id))
        } else {
            None
        }
    }

    pub fn sender(&self) -> (r: FriendHandle)
        ensures
            r@ == self.sender_id,
    {
        Bot.get_friend(self.sender_id)
    }

    /// The instant `time_secs` seconds after the epoch.
    pub fn time(&self) -> (r: Option<SystemTime>)
        ensures
            0 <= self.time_secs <= i32::MAX ==> r is Some,
    {
        epoch_plus_secs(self.time_secs as u64)
    }
}

impl GroupMessageRecallEvent {
    /// The recalled message; `None` when the wire id is 0.
    pub fn message(&self) -> (r: Option<MessageHandle>)
        ensures
            handle_matches(r, nonzero(self.message_id), Some(self.context.id)),
    {
        if self.message_id != 0 {
            Some(Bot.get_message(self.message_id, self.context.id))
        } else {
            None
        }
    }

    pub fn sender(&self) -> (r: MemberHandle)
        ensures
            r@ == (self.sender_id, self.context.id),
    {
        self.context.handle().get_member(self.sender_id)
    }

    /// The instant `time_secs` seconds after the epoch.
    pub fn time(&self) -> (r: Option<SystemTime>)
        ensures
            0 <= self.time_secs <= i32::MAX ==> r is Some,
    {
        epoch_plus_secs(self.time_secs as u64)
    }
}

impl GroupMessageRecallEvent {
    /// Whether the bot itself did it, which the gateway tells by leaving
    /// the operator out.
    pub fn is_operator(&self) -> (r: bool)
        ensures
            r == self.operator is None,
    {
        self.operator.is_none()
    }
}

impl GroupNameChangeEvent {
    /// Whether the bot itself did it, which the gateway tells by leaving
    /// the operator out.
    pub fn is_operator(&self) -> (r: bool)
        ensures
            r == self.operator is None,
    {
        self.operator.is_none()
    }
}

impl GroupMuteAllEvent {
    /// Whether the bot itself did it, which the gateway tells by leaving
    /// the operator out.
    pub fn is_operator(&self) -> (r: bool)
        ensures
            r == self.operator is None,
    {
        self.operator.is_none()
    }
}

impl GroupAllowAnonymousChatEvent {
    /// Whether the bot itself did it, which the gateway tells by leaving
    /// the operator out.
    pub fn is_operator(&self) -> (r: bool)
        ensures
            r == self.operator is None,
    {
        self.operator.is_none()
    }
}

impl GroupAllowMemberInviteEvent {
    /// Whether the bot itself did it, which the gateway tells by leaving
    /// the operator out.
    pub fn is_operator(&self) -> (r: bool)
        ensures
            r == self.operator is None,
    {
        self.operator.is_none()
    }
}

impl MemberMuteEvent {
    /// Whether the bot itself did it, which the gateway tells by leaving
    /// the operator out.
    pub fn is_operator(&self) -> (r: bool)
        ensures
            r == self.operator is None,
    {
        self.operator.is_none()
    }
}

impl MemberUnmuteEvent {
    /// Whether the bot itself did it, which the gateway tells by leaving
    /// the operator out.
    pub fn is_operator(&self) -> (r: bool)
        ensures
            r == self.operator is None,
    {
        self.operator.is_none()
    }
}

impl MemberLeaveKickedEvent {
    /// Whether the bot itself did it, which the gateway tells by leaving
    /// the operator out.
    pub fn is_operator(&self) -> (r: bool)
        ensures
            r == self.operator is None,
    {
        self.operator.is_none()
    }
}

impl MemberMuteEvent {
    pub fn duration(&self) -> (r: Duration)
        ensures
            r == duration_of_secs(self.duration_secs as u64),
    {
        secs_duration(self.duration_secs as u64)
    }
}

impl NewFriendRequestEvent {
    pub fn from(&self) -> (r: UserHandle)
        ensures
            r@ == self.from_id,
    {
        Bot.get_user(self.from_id)
    }

    /// The group through which the request came; `None` when the wire id
    /// is 0.
    pub fn group(&self) -> (r: Option<GroupHandle>)
        ensures
            match r {
                Some(g) => self.group_id != 0 && g@ == self.group_id,
                None => self.group_id == 0,
            },
    {
        if self.group_id != 0 {
            Some(Bot.get_group(self.group_id))
        } else {
            None
        }
    }
}

impl MemberJoinRequestEvent {
    pub fn from(&self) -> (r: UserHandle)
        ensures
            r@ == self.from_id,
    {
        Bot.get_user(self.from_id)
    }

    pub fn group(&self) -> (r: GroupHandle)
        ensures
            r@ == self.group_id,
    {
        Bot.get_group(self.group_id)
    }

    pub fn inviter(&self) -> (r: Option<MemberHandle>)
        ensures
            match self.inviter_id {
                Some(i) => r matches Some(h) && h@ == (i, self.group_id),
                None => r is None,
            },
    {
        match self.inviter_id {
            Some(i) => Some(Bot.get_group(self.group_id).get_member(i)),
            None => None,
        }
    }
}

impl BotInvitedJoinGroupRequestEvent {
    pub fn from(&self) -> (r: UserHandle)
        ensures
            r@ == self.from_id,
    {
        Bot.get_user(self.from_id)
    }

    pub fn group(&self) -> (r: GroupHandle)
        ensures
            r@ == self.group_id,
    {
        Bot.get_group(self.group_id)
    }
}

impl NewFriendRequestEvent {
    /// The answer that accepts the request.
    pub fn accept_args(&self) -> (r: HandleNewFriendRequestArgs)
        ensures
            r == (HandleNewFriendRequestArgs {
                event_id: self.event_id,
                from_id: self.from_id,
                operation: NewFriendRequestOperation::Accept,
            }),
    {
        HandleNewFriendRequestArgs {
            event_id: self.event_id,
            from_id: self.from_id,
            operation: NewFriendRequestOperation::Accept,
        }
    }

    /// The answer that rejects the request, blocking the user when asked.
    pub fn reject_args(&self, block: bool) -> (r: HandleNewFriendRequestArgs)
        ensures
            r.event_id == self.event_id,
            r.from_id == self.from_id,
            r.operation == if block {
                NewFriendRequestOperation::RejectAndBlock
            } else {
                NewFriendRequestOperation::Reject
            },
    {
        HandleNewFriendRequestArgs {
            event_id: self.event_id,
            from_id: self.from_id,
            operation: if block {
                NewFriendRequestOperation::RejectAndBlock
            } else {
                NewFriendRequestOperation::Reject
            },
        }
    }
}

impl MemberJoinRequestEvent {
    /// The answer that accepts the request.
    pub fn accept_args(&self) -> (r: HandleMemberJoinRequestArgs)
        ensures
            r.event_id == self.event_id,
            r.from_id == self.from_id,
            r.group_id == self.group_id,
            r.operation == MemberJoinRequestOperation::Accept,
            r.message@.len() == 0,
    {
        HandleMemberJoinRequestArgs {
            event_id: self.event_id,
            from_id: self.from_id,
            group_id: self.group_id,
            operation: MemberJoinRequestOperation::Accept,
            message: String::new(),
        }
    }

    /// The answer that rejects the request with a message (empty when
    /// none), blocking the user when asked.
    pub fn reject_args(&self, message: Option<String>, block: bool) -> (r: HandleMemberJoinRequestArgs)
        ensures
            r.event_id == self.event_id,
            r.from_id == self.from_id,
            r.group_id == self.group_id,
            r.operation == if block {
                MemberJoinRequestOperation::RejectAndBlock
            } else {
                MemberJoinRequestOperation::Reject
            },
            match message {
                Some(m) => r.message == m,
                None => r.message@.len() == 0,
            },
    {
        HandleMemberJoinRequestArgs {
            event_id: self.event_id,
            from_id: self.from_id,
            group_id: self.group_id,
            operation: if block {
                MemberJoinRequestOperation::RejectAndBlock
            } else {
                MemberJoinRequestOperation::Reject
            },
            message: match message {
                Some(m) => m,
                None => String::new(),
            },
        }
    }

    /// The answer that ignores the request, blocking the user when asked.
    pub fn ignore_args(&self, block: bool) -> (r: HandleMemberJoinRequestArgs)
        ensures
            r.event_id == self.event_id,
            r.from_id == self.from_id,
            r.group_id == self.group_id,
            r.operation == if block {
                MemberJoinRequestOperation::IgnoreAndBlock
            } else {
                MemberJoinRequestOperation::Ignore
            },
            r.message@.len() == 0,
    {
        HandleMemberJoinRequestArgs {
            event_id: self.event_id,
            from_id: self.from_id,
            group_id: self.group_id,
            operation: if block {
                MemberJoinRequestOperation::IgnoreAndBlock
            } else {
                MemberJoinRequestOperation::Ignore
            },
            message: String::new(),
        }
    }
}

impl BotInvitedJoinGroupRequestEvent {
    /// The answer that accepts the invitation.
    pub fn accept_args(&self) -> (r: HandleBotInvitedJoinGroupRequestArgs)
        ensures
            r == (HandleBotInvitedJoinGroupRequestArgs {
                event_id: self.event_id,
                from_id: self.from_id,
                group_id: self.group_id,
                operation: BotInvitedJoinGroupRequestOperation::Accept,
            }),
    {
        HandleBotInvitedJoinGroupRequestArgs {
            event_id: self.event_id,
            from_id: self.from_id,
            group_id: self.group_id,
            operation: BotInvitedJoinGroupRequestOperation::Accept,
        }
    }

    /// The answer that ignores the invitation.
    pub fn ignore_args(&self) -> (r: HandleBotInvitedJoinGroupRequestArgs)
        ensures
            r == (HandleBotInvitedJoinGroupRequestArgs {
                event_id: self.event_id,
                from_id: self.from_id,
                group_id: self.group_id,
                operation: BotInvitedJoinGroupRequestOperation::Ignore,
            }),
    {
        HandleBotInvitedJoinGroupRequestArgs {
            event_id: self.event_id,
            from_id: self.from_id,
            group_id: self.group_id,
            operation: BotInvitedJoinGroupRequestOperation::Ignore,
        }
    }
}

/// One decoded wire payload: a message or an event.
#[derive(Debug)]
pub enum MessageOrEvent {
    Message(Message),
    Event(Event),
}

impl MessageOrEvent {
    /// Whether `j` decodes: as a message when its `type` names a message
    /// kind, as an event otherwise.
    pub open spec fn wire_ok(j: Json) -> bool {
        if Message::is_message_tag(j) {
            Message::wire_ok(j)
        } else {
            Event::wire_ok(j)
        }
    }

    pub open spec fn wire_matches(j: Json, x: MessageOrEvent) -> bool {
        match x {
            MessageOrEvent::Message(m) => Message::wire_matches(j, m),
            MessageOrEvent::Event(e) => Event::wire_matches(j, e),
        }
    }

    pub fn decode(j: &Json) -> (r: Result<MessageOrEvent, DecodeError>)
        ensures
            r is Ok <==> MessageOrEvent::wire_ok(*j),
            r matches Ok(x) ==> MessageOrEvent::wire_matches(*j, x),
    {
        if has_tag(j, "type", "FriendMessage") || has_tag(j, "type", "FriendSyncMessage") || has_tag(
            j,
            "type",
            "GroupMessage",
        ) || has_tag(j, "type", "GroupSyncMessage") || has_tag(j, "type", "TempMessage") || has_tag(
            j,
            "type",
            "TempSyncMessage",
        ) || has_tag(j, "type", "StrangerMessage") || has_tag(j, "type", "StrangerSyncMessage")
            || has_tag(j, "type", "OtherClientMessage") {
            Ok(MessageOrEvent::Message(Message::decode(j)?))
        } else {
            Ok(MessageOrEvent::Event(Event::decode(j)?))
        }
    }
}

/// Any event the gateway reports.
#[derive(Debug)]
pub enum Event {
    BotOnline(BotOnlineEvent),
    BotOfflineActive(BotOfflineActiveEvent),
    BotOfflineForced(BotOfflineForcedEvent),
    BotOfflineDropped(BotOfflineDroppedEvent),
    BotRelogin(BotReloginEvent),
    BotMute(BotMuteEvent),
    BotUnmute(BotUnmuteEvent),
    BotJoinGroup(BotJoinGroupEvent),
    BotLeaveGroupActive(BotLeaveGroupActiveEvent),
    BotLeaveGroupKicked(BotLeaveGroupKickedEvent),
    BotLeaveGroupDisband(BotLeaveGroupDisbandEvent),
    BotPermissionChange(BotPermissionChangeEvent),
    StrangerNudge(StrangerNudgeEvent),
    FriendMessageRecall(FriendMessageRecallEvent),
    FriendNudge(FriendNudgeEvent),
    FriendAdd(FriendAddEvent),
    FriendDelete(FriendDeleteEvent),
    FriendNicknameChange(FriendNicknameChangeEvent),
    FriendTyping(FriendTypingEvent),
    GroupMessageRecall(GroupMessageRecallEvent),
    GroupNudge(GroupNudgeEvent),
    GroupNameChange(GroupNameChangeEvent),
    GroupMuteAll(GroupMuteAllEvent),
    GroupAllowAnonymousChat(GroupAllowAnonymousChatEvent),
    GroupAllowConfessTalk(GroupAllowConfessTalkEvent),
    GroupAllowMemberInvite(GroupAllowMemberInviteEvent),
    MemberMute(MemberMuteEvent),
    MemberUnmute(MemberUnmuteEvent),
    MemberJoin(MemberJoinEvent),
    MemberLeaveActive(MemberLeaveActiveEvent),
    MemberLeaveKicked(MemberLeaveKickedEvent),
    MemberNameChange(MemberNameChangeEvent),
    MemberSpecialTitleChange(MemberSpecialTitleChangeEvent),
    MemberPermissionChange(MemberPermissionChangeEvent),
    MemberHonorChange(MemberHonorChangeEvent),
    OtherClientOnline(OtherClientOnlineEvent),
    OtherClientOffline(OtherClientOfflineEvent),
    NewFriendRequest(NewFriendRequestEvent),
    MemberJoinRequest(MemberJoinRequestEvent),
    BotInvitedJoinGroupRequest(BotInvitedJoinGroupRequestEvent),
    CommandExecuted(CommandExecutedEvent),
}

impl Event {
    /// Whether `j` decodes as an event: its `type` names an event kind and
    /// the rest decodes as that kind.
    pub open spec fn wire_ok(j: Json) -> bool {
        if is_tagged(j, "BotOnlineEvent"@) {
            BotOnlineEvent::from_wire(j) is Some
        } else if is_tagged(j, "BotOfflineEventActive"@) {
            BotOfflineActiveEvent::from_wire(j) is Some
        } else if is_tagged(j, "BotOfflineEventForce"@) {
            BotOfflineForcedEvent::from_wire(j) is Some
        } else if is_tagged(j, "BotOfflineEventDropped"@) {
            BotOfflineDroppedEvent::from_wire(j) is Some
        } else if is_tagged(j, "BotReloginEvent"@) {
            BotReloginEvent::from_wire(j) is Some
        } else if is_tagged(j, "GroupRecallEvent"@) {
            GroupMessageRecallEvent::from_wire(j) is Some
        } else if is_tagged(j, "FriendRecallEvent"@) {
            FriendMessageRecallEvent::from_wire(j) is Some
        } else if is_tagged(j, "BotGroupPermissionChangeEvent"@) {
            BotPermissionChangeEvent::from_wire(j) is Some
        } else if is_tagged(j, "BotMuteEvent"@) {
            BotMuteEvent::from_wire(j) is Some
        } else if is_tagged(j, "BotUnmuteEvent"@) {
            BotUnmuteEvent::from_wire(j) is Some
        } else if is_tagged(j, "BotJoinGroupEvent"@) {
            BotJoinGroupEvent::from_wire(j) is Some
        } else if is_tagged(j, "BotLeaveEventActive"@) {
            BotLeaveGroupActiveEvent::from_wire(j) is Some
        } else if is_tagged(j, "BotLeaveEventKick"@) {
            BotLeaveGroupKickedEvent::from_wire(j) is Some
        } else if is_tagged(j, "BotLeaveEventDisband"@) {
            BotLeaveGroupDisbandEvent::from_wire(j) is Some
        } else if is_tagged(j, "GroupNameChangeEvent"@) {
            GroupNameChangeEvent::from_wire(j) is Some
        } else if is_tagged(j, "GroupMuteAllEvent"@) {
            GroupMuteAllEvent::from_wire(j) is Some
        } else if is_tagged(j, "GroupAllowAnonymousChatEvent"@) {
            GroupAllowAnonymousChatEvent::from_wire(j) is Some
        } else if is_tagged(j, "GroupAllowConfessTalkEvent"@) {
            GroupAllowConfessTalkEvent::from_wire(j) is Some
        } else if is_tagged(j, "GroupAllowMemberInviteEvent"@) {
            GroupAllowMemberInviteEvent::from_wire(j) is Some
        } else if is_tagged(j, "MemberJoinEvent"@) {
            MemberJoinEvent::from_wire(j) is Some
        } else if is_tagged(j, "MemberLeaveEventKick"@) {
            MemberLeaveKickedEvent::from_wire(j) is Some
        } else if is_tagged(j, "MemberLeaveEventQuit"@) {
            MemberLeaveActiveEvent::from_wire(j) is Some
        } else if is_tagged(j, "MemberCardChangeEvent"@) {
            MemberNameChangeEvent::from_wire(j) is Some
        } else if is_tagged(j, "MemberSpecialTitleChangeEvent"@) {
            MemberSpecialTitleChangeEvent::from_wire(j) is Some
        } else if is_tagged(j, "MemberPermissionChangeEvent"@) {
            MemberPermissionChangeEvent::from_wire(j) is Some
        } else if is_tagged(j, "MemberMuteEvent"@) {
            MemberMuteEvent::from_wire(j) is Some
        } else if is_tagged(j, "MemberUnmuteEvent"@) {
            MemberUnmuteEvent::from_wire(j) is Some
        } else if is_tagged(j, "NewFriendRequestEvent"@) {
            NewFriendRequestEvent::from_wire(j) is Some
        } else if is_tagged(j, "MemberJoinRequestEvent"@) {
            MemberJoinRequestEvent::from_wire(j) is Some
        } else if is_tagged(j, "BotInvitedJoinGroupRequestEvent"@) {
            BotInvitedJoinGroupRequestEvent::from_wire(j) is Some
        } else if is_tagged(j, "NudgeEvent"@) {
            nudge_wire_ok(j)
        } else if is_tagged(j, "FriendInputStatusChangedEvent"@) {
            FriendTypingEvent::from_wire(j) is Some
        } else if is_tagged(j, "FriendNickChangedEvent"@) {
            FriendNicknameChangeEvent::from_wire(j) is Some
        } else if is_tagged(j, "MemberHonorChangeEvent"@) {
            MemberHonorChangeEvent::from_wire(j) is Some
        } else if is_tagged(j, "OtherClientOnlineEvent"@) {
            OtherClientOnlineEvent::from_wire(j) is Some
        } else if is_tagged(j, "OtherClientOfflineEvent"@) {
            OtherClientOfflineEvent::from_wire(j) is Some
        } else if is_tagged(j, "CommandExecutedEvent"@) {
            CommandExecutedEvent::wire_ok(j)
        } else if is_tagged(j, "FriendAddEvent"@) {
            FriendAddEvent::from_wire(j) is Some
        } else if is_tagged(j, "FriendDeleteEvent"@) {
            FriendDeleteEvent::from_wire(j) is Some
        } else {
            false
        }
    }

    pub open spec fn wire_matches(j: Json, e: Event) -> bool {
        match e {
            Event::BotOnline(x) => is_tagged(j, "BotOnlineEvent"@)
                && BotOnlineEvent::from_wire(j) == Some(x),
            Event::BotOfflineActive(x) => is_tagged(j, "BotOfflineEventActive"@)
                && BotOfflineActiveEvent::from_wire(j) == Some(x),
            Event::BotOfflineForced(x) => is_tagged(j, "BotOfflineEventForce"@)
                && BotOfflineForcedEvent::from_wire(j) == Some(x),
            Event::BotOfflineDropped(x) => is_tagged(j, "BotOfflineEventDropped"@)
                && BotOfflineDroppedEvent::from_wire(j) == Some(x),
            Event::BotRelogin(x) => is_tagged(j, "BotReloginEvent"@)
                && BotReloginEvent::from_wire(j) == Some(x),
            Event::BotMute(x) => is_tagged(j, "BotMuteEvent"@)
                && BotMuteEvent::from_wire(j) == Some(x),
            Event::BotUnmute(x) => is_tagged(j, "BotUnmuteEvent"@)
                && BotUnmuteEvent::from_wire(j) == Some(x),
            Event::BotJoinGroup(x) => is_tagged(j, "BotJoinGroupEvent"@)
                && BotJoinGroupEvent::from_wire(j) == Some(x),
            Event::BotLeaveGroupActive(x) => is_tagged(j, "BotLeaveEventActive"@)
                && BotLeaveGroupActiveEvent::from_wire(j) == Some(x),
            Event::BotLeaveGroupKicked(x) => is_tagged(j, "BotLeaveEventKick"@)
                && BotLeaveGroupKickedEvent::from_wire(j) == Some(x),
            Event::BotLeaveGroupDisband(x) => is_tagged(j, "BotLeaveEventDisband"@)
                && BotLeaveGroupDisbandEvent::from_wire(j) == Some(x),
            Event::BotPermissionChange(x) => is_tagged(j, "BotGroupPermissionChangeEvent"@)
                && BotPermissionChangeEvent::from_wire(j) == Some(x),
            Event::StrangerNudge(x) => is_tagged(j, "NudgeEvent"@)
                && StrangerNudgeEvent::from_wire(j) == Some(x),
            Event::FriendMessageRecall(x) => is_tagged(j, "FriendRecallEvent"@)
                && FriendMessageRecallEvent::from_wire(j) == Some(x),
            Event::FriendNudge(x) => is_tagged(j, "NudgeEvent"@)
                && FriendNudgeEvent::from_wire(j) == Some(x),
            Event::FriendAdd(x) => is_tagged(j, "FriendAddEvent"@)
                && FriendAddEvent::from_wire(j) == Some(x),
            Event::FriendDelete(x) => is_tagged(j, "FriendDeleteEvent"@)
                && FriendDeleteEvent::from_wire(j) == Some(x),
            Event::FriendNicknameChange(x) => is_tagged(j, "FriendNickChangedEvent"@)
                && FriendNicknameChangeEvent::from_wire(j) == Some(x),
            Event::FriendTyping(x) => is_tagged(j, "FriendInputStatusChangedEvent"@)
                && FriendTypingEvent::from_wire(j) == Some(x),
            Event::GroupMessageRecall(x) => is_tagged(j, "GroupRecallEvent"@)
                && GroupMessageRecallEvent::from_wire(j) == Some(x),
            Event::GroupNudge(x) => is_tagged(j, "NudgeEvent"@)
                && GroupNudgeEvent::from_wire(j) == Some(x),
            Event::GroupNameChange(x) => is_tagged(j, "GroupNameChangeEvent"@)
                && GroupNameChangeEvent::from_wire(j) == Some(x),
            Event::GroupMuteAll(x) => is_tagged(j, "GroupMuteAllEvent"@)
                && GroupMuteAllEvent::from_wire(j) == Some(x),
            Event::GroupAllowAnonymousChat(x) => is_tagged(j, "GroupAllowAnonymousChatEvent"@)
                && GroupAllowAnonymousChatEvent::from_wire(j) == Some(x),
            Event::GroupAllowConfessTalk(x) => is_tagged(j, "GroupAllowConfessTalkEvent"@)
                && GroupAllowConfessTalkEvent::from_wire(j) == Some(x),
            Event::GroupAllowMemberInvite(x) => is_tagged(j, "GroupAllowMemberInviteEvent"@)
                && GroupAllowMemberInviteEvent::from_wire(j) == Some(x),
            Event::MemberMute(x) => is_tagged(j, "MemberMuteEvent"@)
                && MemberMuteEvent::from_wire(j) == Some(x),
            Event::MemberUnmute(x) => is_tagged(j, "MemberUnmuteEvent"@)
                && MemberUnmuteEvent::from_wire(j) == Some(x),
            Event::MemberJoin(x) => is_tagged(j, "MemberJoinEvent"@)
                && MemberJoinEvent::from_wire(j) == Some(x),
            Event::MemberLeaveActive(x) => is_tagged(j, "MemberLeaveEventQuit"@)
                && MemberLeaveActiveEvent::from_wire(j) == Some(x),
            Event::MemberLeaveKicked(x) => is_tagged(j, "MemberLeaveEventKick"@)
                && MemberLeaveKickedEvent::from_wire(j) == Some(x),
            Event::MemberNameChange(x) => is_tagged(j, "MemberCardChangeEvent"@)
                && MemberNameChangeEvent::from_wire(j) == Some(x),
            Event::MemberSpecialTitleChange(x) => is_tagged(j, "MemberSpecialTitleChangeEvent"@)
                && MemberSpecialTitleChangeEvent::from_wire(j) == Some(x),
            Event::MemberPermissionChange(x) => is_tagged(j, "MemberPermissionChangeEvent"@)
                && MemberPermissionChangeEvent::from_wire(j) == Some(x),
            Event::MemberHonorChange(x) => is_tagged(j, "MemberHonorChangeEvent"@)
                && MemberHonorChangeEvent::from_wire(j) == Some(x),
            Event::OtherClientOnline(x) => is_tagged(j, "OtherClientOnlineEvent"@)
                && OtherClientOnlineEvent::from_wire(j) == Some(x),
            Event::OtherClientOffline(x) => is_tagged(j, "OtherClientOfflineEvent"@)
                && OtherClientOfflineEvent::from_wire(j) == Some(x),
            Event::NewFriendRequest(x) => is_tagged(j, "NewFriendRequestEvent"@)
                && NewFriendRequestEvent::from_wire(j) == Some(x),
            Event::MemberJoinRequest(x) => is_tagged(j, "MemberJoinRequestEvent"@)
                && MemberJoinRequestEvent::from_wire(j) == Some(x),
            Event::BotInvitedJoinGroupRequest(x) => is_tagged(j, "BotInvitedJoinGroupRequestEvent"@)
                && BotInvitedJoinGroupRequestEvent::from_wire(j) == Some(x),
            Event::CommandExecuted(x) => is_tagged(j, "CommandExecutedEvent"@)
                && CommandExecutedEvent::wire_matches(j, x),
        }
    }

    /// Whether `j` is tagged as an event kind.
    pub open spec fn is_event_tag(j: Json) -> bool {
        is_tagged(j, "BotOnlineEvent"@)
            || is_tagged(j, "BotOfflineEventActive"@)
            || is_tagged(j, "BotOfflineEventForce"@)
            || is_tagged(j, "BotOfflineEventDropped"@)
            || is_tagged(j, "BotReloginEvent"@)
            || is_tagged(j, "GroupRecallEvent"@)
            || is_tagged(j, "FriendRecallEvent"@)
            || is_tagged(j, "BotGroupPermissionChangeEvent"@)
            || is_tagged(j, "BotMuteEvent"@)
            || is_tagged(j, "BotUnmuteEvent"@)
            || is_tagged(j, "BotJoinGroupEvent"@)
            || is_tagged(j, "BotLeaveEventActive"@)
            || is_tagged(j, "BotLeaveEventKick"@)
            || is_tagged(j, "BotLeaveEventDisband"@)
            || is_tagged(j, "GroupNameChangeEvent"@)
            || is_tagged(j, "GroupMuteAllEvent"@)
            || is_tagged(j, "GroupAllowAnonymousChatEvent"@)
            || is_tagged(j, "GroupAllowConfessTalkEvent"@)
            || is_tagged(j, "GroupAllowMemberInviteEvent"@)
            || is_tagged(j, "MemberJoinEvent"@)
            || is_tagged(j, "MemberLeaveEventKick"@)
            || is_tagged(j, "MemberLeaveEventQuit"@)
            || is_tagged(j, "MemberCardChangeEvent"@)
            || is_tagged(j, "MemberSpecialTitleChangeEvent"@)
            || is_tagged(j, "MemberPermissionChangeEvent"@)
            || is_tagged(j, "MemberMuteEvent"@)
            || is_tagged(j, "MemberUnmuteEvent"@)
            || is_tagged(j, "NewFriendRequestEvent"@)
            || is_tagged(j, "MemberJoinRequestEvent"@)
            || is_tagged(j, "BotInvitedJoinGroupRequestEvent"@)
            || is_tagged(j, "NudgeEvent"@)
            || is_tagged(j, "FriendInputStatusChangedEvent"@)
            || is_tagged(j, "FriendNickChangedEvent"@)
            || is_tagged(j, "MemberHonorChangeEvent"@)
            || is_tagged(j, "OtherClientOnlineEvent"@)
            || is_tagged(j, "OtherClientOfflineEvent"@)
            || is_tagged(j, "CommandExecutedEvent"@)
            || is_tagged(j, "FriendAddEvent"@)
            || is_tagged(j, "FriendDeleteEvent"@)
    }

    #[verifier::rlimit(100)]
    pub fn decode(j: &Json) -> (r: Result<Event, DecodeError>)
        ensures
            r is Ok <==> Event::wire_ok(*j),
            r matches Ok(e) ==> Event::wire_matches(*j, e),
    {
        if has_tag(j, "type", "BotOnlineEvent") {
            Ok(Event::BotOnline(BotOnlineEvent::decode(j)?))
        } else if has_tag(j, "type", "BotOfflineEventActive") {
            Ok(Event::BotOfflineActive(BotOfflineActiveEvent::decode(j)?))
        } else if has_tag(j, "type", "BotOfflineEventForce") {
            Ok(Event::BotOfflineForced(BotOfflineForcedEvent::decode(j)?))
        } else if has_tag(j, "type", "BotOfflineEventDropped") {
            Ok(Event::BotOfflineDropped(BotOfflineDroppedEvent::decode(j)?))
        } else if has_tag(j, "type", "BotReloginEvent") {
            Ok(Event::BotRelogin(BotReloginEvent::decode(j)?))
        } else if has_tag(j, "type", "GroupRecallEvent") {
            Ok(Event::GroupMessageRecall(GroupMessageRecallEvent::decode(j)?))
        } else if has_tag(j, "type", "FriendRecallEvent") {
            Ok(Event::FriendMessageRecall(FriendMessageRecallEvent::decode(j)?))
        } else if has_tag(j, "type", "BotGroupPermissionChangeEvent") {
            Ok(Event::BotPermissionChange(BotPermissionChangeEvent::decode(j)?))
        } else if has_tag(j, "type", "BotMuteEvent") {
            Ok(Event::BotMute(BotMuteEvent::decode(j)?))
        } else if has_tag(j, "type", "BotUnmuteEvent") {
            Ok(Event::BotUnmute(BotUnmuteEvent::decode(j)?))
        } else if has_tag(j, "type", "BotJoinGroupEvent") {
            Ok(Event::BotJoinGroup(BotJoinGroupEvent::decode(j)?))
        } else if has_tag(j, "type", "BotLeaveEventActive") {
            Ok(Event::BotLeaveGroupActive(BotLeaveGroupActiveEvent::decode(j)?))
        } else if has_tag(j, "type", "BotLeaveEventKick") {
            Ok(Event::BotLeaveGroupKicked(BotLeaveGroupKickedEvent::decode(j)?))
        } else if has_tag(j, "type", "BotLeaveEventDisband") {
            Ok(Event::BotLeaveGroupDisband(BotLeaveGroupDisbandEvent::decode(j)?))
        } else if has_tag(j, "type", "GroupNameChangeEvent") {
            Ok(Event::GroupNameChange(GroupNameChangeEvent::decode(j)?))
        } else if has_tag(j, "type", "GroupMuteAllEvent") {
            Ok(Event::GroupMuteAll(GroupMuteAllEvent::decode(j)?))
        } else if has_tag(j, "type", "GroupAllowAnonymousChatEvent") {
            Ok(Event::GroupAllowAnonymousChat(GroupAllowAnonymousChatEvent::decode(j)?))
        } else if has_tag(j, "type", "GroupAllowConfessTalkEvent") {
            Ok(Event::GroupAllowConfessTalk(GroupAllowConfessTalkEvent::decode(j)?))
        } else if has_tag(j, "type", "GroupAllowMemberInviteEvent") {
            Ok(Event::GroupAllowMemberInvite(GroupAllowMemberInviteEvent::decode(j)?))
        } else if has_tag(j, "type", "MemberJoinEvent") {
            Ok(Event::MemberJoin(MemberJoinEvent::decode(j)?))
        } else if has_tag(j, "type", "MemberLeaveEventKick") {
            Ok(Event::MemberLeaveKicked(MemberLeaveKickedEvent::decode(j)?))
        } else if has_tag(j, "type", "MemberLeaveEventQuit") {
            Ok(Event::MemberLeaveActive(MemberLeaveActiveEvent::decode(j)?))
        } else if has_tag(j, "type", "MemberCardChangeEvent") {
            Ok(Event::MemberNameChange(MemberNameChangeEvent::decode(j)?))
        } else if has_tag(j, "type", "MemberSpecialTitleChangeEvent") {
            Ok(Event::MemberSpecialTitleChange(MemberSpecialTitleChangeEvent::decode(j)?))
        } else if has_tag(j, "type", "MemberPermissionChangeEvent") {
            Ok(Event::MemberPermissionChange(MemberPermissionChangeEvent::decode(j)?))
        } else if has_tag(j, "type", "MemberMuteEvent") {
            Ok(Event::MemberMute(MemberMuteEvent::decode(j)?))
        } else if has_tag(j, "type", "MemberUnmuteEvent") {
            Ok(Event::MemberUnmute(MemberUnmuteEvent::decode(j)?))
        } else if has_tag(j, "type", "NewFriendRequestEvent") {
            Ok(Event::NewFriendRequest(NewFriendRequestEvent::decode(j)?))
        } else if has_tag(j, "type", "MemberJoinRequestEvent") {
            Ok(Event::MemberJoinRequest(MemberJoinRequestEvent::decode(j)?))
        } else if has_tag(j, "type", "BotInvitedJoinGroupRequestEvent") {
            Ok(Event::BotInvitedJoinGroupRequest(BotInvitedJoinGroupRequestEvent::decode(j)?))
        } else if has_tag(j, "type", "NudgeEvent") {
            decode_nudge(j)
        } else if has_tag(j, "type", "FriendInputStatusChangedEvent") {
            Ok(Event::FriendTyping(FriendTypingEvent::decode(j)?))
        } else if has_tag(j, "type", "FriendNickChangedEvent") {
            Ok(Event::FriendNicknameChange(FriendNicknameChangeEvent::decode(j)?))
        } else if has_tag(j, "type", "MemberHonorChangeEvent") {
            Ok(Event::MemberHonorChange(MemberHonorChangeEvent::decode(j)?))
        } else if has_tag(j, "type", "OtherClientOnlineEvent") {
            Ok(Event::OtherClientOnline(OtherClientOnlineEvent::decode(j)?))
        } else if has_tag(j, "type", "OtherClientOfflineEvent") {
            Ok(Event::OtherClientOffline(OtherClientOfflineEvent::decode(j)?))
        } else if has_tag(j, "type", "CommandExecutedEvent") {
            Ok(Event::CommandExecuted(CommandExecutedEvent::decode(j)?))
        } else if has_tag(j, "type", "FriendAddEvent") {
            Ok(Event::FriendAdd(FriendAddEvent::decode(j)?))
        } else if has_tag(j, "type", "FriendDeleteEvent") {
            Ok(Event::FriendDelete(FriendDeleteEvent::decode(j)?))
        } else {
            Err(DecodeError::UnknownTag)
        }
    }
}

} // verus!
