//! Remote entities: detail records decoded from the gateway, and the
//! handles that address an entity by its identifiers alone.
use vstd::prelude::*;
use std::time::{Duration, SystemTime};
use crate::time::{duration_of_secs, epoch_plus_secs, secs_duration};
use crate::message::OutgoingMessageContents;
use crate::request::{Announcement, GroupConfigUpdate, MemberInfoUpdate};
use crate::types::{
    AnnouncementArgs, FileArgs, FileLocator, GetFileInfoArgs, KickArgs, ListAnnouncementArgs,
    ListFileArgs, MemberArgs, MessageIdArgs, MkDirArgs, ModifyMemberAdminArgs, MoveFileArgs,
    MultiMemberArgs, MuteArgs, NudgeArgs, PublishAnnouncementArgs, RenameFileArgs,
    RoamingMessagesArgs, RoamingMessagesTarget, SendMessageArgs, SendTempMessageArgs,
    SubjectKind, TargetArgs, UpdateGroupConfigArgs, UpdateMemberInfoArgs,
};
use crate::json::{
    agrees, bool_of, lemma_field_decreases, opt_int_of, opt_nested, opt_string_of, present,
    read_opt_i64, read_opt_string, field_of, i32_of, int_of, read_bool, read_array, read_i32, read_i64, read_string,
    require, str_eq, string_of, nested, DecodeError, Json,
};

verus! {

/// A member's rank in a group.
#[derive(Clone, Copy, Debug, PartialEq, Eq, Hash, Structural)]
pub enum MemberPermission {
    Member,
    Admin,
    Owner,
}

impl MemberPermission {
    pub open spec fn from_wire(j: Json) -> Option<MemberPermission> {
        match j {
            Json::Str(s) => if s@ == "MEMBER"@ {
                Some(MemberPermission::Member)
            } else if s@ == "ADMINISTRATOR"@ {
                Some(MemberPermission::Admin)
            } else if s@ == "OWNER"@ {
                Some(MemberPermission::Owner)
            } else {
                None
            },
            _ => None,
        }
    }

    pub fn decode(j: &Json) -> (r: Result<MemberPermission, DecodeError>)
        ensures
            agrees(r, MemberPermission::from_wire(*j)),
    {
        match j {
            Json::Str(s) => if str_eq(s.as_str(), "MEMBER") {
                Ok(MemberPermission::Member)
            } else if str_eq(s.as_str(), "ADMINISTRATOR") {
                Ok(MemberPermission::Admin)
            } else if str_eq(s.as_str(), "OWNER") {
                Ok(MemberPermission::Owner)
            } else {
                Err(DecodeError::UnknownTag)
            },
            _ => Err(DecodeError::InvalidValue),
        }
    }
}

/// A user's declared sex.
#[derive(Clone, Copy, Debug, PartialEq, Eq, Hash, Structural)]
pub enum Sex {
    Male,
    Female,
    Unknown,
}

impl Sex {
    pub open spec fn from_wire(j: Json) -> Option<Sex> {
        match j {
            Json::Str(s) => if s@ == "MALE"@ {
                Some(Sex::Male)
            } else if s@ == "FEMALE"@ {
                Some(Sex::Female)
            } else if s@ == "UNKNOWN"@ {
                Some(Sex::Unknown)
            } else {
                None
            },
            _ => None,
        }
    }

    pub fn decode(j: &Json) -> (r: Result<Sex, DecodeError>)
        ensures
            agrees(r, Sex::from_wire(*j)),
    {
        match j {
            Json::Str(s) => if str_eq(s.as_str(), "MALE") {
                Ok(Sex::Male)
            } else if str_eq(s.as_str(), "FEMALE") {
                Ok(Sex::Female)
            } else if str_eq(s.as_str(), "UNKNOWN") {
                Ok(Sex::Unknown)
            } else {
                Err(DecodeError::UnknownTag)
            },
            _ => Err(DecodeError::InvalidValue),
        }
    }
}

/// A group honor; `Unknown` is the gateway's own catch-all value.
#[derive(Clone, Copy, Debug, PartialEq, Eq, Hash, Structural)]
pub enum GroupHonor {
    Talkative,
    Performer,
    Legend,
    Emotion,
    Bronze,
    Silver,
    Golden,
    Whirlwind,
    Richer,
    RedPacket,
    Unknown,
}

impl GroupHonor {
    pub open spec fn from_wire(j: Json) -> Option<GroupHonor> {
        match j {
            Json::Str(s) => if s@ == "龙王"@ {
                Some(GroupHonor::Talkative)
            } else if s@ == "群聊之火"@ {
                Some(GroupHonor::Performer)
            } else if s@ == "群聊炽焰"@ {
                Some(GroupHonor::Legend)
            } else if s@ == "冒尖小春笋"@ {
                Some(GroupHonor::Emotion)
            } else if s@ == "快乐源泉"@ {
                Some(GroupHonor::Bronze)
            } else if s@ == "学术新星"@ {
                Some(GroupHonor::Silver)
            } else if s@ == "至尊学神"@ {
                Some(GroupHonor::Golden)
            } else if s@ == "一笔当先"@ {
                Some(GroupHonor::Whirlwind)
            } else if s@ == "壕礼皇冠"@ {
                Some(GroupHonor::Richer)
            } else if s@ == "善财福禄寿"@ {
                Some(GroupHonor::RedPacket)
            } else if s@ == "未知群荣誉"@ {
                Some(GroupHonor::Unknown)
            } else {
                None
            },
            _ => None,
        }
    }

    pub fn decode(j: &Json) -> (r: Result<GroupHonor, DecodeError>)
        ensures
            agrees(r, GroupHonor::from_wire(*j)),
    {
        match j {
            Json::Str(s) => {
                let s = s.as_str();
                if str_eq(s, "龙王") {
                    Ok(GroupHonor::Talkative)
                } else if str_eq(s, "群聊之火") {
                    Ok(GroupHonor::Performer)
                } else if str_eq(s, "群聊炽焰") {
                    Ok(GroupHonor::Legend)
                } else if str_eq(s, "冒尖小春笋") {
                    Ok(GroupHonor::Emotion)
                } else if str_eq(s, "快乐源泉") {
                    Ok(GroupHonor::Bronze)
                } else if str_eq(s, "学术新星") {
                    Ok(GroupHonor::Silver)
                } else if str_eq(s, "至尊学神") {
                    Ok(GroupHonor::Golden)
                } else if str_eq(s, "一笔当先") {
                    Ok(GroupHonor::Whirlwind)
                } else if str_eq(s, "壕礼皇冠") {
                    Ok(GroupHonor::Richer)
                } else if str_eq(s, "善财福禄寿") {
                    Ok(GroupHonor::RedPacket)
                } else if str_eq(s, "未知群荣誉") {
                    Ok(GroupHonor::Unknown)
                } else {
                    Err(DecodeError::UnknownTag)
                }
            },
            _ => Err(DecodeError::InvalidValue),
        }
    }
}

/// A group as the gateway describes it, with the bot's own rank in it.
#[derive(Clone, Debug, PartialEq, Eq)]
pub struct GroupDetails {
    pub id: i64,
    pub name: String,
    pub permission: MemberPermission,
}

impl GroupDetails {
    pub open spec fn from_wire(j: Json) -> Option<GroupDetails> {
        match (
            int_of(field_of(j, "id"@)),
            string_of(field_of(j, "name"@)),
            nested(field_of(j, "permission"@), |p| MemberPermission::from_wire(p)),
        ) {
            (Some(id), Some(name), Some(permission)) => Some(GroupDetails { id, name, permission }),
            _ => None,
        }
    }

    pub fn decode(j: &Json) -> (r: Result<GroupDetails, DecodeError>)
        ensures
            agrees(r, GroupDetails::from_wire(*j)),
    {
        let id = read_i64(j, "id")?;
        let name = read_string(j, "name")?;
        let permission = MemberPermission::decode(require(j, "permission")?)?;
        Ok(GroupDetails { id, name, permission })
    }
}


/// The characters of `n` written in decimal, with a leading `-` when negative.
pub open spec fn decimal(n: int) -> Seq<char>
    decreases (if n < 0 { 1 - n } else { n }),
{
    if n < 0 {
        seq!['-'] + decimal(-n)
    } else if n < 10 {
        seq![seq!['0', '1', '2', '3', '4', '5', '6', '7', '8', '9'][n]]
    } else {
        decimal(n / 10) + seq![seq!['0', '1', '2', '3', '4', '5', '6', '7', '8', '9'][n % 10]]
    }
}

/// The link to a user's avatar picture.
pub open spec fn avatar_url_of(id: i64) -> Seq<char> {
    "https://q1.qlogo.cn/g?b=qq&nk="@ + decimal(id as int) + "&s=640"@
}

/// The text of one decimal digit.
fn digit_text(d: u64) -> (r: &'static str)
    requires
        d < 10,
    ensures
        r@ == seq![seq!['0', '1', '2', '3', '4', '5', '6', '7', '8', '9'][d as int]],
{
    match d {
        0 => {
            proof {
                reveal_strlit("0");
            }
            "0"
        },
        1 => {
            proof {
                reveal_strlit("1");
            }
            "1"
        },
        2 => {
            proof {
                reveal_strlit("2");
            }
            "2"
        },
        3 => {
            proof {
                reveal_strlit("3");
            }
            "3"
        },
        4 => {
            proof {
                reveal_strlit("4");
            }
            "4"
        },
        5 => {
            proof {
                reveal_strlit("5");
            }
            "5"
        },
        6 => {
            proof {
                reveal_strlit("6");
            }
            "6"
        },
        7 => {
            proof {
                reveal_strlit("7");
            }
            "7"
        },
        8 => {
            proof {
                reveal_strlit("8");
            }
            "8"
        },
        _ => {
            proof {
                reveal_strlit("9");
            }
            "9"
        },
    }
}

/// The decimal text of a non-negative number.
fn natural_text(n: u64) -> (r: String)
    ensures
        r@ == decimal(n as int),
    decreases n,
{
    if n < 10 {
        String::from_str(digit_text(n))
    } else {
        let mut s = natural_text(n / 10);
        s.append(digit_text(n % 10));
        s
    }
}

/// The decimal text of an integer, with a leading `-` when negative.
fn decimal_text(n: i64) -> (r: String)
    ensures
        r@ == decimal(n as int),
{
    if n < 0 {
        let magnitude: u64 = (0i128 - n as i128) as u64;
        let minus = String::from_str("-");
        proof {
            reveal_strlit("-");
        }
        minus.concat(natural_text(magnitude).as_str())
    } else {
        natural_text(n as u64)
    }
}

/// The link to the avatar picture of user `id`.
fn avatar_link(id: i64) -> (r: String)
    ensures
        r@ == avatar_url_of(id),
{
    let link = String::from_str("https://q1.qlogo.cn/g?b=qq&nk=").concat(decimal_text(id).as_str());
    link.concat("&s=640")
}

/// Marker for the bot itself, and the place where handles are minted from
/// raw identifiers without any remote call.
#[derive(Clone, Copy, Debug, PartialEq, Eq, Hash, Structural)]
pub struct Bot;

impl Bot {
    pub fn get_user(&self, id: i64) -> (r: UserHandle)
        ensures
            r@ == id,
    {
        UserHandle { id }
    }

    pub fn get_friend(&self, id: i64) -> (r: FriendHandle)
        ensures
            r@ == id,
    {
        FriendHandle { id }
    }

    pub fn get_stranger(&self, id: i64) -> (r: StrangerHandle)
        ensures
            r@ == id,
    {
        StrangerHandle { id }
    }

    pub fn get_group(&self, id: i64) -> (r: GroupHandle)
        ensures
            r@ == id,
    {
        GroupHandle { id }
    }

    pub fn get_other_client(&self, id: i64) -> (r: OtherClientHandle)
        ensures
            r@ == id,
    {
        OtherClientHandle { id }
    }

    /// The handle of message `id` in the conversation `context` (a user or
    /// group id).
    pub fn get_message(&self, id: i32, context: i64) -> (r: MessageHandle)
        ensures
            r@ == (id, context),
    {
        MessageHandle { id, context }
    }
}

/// What every handle of a user offers: its id, and re-addressing the same
/// user in another role.
pub trait AnyUserHandle {
    spec fn user_id(&self) -> i64;

    fn id(&self) -> (r: i64)
        ensures
            r == self.user_id(),
    ;

    fn to_user(&self) -> (r: UserHandle)
        ensures
            r@ == self.user_id(),
    {
        UserHandle { id: self.id() }
    }

    fn to_friend(&self) -> (r: FriendHandle)
        ensures
            r@ == self.user_id(),
    {
        FriendHandle { id: self.id() }
    }

    fn to_stranger(&self) -> (r: StrangerHandle)
        ensures
            r@ == self.user_id(),
    {
        StrangerHandle { id: self.id() }
    }

    fn to_member(&self, group: GroupHandle) -> (r: MemberHandle)
        ensures
            r@ == (self.user_id(), group@),
    {
        MemberHandle { id: self.id(), group }
    }

    fn avatar_url(&self) -> (r: String)
        ensures
            r@ == avatar_url_of(self.user_id()),
    {
        avatar_link(self.id())
    }
}

/// Any user, addressed by id.
#[derive(Clone, Copy, Debug, PartialEq, Eq, Hash, Structural)]
pub struct UserHandle {
    id: i64,
}

impl View for UserHandle {
    type V = i64;

    closed spec fn view(&self) -> i64 {
        self.id
    }
}

impl AnyUserHandle for UserHandle {
    closed spec fn user_id(&self) -> i64 {
        self.id
    }

    fn id(&self) -> (r: i64) {
        self.id
    }
}

/// A user's name card.
#[derive(Clone, Debug, PartialEq, Eq)]
pub struct UserDetails {
    pub id: i64,
    pub nickname: String,
    pub remark: String,
}

impl UserDetails {
    pub open spec fn from_wire(j: Json) -> Option<UserDetails> {
        match (
            int_of(field_of(j, "id"@)),
            string_of(field_of(j, "nickname"@)),
            string_of(field_of(j, "remark"@)),
        ) {
            (Some(id), Some(nickname), Some(remark)) => Some(UserDetails { id, nickname, remark }),
            _ => None,
        }
    }

    pub fn decode(j: &Json) -> (r: Result<UserDetails, DecodeError>)
        ensures
            agrees(r, UserDetails::from_wire(*j)),
    {
        let id = read_i64(j, "id")?;
        let nickname = read_string(j, "nickname")?;
        let remark = read_string(j, "remark")?;
        Ok(UserDetails { id, nickname, remark })
    }

    pub fn handle(&self) -> (r: UserHandle)
        ensures
            r@ == self.id,
    {
        UserHandle { id: self.id }
    }
}

/// A friend of the bot, addressed by id.
#[derive(Clone, Copy, Debug, PartialEq, Eq, Hash, Structural)]
pub struct FriendHandle {
    id: i64,
}

impl View for FriendHandle {
    type V = i64;

    closed spec fn view(&self) -> i64 {
        self.id
    }
}

impl AnyUserHandle for FriendHandle {
    closed spec fn user_id(&self) -> i64 {
        self.id
    }

    fn id(&self) -> (r: i64) {
        self.id
    }
}

/// A friend's name card.
#[derive(Clone, Debug, PartialEq, Eq)]
pub struct FriendDetails(pub UserDetails);

impl FriendDetails {
    pub open spec fn from_wire(j: Json) -> Option<FriendDetails> {
        match UserDetails::from_wire(j) {
            Some(u) => Some(FriendDetails(u)),
            None => None,
        }
    }

    pub fn decode(j: &Json) -> (r: Result<FriendDetails, DecodeError>)
        ensures
            agrees(r, FriendDetails::from_wire(*j)),
    {
        Ok(FriendDetails(UserDetails::decode(j)?))
    }

    pub fn handle(&self) -> (r: FriendHandle)
        ensures
            r@ == self.0.id,
    {
        FriendHandle { id: self.0.id }
    }
}

/// A user who is no friend of the bot, addressed by id.
#[derive(Clone, Copy, Debug, PartialEq, Eq, Hash, Structural)]
pub struct StrangerHandle {
    id: i64,
}

impl View for StrangerHandle {
    type V = i64;

    closed spec fn view(&self) -> i64 {
        self.id
    }
}

impl AnyUserHandle for StrangerHandle {
    closed spec fn user_id(&self) -> i64 {
        self.id
    }

    fn id(&self) -> (r: i64) {
        self.id
    }
}

/// A stranger's name card.
#[derive(Clone, Debug, PartialEq, Eq)]
pub struct StrangerDetails(pub UserDetails);

impl StrangerDetails {
    pub open spec fn from_wire(j: Json) -> Option<StrangerDetails> {
        match UserDetails::from_wire(j) {
            Some(u) => Some(StrangerDetails(u)),
            None => None,
        }
    }

    pub fn decode(j: &Json) -> (r: Result<StrangerDetails, DecodeError>)
        ensures
            agrees(r, StrangerDetails::from_wire(*j)),
    {
        Ok(StrangerDetails(UserDetails::decode(j)?))
    }

    pub fn handle(&self) -> (r: StrangerHandle)
        ensures
            r@ == self.0.id,
    {
        StrangerHandle { id: self.0.id }
    }
}

/// A group, addressed by id.
#[derive(Clone, Copy, Debug, PartialEq, Eq, Hash, Structural)]
pub struct GroupHandle {
    id: i64,
}

impl View for GroupHandle {
    type V = i64;

    closed spec fn view(&self) -> i64 {
        self.id
    }
}

impl GroupHandle {
    pub fn id(&self) -> (r: i64)
        ensures
            r == self@,
    {
        self.id
    }

    pub fn get_member(&self, id: i64) -> (r: MemberHandle)
        ensures
            r@ == (id, self@),
    {
        MemberHandle { id, group: *self }
    }

    pub fn get_file(&self, id: String) -> (r: FileHandle)
        ensures
            r@ == (id@, self@),
    {
        FileHandle { id, group: *self }
    }

    /// The root directory of the group's files, whose id is empty.
    pub fn get_files_root(&self) -> (r: FileHandle)
        ensures
            r@ == (Seq::<char>::empty(), self@),
    {
        self.get_file(String::new())
    }

    pub fn get_announcement(&self, id: String) -> (r: AnnouncementHandle)
        ensures
            r@ == (id@, self@),
    {
        AnnouncementHandle { id, group: *self }
    }
}

impl GroupDetails {
    pub fn handle(&self) -> (r: GroupHandle)
        ensures
            r@ == self.id,
    {
        GroupHandle { id: self.id }
    }
}

/// A member of a group, addressed by its user id and the group.
#[derive(Clone, Copy, Debug, PartialEq, Eq, Hash, Structural)]
pub struct MemberHandle {
    id: i64,
    group: GroupHandle,
}

impl View for MemberHandle {
    type V = (i64, i64);

    closed spec fn view(&self) -> (i64, i64) {
        (self.id, self.group.id)
    }
}

impl MemberHandle {
    pub fn group(&self) -> (r: GroupHandle)
        ensures
            r@ == self@.1,
    {
        self.group
    }
}

impl AnyUserHandle for MemberHandle {
    closed spec fn user_id(&self) -> i64 {
        self.id
    }

    fn id(&self) -> (r: i64) {
        self.id
    }
}


/// A member's name card in one group.
#[derive(Clone, Debug, PartialEq, Eq)]
pub struct MemberDetails {
    pub id: i64,
    pub member_name: String,
    pub special_title: String,
    pub permission: MemberPermission,
    pub join_time_secs: i32,
    pub last_speak_time_secs: i32,
    pub mute_time_remaining_secs: i32,
    pub group: GroupDetails,
}

impl MemberDetails {
    pub open spec fn from_wire(j: Json) -> Option<MemberDetails> {
        match (
            int_of(field_of(j, "id"@)),
            string_of(field_of(j, "memberName"@)),
            string_of(field_of(j, "specialTitle"@)),
            nested(field_of(j, "permission"@), |p| MemberPermission::from_wire(p)),
            i32_of(field_of(j, "joinTimestamp"@)),
            i32_of(field_of(j, "lastSpeakTimestamp"@)),
            i32_of(field_of(j, "muteTimeRemaining"@)),
            nested(field_of(j, "group"@), |g| GroupDetails::from_wire(g)),
        ) {
            (
                Some(id),
                Some(member_name),
                Some(special_title),
                Some(permission),
                Some(join_time_secs),
                Some(last_speak_time_secs),
                Some(mute_time_remaining_secs),
                Some(group),
            ) => Some(
                MemberDetails {
                    id,
                    member_name,
                    special_title,
                    permission,
                    join_time_secs,
                    last_speak_time_secs,
                    mute_time_remaining_secs,
                    group,
                },
            ),
            _ => None,
        }
    }

    pub fn decode(j: &Json) -> (r: Result<MemberDetails, DecodeError>)
        ensures
            agrees(r, MemberDetails::from_wire(*j)),
    {
        let id = read_i64(j, "id")?;
        let member_name = read_string(j, "memberName")?;
        let special_title = read_string(j, "specialTitle")?;
        let permission = MemberPermission::decode(require(j, "permission")?)?;
        let join_time_secs = read_i32(j, "joinTimestamp")?;
        let last_speak_time_secs = read_i32(j, "lastSpeakTimestamp")?;
        let mute_time_remaining_secs = read_i32(j, "muteTimeRemaining")?;
        let group = GroupDetails::decode(require(j, "group")?)?;
        Ok(
            MemberDetails {
                id,
                member_name,
                special_title,
                permission,
                join_time_secs,
                last_speak_time_secs,
                mute_time_remaining_secs,
                group,
            },
        )
    }

    pub fn handle(&self) -> (r: MemberHandle)
        ensures
            r@ == (self.id, self.group.id),
    {
        self.group.handle().get_member(self.id)
    }

    /// The instant `join_time_secs` seconds after the epoch.
    pub fn join_time(&self) -> (r: Option<SystemTime>)
        ensures
            0 <= self.join_time_secs ==> r is Some,
    {
        epoch_plus_secs(self.join_time_secs as u64)
    }

    /// The instant `last_speak_time_secs` seconds after the epoch.
    pub fn last_speak_time(&self) -> (r: Option<SystemTime>)
        ensures
            0 <= self.last_speak_time_secs ==> r is Some,
    {
        epoch_plus_secs(self.last_speak_time_secs as u64)
    }

    pub fn mute_time_remaining(&self) -> (r: Duration)
        ensures
            r == duration_of_secs(self.mute_time_remaining_secs as u64),
    {
        secs_duration(self.mute_time_remaining_secs as u64)
    }
}

/// A member's standing in a group's activity ranking.
#[derive(Clone, Debug, PartialEq, Eq)]
pub struct MemberActivity {
    pub rank: i32,
    pub points: i32,
    pub honors: Vec<GroupHonor>,
    pub temperature: i32,
}

impl MemberActivity {
    /// `honors` holds one decodable honor per element of `items`, in order.
    pub open spec fn honors_match(items: Seq<Json>, honors: Seq<GroupHonor>) -> bool {
        &&& honors.len() == items.len()
        &&& forall|i: int| 0 <= i < items.len() ==> GroupHonor::from_wire(#[trigger] items[i]) == Some(honors[i])
    }

    pub open spec fn wire_ok(j: Json) -> bool {
        &&& i32_of(field_of(j, "rank"@)) is Some
        &&& i32_of(field_of(j, "point"@)) is Some
        &&& i32_of(field_of(j, "temperature"@)) is Some
        &&& field_of(j, "honors"@) matches Some(Json::Array(v))
        &&& forall|i: int| 0 <= i < v@.len() ==> GroupHonor::from_wire(#[trigger] v@[i]) is Some
    }

    pub open spec fn wire_matches(j: Json, a: MemberActivity) -> bool {
        &&& i32_of(field_of(j, "rank"@)) == Some(a.rank)
        &&& i32_of(field_of(j, "point"@)) == Some(a.points)
        &&& i32_of(field_of(j, "temperature"@)) == Some(a.temperature)
        &&& field_of(j, "honors"@) matches Some(Json::Array(v))
        &&& MemberActivity::honors_match(v@, a.honors@)
    }

    pub fn decode(j: &Json) -> (r: Result<MemberActivity, DecodeError>)
        ensures
            r is Ok <==> MemberActivity::wire_ok(*j),
            r matches Ok(a) ==> MemberActivity::wire_matches(*j, a),
    {
        let rank = read_i32(j, "rank")?;
        let points = read_i32(j, "point")?;
        let items = read_array(j, "honors")?;
        let mut honors: Vec<GroupHonor> = Vec::new();
        let mut i: usize = 0;
        while i < items.len()
            invariant
                field_of(*j, "honors"@) == Some(Json::Array(*items)),
                i32_of(field_of(*j, "rank"@)) == Some(rank),
                i32_of(field_of(*j, "point"@)) == Some(points),
                i <= items@.len(),
                honors@.len() == i,
                forall|k: int| 0 <= k < i ==> GroupHonor::from_wire(#[trigger] items@[k]) == Some(honors@[k]),
            decreases items.len() - i,
        {
            let h = GroupHonor::decode(&items[i])?;
            honors.push(h);
            i += 1;
        }
        let temperature = read_i32(j, "temperature")?;
        Ok(MemberActivity { rank, points, honors, temperature })
    }
}

/// A member's name card together with the member's activity.
#[derive(Clone, Debug, PartialEq, Eq)]
pub struct MemberInfo {
    pub details: MemberDetails,
    pub activity: MemberActivity,
}

impl MemberInfo {
    pub open spec fn wire_ok(j: Json) -> bool {
        &&& MemberDetails::from_wire(j) is Some
        &&& field_of(j, "active"@) matches Some(a)
        &&& MemberActivity::wire_ok(a)
    }

    pub open spec fn wire_matches(j: Json, m: MemberInfo) -> bool {
        &&& MemberDetails::from_wire(j) == Some(m.details)
        &&& field_of(j, "active"@) matches Some(a)
        &&& MemberActivity::wire_matches(a, m.activity)
    }

    pub fn decode(j: &Json) -> (r: Result<MemberInfo, DecodeError>)
        ensures
            r is Ok <==> MemberInfo::wire_ok(*j),
            r matches Ok(m) ==> MemberInfo::wire_matches(*j, m),
    {
        let details = MemberDetails::decode(j)?;
        let activity = MemberActivity::decode(require(j, "active")?)?;
        Ok(MemberInfo { details, activity })
    }
}

/// Where a file can be downloaded from.
#[derive(Clone, Debug, PartialEq, Eq)]
pub struct FileDownloadInfo {
    pub url: String,
}

impl FileDownloadInfo {
    pub open spec fn from_wire(j: Json) -> Option<FileDownloadInfo> {
        match string_of(field_of(j, "url"@)) {
            Some(url) => Some(FileDownloadInfo { url }),
            None => None,
        }
    }

    pub fn decode(j: &Json) -> (r: Result<FileDownloadInfo, DecodeError>)
        ensures
            agrees(r, FileDownloadInfo::from_wire(*j)),
    {
        let url = read_string(j, "url")?;
        Ok(FileDownloadInfo { url })
    }
}

/// What a file entry holds beyond what a directory entry holds.
#[derive(Clone, Debug, PartialEq, Eq)]
pub struct FileMetadata {
    pub size: i64,
    pub sha1: String,
    pub md5: String,
    pub uploader_id: i64,
    pub upload_time_secs: i64,
    pub last_modify_time_secs: i64,
    pub download_info: Option<FileDownloadInfo>,
}

impl FileMetadata {
    /// The metadata of an entry: `Some(Some(m))` for a file, `Some(None)`
    /// for a directory, `None` for an entry that is neither. A file has
    /// every digest, uploader and time; a directory has size 0 and none of
    /// them, and no download link.
    pub open spec fn from_wire(j: Json) -> Option<Option<FileMetadata>> {
        match (
            bool_of(field_of(j, "isFile"@)),
            bool_of(field_of(j, "isDirectory"@)),
            int_of(field_of(j, "size"@)),
            opt_string_of(field_of(j, "sha1"@)),
            opt_string_of(field_of(j, "md5"@)),
            opt_int_of(field_of(j, "uploaderId"@)),
            opt_int_of(field_of(j, "uploadTime"@)),
            opt_int_of(field_of(j, "lastModifyTime"@)),
            opt_nested(field_of(j, "downloadInfo"@), |d| FileDownloadInfo::from_wire(d)),
        ) {
            (
                Some(true),
                Some(false),
                Some(size),
                Some(Some(sha1)),
                Some(Some(md5)),
                Some(Some(uploader_id)),
                Some(Some(upload_time_secs)),
                Some(Some(last_modify_time_secs)),
                Some(download_info),
            ) => Some(
                Some(
                    FileMetadata {
                        size,
                        sha1,
                        md5,
                        uploader_id,
                        upload_time_secs,
                        last_modify_time_secs,
                        download_info,
                    },
                ),
            ),
            (
                Some(false),
                Some(true),
                Some(0),
                Some(None),
                Some(None),
                Some(None),
                Some(None),
                Some(None),
                Some(None),
            ) => Some(None),
            _ => None,
        }
    }

    pub fn decode(j: &Json) -> (r: Result<Option<FileMetadata>, DecodeError>)
        ensures
            agrees(r, FileMetadata::from_wire(*j)),
    {
        let is_file = read_bool(j, "isFile")?;
        let is_directory = read_bool(j, "isDirectory")?;
        let size = read_i64(j, "size")?;
        let sha1 = read_opt_string(j, "sha1")?;
        let md5 = read_opt_string(j, "md5")?;
        let uploader_id = read_opt_i64(j, "uploaderId")?;
        let upload_time = read_opt_i64(j, "uploadTime")?;
        let last_modify_time = read_opt_i64(j, "lastModifyTime")?;
        let download_info = match present(j, "downloadInfo") {
            Some(d) => Some(FileDownloadInfo::decode(d)?),
            None => None,
        };
        match (sha1, md5, uploader_id, upload_time, last_modify_time) {
            (
                Some(sha1),
                Some(md5),
                Some(uploader_id),
                Some(upload_time_secs),
                Some(last_modify_time_secs),
            ) => if is_file && !is_directory {
                Ok(
                    Some(
                        FileMetadata {
                            size,
                            sha1,
                            md5,
                            uploader_id,
                            upload_time_secs,
                            last_modify_time_secs,
                            download_info,
                        },
                    ),
                )
            } else {
                Err(DecodeError::NotFileOrDirectory)
            },
            (None, None, None, None, None) => if !is_file && is_directory && size == 0
                && download_info.is_none() {
                Ok(None)
            } else {
                Err(DecodeError::NotFileOrDirectory)
            },
            _ => Err(DecodeError::NotFileOrDirectory),
        }
    }

    pub fn uploader(&self, group: GroupHandle) -> (r: MemberHandle)
        ensures
            r@ == (self.uploader_id, group@),
    {
        group.get_member(self.uploader_id)
    }

    /// The instant `upload_time_secs` seconds after the epoch.
    pub fn upload_time(&self) -> (r: Option<SystemTime>)
        ensures
            0 <= self.upload_time_secs <= i32::MAX ==> r is Some,
    {
        epoch_plus_secs(self.upload_time_secs as u64)
    }

    /// The instant `last_modify_time_secs` seconds after the epoch.
    pub fn last_modify_time(&self) -> (r: Option<SystemTime>)
        ensures
            0 <= self.last_modify_time_secs <= i32::MAX ==> r is Some,
    {
        epoch_plus_secs(self.last_modify_time_secs as u64)
    }
}

/// A file of a group, addressed by its id; the empty id is the root
/// directory.
#[derive(Clone, Debug, PartialEq, Eq, Hash)]
pub struct FileHandle {
    id: String,
    group: GroupHandle,
}

impl View for FileHandle {
    type V = (Seq<char>, i64);

    closed spec fn view(&self) -> (Seq<char>, i64) {
        (self.id@, self.group.id)
    }
}

impl FileHandle {
    pub fn id(&self) -> (r: &str)
        ensures
            r@ == self@.0,
    {
        self.id.as_str()
    }

    pub fn group(&self) -> (r: GroupHandle)
        ensures
            r@ == self@.1,
    {
        self.group
    }
}

/// A file or directory entry of a group, with its parent directory.
#[derive(Debug)]
pub struct FileDetails {
    pub id: String,
    pub name: String,
    pub path: String,
    pub parent: Option<Box<FileDetails>>,
    pub metadata: Option<FileMetadata>,
    pub group: GroupDetails,
}

impl FileDetails {
    pub open spec fn from_wire(j: Json) -> Option<FileDetails>
        decreases j,
    {
        let parent: Option<Option<Box<FileDetails>>> = match field_of(j, "parent"@) {
            None => Some(None),
            Some(Json::Null) => Some(None),
            Some(p) => {
                proof {
                    lemma_field_decreases(j, "parent"@);
                }
                match FileDetails::from_wire(p) {
                    Some(d) => Some(Some(Box::new(d))),
                    None => None,
                }
            },
        };
        match (
            string_of(field_of(j, "id"@)),
            string_of(field_of(j, "name"@)),
            string_of(field_of(j, "path"@)),
            parent,
            FileMetadata::from_wire(j),
            nested(field_of(j, "contact"@), |g| GroupDetails::from_wire(g)),
        ) {
            (Some(id), Some(name), Some(path), Some(parent), Some(metadata), Some(group)) => Some(
                FileDetails { id, name, path, parent, metadata, group },
            ),
            _ => None,
        }
    }

    pub fn decode(j: &Json) -> (r: Result<FileDetails, DecodeError>)
        ensures
            agrees(r, FileDetails::from_wire(*j)),
        decreases *j,
    {
        let id = read_string(j, "id")?;
        let name = read_string(j, "name")?;
        let path = read_string(j, "path")?;
        let parent = match present(j, "parent") {
            Some(p) => {
                proof {
                    lemma_field_decreases(*j, "parent"@);
                }
                Some(Box::new(FileDetails::decode(p)?))
            },
            None => None,
        };
        let metadata = FileMetadata::decode(j)?;
        let group = GroupDetails::decode(require(j, "contact")?)?;
        Ok(FileDetails { id, name, path, parent, metadata, group })
    }

    pub fn handle(&self) -> (r: FileHandle)
        ensures
            r@ == (self.id@, self.group.id),
    {
        self.group.handle().get_file(self.id.clone())
    }

    pub fn into_handle(self) -> (r: FileHandle)
        ensures
            r@ == (self.id@, self.group.id),
    {
        self.group.handle().get_file(self.id)
    }

    /// The member who uploaded a file; `None` for a directory.
    pub fn uploader(&self) -> (r: Option<MemberHandle>)
        ensures
            match self.metadata {
                Some(m) => r matches Some(h) && h@ == (m.uploader_id, self.group.id),
                None => r is None,
            },
    {
        match &self.metadata {
            Some(m) => Some(m.uploader(self.group.handle())),
            None => None,
        }
    }
}

/// An announcement of a group, addressed by its id.
#[derive(Clone, Debug, PartialEq, Eq, Hash)]
pub struct AnnouncementHandle {
    id: String,
    group: GroupHandle,
}

impl View for AnnouncementHandle {
    type V = (Seq<char>, i64);

    closed spec fn view(&self) -> (Seq<char>, i64) {
        (self.id@, self.group.id)
    }
}

impl AnnouncementHandle {
    pub fn id(&self) -> (r: &str)
        ensures
            r@ == self@.0,
    {
        self.id.as_str()
    }

    pub fn group(&self) -> (r: GroupHandle)
        ensures
            r@ == self@.1,
    {
        self.group
    }
}

/// A published announcement.
#[derive(Clone, Debug, PartialEq, Eq)]
pub struct AnnouncementDetails {
    pub id: String,
    pub contents: String,
    pub publisher_id: i64,
    pub publication_time_secs: i64,
    pub confirmed_count: i32,
    pub all_confirmed: bool,
    pub group: GroupDetails,
}

impl AnnouncementDetails {
    pub open spec fn from_wire(j: Json) -> Option<AnnouncementDetails> {
        match (
            string_of(field_of(j, "fid"@)),
            string_of(field_of(j, "content"@)),
            int_of(field_of(j, "senderId"@)),
            int_of(field_of(j, "publicationTime"@)),
            i32_of(field_of(j, "confirmedMembersCount"@)),
            bool_of(field_of(j, "allConfirmed"@)),
            nested(field_of(j, "group"@), |g| GroupDetails::from_wire(g)),
        ) {
            (
                Some(id),
                Some(contents),
                Some(publisher_id),
                Some(publication_time_secs),
                Some(confirmed_count),
                Some(all_confirmed),
                Some(group),
            ) => Some(
                AnnouncementDetails {
                    id,
                    contents,
                    publisher_id,
                    publication_time_secs,
                    confirmed_count,
                    all_confirmed,
                    group,
                },
            ),
            _ => None,
        }
    }

    pub fn decode(j: &Json) -> (r: Result<AnnouncementDetails, DecodeError>)
        ensures
            agrees(r, AnnouncementDetails::from_wire(*j)),
    {
        let id = read_string(j, "fid")?;
        let contents = read_string(j, "content")?;
        let publisher_id = read_i64(j, "senderId")?;
        let publication_time_secs = read_i64(j, "publicationTime")?;
        let confirmed_count = read_i32(j, "confirmedMembersCount")?;
        let all_confirmed = read_bool(j, "allConfirmed")?;
        let group = GroupDetails::decode(require(j, "group")?)?;
        Ok(
            AnnouncementDetails {
                id,
                contents,
                publisher_id,
                publication_time_secs,
                confirmed_count,
                all_confirmed,
                group,
            },
        )
    }

    pub fn handle(&self) -> (r: AnnouncementHandle)
        ensures
            r@ == (self.id@, self.group.id),
    {
        self.group.handle().get_announcement(self.id.clone())
    }

    /// The instant `publication_time_secs` seconds after the epoch.
    pub fn publication_time(&self) -> (r: Option<SystemTime>)
        ensures
            0 <= self.publication_time_secs <= i32::MAX ==> r is Some,
    {
        epoch_plus_secs(self.publication_time_secs as u64)
    }
}

/// Another client logged in to the bot's own account, addressed by id.
#[derive(Clone, Copy, Debug, PartialEq, Eq, Hash, Structural)]
pub struct OtherClientHandle {
    id: i64,
}

impl View for OtherClientHandle {
    type V = i64;

    closed spec fn view(&self) -> i64 {
        self.id
    }
}

impl OtherClientHandle {
    pub fn id(&self) -> (r: i64)
        ensures
            r == self@,
    {
        self.id
    }
}

/// Another client of the bot's own account.
#[derive(Clone, Debug, PartialEq, Eq)]
pub struct OtherClientDetails {
    pub id: i64,
    pub platform: String,
}

impl OtherClientDetails {
    pub open spec fn from_wire(j: Json) -> Option<OtherClientDetails> {
        match (int_of(field_of(j, "id"@)), string_of(field_of(j, "platform"@))) {
            (Some(id), Some(platform)) => Some(OtherClientDetails { id, platform }),
            _ => None,
        }
    }

    pub fn decode(j: &Json) -> (r: Result<OtherClientDetails, DecodeError>)
        ensures
            agrees(r, OtherClientDetails::from_wire(*j)),
    {
        let id = read_i64(j, "id")?;
        let platform = read_string(j, "platform")?;
        Ok(OtherClientDetails { id, platform })
    }

    pub fn handle(&self) -> (r: OtherClientHandle)
        ensures
            r@ == self.id,
    {
        OtherClientHandle { id: self.id }
    }
}

/// A message, addressed by its id and its conversation (a user or group id).
#[derive(Clone, Copy, Debug, PartialEq, Eq, Hash, Structural)]
pub struct MessageHandle {
    id: i32,
    context: i64,
}

impl View for MessageHandle {
    type V = (i32, i64);

    closed spec fn view(&self) -> (i32, i64) {
        (self.id, self.context)
    }
}

impl MessageHandle {
    pub fn id(&self) -> (r: i32)
        ensures
            r == self@.0,
    {
        self.id
    }

    pub fn context(&self) -> (r: i64)
        ensures
            r == self@.1,
    {
        self.context
    }
}

/// A user's profile.
#[derive(Clone, Debug, PartialEq, Eq)]
pub struct Profile {
    pub nickname: String,
    pub email: String,
    pub age: i32,
    pub level: i32,
    pub sign: String,
    pub sex: Sex,
}

impl Profile {
    pub open spec fn from_wire(j: Json) -> Option<Profile> {
        match (
            string_of(field_of(j, "nickname"@)),
            string_of(field_of(j, "email"@)),
            i32_of(field_of(j, "age"@)),
            i32_of(field_of(j, "level"@)),
            string_of(field_of(j, "sign"@)),
            nested(field_of(j, "sex"@), |x| Sex::from_wire(x)),
        ) {
            (
                Some(nickname),
                Some(email),
                Some(age),
                Some(level),
                Some(sign),
                Some(sex),
            ) => Some(
                Profile {
                    nickname,
                    email,
                    age,
                    level,
                    sign,
                    sex,
                },
            ),
            _ => None,
        }
    }

    pub fn decode(j: &Json) -> (r: Result<Profile, DecodeError>)
        ensures
            agrees(r, Profile::from_wire(*j)),
    {
        let nickname = read_string(j, "nickname")?;
        let email = read_string(j, "email")?;
        let age = read_i32(j, "age")?;
        let level = read_i32(j, "level")?;
        let sign = read_string(j, "sign")?;
        let sex = Sex::decode(require(j, "sex")?)?;
        Ok(Profile { nickname, email, age, level, sign, sex })
    }
}

/// An uploaded image.
#[derive(Clone, Debug, PartialEq, Eq)]
pub struct ImageInfo {
    pub image_id: String,
    pub url: String,
}

impl ImageInfo {
    pub open spec fn from_wire(j: Json) -> Option<ImageInfo> {
        match (
            string_of(field_of(j, "imageId"@)),
            string_of(field_of(j, "url"@)),
        ) {
            (Some(image_id), Some(url)) => Some(ImageInfo { image_id, url }),
            _ => None,
        }
    }

    pub fn decode(j: &Json) -> (r: Result<ImageInfo, DecodeError>)
        ensures
            agrees(r, ImageInfo::from_wire(*j)),
    {
        let image_id = read_string(j, "imageId")?;
        let url = read_string(j, "url")?;
        Ok(ImageInfo { image_id, url })
    }
}

/// An uploaded voice clip.
#[derive(Clone, Debug, PartialEq, Eq)]
pub struct VoiceInfo {
    pub voice_id: String,
}

impl VoiceInfo {
    pub open spec fn from_wire(j: Json) -> Option<VoiceInfo> {
        match string_of(field_of(j, "voiceId"@)) {
            Some(voice_id) => Some(VoiceInfo { voice_id }),
            None => None,
        }
    }

    pub fn decode(j: &Json) -> (r: Result<VoiceInfo, DecodeError>)
        ensures
            agrees(r, VoiceInfo::from_wire(*j)),
    {
        let voice_id = read_string(j, "voiceId")?;
        Ok(VoiceInfo { voice_id })
    }
}

/// A group's settings.
#[derive(Clone, Debug, PartialEq, Eq)]
pub struct GroupConfig {
    pub name: String,
    pub confess_talk: bool,
    pub allow_member_invite: bool,
    pub auto_approve: bool,
    pub anonymous_chat: bool,
    pub mute_all: bool,
}

impl GroupConfig {
    pub open spec fn from_wire(j: Json) -> Option<GroupConfig> {
        match (
            string_of(field_of(j, "name"@)),
            bool_of(field_of(j, "confessTalk"@)),
            bool_of(field_of(j, "allowMemberInvite"@)),
            bool_of(field_of(j, "autoApprove"@)),
            bool_of(field_of(j, "anonymousChat"@)),
            bool_of(field_of(j, "muteAll"@)),
        ) {
            (
                Some(name),
                Some(confess_talk),
                Some(allow_member_invite),
                Some(auto_approve),
                Some(anonymous_chat),
                Some(mute_all),
            ) => Some(
                GroupConfig {
                    name,
                    confess_talk,
                    allow_member_invite,
                    auto_approve,
                    anonymous_chat,
                    mute_all,
                },
            ),
            _ => None,
        }
    }

    pub fn decode(j: &Json) -> (r: Result<GroupConfig, DecodeError>)
        ensures
            agrees(r, GroupConfig::from_wire(*j)),
    {
        let name = read_string(j, "name")?;
        let confess_talk = read_bool(j, "confessTalk")?;
        let allow_member_invite = read_bool(j, "allowMemberInvite")?;
        let auto_approve = read_bool(j, "autoApprove")?;
        let anonymous_chat = read_bool(j, "anonymousChat")?;
        let mute_all = read_bool(j, "muteAll")?;
        Ok(
            GroupConfig {
                name,
                confess_talk,
                allow_member_invite,
                auto_approve,
                anonymous_chat,
                mute_all,
            },
        )
    }
}


/// `l` locates the directory given by an optional path: the path, or the
/// root.
pub open spec fn locates_directory(l: FileLocator, path: Option<String>) -> bool {
    match path {
        Some(p) => l == FileLocator::Path(p),
        None => l matches FileLocator::Id(id) && id@.len() == 0,
    }
}

fn directory(path: Option<String>) -> (r: FileLocator)
    ensures
        locates_directory(r, path),
{
    match path {
        Some(p) => FileLocator::Path(p),
        None => FileLocator::root(),
    }
}

impl UserHandle {
    /// The arguments that fetch this user's profile.
    pub fn profile_args(&self) -> (r: TargetArgs)
        ensures
            r.target == self@,
    {
        TargetArgs { target: self.id }
    }
}

impl FriendHandle {
    /// The arguments that send `contents` to this friend.
    pub fn send_message_args(&self, contents: OutgoingMessageContents) -> (r: SendMessageArgs)
        ensures
            r.target == self@,
            r.contents == contents,
    {
        SendMessageArgs { target: self.id, contents }
    }

    /// The arguments that nudge `target` in the conversation with this
    /// friend.
    pub fn send_nudge_args(&self, target: UserHandle) -> (r: NudgeArgs)
        ensures
            r == (NudgeArgs { target: target@, subject: self@, kind: SubjectKind::Friend }),
    {
        NudgeArgs { target: target.id, subject: self.id, kind: SubjectKind::Friend }
    }

    /// The arguments that fetch the stored messages with this friend.
    pub fn roaming_messages_args(&self, start_time_secs: i64, end_time_secs: i64) -> (r: RoamingMessagesArgs)
        ensures
            r == (RoamingMessagesArgs {
                time_start: start_time_secs,
                time_end: end_time_secs,
                target: RoamingMessagesTarget::Friend(self@),
            }),
    {
        RoamingMessagesArgs {
            time_start: start_time_secs,
            time_end: end_time_secs,
            target: RoamingMessagesTarget::Friend(self.id),
        }
    }

    /// The arguments that name this friend: its profile, its removal.
    pub fn target_args(&self) -> (r: TargetArgs)
        ensures
            r.target == self@,
    {
        TargetArgs { target: self.id }
    }
}

impl StrangerHandle {
    /// The arguments that nudge `target` in the conversation with this
    /// stranger.
    pub fn send_nudge_args(&self, target: UserHandle) -> (r: NudgeArgs)
        ensures
            r == (NudgeArgs { target: target@, subject: self@, kind: SubjectKind::Stranger }),
    {
        NudgeArgs { target: target.id, subject: self.id, kind: SubjectKind::Stranger }
    }
}

impl GroupHandle {
    /// The arguments that name this group: its members, muting all, leaving,
    /// its settings.
    pub fn target_args(&self) -> (r: TargetArgs)
        ensures
            r.target == self@,
    {
        TargetArgs { target: self.id }
    }

    /// The arguments that ask for current member details: of `ids`, or of
    /// all members when none are given.
    pub fn refresh_members_args(&self, ids: Option<Vec<i64>>) -> (r: MultiMemberArgs)
        ensures
            r.target == self@,
            match ids {
                Some(v) => r.member_ids == v,
                None => r.member_ids@.len() == 0,
            },
    {
        MultiMemberArgs {
            target: self.id,
            member_ids: match ids {
                Some(v) => v,
                None => Vec::new(),
            },
        }
    }

    pub fn send_message_args(&self, contents: OutgoingMessageContents) -> (r: SendMessageArgs)
        ensures
            r.target == self@,
            r.contents == contents,
    {
        SendMessageArgs { target: self.id, contents }
    }

    pub fn send_nudge_args(&self, target: UserHandle) -> (r: NudgeArgs)
        ensures
            r == (NudgeArgs { target: target@, subject: self@, kind: SubjectKind::Group }),
    {
        NudgeArgs { target: target.id, subject: self.id, kind: SubjectKind::Group }
    }

    pub fn roaming_messages_args(&self, start_time_secs: i64, end_time_secs: i64) -> (r: RoamingMessagesArgs)
        ensures
            r == (RoamingMessagesArgs {
                time_start: start_time_secs,
                time_end: end_time_secs,
                target: RoamingMessagesTarget::Group(self@),
            }),
    {
        RoamingMessagesArgs {
            time_start: start_time_secs,
            time_end: end_time_secs,
            target: RoamingMessagesTarget::Group(self.id),
        }
    }

    pub fn update_group_config_args(&self, config: GroupConfigUpdate) -> (r: UpdateGroupConfigArgs)
        ensures
            r == (UpdateGroupConfigArgs { target: self@, config }),
    {
        UpdateGroupConfigArgs { target: self.id, config }
    }

    /// The arguments that list the directory at `path` (the root when
    /// none), from entry `range.0`, at most `range.1` entries.
    pub fn list_files_args(&self, path: Option<String>, range: (i32, Option<i32>), download: bool) -> (r: ListFileArgs)
        ensures
            locates_directory(r.directory, path),
            r.target == self@,
            r.offset == range.0,
            r.size == range.1,
            r.with_download_info == download,
    {
        ListFileArgs {
            directory: directory(path),
            target: self.id,
            offset: range.0,
            size: range.1,
            with_download_info: download,
        }
    }

    pub fn get_file_info_args(&self, path: String, download: bool) -> (r: GetFileInfoArgs)
        ensures
            r == (GetFileInfoArgs {
                file: FileLocator::Path(path),
                target: self@,
                with_download_info: download,
            }),
    {
        GetFileInfoArgs { file: FileLocator::Path(path), target: self.id, with_download_info: download }
    }

    /// The arguments that make a directory named `name` at `path` (the
    /// root when none).
    pub fn make_directory_args(&self, path: Option<String>, name: String) -> (r: MkDirArgs)
        ensures
            locates_directory(r.directory, path),
            r.target == self@,
            r.directory_name == name,
    {
        MkDirArgs { directory: directory(path), target: self.id, directory_name: name }
    }

    /// The upload path: the given one, or the root (empty) path.
    pub fn upload_path(&self, path: Option<String>) -> (r: String)
        ensures
            match path {
                Some(p) => r == p,
                None => r@.len() == 0,
            },
    {
        match path {
            Some(p) => p,
            None => String::new(),
        }
    }

    pub fn delete_file_args(&self, path: String) -> (r: FileArgs)
        ensures
            r == (FileArgs { file: FileLocator::Path(path), target: self@ }),
    {
        FileArgs { file: FileLocator::Path(path), target: self.id }
    }

    pub fn move_file_args(&self, path: String, new_parent: &FileHandle) -> (r: MoveFileArgs)
        ensures
            r.file == FileLocator::Path(path),
            r.target == self@,
            r.move_to matches FileLocator::Id(id) && id@ == new_parent@.0,
    {
        MoveFileArgs {
            file: FileLocator::Path(path),
            target: self.id,
            move_to: FileLocator::Id(new_parent.id.clone()),
        }
    }

    pub fn move_file_to_path_args(&self, path: String, new_parent_path: String) -> (r: MoveFileArgs)
        ensures
            r == (MoveFileArgs {
                file: FileLocator::Path(path),
                target: self@,
                move_to: FileLocator::Path(new_parent_path),
            }),
    {
        MoveFileArgs {
            file: FileLocator::Path(path),
            target: self.id,
            move_to: FileLocator::Path(new_parent_path),
        }
    }

    pub fn rename_file_args(&self, path: String, new_name: String) -> (r: RenameFileArgs)
        ensures
            r == (RenameFileArgs { file: FileLocator::Path(path), target: self@, rename_to: new_name }),
    {
        RenameFileArgs { file: FileLocator::Path(path), target: self.id, rename_to: new_name }
    }

    pub fn list_announcements_args(&self, range: (i32, Option<i32>)) -> (r: ListAnnouncementArgs)
        ensures
            r == (ListAnnouncementArgs { id: self@, offset: range.0, size: range.1 }),
    {
        ListAnnouncementArgs { id: self.id, offset: range.0, size: range.1 }
    }

    pub fn publish_announcement_args(&self, announcement: Announcement) -> (r: PublishAnnouncementArgs)
        ensures
            r == (PublishAnnouncementArgs { target: self@, announcement }),
    {
        PublishAnnouncementArgs { target: self.id, announcement }
    }
}

impl MemberHandle {
    /// The arguments that name this member: its details, unmuting it.
    pub fn member_args(&self) -> (r: MemberArgs)
        ensures
            r == (MemberArgs { target: self@.1, member_id: self@.0 }),
    {
        MemberArgs { target: self.group.id, member_id: self.id }
    }

    /// The arguments that send `contents` privately to this member.
    pub fn send_message_args(&self, contents: OutgoingMessageContents) -> (r: SendTempMessageArgs)
        ensures
            r.qq == self@.0,
            r.group == self@.1,
            r.contents == contents,
    {
        SendTempMessageArgs { qq: self.id, group: self.group.id, contents }
    }

    pub fn mute_args(&self, duration_secs: i32) -> (r: MuteArgs)
        ensures
            r == (MuteArgs { target: self@.1, member_id: self@.0, time: duration_secs }),
    {
        MuteArgs { target: self.group.id, member_id: self.id, time: duration_secs }
    }

    /// The arguments that remove this member, with a message (empty when
    /// none), blocking it when asked.
    pub fn kick_args(&self, message: Option<String>, block: bool) -> (r: KickArgs)
        ensures
            r.target == self@.1,
            r.member_id == self@.0,
            r.block == block,
            match message {
                Some(m) => r.msg == m,
                None => r.msg@.len() == 0,
            },
    {
        KickArgs {
            target: self.group.id,
            member_id: self.id,
            block,
            msg: match message {
                Some(m) => m,
                None => String::new(),
            },
        }
    }

    pub fn update_member_info_args(&self, info: MemberInfoUpdate) -> (r: UpdateMemberInfoArgs)
        ensures
            r == (UpdateMemberInfoArgs { target: self@.1, member_id: self@.0, info }),
    {
        UpdateMemberInfoArgs { target: self.group.id, member_id: self.id, info }
    }

    pub fn set_admin_args(&self, is_admin: bool) -> (r: ModifyMemberAdminArgs)
        ensures
            r == (ModifyMemberAdminArgs { target: self@.1, member_id: self@.0, assign: is_admin }),
    {
        ModifyMemberAdminArgs { target: self.group.id, member_id: self.id, assign: is_admin }
    }
}

impl FileHandle {
    fn locator(&self) -> (r: FileLocator)
        ensures
            r matches FileLocator::Id(id) && id@ == self@.0,
    {
        FileLocator::Id(self.id.clone())
    }

    pub fn resolve_args(&self, download: bool) -> (r: GetFileInfoArgs)
        ensures
            r.file matches FileLocator::Id(id) && id@ == self@.0,
            r.target == self@.1,
            r.with_download_info == download,
    {
        GetFileInfoArgs { file: self.locator(), target: self.group.id, with_download_info: download }
    }

    pub fn list_args(&self, range: (i32, Option<i32>), download: bool) -> (r: ListFileArgs)
        ensures
            r.directory matches FileLocator::Id(id) && id@ == self@.0,
            r.target == self@.1,
            r.offset == range.0,
            r.size == range.1,
            r.with_download_info == download,
    {
        ListFileArgs {
            directory: self.locator(),
            target: self.group.id,
            offset: range.0,
            size: range.1,
            with_download_info: download,
        }
    }

    pub fn delete_args(&self) -> (r: FileArgs)
        ensures
            r.file matches FileLocator::Id(id) && id@ == self@.0,
            r.target == self@.1,
    {
        FileArgs { file: self.locator(), target: self.group.id }
    }

    pub fn move_args(&self, new_parent: &FileHandle) -> (r: MoveFileArgs)
        ensures
            r.file matches FileLocator::Id(id) && id@ == self@.0,
            r.target == self@.1,
            r.move_to matches FileLocator::Id(id) && id@ == new_parent@.0,
    {
        MoveFileArgs { file: self.locator(), target: self.group.id, move_to: new_parent.locator() }
    }

    pub fn move_to_path_args(&self, new_parent_path: String) -> (r: MoveFileArgs)
        ensures
            r.file matches FileLocator::Id(id) && id@ == self@.0,
            r.target == self@.1,
            r.move_to == FileLocator::Path(new_parent_path),
    {
        MoveFileArgs {
            file: self.locator(),
            target: self.group.id,
            move_to: FileLocator::Path(new_parent_path),
        }
    }

    pub fn rename_args(&self, new_name: String) -> (r: RenameFileArgs)
        ensures
            r.file matches FileLocator::Id(id) && id@ == self@.0,
            r.target == self@.1,
            r.rename_to == new_name,
    {
        RenameFileArgs { file: self.locator(), target: self.group.id, rename_to: new_name }
    }
}

impl AnnouncementHandle {
    pub fn delete_args(&self) -> (r: AnnouncementArgs)
        ensures
            r.id == self@.1,
            r.fid@ == self@.0,
    {
        AnnouncementArgs { id: self.group.id, fid: self.id.clone() }
    }
}

impl MessageHandle {
    /// The arguments that name this message: resolving, recalling, marking
    /// it as essence.
    pub fn message_id_args(&self) -> (r: MessageIdArgs)
        ensures
            r == (MessageIdArgs { target: self@.1, message_id: self@.0 }),
    {
        MessageIdArgs { target: self.context, message_id: self.id }
    }

    /// The handle of a message that was just sent to `context` and given
    /// `id`.
    pub fn sent(id: i32, context: i64) -> (r: MessageHandle)
        ensures
            r@ == (id, context),
    {
        MessageHandle { id, context }
    }
}

} // verus!
