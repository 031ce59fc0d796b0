//! Message nodes in their incoming and outgoing shapes, message chains and
//! message envelopes.
use vstd::prelude::*;
use std::time::{Duration, SystemTime};
use crate::entity::{
    Bot, FileHandle, FriendDetails, GroupDetails, GroupHandle, MemberDetails, MemberHandle,
    MessageHandle, OtherClientDetails, StrangerDetails, UserHandle,
};
use crate::json::{
    agrees, bool_of, field_of, i32_of, int_of, lemma_element_decreases, lemma_elements_decrease,
    lemma_field_decreases,
    opt_string_of, read_bool, read_i32, read_i64, read_opt_string, read_string,
    require, has_tag, str_eq, string_of, tag_of, DecodeError, Json, object_is, value_at, str_is,
    key_if,
    text, put,
};
use crate::time::{duration_of_secs, epoch_plus_secs, secs_duration};

verus! {

/// Mentions one user.
#[derive(Clone, Copy, Debug, PartialEq, Eq, Structural)]
pub struct AtNode {
    pub target_id: i64,
}

impl AtNode {
    pub open spec fn from_wire(j: Json) -> Option<AtNode> {
        match int_of(field_of(j, "target"@)) {
            Some(target_id) => Some(AtNode { target_id }),
            None => None,
        }
    }

    pub fn decode(j: &Json) -> (r: Result<AtNode, DecodeError>)
        ensures
            agrees(r, AtNode::from_wire(*j)),
    {
        Ok(AtNode { target_id: read_i64(j, "target")? })
    }

    pub fn target(&self) -> (r: UserHandle)
        ensures
            r@ == self.target_id,
    {
        Bot.get_user(self.target_id)
    }
}

pub fn at(target_id: i64) -> (r: AtNode)
    ensures
        r.target_id == target_id,
{
    AtNode { target_id }
}

/// Mentions everyone.
#[derive(Clone, Copy, Debug, PartialEq, Eq, Structural)]
pub struct AtAllNode {}

impl AtAllNode {
    /// Any object decodes; its fields are ignored.
    pub open spec fn from_wire(j: Json) -> Option<AtAllNode> {
        match j {
            Json::Object(_) => Some(AtAllNode {  }),
            _ => None,
        }
    }

    pub fn decode(j: &Json) -> (r: Result<AtAllNode, DecodeError>)
        ensures
            agrees(r, AtAllNode::from_wire(*j)),
    {
        match j {
            Json::Object(_) => Ok(AtAllNode {  }),
            _ => Err(DecodeError::InvalidValue),
        }
    }
}

pub fn at_all() -> (r: AtAllNode) {
    AtAllNode {  }
}

/// A built-in sticker as it arrives.
#[derive(Clone, Debug, PartialEq, Eq)]
pub struct IncomingFaceNode {
    pub id: i32,
    pub name: String,
    pub super_face: bool,
}

impl IncomingFaceNode {
    pub open spec fn from_wire(j: Json) -> Option<IncomingFaceNode> {
        match (
            i32_of(field_of(j, "faceId"@)),
            string_of(field_of(j, "name"@)),
            bool_of(field_of(j, "isSuperFace"@)),
        ) {
            (
                Some(id),
                Some(name),
                Some(super_face),
            ) => Some(
                IncomingFaceNode {
                    id,
                    name,
                    super_face,
                },
            ),
            _ => None,
        }
    }

    pub fn decode(j: &Json) -> (r: Result<IncomingFaceNode, DecodeError>)
        ensures
            agrees(r, IncomingFaceNode::from_wire(*j)),
    {
        let id = read_i32(j, "faceId")?;
        let name = read_string(j, "name")?;
        let super_face = read_bool(j, "isSuperFace")?;
        Ok(IncomingFaceNode { id, name, super_face })
    }
}

/// A built-in sticker to send, named by id or by name.
#[derive(Clone, Debug, PartialEq, Eq)]
pub struct OutgoingFaceNode {
    pub face: OutgoingFace,
    pub super_face: bool,
}

#[derive(Clone, Debug, PartialEq, Eq)]
pub enum OutgoingFace {
    Id(i32),
    Name(String),
}

impl OutgoingFaceNode {
    pub fn to_super_face(self, super_face: bool) -> (r: OutgoingFaceNode)
        ensures
            r.face == self.face,
            r.super_face == super_face,
    {
        OutgoingFaceNode { face: self.face, super_face }
    }
}

pub fn face_from_id(id: i32) -> (r: OutgoingFaceNode)
    ensures
        r.face == OutgoingFace::Id(id),
        !r.super_face,
{
    OutgoingFaceNode { face: OutgoingFace::Id(id), super_face: false }
}

pub fn face_from_name(name: String) -> (r: OutgoingFaceNode)
    ensures
        r.face == OutgoingFace::Name(name),
        !r.super_face,
{
    OutgoingFaceNode { face: OutgoingFace::Name(name), super_face: false }
}

/// Plain text.
#[derive(Clone, Debug, PartialEq, Eq)]
pub struct PlainNode {
    pub text: String,
}

impl PlainNode {
    pub open spec fn from_wire(j: Json) -> Option<PlainNode> {
        match string_of(field_of(j, "text"@)) {
            Some(text) => Some(PlainNode { text }),
            None => None,
        }
    }

    pub fn decode(j: &Json) -> (r: Result<PlainNode, DecodeError>)
        ensures
            agrees(r, PlainNode::from_wire(*j)),
    {
        Ok(PlainNode { text: read_string(j, "text")? })
    }
}

/// The format of an image; `Unknown` is the gateway's own catch-all value.
#[derive(Clone, Copy, Debug, PartialEq, Eq, Hash, Structural)]
pub enum ImageType {
    Png,
    Bmp,
    Jpg,
    Gif,
    Apng,
    Unknown,
}

impl ImageType {
    pub open spec fn from_wire(j: Json) -> Option<ImageType> {
        match j {
            Json::Str(s) => if s@ == "PNG"@ {
                Some(ImageType::Png)
            } else if s@ == "BMP"@ {
                Some(ImageType::Bmp)
            } else if s@ == "JPG"@ {
                Some(ImageType::Jpg)
            } else if s@ == "GIF"@ {
                Some(ImageType::Gif)
            } else if s@ == "APNG"@ {
                Some(ImageType::Apng)
            } else if s@ == "UNKNOWN"@ {
                Some(ImageType::Unknown)
            } else {
                None
            },
            _ => None,
        }
    }

    pub fn decode(j: &Json) -> (r: Result<ImageType, DecodeError>)
        ensures
            agrees(r, ImageType::from_wire(*j)),
    {
        match j {
            Json::Str(s) => {
                let s = s.as_str();
                if str_eq(s, "PNG") {
                    Ok(ImageType::Png)
                } else if str_eq(s, "BMP") {
                    Ok(ImageType::Bmp)
                } else if str_eq(s, "JPG") {
                    Ok(ImageType::Jpg)
                } else if str_eq(s, "GIF") {
                    Ok(ImageType::Gif)
                } else if str_eq(s, "APNG") {
                    Ok(ImageType::Apng)
                } else if str_eq(s, "UNKNOWN") {
                    Ok(ImageType::Unknown)
                } else {
                    Err(DecodeError::UnknownTag)
                }
            },
            _ => Err(DecodeError::InvalidValue),
        }
    }
}

/// An image as it arrives, with its metadata.
#[derive(Clone, Debug, PartialEq, Eq)]
pub struct IncomingImageNode {
    pub image_id: String,
    pub url: String,
    pub width: i32,
    pub height: i32,
    pub size: i64,
    pub image_type: ImageType,
    pub is_emoji: bool,
}

impl IncomingImageNode {
    pub open spec fn from_wire(j: Json) -> Option<IncomingImageNode> {
        match (
            string_of(field_of(j, "imageId"@)),
            string_of(field_of(j, "url"@)),
            i32_of(field_of(j, "width"@)),
            i32_of(field_of(j, "height"@)),
            int_of(field_of(j, "size"@)),
            match field_of(j, "imageType"@) {
                Some(t) => ImageType::from_wire(t),
                None => None,
            },
            bool_of(field_of(j, "isEmoji"@)),
        ) {
            (
                Some(image_id),
                Some(url),
                Some(width),
                Some(height),
                Some(size),
                Some(image_type),
                Some(is_emoji),
            ) => Some(IncomingImageNode { image_id, url, width, height, size, image_type, is_emoji }),
            _ => None,
        }
    }

    pub fn decode(j: &Json) -> (r: Result<IncomingImageNode, DecodeError>)
        ensures
            agrees(r, IncomingImageNode::from_wire(*j)),
    {
        let image_id = read_string(j, "imageId")?;
        let url = read_string(j, "url")?;
        let width = read_i32(j, "width")?;
        let height = read_i32(j, "height")?;
        let size = read_i64(j, "size")?;
        let image_type = ImageType::decode(require(j, "imageType")?)?;
        let is_emoji = read_bool(j, "isEmoji")?;
        Ok(IncomingImageNode { image_id, url, width, height, size, image_type, is_emoji })
    }
}

/// An image to send, named by an uploaded image's id or by its source.
#[derive(Clone, Debug, PartialEq, Eq)]
pub enum OutgoingImageNode {
    ImageId(String),
    Url(String),
    Path(String),
    Base64(String),
}

pub fn image_from_id(id: String) -> (r: OutgoingImageNode)
    ensures
        r == OutgoingImageNode::ImageId(id),
{
    OutgoingImageNode::ImageId(id)
}

pub fn image_from_url(url: String) -> (r: OutgoingImageNode)
    ensures
        r == OutgoingImageNode::Url(url),
{
    OutgoingImageNode::Url(url)
}

pub fn image_from_path(path: String) -> (r: OutgoingImageNode)
    ensures
        r == OutgoingImageNode::Path(path),
{
    OutgoingImageNode::Path(path)
}

pub fn image_from_base64(base64: String) -> (r: OutgoingImageNode)
    ensures
        r == OutgoingImageNode::Base64(base64),
{
    OutgoingImageNode::Base64(base64)
}

/// A voice clip as it arrives; it cannot be sent back as it is.
#[derive(Clone, Debug, PartialEq, Eq)]
pub struct IncomingVoiceNode {
    pub voice_id: String,
    pub url: String,
    pub length_secs: i64,
}

impl IncomingVoiceNode {
    pub open spec fn from_wire(j: Json) -> Option<IncomingVoiceNode> {
        match (
            string_of(field_of(j, "voiceId"@)),
            string_of(field_of(j, "url"@)),
            int_of(field_of(j, "length"@)),
        ) {
            (Some(voice_id), Some(url), Some(length_secs)) => Some(
                IncomingVoiceNode { voice_id, url, length_secs },
            ),
            _ => None,
        }
    }

    pub fn decode(j: &Json) -> (r: Result<IncomingVoiceNode, DecodeError>)
        ensures
            agrees(r, IncomingVoiceNode::from_wire(*j)),
    {
        let voice_id = read_string(j, "voiceId")?;
        let url = read_string(j, "url")?;
        let length_secs = read_i64(j, "length")?;
        Ok(IncomingVoiceNode { voice_id, url, length_secs })
    }

    pub fn length(&self) -> (r: Duration)
        ensures
            r == duration_of_secs(self.length_secs as u64),
    {
        secs_duration(self.length_secs as u64)
    }
}

/// A voice clip to send, named by an uploaded clip's id or by its source.
#[derive(Clone, Debug, PartialEq, Eq)]
pub enum OutgoingVoiceNode {
    VoiceId(String),
    Url(String),
    Path(String),
    Base64(String),
}

pub fn voice_from_id(id: String) -> (r: OutgoingVoiceNode)
    ensures
        r == OutgoingVoiceNode::VoiceId(id),
{
    OutgoingVoiceNode::VoiceId(id)
}

pub fn voice_from_url(url: String) -> (r: OutgoingVoiceNode)
    ensures
        r == OutgoingVoiceNode::Url(url),
{
    OutgoingVoiceNode::Url(url)
}

pub fn voice_from_path(path: String) -> (r: OutgoingVoiceNode)
    ensures
        r == OutgoingVoiceNode::Path(path),
{
    OutgoingVoiceNode::Path(path)
}

pub fn voice_from_base64(base64: String) -> (r: OutgoingVoiceNode)
    ensures
        r == OutgoingVoiceNode::Base64(base64),
{
    OutgoingVoiceNode::Base64(base64)
}

/// A rich XML card.
#[derive(Clone, Debug, PartialEq, Eq)]
pub struct XmlNode {
    pub contents: String,
}

impl XmlNode {
    pub open spec fn from_wire(j: Json) -> Option<XmlNode> {
        match string_of(field_of(j, "xml"@)) {
            Some(contents) => Some(XmlNode { contents }),
            None => None,
        }
    }

    pub fn decode(j: &Json) -> (r: Result<XmlNode, DecodeError>)
        ensures
            agrees(r, XmlNode::from_wire(*j)),
    {
        Ok(XmlNode { contents: read_string(j, "xml")? })
    }
}

pub fn xml(contents: String) -> (r: XmlNode)
    ensures
        r.contents == contents,
{
    XmlNode { contents }
}

/// A rich JSON card to send.
#[derive(Clone, Debug, PartialEq, Eq)]
pub struct OutgoingJsonNode {
    pub contents: String,
}

pub fn json(contents: String) -> (r: OutgoingJsonNode)
    ensures
        r.contents == contents,
{
    OutgoingJsonNode { contents }
}

/// A mini-app card.
#[derive(Clone, Debug, PartialEq, Eq)]
pub struct AppNode {
    pub contents: String,
}

impl AppNode {
    pub open spec fn from_wire(j: Json) -> Option<AppNode> {
        match string_of(field_of(j, "content"@)) {
            Some(contents) => Some(AppNode { contents }),
            None => None,
        }
    }

    pub fn decode(j: &Json) -> (r: Result<AppNode, DecodeError>)
        ensures
            agrees(r, AppNode::from_wire(*j)),
    {
        Ok(AppNode { contents: read_string(j, "content")? })
    }
}

pub fn app(contents: String) -> (r: AppNode)
    ensures
        r.contents == contents,
{
    AppNode { contents }
}

/// A sticker from the sticker market; it cannot be sent back.
#[derive(Clone, Debug, PartialEq, Eq)]
pub struct IncomingMarketFaceNode {
    pub id: i32,
    pub name: String,
}

impl IncomingMarketFaceNode {
    pub open spec fn from_wire(j: Json) -> Option<IncomingMarketFaceNode> {
        match (i32_of(field_of(j, "id"@)), string_of(field_of(j, "name"@))) {
            (Some(id), Some(name)) => Some(IncomingMarketFaceNode { id, name }),
            _ => None,
        }
    }

    pub fn decode(j: &Json) -> (r: Result<IncomingMarketFaceNode, DecodeError>)
        ensures
            agrees(r, IncomingMarketFaceNode::from_wire(*j)),
    {
        let id = read_i32(j, "id")?;
        let name = read_string(j, "name")?;
        Ok(IncomingMarketFaceNode { id, name })
    }
}

/// A poke of a named kind.
#[derive(Clone, Debug, PartialEq, Eq)]
pub struct PokeNode {
    pub name: String,
}

impl PokeNode {
    pub open spec fn from_wire(j: Json) -> Option<PokeNode> {
        match string_of(field_of(j, "name"@)) {
            Some(name) => Some(PokeNode { name }),
            None => None,
        }
    }

    pub fn decode(j: &Json) -> (r: Result<PokeNode, DecodeError>)
        ensures
            agrees(r, PokeNode::from_wire(*j)),
    {
        Ok(PokeNode { name: read_string(j, "name")? })
    }
}

pub fn poke(name: String) -> (r: PokeNode)
    ensures
        r.name == name,
{
    PokeNode { name }
}

/// A die showing `value`.
#[derive(Clone, Copy, Debug, PartialEq, Eq, Structural)]
pub struct DiceNode {
    pub value: i32,
}

impl DiceNode {
    pub open spec fn from_wire(j: Json) -> Option<DiceNode> {
        match i32_of(field_of(j, "value"@)) {
            Some(value) => Some(DiceNode { value }),
            None => None,
        }
    }

    pub fn decode(j: &Json) -> (r: Result<DiceNode, DecodeError>)
        ensures
            agrees(r, DiceNode::from_wire(*j)),
    {
        Ok(DiceNode { value: read_i32(j, "value")? })
    }
}

pub fn dice(value: i32) -> (r: DiceNode)
    ensures
        r.value == value,
{
    DiceNode { value }
}

/// A shared piece of music.
#[derive(Clone, Debug, PartialEq, Eq)]
pub struct MusicShareNode {
    pub kind: String,
    pub title: String,
    pub summary: String,
    pub jump_url: String,
    pub picture_url: String,
    pub music_url: String,
    pub brief: String,
}

impl MusicShareNode {
    pub open spec fn from_wire(j: Json) -> Option<MusicShareNode> {
        match (
            string_of(field_of(j, "kind"@)),
            string_of(field_of(j, "title"@)),
            string_of(field_of(j, "summary"@)),
            string_of(field_of(j, "jumpUrl"@)),
            string_of(field_of(j, "pictureUrl"@)),
            string_of(field_of(j, "musicUrl"@)),
            string_of(field_of(j, "brief"@)),
        ) {
            (
                Some(kind),
                Some(title),
                Some(summary),
                Some(jump_url),
                Some(picture_url),
                Some(music_url),
                Some(brief),
            ) => Some(MusicShareNode { kind, title, summary, jump_url, picture_url, music_url, brief }),
            _ => None,
        }
    }

    pub fn decode(j: &Json) -> (r: Result<MusicShareNode, DecodeError>)
        ensures
            agrees(r, MusicShareNode::from_wire(*j)),
    {
        let kind = read_string(j, "kind")?;
        let title = read_string(j, "title")?;
        let summary = read_string(j, "summary")?;
        let jump_url = read_string(j, "jumpUrl")?;
        let picture_url = read_string(j, "pictureUrl")?;
        let music_url = read_string(j, "musicUrl")?;
        let brief = read_string(j, "brief")?;
        Ok(MusicShareNode { kind, title, summary, jump_url, picture_url, music_url, brief })
    }
}

pub fn music_share(
    kind: String,
    title: String,
    summary: String,
    jump_url: String,
    picture_url: String,
    music_url: String,
    brief: String,
) -> (r: MusicShareNode)
    ensures
        r == (MusicShareNode { kind, title, summary, jump_url, picture_url, music_url, brief }),
{
    MusicShareNode { kind, title, summary, jump_url, picture_url, music_url, brief }
}

/// A group file as it arrives; it cannot be sent back.
#[derive(Clone, Debug, PartialEq, Eq)]
pub struct IncomingFileNode {
    pub id: String,
    pub name: String,
    pub size: i64,
}

/// A file id as stored: with a leading `/`, which is added when missing.
pub open spec fn normalized_file_id(s: Seq<char>) -> Seq<char> {
    if s.len() > 0 && s[0] == '/' {
        s
    } else {
        seq!['/'] + s
    }
}

/// Adds the leading `/` of a file id when it is missing.
pub fn normalize_file_id(id: String) -> (r: String)
    ensures
        r@ == normalized_file_id(id@),
{
    if id.as_str().unicode_len() > 0 && id.as_str().get_char(0) == '/' {
        id
    } else {
        let slash = String::from_str("/");
        proof {
            reveal_strlit("/");
        }
        slash.concat(id.as_str())
    }
}

impl IncomingFileNode {
    pub open spec fn wire_ok(j: Json) -> bool {
        &&& string_of(field_of(j, "id"@)) is Some
        &&& string_of(field_of(j, "name"@)) is Some
        &&& int_of(field_of(j, "size"@)) is Some
    }

    /// The id is the wire id with its leading `/` ensured.
    pub open spec fn wire_matches(j: Json, f: IncomingFileNode) -> bool {
        &&& string_of(field_of(j, "id"@)) matches Some(id) && f.id@ == normalized_file_id(id@)
        &&& string_of(field_of(j, "name"@)) == Some(f.name)
        &&& int_of(field_of(j, "size"@)) == Some(f.size)
    }

    pub fn decode(j: &Json) -> (r: Result<IncomingFileNode, DecodeError>)
        ensures
            r is Ok <==> IncomingFileNode::wire_ok(*j),
            r matches Ok(f) ==> IncomingFileNode::wire_matches(*j, f),
    {
        let id = normalize_file_id(read_string(j, "id")?);
        let name = read_string(j, "name")?;
        let size = read_i64(j, "size")?;
        Ok(IncomingFileNode { id, name, size })
    }

    pub fn file(&self, group: GroupHandle) -> (r: FileHandle)
        ensures
            r@ == (self.id@, group@),
    {
        group.get_file(self.id.clone())
    }

    pub fn into_file(self, group: GroupHandle) -> (r: FileHandle)
        ensures
            r@ == (self.id@, group@),
    {
        group.get_file(self.id)
    }
}

/// A short video as it arrives; it cannot be sent back.
#[derive(Clone, Debug, PartialEq, Eq)]
pub struct IncomingShortVideoNode {
    pub video_id: String,
    pub name: String,
    pub size: i64,
    pub video_type: String,
    pub url: Option<String>,
    pub md5: String,
}

impl IncomingShortVideoNode {
    pub open spec fn from_wire(j: Json) -> Option<IncomingShortVideoNode> {
        match (
            string_of(field_of(j, "videoId"@)),
            string_of(field_of(j, "filename"@)),
            int_of(field_of(j, "fileSize"@)),
            string_of(field_of(j, "fileFormat"@)),
            opt_string_of(field_of(j, "videoUrl"@)),
            string_of(field_of(j, "fileMd5"@)),
        ) {
            (Some(video_id), Some(name), Some(size), Some(video_type), Some(url), Some(md5)) => Some(
                IncomingShortVideoNode { video_id, name, size, video_type, url, md5 },
            ),
            _ => None,
        }
    }

    pub fn decode(j: &Json) -> (r: Result<IncomingShortVideoNode, DecodeError>)
        ensures
            agrees(r, IncomingShortVideoNode::from_wire(*j)),
    {
        let video_id = read_string(j, "videoId")?;
        let name = read_string(j, "filename")?;
        let size = read_i64(j, "fileSize")?;
        let video_type = read_string(j, "fileFormat")?;
        let url = read_opt_string(j, "videoUrl")?;
        let md5 = read_string(j, "fileMd5")?;
        Ok(IncomingShortVideoNode { video_id, name, size, video_type, url, md5 })
    }
}

/// Text in the gateway's own markup, to send.
#[derive(Clone, Debug, PartialEq, Eq)]
pub struct OutgoingMiraiCodeNode {
    pub code: String,
}

pub fn mirai_code(code: String) -> (r: OutgoingMiraiCodeNode)
    ensures
        r.code == code,
{
    OutgoingMiraiCodeNode { code }
}


/// One fragment of a message as it arrives.
#[derive(Debug)]
pub enum IncomingMessageNode {
    At(AtNode),
    AtAll(AtAllNode),
    Face(IncomingFaceNode),
    Plain(PlainNode),
    Image(IncomingImageNode),
    Voice(IncomingVoiceNode),
    Xml(XmlNode),
    App(AppNode),
    Poke(PokeNode),
    Dice(DiceNode),
    MarketFace(IncomingMarketFaceNode),
    MusicShare(MusicShareNode),
    Forward(IncomingForwardNode),
    File(IncomingFileNode),
    ShortVideo(IncomingShortVideoNode),
}

/// A chain of forwarded messages as it arrives.
#[derive(Debug)]
pub struct IncomingForwardNode {
    pub messages: Vec<IncomingForwardedMessage>,
}

/// One message inside a forwarded chain.
#[derive(Debug)]
pub struct IncomingForwardedMessage {
    pub sender_id: i64,
    pub sender_name: String,
    pub time: i32,
    pub quote: Option<QuotedMessage>,
    pub nodes: Vec<IncomingMessageNode>,
}

impl IncomingForwardedMessage {
    pub fn sender(&self) -> (r: UserHandle)
        ensures
            r@ == self.sender_id,
    {
        Bot.get_user(self.sender_id)
    }
}

/// What a quoted message holds: its id (absent when the wire id is 0) and
/// its nodes.
#[derive(Debug)]
pub struct QuotedMessageContents {
    pub id: Option<i32>,
    pub nodes: Vec<IncomingMessageNode>,
}

/// A quoted message of a group conversation.
#[derive(Debug)]
pub struct QuotedGroupMessage {
    pub context_id: i64,
    pub sender_id: i64,
    pub contents: QuotedMessageContents,
}

/// A quoted message of a conversation between two users.
#[derive(Debug)]
pub struct QuotedUserMessage {
    pub receiver_id: i64,
    pub sender_id: i64,
    pub contents: QuotedMessageContents,
}

/// A quoted message; a zero group id on the wire selects `User`.
#[derive(Debug)]
pub enum QuotedMessage {
    Group(QuotedGroupMessage),
    User(QuotedUserMessage),
}

/// The decoded chain of a message: id and time from its `Source`
/// pseudo-node, the quote from its `Quote` pseudo-node, and its content
/// nodes in order.
#[derive(Debug)]
pub struct IncomingMessageContents {
    pub id: Option<i32>,
    pub time_secs: Option<i32>,
    pub quote: Option<QuotedMessage>,
    pub nodes: Vec<IncomingMessageNode>,
}

/// The zero-sentinel rule: a wire id of 0 means that there is no id.
pub open spec fn nonzero(n: i32) -> Option<i32> {
    if n == 0 {
        None
    } else {
        Some(n)
    }
}

pub open spec fn is_tagged(x: Json, tag: Seq<char>) -> bool {
    tag_of(x, "type"@) == Some(tag)
}

/// A pseudo-node: `Source` or `Quote`, which carry no content.
pub open spec fn is_pseudo(x: Json) -> bool {
    is_tagged(x, "Source"@) || is_tagged(x, "Quote"@)
}

/// Scanning the first `n` items of a chain: the index of the last `Source`
/// and of the last `Quote` seen, and whether either was seen twice.
pub open spec fn scan(items: Seq<Json>, n: int) -> (Option<int>, Option<int>, bool)
    decreases n,
{
    if n <= 0 {
        (None, None, false)
    } else {
        let (s, q, d) = scan(items, n - 1);
        if is_tagged(items[n - 1], "Source"@) {
            (Some(n - 1), q, d || s is Some)
        } else if is_tagged(items[n - 1], "Quote"@) {
            (s, Some(n - 1), d || q is Some)
        } else {
            (s, q, d)
        }
    }
}

/// The indices of the content items among the first `n` items of a chain.
pub open spec fn positions(items: Seq<Json>, n: int) -> Seq<int>
    decreases n,
{
    if n <= 0 {
        Seq::empty()
    } else if is_pseudo(items[n - 1]) {
        positions(items, n - 1)
    } else {
        positions(items, n - 1).push(n - 1)
    }
}

pub proof fn lemma_positions_in_range(items: Seq<Json>, n: int)
    ensures
        forall|k: int|
            0 <= k < positions(items, n).len() ==> 0 <= #[trigger] positions(items, n)[k] < n,
    decreases n,
{
    if n > 0 {
        lemma_positions_in_range(items, n - 1);
        let p = positions(items, n - 1);
        assert forall|k: int| 0 <= k < positions(items, n).len() implies 0 <= #[trigger] positions(
            items,
            n,
        )[k] < n by {
            if k < p.len() {
                assert(positions(items, n)[k] == p[k]);
            }
        }
    }
}

pub proof fn lemma_scan_in_range(items: Seq<Json>, n: int)
    ensures
        scan(items, n).0 matches Some(s) ==> 0 <= s < n,
        scan(items, n).1 matches Some(q) ==> 0 <= q < n,
    decreases n,
{
    if n > 0 {
        lemma_scan_in_range(items, n - 1);
    }
}

pub proof fn lemma_scan_duplicate_stays(items: Seq<Json>, n: int, m: int)
    requires
        n <= m,
        scan(items, n).2,
    ensures
        scan(items, m).2,
    decreases m - n,
{
    if n < m {
        lemma_scan_duplicate_stays(items, n, m - 1);
    }
}

pub open spec fn items_of(c: Json) -> Seq<Json> {
    match c {
        Json::Array(v) => v@,
        _ => Seq::empty(),
    }
}

pub open spec fn source_ok(x: Json) -> bool {
    i32_of(field_of(x, "id"@)) is Some && i32_of(field_of(x, "time"@)) is Some
}

/// Whether a node decodes.
pub open spec fn node_wire_ok(j: Json) -> bool
    decreases j,
{
    if is_tagged(j, "At"@) {
        AtNode::from_wire(j) is Some
    } else if is_tagged(j, "AtAll"@) {
        AtAllNode::from_wire(j) is Some
    } else if is_tagged(j, "Face"@) {
        IncomingFaceNode::from_wire(j) is Some
    } else if is_tagged(j, "Plain"@) {
        PlainNode::from_wire(j) is Some
    } else if is_tagged(j, "Image"@) {
        IncomingImageNode::from_wire(j) is Some
    } else if is_tagged(j, "Voice"@) {
        IncomingVoiceNode::from_wire(j) is Some
    } else if is_tagged(j, "Xml"@) {
        XmlNode::from_wire(j) is Some
    } else if is_tagged(j, "App"@) {
        AppNode::from_wire(j) is Some
    } else if is_tagged(j, "Poke"@) {
        PokeNode::from_wire(j) is Some
    } else if is_tagged(j, "Dice"@) {
        DiceNode::from_wire(j) is Some
    } else if is_tagged(j, "MarketFace"@) {
        IncomingMarketFaceNode::from_wire(j) is Some
    } else if is_tagged(j, "MusicShare"@) {
        MusicShareNode::from_wire(j) is Some
    } else if is_tagged(j, "Forward"@) {
        match field_of(j, "nodeList"@) {
            Some(l) => {
                proof {
                    lemma_field_decreases(j, "nodeList"@);
                }
                forwarded_list_ok(l)
            },
            None => false,
        }
    } else if is_tagged(j, "File"@) {
        IncomingFileNode::wire_ok(j)
    } else if is_tagged(j, "ShortVideo"@) {
        IncomingShortVideoNode::from_wire(j) is Some
    } else {
        false
    }
}

/// Whether a forwarded message decodes.
pub open spec fn forwarded_wire_ok(m: Json) -> bool
    decreases m,
{
    &&& int_of(field_of(m, "senderId"@)) is Some
    &&& i32_of(field_of(m, "time"@)) is Some
    &&& string_of(field_of(m, "senderName"@)) is Some
    &&& match field_of(m, "messageChain"@) {
        Some(c) => {
            proof {
                lemma_field_decreases(m, "messageChain"@);
            }
            chain_wire_ok(c)
        },
        None => false,
    }
}

/// Whether a `Quote` pseudo-node decodes.
pub open spec fn quote_wire_ok(q: Json) -> bool
    decreases q,
{
    &&& i32_of(field_of(q, "id"@)) is Some
    &&& int_of(field_of(q, "senderId"@)) is Some
    &&& int_of(field_of(q, "targetId"@)) is Some
    &&& int_of(field_of(q, "groupId"@)) is Some
    &&& match field_of(q, "origin"@) {
        Some(o) => {
            proof {
                lemma_field_decreases(q, "origin"@);
            }
            chain_wire_ok(o)
        },
        None => false,
    }
}

/// Whether a message chain decodes: it is an array whose items all decode,
/// with at most one `Source` and at most one `Quote`.
pub open spec fn chain_wire_ok(c: Json) -> bool
    decreases c,
{
    proof {
        lemma_elements_decrease(c);
    }
    match c {
        Json::Array(v) => {
            &&& !scan(v@, v@.len() as int).2
            &&& forall|k: int|
                0 <= k < v@.len() ==> if is_tagged(#[trigger] v@[k], "Source"@) {
                    source_ok(v@[k])
                } else if is_tagged(v@[k], "Quote"@) {
                    quote_wire_ok(v@[k])
                } else {
                    node_wire_ok(v@[k])
                }
        },
        _ => false,
    }
}

/// `n` is what the node `j` decodes to.
pub open spec fn node_wire_matches(j: Json, n: IncomingMessageNode) -> bool
    decreases j,
{
    match n {
        IncomingMessageNode::At(x) => is_tagged(j, "At"@) && AtNode::from_wire(j) == Some(x),
        IncomingMessageNode::AtAll(x) => is_tagged(j, "AtAll"@)
            && AtAllNode::from_wire(j) == Some(x),
        IncomingMessageNode::Face(x) => is_tagged(j, "Face"@)
            && IncomingFaceNode::from_wire(j) == Some(x),
        IncomingMessageNode::Plain(x) => is_tagged(j, "Plain"@)
            && PlainNode::from_wire(j) == Some(x),
        IncomingMessageNode::Image(x) => is_tagged(j, "Image"@) && IncomingImageNode::from_wire(j)
            == Some(x),
        IncomingMessageNode::Voice(x) => is_tagged(j, "Voice"@) && IncomingVoiceNode::from_wire(j)
            == Some(x),
        IncomingMessageNode::Xml(x) => is_tagged(j, "Xml"@) && XmlNode::from_wire(j) == Some(x),
        IncomingMessageNode::App(x) => is_tagged(j, "App"@) && AppNode::from_wire(j) == Some(x),
        IncomingMessageNode::Poke(x) => is_tagged(j, "Poke"@) && PokeNode::from_wire(j) == Some(x),
        IncomingMessageNode::Dice(x) => is_tagged(j, "Dice"@) && DiceNode::from_wire(j) == Some(x),
        IncomingMessageNode::MarketFace(x) => is_tagged(j, "MarketFace"@)
            && IncomingMarketFaceNode::from_wire(j) == Some(x),
        IncomingMessageNode::MusicShare(x) => is_tagged(j, "MusicShare"@)
            && MusicShareNode::from_wire(j) == Some(x),
        IncomingMessageNode::Forward(f) => is_tagged(j, "Forward"@) && match field_of(
            j,
            "nodeList"@,
        ) {
            Some(l) => {
                proof {
                    lemma_field_decreases(j, "nodeList"@);
                }
                forwarded_list_matches(l, f.messages@)
            },
            None => false,
        },
        IncomingMessageNode::File(x) => is_tagged(j, "File"@)
            && IncomingFileNode::wire_matches(j, x),
        IncomingMessageNode::ShortVideo(x) => is_tagged(j, "ShortVideo"@)
            && IncomingShortVideoNode::from_wire(j) == Some(x),
    }
}

/// `m` is what the forwarded message `j` decodes to: its quote and nodes
/// are those of its chain, whose `Source` is dropped.
pub open spec fn forwarded_wire_matches(j: Json, m: IncomingForwardedMessage) -> bool
    decreases j,
{
    &&& int_of(field_of(j, "senderId"@)) == Some(m.sender_id)
    &&& i32_of(field_of(j, "time"@)) == Some(m.time)
    &&& string_of(field_of(j, "senderName"@)) == Some(m.sender_name)
    &&& match field_of(j, "messageChain"@) {
        Some(c) => {
            proof {
                lemma_field_decreases(j, "messageChain"@);
            }
            chain_quote_matches(c, m.quote) && chain_nodes_match(c, m.nodes@)
        },
        None => false,
    }
}

/// `qm` is what the `Quote` pseudo-node `q` decodes to.
pub open spec fn quote_wire_matches(q: Json, qm: QuotedMessage) -> bool
    decreases q,
{
    let contents = match qm {
        QuotedMessage::Group(g) => g.contents,
        QuotedMessage::User(u) => u.contents,
    };
    &&& i32_of(field_of(q, "id"@)) matches Some(id) && contents.id == nonzero(id)
    &&& int_of(field_of(q, "groupId"@)) matches Some(group_id)
    &&& int_of(field_of(q, "targetId"@)) matches Some(target_id)
    &&& int_of(field_of(q, "senderId"@)) matches Some(sender_id)
    &&& if group_id == 0 {
        qm matches QuotedMessage::User(u) && u.receiver_id == target_id && u.sender_id == sender_id
    } else {
        qm matches QuotedMessage::Group(g) && g.context_id == target_id && g.sender_id == sender_id
    }
    &&& match field_of(q, "origin"@) {
        Some(o) => {
            proof {
                lemma_field_decreases(q, "origin"@);
            }
            chain_nodes_match(o, contents.nodes@)
        },
        None => false,
    }
}

/// The quote of chain `c` is `quote`: decoded from its `Quote`
/// pseudo-node, or `None` when there is none.
pub open spec fn chain_quote_matches(c: Json, quote: Option<QuotedMessage>) -> bool
    decreases c,
{
    proof {
        lemma_elements_decrease(c);
    }
    match c {
        Json::Array(v) => match scan(v@, v@.len() as int).1 {
            Some(qi) => 0 <= qi < v@.len() && (quote matches Some(qm) && quote_wire_matches(
                v@[qi],
                qm,
            )),
            None => quote is None,
        },
        _ => false,
    }
}

/// The content nodes of chain `c` are `nodes`, in order.
pub open spec fn chain_nodes_match(c: Json, nodes: Seq<IncomingMessageNode>) -> bool
    decreases c,
{
    proof {
        lemma_elements_decrease(c);
    }
    match c {
        Json::Array(v) => {
            let ps = positions(v@, v@.len() as int);
            &&& nodes.len() == ps.len()
            &&& forall|k: int|
                0 <= k < nodes.len() ==> 0 <= #[trigger] ps[k] < v@.len() && node_wire_matches(
                    v@[ps[k]],
                    nodes[k],
                )
        },
        _ => false,
    }
}

/// The id and time of chain `c`: from its `Source` pseudo-node, or both
/// absent when there is none.
pub open spec fn chain_source_matches(c: Json, id: Option<i32>, time_secs: Option<i32>) -> bool {
    let items = items_of(c);
    match scan(items, items.len() as int).0 {
        Some(si) => {
            &&& i32_of(field_of(items[si], "id"@)) matches Some(wire_id) && id == nonzero(wire_id)
            &&& i32_of(field_of(items[si], "time"@)) matches Some(t) && time_secs == Some(t)
        },
        None => id is None && time_secs is None,
    }
}

/// `m` is what the chain `c` decodes to.
pub open spec fn chain_wire_matches(c: Json, m: IncomingMessageContents) -> bool {
    &&& chain_source_matches(c, m.id, m.time_secs)
    &&& chain_quote_matches(c, m.quote)
    &&& chain_nodes_match(c, m.nodes@)
}


/// Whether `l` is an array of decodable forwarded messages.
pub open spec fn forwarded_list_ok(l: Json) -> bool
    decreases l,
{
    proof {
        lemma_elements_decrease(l);
    }
    match l {
        Json::Array(v) => forall|k: int|
            0 <= k < v@.len() ==> forwarded_wire_ok(#[trigger] v@[k]),
        _ => false,
    }
}

/// `ms` is what the array of forwarded messages `l` decodes to.
pub open spec fn forwarded_list_matches(l: Json, ms: Seq<IncomingForwardedMessage>) -> bool
    decreases l,
{
    proof {
        lemma_elements_decrease(l);
    }
    match l {
        Json::Array(v) => {
            &&& ms.len() == v@.len()
            &&& forall|k: int|
                0 <= k < v@.len() ==> forwarded_wire_matches(#[trigger] v@[k], ms[k])
        },
        _ => false,
    }
}

fn decode_forwarded_list(l: &Json) -> (r: Result<Vec<IncomingForwardedMessage>, DecodeError>)
    ensures
        r is Ok <==> forwarded_list_ok(*l),
        r matches Ok(ms) ==> forwarded_list_matches(*l, ms@),
    decreases *l,
{
    let v = match l {
        Json::Array(v) => v,
        _ => return Err(DecodeError::InvalidValue),
    };
    let mut out: Vec<IncomingForwardedMessage> = Vec::new();
    let mut i: usize = 0;
    while i < v.len()
        invariant
            *l == Json::Array(*v),
            i <= v@.len(),
            out@.len() == i,
            forall|k: int| 0 <= k < i ==> forwarded_wire_ok(#[trigger] v@[k]),
            forall|k: int| 0 <= k < i ==> forwarded_wire_matches(#[trigger] v@[k], out@[k]),
        decreases v.len() - i,
    {
        proof {
            lemma_element_decreases(*l, *v, i as int);
        }
        let m = match IncomingForwardedMessage::decode(&v[i]) {
            Ok(m) => m,
            Err(e) => {
                assert((*l)->Array_0 == *v);
                assert(!forwarded_wire_ok(v@[i as int]));
                return Err(e);
            },
        };
        out.push(m);
        i += 1;
    }
    assert((*l)->Array_0 == *v);
    Ok(out)
}

impl IncomingForwardNode {
    pub open spec fn wire_ok(j: Json) -> bool {
        field_of(j, "nodeList"@) matches Some(l) && forwarded_list_ok(l)
    }

    pub open spec fn wire_matches(j: Json, f: IncomingForwardNode) -> bool {
        field_of(j, "nodeList"@) matches Some(l) && forwarded_list_matches(l, f.messages@)
    }

    pub fn decode(j: &Json) -> (r: Result<IncomingForwardNode, DecodeError>)
        ensures
            r is Ok <==> IncomingForwardNode::wire_ok(*j),
            r matches Ok(f) ==> IncomingForwardNode::wire_matches(*j, f),
    {
        let l = require(j, "nodeList")?;
        Ok(IncomingForwardNode { messages: decode_forwarded_list(l)? })
    }
}

impl IncomingForwardedMessage {
    pub fn decode(m: &Json) -> (r: Result<IncomingForwardedMessage, DecodeError>)
        ensures
            r is Ok <==> forwarded_wire_ok(*m),
            r matches Ok(x) ==> forwarded_wire_matches(*m, x),
        decreases *m,
    {
        let sender_id = read_i64(m, "senderId")?;
        let time = read_i32(m, "time")?;
        let sender_name = read_string(m, "senderName")?;
        let c = require(m, "messageChain")?;
        proof {
            lemma_field_decreases(*m, "messageChain"@);
        }
        let chain = IncomingMessageContents::decode(c)?;
        Ok(
            IncomingForwardedMessage {
                sender_id,
                sender_name,
                time,
                quote: chain.quote,
                nodes: chain.nodes,
            },
        )
    }
}

impl IncomingMessageNode {
    /// Decodes one node by its `type` tag; an unknown tag is an error.
    pub fn decode(j: &Json) -> (r: Result<IncomingMessageNode, DecodeError>)
        ensures
            r is Ok <==> node_wire_ok(*j),
            r matches Ok(n) ==> node_wire_matches(*j, n),
        decreases *j,
    {
        if has_tag(j, "type", "At") {
            Ok(IncomingMessageNode::At(AtNode::decode(j)?))
        } else if has_tag(j, "type", "AtAll") {
            Ok(IncomingMessageNode::AtAll(AtAllNode::decode(j)?))
        } else if has_tag(j, "type", "Face") {
            Ok(IncomingMessageNode::Face(IncomingFaceNode::decode(j)?))
        } else if has_tag(j, "type", "Plain") {
            Ok(IncomingMessageNode::Plain(PlainNode::decode(j)?))
        } else if has_tag(j, "type", "Image") {
            Ok(IncomingMessageNode::Image(IncomingImageNode::decode(j)?))
        } else if has_tag(j, "type", "Voice") {
            Ok(IncomingMessageNode::Voice(IncomingVoiceNode::decode(j)?))
        } else if has_tag(j, "type", "Xml") {
            Ok(IncomingMessageNode::Xml(XmlNode::decode(j)?))
        } else if has_tag(j, "type", "App") {
            Ok(IncomingMessageNode::App(AppNode::decode(j)?))
        } else if has_tag(j, "type", "Poke") {
            Ok(IncomingMessageNode::Poke(PokeNode::decode(j)?))
        } else if has_tag(j, "type", "Dice") {
            Ok(IncomingMessageNode::Dice(DiceNode::decode(j)?))
        } else if has_tag(j, "type", "MarketFace") {
            Ok(IncomingMessageNode::MarketFace(IncomingMarketFaceNode::decode(j)?))
        } else if has_tag(j, "type", "MusicShare") {
            Ok(IncomingMessageNode::MusicShare(MusicShareNode::decode(j)?))
        } else if has_tag(j, "type", "Forward") {
            let l = require(j, "nodeList")?;
            proof {
                lemma_field_decreases(*j, "nodeList"@);
            }
            let messages = decode_forwarded_list(l)?;
            Ok(IncomingMessageNode::Forward(IncomingForwardNode { messages }))
        } else if has_tag(j, "type", "File") {
            Ok(IncomingMessageNode::File(IncomingFileNode::decode(j)?))
        } else if has_tag(j, "type", "ShortVideo") {
            Ok(IncomingMessageNode::ShortVideo(IncomingShortVideoNode::decode(j)?))
        } else {
            Err(DecodeError::UnknownTag)
        }
    }
}

/// Decodes a `Quote` pseudo-node; the group id selects the addressing.
fn decode_quote(q: &Json) -> (r: Result<QuotedMessage, DecodeError>)
    ensures
        r is Ok <==> quote_wire_ok(*q),
        r matches Ok(qm) ==> quote_wire_matches(*q, qm),
    decreases *q,
{
    let id = read_i32(q, "id")?;
    let sender_id = read_i64(q, "senderId")?;
    let target_id = read_i64(q, "targetId")?;
    let group_id = read_i64(q, "groupId")?;
    let o = require(q, "origin")?;
    proof {
        lemma_field_decreases(*q, "origin"@);
    }
    let origin = IncomingMessageContents::decode(o)?;
    let contents = QuotedMessageContents {
        id: if id != 0 {
            Some(id)
        } else {
            None
        },
        nodes: origin.nodes,
    };
    if group_id == 0 {
        Ok(QuotedMessage::User(QuotedUserMessage { receiver_id: target_id, sender_id, contents }))
    } else {
        Ok(QuotedMessage::Group(QuotedGroupMessage { context_id: target_id, sender_id, contents }))
    }
}

impl IncomingMessageContents {
    /// Decodes a message chain: `Source` and `Quote` pseudo-nodes may each
    /// occur at most once, anywhere; every other item is a content node.
    pub fn decode(c: &Json) -> (r: Result<IncomingMessageContents, DecodeError>)
        ensures
            r is Ok <==> chain_wire_ok(*c),
            r matches Ok(m) ==> chain_wire_matches(*c, m),
        decreases *c,
    {
        let items = match c {
            Json::Array(v) => v,
            _ => return Err(DecodeError::InvalidValue),
        };
        let mut id: Option<i32> = None;
        let mut time_secs: Option<i32> = None;
        let mut quote: Option<QuotedMessage> = None;
        let mut nodes: Vec<IncomingMessageNode> = Vec::new();
        let mut i: usize = 0;
        while i < items.len()
            invariant
                *c == Json::Array(*items),
                i <= items@.len(),
                !scan(items@, i as int).2,
                forall|k: int|
                    0 <= k < i ==> if is_tagged(#[trigger] items@[k], "Source"@) {
                        source_ok(items@[k])
                    } else if is_tagged(items@[k], "Quote"@) {
                        quote_wire_ok(items@[k])
                    } else {
                        node_wire_ok(items@[k])
                    },
                match scan(items@, i as int).0 {
                    Some(si) => {
                        &&& 0 <= si < i
                        &&& i32_of(field_of(items@[si], "id"@)) matches Some(w) && id == nonzero(w)
                        &&& i32_of(field_of(items@[si], "time"@)) matches Some(t) && time_secs == Some(t)
                    },
                    None => id is None && time_secs is None,
                },
                match scan(items@, i as int).1 {
                    Some(qi) => 0 <= qi < i && (quote matches Some(qm) && quote_wire_matches(
                        items@[qi],
                        qm,
                    )),
                    None => quote is None,
                },
                nodes@.len() == positions(items@, i as int).len(),
                forall|k: int|
                    0 <= k < nodes@.len() ==> 0 <= #[trigger] positions(items@, i as int)[k] < i
                        && node_wire_matches(items@[positions(items@, i as int)[k]], nodes@[k]),
            decreases items.len() - i,
        {
            let x = &items[i];
            proof {
                lemma_element_decreases(*c, *items, i as int);
            }
            if has_tag(x, "type", "Source") {
                let wire_id = read_i32(x, "id")?;
                let t = read_i32(x, "time")?;
                if time_secs.is_some() {
                    proof {
                        lemma_scan_duplicate_stays(items@, i + 1, items@.len() as int);
                    }
                    return Err(DecodeError::DuplicateSource);
                }
                id = if wire_id != 0 {
                    Some(wire_id)
                } else {
                    None
                };
                time_secs = Some(t);
            } else if has_tag(x, "type", "Quote") {
                let qm = decode_quote(x)?;
                if quote.is_some() {
                    proof {
                        lemma_scan_duplicate_stays(items@, i + 1, items@.len() as int);
                    }
                    return Err(DecodeError::DuplicateQuote);
                }
                quote = Some(qm);
            } else {
                let n = IncomingMessageNode::decode(x)?;
                proof {
                    let ps = positions(items@, i as int);
                    assert(positions(items@, i + 1) == ps.push(i as int));
                }
                nodes.push(n);
            }
            i += 1;
        }
        Ok(IncomingMessageContents { id, time_secs, quote, nodes })
    }

    /// The instant of the `Source` time, seconds after the epoch; `None`
    /// when the chain has no time.
    pub fn time(&self) -> (r: Option<SystemTime>)
        ensures
            self.time_secs is None ==> r is None,
            self.time_secs matches Some(t) && t >= 0 ==> r is Some,
    {
        match self.time_secs {
            Some(t) => epoch_plus_secs(t as u64),
            None => None,
        }
    }
}



/// One fragment of a message to send.
#[derive(Debug)]
pub enum OutgoingMessageNode {
    At(AtNode),
    AtAll(AtAllNode),
    Face(OutgoingFaceNode),
    Plain(PlainNode),
    Image(OutgoingImageNode),
    Voice(OutgoingVoiceNode),
    Xml(XmlNode),
    Json(OutgoingJsonNode),
    App(AppNode),
    Poke(PokeNode),
    Dice(DiceNode),
    MusicShare(MusicShareNode),
    Forward(OutgoingForwardNode),
    MiraiCode(OutgoingMiraiCodeNode),
}

/// Bare text becomes a plain text node.
impl From<String> for OutgoingMessageNode {
    fn from(text: String) -> (r: OutgoingMessageNode) {
        OutgoingMessageNode::Plain(PlainNode { text })
    }
}

impl vstd::std_specs::convert::FromSpecImpl<String> for OutgoingMessageNode {
    open spec fn obeys_from_spec() -> bool {
        true
    }

    open spec fn from_spec(text: String) -> OutgoingMessageNode {
        OutgoingMessageNode::Plain(PlainNode { text })
    }
}

/// A chain of forwarded messages to send.
#[derive(Debug)]
pub struct OutgoingForwardNode {
    pub messages: Vec<OutgoingForwardedMessage>,
    pub display: Option<ForwardDisplay>,
}

/// A forwarded message named by its id, in conversation `context` when
/// given.
#[derive(Clone, Copy, Debug, PartialEq, Eq, Structural)]
pub struct RefForwardedMessage {
    pub context: Option<i64>,
    pub id: i32,
}

impl RefForwardedMessage {
    pub fn from_handle(handle: MessageHandle) -> (r: RefForwardedMessage)
        ensures
            r.context == Some(handle@.1),
            r.id == handle@.0,
    {
        RefForwardedMessage { context: Some(handle.context()), id: handle.id() }
    }
}

/// A forwarded message spelled out: its sender, time and nodes.
#[derive(Debug)]
pub struct CustomForwardedMessage {
    pub sender_id: i64,
    pub sender_name: String,
    pub time: Option<i32>,
    pub nodes: Vec<OutgoingMessageNode>,
}

/// One message of an outgoing forward chain.
#[derive(Debug)]
pub enum OutgoingForwardedMessage {
    Ref(RefForwardedMessage),
    Custom(CustomForwardedMessage),
}

impl OutgoingForwardedMessage {
    pub fn from_handle(handle: MessageHandle) -> (r: OutgoingForwardedMessage)
        ensures
            r == OutgoingForwardedMessage::Ref(
                RefForwardedMessage { context: Some(handle@.1), id: handle@.0 },
            ),
    {
        OutgoingForwardedMessage::Ref(RefForwardedMessage::from_handle(handle))
    }
}

/// How a forward chain is shown before it is opened.
#[derive(Clone, Debug, PartialEq, Eq)]
pub struct ForwardDisplay {
    pub brief: Option<String>,
    pub preview: Option<Vec<String>>,
    pub source: Option<String>,
    pub summary: Option<String>,
    pub title: Option<String>,
}

impl ForwardDisplay {
    /// The display itself: its strings are already owned.
    pub fn into_owned(self) -> (r: ForwardDisplay)
        ensures
            r == self,
    {
        self
    }
}

pub fn forward(
    messages: Vec<OutgoingForwardedMessage>,
    display: Option<ForwardDisplay>,
) -> (r: OutgoingForwardNode)
    ensures
        r.messages == messages,
        r.display == display,
{
    OutgoingForwardNode { messages, display }
}

/// The error of converting a node that has no outgoing shape.
#[derive(Clone, Copy, Debug, PartialEq, Eq, Structural)]
pub struct TryIntoOutgoingError;

impl TryIntoOutgoingError {
    /// The error's message.
    pub fn to_string(&self) -> (r: String)
        ensures
            r@ == "cannot convert to outgoing message"@,
    {
        String::from_str("cannot convert to outgoing message")
    }
}

pub proof fn lemma_forward_parts_decrease(f: IncomingForwardNode)
    ensures
        forall|i: int, k: int|
            0 <= i < f.messages@.len() && 0 <= k < f.messages@[i].nodes@.len() ==> decreases_to!(f => #[trigger] f.messages@[i].nodes@[k]),
{
    assert forall|i: int, k: int|
        0 <= i < f.messages@.len() && 0 <= k < f.messages@[i].nodes@.len() implies decreases_to!(f => #[trigger] f.messages@[i].nodes@[k]) by {
        let m = f.messages@[i];
        assert(decreases_to!(f.messages@ => m));
        assert(decreases_to!(m.nodes@ => m.nodes@[k]));
        assert(decreases_to!(f => m.nodes@[k]));
    }
}

pub proof fn lemma_incoming_forward_decreases(n: IncomingMessageNode)
    ensures
        n matches IncomingMessageNode::Forward(f) ==> forall|i: int, k: int|
            0 <= i < f.messages@.len() && 0 <= k < f.messages@[i].nodes@.len() ==> decreases_to!(n => #[trigger] f.messages@[i].nodes@[k]),
{
    if let IncomingMessageNode::Forward(f) = n {
        lemma_forward_parts_decrease(f);
        assert(decreases_to!(n => f));
    }
}

/// Whether an incoming node has an outgoing shape: voice, market stickers,
/// files and short videos have none, nor has a forward chain that holds one
/// of them at any depth.
pub open spec fn convertible(n: IncomingMessageNode) -> bool
    decreases n,
{
    proof {
        lemma_incoming_forward_decreases(n);
    }
    match n {
        IncomingMessageNode::Voice(_) => false,
        IncomingMessageNode::MarketFace(_) => false,
        IncomingMessageNode::File(_) => false,
        IncomingMessageNode::ShortVideo(_) => false,
        IncomingMessageNode::Forward(f) => forall|i: int, k: int|
            0 <= i < f.messages@.len() && 0 <= k < f.messages@[i].nodes@.len() ==> convertible(
                #[trigger] f.messages@[i].nodes@[k],
            ),
        _ => true,
    }
}

/// `o` is the outgoing shape of `n`: the same content, keeping only what the
/// gateway accepts back (an image keeps only its id; a forwarded message is
/// spelled out with its sender, name and time).
pub open spec fn converts(n: IncomingMessageNode, o: OutgoingMessageNode) -> bool
    decreases n,
{
    proof {
        lemma_incoming_forward_decreases(n);
    }
    match n {
        IncomingMessageNode::At(a) => o == OutgoingMessageNode::At(a),
        IncomingMessageNode::AtAll(a) => o == OutgoingMessageNode::AtAll(a),
        IncomingMessageNode::Face(f) => o == OutgoingMessageNode::Face(
            OutgoingFaceNode { face: OutgoingFace::Id(f.id), super_face: f.super_face },
        ),
        IncomingMessageNode::Plain(p) => o == OutgoingMessageNode::Plain(p),
        IncomingMessageNode::Image(i) => o == OutgoingMessageNode::Image(
            OutgoingImageNode::ImageId(i.image_id),
        ),
        IncomingMessageNode::Xml(x) => o == OutgoingMessageNode::Xml(x),
        IncomingMessageNode::App(a) => o == OutgoingMessageNode::App(a),
        IncomingMessageNode::Poke(p) => o == OutgoingMessageNode::Poke(p),
        IncomingMessageNode::Dice(d) => o == OutgoingMessageNode::Dice(d),
        IncomingMessageNode::MusicShare(m) => o == OutgoingMessageNode::MusicShare(m),
        IncomingMessageNode::Forward(f) => match o {
            OutgoingMessageNode::Forward(g) => {
                &&& g.display is None
                &&& g.messages@.len() == f.messages@.len()
                &&& forall|i: int|
                    0 <= i < f.messages@.len() ==> match #[trigger] g.messages@[i] {
                        OutgoingForwardedMessage::Custom(c) => {
                            &&& c.sender_id == f.messages@[i].sender_id
                            &&& c.sender_name == f.messages@[i].sender_name
                            &&& c.time == Some(f.messages@[i].time)
                            &&& c.nodes@.len() == f.messages@[i].nodes@.len()
                            &&& forall|k: int|
                                0 <= k < c.nodes@.len() ==> converts(
                                    #[trigger] f.messages@[i].nodes@[k],
                                    c.nodes@[k],
                                )
                        },
                        _ => false,
                    }
            },
            _ => false,
        },
        _ => false,
    }
}

impl IncomingForwardNode {
    /// Re-expresses every forwarded message with its sender, name and time;
    /// fails when any nested node has no outgoing shape.
    pub fn to_outgoing(&self) -> (r: Result<OutgoingForwardNode, TryIntoOutgoingError>)
        ensures
            r is Ok <==> convertible(IncomingMessageNode::Forward(*self)),
            r matches Ok(g) ==> converts(
                IncomingMessageNode::Forward(*self),
                OutgoingMessageNode::Forward(g),
            ),
        decreases *self,
    {
        proof {
            lemma_forward_parts_decrease(*self);
        }
        let mut messages: Vec<OutgoingForwardedMessage> = Vec::new();
        let mut i: usize = 0;
        while i < self.messages.len()
            invariant
                forall|a: int, b: int|
                    0 <= a < self.messages@.len() && 0 <= b < self.messages@[a].nodes@.len() ==> decreases_to!(*self => #[trigger] self.messages@[a].nodes@[b]),
                i <= self.messages@.len(),
                messages@.len() == i,
                forall|a: int, k: int|
                    0 <= a < i && 0 <= k < self.messages@[a].nodes@.len() ==> convertible(
                        #[trigger] self.messages@[a].nodes@[k],
                    ),
                forall|a: int|
                    0 <= a < i ==> match #[trigger] messages@[a] {
                        OutgoingForwardedMessage::Custom(c) => {
                            &&& c.sender_id == self.messages@[a].sender_id
                            &&& c.sender_name == self.messages@[a].sender_name
                            &&& c.time == Some(self.messages@[a].time)
                            &&& c.nodes@.len() == self.messages@[a].nodes@.len()
                            &&& forall|k: int|
                                0 <= k < c.nodes@.len() ==> converts(
                                    #[trigger] self.messages@[a].nodes@[k],
                                    c.nodes@[k],
                                )
                        },
                        _ => false,
                    },
            decreases self.messages.len() - i,
        {
            let m = &self.messages[i];
            let mut nodes: Vec<OutgoingMessageNode> = Vec::new();
            let mut k: usize = 0;
            while k < m.nodes.len()
                invariant
                    forall|a: int, b: int|
                        0 <= a < self.messages@.len() && 0 <= b < self.messages@[a].nodes@.len() ==> decreases_to!(*self => #[trigger] self.messages@[a].nodes@[b]),
                    i < self.messages@.len(),
                    *m == self.messages@[i as int],
                    k <= m.nodes@.len(),
                    nodes@.len() == k,
                    forall|b: int| 0 <= b < k ==> convertible(#[trigger] m.nodes@[b]),
                    forall|b: int| 0 <= b < k ==> converts(#[trigger] m.nodes@[b], nodes@[b]),
                decreases m.nodes.len() - k,
            {
                let o = match m.nodes[k].to_outgoing() {
                    Ok(o) => o,
                    Err(e) => {
                        assert(!convertible(self.messages@[i as int].nodes@[k as int]));
                        return Err(e);
                    },
                };
                nodes.push(o);
                k += 1;
            }
            messages.push(
                OutgoingForwardedMessage::Custom(
                    CustomForwardedMessage {
                        sender_id: m.sender_id,
                        sender_name: m.sender_name.clone(),
                        time: Some(m.time),
                        nodes,
                    },
                ),
            );
            i += 1;
        }
        Ok(OutgoingForwardNode { messages, display: None })
    }
}

impl IncomingMessageNode {
    /// The outgoing shape of this node, or the error for content that cannot
    /// be sent back.
    pub fn to_outgoing(&self) -> (r: Result<OutgoingMessageNode, TryIntoOutgoingError>)
        ensures
            r is Ok <==> convertible(*self),
            r matches Ok(o) ==> converts(*self, o),
        decreases *self,
    {
        match self {
            IncomingMessageNode::At(a) => Ok(OutgoingMessageNode::At(*a)),
            IncomingMessageNode::AtAll(a) => Ok(OutgoingMessageNode::AtAll(*a)),
            IncomingMessageNode::Face(f) => Ok(
                OutgoingMessageNode::Face(
                    OutgoingFaceNode { face: OutgoingFace::Id(f.id), super_face: f.super_face },
                ),
            ),
            IncomingMessageNode::Plain(p) => Ok(
                OutgoingMessageNode::Plain(PlainNode { text: p.text.clone() }),
            ),
            IncomingMessageNode::Image(i) => Ok(
                OutgoingMessageNode::Image(OutgoingImageNode::ImageId(i.image_id.clone())),
            ),
            IncomingMessageNode::Voice(_) => Err(TryIntoOutgoingError),
            IncomingMessageNode::Xml(x) => Ok(
                OutgoingMessageNode::Xml(XmlNode { contents: x.contents.clone() }),
            ),
            IncomingMessageNode::App(a) => Ok(
                OutgoingMessageNode::App(AppNode { contents: a.contents.clone() }),
            ),
            IncomingMessageNode::Poke(p) => Ok(
                OutgoingMessageNode::Poke(PokeNode { name: p.name.clone() }),
            ),
            IncomingMessageNode::Dice(d) => Ok(OutgoingMessageNode::Dice(*d)),
            IncomingMessageNode::MarketFace(_) => Err(TryIntoOutgoingError),
            IncomingMessageNode::MusicShare(m) => Ok(
                OutgoingMessageNode::MusicShare(
                    MusicShareNode {
                        kind: m.kind.clone(),
                        title: m.title.clone(),
                        summary: m.summary.clone(),
                        jump_url: m.jump_url.clone(),
                        picture_url: m.picture_url.clone(),
                        music_url: m.music_url.clone(),
                        brief: m.brief.clone(),
                    },
                ),
            ),
            IncomingMessageNode::Forward(f) => Ok(OutgoingMessageNode::Forward(f.to_outgoing()?)),
            IncomingMessageNode::File(_) => Err(TryIntoOutgoingError),
            IncomingMessageNode::ShortVideo(_) => Err(TryIntoOutgoingError),
        }
    }
}


/// `j` is a JSON array of the strings `ss`, in order.
pub open spec fn strs_encode(ss: Seq<String>, j: Json) -> bool {
    j matches Json::Array(v) && v@.len() == ss.len() && forall|i: int|
        0 <= i < ss.len() ==> str_is(#[trigger] v@[i], ss[i]@)
}

impl ForwardDisplay {
    /// The keys of the wire form: each field that is set, in the order
    /// `brief`, `preview`, `source`, `summary`, `title`; unset fields are
    /// left out.
    pub open spec fn keys(&self) -> Seq<Seq<char>> {
        key_if(self.brief is Some, "brief"@) + key_if(self.preview is Some, "preview"@) + key_if(
            self.source is Some,
            "source"@,
        ) + key_if(self.summary is Some, "summary"@) + key_if(self.title is Some, "title"@)
    }

    /// `j` is the wire form of this display: its keys, each holding the
    /// field's value.
    pub open spec fn encodes_to(&self, j: Json) -> bool {
        let at_preview: int = if self.brief is Some { 1 } else { 0 };
        let at_source: int = at_preview + if self.preview is Some { 1int } else { 0 };
        let at_summary: int = at_source + if self.source is Some { 1int } else { 0 };
        let at_title: int = at_summary + if self.summary is Some { 1int } else { 0 };
        &&& object_is(j, self.keys())
        &&& self.brief matches Some(x) ==> str_is(value_at(j, 0), x@)
        &&& self.preview matches Some(p) ==> strs_encode(p@, value_at(j, at_preview))
        &&& self.source matches Some(x) ==> str_is(value_at(j, at_source), x@)
        &&& self.summary matches Some(x) ==> str_is(value_at(j, at_summary), x@)
        &&& self.title matches Some(x) ==> str_is(value_at(j, at_title), x@)
    }
}

/// `j` is an object tagged `tag` with the one further entry `key: v`.
pub open spec fn tagged_is(j: Json, tag: Seq<char>, key: Seq<char>, v: Json) -> bool {
    object_is(j, seq!["type"@, key]) && str_is(value_at(j, 0), tag) && value_at(j, 1) == v
}

/// `j` is an object tagged `tag` with the one further string entry `key: s`.
pub open spec fn tagged_str_is(j: Json, tag: Seq<char>, key: Seq<char>, s: Seq<char>) -> bool {
    object_is(j, seq!["type"@, key]) && str_is(value_at(j, 0), tag) && str_is(value_at(j, 1), s)
}

pub proof fn lemma_outgoing_forward_decreases(o: OutgoingMessageNode)
    ensures
        o matches OutgoingMessageNode::Forward(g) ==> forall|i: int|
            0 <= i < g.messages@.len() ==> decreases_to!(o => #[trigger] g.messages@[i]),
{
    if let OutgoingMessageNode::Forward(g) = o {
        assert forall|i: int| 0 <= i < g.messages@.len() implies decreases_to!(o => #[trigger] g.messages@[i]) by {
            assert(decreases_to!(g.messages@ => g.messages@[i]));
            assert(decreases_to!(o => g.messages@[i]));
        }
    }
}

pub proof fn lemma_custom_decreases(m: OutgoingForwardedMessage)
    ensures
        m matches OutgoingForwardedMessage::Custom(c) ==> forall|k: int|
            0 <= k < c.nodes@.len() ==> decreases_to!(m => #[trigger] c.nodes@[k]),
{
    if let OutgoingForwardedMessage::Custom(c) = m {
        assert forall|k: int| 0 <= k < c.nodes@.len() implies decreases_to!(m => #[trigger] c.nodes@[k]) by {
            assert(decreases_to!(c.nodes@ => c.nodes@[k]));
            assert(decreases_to!(m => c.nodes@[k]));
        }
    }
}

/// `j` is the wire form of the outgoing node `o`: an object tagged by
/// `type` whose further entries are the node's fields, in order.
pub open spec fn encodes(o: OutgoingMessageNode, j: Json) -> bool
    decreases o,
{
    proof {
        lemma_outgoing_forward_decreases(o);
    }
    match o {
        OutgoingMessageNode::At(a) => tagged_is(j, "At"@, "target"@, Json::Int(a.target_id)),
        OutgoingMessageNode::AtAll(_) => object_is(j, seq!["type"@]) && str_is(value_at(j, 0), "AtAll"@),
        OutgoingMessageNode::Face(f) => {
            &&& str_is(value_at(j, 0), "Face"@)
            &&& value_at(j, 2) == Json::Bool(f.super_face)
            &&& match f.face {
                OutgoingFace::Id(id) => object_is(j, seq!["type"@, "faceId"@, "isSuperFace"@])
                    && value_at(j, 1) == Json::Int(id as i64),
                OutgoingFace::Name(n) => object_is(j, seq!["type"@, "name"@, "isSuperFace"@])
                    && str_is(value_at(j, 1), n@),
            }
        },
        OutgoingMessageNode::Plain(p) => tagged_str_is(j, "Plain"@, "text"@, p.text@),
        OutgoingMessageNode::Image(i) => match i {
            OutgoingImageNode::ImageId(s) => tagged_str_is(j, "Image"@, "imageId"@, s@),
            OutgoingImageNode::Url(s) => tagged_str_is(j, "Image"@, "url"@, s@),
            OutgoingImageNode::Path(s) => tagged_str_is(j, "Image"@, "path"@, s@),
            OutgoingImageNode::Base64(s) => tagged_str_is(j, "Image"@, "base64"@, s@),
        },
        OutgoingMessageNode::Voice(v) => match v {
            OutgoingVoiceNode::VoiceId(s) => tagged_str_is(j, "Voice"@, "voiceId"@, s@),
            OutgoingVoiceNode::Url(s) => tagged_str_is(j, "Voice"@, "url"@, s@),
            OutgoingVoiceNode::Path(s) => tagged_str_is(j, "Voice"@, "path"@, s@),
            OutgoingVoiceNode::Base64(s) => tagged_str_is(j, "Voice"@, "base64"@, s@),
        },
        OutgoingMessageNode::Xml(x) => tagged_str_is(j, "Xml"@, "xml"@, x.contents@),
        OutgoingMessageNode::Json(x) => tagged_str_is(j, "Json"@, "json"@, x.contents@),
        OutgoingMessageNode::App(a) => tagged_str_is(j, "App"@, "content"@, a.contents@),
        OutgoingMessageNode::Poke(p) => tagged_str_is(j, "Poke"@, "name"@, p.name@),
        OutgoingMessageNode::Dice(d) => tagged_is(j, "Dice"@, "value"@, Json::Int(d.value as i64)),
        OutgoingMessageNode::MusicShare(m) => {
            &&& object_is(
                j,
                seq![
                    "type"@,
                    "kind"@,
                    "title"@,
                    "summary"@,
                    "jumpUrl"@,
                    "pictureUrl"@,
                    "musicUrl"@,
                    "brief"@,
                ],
            )
            &&& str_is(value_at(j, 0), "MusicShare"@)
            &&& str_is(value_at(j, 1), m.kind@)
            &&& str_is(value_at(j, 2), m.title@)
            &&& str_is(value_at(j, 3), m.summary@)
            &&& str_is(value_at(j, 4), m.jump_url@)
            &&& str_is(value_at(j, 5), m.picture_url@)
            &&& str_is(value_at(j, 6), m.music_url@)
            &&& str_is(value_at(j, 7), m.brief@)
        },
        OutgoingMessageNode::Forward(g) => {
            &&& object_is(j, seq!["type"@, "nodeList"@] + key_if(g.display is Some, "display"@))
            &&& str_is(value_at(j, 0), "Forward"@)
            &&& g.display matches Some(d) ==> d.encodes_to(value_at(j, 2))
            &&& match value_at(j, 1) {
                Json::Array(v) => {
                    &&& v@.len() == g.messages@.len()
                    &&& forall|i: int|
                        0 <= i < v@.len() ==> forwarded_encodes(#[trigger] g.messages@[i], v@[i])
                },
                _ => false,
            }
        },
        OutgoingMessageNode::MiraiCode(c) => tagged_str_is(j, "MiraiCode"@, "code"@, c.code@),
    }
}

/// `j` is the wire form of one message of an outgoing forward chain.
pub open spec fn forwarded_encodes(m: OutgoingForwardedMessage, j: Json) -> bool
    decreases m,
{
    proof {
        lemma_custom_decreases(m);
    }
    match m {
        OutgoingForwardedMessage::Ref(r) => match r.context {
            Some(context) => {
                &&& object_is(j, seq!["messageRef"@])
                &&& object_is(value_at(j, 0), seq!["target"@, "messageId"@])
                &&& value_at(value_at(j, 0), 0) == Json::Int(context)
                &&& value_at(value_at(j, 0), 1) == Json::Int(r.id as i64)
            },
            None => object_is(j, seq!["messageId"@]) && value_at(j, 0) == Json::Int(r.id as i64),
        },
        OutgoingForwardedMessage::Custom(c) => {
            let chain_at: int = if c.time is Some { 3 } else { 2 };
            &&& value_at(j, 0) == Json::Int(c.sender_id)
            &&& match c.time {
                Some(t) => object_is(j, seq!["senderId"@, "time"@, "senderName"@, "messageChain"@])
                    && value_at(j, 1) == Json::Int(t as i64) && str_is(value_at(j, 2), c.sender_name@),
                None => object_is(j, seq!["senderId"@, "senderName"@, "messageChain"@]) && str_is(
                    value_at(j, 1),
                    c.sender_name@,
                ),
            }
            &&& match value_at(j, chain_at) {
                Json::Array(v) => {
                    &&& v@.len() == c.nodes@.len()
                    &&& forall|k: int|
                        0 <= k < v@.len() ==> encodes(#[trigger] c.nodes@[k], v@[k])
                },
                _ => false,
            }
        },
    }
}

fn tagged(tag: &str, key: &str, v: Json) -> (r: Json)
    ensures
        object_is(r, seq!["type"@, key@]),
        str_is(value_at(r, 0), tag@),
        value_at(r, 1) == v,
{
    let mut es: Vec<(String, Json)> = Vec::new();
    put(&mut es, "type", text(tag));
    put(&mut es, key, v);
    Json::Object(es)
}

/// Appends `key: s` when `s` is set.
fn put_opt(es: &mut Vec<(String, Json)>, key: &str, s: &Option<String>)
    ensures
        match s {
            Some(x) => final(es)@.len() == old(es)@.len() + 1 && final(es)@.last().0@ == key@
                && str_is(final(es)@.last().1, x@),
            None => final(es)@ == old(es)@,
        },
        forall|i: int| 0 <= i < old(es)@.len() ==> final(es)@[i] == old(es)@[i],
{
    match s {
        Some(x) => put(es, key, text(x.as_str())),
        None => {},
    }
}

impl ForwardDisplay {
    #[verifier::rlimit(60)]
    pub fn encode(&self) -> (r: Json)
        ensures
            self.encodes_to(r),
    {
        let mut es: Vec<(String, Json)> = Vec::new();
        put_opt(&mut es, "brief", &self.brief);
        match &self.preview {
            Some(p) => {
                let mut v: Vec<Json> = Vec::new();
                let mut i: usize = 0;
                while i < p.len()
                    invariant
                        i <= p@.len(),
                        v@.len() == i,
                        forall|k: int| 0 <= k < i ==> str_is(#[trigger] v@[k], p@[k]@),
                    decreases p.len() - i,
                {
                    v.push(text(p[i].as_str()));
                    i += 1;
                }
                put(&mut es, "preview", Json::Array(v));
            },
            None => {},
        }
        put_opt(&mut es, "source", &self.source);
        put_opt(&mut es, "summary", &self.summary);
        put_opt(&mut es, "title", &self.title);
        proof {
            assert forall|i: int| 0 <= i < self.keys().len() implies #[trigger] es@[i].0@
                == self.keys()[i] by {}
        }
        Json::Object(es)
    }
}

impl OutgoingForwardedMessage {
    pub fn encode(&self) -> (r: Json)
        ensures
            forwarded_encodes(*self, r),
        decreases *self,
    {
        proof {
            lemma_custom_decreases(*self);
        }
        match self {
            OutgoingForwardedMessage::Ref(r) => match r.context {
                Some(context) => {
                    let mut inner: Vec<(String, Json)> = Vec::new();
                    put(&mut inner, "target", Json::Int(context));
                    put(&mut inner, "messageId", Json::Int(r.id as i64));
                    let mut es: Vec<(String, Json)> = Vec::new();
                    put(&mut es, "messageRef", Json::Object(inner));
                    Json::Object(es)
                },
                None => {
                    let mut es: Vec<(String, Json)> = Vec::new();
                    put(&mut es, "messageId", Json::Int(r.id as i64));
                    Json::Object(es)
                },
            },
            OutgoingForwardedMessage::Custom(c) => {
                let mut chain: Vec<Json> = Vec::new();
                let mut k: usize = 0;
                while k < c.nodes.len()
                    invariant
                        *self == OutgoingForwardedMessage::Custom(*c),
                        forall|b: int| 0 <= b < c.nodes@.len() ==> decreases_to!(*self => #[trigger] c.nodes@[b]),
                        k <= c.nodes@.len(),
                        chain@.len() == k,
                        forall|b: int| 0 <= b < k ==> encodes(#[trigger] c.nodes@[b], chain@[b]),
                    decreases c.nodes.len() - k,
                {
                    chain.push(c.nodes[k].encode());
                    k += 1;
                }
                let mut es: Vec<(String, Json)> = Vec::new();
                put(&mut es, "senderId", Json::Int(c.sender_id));
                match c.time {
                    Some(t) => put(&mut es, "time", Json::Int(t as i64)),
                    None => {},
                }
                put(&mut es, "senderName", text(c.sender_name.as_str()));
                put(&mut es, "messageChain", Json::Array(chain));
                Json::Object(es)
            },
        }
    }
}

impl OutgoingMessageNode {
    /// The wire form of this node.
    pub fn encode(&self) -> (r: Json)
        ensures
            encodes(*self, r),
        decreases *self,
    {
        proof {
            lemma_outgoing_forward_decreases(*self);
        }
        match self {
            OutgoingMessageNode::At(a) => tagged("At", "target", Json::Int(a.target_id)),
            OutgoingMessageNode::AtAll(_) => {
                let mut es: Vec<(String, Json)> = Vec::new();
                put(&mut es, "type", text("AtAll"));
                Json::Object(es)
            },
            OutgoingMessageNode::Face(f) => {
                let mut es: Vec<(String, Json)> = Vec::new();
                put(&mut es, "type", text("Face"));
                match &f.face {
                    OutgoingFace::Id(id) => put(&mut es, "faceId", Json::Int(*id as i64)),
                    OutgoingFace::Name(n) => put(&mut es, "name", text(n.as_str())),
                }
                put(&mut es, "isSuperFace", Json::Bool(f.super_face));
                Json::Object(es)
            },
            OutgoingMessageNode::Plain(p) => tagged("Plain", "text", text(p.text.as_str())),
            OutgoingMessageNode::Image(i) => match i {
                OutgoingImageNode::ImageId(s) => tagged("Image", "imageId", text(s.as_str())),
                OutgoingImageNode::Url(s) => tagged("Image", "url", text(s.as_str())),
                OutgoingImageNode::Path(s) => tagged("Image", "path", text(s.as_str())),
                OutgoingImageNode::Base64(s) => tagged("Image", "base64", text(s.as_str())),
            },
            OutgoingMessageNode::Voice(v) => match v {
                OutgoingVoiceNode::VoiceId(s) => tagged("Voice", "voiceId", text(s.as_str())),
                OutgoingVoiceNode::Url(s) => tagged("Voice", "url", text(s.as_str())),
                OutgoingVoiceNode::Path(s) => tagged("Voice", "path", text(s.as_str())),
                OutgoingVoiceNode::Base64(s) => tagged("Voice", "base64", text(s.as_str())),
            },
            OutgoingMessageNode::Xml(x) => tagged("Xml", "xml", text(x.contents.as_str())),
            OutgoingMessageNode::Json(x) => tagged("Json", "json", text(x.contents.as_str())),
            OutgoingMessageNode::App(a) => tagged("App", "content", text(a.contents.as_str())),
            OutgoingMessageNode::Poke(p) => tagged("Poke", "name", text(p.name.as_str())),
            OutgoingMessageNode::Dice(d) => tagged("Dice", "value", Json::Int(d.value as i64)),
            OutgoingMessageNode::MusicShare(m) => {
                let mut es: Vec<(String, Json)> = Vec::new();
                put(&mut es, "type", text("MusicShare"));
                put(&mut es, "kind", text(m.kind.as_str()));
                put(&mut es, "title", text(m.title.as_str()));
                put(&mut es, "summary", text(m.summary.as_str()));
                put(&mut es, "jumpUrl", text(m.jump_url.as_str()));
                put(&mut es, "pictureUrl", text(m.picture_url.as_str()));
                put(&mut es, "musicUrl", text(m.music_url.as_str()));
                put(&mut es, "brief", text(m.brief.as_str()));
                Json::Object(es)
            },
            OutgoingMessageNode::Forward(g) => {
                let mut list: Vec<Json> = Vec::new();
                let mut i: usize = 0;
                while i < g.messages.len()
                    invariant
                        *self == OutgoingMessageNode::Forward(*g),
                        forall|b: int| 0 <= b < g.messages@.len() ==> decreases_to!(*self => #[trigger] g.messages@[b]),
                        i <= g.messages@.len(),
                        list@.len() == i,
                        forall|b: int| 0 <= b < i ==> forwarded_encodes(#[trigger] g.messages@[b], list@[b]),
                    decreases g.messages.len() - i,
                {
                    list.push(g.messages[i].encode());
                    i += 1;
                }
                let mut es: Vec<(String, Json)> = Vec::new();
                put(&mut es, "type", text("Forward"));
                put(&mut es, "nodeList", Json::Array(list));
                match &g.display {
                    Some(d) => put(&mut es, "display", d.encode()),
                    None => {},
                }
                let r = Json::Object(es);
                proof {
                    let keys = seq!["type"@, "nodeList"@] + key_if(g.display is Some, "display"@);
                    assert forall|i: int| 0 <= i < keys.len() implies #[trigger] es@[i].0@ == keys[i] by {}
                }
                r
            },
            OutgoingMessageNode::MiraiCode(c) => tagged("MiraiCode", "code", text(c.code.as_str())),
        }
    }
}


/// The handle of a message with id `id` in conversation `context`, when
/// both are known.
pub open spec fn handle_matches(r: Option<MessageHandle>, id: Option<i32>, context: Option<i64>) -> bool {
    match (id, context) {
        (Some(id), Some(context)) => r matches Some(h) && h@ == (id, context),
        _ => r is None,
    }
}

/// What every quoted message offers.
pub trait AnyQuotedMessage {
    spec fn quoted(&self) -> QuotedMessageContents;

    spec fn quoted_context(&self) -> i64;

    /// The quoted message's handle; `None` when its id is absent.
    fn handle(&self) -> (r: Option<MessageHandle>)
        ensures
            handle_matches(r, self.quoted().id, Some(self.quoted_context())),
    ;

    fn contents(&self) -> (r: &QuotedMessageContents)
        ensures
            *r == self.quoted(),
    ;

    fn id(&self) -> (r: Option<i32>)
        ensures
            r == self.quoted().id,
    {
        self.contents().id
    }

    fn nodes(&self) -> (r: &[IncomingMessageNode])
        ensures
            r@ == self.quoted().nodes@,
    {
        self.contents().nodes.as_slice()
    }
}

impl QuotedGroupMessage {
    pub fn context(&self) -> (r: GroupHandle)
        ensures
            r@ == self.context_id,
    {
        Bot.get_group(self.context_id)
    }

    pub fn sender(&self) -> (r: MemberHandle)
        ensures
            r@ == (self.sender_id, self.context_id),
    {
        self.context().get_member(self.sender_id)
    }
}

impl AnyQuotedMessage for QuotedGroupMessage {
    open spec fn quoted(&self) -> QuotedMessageContents {
        self.contents
    }

    /// A group quote is addressed in its group.
    open spec fn quoted_context(&self) -> i64 {
        self.context_id
    }

    fn handle(&self) -> (r: Option<MessageHandle>) {
        match self.contents.id {
            Some(id) => Some(Bot.get_message(id, self.context_id)),
            None => None,
        }
    }

    fn contents(&self) -> (r: &QuotedMessageContents) {
        &self.contents
    }
}

impl QuotedUserMessage {
    pub fn receiver(&self) -> (r: UserHandle)
        ensures
            r@ == self.receiver_id,
    {
        Bot.get_user(self.receiver_id)
    }

    pub fn sender(&self) -> (r: UserHandle)
        ensures
            r@ == self.sender_id,
    {
        Bot.get_user(self.sender_id)
    }
}

impl AnyQuotedMessage for QuotedUserMessage {
    open spec fn quoted(&self) -> QuotedMessageContents {
        self.contents
    }

    /// A quote between users is addressed by its sender.
    open spec fn quoted_context(&self) -> i64 {
        self.sender_id
    }

    fn handle(&self) -> (r: Option<MessageHandle>) {
        match self.contents.id {
            Some(id) => Some(Bot.get_message(id, self.sender_id)),
            None => None,
        }
    }

    fn contents(&self) -> (r: &QuotedMessageContents) {
        &self.contents
    }
}

impl AnyQuotedMessage for QuotedMessage {
    open spec fn quoted(&self) -> QuotedMessageContents {
        match self {
            QuotedMessage::Group(g) => g.quoted(),
            QuotedMessage::User(u) => u.quoted(),
        }
    }

    open spec fn quoted_context(&self) -> i64 {
        match self {
            QuotedMessage::Group(g) => g.quoted_context(),
            QuotedMessage::User(u) => u.quoted_context(),
        }
    }

    fn handle(&self) -> (r: Option<MessageHandle>) {
        match self {
            QuotedMessage::Group(g) => g.handle(),
            QuotedMessage::User(u) => u.handle(),
        }
    }

    fn contents(&self) -> (r: &QuotedMessageContents) {
        match self {
            QuotedMessage::Group(g) => g.contents(),
            QuotedMessage::User(u) => u.contents(),
        }
    }
}

/// What every message envelope offers, whatever its conversation.
pub trait AnyMessage {
    spec fn chain(&self) -> IncomingMessageContents;

    /// The conversation a reply to this message is addressed to, if any.
    spec fn context_of(&self) -> Option<i64>;

    /// The message's handle; `None` when its id is absent or it has no
    /// addressable conversation.
    fn handle(&self) -> (r: Option<MessageHandle>)
        ensures
            handle_matches(r, self.chain().id, self.context_of()),
    ;

    fn contents(&self) -> (r: &IncomingMessageContents)
        ensures
            *r == self.chain(),
    ;

    fn id(&self) -> (r: Option<i32>)
        ensures
            r == self.chain().id,
    {
        self.contents().id
    }

    fn time(&self) -> (r: Option<SystemTime>)
        ensures
            self.chain().time_secs is None ==> r is None,
            self.chain().time_secs matches Some(t) && t >= 0 ==> r is Some,
    {
        self.contents().time()
    }

    fn time_secs(&self) -> (r: Option<i32>)
        ensures
            r == self.chain().time_secs,
    {
        self.contents().time_secs
    }

    fn quote(&self) -> (r: Option<&QuotedMessage>)
        ensures
            match r {
                Some(q) => self.chain().quote == Some(*q),
                None => self.chain().quote is None,
            },
    {
        match &self.contents().quote {
            Some(q) => Some(q),
            None => None,
        }
    }

    fn nodes(&self) -> (r: &[IncomingMessageNode])
        ensures
            r@ == self.chain().nodes@,
    {
        self.contents().nodes.as_slice()
    }
}

/// A message from a friend.
#[derive(Debug)]
pub struct FriendMessage {
    pub sender: FriendDetails,
    pub contents: IncomingMessageContents,
}

impl FriendMessage {
    pub open spec fn wire_ok(j: Json) -> bool {
        &&& field_of(j, "sender"@) matches Some(d) && FriendDetails::from_wire(d) is Some
        &&& field_of(j, "messageChain"@) matches Some(c) && chain_wire_ok(c)
    }

    pub open spec fn wire_matches(j: Json, m: FriendMessage) -> bool {
        &&& field_of(j, "sender"@) matches Some(d) && FriendDetails::from_wire(d) == Some(m.sender)
        &&& field_of(j, "messageChain"@) matches Some(c) && chain_wire_matches(c, m.contents)
    }

    pub fn decode(j: &Json) -> (r: Result<FriendMessage, DecodeError>)
        ensures
            r is Ok <==> FriendMessage::wire_ok(*j),
            r matches Ok(m) ==> FriendMessage::wire_matches(*j, m),
    {
        let sender = FriendDetails::decode(require(j, "sender")?)?;
        let contents = IncomingMessageContents::decode(require(j, "messageChain")?)?;
        Ok(FriendMessage { sender, contents })
    }

    pub fn context(&self) -> (r: &FriendDetails)
        ensures
            *r == self.sender,
    {
        &self.sender
    }

    pub fn sender(&self) -> (r: &FriendDetails)
        ensures
            *r == self.sender,
    {
        &self.sender
    }
}

impl AnyMessage for FriendMessage {
    open spec fn chain(&self) -> IncomingMessageContents {
        self.contents
    }

    open spec fn context_of(&self) -> Option<i64> {
        Some(self.sender.0.id)
    }

    fn handle(&self) -> (r: Option<MessageHandle>) {
        match self.contents.id {
            Some(id) => Some(Bot.get_message(id, self.sender.0.id)),
            None => None,
        }
    }

    fn contents(&self) -> (r: &IncomingMessageContents) {
        &self.contents
    }
}
/// A message the bot's account sent to a friend from another client.
#[derive(Debug)]
pub struct FriendSyncMessage {
    pub context: FriendDetails,
    pub contents: IncomingMessageContents,
}

impl FriendSyncMessage {
    pub open spec fn wire_ok(j: Json) -> bool {
        &&& field_of(j, "subject"@) matches Some(d) && FriendDetails::from_wire(d) is Some
        &&& field_of(j, "messageChain"@) matches Some(c) && chain_wire_ok(c)
    }

    pub open spec fn wire_matches(j: Json, m: FriendSyncMessage) -> bool {
        &&& field_of(j, "subject"@) matches Some(d) && FriendDetails::from_wire(d) == Some(m.context)
        &&& field_of(j, "messageChain"@) matches Some(c) && chain_wire_matches(c, m.contents)
    }

    pub fn decode(j: &Json) -> (r: Result<FriendSyncMessage, DecodeError>)
        ensures
            r is Ok <==> FriendSyncMessage::wire_ok(*j),
            r matches Ok(m) ==> FriendSyncMessage::wire_matches(*j, m),
    {
        let context = FriendDetails::decode(require(j, "subject")?)?;
        let contents = IncomingMessageContents::decode(require(j, "messageChain")?)?;
        Ok(FriendSyncMessage { context, contents })
    }

    pub fn context(&self) -> (r: &FriendDetails)
        ensures
            *r == self.context,
    {
        &self.context
    }
}

impl AnyMessage for FriendSyncMessage {
    open spec fn chain(&self) -> IncomingMessageContents {
        self.contents
    }

    open spec fn context_of(&self) -> Option<i64> {
        Some(self.context.0.id)
    }

    fn handle(&self) -> (r: Option<MessageHandle>) {
        match self.contents.id {
            Some(id) => Some(Bot.get_message(id, self.context.0.id)),
            None => None,
        }
    }

    fn contents(&self) -> (r: &IncomingMessageContents) {
        &self.contents
    }
}
/// A message in a group.
#[derive(Debug)]
pub struct GroupMessage {
    pub sender: MemberDetails,
    pub contents: IncomingMessageContents,
}

impl GroupMessage {
    pub open spec fn wire_ok(j: Json) -> bool {
        &&& field_of(j, "sender"@) matches Some(d) && MemberDetails::from_wire(d) is Some
        &&& field_of(j, "messageChain"@) matches Some(c) && chain_wire_ok(c)
    }

    pub open spec fn wire_matches(j: Json, m: GroupMessage) -> bool {
        &&& field_of(j, "sender"@) matches Some(d) && MemberDetails::from_wire(d) == Some(m.sender)
        &&& field_of(j, "messageChain"@) matches Some(c) && chain_wire_matches(c, m.contents)
    }

    pub fn decode(j: &Json) -> (r: Result<GroupMessage, DecodeError>)
        ensures
            r is Ok <==> GroupMessage::wire_ok(*j),
            r matches Ok(m) ==> GroupMessage::wire_matches(*j, m),
    {
        let sender = MemberDetails::decode(require(j, "sender")?)?;
        let contents = IncomingMessageContents::decode(require(j, "messageChain")?)?;
        Ok(GroupMessage { sender, contents })
    }

    pub fn context(&self) -> (r: &GroupDetails)
        ensures
            *r == self.sender.group,
    {
        &self.sender.group
    }

    pub fn sender(&self) -> (r: &MemberDetails)
        ensures
            *r == self.sender,
    {
        &self.sender
    }
}

impl AnyMessage for GroupMessage {
    open spec fn chain(&self) -> IncomingMessageContents {
        self.contents
    }

    open spec fn context_of(&self) -> Option<i64> {
        Some(self.sender.group.id)
    }

    fn handle(&self) -> (r: Option<MessageHandle>) {
        match self.contents.id {
            Some(id) => Some(Bot.get_message(id, self.sender.group.id)),
            None => None,
        }
    }

    fn contents(&self) -> (r: &IncomingMessageContents) {
        &self.contents
    }
}
/// A message the bot's account sent to a group from another client.
#[derive(Debug)]
pub struct GroupSyncMessage {
    pub context: GroupDetails,
    pub contents: IncomingMessageContents,
}

impl GroupSyncMessage {
    pub open spec fn wire_ok(j: Json) -> bool {
        &&& field_of(j, "subject"@) matches Some(d) && GroupDetails::from_wire(d) is Some
        &&& field_of(j, "messageChain"@) matches Some(c) && chain_wire_ok(c)
    }

    pub open spec fn wire_matches(j: Json, m: GroupSyncMessage) -> bool {
        &&& field_of(j, "subject"@) matches Some(d) && GroupDetails::from_wire(d) == Some(m.context)
        &&& field_of(j, "messageChain"@) matches Some(c) && chain_wire_matches(c, m.contents)
    }

    pub fn decode(j: &Json) -> (r: Result<GroupSyncMessage, DecodeError>)
        ensures
            r is Ok <==> GroupSyncMessage::wire_ok(*j),
            r matches Ok(m) ==> GroupSyncMessage::wire_matches(*j, m),
    {
        let context = GroupDetails::decode(require(j, "subject")?)?;
        let contents = IncomingMessageContents::decode(require(j, "messageChain")?)?;
        Ok(GroupSyncMessage { context, contents })
    }

    pub fn context(&self) -> (r: &GroupDetails)
        ensures
            *r == self.context,
    {
        &self.context
    }
}

impl AnyMessage for GroupSyncMessage {
    open spec fn chain(&self) -> IncomingMessageContents {
        self.contents
    }

    open spec fn context_of(&self) -> Option<i64> {
        Some(self.context.id)
    }

    fn handle(&self) -> (r: Option<MessageHandle>) {
        match self.contents.id {
            Some(id) => Some(Bot.get_message(id, self.context.id)),
            None => None,
        }
    }

    fn contents(&self) -> (r: &IncomingMessageContents) {
        &self.contents
    }
}
/// A private message from a group member who is no friend.
#[derive(Debug)]
pub struct TempMessage {
    pub sender: MemberDetails,
    pub contents: IncomingMessageContents,
}

impl TempMessage {
    pub open spec fn wire_ok(j: Json) -> bool {
        &&& field_of(j, "sender"@) matches Some(d) && MemberDetails::from_wire(d) is Some
        &&& field_of(j, "messageChain"@) matches Some(c) && chain_wire_ok(c)
    }

    pub open spec fn wire_matches(j: Json, m: TempMessage) -> bool {
        &&& field_of(j, "sender"@) matches Some(d) && MemberDetails::from_wire(d) == Some(m.sender)
        &&& field_of(j, "messageChain"@) matches Some(c) && chain_wire_matches(c, m.contents)
    }

    pub fn decode(j: &Json) -> (r: Result<TempMessage, DecodeError>)
        ensures
            r is Ok <==> TempMessage::wire_ok(*j),
            r matches Ok(m) ==> TempMessage::wire_matches(*j, m),
    {
        let sender = MemberDetails::decode(require(j, "sender")?)?;
        let contents = IncomingMessageContents::decode(require(j, "messageChain")?)?;
        Ok(TempMessage { sender, contents })
    }

    pub fn context(&self) -> (r: &MemberDetails)
        ensures
            *r == self.sender,
    {
        &self.sender
    }

    pub fn sender(&self) -> (r: &MemberDetails)
        ensures
            *r == self.sender,
    {
        &self.sender
    }
}

impl AnyMessage for TempMessage {
    open spec fn chain(&self) -> IncomingMessageContents {
        self.contents
    }

    open spec fn context_of(&self) -> Option<i64> {
        Some(self.sender.id)
    }

    fn handle(&self) -> (r: Option<MessageHandle>) {
        match self.contents.id {
            Some(id) => Some(Bot.get_message(id, self.sender.id)),
            None => None,
        }
    }

    fn contents(&self) -> (r: &IncomingMessageContents) {
        &self.contents
    }
}
/// A private message the bot's account sent to a group member from another client.
#[derive(Debug)]
pub struct TempSyncMessage {
    pub context: MemberDetails,
    pub contents: IncomingMessageContents,
}

impl TempSyncMessage {
    pub open spec fn wire_ok(j: Json) -> bool {
        &&& field_of(j, "subject"@) matches Some(d) && MemberDetails::from_wire(d) is Some
        &&& field_of(j, "messageChain"@) matches Some(c) && chain_wire_ok(c)
    }

    pub open spec fn wire_matches(j: Json, m: TempSyncMessage) -> bool {
        &&& field_of(j, "subject"@) matches Some(d) && MemberDetails::from_wire(d) == Some(m.context)
        &&& field_of(j, "messageChain"@) matches Some(c) && chain_wire_matches(c, m.contents)
    }

    pub fn decode(j: &Json) -> (r: Result<TempSyncMessage, DecodeError>)
        ensures
            r is Ok <==> TempSyncMessage::wire_ok(*j),
            r matches Ok(m) ==> TempSyncMessage::wire_matches(*j, m),
    {
        let context = MemberDetails::decode(require(j, "subject")?)?;
        let contents = IncomingMessageContents::decode(require(j, "messageChain")?)?;
        Ok(TempSyncMessage { context, contents })
    }

    pub fn context(&self) -> (r: &MemberDetails)
        ensures
            *r == self.context,
    {
        &self.context
    }
}

impl AnyMessage for TempSyncMessage {
    open spec fn chain(&self) -> IncomingMessageContents {
        self.contents
    }

    open spec fn context_of(&self) -> Option<i64> {
        Some(self.context.id)
    }

    fn handle(&self) -> (r: Option<MessageHandle>) {
        match self.contents.id {
            Some(id) => Some(Bot.get_message(id, self.context.id)),
            None => None,
        }
    }

    fn contents(&self) -> (r: &IncomingMessageContents) {
        &self.contents
    }
}
/// A message from a stranger.
#[derive(Debug)]
pub struct StrangerMessage {
    pub sender: StrangerDetails,
    pub contents: IncomingMessageContents,
}

impl StrangerMessage {
    pub open spec fn wire_ok(j: Json) -> bool {
        &&& field_of(j, "sender"@) matches Some(d) && StrangerDetails::from_wire(d) is Some
        &&& field_of(j, "messageChain"@) matches Some(c) && chain_wire_ok(c)
    }

    pub open spec fn wire_matches(j: Json, m: StrangerMessage) -> bool {
        &&& field_of(j, "sender"@) matches Some(d) && StrangerDetails::from_wire(d) == Some(m.sender)
        &&& field_of(j, "messageChain"@) matches Some(c) && chain_wire_matches(c, m.contents)
    }

    pub fn decode(j: &Json) -> (r: Result<StrangerMessage, DecodeError>)
        ensures
            r is Ok <==> StrangerMessage::wire_ok(*j),
            r matches Ok(m) ==> StrangerMessage::wire_matches(*j, m),
    {
        let sender = StrangerDetails::decode(require(j, "sender")?)?;
        let contents = IncomingMessageContents::decode(require(j, "messageChain")?)?;
        Ok(StrangerMessage { sender, contents })
    }

    pub fn context(&self) -> (r: &StrangerDetails)
        ensures
            *r == self.sender,
    {
        &self.sender
    }

    pub fn sender(&self) -> (r: &StrangerDetails)
        ensures
            *r == self.sender,
    {
        &self.sender
    }
}

impl AnyMessage for StrangerMessage {
    open spec fn chain(&self) -> IncomingMessageContents {
        self.contents
    }

    open spec fn context_of(&self) -> Option<i64> {
        Some(self.sender.0.id)
    }

    fn handle(&self) -> (r: Option<MessageHandle>) {
        match self.contents.id {
            Some(id) => Some(Bot.get_message(id, self.sender.0.id)),
            None => None,
        }
    }

    fn contents(&self) -> (r: &IncomingMessageContents) {
        &self.contents
    }
}
/// A message the bot's account sent to a stranger from another client.
#[derive(Debug)]
pub struct StrangerSyncMessage {
    pub context: StrangerDetails,
    pub contents: IncomingMessageContents,
}

impl StrangerSyncMessage {
    pub open spec fn wire_ok(j: Json) -> bool {
        &&& field_of(j, "subject"@) matches Some(d) && StrangerDetails::from_wire(d) is Some
        &&& field_of(j, "messageChain"@) matches Some(c) && chain_wire_ok(c)
    }

    pub open spec fn wire_matches(j: Json, m: StrangerSyncMessage) -> bool {
        &&& field_of(j, "subject"@) matches Some(d) && StrangerDetails::from_wire(d) == Some(m.context)
        &&& field_of(j, "messageChain"@) matches Some(c) && chain_wire_matches(c, m.contents)
    }

    pub fn decode(j: &Json) -> (r: Result<StrangerSyncMessage, DecodeError>)
        ensures
            r is Ok <==> StrangerSyncMessage::wire_ok(*j),
            r matches Ok(m) ==> StrangerSyncMessage::wire_matches(*j, m),
    {
        let context = StrangerDetails::decode(require(j, "subject")?)?;
        let contents = IncomingMessageContents::decode(require(j, "messageChain")?)?;
        Ok(StrangerSyncMessage { context, contents })
    }

    pub fn context(&self) -> (r: &StrangerDetails)
        ensures
            *r == self.context,
    {
        &self.context
    }
}

impl AnyMessage for StrangerSyncMessage {
    open spec fn chain(&self) -> IncomingMessageContents {
        self.contents
    }

    open spec fn context_of(&self) -> Option<i64> {
        Some(self.context.0.id)
    }

    fn handle(&self) -> (r: Option<MessageHandle>) {
        match self.contents.id {
            Some(id) => Some(Bot.get_message(id, self.context.0.id)),
            None => None,
        }
    }

    fn contents(&self) -> (r: &IncomingMessageContents) {
        &self.contents
    }
}
/// A message from another client of the bot's own account.
#[derive(Debug)]
pub struct OtherClientMessage {
    pub sender: OtherClientDetails,
    pub contents: IncomingMessageContents,
}

impl OtherClientMessage {
    pub open spec fn wire_ok(j: Json) -> bool {
        &&& field_of(j, "sender"@) matches Some(d) && OtherClientDetails::from_wire(d) is Some
        &&& field_of(j, "messageChain"@) matches Some(c) && chain_wire_ok(c)
    }

    pub open spec fn wire_matches(j: Json, m: OtherClientMessage) -> bool {
        &&& field_of(j, "sender"@) matches Some(d) && OtherClientDetails::from_wire(d) == Some(m.sender)
        &&& field_of(j, "messageChain"@) matches Some(c) && chain_wire_matches(c, m.contents)
    }

    pub fn decode(j: &Json) -> (r: Result<OtherClientMessage, DecodeError>)
        ensures
            r is Ok <==> OtherClientMessage::wire_ok(*j),
            r matches Ok(m) ==> OtherClientMessage::wire_matches(*j, m),
    {
        let sender = OtherClientDetails::decode(require(j, "sender")?)?;
        let contents = IncomingMessageContents::decode(require(j, "messageChain")?)?;
        Ok(OtherClientMessage { sender, contents })
    }

    pub fn context(&self) -> (r: &OtherClientDetails)
        ensures
            *r == self.sender,
    {
        &self.sender
    }

    pub fn sender(&self) -> (r: &OtherClientDetails)
        ensures
            *r == self.sender,
    {
        &self.sender
    }
}

impl AnyMessage for OtherClientMessage {
    open spec fn chain(&self) -> IncomingMessageContents {
        self.contents
    }

    open spec fn context_of(&self) -> Option<i64> {
        None
    }

    fn handle(&self) -> (r: Option<MessageHandle>) {
        None
    }

    fn contents(&self) -> (r: &IncomingMessageContents) {
        &self.contents
    }
}
/// A message of any conversation, live or synchronised from another client.
#[derive(Debug)]
pub enum Message {
    Friend(FriendMessage),
    FriendSync(FriendSyncMessage),
    Group(GroupMessage),
    GroupSync(GroupSyncMessage),
    Temp(TempMessage),
    TempSync(TempSyncMessage),
    Stranger(StrangerMessage),
    StrangerSync(StrangerSyncMessage),
    OtherClient(OtherClientMessage),
}

impl Message {
    /// Whether `j` decodes as a message: its `type` names a message kind and
    /// the rest decodes as that kind.
    pub open spec fn wire_ok(j: Json) -> bool {
        if is_tagged(j, "FriendMessage"@) {
            FriendMessage::wire_ok(j)
        } else if is_tagged(j, "FriendSyncMessage"@) {
            FriendSyncMessage::wire_ok(j)
        } else if is_tagged(j, "GroupMessage"@) {
            GroupMessage::wire_ok(j)
        } else if is_tagged(j, "GroupSyncMessage"@) {
            GroupSyncMessage::wire_ok(j)
        } else if is_tagged(j, "TempMessage"@) {
            TempMessage::wire_ok(j)
        } else if is_tagged(j, "TempSyncMessage"@) {
            TempSyncMessage::wire_ok(j)
        } else if is_tagged(j, "StrangerMessage"@) {
            StrangerMessage::wire_ok(j)
        } else if is_tagged(j, "StrangerSyncMessage"@) {
            StrangerSyncMessage::wire_ok(j)
        } else if is_tagged(j, "OtherClientMessage"@) {
            OtherClientMessage::wire_ok(j)
        } else {
            false
        }
    }

    pub open spec fn wire_matches(j: Json, m: Message) -> bool {
        match m {
            Message::Friend(x) => is_tagged(j, "FriendMessage"@)
                && FriendMessage::wire_matches(j, x),
            Message::FriendSync(x) => is_tagged(j, "FriendSyncMessage"@)
                && FriendSyncMessage::wire_matches(j, x),
            Message::Group(x) => is_tagged(j, "GroupMessage"@) && GroupMessage::wire_matches(j, x),
            Message::GroupSync(x) => is_tagged(j, "GroupSyncMessage"@)
                && GroupSyncMessage::wire_matches(j, x),
            Message::Temp(x) => is_tagged(j, "TempMessage"@) && TempMessage::wire_matches(j, x),
            Message::TempSync(x) => is_tagged(j, "TempSyncMessage"@)
                && TempSyncMessage::wire_matches(j, x),
            Message::Stranger(x) => is_tagged(j, "StrangerMessage"@)
                && StrangerMessage::wire_matches(j, x),
            Message::StrangerSync(x) => is_tagged(j, "StrangerSyncMessage"@)
                && StrangerSyncMessage::wire_matches(j, x),
            Message::OtherClient(x) => is_tagged(j, "OtherClientMessage"@)
                && OtherClientMessage::wire_matches(j, x),
        }
    }

    /// Whether `j` is tagged as a message kind.
    pub open spec fn is_message_tag(j: Json) -> bool {
        is_tagged(j, "FriendMessage"@)
            || is_tagged(j, "FriendSyncMessage"@)
            || is_tagged(j, "GroupMessage"@)
            || is_tagged(j, "GroupSyncMessage"@)
            || is_tagged(j, "TempMessage"@)
            || is_tagged(j, "TempSyncMessage"@)
            || is_tagged(j, "StrangerMessage"@)
            || is_tagged(j, "StrangerSyncMessage"@)
            || is_tagged(j, "OtherClientMessage"@)
    }

    pub fn decode(j: &Json) -> (r: Result<Message, DecodeError>)
        ensures
            r is Ok <==> Message::wire_ok(*j),
            r matches Ok(m) ==> Message::wire_matches(*j, m),
    {
        if has_tag(j, "type", "FriendMessage") {
            Ok(Message::Friend(FriendMessage::decode(j)?))
        } else if has_tag(j, "type", "FriendSyncMessage") {
            Ok(Message::FriendSync(FriendSyncMessage::decode(j)?))
        } else if has_tag(j, "type", "GroupMessage") {
            Ok(Message::Group(GroupMessage::decode(j)?))
        } else if has_tag(j, "type", "GroupSyncMessage") {
            Ok(Message::GroupSync(GroupSyncMessage::decode(j)?))
        } else if has_tag(j, "type", "TempMessage") {
            Ok(Message::Temp(TempMessage::decode(j)?))
        } else if has_tag(j, "type", "TempSyncMessage") {
            Ok(Message::TempSync(TempSyncMessage::decode(j)?))
        } else if has_tag(j, "type", "StrangerMessage") {
            Ok(Message::Stranger(StrangerMessage::decode(j)?))
        } else if has_tag(j, "type", "StrangerSyncMessage") {
            Ok(Message::StrangerSync(StrangerSyncMessage::decode(j)?))
        } else if has_tag(j, "type", "OtherClientMessage") {
            Ok(Message::OtherClient(OtherClientMessage::decode(j)?))
        } else {
            Err(DecodeError::UnknownTag)
        }
    }
}

impl AnyMessage for Message {
    open spec fn chain(&self) -> IncomingMessageContents {
        match self {
            Message::Friend(x) => x.chain(),
            Message::FriendSync(x) => x.chain(),
            Message::Group(x) => x.chain(),
            Message::GroupSync(x) => x.chain(),
            Message::Temp(x) => x.chain(),
            Message::TempSync(x) => x.chain(),
            Message::Stranger(x) => x.chain(),
            Message::StrangerSync(x) => x.chain(),
            Message::OtherClient(x) => x.chain(),
        }
    }

    open spec fn context_of(&self) -> Option<i64> {
        match self {
            Message::Friend(x) => x.context_of(),
            Message::FriendSync(x) => x.context_of(),
            Message::Group(x) => x.context_of(),
            Message::GroupSync(x) => x.context_of(),
            Message::Temp(x) => x.context_of(),
            Message::TempSync(x) => x.context_of(),
            Message::Stranger(x) => x.context_of(),
            Message::StrangerSync(x) => x.context_of(),
            Message::OtherClient(x) => x.context_of(),
        }
    }

    fn handle(&self) -> (r: Option<MessageHandle>) {
        match self {
            Message::Friend(x) => x.handle(),
            Message::FriendSync(x) => x.handle(),
            Message::Group(x) => x.handle(),
            Message::GroupSync(x) => x.handle(),
            Message::Temp(x) => x.handle(),
            Message::TempSync(x) => x.handle(),
            Message::Stranger(x) => x.handle(),
            Message::StrangerSync(x) => x.handle(),
            Message::OtherClient(x) => x.handle(),
        }
    }

    fn contents(&self) -> (r: &IncomingMessageContents) {
        match self {
            Message::Friend(x) => x.contents(),
            Message::FriendSync(x) => x.contents(),
            Message::Group(x) => x.contents(),
            Message::GroupSync(x) => x.contents(),
            Message::Temp(x) => x.contents(),
            Message::TempSync(x) => x.contents(),
            Message::Stranger(x) => x.contents(),
            Message::StrangerSync(x) => x.contents(),
            Message::OtherClient(x) => x.contents(),
        }
    }
}

/// A message to send: its nodes, and the id of a message it quotes.
#[derive(Debug)]
pub struct OutgoingMessageContents {
    pub quote: Option<i32>,
    pub nodes: Vec<OutgoingMessageNode>,
}

impl OutgoingMessageContents {
    pub fn new(nodes: Vec<OutgoingMessageNode>) -> (r: OutgoingMessageContents)
        ensures
            r.quote is None,
            r.nodes == nodes,
    {
        OutgoingMessageContents { quote: None, nodes }
    }

    pub fn quote(self, quote: Option<MessageHandle>) -> (r: OutgoingMessageContents)
        ensures
            r.quote == (match quote {
                Some(h) => Some(h@.0),
                None => None,
            }),
            r.nodes == self.nodes,
    {
        let id = match quote {
            Some(h) => Some(h.id()),
            None => None,
        };
        self.quote_id(id)
    }

    pub fn quote_id(self, quote: Option<i32>) -> (r: OutgoingMessageContents)
        ensures
            r.quote == quote,
            r.nodes == self.nodes,
    {
        OutgoingMessageContents { quote, nodes: self.nodes }
    }

    /// `j` holds the entries of this message: `quote` only when there is
    /// one, then `messageChain`.
    pub open spec fn encodes_to(&self, j: Json) -> bool {
        let chain_at: int = if self.quote is Some { 1 } else { 0 };
        &&& match self.quote {
            Some(q) => object_is(j, seq!["quote"@, "messageChain"@]) && value_at(j, 0) == Json::Int(q as i64),
            None => object_is(j, seq!["messageChain"@]),
        }
        &&& match value_at(j, chain_at) {
            Json::Array(v) => v@.len() == self.nodes@.len() && forall|k: int|
                0 <= k < v@.len() ==> encodes(#[trigger] self.nodes@[k], v@[k]),
            _ => false,
        }
    }

    pub fn encode_chain(&self) -> (r: Json)
        ensures
            r matches Json::Array(v) && v@.len() == self.nodes@.len() && forall|k: int|
                0 <= k < v@.len() ==> encodes(#[trigger] self.nodes@[k], v@[k]),
    {
        let mut chain: Vec<Json> = Vec::new();
        let mut k: usize = 0;
        while k < self.nodes.len()
            invariant
                k <= self.nodes@.len(),
                chain@.len() == k,
                forall|b: int| 0 <= b < k ==> encodes(#[trigger] self.nodes@[b], chain@[b]),
            decreases self.nodes.len() - k,
        {
            chain.push(self.nodes[k].encode());
            k += 1;
        }
        Json::Array(chain)
    }

    /// The wire form of this message.
    pub fn encode(&self) -> (r: Json)
        ensures
            self.encodes_to(r),
    {
        let mut es: Vec<(String, Json)> = Vec::new();
        match self.quote {
            Some(q) => put(&mut es, "quote", Json::Int(q as i64)),
            None => {},
        }
        put(&mut es, "messageChain", self.encode_chain());
        Json::Object(es)
    }
}

} // verus!
