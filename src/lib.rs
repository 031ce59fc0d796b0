//! Client-side model of a chat-bot gateway protocol: the messages and
//! events that the gateway reports, decoded from their JSON wire form; the
//! message nodes to send back, encoded to it; the records of the gateway's
//! calls; and the decisions of the pumps that deliver events in order.
pub mod adapter;
pub mod entity;
pub mod event;
pub mod json;
pub mod laws;
pub mod message;
pub mod pump;
pub mod request;
pub mod time;
pub mod types;

pub use entity::{
    AnnouncementDetails, AnnouncementHandle, AnyUserHandle, Bot, FileDetails, FileDownloadInfo,
    FileHandle, FileMetadata, FriendDetails, FriendHandle, GroupConfig, GroupDetails, GroupHandle,
    GroupHonor, ImageInfo, MemberActivity, MemberDetails, MemberHandle, MemberInfo,
    MemberPermission, MessageHandle, OtherClientDetails, OtherClientHandle, Profile, Sex,
    StrangerDetails, StrangerHandle, UserDetails, UserHandle, VoiceInfo,
};
pub use request::{
    Announcement, AnnouncementImage, Command, FileUpload, GroupConfigUpdate, MemberInfoUpdate,
};
