//! Request bodies that callers build: settings updates, announcements,
//! command registrations and uploads.
use vstd::prelude::*;
use crate::json::{object_is, put, str_is, text, value_at, Json};

verus! {

/// Declares `bytes::Bytes`, the buffer type of uploads; it is only
/// carried, never read.
#[verifier::external_type_specification]
#[verifier::external_body]
pub struct ExBytes(bytes::Bytes);

/// A file to upload: fetched by the gateway from a URL, or given as bytes.
#[derive(Debug)]
pub enum FileUpload {
    Url(String),
    Bytes(bytes::Bytes),
}

/// The keys that an optional string field adds to a wire form: `key` when
/// the field is set, none otherwise.
pub open spec fn opt_key(s: Option<String>, key: Seq<char>) -> Seq<Seq<char>> {
    if s is Some {
        seq![key]
    } else {
        Seq::empty()
    }
}

/// Changes to a group's settings; unset fields stay as they are.
#[derive(Clone, Debug, PartialEq, Eq)]
pub struct GroupConfigUpdate {
    pub name: Option<String>,
    pub allow_member_invite: Option<bool>,
}

impl GroupConfigUpdate {
    pub fn new() -> (r: GroupConfigUpdate)
        ensures
            r.name is None,
            r.allow_member_invite is None,
    {
        GroupConfigUpdate { name: None, allow_member_invite: None }
    }

    pub fn name(self, name: Option<String>) -> (r: GroupConfigUpdate)
        ensures
            r.name == name,
            r.allow_member_invite == self.allow_member_invite,
    {
        GroupConfigUpdate { name, ..self }
    }

    pub fn allow_member_invite(self, allow_member_invite: Option<bool>) -> (r: GroupConfigUpdate)
        ensures
            r.name == self.name,
            r.allow_member_invite == allow_member_invite,
    {
        GroupConfigUpdate { allow_member_invite, ..self }
    }

    /// Only the set fields are written.
    pub open spec fn encodes_to(&self, j: Json) -> bool {
        &&& object_is(
            j,
            opt_key(self.name, "name"@) + (if self.allow_member_invite is Some {
                seq!["allowMemberInvite"@]
            } else {
                Seq::empty()
            }),
        )
        &&& self.name matches Some(n) ==> str_is(value_at(j, 0), n@)
        &&& self.allow_member_invite matches Some(b) ==> value_at(
            j,
            if self.name is Some {
                1int
            } else {
                0
            },
        ) == Json::Bool(b)
    }

    pub fn encode(&self) -> (r: Json)
        ensures
            self.encodes_to(r),
    {
        let mut es: Vec<(String, Json)> = Vec::new();
        match &self.name {
            Some(n) => put(&mut es, "name", text(n.as_str())),
            None => {},
        }
        match self.allow_member_invite {
            Some(b) => put(&mut es, "allowMemberInvite", Json::Bool(b)),
            None => {},
        }
        let r = Json::Object(es);
        proof {
            let keys = opt_key(self.name, "name"@) + (if self.allow_member_invite is Some {
                seq!["allowMemberInvite"@]
            } else {
                Seq::empty()
            });
            assert forall|i: int| 0 <= i < keys.len() implies #[trigger] es@[i].0@ == keys[i] by {}
        }
        r
    }
}

impl Default for GroupConfigUpdate {
    fn default() -> (r: GroupConfigUpdate)
        ensures
            r.name is None,
            r.allow_member_invite is None,
    {
        GroupConfigUpdate::new()
    }
}

/// Changes to a member's name card and special title; unset fields stay.
#[derive(Clone, Debug, PartialEq, Eq)]
pub struct MemberInfoUpdate {
    pub name: Option<String>,
    pub special_title: Option<String>,
}

impl MemberInfoUpdate {
    pub fn new() -> (r: MemberInfoUpdate)
        ensures
            r.name is None,
            r.special_title is None,
    {
        MemberInfoUpdate { name: None, special_title: None }
    }

    pub fn name(self, name: Option<String>) -> (r: MemberInfoUpdate)
        ensures
            r.name == name,
            r.special_title == self.special_title,
    {
        MemberInfoUpdate { name, ..self }
    }

    pub fn special_title(self, special_title: Option<String>) -> (r: MemberInfoUpdate)
        ensures
            r.name == self.name,
            r.special_title == special_title,
    {
        MemberInfoUpdate { special_title, ..self }
    }

    /// Only the set fields are written.
    pub open spec fn encodes_to(&self, j: Json) -> bool {
        &&& object_is(j, opt_key(self.name, "name"@) + opt_key(self.special_title, "specialTitle"@))
        &&& self.name matches Some(n) ==> str_is(value_at(j, 0), n@)
        &&& self.special_title matches Some(t) ==> str_is(
            value_at(
                j,
                if self.name is Some {
                    1int
                } else {
                    0
                },
            ),
            t@,
        )
    }

    pub fn encode(&self) -> (r: Json)
        ensures
            self.encodes_to(r),
    {
        let mut es: Vec<(String, Json)> = Vec::new();
        match &self.name {
            Some(n) => put(&mut es, "name", text(n.as_str())),
            None => {},
        }
        match &self.special_title {
            Some(t) => put(&mut es, "specialTitle", text(t.as_str())),
            None => {},
        }
        let r = Json::Object(es);
        proof {
            let keys = opt_key(self.name, "name"@) + opt_key(self.special_title, "specialTitle"@);
            assert forall|i: int| 0 <= i < keys.len() implies #[trigger] es@[i].0@ == keys[i] by {}
        }
        r
    }
}

impl Default for MemberInfoUpdate {
    fn default() -> (r: MemberInfoUpdate)
        ensures
            r.name is None,
            r.special_title is None,
    {
        MemberInfoUpdate::new()
    }
}

/// The picture of an announcement.
#[derive(Clone, Debug, PartialEq, Eq)]
pub enum AnnouncementImage {
    Url(String),
    Path(String),
    Base64(String),
}

/// An announcement to publish; flags that are not set are left out.
#[derive(Clone, Debug, PartialEq, Eq)]
pub struct Announcement {
    pub contents: String,
    pub send_to_new_member: bool,
    pub pinned: bool,
    pub show_edit_card: bool,
    pub show_popup: bool,
    pub require_confirmation: bool,
    pub image: Option<AnnouncementImage>,
}

pub open spec fn flag_key(b: bool, key: Seq<char>) -> Seq<Seq<char>> {
    if b {
        seq![key]
    } else {
        Seq::empty()
    }
}

impl Announcement {
    pub fn new(contents: String) -> (r: Announcement)
        ensures
            r.contents == contents,
            !r.send_to_new_member && !r.pinned && !r.show_edit_card && !r.show_popup
                && !r.require_confirmation,
            r.image is None,
    {
        Announcement {
            contents,
            send_to_new_member: false,
            pinned: false,
            show_edit_card: false,
            show_popup: false,
            require_confirmation: false,
            image: None,
        }
    }

    pub fn send_to_new_member(self, send_to_new_member: bool) -> (r: Announcement)
        ensures
            r == (Announcement { send_to_new_member, ..self }),
    {
        Announcement { send_to_new_member, ..self }
    }

    pub fn pinned(self, pinned: bool) -> (r: Announcement)
        ensures
            r == (Announcement { pinned, ..self }),
    {
        Announcement { pinned, ..self }
    }

    pub fn show_edit_card(self, show_edit_card: bool) -> (r: Announcement)
        ensures
            r == (Announcement { show_edit_card, ..self }),
    {
        Announcement { show_edit_card, ..self }
    }

    pub fn show_popup(self, show_popup: bool) -> (r: Announcement)
        ensures
            r == (Announcement { show_popup, ..self }),
    {
        Announcement { show_popup, ..self }
    }

    pub fn require_confirmation(self, require_confirmation: bool) -> (r: Announcement)
        ensures
            r == (Announcement { require_confirmation, ..self }),
    {
        Announcement { require_confirmation, ..self }
    }

    pub fn image(self, image: Option<AnnouncementImage>) -> (r: Announcement)
        ensures
            r == (Announcement { image, ..self }),
    {
        Announcement { image, ..self }
    }

    /// The keys of the wire form: `content`, each flag that is set, and the
    /// image under `imageUrl`, `imagePath` or `imageBase64`.
    pub open spec fn keys(&self) -> Seq<Seq<char>> {
        seq!["content"@] + flag_key(self.send_to_new_member, "sendToNewMember"@) + flag_key(
            self.pinned,
            "pinned"@,
        ) + flag_key(self.show_edit_card, "showEditCard"@) + flag_key(self.show_popup, "showPopup"@)
            + flag_key(self.require_confirmation, "requireConfirmation"@) + match self.image {
            Some(AnnouncementImage::Url(_)) => seq!["imageUrl"@],
            Some(AnnouncementImage::Path(_)) => seq!["imagePath"@],
            Some(AnnouncementImage::Base64(_)) => seq!["imageBase64"@],
            None => Seq::empty(),
        }
    }

    /// The number of flags that are set, each written as `true`.
    pub open spec fn flag_count(&self) -> int {
        (if self.send_to_new_member { 1int } else { 0 }) + (if self.pinned { 1int } else { 0 }) + (
        if self.show_edit_card {
            1int
        } else {
            0
        }) + (if self.show_popup { 1int } else { 0 }) + (if self.require_confirmation {
            1int
        } else {
            0
        })
    }

    /// `j` holds this announcement's entries from index `at` on: its keys,
    /// its contents first, then each set flag as `true`, and its image last.
    pub open spec fn encodes_after(&self, j: Json, at: int) -> bool {
        &&& j matches Json::Object(es) && es@.len() == at + self.keys().len() && forall|i: int|
            0 <= i < self.keys().len() ==> #[trigger] es@[at + i].0@ == self.keys()[i]
        &&& str_is(value_at(j, at), self.contents@)
        &&& forall|i: int| 1 <= i <= self.flag_count() ==> #[trigger] value_at(j, at + i) == Json::Bool(true)
        &&& match self.image {
            Some(AnnouncementImage::Url(s)) => str_is(value_at(j, at + self.keys().len() - 1), s@),
            Some(AnnouncementImage::Path(s)) => str_is(value_at(j, at + self.keys().len() - 1), s@),
            Some(AnnouncementImage::Base64(s)) => str_is(value_at(j, at + self.keys().len() - 1), s@),
            None => true,
        }
    }

    #[verifier::rlimit(60)]
    pub fn put_entries(&self, es: &mut Vec<(String, Json)>)
        ensures
            self.encodes_after(Json::Object(*final(es)), old(es)@.len() as int),
            forall|i: int| 0 <= i < old(es)@.len() ==> final(es)@[i] == old(es)@[i],
    {
        let ghost at = es@.len() as int;
        put(es, "content", text(self.contents.as_str()));
        if self.send_to_new_member {
            put(es, "sendToNewMember", Json::Bool(true));
        }
        if self.pinned {
            put(es, "pinned", Json::Bool(true));
        }
        if self.show_edit_card {
            put(es, "showEditCard", Json::Bool(true));
        }
        if self.show_popup {
            put(es, "showPopup", Json::Bool(true));
        }
        if self.require_confirmation {
            put(es, "requireConfirmation", Json::Bool(true));
        }
        match &self.image {
            Some(AnnouncementImage::Url(s)) => put(es, "imageUrl", text(s.as_str())),
            Some(AnnouncementImage::Path(s)) => put(es, "imagePath", text(s.as_str())),
            Some(AnnouncementImage::Base64(s)) => put(es, "imageBase64", text(s.as_str())),
            None => {},
        }
        proof {
            assert forall|i: int| 0 <= i < self.keys().len() implies #[trigger] es@[at + i].0@
                == self.keys()[i] by {}
        }
    }

    pub fn encode(&self) -> (r: Json)
        ensures
            self.encodes_after(r, 0),
    {
        let mut es: Vec<(String, Json)> = Vec::new();
        self.put_entries(&mut es);
        Json::Object(es)
    }
}

/// A command to register with the gateway.
#[derive(Clone, Debug, PartialEq, Eq)]
pub struct Command {
    pub name: String,
    pub alias: Vec<String>,
    pub usage: Option<String>,
    pub description: Option<String>,
}

impl Command {
    pub fn new(name: String) -> (r: Command)
        ensures
            r.name == name,
            r.alias@.len() == 0,
            r.usage is None,
            r.description is None,
    {
        Command { name, alias: Vec::new(), usage: None, description: None }
    }

    pub fn alias(self, alias: Vec<String>) -> (r: Command)
        ensures
            r == (Command { alias, ..self }),
    {
        Command { alias, ..self }
    }

    pub fn usage(self, usage: Option<String>) -> (r: Command)
        ensures
            r == (Command { usage, ..self }),
    {
        Command { usage, ..self }
    }

    pub fn description(self, description: Option<String>) -> (r: Command)
        ensures
            r == (Command { description, ..self }),
    {
        Command { description, ..self }
    }

    /// `name`, then `alias` unless empty, `usage` and `description` when
    /// given.
    pub open spec fn keys(&self) -> Seq<Seq<char>> {
        seq!["name"@] + (if self.alias@.len() > 0 {
            seq!["alias"@]
        } else {
            Seq::empty()
        }) + opt_key(self.usage, "usage"@) + opt_key(self.description, "description"@)
    }

    pub fn encode(&self) -> (r: Json)
        ensures
            object_is(r, self.keys()),
            str_is(value_at(r, 0), self.name@),
            self.alias@.len() > 0 ==> (value_at(r, 1) matches Json::Array(v) && v@.len()
                == self.alias@.len() && forall|i: int|
                0 <= i < v@.len() ==> str_is(#[trigger] v@[i], self.alias@[i]@)),
    {
        let mut es: Vec<(String, Json)> = Vec::new();
        put(&mut es, "name", text(self.name.as_str()));
        if self.alias.len() > 0 {
            let mut v: Vec<Json> = Vec::new();
            let mut i: usize = 0;
            while i < self.alias.len()
                invariant
                    i <= self.alias@.len(),
                    v@.len() == i,
                    forall|k: int| 0 <= k < i ==> str_is(#[trigger] v@[k], self.alias@[k]@),
                decreases self.alias.len() - i,
            {
                v.push(text(self.alias[i].as_str()));
                i += 1;
            }
            put(&mut es, "alias", Json::Array(v));
        }
        match &self.usage {
            Some(u) => put(&mut es, "usage", text(u.as_str())),
            None => {},
        }
        match &self.description {
            Some(d) => put(&mut es, "description", text(d.as_str())),
            None => {},
        }
        let r = Json::Object(es);
        proof {
            assert forall|i: int| 0 <= i < self.keys().len() implies #[trigger] es@[i].0@ == self.keys()[i] by {}
        }
        r
    }
}

} // verus!
