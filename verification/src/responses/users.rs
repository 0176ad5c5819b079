//! Answers about users.

use crate::errors::InvalidEnumString;
use crate::text::str_eq;
use vstd::prelude::*;

verus! {

/// The server on which a remote user lives.
#[derive(Debug)]
pub struct InstanceInfo {
    pub name: Option<String>,
    pub software_name: Option<String>,
    pub software_version: Option<String>,
    pub icon_url: Option<String>,
    pub favicon_url: Option<String>,
    pub theme_color: Option<String>,
}

impl InstanceInfo {
    pub fn name(&self) -> (res: &Option<String>)
        ensures
            *res == self.name,
    {
        &self.name
    }

    pub fn software_name(&self) -> (res: &Option<String>)
        ensures
            *res == self.software_name,
    {
        &self.software_name
    }

    pub fn software_version(&self) -> (res: &Option<String>)
        ensures
            *res == self.software_version,
    {
        &self.software_version
    }

    pub fn icon_url(&self) -> (res: &Option<String>)
        ensures
            *res == self.icon_url,
    {
        &self.icon_url
    }

    pub fn favicon_url(&self) -> (res: &Option<String>)
        ensures
            *res == self.favicon_url,
    {
        &self.favicon_url
    }

    pub fn theme_color(&self) -> (res: &Option<String>)
        ensures
            *res == self.theme_color,
    {
        &self.theme_color
    }
}

/// Whether a user is online.
#[derive(Clone, Copy, Debug, PartialEq, Eq, Structural)]
pub enum OnlineStatus {
    Active,
    Offline,
    Online,
    Unknown,
}

impl OnlineStatus {
    /// The value's name in the server's vocabulary.
    pub open spec fn text(self) -> Seq<char> {
        match self {
            OnlineStatus::Active => "active"@,
            OnlineStatus::Offline => "offline"@,
            OnlineStatus::Online => "online"@,
            OnlineStatus::Unknown => "unknown"@,
        }
    }

    /// Returns the value's name in the server's vocabulary.
    pub fn as_str(&self) -> (res: &'static str)
        ensures
            res@ == self.text(),
    {
        match self {
            OnlineStatus::Active => "active",
            OnlineStatus::Offline => "offline",
            OnlineStatus::Online => "online",
            OnlineStatus::Unknown => "unknown",
        }
    }

    /// Returns the value's name as an owned string.
    pub fn to_string(&self) -> (res: String)
        ensures
            res@ == self.text(),
    {
        self.as_str().to_owned()
    }

    /// Reads a value from its name: the value that has the name, or a
    /// failure where no value has it.
    pub fn from_str(s: &str) -> (res: Result<OnlineStatus, InvalidEnumString>)
        ensures
            match res {
                Ok(v) => v.text() == s@,
                Err(_) => forall|v: OnlineStatus| v.text() != s@,
            },
            forall|v: OnlineStatus|
                v.text() == s@ ==> res == Ok::<OnlineStatus, InvalidEnumString>(v),
    {
        let res = if str_eq(s, "active") {
            Ok(OnlineStatus::Active)
        } else if str_eq(s, "offline") {
            Ok(OnlineStatus::Offline)
        } else if str_eq(s, "online") {
            Ok(OnlineStatus::Online)
        } else if str_eq(s, "unknown") {
            Ok(OnlineStatus::Unknown)
        } else {
            Err(InvalidEnumString)
        };
        proof {
            assert forall|v: OnlineStatus| v.text() == s@ implies res == Ok::<
                OnlineStatus,
                InvalidEnumString,
            >(v) by {
                match res {
                    Ok(w) => {
                        Self::lemma_text_is_injective(v, w);
                    },
                    Err(_) => {},
                }
            }
        }
        res
    }

    /// The length of a name and some of its characters, which together tell
    /// every value from every other.
    spec fn profile(name: Seq<char>) -> (nat, char) {
        (
            name.len(),
            if name.len() > 0 {
                name[0]
            } else {
                ' '
            },
        )
    }

    /// The profile of the name of each value.
    spec fn profile_of(self) -> (nat, char) {
        match self {
            OnlineStatus::Active => (6, 'a'),
            OnlineStatus::Offline => (7, 'o'),
            OnlineStatus::Online => (6, 'o'),
            OnlineStatus::Unknown => (7, 'u'),
        }
    }

    proof fn lemma_profile(self)
        ensures
            Self::profile(self.text()) == self.profile_of(),
    {
        reveal_strlit("active");
        reveal_strlit("offline");
        reveal_strlit("online");
        reveal_strlit("unknown");
    }

    /// No two values share a name.
    pub proof fn lemma_text_is_injective(a: OnlineStatus, b: OnlineStatus)
        requires
            a.text() == b.text(),
        ensures
            a == b,
    {
        a.lemma_profile();
        b.lemma_profile();
        assert(a.profile_of() == b.profile_of());
    }
}

/// A role that shows as a badge.
#[derive(Debug)]
pub struct BadgeRoleInfo {
    pub name: String,
    pub icon_url: Option<String>,
    pub display_order: i32,
    pub behavior: Option<String>,
}

impl BadgeRoleInfo {
    pub fn name(&self) -> (res: &String)
        ensures
            *res == self.name,
    {
        &self.name
    }

    pub fn icon_url(&self) -> (res: &Option<String>)
        ensures
            *res == self.icon_url,
    {
        &self.icon_url
    }

    pub fn display_order(&self) -> (res: &i32)
        ensures
            *res == self.display_order,
    {
        &self.display_order
    }

    pub fn behavior(&self) -> (res: &Option<String>)
        ensures
            *res == self.behavior,
    {
        &self.behavior
    }
}

/// How the user who is logged in and another user relate.
#[derive(Debug)]
pub struct RelationInfo {
    pub id: String,
    pub is_following: bool,
    pub has_pending_follow_request_from_you: bool,
    pub has_pending_follow_request_to_you: bool,
    pub is_followed: bool,
    pub is_blocking: bool,
    pub is_blocked: bool,
    pub is_muted: bool,
    pub is_renote_muted: bool,
}

impl RelationInfo {
    pub fn id(&self) -> (res: &String)
        ensures
            *res == self.id,
    {
        &self.id
    }

    pub fn is_following(&self) -> (res: &bool)
        ensures
            *res == self.is_following,
    {
        &self.is_following
    }

    pub fn has_pending_follow_request_from_you(&self) -> (res: &bool)
        ensures
            *res == self.has_pending_follow_request_from_you,
    {
        &self.has_pending_follow_request_from_you
    }

    pub fn has_pending_follow_request_to_you(&self) -> (res: &bool)
        ensures
            *res == self.has_pending_follow_request_to_you,
    {
        &self.has_pending_follow_request_to_you
    }

    pub fn is_followed(&self) -> (res: &bool)
        ensures
            *res == self.is_followed,
    {
        &self.is_followed
    }

    pub fn is_blocking(&self) -> (res: &bool)
        ensures
            *res == self.is_blocking,
    {
        &self.is_blocking
    }

    pub fn is_blocked(&self) -> (res: &bool)
        ensures
            *res == self.is_blocked,
    {
        &self.is_blocked
    }

    pub fn is_muted(&self) -> (res: &bool)
        ensures
            *res == self.is_muted,
    {
        &self.is_muted
    }

    pub fn is_renote_muted(&self) -> (res: &bool)
        ensures
            *res == self.is_renote_muted,
    {
        &self.is_renote_muted
    }
}

} // verus!
