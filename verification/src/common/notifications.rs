//! The kinds of notification.

use vstd::prelude::*;

verus! {

/// The kind of a notification.
#[derive(Clone, Copy, Debug, PartialEq, Eq, Hash, Structural)]
pub enum NotificationType {
    Note,
    Follow,
    Mention,
    Reply,
    Renote,
    Quote,
    Reaction,
    PollEnded,
    ReceiveFollowRequest,
    FollowRequestAccepted,
    RoleAssigned,
    AchievementEarned,
    App,
    Test,
    PollVote,
    GroupInvited,
}

impl NotificationType {
    /// The value's name in the server's vocabulary.
    pub open spec fn text(self) -> Seq<char> {
        match self {
            NotificationType::Note => "note"@,
            NotificationType::Follow => "follow"@,
            NotificationType::Mention => "mention"@,
            NotificationType::Reply => "reply"@,
            NotificationType::Renote => "renote"@,
            NotificationType::Quote => "quote"@,
            NotificationType::Reaction => "reaction"@,
            NotificationType::PollEnded => "pollEnded"@,
            NotificationType::ReceiveFollowRequest => "receiveFollowRequest"@,
            NotificationType::FollowRequestAccepted => "followRequestAccepted"@,
            NotificationType::RoleAssigned => "roleAssigned"@,
            NotificationType::AchievementEarned => "achievementEarned"@,
            NotificationType::App => "app"@,
            NotificationType::Test => "test"@,
            NotificationType::PollVote => "pollVote"@,
            NotificationType::GroupInvited => "groupInvited"@,
        }
    }

    /// Returns the value's name in the server's vocabulary.
    pub fn as_str(&self) -> (res: &'static str)
        ensures
            res@ == self.text(),
    {
        match self {
            NotificationType::Note => "note",
            NotificationType::Follow => "follow",
            NotificationType::Mention => "mention",
            NotificationType::Reply => "reply",
            NotificationType::Renote => "renote",
            NotificationType::Quote => "quote",
            NotificationType::Reaction => "reaction",
            NotificationType::PollEnded => "pollEnded",
            NotificationType::ReceiveFollowRequest => "receiveFollowRequest",
            NotificationType::FollowRequestAccepted => "followRequestAccepted",
            NotificationType::RoleAssigned => "roleAssigned",
            NotificationType::AchievementEarned => "achievementEarned",
            NotificationType::App => "app",
            NotificationType::Test => "test",
            NotificationType::PollVote => "pollVote",
            NotificationType::GroupInvited => "groupInvited",
        }
    }

    /// Returns the value's name as an owned string.
    pub fn to_string(&self) -> (res: String)
        ensures
            res@ == self.text(),
    {
        self.as_str().to_owned()
    }

    /// The length of a name and some of its characters, which together tell
    /// every value from every other.
    spec fn profile(name: Seq<char>) -> (nat, char) {
        (
            name.len(),
            if name.len() > 0 {
                name[0]
            } else {
                ' '
            },
        )
    }

    /// The profile of the name of each value.
    spec fn profile_of(self) -> (nat, char) {
        match self {
            NotificationType::Note => (4, 'n'),
            NotificationType::Follow => (6, 'f'),
            NotificationType::Mention => (7, 'm'),
            NotificationType::Reply => (5, 'r'),
            NotificationType::Renote => (6, 'r'),
            NotificationType::Quote => (5, 'q'),
            NotificationType::Reaction => (8, 'r'),
            NotificationType::PollEnded => (9, 'p'),
            NotificationType::ReceiveFollowRequest => (20, 'r'),
            NotificationType::FollowRequestAccepted => (21, 'f'),
            NotificationType::RoleAssigned => (12, 'r'),
            NotificationType::AchievementEarned => (17, 'a'),
            NotificationType::App => (3, 'a'),
            NotificationType::Test => (4, 't'),
            NotificationType::PollVote => (8, 'p'),
            NotificationType::GroupInvited => (12, 'g'),
        }
    }

    proof fn lemma_profile(self)
        ensures
            Self::profile(self.text()) == self.profile_of(),
    {
        reveal_strlit("note");
        reveal_strlit("follow");
        reveal_strlit("mention");
        reveal_strlit("reply");
        reveal_strlit("renote");
        reveal_strlit("quote");
        reveal_strlit("reaction");
        reveal_strlit("pollEnded");
        reveal_strlit("receiveFollowRequest");
        reveal_strlit("followRequestAccepted");
        reveal_strlit("roleAssigned");
        reveal_strlit("achievementEarned");
        reveal_strlit("app");
        reveal_strlit("test");
        reveal_strlit("pollVote");
        reveal_strlit("groupInvited");
    }

    /// No two values share a name.
    pub proof fn lemma_text_is_injective(a: NotificationType, b: NotificationType)
        requires
            a.text() == b.text(),
        ensures
            a == b,
    {
        a.lemma_profile();
        b.lemma_profile();
        assert(a.profile_of() == b.profile_of());
    }
}

} // verus!
