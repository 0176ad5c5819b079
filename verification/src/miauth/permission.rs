//! The permission scopes that an application can ask a user to grant.

use crate::errors::InvalidEnumString;
use crate::text::str_eq;
use vstd::prelude::*;

verus! {

/// One permission scope.
#[derive(Clone, Copy, Debug, PartialEq, Eq, Hash, Structural)]
pub enum Permission {
    ReadAccount,
    WriteAccount,
    ReadBlocks,
    WriteBlocks,
    ReadDrive,
    WriteDrive,
    ReadFavorites,
    WriteFavorites,
    ReadFollowing,
    WriteFollowing,
    ReadMessaging,
    WriteMessaging,
    ReadMutes,
    WriteMutes,
    WriteNotes,
    ReadNotifications,
    WriteNotifications,
    ReadReactions,
    WriteReactions,
    WriteVotes,
    ReadPages,
    WritePages,
    WritePageLikes,
    ReadPageLikes,
    ReadUserGroups,
    WriteUserGroups,
    ReadChannels,
    WriteChannels,
    ReadGallery,
    WriteGallery,
    ReadGalleryLikes,
    WriteGalleryLikes,
    ReadFlash,
    WriteFlash,
    ReadFlashLikes,
    WriteFlashLikes,
    ReadAdminAbuseUserReports,
    WriteAdminDeleteAccount,
    WriteAdminDeleteAllFilesOfAUser,
    ReadAdminIndexStats,
    ReadAdminTableStats,
    ReadAdminUserIps,
    ReadAdminMeta,
    WriteAdminResetPassword,
    WriteAdminResolveAbuseUserReport,
    WriteAdminSendEmail,
    ReadAdminServerInfo,
    ReadAdminShowModerationLog,
    ReadAdminShowUser,
    WriteAdminSuspendUser,
    WriteAdminUnsetUserAvatar,
    WriteAdminUnsetUserBanner,
    WriteAdminUnsuspendUser,
    WriteAdminMeta,
    WriteAdminUsernote,
    WriteAdminRoles,
    ReadAdminRoles,
    WriteAdminRelays,
    ReadAdminRelays,
    WriteAdminInviteCodes,
    ReadAdminInviteCodes,
    WriteAdminAnnouncements,
    ReadAdminAnnouncements,
    WriteAdminAvatarDecorations,
    ReadAdminAvatarDecorations,
    WriteAdminFederation,
    WriteAdminAccount,
    ReadAdminAccount,
    WriteAdminEmoji,
    ReadAdminEmoji,
    WriteAdminQueue,
    ReadAdminQueue,
    WriteAdminPromo,
    WriteAdminDrive,
    ReadAdminDrive,
    WriteAdminAd,
    ReadAdminAd,
    WriteInviteCodes,
    ReadInviteCodes,
    WriteClipFavorite,
    ReadClipFavorite,
    ReadFederation,
    WriteReportAbuse,
}

impl Permission {
    /// The scope's name in the server's vocabulary.
    pub open spec fn text(self) -> Seq<char> {
        match self {
            Permission::ReadAccount => "read:account"@,
            Permission::WriteAccount => "write:account"@,
            Permission::ReadBlocks => "read:blocks"@,
            Permission::WriteBlocks => "write:blocks"@,
            Permission::ReadDrive => "read:drive"@,
            Permission::WriteDrive => "write:drive"@,
            Permission::ReadFavorites => "read:favorites"@,
            Permission::WriteFavorites => "write:favorites"@,
            Permission::ReadFollowing => "read:following"@,
            Permission::WriteFollowing => "write:following"@,
            Permission::ReadMessaging => "read:messaging"@,
            Permission::WriteMessaging => "write:messaging"@,
            Permission::ReadMutes => "read:mutes"@,
            Permission::WriteMutes => "write:mutes"@,
            Permission::WriteNotes => "write:notes"@,
            Permission::ReadNotifications => "read:notifications"@,
            Permission::WriteNotifications => "write:notifications"@,
            Permission::ReadReactions => "read:reactions"@,
            Permission::WriteReactions => "write:reactions"@,
            Permission::WriteVotes => "write:votes"@,
            Permission::ReadPages => "read:pages"@,
            Permission::WritePages => "write:pages"@,
            Permission::WritePageLikes => "write:page-likes"@,
            Permission::ReadPageLikes => "read:page-likes"@,
            Permission::ReadUserGroups => "read:user-groups"@,
            Permission::WriteUserGroups => "write:user-groups"@,
            Permission::ReadChannels => "read:channels"@,
            Permission::WriteChannels => "write:channels"@,
            Permission::ReadGallery => "read:gallery"@,
            Permission::WriteGallery => "write:gallery"@,
            Permission::ReadGalleryLikes => "read:gallery-likes"@,
            Permission::WriteGalleryLikes => "write:gallery-likes"@,
            Permission::ReadFlash => "read:flash"@,
            Permission::WriteFlash => "write:flash"@,
            Permission::ReadFlashLikes => "read:flash-likes"@,
            Permission::WriteFlashLikes => "write:flash-likes"@,
            Permission::ReadAdminAbuseUserReports => "read:admin:abuse-user-reports"@,
            Permission::WriteAdminDeleteAccount => "write:admin:delete-account"@,
            Permission::WriteAdminDeleteAllFilesOfAUser =>
                "write:admin:delete-all-files-of-a-user"@,
            Permission::ReadAdminIndexStats => "read:admin:index-stats"@,
            Permission::ReadAdminTableStats => "read:admin:table-stats"@,
            Permission::ReadAdminUserIps => "read:admin:user-ips"@,
            Permission::ReadAdminMeta => "read:admin:meta"@,
            Permission::WriteAdminResetPassword => "write:admin:reset-password"@,
            Permission::WriteAdminResolveAbuseUserReport =>
                "write:admin:resolve-abuse-user-report"@,
            Permission::WriteAdminSendEmail => "write:admin:send-email"@,
            Permission::ReadAdminServerInfo => "read:admin:server-info"@,
            Permission::ReadAdminShowModerationLog => "read:admin:show-moderation-log"@,
            Permission::ReadAdminShowUser => "read:admin:show-user"@,
            Permission::WriteAdminSuspendUser => "write:admin:suspend-user"@,
            Permission::WriteAdminUnsetUserAvatar => "write:admin:unset-user-avatar"@,
            Permission::WriteAdminUnsetUserBanner => "write:admin:unset-user-banner"@,
            Permission::WriteAdminUnsuspendUser => "write:admin:unsuspend-user"@,
            Permission::WriteAdminMeta => "write:admin:meta"@,
            Permission::WriteAdminUsernote => "write:admin:user-note"@,
            Permission::WriteAdminRoles => "write:admin:roles"@,
            Permission::ReadAdminRoles => "read:admin:roles"@,
            Permission::WriteAdminRelays => "write:admin:relays"@,
            Permission::ReadAdminRelays => "read:admin:relays"@,
            Permission::WriteAdminInviteCodes => "write:admin:invite-codes"@,
            Permission::ReadAdminInviteCodes => "read:admin:invite-codes"@,
            Permission::WriteAdminAnnouncements => "write:admin:announcements"@,
            Permission::ReadAdminAnnouncements => "read:admin:announcements"@,
            Permission::WriteAdminAvatarDecorations => "write:admin:avatar-decorations"@,
            Permission::ReadAdminAvatarDecorations => "read:admin:avatar-decorations"@,
            Permission::WriteAdminFederation => "write:admin:federation"@,
            Permission::WriteAdminAccount => "write:admin:account"@,
            Permission::ReadAdminAccount => "read:admin:account"@,
            Permission::WriteAdminEmoji => "write:admin:emoji"@,
            Permission::ReadAdminEmoji => "read:admin:emoji"@,
            Permission::WriteAdminQueue => "write:admin:queue"@,
            Permission::ReadAdminQueue => "read:admin:queue"@,
            Permission::WriteAdminPromo => "write:admin:promo"@,
            Permission::WriteAdminDrive => "write:admin:drive"@,
            Permission::ReadAdminDrive => "read:admin:drive"@,
            Permission::WriteAdminAd => "write:admin:ad"@,
            Permission::ReadAdminAd => "read:admin:ad"@,
            Permission::WriteInviteCodes => "write:invite-codes"@,
            Permission::ReadInviteCodes => "read:invite-codes"@,
            Permission::WriteClipFavorite => "write:clip-favorite"@,
            Permission::ReadClipFavorite => "read:clip-favorite"@,
            Permission::ReadFederation => "read:federation"@,
            Permission::WriteReportAbuse => "write:report-abuse"@,
        }
    }

    /// Returns the scope's name in the server's vocabulary.
    pub fn as_str(&self) -> (res: &'static str)
        ensures
            res@ == self.text(),
    {
        match self {
            Permission::ReadAccount => "read:account",
            Permission::WriteAccount => "write:account",
            Permission::ReadBlocks => "read:blocks",
            Permission::WriteBlocks => "write:blocks",
            Permission::ReadDrive => "read:drive",
            Permission::WriteDrive => "write:drive",
            Permission::ReadFavorites => "read:favorites",
            Permission::WriteFavorites => "write:favorites",
            Permission::ReadFollowing => "read:following",
            Permission::WriteFollowing => "write:following",
            Permission::ReadMessaging => "read:messaging",
            Permission::WriteMessaging => "write:messaging",
            Permission::ReadMutes => "read:mutes",
            Permission::WriteMutes => "write:mutes",
            Permission::WriteNotes => "write:notes",
            Permission::ReadNotifications => "read:notifications",
            Permission::WriteNotifications => "write:notifications",
            Permission::ReadReactions => "read:reactions",
            Permission::WriteReactions => "write:reactions",
            Permission::WriteVotes => "write:votes",
            Permission::ReadPages => "read:pages",
            Permission::WritePages => "write:pages",
            Permission::WritePageLikes => "write:page-likes",
            Permission::ReadPageLikes => "read:page-likes",
            Permission::ReadUserGroups => "read:user-groups",
            Permission::WriteUserGroups => "write:user-groups",
            Permission::ReadChannels => "read:channels",
            Permission::WriteChannels => "write:channels",
            Permission::ReadGallery => "read:gallery",
            Permission::WriteGallery => "write:gallery",
            Permission::ReadGalleryLikes => "read:gallery-likes",
            Permission::WriteGalleryLikes => "write:gallery-likes",
            Permission::ReadFlash => "read:flash",
            Permission::WriteFlash => "write:flash",
            Permission::ReadFlashLikes => "read:flash-likes",
            Permission::WriteFlashLikes => "write:flash-likes",
            Permission::ReadAdminAbuseUserReports => "read:admin:abuse-user-reports",
            Permission::WriteAdminDeleteAccount => "write:admin:delete-account",
            Permission::WriteAdminDeleteAllFilesOfAUser => "write:admin:delete-all-files-of-a-user",
            Permission::ReadAdminIndexStats => "read:admin:index-stats",
            Permission::ReadAdminTableStats => "read:admin:table-stats",
            Permission::ReadAdminUserIps => "read:admin:user-ips",
            Permission::ReadAdminMeta => "read:admin:meta",
            Permission::WriteAdminResetPassword => "write:admin:reset-password",
            Permission::WriteAdminResolveAbuseUserReport => "write:admin:resolve-abuse-user-report",
            Permission::WriteAdminSendEmail => "write:admin:send-email",
            Permission::ReadAdminServerInfo => "read:admin:server-info",
            Permission::ReadAdminShowModerationLog => "read:admin:show-moderation-log",
            Permission::ReadAdminShowUser => "read:admin:show-user",
            Permission::WriteAdminSuspendUser => "write:admin:suspend-user",
            Permission::WriteAdminUnsetUserAvatar => "write:admin:unset-user-avatar",
            Permission::WriteAdminUnsetUserBanner => "write:admin:unset-user-banner",
            Permission::WriteAdminUnsuspendUser => "write:admin:unsuspend-user",
            Permission::WriteAdminMeta => "write:admin:meta",
            Permission::WriteAdminUsernote => "write:admin:user-note",
            Permission::WriteAdminRoles => "write:admin:roles",
            Permission::ReadAdminRoles => "read:admin:roles",
            Permission::WriteAdminRelays => "write:admin:relays",
            Permission::ReadAdminRelays => "read:admin:relays",
            Permission::WriteAdminInviteCodes => "write:admin:invite-codes",
            Permission::ReadAdminInviteCodes => "read:admin:invite-codes",
            Permission::WriteAdminAnnouncements => "write:admin:announcements",
            Permission::ReadAdminAnnouncements => "read:admin:announcements",
            Permission::WriteAdminAvatarDecorations => "write:admin:avatar-decorations",
            Permission::ReadAdminAvatarDecorations => "read:admin:avatar-decorations",
            Permission::WriteAdminFederation => "write:admin:federation",
            Permission::WriteAdminAccount => "write:admin:account",
            Permission::ReadAdminAccount => "read:admin:account",
            Permission::WriteAdminEmoji => "write:admin:emoji",
            Permission::ReadAdminEmoji => "read:admin:emoji",
            Permission::WriteAdminQueue => "write:admin:queue",
            Permission::ReadAdminQueue => "read:admin:queue",
            Permission::WriteAdminPromo => "write:admin:promo",
            Permission::WriteAdminDrive => "write:admin:drive",
            Permission::ReadAdminDrive => "read:admin:drive",
            Permission::WriteAdminAd => "write:admin:ad",
            Permission::ReadAdminAd => "read:admin:ad",
            Permission::WriteInviteCodes => "write:invite-codes",
            Permission::ReadInviteCodes => "read:invite-codes",
            Permission::WriteClipFavorite => "write:clip-favorite",
            Permission::ReadClipFavorite => "read:clip-favorite",
            Permission::ReadFederation => "read:federation",
            Permission::WriteReportAbuse => "write:report-abuse",
        }
    }

    /// Returns the scope's name as an owned string.
    pub fn to_string(&self) -> (res: String)
        ensures
            res@ == self.text(),
    {
        self.as_str().to_owned()
    }

    /// Reads a value from its name: the value that has the name, or a
    /// failure where no value has it.
    pub fn from_str(s: &str) -> (res: Result<Permission, InvalidEnumString>)
        ensures
            match res {
                Ok(v) => v.text() == s@,
                Err(_) => forall|v: Permission| v.text() != s@,
            },
            forall|v: Permission|
                v.text() == s@ ==> res == Ok::<Permission, InvalidEnumString>(v),
    {
        let res = if str_eq(s, "read:account") {
            Ok(Permission::ReadAccount)
        } else if str_eq(s, "write:account") {
            Ok(Permission::WriteAccount)
        } else if str_eq(s, "read:blocks") {
            Ok(Permission::ReadBlocks)
        } else if str_eq(s, "write:blocks") {
            Ok(Permission::WriteBlocks)
        } else if str_eq(s, "read:drive") {
            Ok(Permission::ReadDrive)
        } else if str_eq(s, "write:drive") {
            Ok(Permission::WriteDrive)
        } else if str_eq(s, "read:favorites") {
            Ok(Permission::ReadFavorites)
        } else if str_eq(s, "write:favorites") {
            Ok(Permission::WriteFavorites)
        } else if str_eq(s, "read:following") {
            Ok(Permission::ReadFollowing)
        } else if str_eq(s, "write:following") {
            Ok(Permission::WriteFollowing)
        } else if str_eq(s, "read:messaging") {
            Ok(Permission::ReadMessaging)
        } else if str_eq(s, "write:messaging") {
            Ok(Permission::WriteMessaging)
        } else if str_eq(s, "read:mutes") {
            Ok(Permission::ReadMutes)
        } else if str_eq(s, "write:mutes") {
            Ok(Permission::WriteMutes)
        } else if str_eq(s, "write:notes") {
            Ok(Permission::WriteNotes)
        } else if str_eq(s, "read:notifications") {
            Ok(Permission::ReadNotifications)
        } else if str_eq(s, "write:notifications") {
            Ok(Permission::WriteNotifications)
        } else if str_eq(s, "read:reactions") {
            Ok(Permission::ReadReactions)
        } else if str_eq(s, "write:reactions") {
            Ok(Permission::WriteReactions)
        } else if str_eq(s, "write:votes") {
            Ok(Permission::WriteVotes)
        } else if str_eq(s, "read:pages") {
            Ok(Permission::ReadPages)
        } else if str_eq(s, "write:pages") {
            Ok(Permission::WritePages)
        } else if str_eq(s, "write:page-likes") {
            Ok(Permission::WritePageLikes)
        } else if str_eq(s, "read:page-likes") {
            Ok(Permission::ReadPageLikes)
        } else if str_eq(s, "read:user-groups") {
            Ok(Permission::ReadUserGroups)
        } else if str_eq(s, "write:user-groups") {
            Ok(Permission::WriteUserGroups)
        } else if str_eq(s, "read:channels") {
            Ok(Permission::ReadChannels)
        } else if str_eq(s, "write:channels") {
            Ok(Permission::WriteChannels)
        } else if str_eq(s, "read:gallery") {
            Ok(Permission::ReadGallery)
        } else if str_eq(s, "write:gallery") {
            Ok(Permission::WriteGallery)
        } else if str_eq(s, "read:gallery-likes") {
            Ok(Permission::ReadGalleryLikes)
        } else if str_eq(s, "write:gallery-likes") {
            Ok(Permission::WriteGalleryLikes)
        } else if str_eq(s, "read:flash") {
            Ok(Permission::ReadFlash)
        } else if str_eq(s, "write:flash") {
            Ok(Permission::WriteFlash)
        } else if str_eq(s, "read:flash-likes") {
            Ok(Permission::ReadFlashLikes)
        } else if str_eq(s, "write:flash-likes") {
            Ok(Permission::WriteFlashLikes)
        } else if str_eq(s, "read:admin:abuse-user-reports") {
            Ok(Permission::ReadAdminAbuseUserReports)
        } else if str_eq(s, "write:admin:delete-account") {
            Ok(Permission::WriteAdminDeleteAccount)
        } else if str_eq(s, "write:admin:delete-all-files-of-a-user") {
            Ok(Permission::WriteAdminDeleteAllFilesOfAUser)
        } else if str_eq(s, "read:admin:index-stats") {
            Ok(Permission::ReadAdminIndexStats)
        } else if str_eq(s, "read:admin:table-stats") {
            Ok(Permission::ReadAdminTableStats)
        } else if str_eq(s, "read:admin:user-ips") {
            Ok(Permission::ReadAdminUserIps)
        } else if str_eq(s, "read:admin:meta") {
            Ok(Permission::ReadAdminMeta)
        } else if str_eq(s, "write:admin:reset-password") {
            Ok(Permission::WriteAdminResetPassword)
        } else if str_eq(s, "write:admin:resolve-abuse-user-report") {
            Ok(Permission::WriteAdminResolveAbuseUserReport)
        } else if str_eq(s, "write:admin:send-email") {
            Ok(Permission::WriteAdminSendEmail)
        } else if str_eq(s, "read:admin:server-info") {
            Ok(Permission::ReadAdminServerInfo)
        } else if str_eq(s, "read:admin:show-moderation-log") {
            Ok(Permission::ReadAdminShowModerationLog)
        } else if str_eq(s, "read:admin:show-user") {
            Ok(Permission::ReadAdminShowUser)
        } else if str_eq(s, "write:admin:suspend-user") {
            Ok(Permission::WriteAdminSuspendUser)
        } else if str_eq(s, "write:admin:unset-user-avatar") {
            Ok(Permission::WriteAdminUnsetUserAvatar)
        } else if str_eq(s, "write:admin:unset-user-banner") {
            Ok(Permission::WriteAdminUnsetUserBanner)
        } else if str_eq(s, "write:admin:unsuspend-user") {
            Ok(Permission::WriteAdminUnsuspendUser)
        } else if str_eq(s, "write:admin:meta") {
            Ok(Permission::WriteAdminMeta)
        } else if str_eq(s, "write:admin:user-note") {
            Ok(Permission::WriteAdminUsernote)
        } else if str_eq(s, "write:admin:roles") {
            Ok(Permission::WriteAdminRoles)
        } else if str_eq(s, "read:admin:roles") {
            Ok(Permission::ReadAdminRoles)
        } else if str_eq(s, "write:admin:relays") {
            Ok(Permission::WriteAdminRelays)
        } else if str_eq(s, "read:admin:relays") {
            Ok(Permission::ReadAdminRelays)
        } else if str_eq(s, "write:admin:invite-codes") {
            Ok(Permission::WriteAdminInviteCodes)
        } else if str_eq(s, "read:admin:invite-codes") {
            Ok(Permission::ReadAdminInviteCodes)
        } else if str_eq(s, "write:admin:announcements") {
            Ok(Permission::WriteAdminAnnouncements)
        } else if str_eq(s, "read:admin:announcements") {
            Ok(Permission::ReadAdminAnnouncements)
        } else if str_eq(s, "write:admin:avatar-decorations") {
            Ok(Permission::WriteAdminAvatarDecorations)
        } else if str_eq(s, "read:admin:avatar-decorations") {
            Ok(Permission::ReadAdminAvatarDecorations)
        } else if str_eq(s, "write:admin:federation") {
            Ok(Permission::WriteAdminFederation)
        } else if str_eq(s, "write:admin:account") {
            Ok(Permission::WriteAdminAccount)
        } else if str_eq(s, "read:admin:account") {
            Ok(Permission::ReadAdminAccount)
        } else if str_eq(s, "write:admin:emoji") {
            Ok(Permission::WriteAdminEmoji)
        } else if str_eq(s, "read:admin:emoji") {
            Ok(Permission::ReadAdminEmoji)
        } else if str_eq(s, "write:admin:queue") {
            Ok(Permission::WriteAdminQueue)
        } else if str_eq(s, "read:admin:queue") {
            Ok(Permission::ReadAdminQueue)
        } else if str_eq(s, "write:admin:promo") {
            Ok(Permission::WriteAdminPromo)
        } else if str_eq(s, "write:admin:drive") {
            Ok(Permission::WriteAdminDrive)
        } else if str_eq(s, "read:admin:drive") {
            Ok(Permission::ReadAdminDrive)
        } else if str_eq(s, "write:admin:ad") {
            Ok(Permission::WriteAdminAd)
        } else if str_eq(s, "read:admin:ad") {
            Ok(Permission::ReadAdminAd)
        } else if str_eq(s, "write:invite-codes") {
            Ok(Permission::WriteInviteCodes)
        } else if str_eq(s, "read:invite-codes") {
            Ok(Permission::ReadInviteCodes)
        } else if str_eq(s, "write:clip-favorite") {
            Ok(Permission::WriteClipFavorite)
        } else if str_eq(s, "read:clip-favorite") {
            Ok(Permission::ReadClipFavorite)
        } else if str_eq(s, "read:federation") {
            Ok(Permission::ReadFederation)
        } else if str_eq(s, "write:report-abuse") {
            Ok(Permission::WriteReportAbuse)
        } else {
            Err(InvalidEnumString)
        };
        proof {
            assert forall|v: Permission| v.text() == s@ implies res == Ok::<
                Permission,
                InvalidEnumString,
            >(v) by {
                match res {
                    Ok(w) => {
                        Self::lemma_text_is_injective(v, w);
                    },
                    Err(_) => {},
                }
            }
        }
        res
    }

    /// The length of a name and some of its characters, which together tell
    /// every value from every other.
    spec fn profile(name: Seq<char>) -> (nat, char, char, char, char) {
        (
            name.len(),
            if name.len() > 5 {
                name[5]
            } else {
                ' '
            },
            if name.len() > 6 {
                name[6]
            } else {
                ' '
            },
            if name.len() > 12 {
                name[12]
            } else {
                ' '
            },
            if name.len() > 23 {
                name[23]
            } else {
                ' '
            },
        )
    }

    /// The profile of the name of each value.
    spec fn profile_of(self) -> (nat, char, char, char, char) {
        match self {
            Permission::ReadAccount => (12, 'a', 'c', ' ', ' '),
            Permission::WriteAccount => (13, ':', 'a', 't', ' '),
            Permission::ReadBlocks => (11, 'b', 'l', ' ', ' '),
            Permission::WriteBlocks => (12, ':', 'b', ' ', ' '),
            Permission::ReadDrive => (10, 'd', 'r', ' ', ' '),
            Permission::WriteDrive => (11, ':', 'd', ' ', ' '),
            Permission::ReadFavorites => (14, 'f', 'a', 'e', ' '),
            Permission::WriteFavorites => (15, ':', 'f', 't', ' '),
            Permission::ReadFollowing => (14, 'f', 'o', 'n', ' '),
            Permission::WriteFollowing => (15, ':', 'f', 'i', ' '),
            Permission::ReadMessaging => (14, 'm', 'e', 'n', ' '),
            Permission::WriteMessaging => (15, ':', 'm', 'i', ' '),
            Permission::ReadMutes => (10, 'm', 'u', ' ', ' '),
            Permission::WriteMutes => (11, ':', 'm', ' ', ' '),
            Permission::WriteNotes => (11, ':', 'n', ' ', ' '),
            Permission::ReadNotifications => (18, 'n', 'o', 'a', ' '),
            Permission::WriteNotifications => (19, ':', 'n', 'c', ' '),
            Permission::ReadReactions => (14, 'r', 'e', 'n', ' '),
            Permission::WriteReactions => (15, ':', 'r', 'o', ' '),
            Permission::WriteVotes => (11, ':', 'v', ' ', ' '),
            Permission::ReadPages => (10, 'p', 'a', ' ', ' '),
            Permission::WritePages => (11, ':', 'p', ' ', ' '),
            Permission::WritePageLikes => (16, ':', 'p', 'i', ' '),
            Permission::ReadPageLikes => (15, 'p', 'a', 'k', ' '),
            Permission::ReadUserGroups => (16, 'u', 's', 'o', ' '),
            Permission::WriteUserGroups => (17, ':', 'u', 'r', ' '),
            Permission::ReadChannels => (13, 'c', 'h', 's', ' '),
            Permission::WriteChannels => (14, ':', 'c', 'l', ' '),
            Permission::ReadGallery => (12, 'g', 'a', ' ', ' '),
            Permission::WriteGallery => (13, ':', 'g', 'y', ' '),
            Permission::ReadGalleryLikes => (18, 'g', 'a', '-', ' '),
            Permission::WriteGalleryLikes => (19, ':', 'g', 'y', ' '),
            Permission::ReadFlash => (10, 'f', 'l', ' ', ' '),
            Permission::WriteFlash => (11, ':', 'f', ' ', ' '),
            Permission::ReadFlashLikes => (16, 'f', 'l', 'i', ' '),
            Permission::WriteFlashLikes => (17, ':', 'f', 'l', ' '),
            Permission::ReadAdminAbuseUserReports => (29, 'a', 'd', 'b', 'e'),
            Permission::WriteAdminDeleteAccount => (26, ':', 'a', 'd', 'u'),
            Permission::WriteAdminDeleteAllFilesOfAUser => (38, ':', 'a', 'd', 'f'),
            Permission::ReadAdminIndexStats => (22, 'a', 'd', 'n', ' '),
            Permission::ReadAdminTableStats => (22, 'a', 'd', 'a', ' '),
            Permission::ReadAdminUserIps => (19, 'a', 'd', 's', ' '),
            Permission::ReadAdminMeta => (15, 'a', 'd', 'e', ' '),
            Permission::WriteAdminResetPassword => (26, ':', 'a', 'r', 'o'),
            Permission::WriteAdminResolveAbuseUserReport => (37, ':', 'a', 'r', 's'),
            Permission::WriteAdminSendEmail => (22, ':', 'a', 's', ' '),
            Permission::ReadAdminServerInfo => (22, 'a', 'd', 'e', ' '),
            Permission::ReadAdminShowModerationLog => (30, 'a', 'd', 'h', 'i'),
            Permission::ReadAdminShowUser => (20, 'a', 'd', 'h', ' '),
            Permission::WriteAdminSuspendUser => (24, ':', 'a', 's', 'r'),
            Permission::WriteAdminUnsetUserAvatar => (29, ':', 'a', 'u', 'a'),
            Permission::WriteAdminUnsetUserBanner => (29, ':', 'a', 'u', 'b'),
            Permission::WriteAdminUnsuspendUser => (26, ':', 'a', 'u', 's'),
            Permission::WriteAdminMeta => (16, ':', 'a', 'm', ' '),
            Permission::WriteAdminUsernote => (21, ':', 'a', 'u', ' '),
            Permission::WriteAdminRoles => (17, ':', 'a', 'r', ' '),
            Permission::ReadAdminRoles => (16, 'a', 'd', 'o', ' '),
            Permission::WriteAdminRelays => (18, ':', 'a', 'r', ' '),
            Permission::ReadAdminRelays => (17, 'a', 'd', 'e', ' '),
            Permission::WriteAdminInviteCodes => (24, ':', 'a', 'i', 's'),
            Permission::ReadAdminInviteCodes => (23, 'a', 'd', 'n', ' '),
            Permission::WriteAdminAnnouncements => (25, ':', 'a', 'a', 't'),
            Permission::ReadAdminAnnouncements => (24, 'a', 'd', 'n', 's'),
            Permission::WriteAdminAvatarDecorations => (30, ':', 'a', 'a', 'r'),
            Permission::ReadAdminAvatarDecorations => (29, 'a', 'd', 'v', 'a'),
            Permission::WriteAdminFederation => (22, ':', 'a', 'f', ' '),
            Permission::WriteAdminAccount => (19, ':', 'a', 'a', ' '),
            Permission::ReadAdminAccount => (18, 'a', 'd', 'c', ' '),
            Permission::WriteAdminEmoji => (17, ':', 'a', 'e', ' '),
            Permission::ReadAdminEmoji => (16, 'a', 'd', 'm', ' '),
            Permission::WriteAdminQueue => (17, ':', 'a', 'q', ' '),
            Permission::ReadAdminQueue => (16, 'a', 'd', 'u', ' '),
            Permission::WriteAdminPromo => (17, ':', 'a', 'p', ' '),
            Permission::WriteAdminDrive => (17, ':', 'a', 'd', ' '),
            Permission::ReadAdminDrive => (16, 'a', 'd', 'r', ' '),
            Permission::WriteAdminAd => (14, ':', 'a', 'a', ' '),
            Permission::ReadAdminAd => (13, 'a', 'd', 'd', ' '),
            Permission::WriteInviteCodes => (18, ':', 'i', '-', ' '),
            Permission::ReadInviteCodes => (17, 'i', 'n', 'c', ' '),
            Permission::WriteClipFavorite => (19, ':', 'c', 'a', ' '),
            Permission::ReadClipFavorite => (18, 'c', 'l', 'v', ' '),
            Permission::ReadFederation => (15, 'f', 'e', 'i', ' '),
            Permission::WriteReportAbuse => (18, ':', 'r', '-', ' '),
        }
    }

    proof fn lemma_profile(self)
        ensures
            Self::profile(self.text()) == self.profile_of(),
    {
        reveal_strlit("read:account");
        reveal_strlit("write:account");
        reveal_strlit("read:blocks");
        reveal_strlit("write:blocks");
        reveal_strlit("read:drive");
        reveal_strlit("write:drive");
        reveal_strlit("read:favorites");
        reveal_strlit("write:favorites");
        reveal_strlit("read:following");
        reveal_strlit("write:following");
        reveal_strlit("read:messaging");
        reveal_strlit("write:messaging");
        reveal_strlit("read:mutes");
        reveal_strlit("write:mutes");
        reveal_strlit("write:notes");
        reveal_strlit("read:notifications");
        reveal_strlit("write:notifications");
        reveal_strlit("read:reactions");
        reveal_strlit("write:reactions");
        reveal_strlit("write:votes");
        reveal_strlit("read:pages");
        reveal_strlit("write:pages");
        reveal_strlit("write:page-likes");
        reveal_strlit("read:page-likes");
        reveal_strlit("read:user-groups");
        reveal_strlit("write:user-groups");
        reveal_strlit("read:channels");
        reveal_strlit("write:channels");
        reveal_strlit("read:gallery");
        reveal_strlit("write:gallery");
        reveal_strlit("read:gallery-likes");
        reveal_strlit("write:gallery-likes");
        reveal_strlit("read:flash");
        reveal_strlit("write:flash");
        reveal_strlit("read:flash-likes");
        reveal_strlit("write:flash-likes");
        reveal_strlit("read:admin:abuse-user-reports");
        reveal_strlit("write:admin:delete-account");
        reveal_strlit("write:admin:delete-all-files-of-a-user");
        reveal_strlit("read:admin:index-stats");
        reveal_strlit("read:admin:table-stats");
        reveal_strlit("read:admin:user-ips");
        reveal_strlit("read:admin:meta");
        reveal_strlit("write:admin:reset-password");
        reveal_strlit("write:admin:resolve-abuse-user-report");
        reveal_strlit("write:admin:send-email");
        reveal_strlit("read:admin:server-info");
        reveal_strlit("read:admin:show-moderation-log");
        reveal_strlit("read:admin:show-user");
        reveal_strlit("write:admin:suspend-user");
        reveal_strlit("write:admin:unset-user-avatar");
        reveal_strlit("write:admin:unset-user-banner");
        reveal_strlit("write:admin:unsuspend-user");
        reveal_strlit("write:admin:meta");
        reveal_strlit("write:admin:user-note");
        reveal_strlit("write:admin:roles");
        reveal_strlit("read:admin:roles");
        reveal_strlit("write:admin:relays");
        reveal_strlit("read:admin:relays");
        reveal_strlit("write:admin:invite-codes");
        reveal_strlit("read:admin:invite-codes");
        reveal_strlit("write:admin:announcements");
        reveal_strlit("read:admin:announcements");
        reveal_strlit("write:admin:avatar-decorations");
        reveal_strlit("read:admin:avatar-decorations");
        reveal_strlit("write:admin:federation");
        reveal_strlit("write:admin:account");
        reveal_strlit("read:admin:account");
        reveal_strlit("write:admin:emoji");
        reveal_strlit("read:admin:emoji");
        reveal_strlit("write:admin:queue");
        reveal_strlit("read:admin:queue");
        reveal_strlit("write:admin:promo");
        reveal_strlit("write:admin:drive");
        reveal_strlit("read:admin:drive");
        reveal_strlit("write:admin:ad");
        reveal_strlit("read:admin:ad");
        reveal_strlit("write:invite-codes");
        reveal_strlit("read:invite-codes");
        reveal_strlit("write:clip-favorite");
        reveal_strlit("read:clip-favorite");
        reveal_strlit("read:federation");
        reveal_strlit("write:report-abuse");
    }

    /// No two values share a name.
    pub proof fn lemma_text_is_injective(a: Permission, b: Permission)
        requires
            a.text() == b.text(),
        ensures
            a == b,
    {
        a.lemma_profile();
        b.lemma_profile();
        assert(a.profile_of() == b.profile_of());
    }
}

} // verus!
