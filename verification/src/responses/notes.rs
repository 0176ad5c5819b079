//! Answers about notes, and the parts of a profile that notes share.

use vstd::prelude::*;

verus! {

/// The properties of a file that is a picture.
#[derive(Debug)]
pub struct FileProperties {
    pub avg_color: Option<String>,
    pub height: Option<usize>,
    pub orientation: Option<usize>,
    pub width: Option<usize>,
}

impl FileProperties {
    pub fn avg_color(&self) -> (res: &Option<String>)
        ensures
            *res == self.avg_color,
    {
        &self.avg_color
    }

    pub fn height(&self) -> (res: &Option<usize>)
        ensures
            *res == self.height,
    {
        &self.height
    }

    pub fn orientation(&self) -> (res: &Option<usize>)
        ensures
            *res == self.orientation,
    {
        &self.orientation
    }

    pub fn width(&self) -> (res: &Option<usize>)
        ensures
            *res == self.width,
    {
        &self.width
    }
}

/// One choice of a poll.
#[derive(Debug)]
pub struct PollChoiceInfo {
    pub is_voted: bool,
    pub text: String,
    pub votes: usize,
}

impl PollChoiceInfo {
    pub fn is_voted(&self) -> (res: &bool)
        ensures
            *res == self.is_voted,
    {
        &self.is_voted
    }

    pub fn text(&self) -> (res: &String)
        ensures
            *res == self.text,
    {
        &self.text
    }

    pub fn votes(&self) -> (res: &usize)
        ensures
            *res == self.votes,
    {
        &self.votes
    }
}

/// An achievement that a user has unlocked.
#[derive(Debug)]
pub struct AchievementInfo {
    pub name: String,
    pub unlocked_at: usize,
}

impl AchievementInfo {
    pub fn name(&self) -> (res: &String)
        ensures
            *res == self.name,
    {
        &self.name
    }

    pub fn unlocked_at(&self) -> (res: &usize)
        ensures
            *res == self.unlocked_at,
    {
        &self.unlocked_at
    }
}

/// One line of the table in a profile.
#[derive(Debug)]
pub struct FieldInfo {
    pub name: String,
    pub value: String,
}

impl FieldInfo {
    pub fn name(&self) -> (res: &String)
        ensures
            *res == self.name,
    {
        &self.name
    }

    pub fn value(&self) -> (res: &String)
        ensures
            *res == self.value,
    {
        &self.value
    }
}

/// What the roles of a user allow.
#[derive(Debug)]
pub struct UserPolicies {
    pub always_mark_nsfw: bool,
    pub antenna_limit: usize,
    pub antenna_notes_limit: usize,
    pub avatar_decoration_limit: usize,
    pub can_create_content: bool,
    pub can_delete_content: bool,
    pub can_hide_ads: bool,
    pub can_initiate_conversation: bool,
    pub can_invite: bool,
    pub can_manage_avatar_decorations: bool,
    pub can_manage_custom_emojis: bool,
    pub can_public_note: bool,
    pub can_purge_account: bool,
    pub can_schedule_note: bool,
    pub can_search_notes: bool,
    pub can_update_avatar: bool,
    pub can_update_banner: bool,
    pub can_update_content: bool,
    pub can_use_drive_file_in_sound_settings: bool,
    pub can_use_reaction: bool,
    pub can_use_translator: bool,
    pub clip_limit: usize,
    pub drive_capacity_mb: usize,
    pub gtl_available: bool,
    pub invite_expiration_time: usize,
    pub invite_limit: usize,
    pub invite_limit_cycle: usize,
    pub ltl_available: bool,
    pub mention_limit: usize,
    pub mutual_link_limit: usize,
    pub mutual_link_section_limit: usize,
    pub note_each_clips_limit: usize,
    pub pin_limit: usize,
    pub rate_limit_factor: usize,
    pub schedule_note_limit: usize,
    pub schedule_note_max_days: usize,
    pub skip_nsfw_detection: bool,
    pub user_each_user_lists_limit: usize,
    pub user_list_limit: usize,
    pub webhook_limit: usize,
    pub word_mute_limit: usize,
}

impl UserPolicies {
    pub fn always_mark_nsfw(&self) -> (res: &bool)
        ensures
            *res == self.always_mark_nsfw,
    {
        &self.always_mark_nsfw
    }

    pub fn antenna_limit(&self) -> (res: &usize)
        ensures
            *res == self.antenna_limit,
    {
        &self.antenna_limit
    }

    pub fn antenna_notes_limit(&self) -> (res: &usize)
        ensures
            *res == self.antenna_notes_limit,
    {
        &self.antenna_notes_limit
    }

    pub fn avatar_decoration_limit(&self) -> (res: &usize)
        ensures
            *res == self.avatar_decoration_limit,
    {
        &self.avatar_decoration_limit
    }

    pub fn can_create_content(&self) -> (res: &bool)
        ensures
            *res == self.can_create_content,
    {
        &self.can_create_content
    }

    pub fn can_delete_content(&self) -> (res: &bool)
        ensures
            *res == self.can_delete_content,
    {
        &self.can_delete_content
    }

    pub fn can_hide_ads(&self) -> (res: &bool)
        ensures
            *res == self.can_hide_ads,
    {
        &self.can_hide_ads
    }

    pub fn can_initiate_conversation(&self) -> (res: &bool)
        ensures
            *res == self.can_initiate_conversation,
    {
        &self.can_initiate_conversation
    }

    pub fn can_invite(&self) -> (res: &bool)
        ensures
            *res == self.can_invite,
    {
        &self.can_invite
    }

    pub fn can_manage_avatar_decorations(&self) -> (res: &bool)
        ensures
            *res == self.can_manage_avatar_decorations,
    {
        &self.can_manage_avatar_decorations
    }

    pub fn can_manage_custom_emojis(&self) -> (res: &bool)
        ensures
            *res == self.can_manage_custom_emojis,
    {
        &self.can_manage_custom_emojis
    }

    pub fn can_public_note(&self) -> (res: &bool)
        ensures
            *res == self.can_public_note,
    {
        &self.can_public_note
    }

    pub fn can_purge_account(&self) -> (res: &bool)
        ensures
            *res == self.can_purge_account,
    {
        &self.can_purge_account
    }

    pub fn can_schedule_note(&self) -> (res: &bool)
        ensures
            *res == self.can_schedule_note,
    {
        &self.can_schedule_note
    }

    pub fn can_search_notes(&self) -> (res: &bool)
        ensures
            *res == self.can_search_notes,
    {
        &self.can_search_notes
    }

    pub fn can_update_avatar(&self) -> (res: &bool)
        ensures
            *res == self.can_update_avatar,
    {
        &self.can_update_avatar
    }

    pub fn can_update_banner(&self) -> (res: &bool)
        ensures
            *res == self.can_update_banner,
    {
        &self.can_update_banner
    }

    pub fn can_update_content(&self) -> (res: &bool)
        ensures
            *res == self.can_update_content,
    {
        &self.can_update_content
    }

    pub fn can_use_drive_file_in_sound_settings(&self) -> (res: &bool)
        ensures
            *res == self.can_use_drive_file_in_sound_settings,
    {
        &self.can_use_drive_file_in_sound_settings
    }

    pub fn can_use_reaction(&self) -> (res: &bool)
        ensures
            *res == self.can_use_reaction,
    {
        &self.can_use_reaction
    }

    pub fn can_use_translator(&self) -> (res: &bool)
        ensures
            *res == self.can_use_translator,
    {
        &self.can_use_translator
    }

    pub fn clip_limit(&self) -> (res: &usize)
        ensures
            *res == self.clip_limit,
    {
        &self.clip_limit
    }

    pub fn drive_capacity_mb(&self) -> (res: &usize)
        ensures
            *res == self.drive_capacity_mb,
    {
        &self.drive_capacity_mb
    }

    pub fn gtl_available(&self) -> (res: &bool)
        ensures
            *res == self.gtl_available,
    {
        &self.gtl_available
    }

    pub fn invite_expiration_time(&self) -> (res: &usize)
        ensures
            *res == self.invite_expiration_time,
    {
        &self.invite_expiration_time
    }

    pub fn invite_limit(&self) -> (res: &usize)
        ensures
            *res == self.invite_limit,
    {
        &self.invite_limit
    }

    pub fn invite_limit_cycle(&self) -> (res: &usize)
        ensures
            *res == self.invite_limit_cycle,
    {
        &self.invite_limit_cycle
    }

    pub fn ltl_available(&self) -> (res: &bool)
        ensures
            *res == self.ltl_available,
    {
        &self.ltl_available
    }

    pub fn mention_limit(&self) -> (res: &usize)
        ensures
            *res == self.mention_limit,
    {
        &self.mention_limit
    }

    pub fn mutual_link_limit(&self) -> (res: &usize)
        ensures
            *res == self.mutual_link_limit,
    {
        &self.mutual_link_limit
    }

    pub fn mutual_link_section_limit(&self) -> (res: &usize)
        ensures
            *res == self.mutual_link_section_limit,
    {
        &self.mutual_link_section_limit
    }

    pub fn note_each_clips_limit(&self) -> (res: &usize)
        ensures
            *res == self.note_each_clips_limit,
    {
        &self.note_each_clips_limit
    }

    pub fn pin_limit(&self) -> (res: &usize)
        ensures
            *res == self.pin_limit,
    {
        &self.pin_limit
    }

    pub fn rate_limit_factor(&self) -> (res: &usize)
        ensures
            *res == self.rate_limit_factor,
    {
        &self.rate_limit_factor
    }

    pub fn schedule_note_limit(&self) -> (res: &usize)
        ensures
            *res == self.schedule_note_limit,
    {
        &self.schedule_note_limit
    }

    pub fn schedule_note_max_days(&self) -> (res: &usize)
        ensures
            *res == self.schedule_note_max_days,
    {
        &self.schedule_note_max_days
    }

    pub fn skip_nsfw_detection(&self) -> (res: &bool)
        ensures
            *res == self.skip_nsfw_detection,
    {
        &self.skip_nsfw_detection
    }

    pub fn user_each_user_lists_limit(&self) -> (res: &usize)
        ensures
            *res == self.user_each_user_lists_limit,
    {
        &self.user_each_user_lists_limit
    }

    pub fn user_list_limit(&self) -> (res: &usize)
        ensures
            *res == self.user_list_limit,
    {
        &self.user_list_limit
    }

    pub fn webhook_limit(&self) -> (res: &usize)
        ensures
            *res == self.webhook_limit,
    {
        &self.webhook_limit
    }

    pub fn word_mute_limit(&self) -> (res: &usize)
        ensures
            *res == self.word_mute_limit,
    {
        &self.word_mute_limit
    }
}

/// A role in brief.
#[derive(Debug)]
pub struct RoleInfo {
    pub color: Option<String>,
    pub description: String,
    pub display_order: i32,
    pub icon_url: Option<String>,
    pub id: String,
    pub is_administrator: bool,
    pub is_moderator: bool,
    pub name: String,
}

impl RoleInfo {
    pub fn color(&self) -> (res: &Option<String>)
        ensures
            *res == self.color,
    {
        &self.color
    }

    pub fn description(&self) -> (res: &String)
        ensures
            *res == self.description,
    {
        &self.description
    }

    pub fn display_order(&self) -> (res: &i32)
        ensures
            *res == self.display_order,
    {
        &self.display_order
    }

    pub fn icon_url(&self) -> (res: &Option<String>)
        ensures
            *res == self.icon_url,
    {
        &self.icon_url
    }

    pub fn id(&self) -> (res: &String)
        ensures
            *res == self.id,
    {
        &self.id
    }

    pub fn is_administrator(&self) -> (res: &bool)
        ensures
            *res == self.is_administrator,
    {
        &self.is_administrator
    }

    pub fn is_moderator(&self) -> (res: &bool)
        ensures
            *res == self.is_moderator,
    {
        &self.is_moderator
    }

    pub fn name(&self) -> (res: &String)
        ensures
            *res == self.name,
    {
        &self.name
    }
}

} // verus!
