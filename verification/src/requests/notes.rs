//! Calls about notes.

use crate::common::{NoteVisibility, ReactionAcceptance};
use crate::traits::json::ConstParamJsonRequest;
use crate::traits::{ChannelId, NoteId};
use vstd::prelude::*;
use vstd::string::*;

verus! {

/// Creates a note.
#[derive(Debug)]
pub struct CreateNote {
    pub visibility: NoteVisibility,
    pub visible_user_ids: Vec<String>,
    pub cw: Option<String>,
    pub local_only: bool,
    pub reaction_acceptance: Option<ReactionAcceptance>,
    pub no_extract_mentions: bool,
    pub no_extract_hashtags: bool,
    pub no_extract_emojis: bool,
    pub reply_id: Option<String>,
    pub renote_id: Option<String>,
    pub channel_id: Option<String>,
    pub text: String,
    pub no_created_note: bool,
}

/// What a new note says, apart from the note that it repeats: the given
/// text, and for the rest a public note without warning, restrictions or
/// replies.
pub open spec fn is_fresh_note(note: CreateNote, text: Seq<char>) -> bool {
    &&& note.visibility == NoteVisibility::Public
    &&& note.visible_user_ids@.len() == 0
    &&& note.cw is None
    &&& !note.local_only
    &&& note.reaction_acceptance is None
    &&& !note.no_extract_mentions
    &&& !note.no_extract_hashtags
    &&& !note.no_extract_emojis
    &&& note.reply_id is None
    &&& note.channel_id is None
    &&& note.text@ == text
    &&& !note.no_created_note
}

impl CreateNote {
    /// A public note that repeats another note without a word.
    pub fn renote<I: NoteId>(renote_id: I) -> (res: Self)
        ensures
            is_fresh_note(res, Seq::empty()),
            res.renote_id matches Some(id) && call_ensures(I::to_note_id, (renote_id,), id),
    {
        Self {
            visibility: NoteVisibility::Public,
            visible_user_ids: Vec::new(),
            cw: None,
            local_only: false,
            reaction_acceptance: None,
            no_extract_hashtags: false,
            no_extract_mentions: false,
            no_extract_emojis: false,
            reply_id: None,
            renote_id: Some(renote_id.to_note_id()),
            channel_id: None,
            text: String::new(),
            no_created_note: false,
        }
    }

    /// A public note with the given text.
    pub fn note(text: &str) -> (res: Self)
        ensures
            is_fresh_note(res, text@),
            res.renote_id is None,
    {
        Self {
            visibility: NoteVisibility::Public,
            visible_user_ids: Vec::new(),
            cw: None,
            local_only: false,
            reaction_acceptance: None,
            no_extract_hashtags: false,
            no_extract_mentions: false,
            no_extract_emojis: false,
            reply_id: None,
            renote_id: None,
            channel_id: None,
            text: text.to_owned(),
            no_created_note: false,
        }
    }

    /// A public note that quotes another note with the given text.
    pub fn quote<I: NoteId>(text: &str, renote_id: I) -> (res: Self)
        ensures
            is_fresh_note(res, text@),
            res.renote_id matches Some(id) && call_ensures(I::to_note_id, (renote_id,), id),
    {
        Self {
            visibility: NoteVisibility::Public,
            visible_user_ids: Vec::new(),
            cw: None,
            local_only: false,
            reaction_acceptance: None,
            no_extract_hashtags: false,
            no_extract_mentions: false,
            no_extract_emojis: false,
            reply_id: None,
            renote_id: Some(renote_id.to_note_id()),
            channel_id: None,
            text: text.to_owned(),
            no_created_note: false,
        }
    }

    /// A note with the given text and visibility.
    pub fn new(text: &str, visibility: NoteVisibility) -> (res: Self)
        ensures
            is_fresh_note(CreateNote { visibility: NoteVisibility::Public, ..res }, text@),
            res.renote_id is None,
            res.visibility == visibility,
    {
        Self::note(text).visibility(visibility)
    }

    /// Sets who may see the note.
    pub fn visibility(self, visibility: NoteVisibility) -> (res: Self)
        ensures
            res == (CreateNote { visibility, ..self }),
    {
        Self { visibility, ..self }
    }

    /// Names the users who may see the note. The visibility becomes
    /// `Specified`.
    pub fn visible_users(self, users: Vec<String>) -> (res: Self)
        ensures
            res == (CreateNote {
                visibility: NoteVisibility::Specified,
                visible_user_ids: users,
                ..self
            }),
    {
        Self { visibility: NoteVisibility::Specified, visible_user_ids: users, ..self }
    }

    /// Hides the note behind a warning.
    pub fn cw(self, cw: &str) -> (res: Self)
        ensures
            res == (CreateNote { cw: res.cw, ..self }),
            crate::traits::opt_string_text(res.cw) == Some(cw@),
    {
        Self { cw: Some(cw.to_owned()), ..self }
    }

    /// Says whether the note stays on this server.
    pub fn local_only(self, local_only: bool) -> (res: Self)
        ensures
            res == (CreateNote { local_only, ..self }),
    {
        Self { local_only, ..self }
    }

    /// Sets which reactions the note accepts.
    pub fn reaction_acceptance(self, acceptance: ReactionAcceptance) -> (res: Self)
        ensures
            res == (CreateNote { reaction_acceptance: Some(acceptance), ..self }),
    {
        Self { reaction_acceptance: Some(acceptance), ..self }
    }

    /// Makes the note a reply to another note.
    pub fn reply<I: NoteId>(self, reply_id: I) -> (res: Self)
        ensures
            res == (CreateNote { reply_id: res.reply_id, ..self }),
            res.reply_id matches Some(id) && call_ensures(I::to_note_id, (reply_id,), id),
    {
        Self { reply_id: Some(reply_id.to_note_id()), ..self }
    }

    /// Posts the note to a channel.
    pub fn channel<I: ChannelId>(self, channel_id: I) -> (res: Self)
        ensures
            res == (CreateNote { channel_id: res.channel_id, ..self }),
            res.channel_id matches Some(id) && call_ensures(
                I::to_channel_id,
                (channel_id,),
                id,
            ),
    {
        Self { channel_id: Some(channel_id.to_channel_id()), ..self }
    }

    /// Says whether the server shall answer without content, that is with
    /// status 204, once the note is created.
    pub fn no_created_note(self, no_created_note: bool) -> (res: Self)
        ensures
            res == (CreateNote { no_created_note, ..self }),
    {
        Self { no_created_note, ..self }
    }
}

impl ConstParamJsonRequest for CreateNote {
    const ENDPOINT: &'static str = "/notes/create";

    const CAN_BE_EMPTY: bool = true;
}

impl CreateNote {
    /// The path of the call, and whether its answer may be empty.
    pub proof fn lemma_path()
        ensures
            <CreateNote as ConstParamJsonRequest>::ENDPOINT@ == "/notes/create"@,
            <CreateNote as ConstParamJsonRequest>::CAN_BE_EMPTY,
    {
    }
}

/// Searches the notes.
#[derive(Debug)]
pub struct SearchNote<'a> {
    pub query: &'a str,
    pub since_id: Option<&'a str>,
    pub until_id: Option<&'a str>,
    pub limit: usize,
    pub offset: usize,
    pub host: Option<&'a str>,
    pub user_id: Option<String>,
    pub channel_id: Option<String>,
}

impl<'a> SearchNote<'a> {
    /// Asks for the first ten notes that match the query.
    pub fn new(query: &'a str) -> (res: Self)
        ensures
            res == (SearchNote {
                query,
                since_id: None,
                until_id: None,
                limit: 10,
                offset: 0,
                host: None,
                user_id: None,
                channel_id: None,
            }),
    {
        Self {
            query,
            since_id: None,
            until_id: None,
            limit: 10,
            offset: 0,
            host: None,
            user_id: None,
            channel_id: None,
        }
    }

    /// Asks for notes after the given note only.
    pub fn since(self, since_id: &'a str) -> (res: Self)
        ensures
            res == (SearchNote { since_id: Some(since_id), ..self }),
    {
        Self { since_id: Some(since_id), ..self }
    }

    /// Asks for notes before the given note only.
    pub fn until(self, until_id: &'a str) -> (res: Self)
        ensures
            res == (SearchNote { until_id: Some(until_id), ..self }),
    {
        Self { until_id: Some(until_id), ..self }
    }

    /// Asks for notes of the given server only.
    pub fn host(self, host: &'a str) -> (res: Self)
        ensures
            res == (SearchNote { host: Some(host), ..self }),
    {
        Self { host: Some(host), ..self }
    }

    /// Sets how many notes are asked for.
    pub fn limit(self, limit: usize) -> (res: Self)
        ensures
            res == (SearchNote { limit: limit, ..self }),
    {
        Self { limit: limit, ..self }
    }

    /// Sets how many notes are skipped.
    pub fn offset(self, offset: usize) -> (res: Self)
        ensures
            res == (SearchNote { offset: offset, ..self }),
    {
        Self { offset: offset, ..self }
    }

    /// Asks for notes of the given user only.
    pub fn user_id(self, user_id: String) -> (res: Self)
        ensures
            res == (SearchNote { user_id: Some(user_id), ..self }),
    {
        Self { user_id: Some(user_id), ..self }
    }

    /// Asks for notes of the given channel only.
    pub fn channel_id(self, channel_id: String) -> (res: Self)
        ensures
            res == (SearchNote { channel_id: Some(channel_id), ..self }),
    {
        Self { channel_id: Some(channel_id), ..self }
    }
}

impl<'a> ConstParamJsonRequest for SearchNote<'a> {
    const ENDPOINT: &'static str = "/notes/search";

    const CAN_BE_EMPTY: bool = false;
}

impl<'a> SearchNote<'a> {
    /// The path of the call, and whether its answer may be empty.
    pub proof fn lemma_path()
        ensures
            <SearchNote<'a> as ConstParamJsonRequest>::ENDPOINT@ == "/notes/search"@,
            !<SearchNote<'a> as ConstParamJsonRequest>::CAN_BE_EMPTY,
    {
    }
}

/// Deletes a note.
#[derive(Clone, Debug)]
pub struct DeleteNote {
    pub note_id: String,
}

impl DeleteNote {
    pub fn new<I: NoteId>(note_id: I) -> (res: Self)
        ensures
            call_ensures(I::to_note_id, (note_id,), res.note_id),
    {
        Self { note_id: note_id.to_note_id() }
    }
}

impl ConstParamJsonRequest for DeleteNote {
    const ENDPOINT: &'static str = "/notes/delete";

    const CAN_BE_EMPTY: bool = true;
}

impl DeleteNote {
    /// The path of the call, and whether its answer may be empty.
    pub proof fn lemma_path()
        ensures
            <DeleteNote as ConstParamJsonRequest>::ENDPOINT@ == "/notes/delete"@,
            <DeleteNote as ConstParamJsonRequest>::CAN_BE_EMPTY,
    {
    }
}

} // verus!
