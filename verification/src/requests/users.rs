//! Calls about users.

use crate::traits::json::ConstParamJsonRequest;
use vstd::prelude::*;

verus! {

/// Asks for the profile of a user, who is named or identified.
#[derive(Debug)]
pub struct GetLiteUserInfo<'a> {
    pub username: Option<&'a str>,
    pub user_id: Option<&'a str>,
    pub detailed: bool,
}

impl<'a> GetLiteUserInfo<'a> {
    /// Asks for the user of the given name.
    pub fn from_name(user_name: &'a str) -> (res: Self)
        ensures
            res == (GetLiteUserInfo { username: Some(user_name), user_id: None, detailed: false }),
    {
        Self { username: Some(user_name), user_id: None, detailed: false }
    }

    /// Asks for the user of the given identifier.
    pub fn from_id(user_id: &'a str) -> (res: Self)
        ensures
            res == (GetLiteUserInfo { username: None, user_id: Some(user_id), detailed: false }),
    {
        Self { username: None, user_id: Some(user_id), detailed: false }
    }
}

impl<'a> ConstParamJsonRequest for GetLiteUserInfo<'a> {
    const ENDPOINT: &'static str = "/users/show";

    const CAN_BE_EMPTY: bool = false;
}

impl<'a> GetLiteUserInfo<'a> {
    /// The path of the call, and whether its answer may be empty.
    pub proof fn lemma_path()
        ensures
            <GetLiteUserInfo<'a> as ConstParamJsonRequest>::ENDPOINT@ == "/users/show"@,
            !<GetLiteUserInfo<'a> as ConstParamJsonRequest>::CAN_BE_EMPTY,
    {
    }
}

/// Asks for the notes of a user.
#[derive(Debug)]
pub struct GetNotes<'a> {
    pub user_id: &'a str,
    pub with_replies: bool,
    pub with_renotes: bool,
    pub with_channel_notes: bool,
    /// From 1 to 100.
    pub limit: usize,
    pub since_id: Option<String>,
    pub until_id: Option<String>,
    /// In seconds since the start of 1970.
    pub since_date: Option<i64>,
    /// In seconds since the start of 1970.
    pub until_date: Option<i64>,
    pub allow_partial: bool,
    pub with_files: bool,
}

impl<'a> GetNotes<'a> {
    /// Asks for the ten newest notes of the user, renotes among them,
    /// replies and channel notes not.
    pub fn new(user_id: &'a str) -> (res: Self)
        ensures
            res == (GetNotes {
                user_id,
                with_replies: false,
                with_renotes: true,
                with_channel_notes: false,
                limit: 10,
                since_id: None,
                until_id: None,
                since_date: None,
                until_date: None,
                allow_partial: false,
                with_files: false,
            }),
    {
        Self {
            user_id,
            with_replies: false,
            with_renotes: true,
            with_channel_notes: false,
            limit: 10,
            since_id: None,
            until_id: None,
            since_date: None,
            until_date: None,
            allow_partial: false,
            with_files: false,
        }
    }

    /// Says whether replies are wanted.
    pub fn with_replies(self, with_replies: bool) -> (res: Self)
        ensures
            res == (GetNotes { with_replies: with_replies, ..self }),
    {
        Self { with_replies: with_replies, ..self }
    }

    /// Says whether renotes are wanted.
    pub fn with_renotes(self, with_renotes: bool) -> (res: Self)
        ensures
            res == (GetNotes { with_renotes: with_renotes, ..self }),
    {
        Self { with_renotes: with_renotes, ..self }
    }

    /// Says whether notes in channels are wanted.
    pub fn with_channel_notes(self, with_channel_notes: bool) -> (res: Self)
        ensures
            res == (GetNotes { with_channel_notes: with_channel_notes, ..self }),
    {
        Self { with_channel_notes: with_channel_notes, ..self }
    }

    /// Sets how many notes are asked for.
    pub fn limit(self, limit: usize) -> (res: Self)
        ensures
            res == (GetNotes { limit: limit, ..self }),
    {
        Self { limit: limit, ..self }
    }

    /// Asks for notes after the given note only.
    pub fn since_id(self, since_id: String) -> (res: Self)
        ensures
            res == (GetNotes { since_id: Some(since_id), ..self }),
    {
        Self { since_id: Some(since_id), ..self }
    }

    /// Asks for notes before the given note only.
    pub fn until_id(self, until_id: String) -> (res: Self)
        ensures
            res == (GetNotes { until_id: Some(until_id), ..self }),
    {
        Self { until_id: Some(until_id), ..self }
    }

    /// Asks for notes after the given time only, in seconds since the start
    /// of 1970.
    pub fn since_date(self, since_date: i64) -> (res: Self)
        ensures
            res == (GetNotes { since_date: Some(since_date), ..self }),
    {
        Self { since_date: Some(since_date), ..self }
    }

    /// Asks for notes before the given time only, in seconds since the start
    /// of 1970.
    pub fn until_date(self, until_date: i64) -> (res: Self)
        ensures
            res == (GetNotes { until_date: Some(until_date), ..self }),
    {
        Self { until_date: Some(until_date), ..self }
    }

    /// Says whether a partial answer is acceptable.
    pub fn allow_partial(self, allow_partial: bool) -> (res: Self)
        ensures
            res == (GetNotes { allow_partial: allow_partial, ..self }),
    {
        Self { allow_partial: allow_partial, ..self }
    }

    /// Says whether only notes with files are wanted.
    pub fn with_files(self, with_files: bool) -> (res: Self)
        ensures
            res == (GetNotes { with_files: with_files, ..self }),
    {
        Self { with_files: with_files, ..self }
    }
}

impl<'a> ConstParamJsonRequest for GetNotes<'a> {
    const ENDPOINT: &'static str = "/users/notes";

    const CAN_BE_EMPTY: bool = false;
}

impl<'a> GetNotes<'a> {
    /// The path of the call, and whether its answer may be empty.
    pub proof fn lemma_path()
        ensures
            <GetNotes<'a> as ConstParamJsonRequest>::ENDPOINT@ == "/users/notes"@,
            !<GetNotes<'a> as ConstParamJsonRequest>::CAN_BE_EMPTY,
    {
    }
}

} // verus!
