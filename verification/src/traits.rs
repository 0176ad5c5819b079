//! What a call to the server has to say about itself, and what can stand
//! for the identifier of a note, a user or a channel.

use vstd::prelude::*;
use vstd::string::*;

pub mod json;

verus! {

/// The text of an optional string.
pub open spec fn opt_text(s: Option<&str>) -> Option<Seq<char>> {
    match s {
        Some(t) => Some(t@),
        None => None,
    }
}

/// The text of an optional owned string.
pub open spec fn opt_string_text(s: Option<String>) -> Option<Seq<char>> {
    match s {
        Some(t) => Some(t@),
        None => None,
    }
}

/// One call of the server's API: where it goes, what it sends, and whether
/// an empty answer counts as success.
pub trait MisskeyClientRequest {
    /// The path of the call under the API root, with its leading slash.
    fn endpoint(&self) -> String;

    /// The media type of the body, if the call has one.
    fn content_type(&self) -> Option<String>;

    /// The body for a caller that holds `token`.
    fn body(&self, token: Option<&str>) -> String;

    /// Whether a response without content is a success of this call.
    fn can_be_empty(&self) -> bool;
}

/// A value that names a note.
pub trait NoteId {
    fn to_note_id(self) -> String;
}

impl NoteId for String {
    fn to_note_id(self) -> (res: String)
        ensures
            res == self,
    {
        self
    }
}

impl NoteId for &str {
    fn to_note_id(self) -> (res: String)
        ensures
            res@ == self@,
    {
        self.to_owned()
    }
}

impl<T: NoteId + Clone> NoteId for &T {
    fn to_note_id(self) -> (res: String)
        ensures
            exists|copy: T|
                call_ensures(<T as Clone>::clone, (self,), copy) && call_ensures(
                    T::to_note_id,
                    (copy,),
                    res,
                ),
    {
        self.clone().to_note_id()
    }
}

/// A value that names a user.
pub trait UserId {
    fn to_user_id(self) -> String;
}

impl UserId for String {
    fn to_user_id(self) -> (res: String)
        ensures
            res == self,
    {
        self
    }
}

impl UserId for &str {
    fn to_user_id(self) -> (res: String)
        ensures
            res@ == self@,
    {
        self.to_owned()
    }
}

impl<T: UserId + Clone> UserId for &T {
    fn to_user_id(self) -> (res: String)
        ensures
            exists|copy: T|
                call_ensures(<T as Clone>::clone, (self,), copy) && call_ensures(
                    T::to_user_id,
                    (copy,),
                    res,
                ),
    {
        self.clone().to_user_id()
    }
}

/// A value that names a channel.
pub trait ChannelId {
    fn to_channel_id(self) -> String;
}

impl ChannelId for String {
    fn to_channel_id(self) -> (res: String)
        ensures
            res == self,
    {
        self
    }
}

impl ChannelId for &str {
    fn to_channel_id(self) -> (res: String)
        ensures
            res@ == self@,
    {
        self.to_owned()
    }
}

impl<T: ChannelId + Clone> ChannelId for &T {
    fn to_channel_id(self) -> (res: String)
        ensures
            exists|copy: T|
                call_ensures(<T as Clone>::clone, (self,), copy) && call_ensures(
                    T::to_channel_id,
                    (copy,),
                    res,
                ),
    {
        self.clone().to_channel_id()
    }
}

} // verus!
