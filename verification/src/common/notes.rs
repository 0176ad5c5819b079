//! The vocabulary of notes.

use crate::errors::InvalidEnumString;
use crate::text::str_eq;
use vstd::prelude::*;

verus! {

/// Who may see a note.
#[derive(Clone, Copy, Debug, PartialEq, Eq, Structural)]
pub enum NoteVisibility {
    Public,
    Home,
    Followers,
    Specified,
}

impl Default for NoteVisibility {
    fn default() -> (res: Self)
        ensures
            res == NoteVisibility::Public,
    {
        NoteVisibility::Public
    }
}

impl NoteVisibility {
    /// The value's name in the server's vocabulary.
    pub open spec fn text(self) -> Seq<char> {
        match self {
            NoteVisibility::Public => "public"@,
            NoteVisibility::Home => "home"@,
            NoteVisibility::Followers => "followers"@,
            NoteVisibility::Specified => "specified"@,
        }
    }

    /// Returns the value's name in the server's vocabulary.
    pub fn as_str(&self) -> (res: &'static str)
        ensures
            res@ == self.text(),
    {
        match self {
            NoteVisibility::Public => "public",
            NoteVisibility::Home => "home",
            NoteVisibility::Followers => "followers",
            NoteVisibility::Specified => "specified",
        }
    }

    /// Returns the value's name as an owned string.
    pub fn to_string(&self) -> (res: String)
        ensures
            res@ == self.text(),
    {
        self.as_str().to_owned()
    }

    /// Reads a value from its name: the value that has the name, or a
    /// failure where no value has it.
    pub fn from_str(s: &str) -> (res: Result<NoteVisibility, InvalidEnumString>)
        ensures
            match res {
                Ok(v) => v.text() == s@,
                Err(_) => forall|v: NoteVisibility| v.text() != s@,
            },
            forall|v: NoteVisibility|
                v.text() == s@ ==> res == Ok::<NoteVisibility, InvalidEnumString>(v),
    {
        let res = if str_eq(s, "public") {
            Ok(NoteVisibility::Public)
        } else if str_eq(s, "home") {
            Ok(NoteVisibility::Home)
        } else if str_eq(s, "followers") {
            Ok(NoteVisibility::Followers)
        } else if str_eq(s, "specified") {
            Ok(NoteVisibility::Specified)
        } else {
            Err(InvalidEnumString)
        };
        proof {
            assert forall|v: NoteVisibility| v.text() == s@ implies res == Ok::<
                NoteVisibility,
                InvalidEnumString,
            >(v) by {
                match res {
                    Ok(w) => {
                        Self::lemma_text_is_injective(v, w);
                    },
                    Err(_) => {},
                }
            }
        }
        res
    }

    /// The length of a name and some of its characters, which together tell
    /// every value from every other.
    spec fn profile(name: Seq<char>) -> (nat, char) {
        (
            name.len(),
            if name.len() > 0 {
                name[0]
            } else {
                ' '
            },
        )
    }

    /// The profile of the name of each value.
    spec fn profile_of(self) -> (nat, char) {
        match self {
            NoteVisibility::Public => (6, 'p'),
            NoteVisibility::Home => (4, 'h'),
            NoteVisibility::Followers => (9, 'f'),
            NoteVisibility::Specified => (9, 's'),
        }
    }

    proof fn lemma_profile(self)
        ensures
            Self::profile(self.text()) == self.profile_of(),
    {
        reveal_strlit("public");
        reveal_strlit("home");
        reveal_strlit("followers");
        reveal_strlit("specified");
    }

    /// No two values share a name.
    pub proof fn lemma_text_is_injective(a: NoteVisibility, b: NoteVisibility)
        requires
            a.text() == b.text(),
        ensures
            a == b,
    {
        a.lemma_profile();
        b.lemma_profile();
        assert(a.profile_of() == b.profile_of());
    }
}

/// Which reactions a note accepts.
#[derive(Clone, Copy, Debug, PartialEq, Eq, Structural)]
pub enum ReactionAcceptance {
    /// Likes only.
    LikeOnly,
    /// Likes only from remote users.
    LikeOnlyForRemote,
    /// Reactions that are not marked sensitive.
    NonSensitiveOnly,
    /// Reactions that are not marked sensitive from local users, likes only
    /// from remote users.
    NonSensitiveOnlyForLocalLikeOnlyForRemote,
}

} // verus!
