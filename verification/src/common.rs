//! The vocabulary that requests and answers share.

use crate::errors::InvalidEnumString;
use crate::text::str_eq;
use vstd::prelude::*;

pub mod charts;
pub mod notes;
pub mod notifications;

pub use charts::ChartSpan;
pub use notes::NoteVisibility;
pub use notes::ReactionAcceptance;
pub use notifications::NotificationType;

verus! {

/// Who may see a list that belongs to a user.
#[derive(Clone, Copy, Debug, PartialEq, Eq, Structural)]
pub enum StatusVisibility {
    Followers,
    Private,
    Public,
}

impl StatusVisibility {
    /// The value's name in the server's vocabulary.
    pub open spec fn text(self) -> Seq<char> {
        match self {
            StatusVisibility::Followers => "followers"@,
            StatusVisibility::Private => "private"@,
            StatusVisibility::Public => "public"@,
        }
    }

    /// Returns the value's name in the server's vocabulary.
    pub fn as_str(&self) -> (res: &'static str)
        ensures
            res@ == self.text(),
    {
        match self {
            StatusVisibility::Followers => "followers",
            StatusVisibility::Private => "private",
            StatusVisibility::Public => "public",
        }
    }

    /// Returns the value's name as an owned string.
    pub fn to_string(&self) -> (res: String)
        ensures
            res@ == self.text(),
    {
        self.as_str().to_owned()
    }

    /// Reads a value from its name: the value that has the name, or a
    /// failure where no value has it.
    pub fn from_str(s: &str) -> (res: Result<StatusVisibility, InvalidEnumString>)
        ensures
            match res {
                Ok(v) => v.text() == s@,
                Err(_) => forall|v: StatusVisibility| v.text() != s@,
            },
            forall|v: StatusVisibility|
                v.text() == s@ ==> res == Ok::<StatusVisibility, InvalidEnumString>(v),
    {
        let res = if str_eq(s, "followers") {
            Ok(StatusVisibility::Followers)
        } else if str_eq(s, "private") {
            Ok(StatusVisibility::Private)
        } else if str_eq(s, "public") {
            Ok(StatusVisibility::Public)
        } else {
            Err(InvalidEnumString)
        };
        proof {
            assert forall|v: StatusVisibility| v.text() == s@ implies res == Ok::<
                StatusVisibility,
                InvalidEnumString,
            >(v) by {
                match res {
                    Ok(w) => {
                        Self::lemma_text_is_injective(v, w);
                    },
                    Err(_) => {},
                }
            }
        }
        res
    }

    /// The length of a name, which tells every value from every other.
    spec fn profile(name: Seq<char>) -> (nat,) {
        (
            name.len(),
        )
    }

    /// The profile of the name of each value.
    spec fn profile_of(self) -> (nat,) {
        match self {
            StatusVisibility::Followers => (9,),
            StatusVisibility::Private => (7,),
            StatusVisibility::Public => (6,),
        }
    }

    proof fn lemma_profile(self)
        ensures
            Self::profile(self.text()) == self.profile_of(),
    {
        reveal_strlit("followers");
        reveal_strlit("private");
        reveal_strlit("public");
    }

    /// No two values share a name.
    pub proof fn lemma_text_is_injective(a: StatusVisibility, b: StatusVisibility)
        requires
            a.text() == b.text(),
        ensures
            a == b,
    {
        a.lemma_profile();
        b.lemma_profile();
        assert(a.profile_of() == b.profile_of());
    }
}

} // verus!
