//! The spans of a chart.

use crate::errors::InvalidEnumString;
use crate::text::str_eq;
use vstd::prelude::*;

verus! {

/// The span of time that one point of a chart covers.
#[derive(Clone, Copy, Debug, PartialEq, Eq, Structural)]
pub enum ChartSpan {
    Day,
    Hour,
}

impl ChartSpan {
    /// The value's name in the server's vocabulary.
    pub open spec fn text(self) -> Seq<char> {
        match self {
            ChartSpan::Day => "day"@,
            ChartSpan::Hour => "hour"@,
        }
    }

    /// Returns the value's name in the server's vocabulary.
    pub fn as_str(&self) -> (res: &'static str)
        ensures
            res@ == self.text(),
    {
        match self {
            ChartSpan::Day => "day",
            ChartSpan::Hour => "hour",
        }
    }

    /// Returns the value's name as an owned string.
    pub fn to_string(&self) -> (res: String)
        ensures
            res@ == self.text(),
    {
        self.as_str().to_owned()
    }

    /// Reads a value from its name: the value that has the name, or a
    /// failure where no value has it.
    pub fn from_str(s: &str) -> (res: Result<ChartSpan, InvalidEnumString>)
        ensures
            match res {
                Ok(v) => v.text() == s@,
                Err(_) => forall|v: ChartSpan| v.text() != s@,
            },
            forall|v: ChartSpan|
                v.text() == s@ ==> res == Ok::<ChartSpan, InvalidEnumString>(v),
    {
        let res = if str_eq(s, "day") {
            Ok(ChartSpan::Day)
        } else if str_eq(s, "hour") {
            Ok(ChartSpan::Hour)
        } else {
            Err(InvalidEnumString)
        };
        proof {
            assert forall|v: ChartSpan| v.text() == s@ implies res == Ok::<
                ChartSpan,
                InvalidEnumString,
            >(v) by {
                match res {
                    Ok(w) => {
                        Self::lemma_text_is_injective(v, w);
                    },
                    Err(_) => {},
                }
            }
        }
        res
    }

    /// The length of a name, which tells every value from every other.
    spec fn profile(name: Seq<char>) -> (nat,) {
        (
            name.len(),
        )
    }

    /// The profile of the name of each value.
    spec fn profile_of(self) -> (nat,) {
        match self {
            ChartSpan::Day => (3,),
            ChartSpan::Hour => (4,),
        }
    }

    proof fn lemma_profile(self)
        ensures
            Self::profile(self.text()) == self.profile_of(),
    {
        reveal_strlit("day");
        reveal_strlit("hour");
    }

    /// No two values share a name.
    pub proof fn lemma_text_is_injective(a: ChartSpan, b: ChartSpan)
        requires
            a.text() == b.text(),
        ensures
            a == b,
    {
        a.lemma_profile();
        b.lemma_profile();
        assert(a.profile_of() == b.profile_of());
    }
}

} // verus!
