//! Answers about notifications.

use vstd::prelude::*;

verus! {

/// How a role comes to its members.
#[derive(Clone, Copy, Debug, PartialEq, Eq, Structural)]
pub enum RoleTarget {
    /// Members are named one by one.
    Manual,
    /// Members are those who meet a condition.
    Conditional,
}

} // verus!
