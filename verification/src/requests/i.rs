//! Calls about the user who is logged in.

use crate::traits::json::ConstParamJsonRequest;
use vstd::prelude::*;

pub mod notifications;

verus! {

/// Asks for the profile of the user who is logged in.
#[derive(Debug)]
pub struct GetSelfData;

impl ConstParamJsonRequest for GetSelfData {
    const ENDPOINT: &'static str = "/i";

    const CAN_BE_EMPTY: bool = false;
}

impl GetSelfData {
    /// The path of the call, and whether its answer may be empty.
    pub proof fn lemma_path()
        ensures
            <GetSelfData as ConstParamJsonRequest>::ENDPOINT@ == "/i"@,
            !<GetSelfData as ConstParamJsonRequest>::CAN_BE_EMPTY,
    {
    }
}

} // verus!
