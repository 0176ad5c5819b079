//! Calls about channels.

use crate::traits::json::ConstParamJsonRequest;
use vstd::prelude::*;

verus! {

/// Asks for the channels that the user has marked as favourites.
#[derive(Debug)]
pub struct GetFavoriteChannels;

impl ConstParamJsonRequest for GetFavoriteChannels {
    const ENDPOINT: &'static str = "/channels/my-favorites";

    const CAN_BE_EMPTY: bool = false;
}

impl GetFavoriteChannels {
    /// The path of the call, and whether its answer may be empty.
    pub proof fn lemma_path()
        ensures
            <GetFavoriteChannels as ConstParamJsonRequest>::ENDPOINT@ == "/channels/my-favorites"@,
            !<GetFavoriteChannels as ConstParamJsonRequest>::CAN_BE_EMPTY,
    {
    }
}

} // verus!
