//! Calls whose body is a JSON object.

use vstd::prelude::*;
use vstd::string::*;

verus! {

/// A call whose path and whose answer to "may the response be empty" are
/// the same for every value of the type.
pub trait ConstParamJsonRequest {
    /// The path of the call under the API root, with its leading slash.
    const ENDPOINT: &'static str;

    /// Whether a response without content is a success of this call.
    const CAN_BE_EMPTY: bool = false;
}

/// A call with a fixed path whose success always has content.
pub trait FixedEndpointJsonRequest {
    /// The path of the call under the API root, with its leading slash.
    const ENDPOINT: &'static str;
}

impl<T: FixedEndpointJsonRequest> ConstParamJsonRequest for T {
    const ENDPOINT: &'static str = <T as FixedEndpointJsonRequest>::ENDPOINT;
}

/// A call with a fixed path is a call with constant parameters: the same
/// path, and an answer that is never empty.
pub proof fn lemma_fixed_endpoint<T: FixedEndpointJsonRequest>()
    ensures
        <T as ConstParamJsonRequest>::ENDPOINT == <T as FixedEndpointJsonRequest>::ENDPOINT,
        !<T as ConstParamJsonRequest>::CAN_BE_EMPTY,
{
}

/// A call that is sent as a JSON object.
pub trait JsonRequest {
    /// The path of the call under the API root, with its leading slash.
    fn endpoint(&self) -> String;

    /// Whether a response without content is a success of this call. Unless
    /// a call says otherwise, it is not.
    fn can_be_empty(&self) -> (res: bool)
        default_ensures
            !res,
    {
        false
    }
}

impl<T: ConstParamJsonRequest> JsonRequest for T {
    fn endpoint(&self) -> (res: String)
        ensures
            res@ == T::ENDPOINT@,
    {
        T::ENDPOINT.to_owned()
    }

    fn can_be_empty(&self) -> (res: bool)
        ensures
            res == T::CAN_BE_EMPTY,
    {
        T::CAN_BE_EMPTY
    }
}

} // verus!
