//! Calls for the server's charts.

use crate::common::ChartSpan;
use crate::traits::json::ConstParamJsonRequest;
use vstd::prelude::*;

verus! {

/// What every chart call says: the span of a point, how many points, and
/// how many points to skip.
#[derive(Clone, Copy, Debug)]
pub struct CommonChartRequestBody {
    pub span: ChartSpan,
    pub limit: usize,
    pub offset: Option<usize>,
}

impl CommonChartRequestBody {
    /// Thirty points of the given span, none skipped.
    pub fn new(span: ChartSpan) -> (res: Self)
        ensures
            res == (CommonChartRequestBody { span, limit: 30, offset: None }),
    {
        Self { span, limit: 30, offset: None }
    }

    /// Sets how many points are asked for.
    pub fn limit(self, limit: usize) -> (res: Self)
        ensures
            res == (CommonChartRequestBody { limit: limit, ..self }),
    {
        Self { limit: limit, ..self }
    }

    /// Sets how many points are skipped.
    pub fn offset(self, offset: usize) -> (res: Self)
        ensures
            res == (CommonChartRequestBody { offset: Some(offset), ..self }),
    {
        Self { offset: Some(offset), ..self }
    }
}

/// Asks for the chart of active users.
#[derive(Debug)]
pub struct GetActiveUsersChart {
    pub common_body: CommonChartRequestBody,
}

impl GetActiveUsersChart {
    pub fn new(common_body: CommonChartRequestBody) -> (res: Self)
        ensures
            res == (GetActiveUsersChart { common_body }),
    {
        Self { common_body }
    }
}

impl ConstParamJsonRequest for GetActiveUsersChart {
    const ENDPOINT: &'static str = "/charts/active-users";

    const CAN_BE_EMPTY: bool = false;
}

impl GetActiveUsersChart {
    /// The path of the call, and whether its answer may be empty.
    pub proof fn lemma_path()
        ensures
            <GetActiveUsersChart as ConstParamJsonRequest>::ENDPOINT@ == "/charts/active-users"@,
            !<GetActiveUsersChart as ConstParamJsonRequest>::CAN_BE_EMPTY,
    {
    }
}

/// Asks for the chart of federation requests.
#[derive(Debug)]
pub struct GetApRequestChart {
    pub common_body: CommonChartRequestBody,
}

impl GetApRequestChart {
    pub fn new(common_body: CommonChartRequestBody) -> (res: Self)
        ensures
            res == (GetApRequestChart { common_body }),
    {
        Self { common_body }
    }
}

impl ConstParamJsonRequest for GetApRequestChart {
    const ENDPOINT: &'static str = "/charts/ap-request";

    const CAN_BE_EMPTY: bool = false;
}

impl GetApRequestChart {
    /// The path of the call, and whether its answer may be empty.
    pub proof fn lemma_path()
        ensures
            <GetApRequestChart as ConstParamJsonRequest>::ENDPOINT@ == "/charts/ap-request"@,
            !<GetApRequestChart as ConstParamJsonRequest>::CAN_BE_EMPTY,
    {
    }
}

/// Asks for the chart of the drive.
#[derive(Debug)]
pub struct GetDriveChart {
    pub common_body: CommonChartRequestBody,
}

impl GetDriveChart {
    pub fn new(common_body: CommonChartRequestBody) -> (res: Self)
        ensures
            res == (GetDriveChart { common_body }),
    {
        Self { common_body }
    }
}

impl ConstParamJsonRequest for GetDriveChart {
    const ENDPOINT: &'static str = "/charts/drive";

    const CAN_BE_EMPTY: bool = false;
}

impl GetDriveChart {
    /// The path of the call, and whether its answer may be empty.
    pub proof fn lemma_path()
        ensures
            <GetDriveChart as ConstParamJsonRequest>::ENDPOINT@ == "/charts/drive"@,
            !<GetDriveChart as ConstParamJsonRequest>::CAN_BE_EMPTY,
    {
    }
}

/// Asks for the chart of the federation.
#[derive(Debug)]
pub struct GetFederationChart {
    pub common_body: CommonChartRequestBody,
}

impl GetFederationChart {
    pub fn new(common_body: CommonChartRequestBody) -> (res: Self)
        ensures
            res == (GetFederationChart { common_body }),
    {
        Self { common_body }
    }
}

impl ConstParamJsonRequest for GetFederationChart {
    const ENDPOINT: &'static str = "/charts/federation";

    const CAN_BE_EMPTY: bool = false;
}

impl GetFederationChart {
    /// The path of the call, and whether its answer may be empty.
    pub proof fn lemma_path()
        ensures
            <GetFederationChart as ConstParamJsonRequest>::ENDPOINT@ == "/charts/federation"@,
            !<GetFederationChart as ConstParamJsonRequest>::CAN_BE_EMPTY,
    {
    }
}

} // verus!
