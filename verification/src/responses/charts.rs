//! Answers to the chart calls.

use vstd::prelude::*;

verus! {

/// The chart of active users.
#[derive(Debug)]
pub struct ActiveUserChart {
    pub read_write: Vec<usize>,
    pub read: Vec<usize>,
    pub write: Vec<usize>,
    pub registered_within_week: Vec<usize>,
    pub registered_within_month: Vec<usize>,
    pub registered_within_year: Vec<usize>,
    pub registered_outside_week: Vec<usize>,
    pub registered_outside_month: Vec<usize>,
    pub registered_outside_year: Vec<usize>,
}

impl ActiveUserChart {
    pub fn read_write(&self) -> (res: &Vec<usize>)
        ensures
            *res == self.read_write,
    {
        &self.read_write
    }

    pub fn read(&self) -> (res: &Vec<usize>)
        ensures
            *res == self.read,
    {
        &self.read
    }

    pub fn write(&self) -> (res: &Vec<usize>)
        ensures
            *res == self.write,
    {
        &self.write
    }

    pub fn registered_within_week(&self) -> (res: &Vec<usize>)
        ensures
            *res == self.registered_within_week,
    {
        &self.registered_within_week
    }

    pub fn registered_within_month(&self) -> (res: &Vec<usize>)
        ensures
            *res == self.registered_within_month,
    {
        &self.registered_within_month
    }

    pub fn registered_within_year(&self) -> (res: &Vec<usize>)
        ensures
            *res == self.registered_within_year,
    {
        &self.registered_within_year
    }

    pub fn registered_outside_week(&self) -> (res: &Vec<usize>)
        ensures
            *res == self.registered_outside_week,
    {
        &self.registered_outside_week
    }

    pub fn registered_outside_month(&self) -> (res: &Vec<usize>)
        ensures
            *res == self.registered_outside_month,
    {
        &self.registered_outside_month
    }

    pub fn registered_outside_year(&self) -> (res: &Vec<usize>)
        ensures
            *res == self.registered_outside_year,
    {
        &self.registered_outside_year
    }
}

/// The chart of federation requests.
#[derive(Debug)]
pub struct ApRequestChart {
    pub deliver_failed: Vec<usize>,
    pub deliver_succeeded: Vec<usize>,
    pub inbox_received: Vec<usize>,
}

impl ApRequestChart {
    pub fn deliver_failed(&self) -> (res: &Vec<usize>)
        ensures
            *res == self.deliver_failed,
    {
        &self.deliver_failed
    }

    pub fn deliver_succeeded(&self) -> (res: &Vec<usize>)
        ensures
            *res == self.deliver_succeeded,
    {
        &self.deliver_succeeded
    }

    pub fn inbox_received(&self) -> (res: &Vec<usize>)
        ensures
            *res == self.inbox_received,
    {
        &self.inbox_received
    }
}

/// One side of the chart of the drive.
#[derive(Debug)]
pub struct DriveChartDetail {
    pub inc_count: Vec<usize>,
    pub inc_size: Vec<usize>,
    pub dec_count: Vec<usize>,
    pub dec_size: Vec<usize>,
}

impl DriveChartDetail {
    pub fn inc_count(&self) -> (res: &Vec<usize>)
        ensures
            *res == self.inc_count,
    {
        &self.inc_count
    }

    pub fn inc_size(&self) -> (res: &Vec<usize>)
        ensures
            *res == self.inc_size,
    {
        &self.inc_size
    }

    pub fn dec_count(&self) -> (res: &Vec<usize>)
        ensures
            *res == self.dec_count,
    {
        &self.dec_count
    }

    pub fn dec_size(&self) -> (res: &Vec<usize>)
        ensures
            *res == self.dec_size,
    {
        &self.dec_size
    }
}

/// The chart of the drive.
#[derive(Debug)]
pub struct DriveChart {
    pub local: DriveChartDetail,
    pub remote: DriveChartDetail,
}

impl DriveChart {
    pub fn local(&self) -> (res: &DriveChartDetail)
        ensures
            *res == self.local,
    {
        &self.local
    }

    pub fn remote(&self) -> (res: &DriveChartDetail)
        ensures
            *res == self.remote,
    {
        &self.remote
    }
}

/// The chart of the federation.
#[derive(Debug)]
pub struct FederationChart {
    pub delivered_instances: Vec<usize>,
    pub inbox_instances: Vec<usize>,
    pub stalled: Vec<usize>,
    pub sub: Vec<usize>,
    pub public: Vec<usize>,
    pub pubsub: Vec<usize>,
    pub sub_active: Vec<usize>,
    pub pub_active: Vec<usize>,
}

impl FederationChart {
    pub fn delivered_instances(&self) -> (res: &Vec<usize>)
        ensures
            *res == self.delivered_instances,
    {
        &self.delivered_instances
    }

    pub fn inbox_instances(&self) -> (res: &Vec<usize>)
        ensures
            *res == self.inbox_instances,
    {
        &self.inbox_instances
    }

    pub fn stalled(&self) -> (res: &Vec<usize>)
        ensures
            *res == self.stalled,
    {
        &self.stalled
    }

    pub fn sub(&self) -> (res: &Vec<usize>)
        ensures
            *res == self.sub,
    {
        &self.sub
    }

    pub fn get_pub(&self) -> (res: &Vec<usize>)
        ensures
            *res == self.public,
    {
        &self.public
    }

    pub fn pubsub(&self) -> (res: &Vec<usize>)
        ensures
            *res == self.pubsub,
    {
        &self.pubsub
    }

    pub fn sub_active(&self) -> (res: &Vec<usize>)
        ensures
            *res == self.sub_active,
    {
        &self.sub_active
    }

    pub fn pub_active(&self) -> (res: &Vec<usize>)
        ensures
            *res == self.pub_active,
    {
        &self.pub_active
    }
}

} // verus!
