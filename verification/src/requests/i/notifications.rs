//! The call for the notifications of the user who is logged in.

use crate::common::NotificationType;
use crate::traits::json::{
    lemma_fixed_endpoint, ConstParamJsonRequest, FixedEndpointJsonRequest,
};
use crate::unique::{lemma_with_item, no_duplicates, with_item, with_items};
use vstd::prelude::*;

verus! {

/// What a call for notifications says, apart from how it is stored.
pub struct NotificationsModel {
    pub limit: usize,
    pub since_id: Option<String>,
    pub until_id: Option<String>,
    pub mark_as_read: bool,
    pub include_types: Seq<NotificationType>,
    pub exclude_types: Seq<NotificationType>,
}

/// Asks for notifications. The kinds that are wanted and the kinds that are not
/// are sets: no kind is held twice.
#[derive(Debug)]
pub struct GetNotifications {
    limit: usize,
    since_id: Option<String>,
    until_id: Option<String>,
    mark_as_read: bool,
    include_types: Vec<NotificationType>,
    exclude_types: Vec<NotificationType>,
}

impl View for GetNotifications {
    type V = NotificationsModel;

    closed spec fn view(&self) -> NotificationsModel {
        NotificationsModel {
            limit: self.limit,
            since_id: self.since_id,
            until_id: self.until_id,
            mark_as_read: self.mark_as_read,
            include_types: self.include_types@,
            exclude_types: self.exclude_types@,
        }
    }
}

/// Adds a kind to a list of kinds unless the list holds it.
#[verifier::loop_isolation(false)]
fn add_kind(kinds: Vec<NotificationType>, kind: NotificationType) -> (res: Vec<NotificationType>)
    requires
        no_duplicates(kinds@),
    ensures
        res@ == with_item(kinds@, kind),
        no_duplicates(res@),
{
    let mut kinds = kinds;
    let ghost before = kinds@;
    let mut i: usize = 0;
    while i < kinds.len()
        invariant
            0 <= i <= kinds@.len(),
            kinds@ == before,
            forall|k: int| 0 <= k < i ==> before[k] != kind,
        decreases kinds@.len() - i,
    {
        if kinds[i] == kind {
            proof {
                assert(before[i as int] == kind);
                assert(before.contains(kind));
            }
            return kinds;
        }
        i += 1;
    }
    proof {
        assert(!before.contains(kind));
        lemma_with_item(before, kind);
    }
    kinds.push(kind);
    kinds
}

/// Adds kinds to a list of kinds, one after another.
fn add_kinds(kinds: Vec<NotificationType>, more: &Vec<NotificationType>) -> (res: Vec<
    NotificationType,
>)
    requires
        no_duplicates(kinds@),
    ensures
        res@ == with_items(kinds@, more@),
        no_duplicates(res@),
{
    let ghost start = kinds@;
    let mut kinds = kinds;
    let mut i: usize = 0;
    while i < more.len()
        invariant
            0 <= i <= more@.len(),
            kinds@ == with_items(start, more@.take(i as int)),
            no_duplicates(kinds@),
        decreases more@.len() - i,
    {
        proof {
            assert(more@.take(i + 1).drop_last() =~= more@.take(i as int));
        }
        kinds = add_kind(kinds, more[i]);
        i += 1;
    }
    proof {
        assert(more@.take(more@.len() as int) =~= more@);
    }
    kinds
}

impl GetNotifications {
    #[verifier::type_invariant]
    spec fn kinds_are_sets(&self) -> bool {
        no_duplicates(self.include_types@) && no_duplicates(self.exclude_types@)
    }

    /// Asks for the ten newest notifications of every kind, and marks them
    /// as read.
    pub fn new() -> (res: Self)
        ensures
            res@ == (NotificationsModel {
                limit: 10,
                since_id: None,
                until_id: None,
                mark_as_read: true,
                include_types: Seq::empty(),
                exclude_types: Seq::empty(),
            }),
    {
        Self {
            limit: 10,
            since_id: None,
            until_id: None,
            mark_as_read: true,
            include_types: Vec::new(),
            exclude_types: Vec::new(),
        }
    }

    /// Sets how many notifications are asked for.
    pub fn limit(self, limit: usize) -> (res: Self)
        ensures
            res@ == (NotificationsModel { limit, ..self@ }),
    {
        proof {
            use_type_invariant(&self);
        }
        Self { limit, ..self }
    }

    /// Asks for notifications after the given one only.
    pub fn since(self, since_id: String) -> (res: Self)
        ensures
            res@ == (NotificationsModel { since_id: Some(since_id), ..self@ }),
    {
        proof {
            use_type_invariant(&self);
        }
        Self { since_id: Some(since_id), ..self }
    }

    /// Asks for notifications before the given one only.
    pub fn until(self, until_id: String) -> (res: Self)
        ensures
            res@ == (NotificationsModel { until_id: Some(until_id), ..self@ }),
    {
        proof {
            use_type_invariant(&self);
        }
        Self { until_id: Some(until_id), ..self }
    }

    /// Says whether the notifications become read by this call.
    pub fn mark_as_read(self, mark_as_read: bool) -> (res: Self)
        ensures
            res@ == (NotificationsModel { mark_as_read, ..self@ }),
    {
        proof {
            use_type_invariant(&self);
        }
        Self { mark_as_read, ..self }
    }

    /// Includes a kind. Including twice is including once.
    pub fn include_type(self, kind: NotificationType) -> (res: Self)
        ensures
            res@ == (NotificationsModel {
                include_types: with_item(self@.include_types, kind),
                ..self@
            }),
            no_duplicates(res@.include_types),
    {
        proof {
            use_type_invariant(&self);
        }
        let GetNotifications {
            limit,
            since_id,
            until_id,
            mark_as_read,
            include_types,
            exclude_types,
        } = self;
        GetNotifications {
            limit,
            since_id,
            until_id,
            mark_as_read,
            include_types: add_kind(include_types, kind),
            exclude_types,
        }
    }

    /// Excludes a kind. Excluding twice is excluding once.
    pub fn exclude(self, exclude: NotificationType) -> (res: Self)
        ensures
            res@ == (NotificationsModel {
                exclude_types: with_item(self@.exclude_types, exclude),
                ..self@
            }),
            no_duplicates(res@.exclude_types),
    {
        proof {
            use_type_invariant(&self);
        }
        let GetNotifications {
            limit,
            since_id,
            until_id,
            mark_as_read,
            include_types,
            exclude_types,
        } = self;
        GetNotifications {
            limit,
            since_id,
            until_id,
            mark_as_read,
            include_types,
            exclude_types: add_kind(exclude_types, exclude),
        }
    }

    /// Includes several kinds, one after another.
    pub fn include_all(self, kinds: Vec<NotificationType>) -> (res: Self)
        ensures
            res@ == (NotificationsModel {
                include_types: with_items(self@.include_types, kinds@),
                ..self@
            }),
            no_duplicates(res@.include_types),
    {
        proof {
            use_type_invariant(&self);
        }
        let GetNotifications {
            limit,
            since_id,
            until_id,
            mark_as_read,
            include_types,
            exclude_types,
        } = self;
        GetNotifications {
            limit,
            since_id,
            until_id,
            mark_as_read,
            include_types: add_kinds(include_types, &kinds),
            exclude_types,
        }
    }

    /// Excludes several kinds, one after another.
    pub fn exclude_all(self, exclude: Vec<NotificationType>) -> (res: Self)
        ensures
            res@ == (NotificationsModel {
                exclude_types: with_items(self@.exclude_types, exclude@),
                ..self@
            }),
            no_duplicates(res@.exclude_types),
    {
        proof {
            use_type_invariant(&self);
        }
        let GetNotifications {
            limit,
            since_id,
            until_id,
            mark_as_read,
            include_types,
            exclude_types,
        } = self;
        GetNotifications {
            limit,
            since_id,
            until_id,
            mark_as_read,
            include_types,
            exclude_types: add_kinds(exclude_types, &exclude),
        }
    }

    /// How many notifications are asked for.
    pub fn get_limit(&self) -> (res: usize)
        ensures
            res == self@.limit,
    {
        self.limit
    }

    /// The notification after which the answer starts.
    pub fn get_since_id(&self) -> (res: &Option<String>)
        ensures
            *res == self@.since_id,
    {
        &self.since_id
    }

    /// The notification before which the answer ends.
    pub fn get_until_id(&self) -> (res: &Option<String>)
        ensures
            *res == self@.until_id,
    {
        &self.until_id
    }

    /// Whether the notifications become read by this call.
    pub fn get_mark_as_read(&self) -> (res: bool)
        ensures
            res == self@.mark_as_read,
    {
        self.mark_as_read
    }

    /// The kinds that are included, each once.
    pub fn get_include_types(&self) -> (res: &Vec<NotificationType>)
        ensures
            res@ == self@.include_types,
            no_duplicates(res@),
    {
        proof {
            use_type_invariant(self);
        }
        &self.include_types
    }

    /// The kinds that are excluded, each once.
    pub fn get_exclude_types(&self) -> (res: &Vec<NotificationType>)
        ensures
            res@ == self@.exclude_types,
            no_duplicates(res@),
    {
        proof {
            use_type_invariant(self);
        }
        &self.exclude_types
    }
}

impl FixedEndpointJsonRequest for GetNotifications {
    const ENDPOINT: &'static str = "/i/notifications";
}

impl GetNotifications {
    /// The path of the call, and that its answer is never empty.
    pub proof fn lemma_path()
        ensures
            <GetNotifications as FixedEndpointJsonRequest>::ENDPOINT@ == "/i/notifications"@,
            <GetNotifications as ConstParamJsonRequest>::ENDPOINT@ == "/i/notifications"@,
            !<GetNotifications as ConstParamJsonRequest>::CAN_BE_EMPTY,
    {
        lemma_fixed_endpoint::<GetNotifications>();
    }
}

} // verus!
