//! The types the administrative service exchanges: success and error
//! bodies with their codes, the service error kinds with their status
//! mapping, and the trigger update request with its validation.

use vstd::prelude::*;

verus! {

use crate::trigger::{Threshold, Trigger, validate_thresholds, spec_threshold_reports};

/// An error body: a code and a message.
pub struct Error {
    pub code: i32,
    pub message: String,
}

/// A success body: a code and a message.
pub struct Success {
    pub code: i32,
    pub message: String,
}

/// A rejected request: the reason as text.
pub struct BadRequest {
    pub message: String,
}

/// The kinds of service failure.
#[derive(Clone, Copy, PartialEq, Eq, Structural)]
pub enum ServiceErrorKind {
    NotFound,
    PoolError,
    DbError,
    BadRequest,
    InternalError,
}

/// The HTTP status a service error kind maps onto.
pub open spec fn spec_status_code(k: ServiceErrorKind) -> int {
    match k {
        ServiceErrorKind::NotFound => 404,
        ServiceErrorKind::PoolError => 500,
        ServiceErrorKind::DbError => 500,
        ServiceErrorKind::BadRequest => 400,
        ServiceErrorKind::InternalError => 500,
    }
}

impl ServiceErrorKind {
    /// The HTTP status this kind maps onto.
    pub fn status_code(&self) -> (r: u16)
        ensures
            r as int == spec_status_code(*self),
    {
        match self {
            ServiceErrorKind::NotFound => 404,
            ServiceErrorKind::PoolError => 500,
            ServiceErrorKind::DbError => 500,
            ServiceErrorKind::BadRequest => 400,
            ServiceErrorKind::InternalError => 500,
        }
    }
}

/// A service failure: its kind and a message.
pub struct ServiceError {
    pub kind: ServiceErrorKind,
    pub message: String,
}

/// A trigger update request: the trigger's name, its enablement, its
/// description, and the full new threshold set.
pub struct TriggerData {
    pub name: String,
    pub enabled: bool,
    pub description: String,
    pub thresholds: Vec<Threshold>,
}

impl TriggerData {
    /// Checks this request against the trigger it names: every declared
    /// threshold must be present and no unknown one may appear. An empty
    /// report means the update may proceed; otherwise the findings map
    /// field names to what is wrong with each.
    pub fn validate_against(&self, trigger: &Trigger) -> (r: Vec<(String, String)>)
        ensures
            r.deep_view() == spec_threshold_reports(
                trigger.thresholds.deep_view(),
                self.thresholds.deep_view(),
            ),
    {
        validate_thresholds(&trigger.thresholds, &self.thresholds)
    }

    /// The updated trigger this request produces once validation passed:
    /// the named trigger with the requested thresholds, enablement and
    /// description.
    pub fn applied_to(&self, trigger: &Trigger) -> (r: Trigger)
        ensures
            r@.name == trigger@.name,
            r@.enabled == self.enabled,
            r@.description == self.description@,
            r@.thresholds == self.thresholds.deep_view(),
    {
        let mut thresholds: Vec<Threshold> = Vec::new();
        let mut i: usize = 0;
        proof {
            assert(thresholds.deep_view() =~= self.thresholds.deep_view().take(0));
        }
        while i < self.thresholds.len()
            invariant
                0 <= i <= self.thresholds.len(),
                thresholds.deep_view() == self.thresholds.deep_view().take(i as int),
            decreases self.thresholds.len() - i,
        {
            thresholds.push(self.thresholds[i].clone());
            proof {
                let tdv = self.thresholds.deep_view();
                assert(tdv.take(i + 1).drop_last() =~= tdv.take(i as int));
                assert(tdv.take(i + 1).last() == tdv[i as int]);
                assert(thresholds.deep_view() =~= tdv.take(i + 1));
            }
            i = i + 1;
        }
        proof {
            assert(self.thresholds.deep_view().take(self.thresholds@.len() as int)
                =~= self.thresholds.deep_view());
        }
        Trigger {
            name: trigger.name.clone(),
            enabled: self.enabled,
            description: self.description.clone(),
            thresholds,
        }
    }
}

} // verus!
