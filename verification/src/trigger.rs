//! Triggers: named rules with thresholds that raise notifications. The
//! library models a trigger's identity, its enablement and its thresholds;
//! threshold updates are validated field by field against the trigger's
//! declared threshold set.

use vstd::prelude::*;

verus! {

use crate::text::str_eq;
use vstd::pervasive::cloned;

/// One named threshold of a trigger.
pub struct Threshold {
    pub name: String,
    pub data_type: String,
    pub value: String,
}

/// The mathematical shape of a threshold.
pub ghost struct ThresholdView {
    pub name: Seq<char>,
    pub data_type: Seq<char>,
    pub value: Seq<char>,
}

impl View for Threshold {
    type V = ThresholdView;

    open spec fn view(&self) -> ThresholdView {
        ThresholdView { name: self.name@, data_type: self.data_type@, value: self.value@ }
    }
}

impl DeepView for Threshold {
    type V = ThresholdView;

    open spec fn deep_view(&self) -> ThresholdView {
        self.view()
    }
}

impl Clone for Threshold {
    fn clone(&self) -> (r: Self)
        ensures
            r == *self,
    {
        Threshold {
            name: self.name.clone(),
            data_type: self.data_type.clone(),
            value: self.value.clone(),
        }
    }
}

/// A trigger.
pub struct Trigger {
    pub name: String,
    pub enabled: bool,
    pub description: String,
    pub thresholds: Vec<Threshold>,
}

/// The mathematical shape of a trigger.
pub ghost struct TriggerView {
    pub name: Seq<char>,
    pub enabled: bool,
    pub description: Seq<char>,
    pub thresholds: Seq<ThresholdView>,
}

impl View for Trigger {
    type V = TriggerView;

    open spec fn view(&self) -> TriggerView {
        TriggerView {
            name: self.name@,
            enabled: self.enabled,
            description: self.description@,
            thresholds: self.thresholds.deep_view(),
        }
    }
}

impl DeepView for Trigger {
    type V = TriggerView;

    open spec fn deep_view(&self) -> TriggerView {
        self.view()
    }
}

impl Clone for Trigger {
    fn clone(&self) -> (r: Self)
        ensures
            r@ == self@,
    {
        let r = Trigger {
            name: self.name.clone(),
            enabled: self.enabled,
            description: self.description.clone(),
            thresholds: self.thresholds.clone(),
        };
        proof {
            assert forall|i: int| 0 <= i < self.thresholds@.len() implies r.thresholds.deep_view()[i]
                == self.thresholds.deep_view()[i] by {
                assert(cloned::<Threshold>(self.thresholds[i], r.thresholds[i]));
            }
            assert(r.thresholds.deep_view() =~= self.thresholds.deep_view());
        }
        r
    }
}

/// Whether a threshold carrying `name` is in `ths`.
pub open spec fn spec_has_threshold(ths: Seq<ThresholdView>, name: Seq<char>) -> bool {
    exists|i: int| 0 <= i < ths.len() && ths[i].name == name
}

/// Whether some threshold of `ths` carries the name of `th`.
fn has_threshold(ths: &Vec<Threshold>, name: &str) -> (r: bool)
    ensures
        r == spec_has_threshold(ths.deep_view(), name@),
{
    let ghost dv = ths.deep_view();
    let mut i: usize = 0;
    while i < ths.len()
        invariant
            0 <= i <= ths.len(),
            dv == ths.deep_view(),
            dv.len() == ths.len(),
            forall|k: int| 0 <= k < i ==> dv[k].name != name@,
        decreases ths.len() - i,
    {
        if str_eq(ths[i].name.as_str(), name) {
            proof {
                assert(dv[i as int].name == name@);
            }
            return true;
        }
        i = i + 1;
    }
    false
}

/// The findings of a threshold update check: for every requested threshold
/// absent from the trigger, `This field does not exist`; for every trigger
/// threshold the request leaves out, `This field is required`. An update
/// is accepted exactly when there are no findings.
pub open spec fn spec_threshold_reports(
    existing: Seq<ThresholdView>,
    requested: Seq<ThresholdView>,
) -> Seq<(Seq<char>, Seq<char>)> {
    spec_missing_reports(existing, requested) + spec_unknown_reports(existing, requested)
}

/// For every threshold of `requested` that `existing` does not know, a
/// `This field is required` finding is raised by the original ordering:
/// requested names missing from the trigger come first.
pub open spec fn spec_missing_reports(
    existing: Seq<ThresholdView>,
    requested: Seq<ThresholdView>,
) -> Seq<(Seq<char>, Seq<char>)>
    decreases requested.len(),
{
    if requested.len() == 0 {
        Seq::empty()
    } else {
        spec_missing_reports(existing, requested.drop_last()) + (if !spec_has_threshold(
            existing,
            requested.last().name,
        ) {
            seq![(requested.last().name, "This field is required"@)]
        } else {
            Seq::empty()
        })
    }
}

/// For every threshold of `existing` that `requested` leaves out, a
/// `This field does not exist` finding.
pub open spec fn spec_unknown_reports(
    existing: Seq<ThresholdView>,
    requested: Seq<ThresholdView>,
) -> Seq<(Seq<char>, Seq<char>)>
    decreases existing.len(),
{
    if existing.len() == 0 {
        Seq::empty()
    } else {
        spec_unknown_reports(existing.drop_last(), requested) + (if !spec_has_threshold(
            requested,
            existing.last().name,
        ) {
            seq![(existing.last().name, "This field does not exist"@)]
        } else {
            Seq::empty()
        })
    }
}

/// Checks a requested threshold set against a trigger's declared set and
/// reports every name that is required but absent, or present but
/// unknown. An empty report means the update may proceed.
pub fn validate_thresholds(existing: &Vec<Threshold>, requested: &Vec<Threshold>) -> (r: Vec<
    (String, String),
>)
    ensures
        r.deep_view() == spec_threshold_reports(existing.deep_view(), requested.deep_view()),
{
    let ghost edv = existing.deep_view();
    let ghost rdv = requested.deep_view();
    let mut reports: Vec<(String, String)> = Vec::new();
    let mut i: usize = 0;
    proof {
        assert(rdv.take(0) =~= Seq::<ThresholdView>::empty());
        assert(reports.deep_view() =~= Seq::<(Seq<char>, Seq<char>)>::empty());
        assert(spec_missing_reports(edv, rdv.take(0)) =~= Seq::<(Seq<char>, Seq<char>)>::empty());
    }
    while i < requested.len()
        invariant
            0 <= i <= requested.len(),
            edv == existing.deep_view(),
            rdv == requested.deep_view(),
            rdv.len() == requested.len(),
            reports.deep_view() == spec_missing_reports(edv, rdv.take(i as int)),
        decreases requested.len() - i,
    {
        let ghost reports0 = reports.deep_view();
        if !has_threshold(existing, requested[i].name.as_str()) {
            reports.push((requested[i].name.clone(), "This field is required".to_owned()));
            proof {
                assert(reports.deep_view() =~= reports0.push(
                    (rdv[i as int].name, "This field is required"@),
                ));
            }
        }
        proof {
            assert(rdv.take(i + 1).drop_last() =~= rdv.take(i as int));
            assert(rdv.take(i + 1).last() == rdv[i as int]);
            if !spec_has_threshold(edv, rdv[i as int].name) {
                assert(reports.deep_view() =~= spec_missing_reports(edv, rdv.take(i as int))
                    + seq![(rdv[i as int].name, "This field is required"@)]);
            } else {
                assert(reports.deep_view() =~= spec_missing_reports(edv, rdv.take(i as int))
                    + Seq::<(Seq<char>, Seq<char>)>::empty());
            }
        }
        i = i + 1;
    }
    proof {
        assert(rdv.take(requested.len() as int) =~= rdv);
    }
    let ghost missing = reports.deep_view();
    let mut j: usize = 0;
    proof {
        assert(edv.take(0) =~= Seq::<ThresholdView>::empty());
        assert(spec_unknown_reports(edv.take(0), rdv) =~= Seq::<(Seq<char>, Seq<char>)>::empty());
        assert(reports.deep_view() =~= missing + spec_unknown_reports(edv.take(0), rdv));
    }
    while j < existing.len()
        invariant
            0 <= j <= existing.len(),
            edv == existing.deep_view(),
            rdv == requested.deep_view(),
            edv.len() == existing.len(),
            reports.deep_view() == missing + spec_unknown_reports(edv.take(j as int), rdv),
        decreases existing.len() - j,
    {
        let ghost reports0 = reports.deep_view();
        if !has_threshold(requested, existing[j].name.as_str()) {
            reports.push((existing[j].name.clone(), "This field does not exist".to_owned()));
            proof {
                assert(reports.deep_view() =~= reports0.push(
                    (edv[j as int].name, "This field does not exist"@),
                ));
            }
        }
        proof {
            assert(edv.take(j + 1).drop_last() =~= edv.take(j as int));
            assert(edv.take(j + 1).last() == edv[j as int]);
            if !spec_has_threshold(rdv, edv[j as int].name) {
                assert(reports.deep_view() =~= missing + (spec_unknown_reports(
                    edv.take(j as int),
                    rdv,
                ) + seq![(edv[j as int].name, "This field does not exist"@)]));
            } else {
                assert(reports.deep_view() =~= missing + (spec_unknown_reports(
                    edv.take(j as int),
                    rdv,
                ) + Seq::<(Seq<char>, Seq<char>)>::empty()));
            }
        }
        j = j + 1;
    }
    proof {
        assert(edv.take(existing.len() as int) =~= edv);
    }
    reports
}

} // verus!
