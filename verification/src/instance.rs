//! A whole Minerva instance: the desired (or live) schema as one value.
//! The instance diff walks every store family, matches entities by their
//! identity keys, and concatenates the resulting change lists: additions
//! for missing entities, recursive diffs for matched ones.

use vstd::prelude::*;

verus! {

use crate::change::{Change, ChangeView};
use crate::trend_store::{
    TrendStore, TrendStoreView, AddTrendStore, AddTrendStoreView, spec_store_diff, spec_wf_store,
    lemma_store_diff_idempotent,
};
use crate::attribute_store::{
    AttributeStore, AttributeStoreView, AddAttributeStore, AddAttributeStoreView,
    spec_attribute_store_diff, spec_wf_attribute_store, lemma_attribute_store_diff_idempotent,
};
use crate::notification_store::{
    NotificationStore, NotificationStoreView, AddNotificationStore, AddNotificationStoreView,
    spec_notification_store_diff, lemma_notification_store_diff_idempotent,
};
use crate::relation::{Relation, RelationView, AddRelation, AddRelationView};
use crate::trend_materialization::{
    TrendMaterialization, TrendMaterializationView, AddTrendMaterialization,
    AddTrendMaterializationView, spec_materialization_name, spec_materialization_diff,
    spec_compatible, lemma_materialization_diff_idempotent,
};
use crate::trigger::{Trigger, TriggerView};
use crate::text::{str_eq, ends_with_text, spec_ends_with};
use crate::trend_materialization::{UpdateTrendMaterialization, UpdateTrendMaterializationView};
use crate::change::{spec_change_text, spec_change_message};
use crate::error::{Error, RuntimeError, spec_error_text};
use vstd::string::StringExecFns;

/// The desired or live schema of one Minerva instance.
pub struct MinervaInstance {
    pub instance_root: Option<String>,
    pub trend_stores: Vec<TrendStore>,
    pub attribute_stores: Vec<AttributeStore>,
    pub notification_stores: Vec<NotificationStore>,
    pub relations: Vec<Relation>,
    pub trend_materializations: Vec<TrendMaterialization>,
    pub triggers: Vec<Trigger>,
}

/// The mathematical shape of an instance.
pub ghost struct MinervaInstanceView {
    pub instance_root: Option<Seq<char>>,
    pub trend_stores: Seq<TrendStoreView>,
    pub attribute_stores: Seq<AttributeStoreView>,
    pub notification_stores: Seq<NotificationStoreView>,
    pub relations: Seq<RelationView>,
    pub trend_materializations: Seq<TrendMaterializationView>,
    pub triggers: Seq<TriggerView>,
}

impl View for MinervaInstance {
    type V = MinervaInstanceView;

    open spec fn view(&self) -> MinervaInstanceView {
        MinervaInstanceView {
            instance_root: match self.instance_root {
                Option::Some(ref r) => Some(r@),
                Option::None => None,
            },
            trend_stores: self.trend_stores.deep_view(),
            attribute_stores: self.attribute_stores.deep_view(),
            notification_stores: self.notification_stores.deep_view(),
            relations: self.relations.deep_view(),
            trend_materializations: self.trend_materializations.deep_view(),
            triggers: self.triggers.deep_view(),
        }
    }
}

/// The first trend store with the identity key, scanning from the front.
pub open spec fn spec_find_trend_store(
    ss: Seq<TrendStoreView>,
    data_source: Seq<char>,
    entity_type: Seq<char>,
    granularity: int,
) -> Option<TrendStoreView>
    decreases ss.len(),
{
    if ss.len() == 0 {
        None
    } else if ss.first().data_source == data_source && ss.first().entity_type == entity_type
        && ss.first().granularity == granularity {
        Some(ss.first())
    } else {
        spec_find_trend_store(ss.drop_first(), data_source, entity_type, granularity)
    }
}

/// Looks a trend store up by its identity key.
pub fn find_trend_store(
    stores: &Vec<TrendStore>,
    data_source: &str,
    entity_type: &str,
    granularity: u64,
) -> (r: Option<usize>)
    ensures
        match spec_find_trend_store(
            stores.deep_view(),
            data_source@,
            entity_type@,
            granularity as int,
        ) {
            Option::None => r is None,
            Option::Some(s) => r matches Some(i) && i < stores.len() && stores.deep_view()[i as int]
                == s,
        },
{
    let ghost dv = stores.deep_view();
    let mut i: usize = 0;
    proof {
        assert(dv.skip(0) =~= dv);
    }
    while i < stores.len()
        invariant
            0 <= i <= stores.len(),
            dv == stores.deep_view(),
            dv.len() == stores.len(),
            spec_find_trend_store(dv, data_source@, entity_type@, granularity as int)
                == spec_find_trend_store(
                dv.skip(i as int),
                data_source@,
                entity_type@,
                granularity as int,
            ),
        decreases stores.len() - i,
    {
        let ghost rest = dv.skip(i as int);
        if str_eq(stores[i].data_source.as_str(), data_source) && str_eq(
            stores[i].entity_type.as_str(),
            entity_type,
        ) && stores[i].granularity == granularity {
            proof {
                assert(rest.first() == dv[i as int]);
            }
            return Some(i);
        }
        proof {
            assert(rest.first() == dv[i as int]);
            assert(rest.drop_first() =~= dv.skip(i + 1));
        }
        i = i + 1;
    }
    proof {
        assert(dv.skip(stores.len() as int) =~= Seq::<TrendStoreView>::empty());
    }
    None
}

/// The first attribute store with the identity key.
pub open spec fn spec_find_attribute_store(
    ss: Seq<AttributeStoreView>,
    data_source: Seq<char>,
    entity_type: Seq<char>,
) -> Option<AttributeStoreView>
    decreases ss.len(),
{
    if ss.len() == 0 {
        None
    } else if ss.first().data_source == data_source && ss.first().entity_type == entity_type {
        Some(ss.first())
    } else {
        spec_find_attribute_store(ss.drop_first(), data_source, entity_type)
    }
}

/// Looks an attribute store up by its identity key.
pub fn find_attribute_store(
    stores: &Vec<AttributeStore>,
    data_source: &str,
    entity_type: &str,
) -> (r: Option<usize>)
    ensures
        match spec_find_attribute_store(stores.deep_view(), data_source@, entity_type@) {
            Option::None => r is None,
            Option::Some(s) => r matches Some(i) && i < stores.len() && stores.deep_view()[i as int]
                == s,
        },
{
    let ghost dv = stores.deep_view();
    let mut i: usize = 0;
    proof {
        assert(dv.skip(0) =~= dv);
    }
    while i < stores.len()
        invariant
            0 <= i <= stores.len(),
            dv == stores.deep_view(),
            dv.len() == stores.len(),
            spec_find_attribute_store(dv, data_source@, entity_type@) == spec_find_attribute_store(
                dv.skip(i as int),
                data_source@,
                entity_type@,
            ),
        decreases stores.len() - i,
    {
        let ghost rest = dv.skip(i as int);
        if str_eq(stores[i].data_source.as_str(), data_source) && str_eq(
            stores[i].entity_type.as_str(),
            entity_type,
        ) {
            proof {
                assert(rest.first() == dv[i as int]);
            }
            return Some(i);
        }
        proof {
            assert(rest.first() == dv[i as int]);
            assert(rest.drop_first() =~= dv.skip(i + 1));
        }
        i = i + 1;
    }
    proof {
        assert(dv.skip(stores.len() as int) =~= Seq::<AttributeStoreView>::empty());
    }
    None
}

/// The first notification store with the data source.
pub open spec fn spec_find_notification_store(
    ss: Seq<NotificationStoreView>,
    data_source: Seq<char>,
) -> Option<NotificationStoreView>
    decreases ss.len(),
{
    if ss.len() == 0 {
        None
    } else if ss.first().data_source == data_source {
        Some(ss.first())
    } else {
        spec_find_notification_store(ss.drop_first(), data_source)
    }
}

/// Looks a notification store up by its data source.
pub fn find_notification_store(stores: &Vec<NotificationStore>, data_source: &str) -> (r: Option<
    usize,
>)
    ensures
        match spec_find_notification_store(stores.deep_view(), data_source@) {
            Option::None => r is None,
            Option::Some(s) => r matches Some(i) && i < stores.len() && stores.deep_view()[i as int]
                == s,
        },
{
    let ghost dv = stores.deep_view();
    let mut i: usize = 0;
    proof {
        assert(dv.skip(0) =~= dv);
    }
    while i < stores.len()
        invariant
            0 <= i <= stores.len(),
            dv == stores.deep_view(),
            dv.len() == stores.len(),
            spec_find_notification_store(dv, data_source@) == spec_find_notification_store(
                dv.skip(i as int),
                data_source@,
            ),
        decreases stores.len() - i,
    {
        let ghost rest = dv.skip(i as int);
        if str_eq(stores[i].data_source.as_str(), data_source) {
            proof {
                assert(rest.first() == dv[i as int]);
            }
            return Some(i);
        }
        proof {
            assert(rest.first() == dv[i as int]);
            assert(rest.drop_first() =~= dv.skip(i + 1));
        }
        i = i + 1;
    }
    proof {
        assert(dv.skip(stores.len() as int) =~= Seq::<NotificationStoreView>::empty());
    }
    None
}

/// The first materialization with the target name.
pub open spec fn spec_find_materialization(
    ms: Seq<TrendMaterializationView>,
    name: Seq<char>,
) -> Option<TrendMaterializationView>
    decreases ms.len(),
{
    if ms.len() == 0 {
        None
    } else if spec_materialization_name(ms.first()) == name {
        Some(ms.first())
    } else {
        spec_find_materialization(ms.drop_first(), name)
    }
}

/// Looks a materialization up by its target name.
pub fn find_materialization(ms: &Vec<TrendMaterialization>, name: &str) -> (r: Option<usize>)
    ensures
        match spec_find_materialization(ms.deep_view(), name@) {
            Option::None => r is None,
            Option::Some(m) => r matches Some(i) && i < ms.len() && ms.deep_view()[i as int] == m,
        },
{
    let ghost dv = ms.deep_view();
    let mut i: usize = 0;
    proof {
        assert(dv.skip(0) =~= dv);
    }
    while i < ms.len()
        invariant
            0 <= i <= ms.len(),
            dv == ms.deep_view(),
            dv.len() == ms.len(),
            spec_find_materialization(dv, name@) == spec_find_materialization(
                dv.skip(i as int),
                name@,
            ),
        decreases ms.len() - i,
    {
        let ghost rest = dv.skip(i as int);
        if str_eq(ms[i].name(), name) {
            proof {
                assert(rest.first() == dv[i as int]);
            }
            return Some(i);
        }
        proof {
            assert(rest.first() == dv[i as int]);
            assert(rest.drop_first() =~= dv.skip(i + 1));
        }
        i = i + 1;
    }
    proof {
        assert(dv.skip(ms.len() as int) =~= Seq::<TrendMaterializationView>::empty());
    }
    None
}

/// The trend store section of the instance diff.
pub open spec fn spec_instance_trend_stores_diff(
    mine: Seq<TrendStoreView>,
    others: Seq<TrendStoreView>,
) -> Seq<ChangeView>
    decreases others.len(),
{
    if others.len() == 0 {
        Seq::empty()
    } else {
        spec_instance_trend_stores_diff(mine, others.drop_last()) + (match spec_find_trend_store(
            mine,
            others.last().data_source,
            others.last().entity_type,
            others.last().granularity,
        ) {
            Option::Some(s) => spec_store_diff(s, others.last()),
            Option::None => seq![
                ChangeView::AddTrendStore(AddTrendStoreView { trend_store: others.last() }),
            ],
        })
    }
}

/// The attribute store section of the instance diff.
pub open spec fn spec_instance_attribute_stores_diff(
    mine: Seq<AttributeStoreView>,
    others: Seq<AttributeStoreView>,
) -> Seq<ChangeView>
    decreases others.len(),
{
    if others.len() == 0 {
        Seq::empty()
    } else {
        spec_instance_attribute_stores_diff(mine, others.drop_last()) + (
        match spec_find_attribute_store(
            mine,
            others.last().data_source,
            others.last().entity_type,
        ) {
            Option::Some(s) => spec_attribute_store_diff(s, others.last()),
            Option::None => seq![
                ChangeView::AddAttributeStore(
                    AddAttributeStoreView { attribute_store: others.last() },
                ),
            ],
        })
    }
}

/// The notification store section of the instance diff.
pub open spec fn spec_instance_notification_stores_diff(
    mine: Seq<NotificationStoreView>,
    others: Seq<NotificationStoreView>,
) -> Seq<ChangeView>
    decreases others.len(),
{
    if others.len() == 0 {
        Seq::empty()
    } else {
        spec_instance_notification_stores_diff(mine, others.drop_last()) + (
        match spec_find_notification_store(mine, others.last().data_source) {
            Option::Some(s) => spec_notification_store_diff(s, others.last()),
            Option::None => seq![
                ChangeView::AddNotificationStore(
                    AddNotificationStoreView { notification_store: others.last() },
                ),
            ],
        })
    }
}

/// The materialization section of the instance diff.
pub open spec fn spec_instance_materializations_diff(
    mine: Seq<TrendMaterializationView>,
    others: Seq<TrendMaterializationView>,
) -> Seq<ChangeView>
    decreases others.len(),
{
    if others.len() == 0 {
        Seq::empty()
    } else {
        spec_instance_materializations_diff(mine, others.drop_last()) + (
        match spec_find_materialization(mine, spec_materialization_name(others.last())) {
            Option::Some(m) => spec_materialization_diff(m, others.last()),
            Option::None => seq![
                ChangeView::AddTrendMaterialization(
                    AddTrendMaterializationView { trend_materialization: others.last() },
                ),
            ],
        })
    }
}

/// The whole instance diff: trend stores, then attribute stores, then
/// notification stores, then materializations.
pub open spec fn spec_instance_diff(
    mine: MinervaInstanceView,
    other: MinervaInstanceView,
) -> Seq<ChangeView> {
    spec_instance_trend_stores_diff(mine.trend_stores, other.trend_stores)
        + spec_instance_attribute_stores_diff(mine.attribute_stores, other.attribute_stores)
        + spec_instance_notification_stores_diff(
        mine.notification_stores,
        other.notification_stores,
    ) + spec_instance_materializations_diff(
        mine.trend_materializations,
        other.trend_materializations,
    )
}

/// Whether every declared materialization that matches a known one by
/// name keeps its implementation mechanism. A mechanism switch has no
/// incremental diff: it takes a full teardown and recreation.
pub open spec fn spec_materializations_compatible(
    mine: Seq<TrendMaterializationView>,
    others: Seq<TrendMaterializationView>,
) -> bool {
    forall|k: int|
        0 <= k < others.len() ==> match spec_find_materialization(
            mine,
            spec_materialization_name(#[trigger] others[k]),
        ) {
            Option::Some(m) => spec_compatible(m, others[k]),
            Option::None => true,
        }
}

impl MinervaInstance {
    /// Compares this instance (typically the live schema) against the
    /// declared `other` and emits the full ordered change list. A
    /// materialization changing its implementation mechanism has no
    /// incremental diff — it takes a full teardown — so such pairs are
    /// left out by precondition here; `try_diff` folds the check in and
    /// reports the switch as a runtime error instead.
    pub fn diff(&self, other: &MinervaInstance) -> (r: Vec<Change>)
        requires
            spec_materializations_compatible(
                self@.trend_materializations,
                other@.trend_materializations,
            ),
        ensures
            r.deep_view() == spec_instance_diff(self@, other@),
    {
        let mut changes: Vec<Change> = Vec::new();
        let ghost msv = self.trend_stores.deep_view();
        let ghost osv = other.trend_stores.deep_view();
        let mut i: usize = 0;
        proof {
            assert(osv.take(0) =~= Seq::<TrendStoreView>::empty());
            assert(changes.deep_view() =~= Seq::<ChangeView>::empty());
        }
        while i < other.trend_stores.len()
            invariant
                0 <= i <= other.trend_stores.len(),
                msv == self.trend_stores.deep_view(),
                osv == other.trend_stores.deep_view(),
                osv.len() == other.trend_stores.len(),
                changes.deep_view() == spec_instance_trend_stores_diff(msv, osv.take(i as int)),
            decreases other.trend_stores.len() - i,
        {
            let ghost ch0 = changes.deep_view();
            proof {
                assert(osv.take(i + 1).drop_last() =~= osv.take(i as int));
                assert(osv.take(i + 1).last() == osv[i as int]);
            }
            match find_trend_store(
                &self.trend_stores,
                other.trend_stores[i].data_source.as_str(),
                other.trend_stores[i].entity_type.as_str(),
                other.trend_stores[i].granularity,
            ) {
                Option::Some(idx) => {
                    let mut cs = self.trend_stores[idx].diff(&other.trend_stores[i]);
                    let ghost csd = cs.deep_view();
                    changes.append(&mut cs);
                    proof {
                        assert(changes.deep_view() =~= ch0 + csd);
                        assert(changes.deep_view() =~= spec_instance_trend_stores_diff(
                            msv,
                            osv.take(i + 1),
                        ));
                    }
                },
                Option::None => {
                    changes.push(
                        Change::AddTrendStore(
                            AddTrendStore { trend_store: other.trend_stores[i].clone() },
                        ),
                    );
                    proof {
                        assert(changes.deep_view() =~= ch0.push(
                            ChangeView::AddTrendStore(
                                AddTrendStoreView { trend_store: osv[i as int] },
                            ),
                        ));
                        assert(changes.deep_view() =~= spec_instance_trend_stores_diff(
                            msv,
                            osv.take(i + 1),
                        ));
                    }
                },
            }
            i = i + 1;
        }
        proof {
            assert(osv.take(other.trend_stores.len() as int) =~= osv);
        }
        let ghost after_trend = changes.deep_view();
        let ghost mav = self.attribute_stores.deep_view();
        let ghost oav = other.attribute_stores.deep_view();
        let mut j: usize = 0;
        proof {
            assert(oav.take(0) =~= Seq::<AttributeStoreView>::empty());
            assert(after_trend + spec_instance_attribute_stores_diff(mav, oav.take(0))
                =~= after_trend);
        }
        while j < other.attribute_stores.len()
            invariant
                0 <= j <= other.attribute_stores.len(),
                mav == self.attribute_stores.deep_view(),
                oav == other.attribute_stores.deep_view(),
                oav.len() == other.attribute_stores.len(),
                changes.deep_view() == after_trend + spec_instance_attribute_stores_diff(
                    mav,
                    oav.take(j as int),
                ),
            decreases other.attribute_stores.len() - j,
        {
            let ghost ch0 = changes.deep_view();
            proof {
                assert(oav.take(j + 1).drop_last() =~= oav.take(j as int));
                assert(oav.take(j + 1).last() == oav[j as int]);
            }
            match find_attribute_store(
                &self.attribute_stores,
                other.attribute_stores[j].data_source.as_str(),
                other.attribute_stores[j].entity_type.as_str(),
            ) {
                Option::Some(idx) => {
                    let mut cs = self.attribute_stores[idx].diff(&other.attribute_stores[j]);
                    let ghost csd = cs.deep_view();
                    changes.append(&mut cs);
                    proof {
                        assert(changes.deep_view() =~= ch0 + csd);
                        assert(changes.deep_view() =~= after_trend
                            + spec_instance_attribute_stores_diff(mav, oav.take(j + 1)));
                    }
                },
                Option::None => {
                    changes.push(
                        Change::AddAttributeStore(
                            AddAttributeStore {
                                attribute_store: other.attribute_stores[j].clone(),
                            },
                        ),
                    );
                    proof {
                        assert(changes.deep_view() =~= ch0.push(
                            ChangeView::AddAttributeStore(
                                AddAttributeStoreView { attribute_store: oav[j as int] },
                            ),
                        ));
                        assert(changes.deep_view() =~= after_trend
                            + spec_instance_attribute_stores_diff(mav, oav.take(j + 1)));
                    }
                },
            }
            j = j + 1;
        }
        proof {
            assert(oav.take(other.attribute_stores.len() as int) =~= oav);
        }
        let ghost after_attr = changes.deep_view();
        let ghost mnv = self.notification_stores.deep_view();
        let ghost onv = other.notification_stores.deep_view();
        let mut k: usize = 0;
        proof {
            assert(onv.take(0) =~= Seq::<NotificationStoreView>::empty());
            assert(after_attr + spec_instance_notification_stores_diff(mnv, onv.take(0))
                =~= after_attr);
        }
        while k < other.notification_stores.len()
            invariant
                0 <= k <= other.notification_stores.len(),
                mnv == self.notification_stores.deep_view(),
                onv == other.notification_stores.deep_view(),
                onv.len() == other.notification_stores.len(),
                changes.deep_view() == after_attr + spec_instance_notification_stores_diff(
                    mnv,
                    onv.take(k as int),
                ),
            decreases other.notification_stores.len() - k,
        {
            let ghost ch0 = changes.deep_view();
            proof {
                assert(onv.take(k + 1).drop_last() =~= onv.take(k as int));
                assert(onv.take(k + 1).last() == onv[k as int]);
            }
            match find_notification_store(
                &self.notification_stores,
                other.notification_stores[k].data_source.as_str(),
            ) {
                Option::Some(idx) => {
                    let mut cs = self.notification_stores[idx].diff(&other.notification_stores[k]);
                    let ghost csd = cs.deep_view();
                    changes.append(&mut cs);
                    proof {
                        assert(changes.deep_view() =~= ch0 + csd);
                        assert(changes.deep_view() =~= after_attr
                            + spec_instance_notification_stores_diff(mnv, onv.take(k + 1)));
                    }
                },
                Option::None => {
                    changes.push(
                        Change::AddNotificationStore(
                            AddNotificationStore {
                                notification_store: other.notification_stores[k].clone(),
                            },
                        ),
                    );
                    proof {
                        assert(changes.deep_view() =~= ch0.push(
                            ChangeView::AddNotificationStore(
                                AddNotificationStoreView { notification_store: onv[k as int] },
                            ),
                        ));
                        assert(changes.deep_view() =~= after_attr
                            + spec_instance_notification_stores_diff(mnv, onv.take(k + 1)));
                    }
                },
            }
            k = k + 1;
        }
        proof {
            assert(onv.take(other.notification_stores.len() as int) =~= onv);
        }
        let ghost after_notif = changes.deep_view();
        let ghost mmv = self.trend_materializations.deep_view();
        let ghost omv = other.trend_materializations.deep_view();
        let mut n: usize = 0;
        proof {
            assert(omv.take(0) =~= Seq::<TrendMaterializationView>::empty());
            assert(after_notif + spec_instance_materializations_diff(mmv, omv.take(0))
                =~= after_notif);
        }
        while n < other.trend_materializations.len()
            invariant
                0 <= n <= other.trend_materializations.len(),
                mmv == self.trend_materializations.deep_view(),
                omv == other.trend_materializations.deep_view(),
                omv.len() == other.trend_materializations.len(),
                spec_materializations_compatible(mmv, omv),
                changes.deep_view() == after_notif + spec_instance_materializations_diff(
                    mmv,
                    omv.take(n as int),
                ),
            decreases other.trend_materializations.len() - n,
        {
            let ghost ch0 = changes.deep_view();
            proof {
                assert(omv.take(n + 1).drop_last() =~= omv.take(n as int));
                assert(omv.take(n + 1).last() == omv[n as int]);
            }
            match find_materialization(
                &self.trend_materializations,
                other.trend_materializations[n].name(),
            ) {
                Option::Some(idx) => {
                    let mut cs = self.trend_materializations[idx].diff(
                        &other.trend_materializations[n],
                    );
                    let ghost csd = cs.deep_view();
                    changes.append(&mut cs);
                    proof {
                        assert(changes.deep_view() =~= ch0 + csd);
                        assert(changes.deep_view() =~= after_notif
                            + spec_instance_materializations_diff(mmv, omv.take(n + 1)));
                    }
                },
                Option::None => {
                    changes.push(
                        Change::AddTrendMaterialization(
                            AddTrendMaterialization {
                                trend_materialization: other.trend_materializations[n].clone(),
                            },
                        ),
                    );
                    proof {
                        assert(changes.deep_view() =~= ch0.push(
                            ChangeView::AddTrendMaterialization(
                                AddTrendMaterializationView {
                                    trend_materialization: omv[n as int],
                                },
                            ),
                        ));
                        assert(changes.deep_view() =~= after_notif
                            + spec_instance_materializations_diff(mmv, omv.take(n + 1)));
                    }
                },
            }
            n = n + 1;
        }
        proof {
            assert(omv.take(other.trend_materializations.len() as int) =~= omv);
            assert(changes.deep_view() =~= spec_instance_diff(self@, other@));
        }
        changes
    }

    /// Like `diff`, with the mechanism check folded in: an incompatible
    /// implementation switch comes back as a runtime error rather than
    /// being left out by precondition.
    pub fn try_diff(&self, other: &MinervaInstance) -> (r: Result<Vec<Change>, Error>)
        ensures
            spec_materializations_compatible(
                self@.trend_materializations,
                other@.trend_materializations,
            ) ==> (r matches Ok(cs) && cs.deep_view() == spec_instance_diff(self@, other@)),
            !spec_materializations_compatible(
                self@.trend_materializations,
                other@.trend_materializations,
            ) ==> (r matches Err(e) && e is Runtime && spec_error_text(e)
                == "Incompatible materialization types"@),
    {
        if materializations_compatible(&self.trend_materializations, &other.trend_materializations) {
            Ok(self.diff(other))
        } else {
            Err(
                Error::Runtime(
                    RuntimeError::from_msg("Incompatible materialization types".to_owned()),
                ),
            )
        }
    }
}

/// A well-formed instance: identity keys are unique in every store
/// family, and every store is itself well-formed.
pub open spec fn spec_wf_instance(m: MinervaInstanceView) -> bool {
    &&& forall|i: int, j: int|
        0 <= i < j < m.trend_stores.len() ==> !((#[trigger] m.trend_stores[i]).data_source == (
        #[trigger] m.trend_stores[j]).data_source && m.trend_stores[i].entity_type
            == m.trend_stores[j].entity_type && m.trend_stores[i].granularity
            == m.trend_stores[j].granularity)
    &&& forall|i: int| 0 <= i < m.trend_stores.len() ==> spec_wf_store(#[trigger] m.trend_stores[i])
    &&& forall|i: int, j: int|
        0 <= i < j < m.attribute_stores.len() ==> !((#[trigger] m.attribute_stores[i]).data_source
            == (#[trigger] m.attribute_stores[j]).data_source && m.attribute_stores[i].entity_type
            == m.attribute_stores[j].entity_type)
    &&& forall|i: int|
        0 <= i < m.attribute_stores.len() ==> spec_wf_attribute_store(
            #[trigger] m.attribute_stores[i],
        )
    &&& forall|i: int, j: int|
        0 <= i < j < m.notification_stores.len() ==> (#[trigger] m.notification_stores[i]).data_source != (#[trigger] m.notification_stores[j]).data_source
    &&& forall|i: int, j: int|
        0 <= i < j < m.trend_materializations.len() ==> spec_materialization_name(
            #[trigger] m.trend_materializations[i],
        ) != spec_materialization_name(#[trigger] m.trend_materializations[j])
}

proof fn lemma_find_trend_store_unique(ss: Seq<TrendStoreView>, i: int)
    requires
        0 <= i < ss.len(),
        forall|a: int, b: int|
            0 <= a < b < ss.len() ==> !((#[trigger] ss[a]).data_source == (
            #[trigger] ss[b]).data_source && ss[a].entity_type == ss[b].entity_type
                && ss[a].granularity == ss[b].granularity),
    ensures
        spec_find_trend_store(ss, ss[i].data_source, ss[i].entity_type, ss[i].granularity)
            == Some(ss[i]),
    decreases ss.len(),
{
    if i > 0 {
        assert(!(ss[0].data_source == ss[i].data_source && ss[0].entity_type == ss[i].entity_type
            && ss[0].granularity == ss[i].granularity));
        assert(forall|a: int, b: int|
            0 <= a < b < ss.drop_first().len() ==> ss.drop_first()[a] == ss[a + 1]
                && ss.drop_first()[b] == ss[b + 1]);
        lemma_find_trend_store_unique(ss.drop_first(), i - 1);
    }
}

proof fn lemma_find_attribute_store_unique(ss: Seq<AttributeStoreView>, i: int)
    requires
        0 <= i < ss.len(),
        forall|a: int, b: int|
            0 <= a < b < ss.len() ==> !((#[trigger] ss[a]).data_source == (
            #[trigger] ss[b]).data_source && ss[a].entity_type == ss[b].entity_type),
    ensures
        spec_find_attribute_store(ss, ss[i].data_source, ss[i].entity_type) == Some(ss[i]),
    decreases ss.len(),
{
    if i > 0 {
        assert(!(ss[0].data_source == ss[i].data_source && ss[0].entity_type
            == ss[i].entity_type));
        assert(forall|a: int, b: int|
            0 <= a < b < ss.drop_first().len() ==> ss.drop_first()[a] == ss[a + 1]
                && ss.drop_first()[b] == ss[b + 1]);
        lemma_find_attribute_store_unique(ss.drop_first(), i - 1);
    }
}

proof fn lemma_find_notification_store_unique(ss: Seq<NotificationStoreView>, i: int)
    requires
        0 <= i < ss.len(),
        forall|a: int, b: int|
            0 <= a < b < ss.len() ==> (#[trigger] ss[a]).data_source != (
            #[trigger] ss[b]).data_source,
    ensures
        spec_find_notification_store(ss, ss[i].data_source) == Some(ss[i]),
    decreases ss.len(),
{
    if i > 0 {
        assert(ss[0].data_source != ss[i].data_source);
        assert(forall|a: int, b: int|
            0 <= a < b < ss.drop_first().len() ==> ss.drop_first()[a] == ss[a + 1]
                && ss.drop_first()[b] == ss[b + 1]);
        lemma_find_notification_store_unique(ss.drop_first(), i - 1);
    }
}

proof fn lemma_find_materialization_unique(ms: Seq<TrendMaterializationView>, i: int)
    requires
        0 <= i < ms.len(),
        forall|a: int, b: int|
            0 <= a < b < ms.len() ==> spec_materialization_name(#[trigger] ms[a])
                != spec_materialization_name(#[trigger] ms[b]),
    ensures
        spec_find_materialization(ms, spec_materialization_name(ms[i])) == Some(ms[i]),
    decreases ms.len(),
{
    if i > 0 {
        assert(spec_materialization_name(ms[0]) != spec_materialization_name(ms[i]));
        assert(forall|a: int, b: int|
            0 <= a < b < ms.drop_first().len() ==> ms.drop_first()[a] == ms[a + 1]
                && ms.drop_first()[b] == ms[b + 1]);
        lemma_find_materialization_unique(ms.drop_first(), i - 1);
    }
}

proof fn lemma_trend_stores_diff_idempotent(m: MinervaInstanceView, k: int)
    requires
        spec_wf_instance(m),
        0 <= k <= m.trend_stores.len(),
    ensures
        spec_instance_trend_stores_diff(m.trend_stores, m.trend_stores.take(k))
            == Seq::<ChangeView>::empty(),
    decreases k,
{
    if k > 0 {
        lemma_trend_stores_diff_idempotent(m, k - 1);
        assert(m.trend_stores.take(k).drop_last() =~= m.trend_stores.take(k - 1));
        assert(m.trend_stores.take(k).last() == m.trend_stores[k - 1]);
        lemma_find_trend_store_unique(m.trend_stores, k - 1);
        lemma_store_diff_idempotent(m.trend_stores[k - 1]);
        assert(spec_instance_trend_stores_diff(m.trend_stores, m.trend_stores.take(k))
            =~= Seq::<ChangeView>::empty());
    } else {
        assert(m.trend_stores.take(0) =~= Seq::<TrendStoreView>::empty());
    }
}

proof fn lemma_attribute_stores_diff_idempotent(m: MinervaInstanceView, k: int)
    requires
        spec_wf_instance(m),
        0 <= k <= m.attribute_stores.len(),
    ensures
        spec_instance_attribute_stores_diff(m.attribute_stores, m.attribute_stores.take(k))
            == Seq::<ChangeView>::empty(),
    decreases k,
{
    if k > 0 {
        lemma_attribute_stores_diff_idempotent(m, k - 1);
        assert(m.attribute_stores.take(k).drop_last() =~= m.attribute_stores.take(k - 1));
        assert(m.attribute_stores.take(k).last() == m.attribute_stores[k - 1]);
        lemma_find_attribute_store_unique(m.attribute_stores, k - 1);
        lemma_attribute_store_diff_idempotent(m.attribute_stores[k - 1]);
        assert(spec_instance_attribute_stores_diff(m.attribute_stores, m.attribute_stores.take(k))
            =~= Seq::<ChangeView>::empty());
    } else {
        assert(m.attribute_stores.take(0) =~= Seq::<AttributeStoreView>::empty());
    }
}

proof fn lemma_notification_stores_diff_idempotent(m: MinervaInstanceView, k: int)
    requires
        spec_wf_instance(m),
        0 <= k <= m.notification_stores.len(),
    ensures
        spec_instance_notification_stores_diff(
            m.notification_stores,
            m.notification_stores.take(k),
        ) == Seq::<ChangeView>::empty(),
    decreases k,
{
    if k > 0 {
        lemma_notification_stores_diff_idempotent(m, k - 1);
        assert(m.notification_stores.take(k).drop_last() =~= m.notification_stores.take(k - 1));
        assert(m.notification_stores.take(k).last() == m.notification_stores[k - 1]);
        lemma_find_notification_store_unique(m.notification_stores, k - 1);
        lemma_notification_store_diff_idempotent(m.notification_stores[k - 1]);
        assert(spec_instance_notification_stores_diff(
            m.notification_stores,
            m.notification_stores.take(k),
        ) =~= Seq::<ChangeView>::empty());
    } else {
        assert(m.notification_stores.take(0) =~= Seq::<NotificationStoreView>::empty());
    }
}

proof fn lemma_materializations_diff_idempotent(m: MinervaInstanceView, k: int)
    requires
        spec_wf_instance(m),
        0 <= k <= m.trend_materializations.len(),
    ensures
        spec_instance_materializations_diff(
            m.trend_materializations,
            m.trend_materializations.take(k),
        ) == Seq::<ChangeView>::empty(),
    decreases k,
{
    if k > 0 {
        lemma_materializations_diff_idempotent(m, k - 1);
        assert(m.trend_materializations.take(k).drop_last() =~= m.trend_materializations.take(
            k - 1,
        ));
        assert(m.trend_materializations.take(k).last() == m.trend_materializations[k - 1]);
        lemma_find_materialization_unique(m.trend_materializations, k - 1);
        lemma_materialization_diff_idempotent(m.trend_materializations[k - 1]);
        assert(spec_instance_materializations_diff(
            m.trend_materializations,
            m.trend_materializations.take(k),
        ) =~= Seq::<ChangeView>::empty());
    } else {
        assert(m.trend_materializations.take(0) =~= Seq::<TrendMaterializationView>::empty());
    }
}

/// Diff idempotence: a well-formed instance diffed against itself yields
/// the empty change list.
pub proof fn lemma_instance_diff_idempotent(m: MinervaInstanceView)
    requires
        spec_wf_instance(m),
    ensures
        spec_instance_diff(m, m) == Seq::<ChangeView>::empty(),
{
    lemma_trend_stores_diff_idempotent(m, m.trend_stores.len() as int);
    assert(m.trend_stores.take(m.trend_stores.len() as int) =~= m.trend_stores);
    lemma_attribute_stores_diff_idempotent(m, m.attribute_stores.len() as int);
    assert(m.attribute_stores.take(m.attribute_stores.len() as int) =~= m.attribute_stores);
    lemma_notification_stores_diff_idempotent(m, m.notification_stores.len() as int);
    assert(m.notification_stores.take(m.notification_stores.len() as int)
        =~= m.notification_stores);
    lemma_materializations_diff_idempotent(m, m.trend_materializations.len() as int);
    assert(m.trend_materializations.take(m.trend_materializations.len() as int)
        =~= m.trend_materializations);
    assert(spec_instance_diff(m, m) =~= Seq::<ChangeView>::empty());
}


/// Whether one report entry pairs the audit text of `c` with an outcome
/// whose success message is `c`'s own.
pub open spec fn spec_report_entry_matches(
    entry: (String, Result<String, Error>),
    c: ChangeView,
) -> bool {
    &&& entry.0@ == spec_change_text(c)
    &&& (entry.1 matches Ok(m) ==> m@ == spec_change_message(c))
}

/// The changes initialization of the stores applies, in order: one
/// creation per attribute store, trend store, notification store and
/// relation.
pub open spec fn spec_initialize_stores_changes(m: MinervaInstanceView) -> Seq<ChangeView> {
    Seq::new(
        m.attribute_stores.len(),
        |i: int|
            ChangeView::AddAttributeStore(
                AddAttributeStoreView { attribute_store: m.attribute_stores[i] },
            ),
    ) + Seq::new(
        m.trend_stores.len(),
        |i: int| ChangeView::AddTrendStore(AddTrendStoreView { trend_store: m.trend_stores[i] }),
    ) + Seq::new(
        m.notification_stores.len(),
        |i: int|
            ChangeView::AddNotificationStore(
                AddNotificationStoreView { notification_store: m.notification_stores[i] },
            ),
    ) + Seq::new(
        m.relations.len(),
        |i: int| ChangeView::AddRelation(AddRelationView { relation: m.relations[i] }),
    )
}

/// The changes initialization of the materializations applies, in order.
pub open spec fn spec_initialize_materializations_changes(m: MinervaInstanceView) -> Seq<
    ChangeView,
> {
    Seq::new(
        m.trend_materializations.len(),
        |i: int|
            ChangeView::AddTrendMaterialization(
                AddTrendMaterializationView { trend_materialization: m.trend_materializations[i] },
            ),
    )
}

/// Every change a full initialization applies, in order.
pub open spec fn spec_initialize_changes(m: MinervaInstanceView) -> Seq<ChangeView> {
    spec_initialize_stores_changes(m) + spec_initialize_materializations_changes(m)
}

/// Every change an update applies, in order: the diff, then one
/// materialization rebuild per declared materialization.
pub open spec fn spec_update_changes(
    mine: MinervaInstanceView,
    other: MinervaInstanceView,
) -> Seq<ChangeView> {
    spec_instance_diff(mine, other) + Seq::new(
        other.trend_materializations.len(),
        |j: int|
            ChangeView::UpdateTrendMaterialization(
                UpdateTrendMaterializationView {
                    trend_materialization: other.trend_materializations[j],
                },
            ),
    )
}

/// Checks that every declared materialization matching a known one by
/// name keeps its implementation mechanism.
pub fn materializations_compatible(
    mine: &Vec<TrendMaterialization>,
    others: &Vec<TrendMaterialization>,
) -> (r: bool)
    ensures
        r == spec_materializations_compatible(mine.deep_view(), others.deep_view()),
{
    let ghost mdv = mine.deep_view();
    let ghost odv = others.deep_view();
    let mut i: usize = 0;
    while i < others.len()
        invariant
            0 <= i <= others.len(),
            mdv == mine.deep_view(),
            odv == others.deep_view(),
            odv.len() == others.len(),
            forall|k: int|
                0 <= k < i ==> match spec_find_materialization(
                    mdv,
                    spec_materialization_name(#[trigger] odv[k]),
                ) {
                    Option::Some(m) => spec_compatible(m, odv[k]),
                    Option::None => true,
                },
        decreases others.len() - i,
    {
        match find_materialization(mine, others[i].name()) {
            Option::Some(idx) => {
                let same_mechanism = match (&mine[idx], &others[i]) {
                    (TrendMaterialization::View(_), TrendMaterialization::View(_)) => true,
                    (TrendMaterialization::Function(_), TrendMaterialization::Function(_)) => true,
                    _ => false,
                };
                if !same_mechanism {
                    proof {
                        let k = i as int;
                        assert(spec_find_materialization(
                            mdv,
                            spec_materialization_name(odv[k]),
                        ) is Some);
                        assert(!spec_compatible(
                            spec_find_materialization(mdv, spec_materialization_name(odv[k]))->0,
                            odv[k],
                        ));
                        assert(!spec_materializations_compatible(mdv, odv));
                    }
                    return false;
                }
            },
            Option::None => {},
        }
        i = i + 1;
    }
    true
}

/// What one file of a custom initialization stage calls for: `.sql`
/// files run through the connection, `.psql` files run through the psql
/// tool, executable files run as programs, and anything else is passed
/// over.
pub enum CustomFileAction {
    ExecuteSql,
    ExecutePsql,
    ExecuteProgram,
    Skip,
}

/// The action a custom-stage file calls for, decided by its name's
/// suffix and its executable bit.
pub open spec fn spec_custom_file_action(name: Seq<char>, executable: bool) -> CustomFileAction {
    if spec_ends_with(name, ".sql"@) {
        CustomFileAction::ExecuteSql
    } else if spec_ends_with(name, ".psql"@) {
        CustomFileAction::ExecutePsql
    } else if executable {
        CustomFileAction::ExecuteProgram
    } else {
        CustomFileAction::Skip
    }
}

/// Decides what a custom-stage file calls for from its name and its
/// executable bit.
pub fn classify_custom_file(name: &str, executable: bool) -> (r: CustomFileAction)
    ensures
        r == spec_custom_file_action(name@, executable),
{
    if ends_with_text(name, ".sql") {
        CustomFileAction::ExecuteSql
    } else if ends_with_text(name, ".psql") {
        CustomFileAction::ExecutePsql
    } else if executable {
        CustomFileAction::ExecuteProgram
    } else {
        CustomFileAction::Skip
    }
}

/// The session prelude for schema creation on a distributed cluster:
/// multi-shard modifications go out sequentially.
pub fn sequential_shard_prelude() -> (r: Vec<String>) {
    let mut v: Vec<String> = Vec::new();
    v.push("SET LOCAL citus.multi_shard_modify_mode TO 'sequential'".to_owned());
    v
}

impl MinervaInstance {
    /// Loads the live schema of a whole instance from the database. A
    /// failing call is a database error; unreadable stored durations and
    /// unexpected stored languages are runtime errors.
    pub fn load_from_db(client: &mut postgres::Client) -> (r: Result<
        MinervaInstance,
        crate::error::Error,
    >)
        ensures
            r matches Err(e) ==> (e is Database || e is Runtime),
    {
        let attribute_stores = match crate::attribute_store::load_attribute_stores(client) {
            Ok(v) => v,
            Err(e) => {
                return Err(e);
            },
        };
        let trend_stores = match crate::trend_store::load_trend_stores(client) {
            Ok(v) => v,
            Err(e) => {
                return Err(e);
            },
        };
        let notification_stores = match crate::notification_store::load_notification_stores(
            client,
        ) {
            Ok(v) => v,
            Err(e) => {
                return Err(e);
            },
        };
        let trend_materializations = match crate::trend_materialization::load_materializations(
            client,
        ) {
            Ok(v) => v,
            Err(e) => {
                return Err(e);
            },
        };
        Ok(
            MinervaInstance {
                instance_root: None,
                trend_stores,
                attribute_stores,
                notification_stores,
                relations: Vec::new(),
                trend_materializations,
                triggers: Vec::new(),
            },
        )
    }

    /// Creates everything this instance declares, one transaction per
    /// change; a failed change is reported and does not stop the rest.
    /// The report pairs each change's description with its outcome.
    pub fn initialize(&self, client: &mut postgres::Client) -> (r: Vec<
        (String, Result<String, crate::error::Error>),
    >)
        ensures
            r@.len() == spec_initialize_changes(self@).len(),
            forall|k: int|
                0 <= k < r@.len() ==> spec_report_entry_matches(
                    #[trigger] r@[k],
                    spec_initialize_changes(self@)[k],
                ),
    {
        let mut report = self.initialize_stores(client);
        let ghost head = report@;
        let mut rest = self.initialize_materializations(client);
        let ghost tail = rest@;
        report.append(&mut rest);
        proof {
            let cs = spec_initialize_changes(self@);
            let a = spec_initialize_stores_changes(self@);
            assert(report@ =~= head + tail);
            assert forall|k: int|
                0 <= k < report@.len() implies spec_report_entry_matches(
                #[trigger] report@[k],
                cs[k],
            ) by {
                if k < a.len() {
                    assert(report@[k] == head[k]);
                    assert(cs[k] == a[k]);
                } else {
                    assert(report@[k] == tail[k - a.len()]);
                    assert(cs[k] == spec_initialize_materializations_changes(self@)[k - a.len()]);
                }
            }
        }
        report
    }

    /// Creates the declared stores and relations: attribute stores, trend
    /// stores, notification stores, relations — everything that must
    /// exist before a materialization can refer to it. The report pairs
    /// every applied change's audit text, in order, with its outcome.
    pub fn initialize_stores(&self, client: &mut postgres::Client) -> (r: Vec<
        (String, Result<String, crate::error::Error>),
    >)
        ensures
            r@.len() == spec_initialize_stores_changes(self@).len(),
            forall|k: int|
                0 <= k < r@.len() ==> spec_report_entry_matches(
                    #[trigger] r@[k],
                    spec_initialize_stores_changes(self@)[k],
                ),
    {
        let ghost cs = spec_initialize_stores_changes(self@);
        let mut report: Vec<(String, Result<String, crate::error::Error>)> = Vec::new();
        let prelude = sequential_shard_prelude();
        let mut i: usize = 0;
        while i < self.attribute_stores.len()
            invariant
                0 <= i <= self.attribute_stores.len(),
                cs == spec_initialize_stores_changes(self@),
                self@.attribute_stores.len() == self.attribute_stores.len(),
                report@.len() == i,
                forall|k: int|
                    0 <= k < i ==> spec_report_entry_matches(#[trigger] report@[k], cs[k]),
            decreases self.attribute_stores.len() - i,
        {
            let ghost rep0 = report@;
            let change = Change::AddAttributeStore(
                AddAttributeStore { attribute_store: self.attribute_stores[i].clone() },
            );
            let outcome = change.apply_with_prelude(client, &prelude);
            report.push((change.describe(), outcome));
            proof {
                assert(cs[i as int] == ChangeView::AddAttributeStore(
                    (AddAttributeStoreView { attribute_store: self@.attribute_stores[i as int] }),
                ));
                assert(change@ == cs[i as int]);
                assert forall|k: int|
                    0 <= k < i + 1 implies spec_report_entry_matches(
                    #[trigger] report@[k],
                    cs[k],
                ) by {
                    if k < i {
                        assert(report@[k] == rep0[k]);
                    }
                }
            }
            i = i + 1;
        }
        let ghost base1: int = self@.attribute_stores.len() as int;
        let mut i: usize = 0;
        while i < self.trend_stores.len()
            invariant
                0 <= i <= self.trend_stores.len(),
                cs == spec_initialize_stores_changes(self@),
                base1 == self@.attribute_stores.len(),
                self@.trend_stores.len() == self.trend_stores.len(),
                report@.len() == base1 + i,
                forall|k: int|
                    0 <= k < report@.len() ==> spec_report_entry_matches(
                        #[trigger] report@[k],
                        cs[k],
                    ),
            decreases self.trend_stores.len() - i,
        {
            let ghost rep0 = report@;
            let change = Change::AddTrendStore(
                AddTrendStore { trend_store: self.trend_stores[i].clone() },
            );
            let outcome = change.apply_with_prelude(client, &prelude);
            report.push((change.describe(), outcome));
            proof {
                assert(cs[base1 + i] == ChangeView::AddTrendStore(
                    (AddTrendStoreView { trend_store: self@.trend_stores[i as int] }),
                ));
                assert(change@ == cs[base1 + i]);
                assert forall|k: int|
                    0 <= k < report@.len() implies spec_report_entry_matches(
                    #[trigger] report@[k],
                    cs[k],
                ) by {
                    if k < base1 + i {
                        assert(report@[k] == rep0[k]);
                    }
                }
            }
            i = i + 1;
        }
        let ghost base2: int = base1 + self@.trend_stores.len() as int;
        let mut i: usize = 0;
        while i < self.notification_stores.len()
            invariant
                0 <= i <= self.notification_stores.len(),
                cs == spec_initialize_stores_changes(self@),
                base2 == self@.attribute_stores.len() + self@.trend_stores.len(),
                self@.notification_stores.len() == self.notification_stores.len(),
                report@.len() == base2 + i,
                forall|k: int|
                    0 <= k < report@.len() ==> spec_report_entry_matches(
                        #[trigger] report@[k],
                        cs[k],
                    ),
            decreases self.notification_stores.len() - i,
        {
            let ghost rep0 = report@;
            let change = Change::AddNotificationStore(
                AddNotificationStore {
                    notification_store: self.notification_stores[i].clone(),
                },
            );
            let outcome = change.apply(client);
            report.push((change.describe(), outcome));
            proof {
                assert(cs[base2 + i] == ChangeView::AddNotificationStore(
                    (AddNotificationStoreView {
                        notification_store: self@.notification_stores[i as int],
                    }),
                ));
                assert(change@ == cs[base2 + i]);
                assert forall|k: int|
                    0 <= k < report@.len() implies spec_report_entry_matches(
                    #[trigger] report@[k],
                    cs[k],
                ) by {
                    if k < base2 + i {
                        assert(report@[k] == rep0[k]);
                    }
                }
            }
            i = i + 1;
        }
        let ghost base3: int = base2 + self@.notification_stores.len() as int;
        let mut i: usize = 0;
        while i < self.relations.len()
            invariant
                0 <= i <= self.relations.len(),
                cs == spec_initialize_stores_changes(self@),
                base3 == self@.attribute_stores.len() + self@.trend_stores.len()
                    + self@.notification_stores.len(),
                self@.relations.len() == self.relations.len(),
                report@.len() == base3 + i,
                forall|k: int|
                    0 <= k < report@.len() ==> spec_report_entry_matches(
                        #[trigger] report@[k],
                        cs[k],
                    ),
            decreases self.relations.len() - i,
        {
            let ghost rep0 = report@;
            let change = Change::AddRelation(
                AddRelation { relation: self.relations[i].clone() },
            );
            let outcome = change.apply(client);
            report.push((change.describe(), outcome));
            proof {
                assert(cs[base3 + i] == ChangeView::AddRelation(
                    (AddRelationView { relation: self@.relations[i as int] }),
                ));
                assert(change@ == cs[base3 + i]);
                assert forall|k: int|
                    0 <= k < report@.len() implies spec_report_entry_matches(
                    #[trigger] report@[k],
                    cs[k],
                ) by {
                    if k < base3 + i {
                        assert(report@[k] == rep0[k]);
                    }
                }
            }
            i = i + 1;
        }
        report
    }

    /// Registers the declared materializations; their stores must already
    /// exist. The report pairs every applied change's audit text, in
    /// order, with its outcome.
    pub fn initialize_materializations(&self, client: &mut postgres::Client) -> (r: Vec<
        (String, Result<String, crate::error::Error>),
    >)
        ensures
            r@.len() == spec_initialize_materializations_changes(self@).len(),
            forall|k: int|
                0 <= k < r@.len() ==> spec_report_entry_matches(
                    #[trigger] r@[k],
                    spec_initialize_materializations_changes(self@)[k],
                ),
    {
        let ghost cs = spec_initialize_materializations_changes(self@);
        let mut report: Vec<(String, Result<String, crate::error::Error>)> = Vec::new();
        let mut i: usize = 0;
        while i < self.trend_materializations.len()
            invariant
                0 <= i <= self.trend_materializations.len(),
                cs == spec_initialize_materializations_changes(self@),
                self@.trend_materializations.len() == self.trend_materializations.len(),
                report@.len() == i,
                forall|k: int|
                    0 <= k < i ==> spec_report_entry_matches(#[trigger] report@[k], cs[k]),
            decreases self.trend_materializations.len() - i,
        {
            let ghost rep0 = report@;
            let change = Change::AddTrendMaterialization(
                AddTrendMaterialization {
                    trend_materialization: self.trend_materializations[i].clone(),
                },
            );
            let outcome = change.apply(client);
            report.push((change.describe(), outcome));
            proof {
                assert(cs[i as int] == ChangeView::AddTrendMaterialization(
                    (AddTrendMaterializationView {
                        trend_materialization: self@.trend_materializations[i as int],
                    }),
                ));
                assert(change@ == cs[i as int]);
                assert forall|k: int|
                    0 <= k < i + 1 implies spec_report_entry_matches(
                    #[trigger] report@[k],
                    cs[k],
                ) by {
                    if k < i {
                        assert(report@[k] == rep0[k]);
                    }
                }
            }
            i = i + 1;
        }
        report
    }

    /// Brings the live schema up to the declared `other`: computes the
    /// diff, applies each change in its own transaction — a failure is
    /// reported and does not block unrelated changes — and then rebuilds
    /// every declared materialization, which has no incremental path.
    /// The report pairs every applied change's audit text, in order,
    /// with its outcome. The precondition mirrors `diff`'s; callers test
    /// it through `materializations_compatible` and report the switch as
    /// the runtime error `try_diff` gives.
    pub fn update(&self, client: &mut postgres::Client, other: &MinervaInstance) -> (r: Vec<
        (String, Result<String, crate::error::Error>),
    >)
        requires
            spec_materializations_compatible(
                self@.trend_materializations,
                other@.trend_materializations,
            ),
        ensures
            r@.len() == spec_update_changes(self@, other@).len(),
            forall|k: int|
                0 <= k < r@.len() ==> spec_report_entry_matches(
                    #[trigger] r@[k],
                    spec_update_changes(self@, other@)[k],
                ),
    {
        let ghost cs = spec_update_changes(self@, other@);
        let mut report: Vec<(String, Result<String, crate::error::Error>)> = Vec::new();
        let changes = self.diff(other);
        let ghost cdv = changes.deep_view();
        let mut i: usize = 0;
        while i < changes.len()
            invariant
                0 <= i <= changes.len(),
                cdv == changes.deep_view(),
                cdv == spec_instance_diff(self@, other@),
                cdv.len() == changes.len(),
                cs == spec_update_changes(self@, other@),
                cs.len() == cdv.len() + other@.trend_materializations.len(),
                report@.len() == i,
                forall|k: int|
                    0 <= k < i ==> spec_report_entry_matches(#[trigger] report@[k], cs[k]),
            decreases changes.len() - i,
        {
            let ghost rep0 = report@;
            let outcome = changes[i].apply(client);
            report.push((changes[i].describe(), outcome));
            proof {
                assert(cs[i as int] == cdv[i as int]);
                assert(spec_report_entry_matches(report@[i as int], cs[i as int]));
                assert forall|k: int|
                    0 <= k < i + 1 implies spec_report_entry_matches(
                    #[trigger] report@[k],
                    cs[k],
                ) by {
                    if k < i {
                        assert(report@[k] == rep0[k]);
                    }
                }
            }
            i = i + 1;
        }
        let ghost base: int = cdv.len() as int;
        let mut i: usize = 0;
        while i < other.trend_materializations.len()
            invariant
                0 <= i <= other.trend_materializations.len(),
                cdv == spec_instance_diff(self@, other@),
                base == cdv.len(),
                cs == spec_update_changes(self@, other@),
                cs.len() == base + other@.trend_materializations.len(),
                other@.trend_materializations.len() == other.trend_materializations.len(),
                report@.len() == base + i,
                forall|k: int|
                    0 <= k < report@.len() ==> spec_report_entry_matches(
                        #[trigger] report@[k],
                        cs[k],
                    ),
            decreases other.trend_materializations.len() - i,
        {
            let ghost rep0 = report@;
            let change = Change::UpdateTrendMaterialization(
                UpdateTrendMaterialization {
                    trend_materialization: other.trend_materializations[i].clone(),
                },
            );
            let outcome = change.apply(client);
            report.push((change.describe(), outcome));
            proof {
                assert(cs[base + i] == ChangeView::UpdateTrendMaterialization(
                    (UpdateTrendMaterializationView {
                        trend_materialization: other@.trend_materializations[i as int],
                    }),
                ));
                assert(change@ == cs[base + i]);
                assert(spec_report_entry_matches(report@[base + i], cs[base + i]));
                assert forall|k: int|
                    0 <= k < report@.len() implies spec_report_entry_matches(
                    #[trigger] report@[k],
                    cs[k],
                ) by {
                    if k < base + i {
                        assert(report@[k] == rep0[k]);
                    }
                }
            }
            i = i + 1;
        }
        report
    }
}

} // verus!
