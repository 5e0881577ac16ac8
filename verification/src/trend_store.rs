//! Trend stores: same-granularity groupings of time-series columns
//! ("trends") for one entity type and data source. A store owns parts;
//! a part owns trends and generated trends. Identity keys are the
//! (data source, entity type, granularity) triple for a store, and the
//! name for parts and trends.

use vstd::prelude::*;

verus! {

use crate::text::{
    str_eq, u64_to_string, spec_dec_digits, sql_literal, sql_ident, spec_sql_literal_plain,
    spec_sql_ident,
};
use vstd::pervasive::cloned;
use crate::interval::{
    spec_interval_compact, interval_compact_text, spec_interval_sql, interval_sql_text,
};
use crate::change::ChangeView;
use crate::error::{Error, RuntimeError};
use crate::text::i64_to_string;
use crate::pg;
use vstd::string::StringExecFns;

/// A time-series column.
pub struct Trend {
    pub name: String,
    pub data_type: String,
    pub description: String,
    pub time_aggregation: String,
    pub entity_aggregation: String,
    pub extra_data: String,
}

/// The mathematical shape of a trend.
pub ghost struct TrendView {
    pub name: Seq<char>,
    pub data_type: Seq<char>,
    pub description: Seq<char>,
    pub time_aggregation: Seq<char>,
    pub entity_aggregation: Seq<char>,
    pub extra_data: Seq<char>,
}

impl View for Trend {
    type V = TrendView;

    open spec fn view(&self) -> TrendView {
        TrendView {
            name: self.name@,
            data_type: self.data_type@,
            description: self.description@,
            time_aggregation: self.time_aggregation@,
            entity_aggregation: self.entity_aggregation@,
            extra_data: self.extra_data@,
        }
    }
}

impl DeepView for Trend {
    type V = TrendView;

    open spec fn deep_view(&self) -> TrendView {
        self.view()
    }
}

impl Clone for Trend {
    fn clone(&self) -> (r: Self)
        ensures
            r == *self,
    {
        Trend {
            name: self.name.clone(),
            data_type: self.data_type.clone(),
            description: self.description.clone(),
            time_aggregation: self.time_aggregation.clone(),
            entity_aggregation: self.entity_aggregation.clone(),
            extra_data: self.extra_data.clone(),
        }
    }
}

/// A column computed from other trends, never diffed on its own.
pub struct GeneratedTrend {
    pub name: String,
    pub data_type: String,
    pub description: String,
    pub expression: String,
    pub extra_data: String,
}

/// The mathematical shape of a generated trend.
pub ghost struct GeneratedTrendView {
    pub name: Seq<char>,
    pub data_type: Seq<char>,
    pub description: Seq<char>,
    pub expression: Seq<char>,
    pub extra_data: Seq<char>,
}

impl View for GeneratedTrend {
    type V = GeneratedTrendView;

    open spec fn view(&self) -> GeneratedTrendView {
        GeneratedTrendView {
            name: self.name@,
            data_type: self.data_type@,
            description: self.description@,
            expression: self.expression@,
            extra_data: self.extra_data@,
        }
    }
}

impl DeepView for GeneratedTrend {
    type V = GeneratedTrendView;

    open spec fn deep_view(&self) -> GeneratedTrendView {
        self.view()
    }
}

impl Clone for GeneratedTrend {
    fn clone(&self) -> (r: Self)
        ensures
            r == *self,
    {
        GeneratedTrend {
            name: self.name.clone(),
            data_type: self.data_type.clone(),
            description: self.description.clone(),
            expression: self.expression.clone(),
            extra_data: self.extra_data.clone(),
        }
    }
}

/// One physical table family of a trend store.
pub struct TrendStorePart {
    pub name: String,
    pub trends: Vec<Trend>,
    pub generated_trends: Vec<GeneratedTrend>,
}

/// The mathematical shape of a trend store part.
pub ghost struct TrendStorePartView {
    pub name: Seq<char>,
    pub trends: Seq<TrendView>,
    pub generated_trends: Seq<GeneratedTrendView>,
}

impl View for TrendStorePart {
    type V = TrendStorePartView;

    open spec fn view(&self) -> TrendStorePartView {
        TrendStorePartView {
            name: self.name@,
            trends: self.trends.deep_view(),
            generated_trends: self.generated_trends.deep_view(),
        }
    }
}

impl DeepView for TrendStorePart {
    type V = TrendStorePartView;

    open spec fn deep_view(&self) -> TrendStorePartView {
        self.view()
    }
}

impl Clone for TrendStorePart {
    fn clone(&self) -> (r: Self)
        ensures
            r@ == self@,
    {
        let r = TrendStorePart {
            name: self.name.clone(),
            trends: self.trends.clone(),
            generated_trends: self.generated_trends.clone(),
        };
        proof {
            assert forall|i: int| 0 <= i < self.trends@.len() implies r.trends.deep_view()[i]
                == self.trends.deep_view()[i] by {
                assert(cloned::<Trend>(self.trends[i], r.trends[i]));
            }
            assert(r.trends.deep_view() =~= self.trends.deep_view());
            assert forall|i: int|
                0 <= i < self.generated_trends@.len() implies r.generated_trends.deep_view()[i]
                == self.generated_trends.deep_view()[i] by {
                assert(cloned::<GeneratedTrend>(self.generated_trends[i], r.generated_trends[i]));
            }
            assert(r.generated_trends.deep_view() =~= self.generated_trends.deep_view());
        }
        r
    }
}

/// A trend store: granularity and partition size are whole seconds.
pub struct TrendStore {
    pub data_source: String,
    pub entity_type: String,
    pub granularity: u64,
    pub partition_size: u64,
    pub parts: Vec<TrendStorePart>,
}

/// The mathematical shape of a trend store.
pub ghost struct TrendStoreView {
    pub data_source: Seq<char>,
    pub entity_type: Seq<char>,
    pub granularity: int,
    pub partition_size: int,
    pub parts: Seq<TrendStorePartView>,
}

impl View for TrendStore {
    type V = TrendStoreView;

    open spec fn view(&self) -> TrendStoreView {
        TrendStoreView {
            data_source: self.data_source@,
            entity_type: self.entity_type@,
            granularity: self.granularity as int,
            partition_size: self.partition_size as int,
            parts: self.parts.deep_view(),
        }
    }
}

impl DeepView for TrendStore {
    type V = TrendStoreView;

    open spec fn deep_view(&self) -> TrendStoreView {
        self.view()
    }
}

impl Clone for TrendStore {
    fn clone(&self) -> (r: Self)
        ensures
            r@ == self@,
    {
        let r = TrendStore {
            data_source: self.data_source.clone(),
            entity_type: self.entity_type.clone(),
            granularity: self.granularity,
            partition_size: self.partition_size,
            parts: self.parts.clone(),
        };
        proof {
            assert forall|i: int| 0 <= i < self.parts@.len() implies r.parts.deep_view()[i]
                == self.parts.deep_view()[i] by {
                assert(cloned::<TrendStorePart>(self.parts[i], r.parts[i]));
            }
            assert(r.parts.deep_view() =~= self.parts.deep_view());
        }
        r
    }
}

/// Trend names are an identity key: unique within their part.
pub open spec fn spec_unique_trend_names(ts: Seq<TrendView>) -> bool {
    forall|i: int, j: int| 0 <= i < j < ts.len() ==> ts[i].name != ts[j].name
}

/// Part names are an identity key: unique within their store.
pub open spec fn spec_unique_part_names(ps: Seq<TrendStorePartView>) -> bool {
    forall|i: int, j: int| 0 <= i < j < ps.len() ==> ps[i].name != ps[j].name
}

/// A well-formed part: its trend names are unique.
pub open spec fn spec_wf_part(p: TrendStorePartView) -> bool {
    spec_unique_trend_names(p.trends)
}

/// A well-formed store: its part names are unique and each part is
/// well-formed.
pub open spec fn spec_wf_store(s: TrendStoreView) -> bool {
    &&& spec_unique_part_names(s.parts)
    &&& forall|i: int| 0 <= i < s.parts.len() ==> spec_wf_part(#[trigger] s.parts[i])
}

/// The first trend carrying `name`, scanning from the front.
pub open spec fn spec_find_trend(ts: Seq<TrendView>, name: Seq<char>) -> Option<TrendView>
    decreases ts.len(),
{
    if ts.len() == 0 {
        None
    } else if ts.first().name == name {
        Some(ts.first())
    } else {
        spec_find_trend(ts.drop_first(), name)
    }
}

/// Looks a trend up by name; the result is the first index whose trend
/// carries the name.
pub fn find_trend(trends: &Vec<Trend>, name: &str) -> (r: Option<usize>)
    ensures
        match spec_find_trend(trends.deep_view(), name@) {
            Option::None => r is None,
            Option::Some(t) => r matches Some(i) && i < trends.len() && trends.deep_view()[i as int]
                == t,
        },
{
    let ghost dv = trends.deep_view();
    let mut i: usize = 0;
    proof {
        assert(dv.skip(0) =~= dv);
    }
    while i < trends.len()
        invariant
            0 <= i <= trends.len(),
            dv == trends.deep_view(),
            dv.len() == trends.len(),
            spec_find_trend(dv, name@) == spec_find_trend(dv.skip(i as int), name@),
        decreases trends.len() - i,
    {
        let ghost rest = dv.skip(i as int);
        if str_eq(trends[i].name.as_str(), name) {
            proof {
                assert(rest.first() == dv[i as int]);
            }
            return Some(i);
        }
        proof {
            assert(rest.first() == dv[i as int]);
            assert(rest.drop_first() =~= dv.skip(i + 1));
        }
        i = i + 1;
    }
    proof {
        assert(dv.skip(trends.len() as int) =~= Seq::<TrendView>::empty());
    }
    None
}

/// Every trend's own name is found.
pub proof fn lemma_find_trend_member(ts: Seq<TrendView>, i: int)
    requires
        0 <= i < ts.len(),
    ensures
        spec_find_trend(ts, ts[i].name) is Some,
    decreases ts.len(),
{
    if ts.first().name != ts[i].name {
        lemma_find_trend_member(ts.drop_first(), i - 1);
    }
}

/// The display text of a trend.
pub open spec fn spec_trend_text(t: TrendView) -> Seq<char> {
    "Trend("@ + t.name + ", "@ + t.data_type + ")"@
}

impl Trend {
    /// Renders this trend for audit messages.
    pub fn describe(&self) -> (r: String)
        ensures
            r@ == spec_trend_text(self@),
    {
        let mut r = "Trend(".to_owned();
        r.append(self.name.as_str());
        r.append(", ");
        r.append(self.data_type.as_str());
        r.append(")");
        r
    }
}

/// The display text of a trend store part.
pub open spec fn spec_part_text(p: TrendStorePartView) -> Seq<char> {
    "TrendStorePart("@ + p.name + ")"@
}

impl TrendStorePart {
    /// Renders this part for audit messages.
    pub fn describe(&self) -> (r: String)
        ensures
            r@ == spec_part_text(self@),
    {
        let mut r = "TrendStorePart(".to_owned();
        r.append(self.name.as_str());
        r.append(")");
        r
    }
}

/// The display text of a trend store: its identity key, with the
/// granularity written compactly.
pub open spec fn spec_store_text(s: TrendStoreView) -> Seq<char> {
    "TrendStore("@ + s.data_source + ", "@ + s.entity_type + ", "@ + spec_interval_compact(
        s.granularity,
    ) + ")"@
}

impl TrendStore {
    /// Renders this store for audit messages.
    pub fn describe(&self) -> (r: String)
        ensures
            r@ == spec_store_text(self@),
    {
        let mut r = "TrendStore(".to_owned();
        r.append(self.data_source.as_str());
        r.append(", ");
        r.append(self.entity_type.as_str());
        r.append(", ");
        let g = interval_compact_text(self.granularity);
        r.append(g.as_str());
        r.append(")");
        r
    }
}

/// Adds newly declared trends to an existing part, batched into one
/// operation.
pub struct AddTrends {
    pub trend_store_part: TrendStorePart,
    pub trends: Vec<Trend>,
}

/// The mathematical shape of an `AddTrends` change.
pub ghost struct AddTrendsView {
    pub trend_store_part: TrendStorePartView,
    pub trends: Seq<TrendView>,
}

impl View for AddTrends {
    type V = AddTrendsView;

    open spec fn view(&self) -> AddTrendsView {
        AddTrendsView {
            trend_store_part: self.trend_store_part@,
            trends: self.trends.deep_view(),
        }
    }
}

/// The display text of an `AddTrends` change.
pub open spec fn spec_add_trends_text(c: AddTrendsView) -> Seq<char> {
    "AddTrends("@ + spec_part_text(c.trend_store_part) + ", "@ + spec_dec_digits(
        c.trends.len() as int,
    ) + ")"@
}

impl AddTrends {
    /// Renders this change for audit messages.
    pub fn describe(&self) -> (r: String)
        ensures
            r@ == spec_add_trends_text(self@),
    {
        let mut r = "AddTrends(".to_owned();
        let p = self.trend_store_part.describe();
        r.append(p.as_str());
        r.append(", ");
        let n = u64_to_string(self.trends.len() as u64);
        r.append(n.as_str());
        r.append(")");
        r
    }
}

/// One trend whose data type must change.
pub struct ModifyTrendDataType {
    pub trend_name: String,
    pub from_type: String,
    pub to_type: String,
}

/// The mathematical shape of one data type modification.
pub ghost struct ModifyTrendDataTypeView {
    pub trend_name: Seq<char>,
    pub from_type: Seq<char>,
    pub to_type: Seq<char>,
}

impl View for ModifyTrendDataType {
    type V = ModifyTrendDataTypeView;

    open spec fn view(&self) -> ModifyTrendDataTypeView {
        ModifyTrendDataTypeView {
            trend_name: self.trend_name@,
            from_type: self.from_type@,
            to_type: self.to_type@,
        }
    }
}

impl DeepView for ModifyTrendDataType {
    type V = ModifyTrendDataTypeView;

    open spec fn deep_view(&self) -> ModifyTrendDataTypeView {
        self.view()
    }
}

/// The display text of one modification.
pub open spec fn spec_modify_text(m: ModifyTrendDataTypeView) -> Seq<char> {
    "Trend("@ + m.trend_name + ", "@ + m.from_type + "->"@ + m.to_type + ")"@
}

impl ModifyTrendDataType {
    /// Renders this modification for audit messages.
    pub fn describe(&self) -> (r: String)
        ensures
            r@ == spec_modify_text(self@),
    {
        let mut r = "Trend(".to_owned();
        r.append(self.trend_name.as_str());
        r.append(", ");
        r.append(self.from_type.as_str());
        r.append("->");
        r.append(self.to_type.as_str());
        r.append(")");
        r
    }
}

/// The data type changes of one part, grouped into a single operation
/// because altering a column type takes an exclusive table lock.
pub struct ModifyTrendDataTypes {
    pub trend_store_part: TrendStorePart,
    pub modifications: Vec<ModifyTrendDataType>,
}

/// The mathematical shape of a `ModifyTrendDataTypes` change.
pub ghost struct ModifyTrendDataTypesView {
    pub trend_store_part: TrendStorePartView,
    pub modifications: Seq<ModifyTrendDataTypeView>,
}

impl View for ModifyTrendDataTypes {
    type V = ModifyTrendDataTypesView;

    open spec fn view(&self) -> ModifyTrendDataTypesView {
        ModifyTrendDataTypesView {
            trend_store_part: self.trend_store_part@,
            modifications: self.modifications.deep_view(),
        }
    }
}

/// The modification texts joined with commas.
pub open spec fn spec_modifications_text(ms: Seq<ModifyTrendDataTypeView>) -> Seq<char>
    decreases ms.len(),
{
    if ms.len() == 0 {
        Seq::empty()
    } else if ms.len() == 1 {
        spec_modify_text(ms[0])
    } else {
        spec_modifications_text(ms.drop_last()) + ","@ + spec_modify_text(ms.last())
    }
}

/// The display text of a `ModifyTrendDataTypes` change.
pub open spec fn spec_modify_trend_data_types_text(c: ModifyTrendDataTypesView) -> Seq<char> {
    "ModifyTrendDataTypes("@ + spec_part_text(c.trend_store_part) + ", "@
        + spec_modifications_text(c.modifications) + ")"@
}

impl ModifyTrendDataTypes {
    /// Renders this change for audit messages.
    pub fn describe(&self) -> (r: String)
        ensures
            r@ == spec_modify_trend_data_types_text(self@),
    {
        let ghost mdv = self.modifications.deep_view();
        let mut r = "ModifyTrendDataTypes(".to_owned();
        let p = self.trend_store_part.describe();
        r.append(p.as_str());
        r.append(", ");
        let mut i: usize = 0;
        let mut mods = String::new();
        proof {
            assert(mdv.take(0) =~= Seq::<ModifyTrendDataTypeView>::empty());
        }
        while i < self.modifications.len()
            invariant
                0 <= i <= self.modifications.len(),
                mdv == self.modifications.deep_view(),
                mdv.len() == self.modifications.len(),
                mods@ == spec_modifications_text(mdv.take(i as int)),
            decreases self.modifications.len() - i,
        {
            if i > 0 {
                mods.append(",");
            }
            let m = self.modifications[i].describe();
            mods.append(m.as_str());
            proof {
                assert(mdv.take(i + 1).drop_last() =~= mdv.take(i as int));
                assert(mdv.take(i + 1).last() == mdv[i as int]);
            }
            i = i + 1;
        }
        proof {
            assert(mdv.take(self.modifications.len() as int) =~= mdv);
        }
        r.append(mods.as_str());
        r.append(")");
        r
    }
}

/// Adds a newly declared part to an existing trend store.
pub struct AddTrendStorePart {
    pub trend_store: TrendStore,
    pub trend_store_part: TrendStorePart,
}

/// The mathematical shape of an `AddTrendStorePart` change.
pub ghost struct AddTrendStorePartView {
    pub trend_store: TrendStoreView,
    pub trend_store_part: TrendStorePartView,
}

impl View for AddTrendStorePart {
    type V = AddTrendStorePartView;

    open spec fn view(&self) -> AddTrendStorePartView {
        AddTrendStorePartView {
            trend_store: self.trend_store@,
            trend_store_part: self.trend_store_part@,
        }
    }
}

/// The display text of an `AddTrendStorePart` change.
pub open spec fn spec_add_part_text(c: AddTrendStorePartView) -> Seq<char> {
    "AddTrendStorePart("@ + spec_store_text(c.trend_store) + ", "@ + spec_part_text(
        c.trend_store_part,
    ) + ")"@
}

impl AddTrendStorePart {
    /// Renders this change for audit messages.
    pub fn describe(&self) -> (r: String)
        ensures
            r@ == spec_add_part_text(self@),
    {
        let mut r = "AddTrendStorePart(".to_owned();
        let s = self.trend_store.describe();
        r.append(s.as_str());
        r.append(", ");
        let p = self.trend_store_part.describe();
        r.append(p.as_str());
        r.append(")");
        r
    }
}

/// Creates a whole trend store with all its declared parts.
pub struct AddTrendStore {
    pub trend_store: TrendStore,
}

/// The mathematical shape of an `AddTrendStore` change.
pub ghost struct AddTrendStoreView {
    pub trend_store: TrendStoreView,
}

impl View for AddTrendStore {
    type V = AddTrendStoreView;

    open spec fn view(&self) -> AddTrendStoreView {
        AddTrendStoreView { trend_store: self.trend_store@ }
    }
}

/// The display text of an `AddTrendStore` change.
pub open spec fn spec_add_store_text(c: AddTrendStoreView) -> Seq<char> {
    "AddTrendStore("@ + spec_store_text(c.trend_store) + ")"@
}

impl AddTrendStore {
    /// Renders this change for audit messages.
    pub fn describe(&self) -> (r: String)
        ensures
            r@ == spec_add_store_text(self@),
    {
        let mut r = "AddTrendStore(".to_owned();
        let s = self.trend_store.describe();
        r.append(s.as_str());
        r.append(")");
        r
    }
}

/// With unique names, looking a trend's own name up gives that trend.
pub proof fn lemma_find_trend_unique(ts: Seq<TrendView>, i: int)
    requires
        0 <= i < ts.len(),
        spec_unique_trend_names(ts),
    ensures
        spec_find_trend(ts, ts[i].name) == Some(ts[i]),
    decreases ts.len(),
{
    if i > 0 {
        assert(ts.first().name != ts[i].name);
        assert(spec_unique_trend_names(ts.drop_first())) by {
            assert(forall|a: int, b: int|
                0 <= a < b < ts.drop_first().len() ==> ts.drop_first()[a] == ts[a + 1]
                    && ts.drop_first()[b] == ts[b + 1]);
        }
        lemma_find_trend_unique(ts.drop_first(), i - 1);
    }
}


/// The first part carrying `name`, scanning from the front.
pub open spec fn spec_find_part(ps: Seq<TrendStorePartView>, name: Seq<char>) -> Option<
    TrendStorePartView,
>
    decreases ps.len(),
{
    if ps.len() == 0 {
        None
    } else if ps.first().name == name {
        Some(ps.first())
    } else {
        spec_find_part(ps.drop_first(), name)
    }
}

/// Looks a part up by name.
pub fn find_part(parts: &Vec<TrendStorePart>, name: &str) -> (r: Option<usize>)
    ensures
        match spec_find_part(parts.deep_view(), name@) {
            Option::None => r is None,
            Option::Some(p) => r matches Some(i) && i < parts.len() && parts.deep_view()[i as int]
                == p,
        },
{
    let ghost dv = parts.deep_view();
    let mut i: usize = 0;
    proof {
        assert(dv.skip(0) =~= dv);
    }
    while i < parts.len()
        invariant
            0 <= i <= parts.len(),
            dv == parts.deep_view(),
            dv.len() == parts.len(),
            spec_find_part(dv, name@) == spec_find_part(dv.skip(i as int), name@),
        decreases parts.len() - i,
    {
        let ghost rest = dv.skip(i as int);
        if str_eq(parts[i].name.as_str(), name) {
            proof {
                assert(rest.first() == dv[i as int]);
            }
            return Some(i);
        }
        proof {
            assert(rest.first() == dv[i as int]);
            assert(rest.drop_first() =~= dv.skip(i + 1));
        }
        i = i + 1;
    }
    proof {
        assert(dv.skip(parts.len() as int) =~= Seq::<TrendStorePartView>::empty());
    }
    None
}

/// Every part's own name is found.
pub proof fn lemma_find_part_member(ps: Seq<TrendStorePartView>, i: int)
    requires
        0 <= i < ps.len(),
    ensures
        spec_find_part(ps, ps[i].name) is Some,
    decreases ps.len(),
{
    if ps.first().name != ps[i].name {
        lemma_find_part_member(ps.drop_first(), i - 1);
    }
}

/// With unique names, looking a part's own name up gives that part.
pub proof fn lemma_find_part_unique(ps: Seq<TrendStorePartView>, i: int)
    requires
        0 <= i < ps.len(),
        spec_unique_part_names(ps),
    ensures
        spec_find_part(ps, ps[i].name) == Some(ps[i]),
    decreases ps.len(),
{
    if i > 0 {
        assert(ps.first().name != ps[i].name);
        assert(spec_unique_part_names(ps.drop_first())) by {
            assert(forall|a: int, b: int|
                0 <= a < b < ps.drop_first().len() ==> ps.drop_first()[a] == ps[a + 1]
                    && ps.drop_first()[b] == ps[b + 1]);
        }
        lemma_find_part_unique(ps.drop_first(), i - 1);
    }
}

/// The trends of `other` whose names `mine` does not know, in the order
/// `other` declares them.
pub open spec fn spec_new_trends(mine: Seq<TrendView>, other: Seq<TrendView>) -> Seq<TrendView>
    decreases other.len(),
{
    if other.len() == 0 {
        Seq::empty()
    } else {
        spec_new_trends(mine, other.drop_last()) + (if spec_find_trend(
            mine,
            other.last().name,
        ) is None {
            seq![other.last()]
        } else {
            Seq::empty()
        })
    }
}

/// The data type modifications between matched trends: for every trend of
/// `other` whose name `mine` knows under a different data type, one
/// modification from the known type to the declared one.
pub open spec fn spec_data_type_mods(mine: Seq<TrendView>, other: Seq<TrendView>) -> Seq<
    ModifyTrendDataTypeView,
>
    decreases other.len(),
{
    if other.len() == 0 {
        Seq::empty()
    } else {
        spec_data_type_mods(mine, other.drop_last()) + (match spec_find_trend(
            mine,
            other.last().name,
        ) {
            Option::Some(t) => if t.data_type != other.last().data_type {
                seq![
                    ModifyTrendDataTypeView {
                        trend_name: t.name,
                        from_type: t.data_type,
                        to_type: other.last().data_type,
                    },
                ]
            } else {
                Seq::empty()
            },
            Option::None => Seq::empty(),
        })
    }
}

/// The change list between two same-named parts: newly declared trends
/// batched into one `AddTrends`, then all data type changes batched into
/// one `ModifyTrendDataTypes`. A part with nothing new and nothing
/// changed produces no change at all.
///
/// A trend present here but absent from `other` yields no removal:
/// attribute stores remove, trend store parts do not, and whether that
/// asymmetry is policy or an omission is an open question — so it is kept
/// as it stands rather than guessed at.
pub open spec fn spec_part_diff(mine: TrendStorePartView, other: TrendStorePartView) -> Seq<
    ChangeView,
> {
    let new_trends = spec_new_trends(mine.trends, other.trends);
    let mods = spec_data_type_mods(mine.trends, other.trends);
    (if new_trends.len() > 0 {
        seq![
            ChangeView::AddTrends(
                AddTrendsView { trend_store_part: mine, trends: new_trends },
            ),
        ]
    } else {
        Seq::empty()
    }) + (if mods.len() > 0 {
        seq![
            ChangeView::ModifyTrendDataTypes(
                ModifyTrendDataTypesView { trend_store_part: mine, modifications: mods },
            ),
        ]
    } else {
        Seq::empty()
    })
}

impl TrendStorePart {
    /// Compares this part against a declared `other` of the same name and
    /// emits the ordered change list: additions before modifications.
    pub fn diff(&self, other: &TrendStorePart) -> (r: Vec<crate::change::Change>)
        ensures
            r.deep_view() == spec_part_diff(self@, other@),
    {
        let ghost mdv = self.trends.deep_view();
        let ghost odv = other.trends.deep_view();
        let mut new_trends: Vec<Trend> = Vec::new();
        let mut alter: Vec<ModifyTrendDataType> = Vec::new();
        let mut i: usize = 0;
        proof {
            assert(odv.take(0) =~= Seq::<TrendView>::empty());
            assert(new_trends.deep_view() =~= Seq::<TrendView>::empty());
            assert(alter.deep_view() =~= Seq::<ModifyTrendDataTypeView>::empty());
        }
        while i < other.trends.len()
            invariant
                0 <= i <= other.trends.len(),
                mdv == self.trends.deep_view(),
                odv == other.trends.deep_view(),
                odv.len() == other.trends.len(),
                new_trends.deep_view() == spec_new_trends(mdv, odv.take(i as int)),
                alter.deep_view() == spec_data_type_mods(mdv, odv.take(i as int)),
            decreases other.trends.len() - i,
        {
            let ghost nt0 = new_trends.deep_view();
            let ghost al0 = alter.deep_view();
            proof {
                assert(odv.take(i + 1).drop_last() =~= odv.take(i as int));
                assert(odv.take(i + 1).last() == odv[i as int]);
            }
            match find_trend(&self.trends, other.trends[i].name.as_str()) {
                Option::Some(idx) => {
                    if !str_eq(
                        self.trends[idx].data_type.as_str(),
                        other.trends[i].data_type.as_str(),
                    ) {
                        alter.push(
                            ModifyTrendDataType {
                                trend_name: self.trends[idx].name.clone(),
                                from_type: self.trends[idx].data_type.clone(),
                                to_type: other.trends[i].data_type.clone(),
                            },
                        );
                        proof {
                            let t = spec_find_trend(mdv, odv[i as int].name)->0;
                            assert(alter.deep_view() =~= al0.push(
                                ModifyTrendDataTypeView {
                                    trend_name: t.name,
                                    from_type: t.data_type,
                                    to_type: odv[i as int].data_type,
                                },
                            ));
                            assert(alter.deep_view() =~= spec_data_type_mods(
                                mdv,
                                odv.take(i + 1),
                            ));
                            assert(new_trends.deep_view() =~= spec_new_trends(
                                mdv,
                                odv.take(i + 1),
                            ));
                        }
                    } else {
                        proof {
                            assert(alter.deep_view() =~= spec_data_type_mods(
                                mdv,
                                odv.take(i + 1),
                            ));
                            assert(new_trends.deep_view() =~= spec_new_trends(
                                mdv,
                                odv.take(i + 1),
                            ));
                        }
                    }
                },
                Option::None => {
                    new_trends.push(other.trends[i].clone());
                    proof {
                        assert(new_trends.deep_view() =~= nt0.push(odv[i as int]));
                        assert(new_trends.deep_view() =~= spec_new_trends(mdv, odv.take(i + 1)));
                        assert(alter.deep_view() =~= spec_data_type_mods(mdv, odv.take(i + 1)));
                    }
                },
            }
            i = i + 1;
        }
        proof {
            assert(odv.take(other.trends.len() as int) =~= odv);
        }
        let mut changes: Vec<crate::change::Change> = Vec::new();
        let ghost adds = spec_new_trends(mdv, odv);
        let ghost mods = spec_data_type_mods(mdv, odv);
        if new_trends.len() > 0 {
            changes.push(
                crate::change::Change::AddTrends(
                    AddTrends { trend_store_part: self.clone(), trends: new_trends },
                ),
            );
        }
        if alter.len() > 0 {
            changes.push(
                crate::change::Change::ModifyTrendDataTypes(
                    ModifyTrendDataTypes { trend_store_part: self.clone(), modifications: alter },
                ),
            );
        }
        proof {
            assert(changes.deep_view() =~= spec_part_diff(self@, other@));
        }
        changes
    }
}

/// The change list between two stores of the same identity: for every
/// declared part, either the part diff of its database twin or, when the
/// twin is missing, an `AddTrendStorePart`.
pub open spec fn spec_store_diff_parts(
    mine: TrendStoreView,
    others: Seq<TrendStorePartView>,
) -> Seq<ChangeView>
    decreases others.len(),
{
    if others.len() == 0 {
        Seq::empty()
    } else {
        spec_store_diff_parts(mine, others.drop_last()) + (match spec_find_part(
            mine.parts,
            others.last().name,
        ) {
            Option::Some(p) => spec_part_diff(p, others.last()),
            Option::None => seq![
                ChangeView::AddTrendStorePart(
                    AddTrendStorePartView { trend_store: mine, trend_store_part: others.last() },
                ),
            ],
        })
    }
}

/// The change list between two stores of the same identity key.
pub open spec fn spec_store_diff(mine: TrendStoreView, other: TrendStoreView) -> Seq<ChangeView> {
    spec_store_diff_parts(mine, other.parts)
}

impl TrendStore {
    /// Compares this store against a declared `other` of the same identity
    /// and emits the ordered change list, part by part.
    pub fn diff(&self, other: &TrendStore) -> (r: Vec<crate::change::Change>)
        ensures
            r.deep_view() == spec_store_diff(self@, other@),
    {
        let ghost pdv = other.parts.deep_view();
        let mut changes: Vec<crate::change::Change> = Vec::new();
        let mut i: usize = 0;
        proof {
            assert(pdv.take(0) =~= Seq::<TrendStorePartView>::empty());
            assert(changes.deep_view() =~= Seq::<ChangeView>::empty());
        }
        while i < other.parts.len()
            invariant
                0 <= i <= other.parts.len(),
                pdv == other.parts.deep_view(),
                pdv.len() == other.parts.len(),
                changes.deep_view() == spec_store_diff_parts(self@, pdv.take(i as int)),
            decreases other.parts.len() - i,
        {
            let ghost ch0 = changes.deep_view();
            proof {
                assert(pdv.take(i + 1).drop_last() =~= pdv.take(i as int));
                assert(pdv.take(i + 1).last() == pdv[i as int]);
            }
            match find_part(&self.parts, other.parts[i].name.as_str()) {
                Option::Some(idx) => {
                    let mut part_changes = self.parts[idx].diff(&other.parts[i]);
                    let ghost pcd = part_changes.deep_view();
                    changes.append(&mut part_changes);
                    proof {
                        assert(changes.deep_view() =~= ch0 + pcd);
                        assert(changes.deep_view() =~= spec_store_diff_parts(
                            self@,
                            pdv.take(i + 1),
                        ));
                    }
                },
                Option::None => {
                    changes.push(
                        crate::change::Change::AddTrendStorePart(
                            AddTrendStorePart {
                                trend_store: self.clone(),
                                trend_store_part: other.parts[i].clone(),
                            },
                        ),
                    );
                    proof {
                        assert(changes.deep_view() =~= ch0.push(
                            ChangeView::AddTrendStorePart(
                                AddTrendStorePartView {
                                    trend_store: self@,
                                    trend_store_part: pdv[i as int],
                                },
                            ),
                        ));
                        assert(changes.deep_view() =~= spec_store_diff_parts(
                            self@,
                            pdv.take(i + 1),
                        ));
                    }
                },
            }
            i = i + 1;
        }
        proof {
            assert(pdv.take(other.parts.len() as int) =~= pdv);
        }
        changes
    }
}

/// When `mine` knows every name of `other`, nothing counts as new.
pub proof fn lemma_new_trends_all_known(mine: Seq<TrendView>, other: Seq<TrendView>)
    requires
        forall|k: int|
            0 <= k < other.len() ==> spec_find_trend(mine, #[trigger] other[k].name) is Some,
    ensures
        spec_new_trends(mine, other) == Seq::<TrendView>::empty(),
    decreases other.len(),
{
    if other.len() > 0 {
        assert(forall|k: int|
            0 <= k < other.drop_last().len() ==> other.drop_last()[k] == other[k]);
        lemma_new_trends_all_known(mine, other.drop_last());
        assert(spec_new_trends(mine, other) =~= Seq::<TrendView>::empty());
    }
}

/// When every matched trend keeps its data type, nothing counts as
/// modified.
pub proof fn lemma_mods_none_when_types_match(mine: Seq<TrendView>, other: Seq<TrendView>)
    requires
        forall|k: int|
            0 <= k < other.len() ==> match spec_find_trend(mine, #[trigger] other[k].name) {
                Option::Some(t) => t.data_type == other[k].data_type,
                Option::None => true,
            },
    ensures
        spec_data_type_mods(mine, other) == Seq::<ModifyTrendDataTypeView>::empty(),
    decreases other.len(),
{
    if other.len() > 0 {
        assert(forall|k: int|
            0 <= k < other.drop_last().len() ==> other.drop_last()[k] == other[k]);
        lemma_mods_none_when_types_match(mine, other.drop_last());
        assert(spec_data_type_mods(mine, other) =~= Seq::<ModifyTrendDataTypeView>::empty());
    }
}

/// Diff idempotence at part level: a well-formed part diffed against
/// itself yields no change.
pub proof fn lemma_part_diff_idempotent(p: TrendStorePartView)
    requires
        spec_wf_part(p),
    ensures
        spec_part_diff(p, p) == Seq::<ChangeView>::empty(),
{
    assert forall|k: int|
        0 <= k < p.trends.len() implies spec_find_trend(p.trends, #[trigger] p.trends[k].name)
        == Some(p.trends[k]) by {
        lemma_find_trend_unique(p.trends, k);
    }
    lemma_new_trends_all_known(p.trends, p.trends);
    lemma_mods_none_when_types_match(p.trends, p.trends);
    assert(spec_part_diff(p, p) =~= Seq::<ChangeView>::empty());
}

proof fn lemma_store_diff_parts_idempotent(s: TrendStoreView, k: int)
    requires
        spec_wf_store(s),
        0 <= k <= s.parts.len(),
    ensures
        spec_store_diff_parts(s, s.parts.take(k)) == Seq::<ChangeView>::empty(),
    decreases k,
{
    if k > 0 {
        lemma_store_diff_parts_idempotent(s, k - 1);
        assert(s.parts.take(k).drop_last() =~= s.parts.take(k - 1));
        assert(s.parts.take(k).last() == s.parts[k - 1]);
        lemma_find_part_unique(s.parts, k - 1);
        lemma_part_diff_idempotent(s.parts[k - 1]);
        assert(spec_store_diff_parts(s, s.parts.take(k)) =~= Seq::<ChangeView>::empty());
    } else {
        assert(s.parts.take(0) =~= Seq::<TrendStorePartView>::empty());
    }
}

/// Diff idempotence at store level: a well-formed store diffed against
/// itself yields no change.
pub proof fn lemma_store_diff_idempotent(s: TrendStoreView)
    requires
        spec_wf_store(s),
    ensures
        spec_store_diff(s, s) == Seq::<ChangeView>::empty(),
{
    lemma_store_diff_parts_idempotent(s, s.parts.len() as int);
    assert(s.parts.take(s.parts.len() as int) =~= s.parts);
}

/// Exactly one declared trend is unknown: everything else filters out of
/// the additions, and that one stays alone.
proof fn lemma_new_trends_one_unknown(mine: Seq<TrendView>, other: Seq<TrendView>, k: int)
    requires
        0 <= k < other.len(),
        spec_find_trend(mine, other[k].name) is None,
        forall|j: int|
            0 <= j < other.len() && j != k ==> spec_find_trend(
                mine,
                (#[trigger] other[j]).name,
            ) is Some,
    ensures
        spec_new_trends(mine, other) == seq![other[k]],
    decreases other.len(),
{
    if k == other.len() - 1 {
        assert(forall|j: int|
            0 <= j < other.drop_last().len() ==> other.drop_last()[j] == other[j]);
        lemma_new_trends_all_known(mine, other.drop_last());
        assert(spec_new_trends(mine, other) =~= seq![other[k]]);
    } else {
        assert(forall|j: int|
            0 <= j < other.drop_last().len() ==> other.drop_last()[j] == other[j]);
        lemma_new_trends_one_unknown(mine, other.drop_last(), k);
        assert(spec_new_trends(mine, other) =~= seq![other[k]]);
    }
}

/// Diff completeness: when `other` declares exactly the trends of `mine`
/// plus one trend inserted anywhere under a fresh name, the diff is
/// exactly one `AddTrends` carrying exactly that trend.
pub proof fn lemma_part_diff_one_added_trend(
    mine: TrendStorePartView,
    other: TrendStorePartView,
    t: TrendView,
    k: int,
)
    requires
        spec_wf_part(mine),
        0 <= k <= mine.trends.len(),
        other.trends == mine.trends.take(k) + seq![t] + mine.trends.skip(k),
        spec_find_trend(mine.trends, t.name) is None,
    ensures
        spec_part_diff(mine, other) == seq![
            ChangeView::AddTrends(AddTrendsView { trend_store_part: mine, trends: seq![t] }),
        ],
{
    assert(other.trends.len() == mine.trends.len() + 1);
    assert(other.trends[k] == t);
    assert forall|j: int|
        0 <= j < other.trends.len() && j != k implies spec_find_trend(
        mine.trends,
        (#[trigger] other.trends[j]).name,
    ) is Some && (spec_find_trend(mine.trends, other.trends[j].name) matches Some(tr)
        && tr.data_type == other.trends[j].data_type) by {
        if j < k {
            assert(other.trends[j] == mine.trends[j]);
            lemma_find_trend_unique(mine.trends, j);
        } else {
            assert(other.trends[j] == mine.trends[j - 1]);
            lemma_find_trend_unique(mine.trends, j - 1);
        }
    }
    lemma_new_trends_one_unknown(mine.trends, other.trends, k);
    lemma_mods_none_when_types_match(mine.trends, other.trends);
    assert(spec_new_trends(mine.trends, other.trends) =~= seq![t]);
    assert(spec_part_diff(mine, other) =~= seq![
        ChangeView::AddTrends(AddTrendsView { trend_store_part: mine, trends: seq![t] }),
    ]);
}

proof fn lemma_mods_prefix_two(
    mine: Seq<TrendView>,
    other: Seq<TrendView>,
    i: int,
    j: int,
    m: int,
)
    requires
        spec_unique_trend_names(mine),
        other.len() == mine.len(),
        0 <= i < j < mine.len(),
        forall|k: int| 0 <= k < other.len() ==> (#[trigger] other[k]).name == mine[k].name,
        forall|k: int|
            0 <= k < other.len() && k != i && k != j ==> (#[trigger] other[k]).data_type
                == mine[k].data_type,
        other[i].data_type != mine[i].data_type,
        other[j].data_type != mine[j].data_type,
        0 <= m <= other.len(),
    ensures
        spec_data_type_mods(mine, other.take(m)) == (if m <= i {
            Seq::<ModifyTrendDataTypeView>::empty()
        } else if m <= j {
            seq![
                ModifyTrendDataTypeView {
                    trend_name: mine[i].name,
                    from_type: mine[i].data_type,
                    to_type: other[i].data_type,
                },
            ]
        } else {
            seq![
                ModifyTrendDataTypeView {
                    trend_name: mine[i].name,
                    from_type: mine[i].data_type,
                    to_type: other[i].data_type,
                },
                ModifyTrendDataTypeView {
                    trend_name: mine[j].name,
                    from_type: mine[j].data_type,
                    to_type: other[j].data_type,
                },
            ]
        }),
    decreases m,
{
    if m == 0 {
        assert(other.take(0) =~= Seq::<TrendView>::empty());
    } else {
        lemma_mods_prefix_two(mine, other, i, j, m - 1);
        assert(other.take(m).drop_last() =~= other.take(m - 1));
        assert(other.take(m).last() == other[m - 1]);
        lemma_find_trend_unique(mine, m - 1);
        assert(spec_find_trend(mine, other[m - 1].name) == Some(mine[m - 1]));
        if m - 1 == i {
            assert(spec_data_type_mods(mine, other.take(m)) =~= seq![
                ModifyTrendDataTypeView {
                    trend_name: mine[i].name,
                    from_type: mine[i].data_type,
                    to_type: other[i].data_type,
                },
            ]);
        } else if m - 1 == j {
            assert(spec_data_type_mods(mine, other.take(m)) =~= seq![
                ModifyTrendDataTypeView {
                    trend_name: mine[i].name,
                    from_type: mine[i].data_type,
                    to_type: other[i].data_type,
                },
                ModifyTrendDataTypeView {
                    trend_name: mine[j].name,
                    from_type: mine[j].data_type,
                    to_type: other[j].data_type,
                },
            ]);
        } else {
            assert(other[m - 1].data_type == mine[m - 1].data_type);
            assert(spec_data_type_mods(mine, other.take(m)) =~= spec_data_type_mods(
                mine,
                other.take(m - 1),
            ));
        }
    }
}

/// Batching: when `other` keeps every trend name of the well-formed
/// `mine` and changes the data type at exactly two positions, the diff is
/// one single `ModifyTrendDataTypes` carrying both modifications, never
/// two separate changes.
pub proof fn lemma_part_diff_two_type_changes(
    mine: TrendStorePartView,
    other: TrendStorePartView,
    i: int,
    j: int,
)
    requires
        spec_wf_part(mine),
        other.trends.len() == mine.trends.len(),
        0 <= i < j < mine.trends.len(),
        forall|k: int|
            0 <= k < other.trends.len() ==> (#[trigger] other.trends[k]).name
                == mine.trends[k].name,
        forall|k: int|
            0 <= k < other.trends.len() && k != i && k != j ==> (#[trigger] other.trends[k]).data_type == mine.trends[k].data_type,
        other.trends[i].data_type != mine.trends[i].data_type,
        other.trends[j].data_type != mine.trends[j].data_type,
    ensures
        spec_part_diff(mine, other) == seq![
            ChangeView::ModifyTrendDataTypes(
                ModifyTrendDataTypesView {
                    trend_store_part: mine,
                    modifications: seq![
                        ModifyTrendDataTypeView {
                            trend_name: mine.trends[i].name,
                            from_type: mine.trends[i].data_type,
                            to_type: other.trends[i].data_type,
                        },
                        ModifyTrendDataTypeView {
                            trend_name: mine.trends[j].name,
                            from_type: mine.trends[j].data_type,
                            to_type: other.trends[j].data_type,
                        },
                    ],
                },
            ),
        ],
{
    assert forall|k: int|
        0 <= k < other.trends.len() implies spec_find_trend(
        mine.trends,
        #[trigger] other.trends[k].name,
    ) is Some by {
        lemma_find_trend_unique(mine.trends, k);
    }
    lemma_new_trends_all_known(mine.trends, other.trends);
    lemma_mods_prefix_two(mine.trends, other.trends, i, j, other.trends.len() as int);
    assert(other.trends.take(other.trends.len() as int) =~= other.trends);
    assert(spec_part_diff(mine, other) =~= seq![
        ChangeView::ModifyTrendDataTypes(
            ModifyTrendDataTypesView {
                trend_store_part: mine,
                modifications: seq![
                    ModifyTrendDataTypeView {
                        trend_name: mine.trends[i].name,
                        from_type: mine.trends[i].data_type,
                        to_type: other.trends[i].data_type,
                    },
                    ModifyTrendDataTypeView {
                        trend_name: mine.trends[j].name,
                        from_type: mine.trends[j].data_type,
                        to_type: other.trends[j].data_type,
                    },
                ],
            },
        ),
    ]);
}


/// The SQL text of one trend as a `trend_descr` row.
pub open spec fn spec_trend_row_sql(t: TrendView) -> Seq<char> {
    "ROW("@ + spec_sql_literal_plain(t.name) + ", "@ + spec_sql_literal_plain(t.data_type) + ", "@
        + spec_sql_literal_plain(t.description) + ", "@ + spec_sql_literal_plain(
        t.time_aggregation,
    ) + ", "@ + spec_sql_literal_plain(t.entity_aggregation) + ", "@ + spec_sql_literal_plain(
        t.extra_data,
    ) + "::jsonb)"@
}

fn trend_row_sql(t: &Trend) -> (r: String)
    ensures
        r@ == spec_trend_row_sql(t@),
{
    let mut r = "ROW(".to_owned();
    let p = sql_literal(t.name.as_str());
    r.append(p.as_str());
    r.append(", ");
    let p = sql_literal(t.data_type.as_str());
    r.append(p.as_str());
    r.append(", ");
    let p = sql_literal(t.description.as_str());
    r.append(p.as_str());
    r.append(", ");
    let p = sql_literal(t.time_aggregation.as_str());
    r.append(p.as_str());
    r.append(", ");
    let p = sql_literal(t.entity_aggregation.as_str());
    r.append(p.as_str());
    r.append(", ");
    let p = sql_literal(t.extra_data.as_str());
    r.append(p.as_str());
    r.append("::jsonb)");
    r
}

/// The trend rows joined with commas.
pub open spec fn spec_trend_rows_sql(ts: Seq<TrendView>) -> Seq<char>
    decreases ts.len(),
{
    if ts.len() == 0 {
        Seq::empty()
    } else if ts.len() == 1 {
        spec_trend_row_sql(ts[0])
    } else {
        spec_trend_rows_sql(ts.drop_last()) + ","@ + spec_trend_row_sql(ts.last())
    }
}

fn trend_rows_sql(ts: &Vec<Trend>) -> (r: String)
    ensures
        r@ == spec_trend_rows_sql(ts.deep_view()),
{
    let ghost dv = ts.deep_view();
    let mut r = String::new();
    let mut i: usize = 0;
    proof {
        assert(dv.take(0) =~= Seq::<TrendView>::empty());
    }
    while i < ts.len()
        invariant
            0 <= i <= ts.len(),
            dv == ts.deep_view(),
            dv.len() == ts.len(),
            r@ == spec_trend_rows_sql(dv.take(i as int)),
        decreases ts.len() - i,
    {
        if i > 0 {
            r.append(",");
        }
        let row = trend_row_sql(&ts[i]);
        r.append(row.as_str());
        proof {
            assert(dv.take(i + 1).drop_last() =~= dv.take(i as int));
            assert(dv.take(i + 1).last() == dv[i as int]);
        }
        i = i + 1;
    }
    proof {
        assert(dv.take(ts.len() as int) =~= dv);
    }
    r
}

/// The SQL text of a trend array.
pub open spec fn spec_trend_array_sql(ts: Seq<TrendView>) -> Seq<char> {
    "ARRAY["@ + spec_trend_rows_sql(ts) + "]::trend_directory.trend_descr[]"@
}

fn trend_array_sql(ts: &Vec<Trend>) -> (r: String)
    ensures
        r@ == spec_trend_array_sql(ts.deep_view()),
{
    let mut r = "ARRAY[".to_owned();
    let rows = trend_rows_sql(ts);
    r.append(rows.as_str());
    r.append("]::trend_directory.trend_descr[]");
    r
}

/// The SQL text of one generated trend as a row.
pub open spec fn spec_generated_trend_row_sql(t: GeneratedTrendView) -> Seq<char> {
    "ROW("@ + spec_sql_literal_plain(t.name) + ", "@ + spec_sql_literal_plain(t.data_type) + ", "@
        + spec_sql_literal_plain(t.description) + ", "@ + spec_sql_literal_plain(t.expression)
        + ", "@ + spec_sql_literal_plain(t.extra_data) + "::jsonb)"@
}

fn generated_trend_row_sql(t: &GeneratedTrend) -> (r: String)
    ensures
        r@ == spec_generated_trend_row_sql(t@),
{
    let mut r = "ROW(".to_owned();
    let p = sql_literal(t.name.as_str());
    r.append(p.as_str());
    r.append(", ");
    let p = sql_literal(t.data_type.as_str());
    r.append(p.as_str());
    r.append(", ");
    let p = sql_literal(t.description.as_str());
    r.append(p.as_str());
    r.append(", ");
    let p = sql_literal(t.expression.as_str());
    r.append(p.as_str());
    r.append(", ");
    let p = sql_literal(t.extra_data.as_str());
    r.append(p.as_str());
    r.append("::jsonb)");
    r
}

/// The generated trend rows joined with commas.
pub open spec fn spec_generated_trend_rows_sql(ts: Seq<GeneratedTrendView>) -> Seq<char>
    decreases ts.len(),
{
    if ts.len() == 0 {
        Seq::empty()
    } else if ts.len() == 1 {
        spec_generated_trend_row_sql(ts[0])
    } else {
        spec_generated_trend_rows_sql(ts.drop_last()) + ","@ + spec_generated_trend_row_sql(
            ts.last(),
        )
    }
}

fn generated_trend_rows_sql(ts: &Vec<GeneratedTrend>) -> (r: String)
    ensures
        r@ == spec_generated_trend_rows_sql(ts.deep_view()),
{
    let ghost dv = ts.deep_view();
    let mut r = String::new();
    let mut i: usize = 0;
    proof {
        assert(dv.take(0) =~= Seq::<GeneratedTrendView>::empty());
    }
    while i < ts.len()
        invariant
            0 <= i <= ts.len(),
            dv == ts.deep_view(),
            dv.len() == ts.len(),
            r@ == spec_generated_trend_rows_sql(dv.take(i as int)),
        decreases ts.len() - i,
    {
        if i > 0 {
            r.append(",");
        }
        let row = generated_trend_row_sql(&ts[i]);
        r.append(row.as_str());
        proof {
            assert(dv.take(i + 1).drop_last() =~= dv.take(i as int));
            assert(dv.take(i + 1).last() == dv[i as int]);
        }
        i = i + 1;
    }
    proof {
        assert(dv.take(ts.len() as int) =~= dv);
    }
    r
}

/// The SQL text of a generated trend array.
pub open spec fn spec_generated_trend_array_sql(ts: Seq<GeneratedTrendView>) -> Seq<char> {
    "ARRAY["@ + spec_generated_trend_rows_sql(ts) + "]::trend_directory.generated_trend_descr[]"@
}

fn generated_trend_array_sql(ts: &Vec<GeneratedTrend>) -> (r: String)
    ensures
        r@ == spec_generated_trend_array_sql(ts.deep_view()),
{
    let mut r = "ARRAY[".to_owned();
    let rows = generated_trend_rows_sql(ts);
    r.append(rows.as_str());
    r.append("]::trend_directory.generated_trend_descr[]");
    r
}

/// The one statement of an `AddTrends` change: every new trend handed to
/// `trend_directory.create_table_trends` in a single call.
pub open spec fn spec_add_trends_statements(c: AddTrendsView) -> Seq<Seq<char>> {
    seq![
        "SELECT trend_directory.create_table_trends(trend_store_part, "@ + spec_trend_array_sql(
            c.trends,
        ) + ") FROM trend_directory.trend_store_part WHERE name = "@ + spec_sql_literal_plain(
            c.trend_store_part.name,
        ),
    ]
}

/// The success message of an `AddTrends` change.
pub open spec fn spec_add_trends_message(c: AddTrendsView) -> Seq<char> {
    "Added "@ + spec_dec_digits(c.trends.len() as int) + " trends to trend store part '"@
        + c.trend_store_part.name + "'"@
}

impl AddTrends {
    /// The SQL statements applying this change, in order.
    pub fn statements(&self) -> (r: Vec<String>)
        ensures
            r.deep_view() == spec_add_trends_statements(self@),
    {
        let mut stmt = "SELECT trend_directory.create_table_trends(trend_store_part, ".to_owned();
        let arr = trend_array_sql(&self.trends);
        stmt.append(arr.as_str());
        stmt.append(") FROM trend_directory.trend_store_part WHERE name = ");
        let lit = sql_literal(self.trend_store_part.name.as_str());
        stmt.append(lit.as_str());
        let mut r: Vec<String> = Vec::new();
        r.push(stmt);
        proof {
            assert(r.deep_view() =~= spec_add_trends_statements(self@));
        }
        r
    }

    /// The message reported when this change applies cleanly.
    pub fn message(&self) -> (r: String)
        ensures
            r@ == spec_add_trends_message(self@),
    {
        let mut r = "Added ".to_owned();
        let n = u64_to_string(self.trends.len() as u64);
        r.append(n.as_str());
        r.append(" trends to trend store part '");
        r.append(self.trend_store_part.name.as_str());
        r.append("'");
        r
    }
}

/// One UPDATE of the trend directory per modification.
pub open spec fn spec_modify_update_statement(
    part_name: Seq<char>,
    m: ModifyTrendDataTypeView,
) -> Seq<char> {
    "UPDATE trend_directory.table_trend tt SET data_type = "@ + spec_sql_literal_plain(m.to_type)
        + " FROM trend_directory.trend_store_part tsp WHERE tsp.id = tt.trend_store_part_id AND tsp.name = "@
        + spec_sql_literal_plain(part_name) + " AND tt.name = "@ + spec_sql_literal_plain(
        m.trend_name,
    )
}

/// The UPDATE statements of all modifications, in order.
pub open spec fn spec_modify_update_statements(
    part_name: Seq<char>,
    ms: Seq<ModifyTrendDataTypeView>,
) -> Seq<Seq<char>>
    decreases ms.len(),
{
    if ms.len() == 0 {
        Seq::empty()
    } else {
        spec_modify_update_statements(part_name, ms.drop_last()) + seq![
            spec_modify_update_statement(part_name, ms.last()),
        ]
    }
}

/// One `ALTER` clause per modification, casting the column to its new
/// type.
pub open spec fn spec_alter_clause(m: ModifyTrendDataTypeView) -> Seq<char> {
    "ALTER "@ + spec_sql_ident(m.trend_name) + " TYPE "@ + m.to_type + " USING CAST("@
        + spec_sql_ident(m.trend_name) + " AS "@ + m.to_type + ")"@
}

/// The `ALTER` clauses joined with commas.
pub open spec fn spec_alter_clauses(ms: Seq<ModifyTrendDataTypeView>) -> Seq<char>
    decreases ms.len(),
{
    if ms.len() == 0 {
        Seq::empty()
    } else if ms.len() == 1 {
        spec_alter_clause(ms[0])
    } else {
        spec_alter_clauses(ms.drop_last()) + ", "@ + spec_alter_clause(ms.last())
    }
}

/// The statements of a `ModifyTrendDataTypes` change: first the session
/// statement and lock timeouts are raised, because altering column types
/// takes exclusive locks on potentially large tables; then the trend
/// directory rows are updated; then one `ALTER TABLE` batches every
/// column type change under a single lock acquisition.
pub open spec fn spec_modify_trend_data_types_statements(c: ModifyTrendDataTypesView) -> Seq<
    Seq<char>,
> {
    seq!["SET SESSION statement_timeout = 0"@, "SET SESSION lock_timeout = '10min'"@]
        + spec_modify_update_statements(c.trend_store_part.name, c.modifications) + seq![
        "ALTER TABLE trend."@ + spec_sql_ident(c.trend_store_part.name) + " "@ + spec_alter_clauses(
            c.modifications,
        ),
    ]
}

/// The success message of a `ModifyTrendDataTypes` change.
pub open spec fn spec_modify_trend_data_types_message(c: ModifyTrendDataTypesView) -> Seq<char> {
    "Altered trend data types for trend store part '"@ + c.trend_store_part.name + "'"@
}

impl ModifyTrendDataTypes {
    /// The SQL statements applying this change, in order: timeouts,
    /// directory updates, then the single batched `ALTER TABLE`.
    pub fn statements(&self) -> (r: Vec<String>)
        ensures
            r.deep_view() == spec_modify_trend_data_types_statements(self@),
    {
        let ghost mdv = self.modifications.deep_view();
        let mut r: Vec<String> = Vec::new();
        r.push("SET SESSION statement_timeout = 0".to_owned());
        r.push("SET SESSION lock_timeout = '10min'".to_owned());
        let ghost head = r.deep_view();
        let mut i: usize = 0;
        proof {
            assert(mdv.take(0) =~= Seq::<ModifyTrendDataTypeView>::empty());
            assert(head + spec_modify_update_statements(self@.trend_store_part.name, mdv.take(0))
                =~= head);
        }
        while i < self.modifications.len()
            invariant
                0 <= i <= self.modifications.len(),
                mdv == self.modifications.deep_view(),
                mdv.len() == self.modifications.len(),
                r.deep_view() == head + spec_modify_update_statements(
                    self@.trend_store_part.name,
                    mdv.take(i as int),
                ),
            decreases self.modifications.len() - i,
        {
            let ghost r0 = r.deep_view();
            let mut stmt = "UPDATE trend_directory.table_trend tt SET data_type = ".to_owned();
            let lit = sql_literal(self.modifications[i].to_type.as_str());
            stmt.append(lit.as_str());
            stmt.append(
                " FROM trend_directory.trend_store_part tsp WHERE tsp.id = tt.trend_store_part_id AND tsp.name = ",
            );
            let lit = sql_literal(self.trend_store_part.name.as_str());
            stmt.append(lit.as_str());
            stmt.append(" AND tt.name = ");
            let lit = sql_literal(self.modifications[i].trend_name.as_str());
            stmt.append(lit.as_str());
            r.push(stmt);
            proof {
                assert(mdv.take(i + 1).drop_last() =~= mdv.take(i as int));
                assert(mdv.take(i + 1).last() == mdv[i as int]);
                assert(r.deep_view() =~= r0.push(
                    spec_modify_update_statement(self@.trend_store_part.name, mdv[i as int]),
                ));
                assert(r.deep_view() =~= head + spec_modify_update_statements(
                    self@.trend_store_part.name,
                    mdv.take(i + 1),
                ));
            }
            i = i + 1;
        }
        proof {
            assert(mdv.take(self.modifications.len() as int) =~= mdv);
        }
        let ghost with_updates = r.deep_view();
        let mut alter = "ALTER TABLE trend.".to_owned();
        let id = sql_ident(self.trend_store_part.name.as_str());
        alter.append(id.as_str());
        alter.append(" ");
        let mut clauses = String::new();
        let mut j: usize = 0;
        proof {
            assert(mdv.take(0) =~= Seq::<ModifyTrendDataTypeView>::empty());
        }
        while j < self.modifications.len()
            invariant
                0 <= j <= self.modifications.len(),
                mdv == self.modifications.deep_view(),
                mdv.len() == self.modifications.len(),
                clauses@ == spec_alter_clauses(mdv.take(j as int)),
            decreases self.modifications.len() - j,
        {
            if j > 0 {
                clauses.append(", ");
            }
            clauses.append("ALTER ");
            let id = sql_ident(self.modifications[j].trend_name.as_str());
            clauses.append(id.as_str());
            clauses.append(" TYPE ");
            clauses.append(self.modifications[j].to_type.as_str());
            clauses.append(" USING CAST(");
            let id = sql_ident(self.modifications[j].trend_name.as_str());
            clauses.append(id.as_str());
            clauses.append(" AS ");
            clauses.append(self.modifications[j].to_type.as_str());
            clauses.append(")");
            proof {
                assert(mdv.take(j + 1).drop_last() =~= mdv.take(j as int));
                assert(mdv.take(j + 1).last() == mdv[j as int]);
            }
            j = j + 1;
        }
        proof {
            assert(mdv.take(self.modifications.len() as int) =~= mdv);
        }
        alter.append(clauses.as_str());
        r.push(alter);
        proof {
            assert(r.deep_view() =~= with_updates.push(
                "ALTER TABLE trend."@ + spec_sql_ident(self@.trend_store_part.name) + " "@
                    + spec_alter_clauses(mdv),
            ));
            assert(r.deep_view() =~= spec_modify_trend_data_types_statements(self@));
        }
        r
    }

    /// The message reported when this change applies cleanly.
    pub fn message(&self) -> (r: String)
        ensures
            r@ == spec_modify_trend_data_types_message(self@),
    {
        let mut r = "Altered trend data types for trend store part '".to_owned();
        r.append(self.trend_store_part.name.as_str());
        r.append("'");
        r
    }
}

/// The one statement of an `AddTrendStorePart` change.
pub open spec fn spec_add_part_statements(c: AddTrendStorePartView) -> Seq<Seq<char>> {
    seq![
        "SELECT trend_directory.create_trend_store_part(trend_store.id, "@
            + spec_sql_literal_plain(c.trend_store_part.name)
            + ") FROM trend_directory.trend_store JOIN directory.data_source ON data_source.id = trend_store.data_source_id JOIN directory.entity_type ON entity_type.id = trend_store.entity_type_id WHERE data_source.name = "@
            + spec_sql_literal_plain(c.trend_store.data_source) + " AND entity_type.name = "@
            + spec_sql_literal_plain(c.trend_store.entity_type) + " AND granularity = "@
            + spec_dec_digits(c.trend_store.granularity) + " * interval '1 sec'"@,
    ]
}

/// The success message of an `AddTrendStorePart` change.
pub open spec fn spec_add_part_message(c: AddTrendStorePartView) -> Seq<char> {
    "Added trend store part '"@ + c.trend_store_part.name + "' to trend store '"@ + spec_store_text(
        c.trend_store,
    ) + "'"@
}

impl AddTrendStorePart {
    /// The SQL statements applying this change.
    pub fn statements(&self) -> (r: Vec<String>)
        ensures
            r.deep_view() == spec_add_part_statements(self@),
    {
        let mut stmt = "SELECT trend_directory.create_trend_store_part(trend_store.id, ".to_owned();
        let lit = sql_literal(self.trend_store_part.name.as_str());
        stmt.append(lit.as_str());
        stmt.append(
            ") FROM trend_directory.trend_store JOIN directory.data_source ON data_source.id = trend_store.data_source_id JOIN directory.entity_type ON entity_type.id = trend_store.entity_type_id WHERE data_source.name = ",
        );
        let lit = sql_literal(self.trend_store.data_source.as_str());
        stmt.append(lit.as_str());
        stmt.append(" AND entity_type.name = ");
        let lit = sql_literal(self.trend_store.entity_type.as_str());
        stmt.append(lit.as_str());
        stmt.append(" AND granularity = ");
        let g = u64_to_string(self.trend_store.granularity);
        stmt.append(g.as_str());
        stmt.append(" * interval '1 sec'");
        let mut r: Vec<String> = Vec::new();
        r.push(stmt);
        proof {
            assert(r.deep_view() =~= spec_add_part_statements(self@));
        }
        r
    }

    /// The message reported when this change applies cleanly.
    pub fn message(&self) -> (r: String)
        ensures
            r@ == spec_add_part_message(self@),
    {
        let mut r = "Added trend store part '".to_owned();
        r.append(self.trend_store_part.name.as_str());
        r.append("' to trend store '");
        let s = self.trend_store.describe();
        r.append(s.as_str());
        r.append("'");
        r
    }
}

/// The SQL text of one part as a `trend_store_part_descr` row.
pub open spec fn spec_part_row_sql(p: TrendStorePartView) -> Seq<char> {
    "ROW("@ + spec_sql_literal_plain(p.name) + ", "@ + spec_trend_array_sql(p.trends) + ", "@
        + spec_generated_trend_array_sql(p.generated_trends) + ")"@
}

fn part_row_sql(p: &TrendStorePart) -> (r: String)
    ensures
        r@ == spec_part_row_sql(p@),
{
    let mut r = "ROW(".to_owned();
    let lit = sql_literal(p.name.as_str());
    r.append(lit.as_str());
    r.append(", ");
    let arr = trend_array_sql(&p.trends);
    r.append(arr.as_str());
    r.append(", ");
    let arr = generated_trend_array_sql(&p.generated_trends);
    r.append(arr.as_str());
    r.append(")");
    r
}

/// The part rows joined with commas.
pub open spec fn spec_part_rows_sql(ps: Seq<TrendStorePartView>) -> Seq<char>
    decreases ps.len(),
{
    if ps.len() == 0 {
        Seq::empty()
    } else if ps.len() == 1 {
        spec_part_row_sql(ps[0])
    } else {
        spec_part_rows_sql(ps.drop_last()) + ","@ + spec_part_row_sql(ps.last())
    }
}

fn part_rows_sql(ps: &Vec<TrendStorePart>) -> (r: String)
    ensures
        r@ == spec_part_rows_sql(ps.deep_view()),
{
    let ghost dv = ps.deep_view();
    let mut r = String::new();
    let mut i: usize = 0;
    proof {
        assert(dv.take(0) =~= Seq::<TrendStorePartView>::empty());
    }
    while i < ps.len()
        invariant
            0 <= i <= ps.len(),
            dv == ps.deep_view(),
            dv.len() == ps.len(),
            r@ == spec_part_rows_sql(dv.take(i as int)),
        decreases ps.len() - i,
    {
        if i > 0 {
            r.append(",");
        }
        let row = part_row_sql(&ps[i]);
        r.append(row.as_str());
        proof {
            assert(dv.take(i + 1).drop_last() =~= dv.take(i as int));
            assert(dv.take(i + 1).last() == dv[i as int]);
        }
        i = i + 1;
    }
    proof {
        assert(dv.take(ps.len() as int) =~= dv);
    }
    r
}

/// The one statement of an `AddTrendStore` change: the store with all its
/// declared parts handed to `trend_directory.create_trend_store`.
pub open spec fn spec_add_store_statements(c: AddTrendStoreView) -> Seq<Seq<char>> {
    seq![
        "SELECT id FROM trend_directory.create_trend_store("@ + spec_sql_literal_plain(
            c.trend_store.data_source,
        ) + ", "@ + spec_sql_literal_plain(c.trend_store.entity_type) + ", "@
            + spec_sql_literal_plain(spec_interval_sql(c.trend_store.granularity)) + "::interval, "@
            + spec_sql_literal_plain(spec_interval_sql(c.trend_store.partition_size))
            + "::interval, ARRAY["@ + spec_part_rows_sql(c.trend_store.parts)
            + "]::trend_directory.trend_store_part_descr[])"@,
    ]
}

/// The success message of an `AddTrendStore` change.
pub open spec fn spec_add_store_message(c: AddTrendStoreView) -> Seq<char> {
    "Added trend store "@ + spec_store_text(c.trend_store)
}

impl AddTrendStore {
    /// The SQL statements applying this change.
    pub fn statements(&self) -> (r: Vec<String>)
        ensures
            r.deep_view() == spec_add_store_statements(self@),
    {
        let mut stmt = "SELECT id FROM trend_directory.create_trend_store(".to_owned();
        let lit = sql_literal(self.trend_store.data_source.as_str());
        stmt.append(lit.as_str());
        stmt.append(", ");
        let lit = sql_literal(self.trend_store.entity_type.as_str());
        stmt.append(lit.as_str());
        stmt.append(", ");
        let g = interval_sql_text(self.trend_store.granularity);
        let lit = sql_literal(g.as_str());
        stmt.append(lit.as_str());
        stmt.append("::interval, ");
        let p = interval_sql_text(self.trend_store.partition_size);
        let lit = sql_literal(p.as_str());
        stmt.append(lit.as_str());
        stmt.append("::interval, ARRAY[");
        let rows = part_rows_sql(&self.trend_store.parts);
        stmt.append(rows.as_str());
        stmt.append("]::trend_directory.trend_store_part_descr[])");
        let mut r: Vec<String> = Vec::new();
        r.push(stmt);
        proof {
            assert(r.deep_view() =~= spec_add_store_statements(self@));
        }
        r
    }

    /// The message reported when this change applies cleanly.
    pub fn message(&self) -> (r: String)
        ensures
            r@ == spec_add_store_message(self@),
    {
        let mut r = "Added trend store ".to_owned();
        let s = self.trend_store.describe();
        r.append(s.as_str());
        r
    }
}


/// Why deleting a trend store failed.
pub enum DeleteTrendStoreErrorKind {
    NoSuchTrendStore,
    DatabaseError,
}

/// The failure of a trend store deletion: no such store, or a database
/// error carried as text.
pub struct DeleteTrendStoreError {
    pub original: String,
    pub kind: DeleteTrendStoreErrorKind,
}

/// Whether every part carries no generated trends: what the database
/// loaders build, since generated trends are compiled into the tables
/// and never read back.
pub open spec fn spec_parts_have_no_generated(ps: Seq<TrendStorePartView>) -> bool {
    forall|b: int| 0 <= b < ps.len() ==> (#[trigger] ps[b]).generated_trends.len() == 0
}

/// Lists the registered trend stores, one line per store; a failing
/// query is a database error.
pub fn list_trend_stores(client: &mut postgres::Client) -> (r: Result<Vec<String>, Error>)
    ensures
        r matches Err(e) ==> e is Database,
{
    let rows = match pg::query(
        client,
        "SELECT ts.id, ds.name, et.name, ts.granularity::text FROM trend_directory.trend_store ts JOIN directory.data_source ds ON ds.id = ts.data_source_id JOIN directory.entity_type et ON et.id = ts.entity_type_id",
    ) {
        Ok(rows) => rows,
        Err(e) => {
            return Err(Error::Database(e));
        },
    };
    let mut lines: Vec<String> = Vec::new();
    let mut i: usize = 0;
    while i < rows.len()
        decreases rows.len() - i,
    {
        let id = match pg::row_i32(&rows[i], 0) {
            Ok(v) => v,
            Err(e) => {
                return Err(Error::Database(e));
            },
        };
        let ds = match pg::row_string(&rows[i], 1) {
            Ok(v) => v,
            Err(e) => {
                return Err(Error::Database(e));
            },
        };
        let et = match pg::row_string(&rows[i], 2) {
            Ok(v) => v,
            Err(e) => {
                return Err(Error::Database(e));
            },
        };
        let g = match pg::row_string(&rows[i], 3) {
            Ok(v) => v,
            Err(e) => {
                return Err(Error::Database(e));
            },
        };
        let mut line = i64_to_string(id as i64);
        line.append(" - ");
        line.append(ds.as_str());
        line.append(" - ");
        line.append(et.as_str());
        line.append(" - ");
        line.append(g.as_str());
        lines.push(line);
        i = i + 1;
    }
    Ok(lines)
}

/// Classifies what the deletion call reported: at least one affected row
/// is success, zero rows means no store matched.
pub fn delete_outcome(deleted: u64) -> (r: Result<(), DeleteTrendStoreError>)
    ensures
        r is Ok <==> deleted >= 1,
        r matches Err(e) ==> e.kind is NoSuchTrendStore && e.original@
            == "No trend store matches"@,
{
    if deleted == 0 {
        Err(
            DeleteTrendStoreError {
                original: "No trend store matches".to_owned(),
                kind: DeleteTrendStoreErrorKind::NoSuchTrendStore,
            },
        )
    } else {
        Ok(())
    }
}

/// Deletes a trend store by id. The returned count decides the outcome
/// through `delete_outcome`: `NoSuchTrendStore` exactly when nothing
/// matched; a failing call comes back as a database error.
pub fn delete_trend_store(client: &mut postgres::Client, id: i32) -> (r: Result<
    (),
    DeleteTrendStoreError,
>)
    ensures
        r matches Err(e) ==> (e.kind is DatabaseError || (e.kind is NoSuchTrendStore
            && e.original@ == "No trend store matches"@)),
{
    let mut q = "SELECT trend_directory.delete_trend_store(".to_owned();
    let n = i64_to_string(id as i64);
    q.append(n.as_str());
    q.append(")");
    match pg::execute(client, q.as_str()) {
        Ok(deleted) => delete_outcome(deleted),
        Err(e) => Err(
            DeleteTrendStoreError { original: e.msg, kind: DeleteTrendStoreErrorKind::DatabaseError },
        ),
    }
}

fn load_trend_store_parts(client: &mut postgres::Client, trend_store_id: i32) -> (r: Result<
    Vec<TrendStorePart>,
    Error,
>)
    ensures
        r matches Err(e) ==> e is Database,
        r matches Ok(ps) ==> spec_parts_have_no_generated(ps.deep_view()),
{
    let mut q =
        "SELECT id, name FROM trend_directory.trend_store_part WHERE trend_store_id = ".to_owned();
    let n = i64_to_string(trend_store_id as i64);
    q.append(n.as_str());
    let part_rows = match pg::query(client, q.as_str()) {
        Ok(rows) => rows,
        Err(e) => {
            return Err(Error::Database(e));
        },
    };
    let mut parts: Vec<TrendStorePart> = Vec::new();
    let mut i: usize = 0;
    while i < part_rows.len()
        invariant
            spec_parts_have_no_generated(parts.deep_view()),
        decreases part_rows.len() - i,
    {
        let part_id = match pg::row_i32(&part_rows[i], 0) {
            Ok(v) => v,
            Err(e) => {
                return Err(Error::Database(e));
            },
        };
        let part_name = match pg::row_string(&part_rows[i], 1) {
            Ok(v) => v,
            Err(e) => {
                return Err(Error::Database(e));
            },
        };
        let mut tq =
            "SELECT name, data_type, description, entity_aggregation, time_aggregation, extra_data::text FROM trend_directory.table_trend WHERE trend_store_part_id = ".to_owned();
        let n = i64_to_string(part_id as i64);
        tq.append(n.as_str());
        let trend_rows = match pg::query(client, tq.as_str()) {
            Ok(rows) => rows,
            Err(e) => {
                return Err(Error::Database(e));
            },
        };
        let mut trends: Vec<Trend> = Vec::new();
        let mut j: usize = 0;
        while j < trend_rows.len()
            decreases trend_rows.len() - j,
        {
            let name = match pg::row_string(&trend_rows[j], 0) {
                Ok(v) => v,
                Err(e) => {
                    return Err(Error::Database(e));
                },
            };
            let data_type = match pg::row_string(&trend_rows[j], 1) {
                Ok(v) => v,
                Err(e) => {
                    return Err(Error::Database(e));
                },
            };
            let description = match pg::row_string(&trend_rows[j], 2) {
                Ok(v) => v,
                Err(e) => {
                    return Err(Error::Database(e));
                },
            };
            let entity_aggregation = match pg::row_string(&trend_rows[j], 3) {
                Ok(v) => v,
                Err(e) => {
                    return Err(Error::Database(e));
                },
            };
            let time_aggregation = match pg::row_string(&trend_rows[j], 4) {
                Ok(v) => v,
                Err(e) => {
                    return Err(Error::Database(e));
                },
            };
            let extra_data = match pg::row_string(&trend_rows[j], 5) {
                Ok(v) => v,
                Err(e) => {
                    return Err(Error::Database(e));
                },
            };
            trends.push(
                Trend {
                    name,
                    data_type,
                    description,
                    time_aggregation,
                    entity_aggregation,
                    extra_data,
                },
            );
            j = j + 1;
        }
        let ghost parts0 = parts.deep_view();
        parts.push(
            TrendStorePart { name: part_name, trends, generated_trends: Vec::new() },
        );
        proof {
            assert forall|b: int|
                0 <= b < parts.deep_view().len() implies (#[trigger] parts.deep_view()[b]).generated_trends.len() == 0 by {
                if b < parts0.len() {
                    assert(parts.deep_view()[b] == parts0[b]);
                }
            }
        }
        i = i + 1;
    }
    Ok(parts)
}

/// Loads one trend store by its identity key from the live database: a
/// loaded store carries exactly the identity key it was asked for and no
/// generated trends. A failing call is a database error; an unreadable
/// partition size is a runtime error.
pub fn load_trend_store(
    client: &mut postgres::Client,
    data_source: &str,
    entity_type: &str,
    granularity: u64,
) -> (r: Result<TrendStore, Error>)
    ensures
        r matches Ok(ts) ==> ts@.data_source == data_source@ && ts@.entity_type == entity_type@
            && ts@.granularity == granularity as int && spec_parts_have_no_generated(ts@.parts),
        r matches Err(e) ==> (e is Database || e is Runtime),
{
    let mut q =
        "SELECT trend_store.id, partition_size::text FROM trend_directory.trend_store JOIN directory.data_source ON data_source.id = trend_store.data_source_id JOIN directory.entity_type ON entity_type.id = trend_store.entity_type_id WHERE data_source.name = ".to_owned();
    let lit = sql_literal(data_source);
    q.append(lit.as_str());
    q.append(" AND entity_type.name = ");
    let lit = sql_literal(entity_type);
    q.append(lit.as_str());
    q.append(" AND granularity = ");
    let iv = interval_sql_text(granularity);
    let lit = sql_literal(iv.as_str());
    q.append(lit.as_str());
    q.append("::interval");
    let row = match pg::query_one(client, q.as_str()) {
        Ok(row) => row,
        Err(e) => {
            return Err(Error::Database(e));
        },
    };
    let store_id = match pg::row_i32(&row, 0) {
        Ok(v) => v,
        Err(e) => {
            return Err(Error::Database(e));
        },
    };
    let partition_size_text = match pg::row_string(&row, 1) {
        Ok(v) => v,
        Err(e) => {
            return Err(Error::Database(e));
        },
    };
    let partition_size = match crate::interval::parse_interval(partition_size_text.as_str()) {
        Option::Some(v) => v,
        Option::None => {
            let mut msg = "Error parsing partition size '".to_owned();
            msg.append(partition_size_text.as_str());
            msg.append("'");
            return Err(Error::Runtime(RuntimeError::from_msg(msg)));
        },
    };
    let parts = match load_trend_store_parts(client, store_id) {
        Ok(parts) => parts,
        Err(e) => {
            return Err(e);
        },
    };
    Ok(
        TrendStore {
            data_source: data_source.to_owned(),
            entity_type: entity_type.to_owned(),
            granularity,
            partition_size,
            parts,
        },
    )
}

/// Loads every registered trend store from the live database; every
/// loaded store carries no generated trends. A failing call is a
/// database error; an unreadable granularity or partition size is a
/// runtime error.
pub fn load_trend_stores(client: &mut postgres::Client) -> (r: Result<Vec<TrendStore>, Error>)
    ensures
        r matches Err(e) ==> (e is Database || e is Runtime),
        r matches Ok(ss) ==> forall|a: int|
            0 <= a < ss@.len() ==> spec_parts_have_no_generated((#[trigger] ss@[a])@.parts),
{
    let rows = match pg::query(
        client,
        "SELECT trend_store.id, data_source.name, entity_type.name, granularity::text, partition_size::text FROM trend_directory.trend_store JOIN directory.data_source ON data_source.id = trend_store.data_source_id JOIN directory.entity_type ON entity_type.id = trend_store.entity_type_id",
    ) {
        Ok(rows) => rows,
        Err(e) => {
            return Err(Error::Database(e));
        },
    };
    let mut stores: Vec<TrendStore> = Vec::new();
    let mut i: usize = 0;
    while i < rows.len()
        invariant
            forall|a: int|
                0 <= a < stores@.len() ==> spec_parts_have_no_generated(
                    (#[trigger] stores@[a])@.parts,
                ),
        decreases rows.len() - i,
    {
        let store_id = match pg::row_i32(&rows[i], 0) {
            Ok(v) => v,
            Err(e) => {
                return Err(Error::Database(e));
            },
        };
        let data_source = match pg::row_string(&rows[i], 1) {
            Ok(v) => v,
            Err(e) => {
                return Err(Error::Database(e));
            },
        };
        let entity_type = match pg::row_string(&rows[i], 2) {
            Ok(v) => v,
            Err(e) => {
                return Err(Error::Database(e));
            },
        };
        let granularity_text = match pg::row_string(&rows[i], 3) {
            Ok(v) => v,
            Err(e) => {
                return Err(Error::Database(e));
            },
        };
        let partition_size_text = match pg::row_string(&rows[i], 4) {
            Ok(v) => v,
            Err(e) => {
                return Err(Error::Database(e));
            },
        };
        let granularity = match crate::interval::parse_interval(granularity_text.as_str()) {
            Option::Some(v) => v,
            Option::None => {
                let mut msg = "Error parsing granularity '".to_owned();
                msg.append(granularity_text.as_str());
                msg.append("'");
                return Err(Error::Runtime(RuntimeError::from_msg(msg)));
            },
        };
        let partition_size = match crate::interval::parse_interval(partition_size_text.as_str()) {
            Option::Some(v) => v,
            Option::None => {
                let mut msg = "Error parsing partition size '".to_owned();
                msg.append(partition_size_text.as_str());
                msg.append("'");
                return Err(Error::Runtime(RuntimeError::from_msg(msg)));
            },
        };
        let parts = match load_trend_store_parts(client, store_id) {
            Ok(parts) => parts,
            Err(e) => {
                return Err(e);
            },
        };
        let ghost stores0 = stores@;
        stores.push(
            TrendStore { data_source, entity_type, granularity, partition_size, parts },
        );
        proof {
            assert forall|a: int|
                0 <= a < stores@.len() implies spec_parts_have_no_generated(
                (#[trigger] stores@[a])@.parts,
            ) by {
                if a < stores0.len() {
                    assert(stores@[a] == stores0[a]);
                }
            }
        }
        i = i + 1;
    }
    Ok(stores)
}

fn create_partition_for_trend_store_part(
    client: &mut postgres::Client,
    trend_store_part_id: i32,
    partition_index: i32,
) -> (r: Result<String, Error>)
    ensures
        r matches Err(e) ==> e is Database,
{
    let mut q = "SELECT p.name, trend_directory.create_partition(p, ".to_owned();
    let n = i64_to_string(partition_index as i64);
    q.append(n.as_str());
    q.append("::integer) FROM trend_directory.trend_store_part p WHERE p.id = ");
    let n = i64_to_string(trend_store_part_id as i64);
    q.append(n.as_str());
    let row = match pg::query_one(client, q.as_str()) {
        Ok(row) => row,
        Err(e) => {
            return Err(Error::Database(e));
        },
    };
    match pg::row_string(&row, 0) {
        Ok(name) => Ok(name),
        Err(e) => Err(Error::Database(e)),
    }
}

/// Creates the missing partitions of one trend store over its retention
/// period plus `ahead_interval` seconds; the created partition names come
/// back.
pub fn create_partitions_for_trend_store(
    client: &mut postgres::Client,
    trend_store_id: i32,
    ahead_interval: u64,
) -> (r: Result<Vec<String>, Error>)
    ensures
        r matches Err(e) ==> e is Database,
{
    let mut q =
        "WITH partition_indexes AS (SELECT trend_directory.timestamp_to_index(partition_size, t) AS i, p.id AS part_id, p.name AS part_name FROM trend_directory.trend_store JOIN trend_directory.trend_store_part p ON p.trend_store_id = trend_store.id JOIN generate_series(now() - partition_size - trend_store.retention_period, now() + partition_size + ".to_owned();
    let iv = interval_sql_text(ahead_interval);
    let lit = sql_literal(iv.as_str());
    q.append(lit.as_str());
    q.append("::interval, partition_size) t ON true WHERE trend_store.id = ");
    let n = i64_to_string(trend_store_id as i64);
    q.append(n.as_str());
    q.append(
        ") SELECT partition_indexes.part_id, partition_indexes.part_name, partition_indexes.i FROM partition_indexes LEFT JOIN trend_directory.partition ON partition.index = i AND partition.trend_store_part_id = partition_indexes.part_id WHERE partition.id IS NULL",
    );
    let rows = match pg::query(client, q.as_str()) {
        Ok(rows) => rows,
        Err(e) => {
            return Err(Error::Database(e));
        },
    };
    let mut created: Vec<String> = Vec::new();
    let mut i: usize = 0;
    while i < rows.len()
        decreases rows.len() - i,
    {
        let part_id = match pg::row_i32(&rows[i], 0) {
            Ok(v) => v,
            Err(e) => {
                return Err(Error::Database(e));
            },
        };
        let index = match pg::row_i32(&rows[i], 2) {
            Ok(v) => v,
            Err(e) => {
                return Err(Error::Database(e));
            },
        };
        match create_partition_for_trend_store_part(client, part_id, index) {
            Ok(name) => {
                created.push(name);
            },
            Err(e) => {
                return Err(e);
            },
        }
        i = i + 1;
    }
    Ok(created)
}

/// The stretch partitions are created ahead of now when the caller names
/// none: three days.
pub const DEFAULT_AHEAD_SECONDS: u64 = 259200;

/// Creates missing partitions for every trend store, looking
/// `ahead_interval` seconds ahead (three days when none is given).
pub fn create_partitions(client: &mut postgres::Client, ahead_interval: Option<u64>) -> (r: Result<
    Vec<String>,
    Error,
>)
    ensures
        r matches Err(e) ==> e is Database,
{
    let ahead: u64 = match ahead_interval {
        Option::Some(v) => v,
        Option::None => DEFAULT_AHEAD_SECONDS,
    };
    let rows = match pg::query(client, "SELECT id FROM trend_directory.trend_store") {
        Ok(rows) => rows,
        Err(e) => {
            return Err(Error::Database(e));
        },
    };
    let mut created: Vec<String> = Vec::new();
    let mut i: usize = 0;
    while i < rows.len()
        decreases rows.len() - i,
    {
        let store_id = match pg::row_i32(&rows[i], 0) {
            Ok(v) => v,
            Err(e) => {
                return Err(Error::Database(e));
            },
        };
        let mut names = match create_partitions_for_trend_store(client, store_id, ahead) {
            Ok(names) => names,
            Err(e) => {
                return Err(e);
            },
        };
        created.append(&mut names);
        i = i + 1;
    }
    Ok(created)
}

} // verus!
