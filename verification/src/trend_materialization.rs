//! Trend materializations: derived trend store parts computed from other
//! parts through a view or a function, refreshed on a schedule governed by
//! a processing delay, a stability delay and a reprocessing period. A
//! materialization has exactly one implementation at a time; its identity
//! key is the target trend store part name.

use vstd::prelude::*;

verus! {

use crate::text::{join_str, str_eq, sql_literal, sql_ident, spec_sql_literal_plain, spec_sql_ident};
use crate::interval::{spec_interval_sql, interval_sql_text};
use crate::text::{u64_to_string, spec_dec_digits};
use crate::pg;
use crate::text::i64_to_string;
use vstd::pervasive::cloned;
use crate::error::{Error, RuntimeError, DatabaseError};
use crate::change::ChangeView;

/// One source of a materialization: a trend store part paired with the
/// function mapping its timestamps onto the target's.
pub struct TrendMaterializationSource {
    pub trend_store_part: String,
    pub mapping_function: String,
}

/// The mathematical shape of a source link.
pub ghost struct TrendMaterializationSourceView {
    pub trend_store_part: Seq<char>,
    pub mapping_function: Seq<char>,
}

impl View for TrendMaterializationSource {
    type V = TrendMaterializationSourceView;

    open spec fn view(&self) -> TrendMaterializationSourceView {
        TrendMaterializationSourceView {
            trend_store_part: self.trend_store_part@,
            mapping_function: self.mapping_function@,
        }
    }
}

impl DeepView for TrendMaterializationSource {
    type V = TrendMaterializationSourceView;

    open spec fn deep_view(&self) -> TrendMaterializationSourceView {
        self.view()
    }
}

impl Clone for TrendMaterializationSource {
    fn clone(&self) -> (r: Self)
        ensures
            r == *self,
    {
        TrendMaterializationSource {
            trend_store_part: self.trend_store_part.clone(),
            mapping_function: self.mapping_function.clone(),
        }
    }
}

/// The body of a function materialization.
pub struct TrendMaterializationFunction {
    pub return_type: String,
    pub src: String,
    pub language: String,
}

/// The mathematical shape of a function body.
pub ghost struct TrendMaterializationFunctionView {
    pub return_type: Seq<char>,
    pub src: Seq<char>,
    pub language: Seq<char>,
}

impl View for TrendMaterializationFunction {
    type V = TrendMaterializationFunctionView;

    open spec fn view(&self) -> TrendMaterializationFunctionView {
        TrendMaterializationFunctionView {
            return_type: self.return_type@,
            src: self.src@,
            language: self.language@,
        }
    }
}

impl Clone for TrendMaterializationFunction {
    fn clone(&self) -> (r: Self)
        ensures
            r == *self,
    {
        TrendMaterializationFunction {
            return_type: self.return_type.clone(),
            src: self.src.clone(),
            language: self.language.clone(),
        }
    }
}

/// A materialization implemented as a view. Timing knobs are whole
/// seconds; the description is carried as JSON text.
pub struct TrendViewMaterialization {
    pub target_trend_store_part: String,
    pub enabled: bool,
    pub processing_delay: u64,
    pub stability_delay: u64,
    pub reprocessing_period: u64,
    pub sources: Vec<TrendMaterializationSource>,
    pub view: String,
    pub fingerprint_function: String,
    pub description: Option<String>,
}

/// The mathematical shape of a view materialization.
pub ghost struct TrendViewMaterializationView {
    pub target_trend_store_part: Seq<char>,
    pub enabled: bool,
    pub processing_delay: int,
    pub stability_delay: int,
    pub reprocessing_period: int,
    pub sources: Seq<TrendMaterializationSourceView>,
    pub view: Seq<char>,
    pub fingerprint_function: Seq<char>,
    pub description: Option<Seq<char>>,
}

impl View for TrendViewMaterialization {
    type V = TrendViewMaterializationView;

    open spec fn view(&self) -> TrendViewMaterializationView {
        TrendViewMaterializationView {
            target_trend_store_part: self.target_trend_store_part@,
            enabled: self.enabled,
            processing_delay: self.processing_delay as int,
            stability_delay: self.stability_delay as int,
            reprocessing_period: self.reprocessing_period as int,
            sources: self.sources.deep_view(),
            view: self.view@,
            fingerprint_function: self.fingerprint_function@,
            description: match self.description {
                Option::Some(ref d) => Some(d@),
                Option::None => None,
            },
        }
    }
}

impl DeepView for TrendViewMaterialization {
    type V = TrendViewMaterializationView;

    open spec fn deep_view(&self) -> TrendViewMaterializationView {
        self.view()
    }
}

impl Clone for TrendViewMaterialization {
    fn clone(&self) -> (r: Self)
        ensures
            r@ == self@,
    {
        let description = match &self.description {
            Option::Some(d) => Some(d.clone()),
            Option::None => None,
        };
        let r = TrendViewMaterialization {
            target_trend_store_part: self.target_trend_store_part.clone(),
            enabled: self.enabled,
            processing_delay: self.processing_delay,
            stability_delay: self.stability_delay,
            reprocessing_period: self.reprocessing_period,
            sources: self.sources.clone(),
            view: self.view.clone(),
            fingerprint_function: self.fingerprint_function.clone(),
            description,
        };
        proof {
            assert forall|i: int| 0 <= i < self.sources@.len() implies r.sources.deep_view()[i]
                == self.sources.deep_view()[i] by {
                assert(cloned::<TrendMaterializationSource>(self.sources[i], r.sources[i]));
            }
            assert(r.sources.deep_view() =~= self.sources.deep_view());
        }
        r
    }
}

/// A materialization implemented as a function.
pub struct TrendFunctionMaterialization {
    pub target_trend_store_part: String,
    pub enabled: bool,
    pub processing_delay: u64,
    pub stability_delay: u64,
    pub reprocessing_period: u64,
    pub sources: Vec<TrendMaterializationSource>,
    pub function: TrendMaterializationFunction,
    pub fingerprint_function: String,
    pub description: Option<String>,
}

/// The mathematical shape of a function materialization.
pub ghost struct TrendFunctionMaterializationView {
    pub target_trend_store_part: Seq<char>,
    pub enabled: bool,
    pub processing_delay: int,
    pub stability_delay: int,
    pub reprocessing_period: int,
    pub sources: Seq<TrendMaterializationSourceView>,
    pub function: TrendMaterializationFunctionView,
    pub fingerprint_function: Seq<char>,
    pub description: Option<Seq<char>>,
}

impl View for TrendFunctionMaterialization {
    type V = TrendFunctionMaterializationView;

    open spec fn view(&self) -> TrendFunctionMaterializationView {
        TrendFunctionMaterializationView {
            target_trend_store_part: self.target_trend_store_part@,
            enabled: self.enabled,
            processing_delay: self.processing_delay as int,
            stability_delay: self.stability_delay as int,
            reprocessing_period: self.reprocessing_period as int,
            sources: self.sources.deep_view(),
            function: self.function@,
            fingerprint_function: self.fingerprint_function@,
            description: match self.description {
                Option::Some(ref d) => Some(d@),
                Option::None => None,
            },
        }
    }
}

impl DeepView for TrendFunctionMaterialization {
    type V = TrendFunctionMaterializationView;

    open spec fn deep_view(&self) -> TrendFunctionMaterializationView {
        self.view()
    }
}

impl Clone for TrendFunctionMaterialization {
    fn clone(&self) -> (r: Self)
        ensures
            r@ == self@,
    {
        let description = match &self.description {
            Option::Some(d) => Some(d.clone()),
            Option::None => None,
        };
        let r = TrendFunctionMaterialization {
            target_trend_store_part: self.target_trend_store_part.clone(),
            enabled: self.enabled,
            processing_delay: self.processing_delay,
            stability_delay: self.stability_delay,
            reprocessing_period: self.reprocessing_period,
            sources: self.sources.clone(),
            function: self.function.clone(),
            fingerprint_function: self.fingerprint_function.clone(),
            description,
        };
        proof {
            assert forall|i: int| 0 <= i < self.sources@.len() implies r.sources.deep_view()[i]
                == self.sources.deep_view()[i] by {
                assert(cloned::<TrendMaterializationSource>(self.sources[i], r.sources[i]));
            }
            assert(r.sources.deep_view() =~= self.sources.deep_view());
        }
        r
    }
}

/// A materialization: view or function, exactly one at a time.
pub enum TrendMaterialization {
    View(TrendViewMaterialization),
    Function(TrendFunctionMaterialization),
}

/// The mathematical shape of a materialization.
pub ghost enum TrendMaterializationView {
    View(TrendViewMaterializationView),
    Function(TrendFunctionMaterializationView),
}

impl View for TrendMaterialization {
    type V = TrendMaterializationView;

    open spec fn view(&self) -> TrendMaterializationView {
        match self {
            TrendMaterialization::View(m) => TrendMaterializationView::View(m@),
            TrendMaterialization::Function(m) => TrendMaterializationView::Function(m@),
        }
    }
}

impl DeepView for TrendMaterialization {
    type V = TrendMaterializationView;

    open spec fn deep_view(&self) -> TrendMaterializationView {
        self.view()
    }
}

impl Clone for TrendMaterialization {
    fn clone(&self) -> (r: Self)
        ensures
            r@ == self@,
    {
        match self {
            TrendMaterialization::View(m) => TrendMaterialization::View(m.clone()),
            TrendMaterialization::Function(m) => TrendMaterialization::Function(m.clone()),
        }
    }
}

/// The identity key of a materialization: its target part name.
pub open spec fn spec_materialization_name(m: TrendMaterializationView) -> Seq<char> {
    match m {
        TrendMaterializationView::View(v) => v.target_trend_store_part,
        TrendMaterializationView::Function(f) => f.target_trend_store_part,
    }
}

impl TrendMaterialization {
    /// The target part name, the materialization's identity key.
    pub fn name(&self) -> (r: &str)
        ensures
            r@ == spec_materialization_name(self@),
    {
        match self {
            TrendMaterialization::View(m) => m.target_trend_store_part.as_str(),
            TrendMaterialization::Function(m) => m.target_trend_store_part.as_str(),
        }
    }
}

/// The display text of a materialization.
pub open spec fn spec_materialization_text(m: TrendMaterializationView) -> Seq<char> {
    match m {
        TrendMaterializationView::View(v) => "TrendViewMaterialization('"@
            + v.target_trend_store_part + "')"@,
        TrendMaterializationView::Function(f) => "TrendFunctionMaterialization('"@
            + f.target_trend_store_part + "')"@,
    }
}

impl TrendMaterialization {
    /// Renders this materialization for audit messages.
    pub fn describe(&self) -> (r: String)
        ensures
            r@ == spec_materialization_text(self@),
    {
        match self {
            TrendMaterialization::View(m) => {
                let mut r = "TrendViewMaterialization('".to_owned();
                r.append(m.target_trend_store_part.as_str());
                r.append("')");
                r
            },
            TrendMaterialization::Function(m) => {
                let mut r = "TrendFunctionMaterialization('".to_owned();
                r.append(m.target_trend_store_part.as_str());
                r.append("')");
                r
            },
        }
    }
}

/// Registers a whole new materialization.
pub struct AddTrendMaterialization {
    pub trend_materialization: TrendMaterialization,
}

/// The mathematical shape of an `AddTrendMaterialization` change.
pub ghost struct AddTrendMaterializationView {
    pub trend_materialization: TrendMaterializationView,
}

impl View for AddTrendMaterialization {
    type V = AddTrendMaterializationView;

    open spec fn view(&self) -> AddTrendMaterializationView {
        AddTrendMaterializationView { trend_materialization: self.trend_materialization@ }
    }
}

/// The display text of an `AddTrendMaterialization` change.
pub open spec fn spec_add_materialization_text(c: AddTrendMaterializationView) -> Seq<char> {
    "AddTrendMaterialization("@ + spec_materialization_text(c.trend_materialization) + ")"@
}

impl AddTrendMaterialization {
    /// Renders this change for audit messages.
    pub fn describe(&self) -> (r: String)
        ensures
            r@ == spec_add_materialization_text(self@),
    {
        let mut r = "AddTrendMaterialization(".to_owned();
        let s = self.trend_materialization.describe();
        r.append(s.as_str());
        r.append(")");
        r
    }
}

/// Replaces a materialization wholesale: teardown, then recreation from
/// the new definition.
pub struct UpdateTrendMaterialization {
    pub trend_materialization: TrendMaterialization,
}

/// The mathematical shape of an `UpdateTrendMaterialization` change.
pub ghost struct UpdateTrendMaterializationView {
    pub trend_materialization: TrendMaterializationView,
}

impl View for UpdateTrendMaterialization {
    type V = UpdateTrendMaterializationView;

    open spec fn view(&self) -> UpdateTrendMaterializationView {
        UpdateTrendMaterializationView { trend_materialization: self.trend_materialization@ }
    }
}

/// The display text of an `UpdateTrendMaterialization` change.
pub open spec fn spec_update_materialization_text(c: UpdateTrendMaterializationView) -> Seq<
    char,
> {
    "UpdateTrendMaterialization("@ + spec_materialization_text(c.trend_materialization) + ")"@
}

impl UpdateTrendMaterialization {
    /// Renders this change for audit messages.
    pub fn describe(&self) -> (r: String)
        ensures
            r@ == spec_update_materialization_text(self@),
    {
        let mut r = "UpdateTrendMaterialization(".to_owned();
        let s = self.trend_materialization.describe();
        r.append(s.as_str());
        r.append(")");
        r
    }
}

/// Rewrites only the scalar knobs of a view materialization: enablement
/// and the three timing durations. The view body itself is never diffed,
/// because the database rewrites view SQL on creation.
pub struct UpdateTrendViewMaterializationAttributes {
    pub trend_view_materialization: TrendViewMaterialization,
}

/// The mathematical shape of the scalar-knob update.
pub ghost struct UpdateTrendViewMaterializationAttributesView {
    pub trend_view_materialization: TrendViewMaterializationView,
}

impl View for UpdateTrendViewMaterializationAttributes {
    type V = UpdateTrendViewMaterializationAttributesView;

    open spec fn view(&self) -> UpdateTrendViewMaterializationAttributesView {
        UpdateTrendViewMaterializationAttributesView {
            trend_view_materialization: self.trend_view_materialization@,
        }
    }
}

/// The display text of the scalar-knob update.
pub open spec fn spec_update_view_attributes_text(
    c: UpdateTrendViewMaterializationAttributesView,
) -> Seq<char> {
    "UpdateTrendViewMaterializationAttributes("@
        + c.trend_view_materialization.target_trend_store_part + ")"@
}

impl UpdateTrendViewMaterializationAttributes {
    /// Renders this change for audit messages.
    pub fn describe(&self) -> (r: String)
        ensures
            r@ == spec_update_view_attributes_text(self@),
    {
        let mut r = "UpdateTrendViewMaterializationAttributes(".to_owned();
        r.append(self.trend_view_materialization.target_trend_store_part.as_str());
        r.append(")");
        r
    }
}

/// Drops and recreates the view of a view materialization.
pub struct UpdateView {
    pub trend_view_materialization: TrendViewMaterialization,
}

/// The mathematical shape of an `UpdateView` change.
pub ghost struct UpdateViewView {
    pub trend_view_materialization: TrendViewMaterializationView,
}

impl View for UpdateView {
    type V = UpdateViewView;

    open spec fn view(&self) -> UpdateViewView {
        UpdateViewView { trend_view_materialization: self.trend_view_materialization@ }
    }
}

/// The name of the view implementing a materialization: the target part
/// name with a leading underscore.
pub open spec fn spec_view_name(target: Seq<char>) -> Seq<char> {
    "_"@ + target
}

/// The display text of an `UpdateView` change.
pub open spec fn spec_update_view_text(c: UpdateViewView) -> Seq<char> {
    "UpdateView("@ + c.trend_view_materialization.target_trend_store_part + ", "@ + spec_view_name(
        c.trend_view_materialization.target_trend_store_part,
    ) + ")"@
}

impl UpdateView {
    /// Renders this change for audit messages.
    pub fn describe(&self) -> (r: String)
        ensures
            r@ == spec_update_view_text(self@),
    {
        let mut r = "UpdateView(".to_owned();
        r.append(self.trend_view_materialization.target_trend_store_part.as_str());
        r.append(", ");
        r.append("_");
        r.append(self.trend_view_materialization.target_trend_store_part.as_str());
        r.append(")");
        proof {
            assert(r@ =~= spec_update_view_text(self@));
        }
        r
    }
}

/// The PL/pgSQL wrapper around a plain-SQL body: the body between
/// `RETURN QUERY EXECUTE` quoting, handed the timestamp argument.
pub open spec fn spec_sql_to_plpgsql(src: Seq<char>) -> Seq<char> {
    "BEGIN\n"@ + "RETURN QUERY EXECUTE $query$\n"@ + src + "$query$ USING $1;\n"@ + "END;\n"@
}

/// Wraps a plain-SQL body into a PL/pgSQL function body, because the
/// distributed execution layer does not run parameterized plain-SQL
/// functions.
pub fn map_sql_to_plpgsql(src: String) -> (r: String)
    ensures
        r@ == spec_sql_to_plpgsql(src@),
{
    let mut r = "BEGIN\n".to_owned();
    r.append("RETURN QUERY EXECUTE $query$\n");
    r.append(src.as_str());
    r.append("$query$ USING $1;\n");
    r.append("END;\n");
    r
}

/// What language and body a loaded function is coerced to: plain SQL is
/// rewritten into the PL/pgSQL wrapper, PL/pgSQL passes through, any other
/// language is refused.
pub open spec fn spec_coorce_to_plpgsql(lang: Seq<char>, src: Seq<char>) -> Option<
    (Seq<char>, Seq<char>),
> {
    if lang == "sql"@ {
        Some(("plpgsql"@, spec_sql_to_plpgsql(src)))
    } else if lang == "plpgsql"@ {
        Some((lang, src))
    } else {
        None
    }
}

/// Coerces a function body to PL/pgSQL; an unexpected language is a
/// runtime error naming the language.
pub fn coorce_to_plpgsql(pair: (String, String)) -> (r: Result<(String, String), Error>)
    ensures
        match spec_coorce_to_plpgsql(pair.0@, pair.1@) {
            Option::Some(p) => r matches Ok(q) && q.0@ == p.0 && q.1@ == p.1,
            Option::None => r matches Err(e) && e is Runtime && crate::error::spec_error_text(e)
                == "Unexpected language '"@ + pair.0@ + "'"@,
        },
{
    let (lang, src) = pair;
    if str_eq(lang.as_str(), "sql") {
        Ok(("plpgsql".to_owned(), map_sql_to_plpgsql(src)))
    } else if str_eq(lang.as_str(), "plpgsql") {
        Ok((lang, src))
    } else {
        let mut msg = "Unexpected language '".to_owned();
        msg.append(lang.as_str());
        msg.append("'");
        Err(Error::Runtime(RuntimeError::from_msg(msg)))
    }
}


/// Whether two materializations implement through the same mechanism.
/// Switching mechanisms has no incremental diff: it takes a full
/// teardown and recreation.
pub open spec fn spec_compatible(
    a: TrendMaterializationView,
    b: TrendMaterializationView,
) -> bool {
    (a is View <==> b is View)
}

/// The change list between two view materializations of the same target:
/// one scalar-knob update when enablement or any timing duration differs,
/// else nothing. View body text is never compared.
pub open spec fn spec_view_materialization_diff(
    mine: TrendViewMaterializationView,
    other: TrendViewMaterializationView,
) -> Seq<ChangeView> {
    if mine.enabled != other.enabled || mine.processing_delay != other.processing_delay
        || mine.stability_delay != other.stability_delay || mine.reprocessing_period
        != other.reprocessing_period {
        seq![
            ChangeView::UpdateTrendViewMaterializationAttributes(
                UpdateTrendViewMaterializationAttributesView {
                    trend_view_materialization: other,
                },
            ),
        ]
    } else {
        Seq::empty()
    }
}

/// The change list between two same-mechanism materializations of the
/// same target. Function materializations report no diffable change.
pub open spec fn spec_materialization_diff(
    mine: TrendMaterializationView,
    other: TrendMaterializationView,
) -> Seq<ChangeView> {
    match (mine, other) {
        (TrendMaterializationView::View(m), TrendMaterializationView::View(o)) => spec_view_materialization_diff(
            m,
            o,
        ),
        _ => Seq::empty(),
    }
}

impl TrendViewMaterialization {
    /// Compares the scalar knobs of this view materialization against a
    /// declared `other` of the same target.
    pub fn diff(&self, other: &TrendViewMaterialization) -> (r: Vec<crate::change::Change>)
        ensures
            r.deep_view() == spec_view_materialization_diff(self@, other@),
    {
        let mut changes: Vec<crate::change::Change> = Vec::new();
        if self.enabled != other.enabled || self.processing_delay != other.processing_delay
            || self.stability_delay != other.stability_delay || self.reprocessing_period
            != other.reprocessing_period {
            changes.push(
                crate::change::Change::UpdateTrendViewMaterializationAttributes(
                    UpdateTrendViewMaterializationAttributes {
                        trend_view_materialization: other.clone(),
                    },
                ),
            );
        }
        proof {
            assert(changes.deep_view() =~= spec_view_materialization_diff(self@, other@));
        }
        changes
    }
}

impl TrendFunctionMaterialization {
    /// Function materializations have no incremental diff; the change
    /// list is always empty.
    pub fn diff(&self, other: &TrendFunctionMaterialization) -> (r: Vec<crate::change::Change>)
        ensures
            r.deep_view() == Seq::<ChangeView>::empty(),
    {
        let changes: Vec<crate::change::Change> = Vec::new();
        proof {
            assert(changes.deep_view() =~= Seq::<ChangeView>::empty());
        }
        changes
    }
}

impl TrendMaterialization {
    /// Compares two same-mechanism materializations of the same target.
    /// Mixed mechanisms are left out: they take a full teardown, never an
    /// incremental diff.
    pub fn diff(&self, other: &TrendMaterialization) -> (r: Vec<crate::change::Change>)
        requires
            spec_compatible(self@, other@),
        ensures
            r.deep_view() == spec_materialization_diff(self@, other@),
    {
        match self {
            TrendMaterialization::View(m) => match other {
                TrendMaterialization::View(o) => m.diff(o),
                TrendMaterialization::Function(_) => {
                    proof {
                        assert(false);
                    }
                    Vec::new()
                },
            },
            TrendMaterialization::Function(m) => match other {
                TrendMaterialization::View(_) => {
                    proof {
                        assert(false);
                    }
                    Vec::new()
                },
                TrendMaterialization::Function(o) => m.diff(o),
            },
        }
    }
}

/// Diff idempotence at materialization level: a materialization diffed
/// against itself yields no change.
pub proof fn lemma_materialization_diff_idempotent(m: TrendMaterializationView)
    ensures
        spec_materialization_diff(m, m) == Seq::<ChangeView>::empty(),
{
}


/// The fingerprint function name of a materialization target.
pub open spec fn spec_fingerprint_name(target: Seq<char>) -> Seq<char> {
    target + "_fingerprint"@
}

/// The statement creating a fingerprint function: a content hash of the
/// sources at a timestamp, used to detect whether re-materialization is
/// needed.
pub open spec fn spec_create_fingerprint_statement(
    target: Seq<char>,
    body: Seq<char>,
) -> Seq<char> {
    "CREATE FUNCTION trend."@ + spec_sql_ident(spec_fingerprint_name(target))
        + "(timestamp with time zone) RETURNS trend_directory.fingerprint AS $$\n"@ + body
        + "\n$$ LANGUAGE sql STABLE\n"@
}

fn create_fingerprint_statement(target: &str, body: &str) -> (r: String)
    ensures
        r@ == spec_create_fingerprint_statement(target@, body@),
{
    let mut r = "CREATE FUNCTION trend.".to_owned();
    let fp = join_str(target, "_fingerprint");
    let id = sql_ident(fp.as_str());
    r.append(id.as_str());
    r.append("(timestamp with time zone) RETURNS trend_directory.fingerprint AS $$\n");
    r.append(body);
    r.append("\n$$ LANGUAGE sql STABLE\n");
    r
}

/// The statement dropping a fingerprint function.
pub open spec fn spec_drop_fingerprint_statement(target: Seq<char>) -> Seq<char> {
    "DROP FUNCTION IF EXISTS trend."@ + spec_sql_ident(spec_fingerprint_name(target))
        + "(timestamp with time zone)"@
}

fn drop_fingerprint_statement(target: &str) -> (r: String)
    ensures
        r@ == spec_drop_fingerprint_statement(target@),
{
    let mut r = "DROP FUNCTION IF EXISTS trend.".to_owned();
    let fp = join_str(target, "_fingerprint");
    let id = sql_ident(fp.as_str());
    r.append(id.as_str());
    r.append("(timestamp with time zone)");
    r
}

/// One source link insertion.
pub open spec fn spec_connect_source_statement(
    target: Seq<char>,
    src: TrendMaterializationSourceView,
) -> Seq<char> {
    "INSERT INTO trend_directory.materialization_trend_store_link(materialization_id, trend_store_part_id, timestamp_mapping_func) SELECT m.id, stsp.id, "@
        + spec_sql_literal_plain(src.mapping_function + "(timestamptz)"@)
        + "::regprocedure FROM trend_directory.materialization m JOIN trend_directory.trend_store_part dstp ON m.dst_trend_store_part_id = dstp.id, trend_directory.trend_store_part stsp WHERE dstp.name = "@
        + spec_sql_literal_plain(target) + " AND stsp.name = "@ + spec_sql_literal_plain(
        src.trend_store_part,
    )
}

/// The source link insertions, in declaration order.
pub open spec fn spec_connect_sources_statements(
    target: Seq<char>,
    sources: Seq<TrendMaterializationSourceView>,
) -> Seq<Seq<char>>
    decreases sources.len(),
{
    if sources.len() == 0 {
        Seq::empty()
    } else {
        spec_connect_sources_statements(target, sources.drop_last()) + seq![
            spec_connect_source_statement(target, sources.last()),
        ]
    }
}

fn connect_sources_statements(target: &str, sources: &Vec<TrendMaterializationSource>) -> (r: Vec<
    String,
>)
    ensures
        r.deep_view() == spec_connect_sources_statements(target@, sources.deep_view()),
{
    let ghost sdv = sources.deep_view();
    let mut r: Vec<String> = Vec::new();
    let mut i: usize = 0;
    proof {
        assert(sdv.take(0) =~= Seq::<TrendMaterializationSourceView>::empty());
        assert(r.deep_view() =~= Seq::<Seq<char>>::empty());
    }
    while i < sources.len()
        invariant
            0 <= i <= sources.len(),
            sdv == sources.deep_view(),
            sdv.len() == sources.len(),
            r.deep_view() == spec_connect_sources_statements(target@, sdv.take(i as int)),
        decreases sources.len() - i,
    {
        let ghost r0 = r.deep_view();
        let mut stmt =
            "INSERT INTO trend_directory.materialization_trend_store_link(materialization_id, trend_store_part_id, timestamp_mapping_func) SELECT m.id, stsp.id, ".to_owned();
        let func = join_str(sources[i].mapping_function.as_str(), "(timestamptz)");
        let lit = sql_literal(func.as_str());
        stmt.append(lit.as_str());
        stmt.append(
            "::regprocedure FROM trend_directory.materialization m JOIN trend_directory.trend_store_part dstp ON m.dst_trend_store_part_id = dstp.id, trend_directory.trend_store_part stsp WHERE dstp.name = ",
        );
        let lit = sql_literal(target);
        stmt.append(lit.as_str());
        stmt.append(" AND stsp.name = ");
        let lit = sql_literal(sources[i].trend_store_part.as_str());
        stmt.append(lit.as_str());
        r.push(stmt);
        proof {
            assert(sdv.take(i + 1).drop_last() =~= sdv.take(i as int));
            assert(sdv.take(i + 1).last() == sdv[i as int]);
            assert(r.deep_view() =~= r0.push(
                spec_connect_source_statement(target@, sdv[i as int]),
            ));
            assert(r.deep_view() =~= spec_connect_sources_statements(target@, sdv.take(i + 1)));
        }
        i = i + 1;
    }
    proof {
        assert(sdv.take(sources.len() as int) =~= sdv);
    }
    r
}

/// The description a materialization registers: its own JSON text, or an
/// empty JSON object when none was declared.
pub open spec fn spec_description_json(d: Option<Seq<char>>) -> Seq<char> {
    match d {
        Option::Some(t) => t,
        Option::None => "{}"@,
    }
}

fn description_json(d: &Option<String>) -> (r: String)
    ensures
        r@ == spec_description_json(
            match d {
                Option::Some(t) => Some(t@),
                Option::None => None,
            },
        ),
{
    match d {
        Option::Some(t) => t.clone(),
        Option::None => "{}".to_owned(),
    }
}

/// The statement rewriting the scalar knobs of a registered
/// materialization: the three timing durations, the enablement, and the
/// description.
pub open spec fn spec_update_attributes_statement(
    target: Seq<char>,
    enabled: bool,
    processing_delay: int,
    stability_delay: int,
    reprocessing_period: int,
    description: Option<Seq<char>>,
) -> Seq<char> {
    "UPDATE trend_directory.materialization SET processing_delay = "@ + spec_sql_literal_plain(
        spec_interval_sql(processing_delay),
    ) + "::interval, stability_delay = "@ + spec_sql_literal_plain(
        spec_interval_sql(stability_delay),
    ) + "::interval, reprocessing_period = "@ + spec_sql_literal_plain(
        spec_interval_sql(reprocessing_period),
    ) + "::interval, enabled = "@ + (if enabled {
        "true"@
    } else {
        "false"@
    }) + ", description = "@ + spec_sql_literal_plain(spec_description_json(description))
        + "::jsonb WHERE materialization::text = "@ + spec_sql_literal_plain(target)
}

fn update_attributes_statement(
    target: &str,
    enabled: bool,
    processing_delay: u64,
    stability_delay: u64,
    reprocessing_period: u64,
    description: &Option<String>,
) -> (r: String)
    ensures
        r@ == spec_update_attributes_statement(
            target@,
            enabled,
            processing_delay as int,
            stability_delay as int,
            reprocessing_period as int,
            match description {
                Option::Some(t) => Some(t@),
                Option::None => None,
            },
        ),
{
    let mut r = "UPDATE trend_directory.materialization SET processing_delay = ".to_owned();
    let iv = interval_sql_text(processing_delay);
    let lit = sql_literal(iv.as_str());
    r.append(lit.as_str());
    r.append("::interval, stability_delay = ");
    let iv = interval_sql_text(stability_delay);
    let lit = sql_literal(iv.as_str());
    r.append(lit.as_str());
    r.append("::interval, reprocessing_period = ");
    let iv = interval_sql_text(reprocessing_period);
    let lit = sql_literal(iv.as_str());
    r.append(lit.as_str());
    r.append("::interval, enabled = ");
    if enabled {
        r.append("true");
    } else {
        r.append("false");
    }
    r.append(", description = ");
    let d = description_json(description);
    let lit = sql_literal(d.as_str());
    r.append(lit.as_str());
    r.append("::jsonb WHERE materialization::text = ");
    let lit = sql_literal(target);
    r.append(lit.as_str());
    r
}

/// The statements creating a view materialization: the view, its
/// registration with the timing knobs, and the fingerprint function.
pub open spec fn spec_view_create_statements(v: TrendViewMaterializationView) -> Seq<Seq<char>> {
    seq![
        "CREATE VIEW trend."@ + spec_sql_ident(spec_view_name(v.target_trend_store_part)) + " AS "@
            + v.view,
        "SELECT trend_directory.define_view_materialization(id, "@ + spec_sql_literal_plain(
            spec_interval_sql(v.processing_delay),
        ) + "::interval, "@ + spec_sql_literal_plain(spec_interval_sql(v.stability_delay))
            + "::interval, "@ + spec_sql_literal_plain(spec_interval_sql(v.reprocessing_period))
            + "::interval, "@ + spec_sql_literal_plain(
            "trend."@ + spec_sql_ident(spec_view_name(v.target_trend_store_part)),
        ) + "::text::regclass, "@ + spec_sql_literal_plain(spec_description_json(v.description))
            + "::jsonb) FROM trend_directory.trend_store_part WHERE name = "@
            + spec_sql_literal_plain(v.target_trend_store_part),
        spec_create_fingerprint_statement(v.target_trend_store_part, v.fingerprint_function),
    ]
}

/// The statements re-implementing a view materialization after teardown:
/// the view, the link of the existing registration to it, the fingerprint
/// function, the source links, and the scalar knobs.
pub open spec fn spec_view_reimplement_statements(v: TrendViewMaterializationView) -> Seq<
    Seq<char>,
> {
    seq![
        "CREATE VIEW trend."@ + spec_sql_ident(spec_view_name(v.target_trend_store_part)) + " AS "@
            + v.view,
        "INSERT INTO trend_directory.view_materialization(materialization_id, src_view) SELECT m.id, "@
            + spec_sql_literal_plain(
            "trend."@ + spec_sql_ident(spec_view_name(v.target_trend_store_part)),
        )
            + "::text::regclass FROM trend_directory.materialization m JOIN trend_directory.trend_store_part dstp ON m.dst_trend_store_part_id = dstp.id WHERE dstp.name = "@
            + spec_sql_literal_plain(v.target_trend_store_part),
        spec_create_fingerprint_statement(v.target_trend_store_part, v.fingerprint_function),
    ] + spec_connect_sources_statements(v.target_trend_store_part, v.sources) + seq![
        spec_update_attributes_statement(
            v.target_trend_store_part,
            v.enabled,
            v.processing_delay,
            v.stability_delay,
            v.reprocessing_period,
            v.description,
        ),
    ]
}

/// The statements creating a function materialization: the function, the
/// fingerprint function, the registration, the enablement when asked for,
/// and the source links.
pub open spec fn spec_function_create_statements(
    f: TrendFunctionMaterializationView,
) -> Seq<Seq<char>> {
    seq![
        "CREATE FUNCTION trend."@ + spec_sql_ident(f.target_trend_store_part)
            + "(timestamp with time zone) RETURNS "@ + f.function.return_type + " AS $function$\n"@
            + f.function.src + "\n$function$ LANGUAGE "@ + f.function.language,
        spec_create_fingerprint_statement(f.target_trend_store_part, f.fingerprint_function),
        "SELECT trend_directory.define_function_materialization(id, "@ + spec_sql_literal_plain(
            spec_interval_sql(f.processing_delay),
        ) + "::interval, "@ + spec_sql_literal_plain(spec_interval_sql(f.stability_delay))
            + "::interval, "@ + spec_sql_literal_plain(spec_interval_sql(f.reprocessing_period))
            + "::interval, "@ + spec_sql_literal_plain(
            "trend."@ + spec_sql_ident(f.target_trend_store_part)
                + "(timestamp with time zone)"@,
        ) + "::text::regprocedure, "@ + spec_sql_literal_plain(
            spec_description_json(f.description),
        ) + "::jsonb) FROM trend_directory.trend_store_part WHERE name = "@
            + spec_sql_literal_plain(f.target_trend_store_part),
    ] + (if f.enabled {
        seq![
            "UPDATE trend_directory.materialization AS m SET enabled = true FROM trend_directory.trend_store_part AS dtsp WHERE m.dst_trend_store_part_id = dtsp.id AND dtsp.name = "@
                + spec_sql_literal_plain(f.target_trend_store_part),
        ]
    } else {
        Seq::empty()
    }) + spec_connect_sources_statements(f.target_trend_store_part, f.sources)
}

/// The statements re-implementing a function materialization after
/// teardown.
pub open spec fn spec_function_reimplement_statements(
    f: TrendFunctionMaterializationView,
) -> Seq<Seq<char>> {
    seq![
        "CREATE FUNCTION trend."@ + spec_sql_ident(f.target_trend_store_part)
            + "(timestamp with time zone) RETURNS "@ + f.function.return_type + " AS $function$\n"@
            + f.function.src + "\n$function$ LANGUAGE "@ + f.function.language,
        "INSERT INTO trend_directory.function_materialization(materialization_id, src_function) SELECT m.id, "@
            + spec_sql_literal_plain("trend."@ + spec_sql_ident(f.target_trend_store_part))
            + "::text::regproc FROM trend_directory.materialization m JOIN trend_directory.trend_store_part dstp ON m.dst_trend_store_part_id = dstp.id WHERE dstp.name = "@
            + spec_sql_literal_plain(f.target_trend_store_part),
        spec_create_fingerprint_statement(f.target_trend_store_part, f.fingerprint_function),
    ] + spec_connect_sources_statements(f.target_trend_store_part, f.sources) + seq![
        spec_update_attributes_statement(
            f.target_trend_store_part,
            f.enabled,
            f.processing_delay,
            f.stability_delay,
            f.reprocessing_period,
            f.description,
        ),
    ]
}

/// The statements tearing a materialization's implementation down while
/// keeping its registration record: both the view and the function
/// registration are removed — whichever exists — so teardown also serves
/// to switch between the two mechanisms; then the source links and the
/// fingerprint function go.
pub open spec fn spec_teardown_statements(target: Seq<char>) -> Seq<Seq<char>> {
    seq![
        "DELETE FROM trend_directory.view_materialization vm USING trend_directory.materialization m JOIN trend_directory.trend_store_part dstp ON m.dst_trend_store_part_id = dstp.id WHERE m.id = vm.materialization_id AND dstp.name = "@
            + spec_sql_literal_plain(target),
        "DELETE FROM trend_directory.function_materialization fm USING trend_directory.materialization m JOIN trend_directory.trend_store_part dstp ON m.dst_trend_store_part_id = dstp.id WHERE m.id = fm.materialization_id AND dstp.name = "@
            + spec_sql_literal_plain(target),
        "DELETE FROM trend_directory.materialization_trend_store_link tsl USING trend_directory.materialization m JOIN trend_directory.trend_store_part dstp ON m.dst_trend_store_part_id = dstp.id WHERE tsl.materialization_id = m.id AND dstp.name = "@
            + spec_sql_literal_plain(target),
        spec_drop_fingerprint_statement(target),
    ]
}

fn teardown_statements_exec(target: &str) -> (r: Vec<String>)
    ensures
        r.deep_view() == spec_teardown_statements(target@),
{
    let mut r: Vec<String> = Vec::new();
    let lit = sql_literal(target);
    let mut s1 =
        "DELETE FROM trend_directory.view_materialization vm USING trend_directory.materialization m JOIN trend_directory.trend_store_part dstp ON m.dst_trend_store_part_id = dstp.id WHERE m.id = vm.materialization_id AND dstp.name = ".to_owned();
    s1.append(lit.as_str());
    r.push(s1);
    let mut s2 =
        "DELETE FROM trend_directory.function_materialization fm USING trend_directory.materialization m JOIN trend_directory.trend_store_part dstp ON m.dst_trend_store_part_id = dstp.id WHERE m.id = fm.materialization_id AND dstp.name = ".to_owned();
    s2.append(lit.as_str());
    r.push(s2);
    let mut s3 =
        "DELETE FROM trend_directory.materialization_trend_store_link tsl USING trend_directory.materialization m JOIN trend_directory.trend_store_part dstp ON m.dst_trend_store_part_id = dstp.id WHERE tsl.materialization_id = m.id AND dstp.name = ".to_owned();
    s3.append(lit.as_str());
    r.push(s3);
    let s4 = drop_fingerprint_statement(target);
    r.push(s4);
    proof {
        assert(r.deep_view() =~= spec_teardown_statements(target@));
    }
    r
}

/// The statements re-implementing a materialization after teardown.
pub open spec fn spec_reimplement_statements(m: TrendMaterializationView) -> Seq<Seq<char>> {
    match m {
        TrendMaterializationView::View(v) => spec_view_reimplement_statements(v),
        TrendMaterializationView::Function(f) => spec_function_reimplement_statements(f),
    }
}

/// The statements creating a materialization from nothing.
pub open spec fn spec_create_statements(m: TrendMaterializationView) -> Seq<Seq<char>> {
    match m {
        TrendMaterializationView::View(v) => spec_view_create_statements(v),
        TrendMaterializationView::Function(f) => spec_function_create_statements(f),
    }
}

/// The statements updating a materialization: there is no incremental
/// path for the compiled SQL objects, so every update is a full teardown
/// followed by a full re-implementation from the new definition.
pub open spec fn spec_update_statements(m: TrendMaterializationView) -> Seq<Seq<char>> {
    spec_teardown_statements(spec_materialization_name(m)) + spec_reimplement_statements(m)
}

/// The statements deleting a materialization.
pub open spec fn spec_delete_statements(m: TrendMaterializationView) -> Seq<Seq<char>> {
    match m {
        TrendMaterializationView::View(v) => seq![
            "DROP VIEW IF EXISTS trend."@ + spec_sql_ident(
                spec_view_name(v.target_trend_store_part),
            ),
            spec_drop_fingerprint_statement(v.target_trend_store_part),
        ],
        TrendMaterializationView::Function(f) => seq![
            "DELETE FROM trend_directory.materialization_trend_store_link tsl USING trend_directory.materialization m JOIN trend_directory.trend_store_part dstp ON m.dst_trend_store_part_id = dstp.id WHERE dstp.name = "@
                + spec_sql_literal_plain(f.target_trend_store_part)
                + " AND tsl.materialization_id = m.id"@,
            "DELETE FROM trend_directory.materialization WHERE materialization::text = "@
                + spec_sql_literal_plain(f.target_trend_store_part),
            spec_drop_fingerprint_statement(f.target_trend_store_part),
        ],
    }
}

/// Teardown before recreation: every update plan is exactly the teardown
/// statements — which de-register both the view and the function
/// implementation — followed by the statements installing the one new
/// implementation. Nothing of the old implementation survives into the
/// new plan, so after an update exactly one implementation is registered.
pub proof fn lemma_update_is_teardown_then_reimplement(m: TrendMaterializationView)
    ensures
        spec_update_statements(m) == spec_teardown_statements(spec_materialization_name(m))
            + spec_reimplement_statements(m),
        spec_update_statements(m).take(4) == spec_teardown_statements(
            spec_materialization_name(m),
        ),
{
    assert(spec_update_statements(m).take(4) =~= spec_teardown_statements(
        spec_materialization_name(m),
    ));
}

impl TrendViewMaterialization {
    fn view_ident_text(&self) -> (r: String)
        ensures
            r@ == "trend."@ + spec_sql_ident(spec_view_name(self@.target_trend_store_part)),
    {
        let mut v = "_".to_owned();
        v.append(self.target_trend_store_part.as_str());
        let id = sql_ident(v.as_str());
        let mut r = "trend.".to_owned();
        r.append(id.as_str());
        r
    }

    /// The SQL statements creating this view materialization.
    pub fn create_statements(&self) -> (r: Vec<String>)
        ensures
            r.deep_view() == spec_view_create_statements(self@),
    {
        let mut r: Vec<String> = Vec::new();
        let mut v = "_".to_owned();
        v.append(self.target_trend_store_part.as_str());
        let id = sql_ident(v.as_str());
        let mut s1 = "CREATE VIEW trend.".to_owned();
        s1.append(id.as_str());
        s1.append(" AS ");
        s1.append(self.view.as_str());
        r.push(s1);
        let mut s2 = "SELECT trend_directory.define_view_materialization(id, ".to_owned();
        let iv = interval_sql_text(self.processing_delay);
        let lit = sql_literal(iv.as_str());
        s2.append(lit.as_str());
        s2.append("::interval, ");
        let iv = interval_sql_text(self.stability_delay);
        let lit = sql_literal(iv.as_str());
        s2.append(lit.as_str());
        s2.append("::interval, ");
        let iv = interval_sql_text(self.reprocessing_period);
        let lit = sql_literal(iv.as_str());
        s2.append(lit.as_str());
        s2.append("::interval, ");
        let vi = self.view_ident_text();
        let lit = sql_literal(vi.as_str());
        s2.append(lit.as_str());
        s2.append("::text::regclass, ");
        let d = description_json(&self.description);
        let lit = sql_literal(d.as_str());
        s2.append(lit.as_str());
        s2.append("::jsonb) FROM trend_directory.trend_store_part WHERE name = ");
        let lit = sql_literal(self.target_trend_store_part.as_str());
        s2.append(lit.as_str());
        r.push(s2);
        let s3 = create_fingerprint_statement(
            self.target_trend_store_part.as_str(),
            self.fingerprint_function.as_str(),
        );
        r.push(s3);
        proof {
            assert(r.deep_view() =~= spec_view_create_statements(self@));
        }
        r
    }

    /// The SQL statements re-implementing this view materialization after
    /// teardown.
    pub fn reimplement_statements(&self) -> (r: Vec<String>)
        ensures
            r.deep_view() == spec_view_reimplement_statements(self@),
    {
        let mut r: Vec<String> = Vec::new();
        let mut v = "_".to_owned();
        v.append(self.target_trend_store_part.as_str());
        let id = sql_ident(v.as_str());
        let mut s1 = "CREATE VIEW trend.".to_owned();
        s1.append(id.as_str());
        s1.append(" AS ");
        s1.append(self.view.as_str());
        r.push(s1);
        let mut s2 =
            "INSERT INTO trend_directory.view_materialization(materialization_id, src_view) SELECT m.id, ".to_owned();
        let vi = self.view_ident_text();
        let lit = sql_literal(vi.as_str());
        s2.append(lit.as_str());
        s2.append(
            "::text::regclass FROM trend_directory.materialization m JOIN trend_directory.trend_store_part dstp ON m.dst_trend_store_part_id = dstp.id WHERE dstp.name = ",
        );
        let lit = sql_literal(self.target_trend_store_part.as_str());
        s2.append(lit.as_str());
        r.push(s2);
        let s3 = create_fingerprint_statement(
            self.target_trend_store_part.as_str(),
            self.fingerprint_function.as_str(),
        );
        r.push(s3);
        let ghost head = r.deep_view();
        let mut links = connect_sources_statements(
            self.target_trend_store_part.as_str(),
            &self.sources,
        );
        let ghost ldv = links.deep_view();
        r.append(&mut links);
        let s5 = update_attributes_statement(
            self.target_trend_store_part.as_str(),
            self.enabled,
            self.processing_delay,
            self.stability_delay,
            self.reprocessing_period,
            &self.description,
        );
        r.push(s5);
        proof {
            assert(r.deep_view() =~= spec_view_reimplement_statements(self@));
        }
        r
    }
}

impl TrendFunctionMaterialization {
    /// The SQL statements creating this function materialization.
    pub fn create_statements(&self) -> (r: Vec<String>)
        ensures
            r.deep_view() == spec_function_create_statements(self@),
    {
        let mut r: Vec<String> = Vec::new();
        let id = sql_ident(self.target_trend_store_part.as_str());
        let mut s1 = "CREATE FUNCTION trend.".to_owned();
        s1.append(id.as_str());
        s1.append("(timestamp with time zone) RETURNS ");
        s1.append(self.function.return_type.as_str());
        s1.append(" AS $function$\n");
        s1.append(self.function.src.as_str());
        s1.append("\n$function$ LANGUAGE ");
        s1.append(self.function.language.as_str());
        r.push(s1);
        let s2 = create_fingerprint_statement(
            self.target_trend_store_part.as_str(),
            self.fingerprint_function.as_str(),
        );
        r.push(s2);
        let mut s3 = "SELECT trend_directory.define_function_materialization(id, ".to_owned();
        let iv = interval_sql_text(self.processing_delay);
        let lit = sql_literal(iv.as_str());
        s3.append(lit.as_str());
        s3.append("::interval, ");
        let iv = interval_sql_text(self.stability_delay);
        let lit = sql_literal(iv.as_str());
        s3.append(lit.as_str());
        s3.append("::interval, ");
        let iv = interval_sql_text(self.reprocessing_period);
        let lit = sql_literal(iv.as_str());
        s3.append(lit.as_str());
        s3.append("::interval, ");
        let mut fi = "trend.".to_owned();
        fi.append(id.as_str());
        fi.append("(timestamp with time zone)");
        let lit = sql_literal(fi.as_str());
        s3.append(lit.as_str());
        s3.append("::text::regprocedure, ");
        let d = description_json(&self.description);
        let lit = sql_literal(d.as_str());
        s3.append(lit.as_str());
        s3.append("::jsonb) FROM trend_directory.trend_store_part WHERE name = ");
        let lit = sql_literal(self.target_trend_store_part.as_str());
        s3.append(lit.as_str());
        r.push(s3);
        if self.enabled {
            let mut s4 =
                "UPDATE trend_directory.materialization AS m SET enabled = true FROM trend_directory.trend_store_part AS dtsp WHERE m.dst_trend_store_part_id = dtsp.id AND dtsp.name = ".to_owned();
            let lit = sql_literal(self.target_trend_store_part.as_str());
            s4.append(lit.as_str());
            r.push(s4);
        }
        let mut links = connect_sources_statements(
            self.target_trend_store_part.as_str(),
            &self.sources,
        );
        r.append(&mut links);
        proof {
            assert(r.deep_view() =~= spec_function_create_statements(self@));
        }
        r
    }

    /// The SQL statements re-implementing this function materialization
    /// after teardown.
    pub fn reimplement_statements(&self) -> (r: Vec<String>)
        ensures
            r.deep_view() == spec_function_reimplement_statements(self@),
    {
        let mut r: Vec<String> = Vec::new();
        let id = sql_ident(self.target_trend_store_part.as_str());
        let mut s1 = "CREATE FUNCTION trend.".to_owned();
        s1.append(id.as_str());
        s1.append("(timestamp with time zone) RETURNS ");
        s1.append(self.function.return_type.as_str());
        s1.append(" AS $function$\n");
        s1.append(self.function.src.as_str());
        s1.append("\n$function$ LANGUAGE ");
        s1.append(self.function.language.as_str());
        r.push(s1);
        let mut s2 =
            "INSERT INTO trend_directory.function_materialization(materialization_id, src_function) SELECT m.id, ".to_owned();
        let mut fi = "trend.".to_owned();
        fi.append(id.as_str());
        let lit = sql_literal(fi.as_str());
        s2.append(lit.as_str());
        s2.append(
            "::text::regproc FROM trend_directory.materialization m JOIN trend_directory.trend_store_part dstp ON m.dst_trend_store_part_id = dstp.id WHERE dstp.name = ",
        );
        let lit = sql_literal(self.target_trend_store_part.as_str());
        s2.append(lit.as_str());
        r.push(s2);
        let s3 = create_fingerprint_statement(
            self.target_trend_store_part.as_str(),
            self.fingerprint_function.as_str(),
        );
        r.push(s3);
        let mut links = connect_sources_statements(
            self.target_trend_store_part.as_str(),
            &self.sources,
        );
        r.append(&mut links);
        let s5 = update_attributes_statement(
            self.target_trend_store_part.as_str(),
            self.enabled,
            self.processing_delay,
            self.stability_delay,
            self.reprocessing_period,
            &self.description,
        );
        r.push(s5);
        proof {
            assert(r.deep_view() =~= spec_function_reimplement_statements(self@));
        }
        r
    }
}

impl TrendMaterialization {
    /// The SQL statements creating this materialization from nothing.
    pub fn create_statements(&self) -> (r: Vec<String>)
        ensures
            r.deep_view() == spec_create_statements(self@),
    {
        match self {
            TrendMaterialization::View(m) => m.create_statements(),
            TrendMaterialization::Function(m) => m.create_statements(),
        }
    }

    /// The SQL statements tearing this materialization's implementation
    /// down: both mechanisms are de-registered, whichever exists.
    pub fn teardown_statements(&self) -> (r: Vec<String>)
        ensures
            r.deep_view() == spec_teardown_statements(spec_materialization_name(self@)),
    {
        teardown_statements_exec(self.name())
    }

    /// The SQL statements updating this materialization: teardown first,
    /// then the full re-implementation from the new definition.
    pub fn update_statements(&self) -> (r: Vec<String>)
        ensures
            r.deep_view() == spec_update_statements(self@),
    {
        let mut r = self.teardown_statements();
        let ghost head = r.deep_view();
        let mut rest = match self {
            TrendMaterialization::View(m) => m.reimplement_statements(),
            TrendMaterialization::Function(m) => m.reimplement_statements(),
        };
        let ghost rdv = rest.deep_view();
        r.append(&mut rest);
        proof {
            assert(r.deep_view() =~= spec_update_statements(self@));
        }
        r
    }

    /// The SQL statements deleting this materialization.
    pub fn delete_statements(&self) -> (r: Vec<String>)
        ensures
            r.deep_view() == spec_delete_statements(self@),
    {
        match self {
            TrendMaterialization::View(m) => {
                let mut r: Vec<String> = Vec::new();
                let mut v = "_".to_owned();
                v.append(m.target_trend_store_part.as_str());
                let id = sql_ident(v.as_str());
                let mut s1 = "DROP VIEW IF EXISTS trend.".to_owned();
                s1.append(id.as_str());
                r.push(s1);
                let s2 = drop_fingerprint_statement(m.target_trend_store_part.as_str());
                r.push(s2);
                proof {
                    assert(r.deep_view() =~= spec_delete_statements(self@));
                }
                r
            },
            TrendMaterialization::Function(m) => {
                let mut r: Vec<String> = Vec::new();
                let lit = sql_literal(m.target_trend_store_part.as_str());
                let mut s1 =
                    "DELETE FROM trend_directory.materialization_trend_store_link tsl USING trend_directory.materialization m JOIN trend_directory.trend_store_part dstp ON m.dst_trend_store_part_id = dstp.id WHERE dstp.name = ".to_owned();
                s1.append(lit.as_str());
                s1.append(" AND tsl.materialization_id = m.id");
                r.push(s1);
                let mut s2 =
                    "DELETE FROM trend_directory.materialization WHERE materialization::text = ".to_owned();
                s2.append(lit.as_str());
                r.push(s2);
                let s3 = drop_fingerprint_statement(m.target_trend_store_part.as_str());
                r.push(s3);
                proof {
                    assert(r.deep_view() =~= spec_delete_statements(self@));
                }
                r
            },
        }
    }
}

/// The statements of an `AddTrendMaterialization` change.
pub open spec fn spec_add_materialization_statements(c: AddTrendMaterializationView) -> Seq<
    Seq<char>,
> {
    spec_create_statements(c.trend_materialization)
}

/// The success message of an `AddTrendMaterialization` change.
pub open spec fn spec_add_materialization_message(c: AddTrendMaterializationView) -> Seq<char> {
    "Added trend materialization '"@ + spec_materialization_text(c.trend_materialization) + "'"@
}

impl AddTrendMaterialization {
    /// The SQL statements applying this change, in order.
    pub fn statements(&self) -> (r: Vec<String>)
        ensures
            r.deep_view() == spec_add_materialization_statements(self@),
    {
        self.trend_materialization.create_statements()
    }

    /// The message reported when this change applies cleanly.
    pub fn message(&self) -> (r: String)
        ensures
            r@ == spec_add_materialization_message(self@),
    {
        let mut r = "Added trend materialization '".to_owned();
        let s = self.trend_materialization.describe();
        r.append(s.as_str());
        r.append("'");
        r
    }
}

/// The statements of an `UpdateTrendMaterialization` change.
pub open spec fn spec_update_materialization_statements(c: UpdateTrendMaterializationView) -> Seq<
    Seq<char>,
> {
    spec_update_statements(c.trend_materialization)
}

/// The success message of an `UpdateTrendMaterialization` change.
pub open spec fn spec_update_materialization_message(c: UpdateTrendMaterializationView) -> Seq<
    char,
> {
    "Updated trend materialization '"@ + spec_materialization_text(c.trend_materialization) + "'"@
}

impl UpdateTrendMaterialization {
    /// The SQL statements applying this change: teardown, then the full
    /// re-implementation.
    pub fn statements(&self) -> (r: Vec<String>)
        ensures
            r.deep_view() == spec_update_materialization_statements(self@),
    {
        self.trend_materialization.update_statements()
    }

    /// The message reported when this change applies cleanly.
    pub fn message(&self) -> (r: String)
        ensures
            r@ == spec_update_materialization_message(self@),
    {
        let mut r = "Updated trend materialization '".to_owned();
        let s = self.trend_materialization.describe();
        r.append(s.as_str());
        r.append("'");
        r
    }
}

/// The one statement of the scalar-knob update.
pub open spec fn spec_update_view_attributes_statements(
    c: UpdateTrendViewMaterializationAttributesView,
) -> Seq<Seq<char>> {
    seq![
        spec_update_attributes_statement(
            c.trend_view_materialization.target_trend_store_part,
            c.trend_view_materialization.enabled,
            c.trend_view_materialization.processing_delay,
            c.trend_view_materialization.stability_delay,
            c.trend_view_materialization.reprocessing_period,
            c.trend_view_materialization.description,
        ),
    ]
}

/// The success message of the scalar-knob update.
pub open spec fn spec_update_view_attributes_message(
    c: UpdateTrendViewMaterializationAttributesView,
) -> Seq<char> {
    "Updated attributes of view materialization"@
}

impl UpdateTrendViewMaterializationAttributes {
    /// The SQL statements applying this change.
    pub fn statements(&self) -> (r: Vec<String>)
        ensures
            r.deep_view() == spec_update_view_attributes_statements(self@),
    {
        let stmt = update_attributes_statement(
            self.trend_view_materialization.target_trend_store_part.as_str(),
            self.trend_view_materialization.enabled,
            self.trend_view_materialization.processing_delay,
            self.trend_view_materialization.stability_delay,
            self.trend_view_materialization.reprocessing_period,
            &self.trend_view_materialization.description,
        );
        let mut r: Vec<String> = Vec::new();
        r.push(stmt);
        proof {
            assert(r.deep_view() =~= spec_update_view_attributes_statements(self@));
        }
        r
    }

    /// The message reported when this change applies cleanly.
    pub fn message(&self) -> (r: String)
        ensures
            r@ == spec_update_view_attributes_message(self@),
    {
        "Updated attributes of view materialization".to_owned()
    }
}


/// One CTE of the fingerprint refresh query: the mapped timestamps of one
/// source, numbered from one.
pub open spec fn spec_fingerprint_cte(index: int, src: (Seq<char>, Seq<char>)) -> Seq<char> {
    "source_"@ + spec_dec_digits(index) + " AS (select "@ + src.0
        + "(timestamp) AS timestamp from trend."@ + spec_sql_ident(src.1)
        + " group by timestamp)"@
}

/// The CTEs of all sources, joined with commas.
pub open spec fn spec_fingerprint_ctes(sources: Seq<(Seq<char>, Seq<char>)>) -> Seq<char>
    decreases sources.len(),
{
    if sources.len() == 0 {
        Seq::empty()
    } else if sources.len() == 1 {
        spec_fingerprint_cte(1, sources[0])
    } else {
        spec_fingerprint_ctes(sources.drop_last()) + ","@ + spec_fingerprint_cte(
            sources.len() as int,
            sources.last(),
        )
    }
}

/// The query body joining every source's timestamps onto the first's.
pub open spec fn spec_fingerprint_joins(n: int) -> Seq<char>
    decreases n,
{
    if n <= 0 {
        Seq::empty()
    } else if n == 1 {
        "SELECT trend_directory.update_source_fingerprint(m.id, source_1.timestamp) FROM source_1"@
    } else {
        spec_fingerprint_joins(n - 1) + " JOIN source_"@ + spec_dec_digits(n)
            + " ON source_1.timestamp = source_"@ + spec_dec_digits(n) + ".timestamp"@
    }
}

/// The whole fingerprint refresh query over the fetched (mapping
/// function, source part) pairs.
pub open spec fn spec_fingerprint_update_query(
    sources: Seq<(Seq<char>, Seq<char>)>,
    materialization: Seq<char>,
) -> Seq<char> {
    "WITH "@ + spec_fingerprint_ctes(sources) + " "@ + spec_fingerprint_joins(
        sources.len() as int,
    ) + ", trend_directory.materialization m WHERE m::text = "@ + spec_sql_literal_plain(
        materialization,
    )
}

/// Builds the fingerprint refresh query from the fetched source pairs.
pub fn fingerprint_update_query(sources: &Vec<(String, String)>, materialization: &str) -> (r:
    String)
    ensures
        r@ == spec_fingerprint_update_query(sources.deep_view(), materialization@),
{
    let ghost sdv = sources.deep_view();
    let mut ctes = String::new();
    let mut joins = String::new();
    let mut i: usize = 0;
    proof {
        assert(sdv.take(0) =~= Seq::<(Seq<char>, Seq<char>)>::empty());
    }
    while i < sources.len()
        invariant
            0 <= i <= sources.len(),
            sdv == sources.deep_view(),
            sdv.len() == sources.len(),
            ctes@ == spec_fingerprint_ctes(sdv.take(i as int)),
            joins@ == spec_fingerprint_joins(i as int),
        decreases sources.len() - i,
    {
        if i > 0 {
            ctes.append(",");
        }
        ctes.append("source_");
        let n = u64_to_string((i + 1) as u64);
        ctes.append(n.as_str());
        ctes.append(" AS (select ");
        ctes.append(sources[i].0.as_str());
        ctes.append("(timestamp) AS timestamp from trend.");
        let id = sql_ident(sources[i].1.as_str());
        ctes.append(id.as_str());
        ctes.append(" group by timestamp)");
        if i == 0 {
            joins.append(
                "SELECT trend_directory.update_source_fingerprint(m.id, source_1.timestamp) FROM source_1",
            );
        } else {
            joins.append(" JOIN source_");
            joins.append(n.as_str());
            joins.append(" ON source_1.timestamp = source_");
            joins.append(n.as_str());
            joins.append(".timestamp");
        }
        proof {
            assert(sdv.take(i + 1).drop_last() =~= sdv.take(i as int));
            assert(sdv.take(i + 1).last() == sdv[i as int]);
        }
        i = i + 1;
    }
    proof {
        assert(sdv.take(sources.len() as int) =~= sdv);
    }
    let mut r = "WITH ".to_owned();
    r.append(ctes.as_str());
    r.append(" ");
    r.append(joins.as_str());
    r.append(", trend_directory.materialization m WHERE m::text = ");
    let lit = sql_literal(materialization);
    r.append(lit.as_str());
    r
}

/// Refreshes the stored source fingerprint of a materialization from its
/// sources' timestamps.
pub fn populate_source_fingerprint(
    client: &mut postgres::Client,
    materialization: &str,
) -> (r: Result<(), String>) {
    let mut q =
        "SELECT mtsl.timestamp_mapping_func::regproc::text, tsp.name FROM trend_directory.materialization m JOIN trend_directory.materialization_trend_store_link mtsl ON mtsl.materialization_id = m.id JOIN trend_directory.trend_store_part tsp ON tsp.id = mtsl.trend_store_part_id WHERE m::text = ".to_owned();
    let lit = sql_literal(materialization);
    q.append(lit.as_str());
    let rows = match pg::query(client, q.as_str()) {
        Ok(rows) => rows,
        Err(e) => {
            return Err(e.msg);
        },
    };
    let mut sources: Vec<(String, String)> = Vec::new();
    let mut i: usize = 0;
    while i < rows.len()
        invariant
            sources@.len() <= i,
        decreases rows.len() - i,
    {
        let func = match pg::row_string(&rows[i], 0) {
            Ok(v) => v,
            Err(e) => {
                return Err(e.msg);
            },
        };
        let part = match pg::row_string(&rows[i], 1) {
            Ok(v) => v,
            Err(e) => {
                return Err(e.msg);
            },
        };
        sources.push((func, part));
        i = i + 1;
    }
    if sources.len() == 0 {
        return Err("materialization has no sources".to_owned());
    }
    let update_q = fingerprint_update_query(&sources, materialization);
    match pg::execute(client, update_q.as_str()) {
        Ok(_) => Ok(()),
        Err(e) => Err(e.msg),
    }
}

/// Rewrites the stored source fingerprints of a materialization from its
/// own fingerprint function.
pub fn reset_source_fingerprint(
    client: &mut postgres::Client,
    materialization: &str,
) -> (r: Result<(), String>) {
    let mut q =
        "UPDATE trend_directory.materialization_state nms SET source_fingerprint = (trend.".to_owned();
    let fp = join_str(materialization, "_fingerprint");
    let id = sql_ident(fp.as_str());
    q.append(id.as_str());
    q.append(
        "(ms.timestamp)).body FROM trend_directory.materialization_state ms JOIN trend_directory.materialization m ON ms.materialization_id = m.id WHERE m::text = ",
    );
    let lit = sql_literal(materialization);
    q.append(lit.as_str());
    q.append(" AND nms.materialization_id = m.id AND nms.timestamp = ms.timestamp");
    match pg::execute(client, q.as_str()) {
        Ok(_) => Ok(()),
        Err(e) => Err(e.msg),
    }
}

/// Reads a view's stored definition back.
pub fn get_view_def(client: &mut postgres::Client, view: &str) -> (r: Option<String>) {
    let mut q = "SELECT pg_get_viewdef(".to_owned();
    let lit = sql_literal(view);
    q.append(lit.as_str());
    q.append("::regclass::oid)");
    match pg::query_one(client, q.as_str()) {
        Ok(row) => match pg::row_string(&row, 0) {
            Ok(v) => Some(v),
            Err(_) => None,
        },
        Err(_) => None,
    }
}

/// Reads a function's language and body back by name.
pub fn get_function_def(client: &mut postgres::Client, function: &str) -> (r: Option<
    (String, String),
>) {
    let mut q =
        "SELECT lanname, prosrc FROM pg_proc JOIN pg_language ON pg_language.oid = prolang WHERE proname = ".to_owned();
    let lit = sql_literal(function);
    q.append(lit.as_str());
    match pg::query_one(client, q.as_str()) {
        Ok(row) => {
            let lang = match pg::row_string(&row, 0) {
                Ok(v) => v,
                Err(_) => {
                    return None;
                },
            };
            let src = match pg::row_string(&row, 1) {
                Ok(v) => v,
                Err(_) => {
                    return None;
                },
            };
            Some((lang, src))
        },
        Err(_) => None,
    }
}

/// The declared return table of a function: one quoted column per
/// argument name and type pair.
pub open spec fn spec_return_type_columns(cols: Seq<(Seq<char>, Seq<char>)>) -> Seq<char>
    decreases cols.len(),
{
    if cols.len() == 0 {
        Seq::empty()
    } else if cols.len() == 1 {
        "    "@ + spec_sql_ident(cols[0].0) + " "@ + cols[0].1
    } else {
        spec_return_type_columns(cols.drop_last()) + ",\n"@ + "    "@ + spec_sql_ident(
            cols.last().0,
        ) + " "@ + cols.last().1
    }
}

/// The `TABLE (...)` return type text over fetched column pairs.
pub open spec fn spec_return_type_text(cols: Seq<(Seq<char>, Seq<char>)>) -> Seq<char> {
    "TABLE (\n"@ + spec_return_type_columns(cols) + "\n)\n"@
}

/// Builds the `TABLE (...)` return type text from fetched column pairs.
pub fn return_type_text(cols: &Vec<(String, String)>) -> (r: String)
    ensures
        r@ == spec_return_type_text(cols.deep_view()),
{
    let ghost cdv = cols.deep_view();
    let mut body = String::new();
    let mut i: usize = 0;
    proof {
        assert(cdv.take(0) =~= Seq::<(Seq<char>, Seq<char>)>::empty());
    }
    while i < cols.len()
        invariant
            0 <= i <= cols.len(),
            cdv == cols.deep_view(),
            cdv.len() == cols.len(),
            body@ == spec_return_type_columns(cdv.take(i as int)),
        decreases cols.len() - i,
    {
        if i > 0 {
            body.append(",\n");
        }
        body.append("    ");
        let id = sql_ident(cols[i].0.as_str());
        body.append(id.as_str());
        body.append(" ");
        body.append(cols[i].1.as_str());
        proof {
            assert(cdv.take(i + 1).drop_last() =~= cdv.take(i as int));
            assert(cdv.take(i + 1).last() == cdv[i as int]);
        }
        i = i + 1;
    }
    proof {
        assert(cdv.take(cols.len() as int) =~= cdv);
    }
    let mut r = "TABLE (\n".to_owned();
    r.append(body.as_str());
    r.append("\n)\n");
    r
}

/// Reads a function's declared return table back by name.
pub fn get_function_return_type(client: &mut postgres::Client, function_name: &str) -> (r: Option<
    String,
>) {
    let mut q =
        "SELECT unnest(proargnames[2:]), format_type(unnest(proallargtypes[2:]), null) FROM pg_proc WHERE proname = ".to_owned();
    let lit = sql_literal(function_name);
    q.append(lit.as_str());
    let rows = match pg::query(client, q.as_str()) {
        Ok(rows) => rows,
        Err(_) => {
            return None;
        },
    };
    let mut cols: Vec<(String, String)> = Vec::new();
    let mut i: usize = 0;
    while i < rows.len()
        decreases rows.len() - i,
    {
        let name = match pg::row_string(&rows[i], 0) {
            Ok(v) => v,
            Err(_) => {
                return None;
            },
        };
        let data_type = match pg::row_string(&rows[i], 1) {
            Ok(v) => v,
            Err(_) => {
                return None;
            },
        };
        cols.push((name, data_type));
        i = i + 1;
    }
    Some(return_type_text(&cols))
}

fn load_sources(client: &mut postgres::Client, materialization_id: i32) -> (r: Result<
    Vec<TrendMaterializationSource>,
    Error,
>)
    ensures
        r matches Err(e) ==> e is Database,
{
    let mut q =
        "SELECT tsp.name, mtsl.timestamp_mapping_func::regproc::text FROM trend_directory.materialization_trend_store_link mtsl JOIN trend_directory.trend_store_part tsp ON tsp.id = mtsl.trend_store_part_id WHERE mtsl.materialization_id = ".to_owned();
    let n = i64_to_string(materialization_id as i64);
    q.append(n.as_str());
    let rows = match pg::query(client, q.as_str()) {
        Ok(rows) => rows,
        Err(e) => {
            return Err(Error::Database(e));
        },
    };
    let mut sources: Vec<TrendMaterializationSource> = Vec::new();
    let mut i: usize = 0;
    while i < rows.len()
        decreases rows.len() - i,
    {
        let part = match pg::row_string(&rows[i], 0) {
            Ok(v) => v,
            Err(e) => {
                return Err(Error::Database(e));
            },
        };
        let func = match pg::row_string(&rows[i], 1) {
            Ok(v) => v,
            Err(e) => {
                return Err(Error::Database(e));
            },
        };
        sources.push(
            TrendMaterializationSource { trend_store_part: part, mapping_function: func },
        );
        i = i + 1;
    }
    Ok(sources)
}

fn parse_timing(text: &String, what: &str, target: &str) -> (r: Result<u64, Error>)
    ensures
        r matches Err(e) ==> e is Runtime,
{
    match crate::interval::parse_interval(text.as_str()) {
        Option::Some(v) => Ok(v),
        Option::None => {
            let mut msg = "Could not load materialization '".to_owned();
            msg.append(target);
            msg.append("' due to failure in parsing of ");
            msg.append(what);
            Err(Error::Runtime(RuntimeError::from_msg(msg)))
        },
    }
}

/// Whether a materialization's implementation language is what loading
/// guarantees: a function materialization always comes back in PL/pgSQL,
/// because the distributed execution layer runs nothing else.
pub open spec fn spec_loaded_language_is_plpgsql(m: TrendMaterializationView) -> bool {
    m matches TrendMaterializationView::Function(f) ==> f.function.language == "plpgsql"@
}

/// Loads every registered materialization from the live database,
/// rebuilding the view or function model from the stored objects; a
/// stored plain-SQL function body is coerced back to its PL/pgSQL form,
/// so every loaded function materialization's language is PL/pgSQL. A
/// failing call is a database error; an unreadable timing duration or an
/// unexpected stored language is a runtime error.
pub fn load_materializations(client: &mut postgres::Client) -> (r: Result<
    Vec<TrendMaterialization>,
    Error,
>)
    ensures
        r matches Err(e) ==> (e is Database || e is Runtime),
        r matches Ok(ms) ==> forall|a: int|
            0 <= a < ms@.len() ==> spec_loaded_language_is_plpgsql((#[trigger] ms@[a])@),
{
    let rows = match pg::query(
        client,
        "SELECT m.id, m.processing_delay::text, m.stability_delay::text, m.reprocessing_period::text, m.enabled, m.description::text, tsp.name, vm.src_view::text, fm.src_function::text FROM trend_directory.materialization AS m JOIN trend_directory.trend_store_part AS tsp ON tsp.id = m.dst_trend_store_part_id LEFT JOIN trend_directory.view_materialization AS vm ON vm.materialization_id = m.id LEFT JOIN trend_directory.function_materialization AS fm ON fm.materialization_id = m.id",
    ) {
        Ok(rows) => rows,
        Err(e) => {
            return Err(Error::Database(e));
        },
    };
    let mut materializations: Vec<TrendMaterialization> = Vec::new();
    let mut i: usize = 0;
    while i < rows.len()
        invariant
            forall|a: int|
                0 <= a < materializations@.len() ==> spec_loaded_language_is_plpgsql(
                    (#[trigger] materializations@[a])@,
                ),
        decreases rows.len() - i,
    {
        let materialization_id = match pg::row_i32(&rows[i], 0) {
            Ok(v) => v,
            Err(e) => {
                return Err(Error::Database(e));
            },
        };
        let processing_delay_text = match pg::row_string(&rows[i], 1) {
            Ok(v) => v,
            Err(e) => {
                return Err(Error::Database(e));
            },
        };
        let stability_delay_text = match pg::row_string(&rows[i], 2) {
            Ok(v) => v,
            Err(e) => {
                return Err(Error::Database(e));
            },
        };
        let reprocessing_period_text = match pg::row_string(&rows[i], 3) {
            Ok(v) => v,
            Err(e) => {
                return Err(Error::Database(e));
            },
        };
        let enabled = match pg::row_bool(&rows[i], 4) {
            Ok(v) => v,
            Err(e) => {
                return Err(Error::Database(e));
            },
        };
        let description = match pg::row_opt_string(&rows[i], 5) {
            Ok(v) => v,
            Err(e) => {
                return Err(Error::Database(e));
            },
        };
        let target = match pg::row_string(&rows[i], 6) {
            Ok(v) => v,
            Err(e) => {
                return Err(Error::Database(e));
            },
        };
        let src_view = match pg::row_opt_string(&rows[i], 7) {
            Ok(v) => v,
            Err(e) => {
                return Err(Error::Database(e));
            },
        };
        let src_function = match pg::row_opt_string(&rows[i], 8) {
            Ok(v) => v,
            Err(e) => {
                return Err(Error::Database(e));
            },
        };
        let fp_name = join_str(target.as_str(), "_fingerprint");
        let fingerprint_function = match get_function_def(client, fp_name.as_str()) {
            Option::Some(pair) => pair.1,
            Option::None => "failed getting sources".to_owned(),
        };
        let processing_delay = match parse_timing(
            &processing_delay_text,
            "processing_delay",
            target.as_str(),
        ) {
            Ok(v) => v,
            Err(e) => {
                return Err(e);
            },
        };
        let stability_delay = match parse_timing(
            &stability_delay_text,
            "stability_delay",
            target.as_str(),
        ) {
            Ok(v) => v,
            Err(e) => {
                return Err(e);
            },
        };
        let reprocessing_period = match parse_timing(
            &reprocessing_period_text,
            "reprocessing_period",
            target.as_str(),
        ) {
            Ok(v) => v,
            Err(e) => {
                return Err(e);
            },
        };
        if let Option::Some(view_name) = src_view {
            let view_def = match get_view_def(client, view_name.as_str()) {
                Option::Some(v) => v,
                Option::None => "failed getting view definition".to_owned(),
            };
            let sources = match load_sources(client, materialization_id) {
                Ok(v) => v,
                Err(e) => {
                    return Err(e);
                },
            };
            let ghost ms0 = materializations@;
            materializations.push(
                TrendMaterialization::View(
                    TrendViewMaterialization {
                        target_trend_store_part: target.clone(),
                        enabled,
                        processing_delay,
                        stability_delay,
                        reprocessing_period,
                        sources,
                        view: view_def,
                        fingerprint_function: fingerprint_function.clone(),
                        description: description.clone(),
                    },
                ),
            );
            proof {
                assert forall|a: int|
                    0 <= a < materializations@.len() implies spec_loaded_language_is_plpgsql(
                    (#[trigger] materializations@[a])@,
                ) by {
                    if a < ms0.len() {
                        assert(materializations@[a] == ms0[a]);
                    }
                }
            }
        } else if let Option::Some(_function_name) = src_function {
            let def = match get_function_def(client, target.as_str()) {
                Option::Some(pair) => pair,
                Option::None => (
                    "failed getting language".to_owned(),
                    "failed getting sources".to_owned(),
                ),
            };
            let coerced = match coorce_to_plpgsql(def) {
                Ok(pair) => pair,
                Err(e) => {
                    return Err(e);
                },
            };
            let return_type = match get_function_return_type(client, target.as_str()) {
                Option::Some(v) => v,
                Option::None => "failed getting return type".to_owned(),
            };
            let sources = match load_sources(client, materialization_id) {
                Ok(v) => v,
                Err(e) => {
                    return Err(e);
                },
            };
            let ghost ms0 = materializations@;
            materializations.push(
                TrendMaterialization::Function(
                    TrendFunctionMaterialization {
                        target_trend_store_part: target.clone(),
                        enabled,
                        processing_delay,
                        stability_delay,
                        reprocessing_period,
                        sources,
                        function: TrendMaterializationFunction {
                            return_type,
                            src: coerced.1,
                            language: coerced.0,
                        },
                        fingerprint_function: fingerprint_function.clone(),
                        description: description.clone(),
                    },
                ),
            );
            proof {
                assert forall|a: int|
                    0 <= a < materializations@.len() implies spec_loaded_language_is_plpgsql(
                    (#[trigger] materializations@[a])@,
                ) by {
                    if a < ms0.len() {
                        assert(materializations@[a] == ms0[a]);
                    }
                }
            }
        }
        i = i + 1;
    }
    Ok(materializations)
}


/// Which half of a materialization update failed. The two halves run as
/// separate transactions, so an operator can always tell a torn-down
/// object whose recreation failed from one whose teardown never went
/// through.
#[derive(Debug)]
pub enum MaterializationUpdateError {
    /// Teardown failed and was rolled back; the new implementation was
    /// never attempted.
    Teardown(DatabaseError),
    /// Teardown committed; installing the new implementation failed, so
    /// the materialization is currently without an implementation.
    Recreate(DatabaseError),
}

impl TrendMaterialization {
    /// Creates this materialization against the database, all statements
    /// in one transaction.
    pub fn create(&self, client: &mut postgres::Client) -> (r: Result<(), Error>) {
        let stmts = self.create_statements();
        match crate::change::run_in_transaction(client, &stmts) {
            Ok(_) => Ok(()),
            Err(e) => Err(Error::Database(e)),
        }
    }

    /// Tears this materialization's implementation down, keeping its
    /// registration record; a teardown failure is reported on its own and
    /// never hidden behind a recreation failure.
    pub fn teardown(&self, client: &mut postgres::Client) -> (r: Result<(), Error>) {
        let stmts = self.teardown_statements();
        match crate::change::run_in_transaction(client, &stmts) {
            Ok(_) => Ok(()),
            Err(e) => Err(Error::Database(e)),
        }
    }

    /// Updates this materialization: full teardown committed first, then
    /// the full re-implementation from the new definition, each in its
    /// own transaction. Between the two the materialization is briefly
    /// undefined; the error variant names the half that failed, and a
    /// teardown failure stops the update before recreation is attempted.
    pub fn update(&self, client: &mut postgres::Client) -> (r: Result<
        (),
        MaterializationUpdateError,
    >) {
        let teardown_stmts = self.teardown_statements();
        if let Err(e) = crate::change::run_in_transaction(client, &teardown_stmts) {
            return Err(MaterializationUpdateError::Teardown(e));
        }
        let stmts = match self {
            TrendMaterialization::View(m) => m.reimplement_statements(),
            TrendMaterialization::Function(m) => m.reimplement_statements(),
        };
        match crate::change::run_in_transaction(client, &stmts) {
            Ok(_) => Ok(()),
            Err(e) => Err(MaterializationUpdateError::Recreate(e)),
        }
    }

    /// Deletes this materialization.
    pub fn delete(&self, client: &mut postgres::Client) -> (r: Result<(), Error>) {
        let stmts = self.delete_statements();
        match crate::change::run_in_transaction(client, &stmts) {
            Ok(_) => Ok(()),
            Err(e) => Err(Error::Database(e)),
        }
    }
}

} // verus!
