//! The bulk ingestion pipeline for attribute data: requested columns are
//! matched case-insensitively against the store's declared attributes,
//! rows are encoded typed-value by typed-value into a COPY data stream —
//! an absent value becomes its column type's own NULL sentinel, never a
//! generic marker — and staged through a temporary relation, missing
//! entities are created, and the staged batch is atomically transferred.

use vstd::prelude::*;

verus! {

use crate::attribute_store::{Attribute, AttributeView, AttributeStore};
use crate::meas_value::{
    DataType, MeasValue, spec_parse_value, spec_value_raw_text, spec_null_value, parse_meas_value,
    spec_data_type_text,
};
use crate::error::AttributeStorageError;
use crate::text::{lower_of, eq_ignore_case, sql_ident, sql_literal, spec_sql_ident};
use crate::pg;
use vstd::string::StringExecFns;
use vstd::string::StrSliceExecFns;

/// One incoming row: an entity name and one optional text per requested
/// column.
pub struct AttributeDataRow {
    pub entity_name: String,
    pub values: Vec<Option<String>>,
}

/// The mathematical shape of an incoming row.
pub ghost struct AttributeDataRowView {
    pub entity_name: Seq<char>,
    pub values: Seq<Option<Seq<char>>>,
}

impl View for AttributeDataRow {
    type V = AttributeDataRowView;

    open spec fn view(&self) -> AttributeDataRowView {
        AttributeDataRowView { entity_name: self.entity_name@, values: self.values.deep_view() }
    }
}

impl DeepView for AttributeDataRow {
    type V = AttributeDataRowView;

    open spec fn deep_view(&self) -> AttributeDataRowView {
        self.view()
    }
}

/// A declared attribute matched to the position of its requested column.
pub struct MatchedColumn {
    pub position: usize,
    pub attribute: Attribute,
}

/// The mathematical shape of a matched column.
pub ghost struct MatchedColumnView {
    pub position: int,
    pub attribute: AttributeView,
}

impl View for MatchedColumn {
    type V = MatchedColumnView;

    open spec fn view(&self) -> MatchedColumnView {
        MatchedColumnView { position: self.position as int, attribute: self.attribute@ }
    }
}

impl DeepView for MatchedColumn {
    type V = MatchedColumnView;

    open spec fn deep_view(&self) -> MatchedColumnView {
        self.view()
    }
}

/// The first requested column whose name matches `target` ignoring case.
pub open spec fn spec_position_ci(names: Seq<Seq<char>>, target: Seq<char>) -> Option<int>
    decreases names.len(),
{
    if names.len() == 0 {
        None
    } else if lower_of(names.first()) == lower_of(target) {
        Some(0int)
    } else {
        match spec_position_ci(names.drop_first(), target) {
            Option::Some(p) => Some(p + 1),
            Option::None => None,
        }
    }
}

/// Finds the first requested column matching `target` ignoring case.
pub fn position_ci(names: &Vec<String>, target: &str) -> (r: Option<usize>)
    ensures
        match spec_position_ci(names.deep_view(), target@) {
            Option::None => r is None,
            Option::Some(p) => r matches Some(i) && i == p,
        },
{
    let ghost dv = names.deep_view();
    let mut i: usize = 0;
    proof {
        assert(dv.skip(0) =~= dv);
    }
    while i < names.len()
        invariant
            0 <= i <= names.len(),
            dv == names.deep_view(),
            dv.len() == names.len(),
            forall|k: int| 0 <= k < i ==> lower_of(#[trigger] dv[k]) != lower_of(target@),
        decreases names.len() - i,
    {
        if eq_ignore_case(names[i].as_str(), target) {
            proof {
                lemma_position_ci_found(dv, target@, i as int);
            }
            return Some(i);
        }
        i = i + 1;
    }
    proof {
        lemma_position_ci_absent(dv, target@);
    }
    None
}

/// When the first case-insensitive match sits at `k`, the position is
/// `k`.
proof fn lemma_position_ci_found(names: Seq<Seq<char>>, target: Seq<char>, k: int)
    requires
        0 <= k < names.len(),
        forall|i: int| 0 <= i < k ==> lower_of(#[trigger] names[i]) != lower_of(target),
        lower_of(names[k]) == lower_of(target),
    ensures
        spec_position_ci(names, target) == Some(k),
    decreases k,
{
    if k > 0 {
        assert(lower_of(names[0]) != lower_of(target));
        assert(forall|i: int|
            0 <= i < k - 1 ==> lower_of(#[trigger] names.drop_first()[i]) != lower_of(target));
        assert(names.drop_first()[k - 1] == names[k]);
        lemma_position_ci_found(names.drop_first(), target, k - 1);
    }
}

/// When no column matches, there is no position.
proof fn lemma_position_ci_absent(names: Seq<Seq<char>>, target: Seq<char>)
    requires
        forall|i: int| 0 <= i < names.len() ==> lower_of(#[trigger] names[i]) != lower_of(target),
    ensures
        spec_position_ci(names, target) is None,
    decreases names.len(),
{
    if names.len() > 0 {
        assert(forall|i: int|
            0 <= i < names.drop_first().len() ==> lower_of(#[trigger] names.drop_first()[i])
                != lower_of(target));
        lemma_position_ci_absent(names.drop_first(), target);
    }
}

/// The declared attributes matched to requested columns, in declaration
/// order; an unmatched request is ignored, an undeclared attribute is
/// passed over.
pub open spec fn spec_matched_columns(
    attrs: Seq<AttributeView>,
    names: Seq<Seq<char>>,
) -> Seq<MatchedColumnView>
    decreases attrs.len(),
{
    if attrs.len() == 0 {
        Seq::empty()
    } else {
        spec_matched_columns(attrs.drop_last(), names) + (match spec_position_ci(
            names,
            attrs.last().name,
        ) {
            Option::Some(p) => seq![
                MatchedColumnView { position: p, attribute: attrs.last() },
            ],
            Option::None => Seq::empty(),
        })
    }
}

/// Matches the store's declared attributes against the requested column
/// names, ignoring case.
pub fn match_columns(attrs: &Vec<Attribute>, names: &Vec<String>) -> (r: Vec<MatchedColumn>)
    ensures
        r.deep_view() == spec_matched_columns(attrs.deep_view(), names.deep_view()),
{
    let ghost adv = attrs.deep_view();
    let ghost ndv = names.deep_view();
    let mut r: Vec<MatchedColumn> = Vec::new();
    let mut i: usize = 0;
    proof {
        assert(adv.take(0) =~= Seq::<AttributeView>::empty());
        assert(r.deep_view() =~= Seq::<MatchedColumnView>::empty());
    }
    while i < attrs.len()
        invariant
            0 <= i <= attrs.len(),
            adv == attrs.deep_view(),
            ndv == names.deep_view(),
            adv.len() == attrs.len(),
            r.deep_view() == spec_matched_columns(adv.take(i as int), ndv),
        decreases attrs.len() - i,
    {
        let ghost r0 = r.deep_view();
        proof {
            assert(adv.take(i + 1).drop_last() =~= adv.take(i as int));
            assert(adv.take(i + 1).last() == adv[i as int]);
        }
        match position_ci(names, attrs[i].name.as_str()) {
            Option::Some(p) => {
                r.push(MatchedColumn { position: p, attribute: attrs[i].clone() });
                proof {
                    assert(r.deep_view() =~= r0.push(
                        MatchedColumnView {
                            position: spec_position_ci(ndv, adv[i as int].name)->0,
                            attribute: adv[i as int],
                        },
                    ));
                    assert(r.deep_view() =~= spec_matched_columns(adv.take(i + 1), ndv));
                }
            },
            Option::None => {
                proof {
                    assert(r.deep_view() =~= spec_matched_columns(adv.take(i + 1), ndv));
                }
            },
        }
        i = i + 1;
    }
    proof {
        assert(adv.take(attrs.len() as int) =~= adv);
    }
    r
}

/// A field in a COPY data stream: backslash, tab, newline and carriage
/// return are escaped, all else is kept.
pub open spec fn spec_copy_escape(s: Seq<char>) -> Seq<char>
    decreases s.len(),
{
    if s.len() == 0 {
        Seq::empty()
    } else {
        spec_copy_escape(s.drop_last()) + (if s.last() == '\\' {
            seq!['\\', '\\']
        } else if s.last() == '\t' {
            seq!['\\', 't']
        } else if s.last() == '\n' {
            seq!['\\', 'n']
        } else if s.last() == '\r' {
            seq!['\\', 'r']
        } else {
            seq![s.last()]
        })
    }
}

/// Escapes one field of a COPY data stream.
pub fn copy_escape(s: &str) -> (r: String)
    ensures
        r@ == spec_copy_escape(s@),
{
    let len = s.unicode_len();
    let mut r = String::new();
    let mut i: usize = 0;
    proof {
        assert(s@.take(0) =~= Seq::<char>::empty());
        assert(r@ =~= spec_copy_escape(s@.take(0)));
    }
    while i < len
        invariant
            0 <= i <= len,
            len == s@.len(),
            r@ == spec_copy_escape(s@.take(i as int)),
        decreases len - i,
    {
        proof {
            assert(s@.take(i + 1).drop_last() =~= s@.take(i as int));
            assert(s@.take(i + 1).last() == s@[i as int]);
        }
        let c = s.get_char(i);
        if c == '\\' {
            r.append("\\\\");
            proof {
                reveal_strlit("\\\\");
                assert(r@ =~= spec_copy_escape(s@.take(i + 1)));
            }
        } else if c == '\t' {
            r.append("\\t");
            proof {
                reveal_strlit("\\t");
                assert(r@ =~= spec_copy_escape(s@.take(i + 1)));
            }
        } else if c == '\n' {
            r.append("\\n");
            proof {
                reveal_strlit("\\n");
                assert(r@ =~= spec_copy_escape(s@.take(i + 1)));
            }
        } else if c == '\r' {
            r.append("\\r");
            proof {
                reveal_strlit("\\r");
                assert(r@ =~= spec_copy_escape(s@.take(i + 1)));
            }
        } else {
            let piece = s.substring_char(i, i + 1);
            r.append(piece);
            proof {
                assert(piece@ =~= seq![s@[i as int]]);
                assert(r@ =~= spec_copy_escape(s@.take(i + 1)));
            }
        }
        i = i + 1;
    }
    proof {
        assert(s@.take(len as int) =~= s@);
    }
    r
}

/// The encoded field of one value under its column type: an absent value
/// encodes as the type's own NULL sentinel; a present text encodes as its
/// typed value; an integer column refuses a text that is not an in-range
/// decimal.
pub open spec fn spec_encoded_value(dt: DataType, v: Option<Seq<char>>) -> Option<Seq<char>> {
    match v {
        Option::None => Some(spec_copy_escape(spec_value_raw_text(spec_null_value(dt)))),
        Option::Some(t) => match spec_parse_value(dt, t) {
            Option::Some(mv) => Some(spec_copy_escape(spec_value_raw_text(mv))),
            Option::None => None,
        },
    }
}

/// Encodes one optional value under its column type.
pub fn encode_value(dt: DataType, v: &Option<String>) -> (r: Option<String>)
    ensures
        match spec_encoded_value(
            dt,
            match v {
                Option::Some(t) => Some(t@),
                Option::None => None,
            },
        ) {
            Option::Some(f) => r matches Some(s) && s@ == f,
            Option::None => r is None,
        },
{
    match v {
        Option::None => {
            let nv = MeasValue::null_value_of_type(dt);
            let raw = nv.raw_text();
            Some(copy_escape(raw.as_str()))
        },
        Option::Some(t) => match parse_meas_value(dt, t.as_str()) {
            Option::Some(mv) => {
                let raw = mv.raw_text();
                Some(copy_escape(raw.as_str()))
            },
            Option::None => None,
        },
    }
}

/// The tab-prefixed encoded fields of one row's matched columns.
pub open spec fn spec_row_fields(
    matched: Seq<MatchedColumnView>,
    row: AttributeDataRowView,
) -> Option<Seq<char>>
    decreases matched.len(),
{
    if matched.len() == 0 {
        Some(Seq::empty())
    } else {
        match spec_row_fields(matched.drop_last(), row) {
            Option::None => None,
            Option::Some(pre) => if 0 <= matched.last().position < row.values.len() {
                match spec_encoded_value(
                    matched.last().attribute.data_type,
                    row.values[matched.last().position],
                ) {
                    Option::Some(f) => Some(pre + seq!['\t'] + f),
                    Option::None => None,
                }
            } else {
                None
            },
        }
    }
}

/// One line of the COPY data stream: the escaped entity name, the encoded
/// fields, a closing newline.
pub open spec fn spec_row_line(
    matched: Seq<MatchedColumnView>,
    row: AttributeDataRowView,
) -> Option<Seq<char>> {
    match spec_row_fields(matched, row) {
        Option::Some(fields) => Some(spec_copy_escape(row.entity_name) + fields + seq!['\n']),
        Option::None => None,
    }
}

/// Encodes one row into its COPY line.
pub fn encode_row(matched: &Vec<MatchedColumn>, row: &AttributeDataRow) -> (r: Option<String>)
    ensures
        match spec_row_line(matched.deep_view(), row@) {
            Option::Some(line) => r matches Some(s) && s@ == line,
            Option::None => r is None,
        },
{
    let ghost mdv = matched.deep_view();
    let mut fields = String::new();
    let mut i: usize = 0;
    proof {
        assert(mdv.take(0) =~= Seq::<MatchedColumnView>::empty());
        assert(spec_row_fields(mdv.take(0), row@) == Some(Seq::<char>::empty()));
        assert(fields@ =~= Seq::<char>::empty());
    }
    while i < matched.len()
        invariant
            0 <= i <= matched.len(),
            mdv == matched.deep_view(),
            mdv.len() == matched.len(),
            spec_row_fields(mdv.take(i as int), row@) == Some(fields@),
        decreases matched.len() - i,
    {
        let ghost f0 = fields@;
        proof {
            assert(mdv.take(i + 1).drop_last() =~= mdv.take(i as int));
            assert(mdv.take(i + 1).last() == mdv[i as int]);
        }
        if matched[i].position >= row.values.len() {
            proof {
                lemma_row_fields_none(mdv, row@, i as int);
            }
            return None;
        }
        match encode_value(matched[i].attribute.data_type, &row.values[matched[i].position]) {
            Option::Some(f) => {
                fields.append("\t");
                fields.append(f.as_str());
                proof {
                    reveal_strlit("\t");
                    assert(fields@ =~= f0 + seq!['\t'] + f@);
                }
            },
            Option::None => {
                proof {
                    lemma_row_fields_none(mdv, row@, i as int);
                }
                return None;
            },
        }
        i = i + 1;
    }
    proof {
        assert(mdv.take(matched.len() as int) =~= mdv);
    }
    let name = copy_escape(row.entity_name.as_str());
    let mut line = name;
    line.append(fields.as_str());
    line.append("\n");
    proof {
        reveal_strlit("\n");
        assert(line@ =~= spec_copy_escape(row@.entity_name) + fields@ + seq!['\n']);
    }
    Some(line)
}

/// Once one matched column of a row refuses to encode, the whole row
/// refuses.
proof fn lemma_row_fields_none(
    matched: Seq<MatchedColumnView>,
    row: AttributeDataRowView,
    i: int,
)
    requires
        0 <= i < matched.len(),
        !(0 <= matched[i].position < row.values.len() && spec_encoded_value(
            matched[i].attribute.data_type,
            row.values[matched[i].position],
        ) is Some),
    ensures
        spec_row_fields(matched, row) is None,
    decreases matched.len(),
{
    if matched.len() > 0 {
        if i == matched.len() - 1 {
        } else {
            assert(matched.drop_last()[i] == matched[i]);
            lemma_row_fields_none(matched.drop_last(), row, i);
        }
    }
}

/// The whole COPY payload: one line per row, in input order.
pub open spec fn spec_copy_payload(
    matched: Seq<MatchedColumnView>,
    rows: Seq<AttributeDataRowView>,
) -> Option<Seq<char>>
    decreases rows.len(),
{
    if rows.len() == 0 {
        Some(Seq::empty())
    } else {
        match (spec_copy_payload(matched, rows.drop_last()), spec_row_line(matched, rows.last())) {
            (Option::Some(pre), Option::Some(line)) => Some(pre + line),
            _ => None,
        }
    }
}

/// Encodes a whole batch into the COPY payload: one line per row, so a
/// batch of N rows always stages N records; the refusal of any one value
/// refuses the batch.
pub fn encode_rows(matched: &Vec<MatchedColumn>, rows: &Vec<AttributeDataRow>) -> (r: Option<
    String,
>)
    ensures
        match spec_copy_payload(matched.deep_view(), rows.deep_view()) {
            Option::Some(p) => r matches Some(s) && s@ == p,
            Option::None => r is None,
        },
{
    let ghost mdv = matched.deep_view();
    let ghost rdv = rows.deep_view();
    let mut payload = String::new();
    let mut i: usize = 0;
    proof {
        assert(rdv.take(0) =~= Seq::<AttributeDataRowView>::empty());
        assert(spec_copy_payload(mdv, rdv.take(0)) == Some(Seq::<char>::empty()));
        assert(payload@ =~= Seq::<char>::empty());
    }
    while i < rows.len()
        invariant
            0 <= i <= rows.len(),
            mdv == matched.deep_view(),
            rdv == rows.deep_view(),
            rdv.len() == rows.len(),
            spec_copy_payload(mdv, rdv.take(i as int)) == Some(payload@),
        decreases rows.len() - i,
    {
        proof {
            assert(rdv.take(i + 1).drop_last() =~= rdv.take(i as int));
            assert(rdv.take(i + 1).last() == rdv[i as int]);
        }
        match encode_row(matched, &rows[i]) {
            Option::Some(line) => {
                payload.append(line.as_str());
            },
            Option::None => {
                proof {
                    lemma_payload_none(mdv, rdv, i as int);
                }
                return None;
            },
        }
        i = i + 1;
    }
    proof {
        assert(rdv.take(rows.len() as int) =~= rdv);
    }
    Some(payload)
}

/// Once one row refuses to encode, the whole payload refuses.
proof fn lemma_payload_none(
    matched: Seq<MatchedColumnView>,
    rows: Seq<AttributeDataRowView>,
    i: int,
)
    requires
        0 <= i < rows.len(),
        spec_row_line(matched, rows[i]) is None,
    ensures
        spec_copy_payload(matched, rows) is None,
    decreases rows.len(),
{
    if rows.len() > 0 {
        if i == rows.len() - 1 {
        } else {
            assert(rows.drop_last()[i] == rows[i]);
            lemma_payload_none(matched, rows.drop_last(), i);
        }
    }
}


/// The staging-relation name of a store: `tmp_<data source>_<entity
/// type>`.
pub open spec fn spec_temp_table_name(s: crate::attribute_store::AttributeStoreView) -> Seq<
    char,
> {
    "tmp_"@ + s.data_source + "_"@ + s.entity_type
}

/// The live staging-table name of a store: `<data source>_<entity
/// type>`.
pub open spec fn spec_staging_table_name(s: crate::attribute_store::AttributeStoreView) -> Seq<
    char,
> {
    s.data_source + "_"@ + s.entity_type
}

/// The typed column declarations of the temporary staging relation, one
/// per declared attribute.
pub open spec fn spec_temp_columns(ats: Seq<AttributeView>) -> Seq<char>
    decreases ats.len(),
{
    if ats.len() == 0 {
        Seq::empty()
    } else if ats.len() == 1 {
        spec_sql_ident(ats[0].name) + " "@ + spec_data_type_text(ats[0].data_type)
    } else {
        spec_temp_columns(ats.drop_last()) + ","@ + spec_sql_ident(ats.last().name) + " "@
            + spec_data_type_text(ats.last().data_type)
    }
}

/// The statement creating the temporary staging relation: an entity name
/// column plus one typed column per declared attribute, dropped on
/// commit.
pub open spec fn spec_temp_table_statement(s: crate::attribute_store::AttributeStoreView) -> Seq<
    char,
> {
    "CREATE TEMPORARY TABLE "@ + spec_sql_ident(spec_temp_table_name(s)) + "(entity_name text,"@
        + spec_temp_columns(s.attributes) + ") ON COMMIT DROP"@
}

/// The quoted matched column names, entity name first.
pub open spec fn spec_copy_columns(matched: Seq<MatchedColumnView>) -> Seq<char>
    decreases matched.len(),
{
    if matched.len() == 0 {
        "entity_name"@
    } else {
        spec_copy_columns(matched.drop_last()) + ","@ + spec_sql_ident(
            matched.last().attribute.name,
        )
    }
}

/// The COPY statement pouring the batch into the temporary relation.
pub open spec fn spec_copy_statement(
    s: crate::attribute_store::AttributeStoreView,
    matched: Seq<MatchedColumnView>,
) -> Seq<char> {
    "COPY "@ + spec_sql_ident(spec_temp_table_name(s)) + "("@ + spec_copy_columns(matched)
        + ") FROM STDIN"@
}

/// The quoted matched field names, joined with commas.
pub open spec fn spec_matched_fields(matched: Seq<MatchedColumnView>) -> Seq<char>
    decreases matched.len(),
{
    if matched.len() == 0 {
        Seq::empty()
    } else if matched.len() == 1 {
        spec_sql_ident(matched[0].attribute.name)
    } else {
        spec_matched_fields(matched.drop_last()) + ","@ + spec_sql_ident(
            matched.last().attribute.name,
        )
    }
}

/// The statement merging staged rows into the live staging table with the
/// now-resolved entity ids: only the matched columns move, so a batch
/// can never touch a column it did not carry.
pub open spec fn spec_staging_statement(
    s: crate::attribute_store::AttributeStoreView,
    matched: Seq<MatchedColumnView>,
) -> Seq<char> {
    "INSERT INTO attribute_staging."@ + spec_sql_ident(spec_staging_table_name(s))
        + "(entity_id, timestamp, "@ + spec_matched_fields(matched)
        + ") SELECT e.id, now(), "@ + spec_matched_fields(matched) + " FROM "@ + spec_sql_ident(
        spec_temp_table_name(s),
    ) + " tmp JOIN entity."@ + spec_sql_ident(s.entity_type) + " e ON e.name = tmp.entity_name"@
}

/// With no matched columns there is nothing that could refuse to encode:
/// every row is just its entity name, so the payload always exists.
proof fn lemma_empty_columns_payload_some(rows: Seq<AttributeDataRowView>)
    ensures
        spec_copy_payload(Seq::<MatchedColumnView>::empty(), rows) is Some,
    decreases rows.len(),
{
    if rows.len() > 0 {
        lemma_empty_columns_payload_some(rows.drop_last());
    }
}

impl AttributeStore {
    /// The statement creating this store's temporary staging relation.
    pub fn temp_table_statement(&self) -> (r: String)
        ensures
            r@ == spec_temp_table_statement(self@),
    {
        let ghost adv = self.attributes.deep_view();
        let mut tmp = "tmp_".to_owned();
        tmp.append(self.data_source.as_str());
        tmp.append("_");
        tmp.append(self.entity_type.as_str());
        let mut r = "CREATE TEMPORARY TABLE ".to_owned();
        let id = sql_ident(tmp.as_str());
        r.append(id.as_str());
        r.append("(entity_name text,");
        let mut cols = String::new();
        let mut i: usize = 0;
        proof {
            assert(adv.take(0) =~= Seq::<AttributeView>::empty());
        }
        while i < self.attributes.len()
            invariant
                0 <= i <= self.attributes.len(),
                adv == self.attributes.deep_view(),
                adv.len() == self.attributes.len(),
                cols@ == spec_temp_columns(adv.take(i as int)),
            decreases self.attributes.len() - i,
        {
            if i > 0 {
                cols.append(",");
            }
            let id = sql_ident(self.attributes[i].name.as_str());
            cols.append(id.as_str());
            cols.append(" ");
            let t = self.attributes[i].data_type.to_text();
            cols.append(t.as_str());
            proof {
                assert(adv.take(i + 1).drop_last() =~= adv.take(i as int));
                assert(adv.take(i + 1).last() == adv[i as int]);
            }
            i = i + 1;
        }
        proof {
            assert(adv.take(self.attributes.len() as int) =~= adv);
        }
        r.append(cols.as_str());
        r.append(") ON COMMIT DROP");
        r
    }

    /// The COPY statement pouring a batch into the temporary relation.
    pub fn copy_statement(&self, matched: &Vec<MatchedColumn>) -> (r: String)
        ensures
            r@ == spec_copy_statement(self@, matched.deep_view()),
    {
        let ghost mdv = matched.deep_view();
        let mut tmp = "tmp_".to_owned();
        tmp.append(self.data_source.as_str());
        tmp.append("_");
        tmp.append(self.entity_type.as_str());
        let mut r = "COPY ".to_owned();
        let id = sql_ident(tmp.as_str());
        r.append(id.as_str());
        r.append("(");
        let mut cols = "entity_name".to_owned();
        let mut i: usize = 0;
        proof {
            assert(mdv.take(0) =~= Seq::<MatchedColumnView>::empty());
        }
        while i < matched.len()
            invariant
                0 <= i <= matched.len(),
                mdv == matched.deep_view(),
                mdv.len() == matched.len(),
                cols@ == spec_copy_columns(mdv.take(i as int)),
            decreases matched.len() - i,
        {
            cols.append(",");
            let id = sql_ident(matched[i].attribute.name.as_str());
            cols.append(id.as_str());
            proof {
                assert(mdv.take(i + 1).drop_last() =~= mdv.take(i as int));
                assert(mdv.take(i + 1).last() == mdv[i as int]);
            }
            i = i + 1;
        }
        proof {
            assert(mdv.take(matched.len() as int) =~= mdv);
        }
        r.append(cols.as_str());
        r.append(") FROM STDIN");
        r
    }

    /// The statement merging the staged batch into the live staging table
    /// under resolved entity ids; only the matched columns move.
    pub fn staging_statement(&self, matched: &Vec<MatchedColumn>) -> (r: String)
        ensures
            r@ == spec_staging_statement(self@, matched.deep_view()),
    {
        let ghost mdv = matched.deep_view();
        let mut fields = String::new();
        let mut i: usize = 0;
        proof {
            assert(mdv.take(0) =~= Seq::<MatchedColumnView>::empty());
        }
        while i < matched.len()
            invariant
                0 <= i <= matched.len(),
                mdv == matched.deep_view(),
                mdv.len() == matched.len(),
                fields@ == spec_matched_fields(mdv.take(i as int)),
            decreases matched.len() - i,
        {
            if i > 0 {
                fields.append(",");
            }
            let id = sql_ident(matched[i].attribute.name.as_str());
            fields.append(id.as_str());
            proof {
                assert(mdv.take(i + 1).drop_last() =~= mdv.take(i as int));
                assert(mdv.take(i + 1).last() == mdv[i as int]);
            }
            i = i + 1;
        }
        proof {
            assert(mdv.take(matched.len() as int) =~= mdv);
        }
        let mut table = self.data_source.clone();
        table.append("_");
        table.append(self.entity_type.as_str());
        let mut tmp = "tmp_".to_owned();
        tmp.append(self.data_source.as_str());
        tmp.append("_");
        tmp.append(self.entity_type.as_str());
        let mut r = "INSERT INTO attribute_staging.".to_owned();
        let id = sql_ident(table.as_str());
        r.append(id.as_str());
        r.append("(entity_id, timestamp, ");
        r.append(fields.as_str());
        r.append(") SELECT e.id, now(), ");
        r.append(fields.as_str());
        r.append(" FROM ");
        let id = sql_ident(tmp.as_str());
        r.append(id.as_str());
        r.append(" tmp JOIN entity.");
        let id = sql_ident(self.entity_type.as_str());
        r.append(id.as_str());
        r.append(" e ON e.name = tmp.entity_name");
        r
    }

    /// Stages a batch of attribute data rows: matches the requested
    /// columns, encodes the rows, copies them into the temporary
    /// relation, creates entities the entity table does not know, merges
    /// the staged rows under resolved ids, and invokes the atomic
    /// staged-data transfer. Returns the number of rows merged into the
    /// staging table; when no requested column matches, storage is
    /// skipped entirely — nothing staged, nothing transferred — and zero
    /// comes back. An encoding refusal is reported before anything
    /// reaches the database; what the database itself decides comes back
    /// as a database error. Every row must carry one value slot per
    /// requested column. The caller must have a transaction open on the
    /// connection: the temporary relation is created `ON COMMIT DROP`
    /// and the whole flow spans several statements, so on a bare
    /// connection the staged rows would be gone before the merge.
    pub fn store(
        &self,
        client: &mut postgres::Client,
        attributes: &Vec<String>,
        rows: &Vec<AttributeDataRow>,
    ) -> (r: Result<u64, AttributeStorageError>)
        requires
            forall|i: int|
                0 <= i < rows@.len() ==> (#[trigger] rows@[i])@.values.len()
                    == attributes@.len(),
        ensures
            (r matches Err(e) && e is EncodingError) <==> spec_copy_payload(
                spec_matched_columns(self@.attributes, attributes.deep_view()),
                rows.deep_view(),
            ) is None,
            spec_matched_columns(self@.attributes, attributes.deep_view()).len() == 0 ==> (
            r matches Ok(n) && n == 0),
    {
        let matched = match_columns(&self.attributes, attributes);
        if matched.len() == 0 {
            proof {
                assert(matched.deep_view() =~= Seq::<MatchedColumnView>::empty());
                lemma_empty_columns_payload_some(rows.deep_view());
            }
            return Ok(0);
        }
        let payload = match encode_rows(&matched, rows) {
            Option::Some(p) => p,
            Option::None => {
                return Err(
                    AttributeStorageError::EncodingError(
                        "a value refused to encode under its column type".to_owned(),
                    ),
                );
            },
        };
        proof {
            assert(spec_copy_payload(
                spec_matched_columns(self@.attributes, attributes.deep_view()),
                rows.deep_view(),
            ) is Some);
            assert(spec_matched_columns(self@.attributes, attributes.deep_view()).len() > 0);
        }
        let create_tmp = self.temp_table_statement();
        if let Err(e) = pg::execute(client, create_tmp.as_str()) {
            return Err(AttributeStorageError::DatabaseError(e.msg));
        }
        let copy_stmt = self.copy_statement(&matched);
        let data = payload.as_str().as_bytes_vec();
        if let Err(e) = pg::copy_in(client, copy_stmt.as_str(), &data) {
            return Err(AttributeStorageError::DatabaseError(e.msg));
        }
        let mut tmp = "tmp_".to_owned();
        tmp.append(self.data_source.as_str());
        tmp.append("_");
        tmp.append(self.entity_type.as_str());
        let mut missing_q = "SELECT tmp.entity_name AS name FROM ".to_owned();
        let id = sql_ident(tmp.as_str());
        missing_q.append(id.as_str());
        missing_q.append(" tmp LEFT JOIN entity.");
        let id = sql_ident(self.entity_type.as_str());
        missing_q.append(id.as_str());
        missing_q.append(" e ON e.name = tmp.entity_name WHERE e.id IS NULL");
        let missing_rows = match pg::query(client, missing_q.as_str()) {
            Ok(rows) => rows,
            Err(e) => {
                return Err(AttributeStorageError::DatabaseError(e.msg));
            },
        };
        let mut missing: Vec<String> = Vec::new();
        let mut j: usize = 0;
        while j < missing_rows.len()
            invariant
                spec_copy_payload(
                    spec_matched_columns(self@.attributes, attributes.deep_view()),
                    rows.deep_view(),
                ) is Some,
                spec_matched_columns(self@.attributes, attributes.deep_view()).len() > 0,
            decreases missing_rows.len() - j,
        {
            match pg::row_string(&missing_rows[j], 0) {
                Ok(name) => {
                    missing.push(name);
                },
                Err(e) => {
                    return Err(AttributeStorageError::DatabaseError(e.msg));
                },
            }
            j = j + 1;
        }
        if missing.len() > 0 {
            let mut create_q = "WITH names AS (SELECT unnest(ARRAY[".to_owned();
            let mut lits = String::new();
            let mut k: usize = 0;
            while k < missing.len()
                decreases missing.len() - k,
            {
                if k > 0 {
                    lits.append(",");
                }
                let lit = sql_literal(missing[k].as_str());
                lits.append(lit.as_str());
                k = k + 1;
            }
            create_q.append(lits.as_str());
            create_q.append("]::text[]) AS name) INSERT INTO entity.");
            let id = sql_ident(self.entity_type.as_str());
            create_q.append(id.as_str());
            create_q.append("(name) SELECT name FROM names ON CONFLICT DO NOTHING");
            if let Err(e) = pg::execute(client, create_q.as_str()) {
                return Err(AttributeStorageError::DatabaseError(e.msg));
            }
        }
        let staging = self.staging_statement(&matched);
        let staged = match pg::execute(client, staging.as_str()) {
            Ok(n) => n,
            Err(e) => {
                return Err(AttributeStorageError::DatabaseError(e.msg));
            },
        };
        let mut table = self.data_source.clone();
        table.append("_");
        table.append(self.entity_type.as_str());
        let mut transfer =
            "SELECT attribute_directory.transfer_staged(attribute_store) FROM attribute_directory.attribute_store WHERE attribute_store::text = ".to_owned();
        let lit = sql_literal(table.as_str());
        transfer.append(lit.as_str());
        if let Err(e) = pg::query_one(client, transfer.as_str()) {
            return Err(AttributeStorageError::DatabaseError(e.msg));
        }
        Ok(staged)
    }
}


/// How often `c` occurs in `s`.
pub open spec fn spec_count_char(s: Seq<char>, c: char) -> int
    decreases s.len(),
{
    if s.len() == 0 {
        0
    } else {
        spec_count_char(s.drop_last(), c) + (if s.last() == c {
            1int
        } else {
            0int
        })
    }
}

proof fn lemma_count_char_singleton(c: char, d: char)
    ensures
        spec_count_char(seq![c], d) == (if c == d {
            1int
        } else {
            0int
        }),
{
    assert(seq![c].len() == 1);
    assert(seq![c].last() == c);
    assert(seq![c].drop_last() =~= Seq::<char>::empty());
    assert(spec_count_char(Seq::<char>::empty(), d) == 0);
}

proof fn lemma_count_char_concat(a: Seq<char>, b: Seq<char>, c: char)
    ensures
        spec_count_char(a + b, c) == spec_count_char(a, c) + spec_count_char(b, c),
    decreases b.len(),
{
    if b.len() == 0 {
        assert(a + b =~= a);
    } else {
        lemma_count_char_concat(a, b.drop_last(), c);
        assert((a + b).drop_last() =~= a + b.drop_last());
        assert((a + b).last() == b.last());
    }
}

/// An escaped field never carries a raw newline: the escape turns every
/// newline into a backslash-n pair.
proof fn lemma_escape_has_no_newline(s: Seq<char>)
    ensures
        spec_count_char(spec_copy_escape(s), '\n') == 0,
    decreases s.len(),
{
    if s.len() > 0 {
        lemma_escape_has_no_newline(s.drop_last());
        let tail: Seq<char> = if s.last() == '\\' {
            seq!['\\', '\\']
        } else if s.last() == '\t' {
            seq!['\\', 't']
        } else if s.last() == '\n' {
            seq!['\\', 'n']
        } else if s.last() == '\r' {
            seq!['\\', 'r']
        } else {
            seq![s.last()]
        };
        lemma_count_char_concat(spec_copy_escape(s.drop_last()), tail, '\n');
        if tail.len() == 2 {
            assert(tail.drop_last() =~= seq![tail[0]]);
            lemma_count_char_singleton(tail[0], '\n');
            assert(spec_count_char(tail, '\n') == 0);
        } else {
            lemma_count_char_singleton(s.last(), '\n');
        }
        assert(spec_copy_escape(s) == spec_copy_escape(s.drop_last()) + tail);
    }
}

/// The encoded fields of a row never carry a raw newline.
proof fn lemma_fields_have_no_newline(matched: Seq<MatchedColumnView>, row: AttributeDataRowView)
    ensures
        spec_row_fields(matched, row) matches Some(f) ==> spec_count_char(f, '\n') == 0,
    decreases matched.len(),
{
    if matched.len() > 0 && spec_row_fields(matched, row) is Some {
        lemma_fields_have_no_newline(matched.drop_last(), row);
        let pre = spec_row_fields(matched.drop_last(), row)->0;
        let value = row.values[matched.last().position];
        let f = spec_encoded_value(matched.last().attribute.data_type, value)->0;
        match value {
            Option::None => {
                lemma_escape_has_no_newline(
                    spec_value_raw_text(spec_null_value(matched.last().attribute.data_type)),
                );
            },
            Option::Some(t) => {
                lemma_escape_has_no_newline(
                    spec_value_raw_text(
                        spec_parse_value(matched.last().attribute.data_type, t)->0,
                    ),
                );
            },
        }
        lemma_count_char_singleton('\t', '\n');
        lemma_count_char_concat(pre, seq!['\t'], '\n');
        lemma_count_char_concat(pre + seq!['\t'], f, '\n');
        assert(spec_row_fields(matched, row)->0 == pre + seq!['\t'] + f);
    }
}

/// Every encoded row is exactly one line: its single newline is the
/// terminator.
proof fn lemma_row_line_is_one_line(matched: Seq<MatchedColumnView>, row: AttributeDataRowView)
    ensures
        spec_row_line(matched, row) matches Some(line) ==> spec_count_char(line, '\n') == 1,
{
    if spec_row_line(matched, row) is Some {
        let fields = spec_row_fields(matched, row)->0;
        lemma_escape_has_no_newline(row.entity_name);
        lemma_fields_have_no_newline(matched, row);
        lemma_count_char_concat(spec_copy_escape(row.entity_name), fields, '\n');
        lemma_count_char_singleton('\n', '\n');
        lemma_count_char_concat(spec_copy_escape(row.entity_name) + fields, seq!['\n'], '\n');
    }
}

/// Ingestion round-trip, library side: an encoded batch of N rows is
/// exactly N newline-terminated lines, so N rows reach the staging
/// relation; only the staging table's own key can collapse duplicates
/// after that.
pub proof fn lemma_one_line_per_row(
    matched: Seq<MatchedColumnView>,
    rows: Seq<AttributeDataRowView>,
)
    ensures
        spec_copy_payload(matched, rows) matches Some(p) ==> spec_count_char(p, '\n')
            == rows.len(),
    decreases rows.len(),
{
    if rows.len() > 0 && spec_copy_payload(matched, rows) is Some {
        lemma_one_line_per_row(matched, rows.drop_last());
        let pre = spec_copy_payload(matched, rows.drop_last())->0;
        let line = spec_row_line(matched, rows.last())->0;
        lemma_row_line_is_one_line(matched, rows.last());
        lemma_count_char_concat(pre, line, '\n');
    }
}

} // verus!
