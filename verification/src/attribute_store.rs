//! Attribute stores: groupings of slowly-changing descriptive columns
//! ("attributes") for one entity type and data source. The identity key of
//! a store is the (data source, entity type) pair; of an attribute, its
//! name.

use vstd::prelude::*;

verus! {

use crate::meas_value::{DataType, spec_data_type_text};
use crate::change::ChangeView;
use crate::error::Error;
use crate::text::i64_to_string;
use crate::pg;
use crate::text::{str_eq, u64_to_string, spec_dec_digits, sql_literal, spec_sql_literal_plain};
use vstd::pervasive::cloned;

/// A descriptive column.
pub struct Attribute {
    pub name: String,
    pub data_type: DataType,
    pub description: String,
}

/// The mathematical shape of an attribute.
pub ghost struct AttributeView {
    pub name: Seq<char>,
    pub data_type: DataType,
    pub description: Seq<char>,
}

impl View for Attribute {
    type V = AttributeView;

    open spec fn view(&self) -> AttributeView {
        AttributeView {
            name: self.name@,
            data_type: self.data_type,
            description: self.description@,
        }
    }
}

impl DeepView for Attribute {
    type V = AttributeView;

    open spec fn deep_view(&self) -> AttributeView {
        self.view()
    }
}

impl Clone for Attribute {
    fn clone(&self) -> (r: Self)
        ensures
            r == *self,
    {
        Attribute {
            name: self.name.clone(),
            data_type: self.data_type,
            description: self.description.clone(),
        }
    }
}

/// An attribute store.
pub struct AttributeStore {
    pub data_source: String,
    pub entity_type: String,
    pub attributes: Vec<Attribute>,
}

/// The mathematical shape of an attribute store.
pub ghost struct AttributeStoreView {
    pub data_source: Seq<char>,
    pub entity_type: Seq<char>,
    pub attributes: Seq<AttributeView>,
}

impl View for AttributeStore {
    type V = AttributeStoreView;

    open spec fn view(&self) -> AttributeStoreView {
        AttributeStoreView {
            data_source: self.data_source@,
            entity_type: self.entity_type@,
            attributes: self.attributes.deep_view(),
        }
    }
}

impl DeepView for AttributeStore {
    type V = AttributeStoreView;

    open spec fn deep_view(&self) -> AttributeStoreView {
        self.view()
    }
}

impl Clone for AttributeStore {
    fn clone(&self) -> (r: Self)
        ensures
            r@ == self@,
    {
        let r = AttributeStore {
            data_source: self.data_source.clone(),
            entity_type: self.entity_type.clone(),
            attributes: self.attributes.clone(),
        };
        proof {
            assert forall|i: int| 0 <= i < self.attributes@.len() implies r.attributes.deep_view()[i]
                == self.attributes.deep_view()[i] by {
                assert(cloned::<Attribute>(self.attributes[i], r.attributes[i]));
            }
            assert(r.attributes.deep_view() =~= self.attributes.deep_view());
        }
        r
    }
}

/// The display text of an attribute store: its identity key.
pub open spec fn spec_attribute_store_text(s: AttributeStoreView) -> Seq<char> {
    "AttributeStore("@ + s.data_source + ", "@ + s.entity_type + ")"@
}

impl AttributeStore {
    /// Renders this store for audit messages.
    pub fn describe(&self) -> (r: String)
        ensures
            r@ == spec_attribute_store_text(self@),
    {
        let mut r = "AttributeStore(".to_owned();
        r.append(self.data_source.as_str());
        r.append(", ");
        r.append(self.entity_type.as_str());
        r.append(")");
        r
    }
}

/// Adds newly declared attributes to an existing store.
pub struct AddAttributes {
    pub attribute_store: AttributeStore,
    pub attributes: Vec<Attribute>,
}

/// The mathematical shape of an `AddAttributes` change.
pub ghost struct AddAttributesView {
    pub attribute_store: AttributeStoreView,
    pub attributes: Seq<AttributeView>,
}

impl View for AddAttributes {
    type V = AddAttributesView;

    open spec fn view(&self) -> AddAttributesView {
        AddAttributesView {
            attribute_store: self.attribute_store@,
            attributes: self.attributes.deep_view(),
        }
    }
}

/// One ` - name: type` line per attribute.
pub open spec fn spec_attribute_lines(ats: Seq<AttributeView>) -> Seq<char>
    decreases ats.len(),
{
    if ats.len() == 0 {
        Seq::empty()
    } else {
        spec_attribute_lines(ats.drop_last()) + " - "@ + ats.last().name + ": "@
            + spec_data_type_text(ats.last().data_type) + "\n"@
    }
}

/// The display text of an `AddAttributes` change: the store, the count,
/// then one line per added attribute.
pub open spec fn spec_add_attributes_text(c: AddAttributesView) -> Seq<char> {
    "AddAttributes("@ + spec_attribute_store_text(c.attribute_store) + ", "@ + spec_dec_digits(
        c.attributes.len() as int,
    ) + "):\n"@ + spec_attribute_lines(c.attributes)
}

impl AddAttributes {
    /// Renders this change for audit messages.
    pub fn describe(&self) -> (r: String)
        ensures
            r@ == spec_add_attributes_text(self@),
    {
        let ghost adv = self.attributes.deep_view();
        let mut r = "AddAttributes(".to_owned();
        let s = self.attribute_store.describe();
        r.append(s.as_str());
        r.append(", ");
        let n = u64_to_string(self.attributes.len() as u64);
        r.append(n.as_str());
        r.append("):\n");
        let mut i: usize = 0;
        let mut lines = String::new();
        proof {
            assert(adv.take(0) =~= Seq::<AttributeView>::empty());
        }
        while i < self.attributes.len()
            invariant
                0 <= i <= self.attributes.len(),
                adv == self.attributes.deep_view(),
                adv.len() == self.attributes.len(),
                lines@ == spec_attribute_lines(adv.take(i as int)),
            decreases self.attributes.len() - i,
        {
            lines.append(" - ");
            lines.append(self.attributes[i].name.as_str());
            lines.append(": ");
            let t = self.attributes[i].data_type.to_text();
            lines.append(t.as_str());
            lines.append("\n");
            proof {
                assert(adv.take(i + 1).drop_last() =~= adv.take(i as int));
                assert(adv.take(i + 1).last() == adv[i as int]);
            }
            i = i + 1;
        }
        proof {
            assert(adv.take(self.attributes.len() as int) =~= adv);
        }
        r.append(lines.as_str());
        r
    }
}

/// Drops attributes that are no longer declared.
pub struct RemoveAttributes {
    pub attribute_store: AttributeStore,
    pub attributes: Vec<String>,
}

/// The mathematical shape of a `RemoveAttributes` change.
pub ghost struct RemoveAttributesView {
    pub attribute_store: AttributeStoreView,
    pub attributes: Seq<Seq<char>>,
}

impl View for RemoveAttributes {
    type V = RemoveAttributesView;

    open spec fn view(&self) -> RemoveAttributesView {
        RemoveAttributesView {
            attribute_store: self.attribute_store@,
            attributes: self.attributes.deep_view(),
        }
    }
}

/// One ` - name` line per removed attribute.
pub open spec fn spec_removed_lines(names: Seq<Seq<char>>) -> Seq<char>
    decreases names.len(),
{
    if names.len() == 0 {
        Seq::empty()
    } else {
        spec_removed_lines(names.drop_last()) + " - "@ + names.last() + "\n"@
    }
}

/// The display text of a `RemoveAttributes` change.
pub open spec fn spec_remove_attributes_text(c: RemoveAttributesView) -> Seq<char> {
    "RemoveAttributes("@ + spec_attribute_store_text(c.attribute_store) + ", "@ + spec_dec_digits(
        c.attributes.len() as int,
    ) + ")\n"@ + spec_removed_lines(c.attributes)
}

impl RemoveAttributes {
    /// Renders this change for audit messages.
    pub fn describe(&self) -> (r: String)
        ensures
            r@ == spec_remove_attributes_text(self@),
    {
        let ghost adv = self.attributes.deep_view();
        let mut r = "RemoveAttributes(".to_owned();
        let s = self.attribute_store.describe();
        r.append(s.as_str());
        r.append(", ");
        let n = u64_to_string(self.attributes.len() as u64);
        r.append(n.as_str());
        r.append(")\n");
        let mut i: usize = 0;
        let mut lines = String::new();
        proof {
            assert(adv.take(0) =~= Seq::<Seq<char>>::empty());
        }
        while i < self.attributes.len()
            invariant
                0 <= i <= self.attributes.len(),
                adv == self.attributes.deep_view(),
                adv.len() == self.attributes.len(),
                lines@ == spec_removed_lines(adv.take(i as int)),
            decreases self.attributes.len() - i,
        {
            lines.append(" - ");
            lines.append(self.attributes[i].as_str());
            lines.append("\n");
            proof {
                assert(adv.take(i + 1).drop_last() =~= adv.take(i as int));
                assert(adv.take(i + 1).last() == adv[i as int]);
            }
            i = i + 1;
        }
        proof {
            assert(adv.take(self.attributes.len() as int) =~= adv);
        }
        r.append(lines.as_str());
        r
    }
}

/// Changes the data type of one existing attribute.
pub struct ChangeAttribute {
    pub attribute_store: AttributeStore,
    pub attribute: Attribute,
}

/// The mathematical shape of a `ChangeAttribute` change.
pub ghost struct ChangeAttributeView {
    pub attribute_store: AttributeStoreView,
    pub attribute: AttributeView,
}

impl View for ChangeAttribute {
    type V = ChangeAttributeView;

    open spec fn view(&self) -> ChangeAttributeView {
        ChangeAttributeView { attribute_store: self.attribute_store@, attribute: self.attribute@ }
    }
}

/// The display text of a `ChangeAttribute` change.
pub open spec fn spec_change_attribute_text(c: ChangeAttributeView) -> Seq<char> {
    "ChangeAttribute("@ + spec_attribute_store_text(c.attribute_store) + ", "@ + c.attribute.name
        + ")"@
}

impl ChangeAttribute {
    /// Renders this change for audit messages.
    pub fn describe(&self) -> (r: String)
        ensures
            r@ == spec_change_attribute_text(self@),
    {
        let mut r = "ChangeAttribute(".to_owned();
        let s = self.attribute_store.describe();
        r.append(s.as_str());
        r.append(", ");
        r.append(self.attribute.name.as_str());
        r.append(")");
        r
    }
}

/// Creates a whole attribute store with its declared attributes.
pub struct AddAttributeStore {
    pub attribute_store: AttributeStore,
}

/// The mathematical shape of an `AddAttributeStore` change.
pub ghost struct AddAttributeStoreView {
    pub attribute_store: AttributeStoreView,
}

impl View for AddAttributeStore {
    type V = AddAttributeStoreView;

    open spec fn view(&self) -> AddAttributeStoreView {
        AddAttributeStoreView { attribute_store: self.attribute_store@ }
    }
}

/// The display text of an `AddAttributeStore` change.
pub open spec fn spec_add_attribute_store_text(c: AddAttributeStoreView) -> Seq<char> {
    "AddAttributeStore("@ + spec_attribute_store_text(c.attribute_store) + ")"@
}

impl AddAttributeStore {
    /// Renders this change for audit messages.
    pub fn describe(&self) -> (r: String)
        ensures
            r@ == spec_add_attribute_store_text(self@),
    {
        let mut r = "AddAttributeStore(".to_owned();
        let s = self.attribute_store.describe();
        r.append(s.as_str());
        r.append(")");
        r
    }
}

/// Attribute names are an identity key: unique within their store.
pub open spec fn spec_unique_attribute_names(ats: Seq<AttributeView>) -> bool {
    forall|i: int, j: int| 0 <= i < j < ats.len() ==> ats[i].name != ats[j].name
}

/// A well-formed attribute store: its attribute names are unique.
pub open spec fn spec_wf_attribute_store(s: AttributeStoreView) -> bool {
    spec_unique_attribute_names(s.attributes)
}

/// The first attribute carrying `name`, scanning from the front.
pub open spec fn spec_find_attribute(ats: Seq<AttributeView>, name: Seq<char>) -> Option<
    AttributeView,
>
    decreases ats.len(),
{
    if ats.len() == 0 {
        None
    } else if ats.first().name == name {
        Some(ats.first())
    } else {
        spec_find_attribute(ats.drop_first(), name)
    }
}

/// Looks an attribute up by name.
pub fn find_attribute(ats: &Vec<Attribute>, name: &str) -> (r: Option<usize>)
    ensures
        match spec_find_attribute(ats.deep_view(), name@) {
            Option::None => r is None,
            Option::Some(a) => r matches Some(i) && i < ats.len() && ats.deep_view()[i as int]
                == a,
        },
{
    let ghost dv = ats.deep_view();
    let mut i: usize = 0;
    proof {
        assert(dv.skip(0) =~= dv);
    }
    while i < ats.len()
        invariant
            0 <= i <= ats.len(),
            dv == ats.deep_view(),
            dv.len() == ats.len(),
            spec_find_attribute(dv, name@) == spec_find_attribute(dv.skip(i as int), name@),
        decreases ats.len() - i,
    {
        let ghost rest = dv.skip(i as int);
        if str_eq(ats[i].name.as_str(), name) {
            proof {
                assert(rest.first() == dv[i as int]);
            }
            return Some(i);
        }
        proof {
            assert(rest.first() == dv[i as int]);
            assert(rest.drop_first() =~= dv.skip(i + 1));
        }
        i = i + 1;
    }
    proof {
        assert(dv.skip(ats.len() as int) =~= Seq::<AttributeView>::empty());
    }
    None
}

/// Every attribute's own name is found.
pub proof fn lemma_find_attribute_member(ats: Seq<AttributeView>, i: int)
    requires
        0 <= i < ats.len(),
    ensures
        spec_find_attribute(ats, ats[i].name) is Some,
    decreases ats.len(),
{
    if ats.first().name != ats[i].name {
        lemma_find_attribute_member(ats.drop_first(), i - 1);
    }
}

/// With unique names, looking an attribute's own name up gives that
/// attribute.
pub proof fn lemma_find_attribute_unique(ats: Seq<AttributeView>, i: int)
    requires
        0 <= i < ats.len(),
        spec_unique_attribute_names(ats),
    ensures
        spec_find_attribute(ats, ats[i].name) == Some(ats[i]),
    decreases ats.len(),
{
    if i > 0 {
        assert(ats.first().name != ats[i].name);
        assert(spec_unique_attribute_names(ats.drop_first())) by {
            assert(forall|a: int, b: int|
                0 <= a < b < ats.drop_first().len() ==> ats.drop_first()[a] == ats[a + 1]
                    && ats.drop_first()[b] == ats[b + 1]);
        }
        lemma_find_attribute_unique(ats.drop_first(), i - 1);
    }
}


/// The per-attribute type changes: for every attribute of `other` whose
/// name the store knows under a different data type, one
/// `ChangeAttribute` carrying the newly declared attribute.
pub open spec fn spec_changed_attributes(
    store: AttributeStoreView,
    other: Seq<AttributeView>,
) -> Seq<ChangeView>
    decreases other.len(),
{
    if other.len() == 0 {
        Seq::empty()
    } else {
        spec_changed_attributes(store, other.drop_last()) + (match spec_find_attribute(
            store.attributes,
            other.last().name,
        ) {
            Option::Some(a) => if a.data_type != other.last().data_type {
                seq![
                    ChangeView::ChangeAttribute(
                        ChangeAttributeView { attribute_store: store, attribute: other.last() },
                    ),
                ]
            } else {
                Seq::empty()
            },
            Option::None => Seq::empty(),
        })
    }
}

/// The attributes of `other` whose names `mine` does not know.
pub open spec fn spec_new_attributes(
    mine: Seq<AttributeView>,
    other: Seq<AttributeView>,
) -> Seq<AttributeView>
    decreases other.len(),
{
    if other.len() == 0 {
        Seq::empty()
    } else {
        spec_new_attributes(mine, other.drop_last()) + (if spec_find_attribute(
            mine,
            other.last().name,
        ) is None {
            seq![other.last()]
        } else {
            Seq::empty()
        })
    }
}

/// The names of `mine` that `other` no longer declares.
pub open spec fn spec_removed_attributes(
    mine: Seq<AttributeView>,
    other: Seq<AttributeView>,
) -> Seq<Seq<char>>
    decreases mine.len(),
{
    if mine.len() == 0 {
        Seq::empty()
    } else {
        spec_removed_attributes(mine.drop_last(), other) + (if spec_find_attribute(
            other,
            mine.last().name,
        ) is None {
            seq![mine.last().name]
        } else {
            Seq::empty()
        })
    }
}

/// The change list between two stores of the same identity: creation
/// first — one batched `AddAttributes` — then each type change on its
/// own, then one batched `RemoveAttributes`. A store with nothing
/// changed produces no change.
pub open spec fn spec_attribute_store_diff(
    mine: AttributeStoreView,
    other: AttributeStoreView,
) -> Seq<ChangeView> {
    let news = spec_new_attributes(mine.attributes, other.attributes);
    let removed = spec_removed_attributes(mine.attributes, other.attributes);
    (if news.len() > 0 {
        seq![
            ChangeView::AddAttributes(
                AddAttributesView { attribute_store: mine, attributes: news },
            ),
        ]
    } else {
        Seq::empty()
    }) + spec_changed_attributes(mine, other.attributes) + (if removed.len() > 0 {
        seq![
            ChangeView::RemoveAttributes(
                RemoveAttributesView { attribute_store: mine, attributes: removed },
            ),
        ]
    } else {
        Seq::empty()
    })
}

impl AttributeStore {
    /// Compares this store against a declared `other` of the same identity
    /// and emits the ordered change list: additions first, then type
    /// changes, then removals.
    pub fn diff(&self, other: &AttributeStore) -> (r: Vec<crate::change::Change>)
        ensures
            r.deep_view() == spec_attribute_store_diff(self@, other@),
    {
        let ghost mdv = self.attributes.deep_view();
        let ghost odv = other.attributes.deep_view();
        let mut mods: Vec<crate::change::Change> = Vec::new();
        let mut new_attributes: Vec<Attribute> = Vec::new();
        let mut i: usize = 0;
        proof {
            assert(odv.take(0) =~= Seq::<AttributeView>::empty());
            assert(mods.deep_view() =~= Seq::<ChangeView>::empty());
            assert(new_attributes.deep_view() =~= Seq::<AttributeView>::empty());
        }
        while i < other.attributes.len()
            invariant
                0 <= i <= other.attributes.len(),
                mdv == self.attributes.deep_view(),
                odv == other.attributes.deep_view(),
                odv.len() == other.attributes.len(),
                mods.deep_view() == spec_changed_attributes(self@, odv.take(i as int)),
                new_attributes.deep_view() == spec_new_attributes(mdv, odv.take(i as int)),
            decreases other.attributes.len() - i,
        {
            let ghost ch0 = mods.deep_view();
            let ghost nt0 = new_attributes.deep_view();
            proof {
                assert(odv.take(i + 1).drop_last() =~= odv.take(i as int));
                assert(odv.take(i + 1).last() == odv[i as int]);
            }
            match find_attribute(&self.attributes, other.attributes[i].name.as_str()) {
                Option::Some(idx) => {
                    if self.attributes[idx].data_type != other.attributes[i].data_type {
                        mods.push(
                            crate::change::Change::ChangeAttribute(
                                ChangeAttribute {
                                    attribute_store: self.clone(),
                                    attribute: other.attributes[i].clone(),
                                },
                            ),
                        );
                        proof {
                            assert(mods.deep_view() =~= ch0.push(
                                ChangeView::ChangeAttribute(
                                    ChangeAttributeView {
                                        attribute_store: self@,
                                        attribute: odv[i as int],
                                    },
                                ),
                            ));
                        }
                    }
                    proof {
                        assert(mods.deep_view() =~= spec_changed_attributes(
                            self@,
                            odv.take(i + 1),
                        ));
                        assert(new_attributes.deep_view() =~= spec_new_attributes(
                            mdv,
                            odv.take(i + 1),
                        ));
                    }
                },
                Option::None => {
                    new_attributes.push(other.attributes[i].clone());
                    proof {
                        assert(new_attributes.deep_view() =~= nt0.push(odv[i as int]));
                        assert(new_attributes.deep_view() =~= spec_new_attributes(
                            mdv,
                            odv.take(i + 1),
                        ));
                        assert(mods.deep_view() =~= spec_changed_attributes(
                            self@,
                            odv.take(i + 1),
                        ));
                    }
                },
            }
            i = i + 1;
        }
        proof {
            assert(odv.take(other.attributes.len() as int) =~= odv);
        }
        let mut changes: Vec<crate::change::Change> = Vec::new();
        proof {
            assert(changes.deep_view() =~= Seq::<ChangeView>::empty());
        }
        if new_attributes.len() > 0 {
            changes.push(
                crate::change::Change::AddAttributes(
                    AddAttributes { attribute_store: self.clone(), attributes: new_attributes },
                ),
            );
        }
        let ghost adds = changes.deep_view();
        let ghost modsv = mods.deep_view();
        changes.append(&mut mods);
        proof {
            assert(changes.deep_view() =~= adds + modsv);
        }
        let ghost with_adds = changes.deep_view();
        let mut removed: Vec<String> = Vec::new();
        let mut j: usize = 0;
        proof {
            assert(mdv.take(0) =~= Seq::<AttributeView>::empty());
            assert(removed.deep_view() =~= Seq::<Seq<char>>::empty());
        }
        while j < self.attributes.len()
            invariant
                0 <= j <= self.attributes.len(),
                mdv == self.attributes.deep_view(),
                odv == other.attributes.deep_view(),
                mdv.len() == self.attributes.len(),
                removed.deep_view() == spec_removed_attributes(mdv.take(j as int), odv),
            decreases self.attributes.len() - j,
        {
            let ghost rm0 = removed.deep_view();
            proof {
                assert(mdv.take(j + 1).drop_last() =~= mdv.take(j as int));
                assert(mdv.take(j + 1).last() == mdv[j as int]);
            }
            match find_attribute(&other.attributes, self.attributes[j].name.as_str()) {
                Option::Some(_) => {
                    proof {
                        assert(removed.deep_view() =~= spec_removed_attributes(
                            mdv.take(j + 1),
                            odv,
                        ));
                    }
                },
                Option::None => {
                    removed.push(self.attributes[j].name.clone());
                    proof {
                        assert(removed.deep_view() =~= rm0.push(mdv[j as int].name));
                        assert(removed.deep_view() =~= spec_removed_attributes(
                            mdv.take(j + 1),
                            odv,
                        ));
                    }
                },
            }
            j = j + 1;
        }
        proof {
            assert(mdv.take(self.attributes.len() as int) =~= mdv);
        }
        if removed.len() > 0 {
            changes.push(
                crate::change::Change::RemoveAttributes(
                    RemoveAttributes { attribute_store: self.clone(), attributes: removed },
                ),
            );
            proof {
                assert(changes.deep_view() =~= with_adds.push(
                    ChangeView::RemoveAttributes(
                        RemoveAttributesView {
                            attribute_store: self@,
                            attributes: spec_removed_attributes(mdv, odv),
                        },
                    ),
                ));
            }
        }
        proof {
            assert(changes.deep_view() =~= spec_attribute_store_diff(self@, other@));
        }
        changes
    }
}

/// When `mine` knows every name of `other` under the same type, no
/// per-attribute change is emitted.
pub proof fn lemma_changed_attributes_none(store: AttributeStoreView, other: Seq<AttributeView>)
    requires
        forall|k: int|
            0 <= k < other.len() ==> match spec_find_attribute(
                store.attributes,
                (#[trigger] other[k]).name,
            ) {
                Option::Some(a) => a.data_type == other[k].data_type,
                Option::None => true,
            },
    ensures
        spec_changed_attributes(store, other) == Seq::<ChangeView>::empty(),
    decreases other.len(),
{
    if other.len() > 0 {
        assert(forall|k: int|
            0 <= k < other.drop_last().len() ==> other.drop_last()[k] == other[k]);
        lemma_changed_attributes_none(store, other.drop_last());
        assert(spec_changed_attributes(store, other) =~= Seq::<ChangeView>::empty());
    }
}

/// When `mine` knows every name of `other`, nothing counts as new.
pub proof fn lemma_new_attributes_all_known(mine: Seq<AttributeView>, other: Seq<AttributeView>)
    requires
        forall|k: int|
            0 <= k < other.len() ==> spec_find_attribute(
                mine,
                (#[trigger] other[k]).name,
            ) is Some,
    ensures
        spec_new_attributes(mine, other) == Seq::<AttributeView>::empty(),
    decreases other.len(),
{
    if other.len() > 0 {
        assert(forall|k: int|
            0 <= k < other.drop_last().len() ==> other.drop_last()[k] == other[k]);
        lemma_new_attributes_all_known(mine, other.drop_last());
        assert(spec_new_attributes(mine, other) =~= Seq::<AttributeView>::empty());
    }
}

/// When `other` still declares every name of `mine`, nothing counts as
/// removed.
pub proof fn lemma_removed_attributes_none(mine: Seq<AttributeView>, other: Seq<AttributeView>)
    requires
        forall|k: int|
            0 <= k < mine.len() ==> spec_find_attribute(other, (#[trigger] mine[k]).name) is Some,
    ensures
        spec_removed_attributes(mine, other) == Seq::<Seq<char>>::empty(),
    decreases mine.len(),
{
    if mine.len() > 0 {
        assert(forall|k: int| 0 <= k < mine.drop_last().len() ==> mine.drop_last()[k] == mine[k]);
        lemma_removed_attributes_none(mine.drop_last(), other);
        assert(spec_removed_attributes(mine, other) =~= Seq::<Seq<char>>::empty());
    }
}

/// Diff idempotence at attribute store level: a well-formed store diffed
/// against itself yields no change.
pub proof fn lemma_attribute_store_diff_idempotent(s: AttributeStoreView)
    requires
        spec_wf_attribute_store(s),
    ensures
        spec_attribute_store_diff(s, s) == Seq::<ChangeView>::empty(),
{
    assert forall|k: int|
        0 <= k < s.attributes.len() implies spec_find_attribute(
        s.attributes,
        (#[trigger] s.attributes[k]).name,
    ) == Some(s.attributes[k]) by {
        lemma_find_attribute_unique(s.attributes, k);
    }
    lemma_changed_attributes_none(s, s.attributes);
    lemma_new_attributes_all_known(s.attributes, s.attributes);
    lemma_removed_attributes_none(s.attributes, s.attributes);
    assert(spec_attribute_store_diff(s, s) =~= Seq::<ChangeView>::empty());
}


/// One `create_attribute` call per added attribute.
pub open spec fn spec_add_attribute_statement(
    store: AttributeStoreView,
    a: AttributeView,
) -> Seq<char> {
    "SELECT attribute_directory.create_attribute(attribute_store, "@ + spec_sql_literal_plain(
        a.name,
    ) + "::name, "@ + spec_sql_literal_plain(spec_data_type_text(a.data_type)) + "::text, "@
        + spec_sql_literal_plain(a.description)
        + "::text) FROM attribute_directory.attribute_store JOIN directory.data_source ON data_source.id = attribute_store.data_source_id JOIN directory.entity_type ON entity_type.id = attribute_store.entity_type_id WHERE data_source.name = "@
        + spec_sql_literal_plain(store.data_source) + " AND entity_type.name = "@
        + spec_sql_literal_plain(store.entity_type)
}

/// The statements of an `AddAttributes` change, one per attribute.
pub open spec fn spec_add_attributes_statements_rec(
    store: AttributeStoreView,
    ats: Seq<AttributeView>,
) -> Seq<Seq<char>>
    decreases ats.len(),
{
    if ats.len() == 0 {
        Seq::empty()
    } else {
        spec_add_attributes_statements_rec(store, ats.drop_last()) + seq![
            spec_add_attribute_statement(store, ats.last()),
        ]
    }
}

/// The statements of an `AddAttributes` change.
pub open spec fn spec_add_attributes_statements(c: AddAttributesView) -> Seq<Seq<char>> {
    spec_add_attributes_statements_rec(c.attribute_store, c.attributes)
}

/// The success message of an `AddAttributes` change.
pub open spec fn spec_add_attributes_message(c: AddAttributesView) -> Seq<char> {
    "Added attributes to attribute store '"@ + spec_attribute_store_text(c.attribute_store) + "'"@
}

impl AddAttributes {
    /// The SQL statements applying this change, in order.
    pub fn statements(&self) -> (r: Vec<String>)
        ensures
            r.deep_view() == spec_add_attributes_statements(self@),
    {
        let ghost adv = self.attributes.deep_view();
        let mut r: Vec<String> = Vec::new();
        let mut i: usize = 0;
        proof {
            assert(adv.take(0) =~= Seq::<AttributeView>::empty());
            assert(r.deep_view() =~= Seq::<Seq<char>>::empty());
        }
        while i < self.attributes.len()
            invariant
                0 <= i <= self.attributes.len(),
                adv == self.attributes.deep_view(),
                adv.len() == self.attributes.len(),
                r.deep_view() == spec_add_attributes_statements_rec(
                    self@.attribute_store,
                    adv.take(i as int),
                ),
            decreases self.attributes.len() - i,
        {
            let ghost r0 = r.deep_view();
            let mut stmt =
                "SELECT attribute_directory.create_attribute(attribute_store, ".to_owned();
            let lit = sql_literal(self.attributes[i].name.as_str());
            stmt.append(lit.as_str());
            stmt.append("::name, ");
            let t = self.attributes[i].data_type.to_text();
            let lit = sql_literal(t.as_str());
            stmt.append(lit.as_str());
            stmt.append("::text, ");
            let lit = sql_literal(self.attributes[i].description.as_str());
            stmt.append(lit.as_str());
            stmt.append(
                "::text) FROM attribute_directory.attribute_store JOIN directory.data_source ON data_source.id = attribute_store.data_source_id JOIN directory.entity_type ON entity_type.id = attribute_store.entity_type_id WHERE data_source.name = ",
            );
            let lit = sql_literal(self.attribute_store.data_source.as_str());
            stmt.append(lit.as_str());
            stmt.append(" AND entity_type.name = ");
            let lit = sql_literal(self.attribute_store.entity_type.as_str());
            stmt.append(lit.as_str());
            r.push(stmt);
            proof {
                assert(adv.take(i + 1).drop_last() =~= adv.take(i as int));
                assert(adv.take(i + 1).last() == adv[i as int]);
                assert(r.deep_view() =~= r0.push(
                    spec_add_attribute_statement(self@.attribute_store, adv[i as int]),
                ));
                assert(r.deep_view() =~= spec_add_attributes_statements_rec(
                    self@.attribute_store,
                    adv.take(i + 1),
                ));
            }
            i = i + 1;
        }
        proof {
            assert(adv.take(self.attributes.len() as int) =~= adv);
        }
        r
    }

    /// The message reported when this change applies cleanly.
    pub fn message(&self) -> (r: String)
        ensures
            r@ == spec_add_attributes_message(self@),
    {
        let mut r = "Added attributes to attribute store '".to_owned();
        let s = self.attribute_store.describe();
        r.append(s.as_str());
        r.append("'");
        r
    }
}

/// One `drop_attribute` call per removed attribute.
pub open spec fn spec_remove_attribute_statement(
    store: AttributeStoreView,
    name: Seq<char>,
) -> Seq<char> {
    "SELECT attribute_directory.drop_attribute(attribute_store, "@ + spec_sql_literal_plain(name)
        + ") FROM attribute_directory.attribute_store JOIN directory.data_source ON data_source.id = attribute_store.data_source_id JOIN directory.entity_type ON entity_type.id = attribute_store.entity_type_id WHERE data_source.name = "@
        + spec_sql_literal_plain(store.data_source) + " AND entity_type.name = "@
        + spec_sql_literal_plain(store.entity_type)
}

/// The statements of a `RemoveAttributes` change, one per name.
pub open spec fn spec_remove_attributes_statements_rec(
    store: AttributeStoreView,
    names: Seq<Seq<char>>,
) -> Seq<Seq<char>>
    decreases names.len(),
{
    if names.len() == 0 {
        Seq::empty()
    } else {
        spec_remove_attributes_statements_rec(store, names.drop_last()) + seq![
            spec_remove_attribute_statement(store, names.last()),
        ]
    }
}

/// The statements of a `RemoveAttributes` change.
pub open spec fn spec_remove_attributes_statements(c: RemoveAttributesView) -> Seq<Seq<char>> {
    spec_remove_attributes_statements_rec(c.attribute_store, c.attributes)
}

/// The success message of a `RemoveAttributes` change.
pub open spec fn spec_remove_attributes_message(c: RemoveAttributesView) -> Seq<char> {
    "Removed "@ + spec_dec_digits(c.attributes.len() as int)
        + " attributes from attribute store '"@ + spec_attribute_store_text(c.attribute_store)
        + "'"@
}

impl RemoveAttributes {
    /// The SQL statements applying this change, in order.
    pub fn statements(&self) -> (r: Vec<String>)
        ensures
            r.deep_view() == spec_remove_attributes_statements(self@),
    {
        let ghost adv = self.attributes.deep_view();
        let mut r: Vec<String> = Vec::new();
        let mut i: usize = 0;
        proof {
            assert(adv.take(0) =~= Seq::<Seq<char>>::empty());
            assert(r.deep_view() =~= Seq::<Seq<char>>::empty());
        }
        while i < self.attributes.len()
            invariant
                0 <= i <= self.attributes.len(),
                adv == self.attributes.deep_view(),
                adv.len() == self.attributes.len(),
                r.deep_view() == spec_remove_attributes_statements_rec(
                    self@.attribute_store,
                    adv.take(i as int),
                ),
            decreases self.attributes.len() - i,
        {
            let ghost r0 = r.deep_view();
            let mut stmt = "SELECT attribute_directory.drop_attribute(attribute_store, ".to_owned();
            let lit = sql_literal(self.attributes[i].as_str());
            stmt.append(lit.as_str());
            stmt.append(
                ") FROM attribute_directory.attribute_store JOIN directory.data_source ON data_source.id = attribute_store.data_source_id JOIN directory.entity_type ON entity_type.id = attribute_store.entity_type_id WHERE data_source.name = ",
            );
            let lit = sql_literal(self.attribute_store.data_source.as_str());
            stmt.append(lit.as_str());
            stmt.append(" AND entity_type.name = ");
            let lit = sql_literal(self.attribute_store.entity_type.as_str());
            stmt.append(lit.as_str());
            r.push(stmt);
            proof {
                assert(adv.take(i + 1).drop_last() =~= adv.take(i as int));
                assert(adv.take(i + 1).last() == adv[i as int]);
                assert(r.deep_view() =~= r0.push(
                    spec_remove_attribute_statement(self@.attribute_store, adv[i as int]),
                ));
                assert(r.deep_view() =~= spec_remove_attributes_statements_rec(
                    self@.attribute_store,
                    adv.take(i + 1),
                ));
            }
            i = i + 1;
        }
        proof {
            assert(adv.take(self.attributes.len() as int) =~= adv);
        }
        r
    }

    /// The message reported when this change applies cleanly.
    pub fn message(&self) -> (r: String)
        ensures
            r@ == spec_remove_attributes_message(self@),
    {
        let mut r = "Removed ".to_owned();
        let n = u64_to_string(self.attributes.len() as u64);
        r.append(n.as_str());
        r.append(" attributes from attribute store '");
        let s = self.attribute_store.describe();
        r.append(s.as_str());
        r.append("'");
        r
    }
}

/// The display text of an attribute.
pub open spec fn spec_attribute_text(a: AttributeView) -> Seq<char> {
    "Attribute("@ + a.name + ": "@ + spec_data_type_text(a.data_type) + ")"@
}

impl Attribute {
    /// Renders this attribute for audit messages.
    pub fn describe(&self) -> (r: String)
        ensures
            r@ == spec_attribute_text(self@),
    {
        let mut r = "Attribute(".to_owned();
        r.append(self.name.as_str());
        r.append(": ");
        let t = self.data_type.to_text();
        r.append(t.as_str());
        r.append(")");
        r
    }
}

/// The one statement of a `ChangeAttribute` change.
pub open spec fn spec_change_attribute_statements(c: ChangeAttributeView) -> Seq<Seq<char>> {
    seq![
        "UPDATE attribute_directory.attribute SET data_type = "@ + spec_sql_literal_plain(
            spec_data_type_text(c.attribute.data_type),
        )
            + " FROM attribute_directory.attribute_store JOIN directory.data_source ON data_source.id = attribute_store.data_source_id JOIN directory.entity_type ON entity_type.id = attribute_store.entity_type_id WHERE attribute.attribute_store_id = attribute_store.id AND attribute.name = "@
            + spec_sql_literal_plain(c.attribute.name) + " AND data_source.name = "@
            + spec_sql_literal_plain(c.attribute_store.data_source) + " AND entity_type.name = "@
            + spec_sql_literal_plain(c.attribute_store.entity_type),
    ]
}

/// The success message of a `ChangeAttribute` change.
pub open spec fn spec_change_attribute_message(c: ChangeAttributeView) -> Seq<char> {
    "Changed type of attribute '"@ + spec_attribute_text(c.attribute) + "' in store '"@
        + spec_attribute_store_text(c.attribute_store) + "'"@
}

impl ChangeAttribute {
    /// The SQL statements applying this change.
    pub fn statements(&self) -> (r: Vec<String>)
        ensures
            r.deep_view() == spec_change_attribute_statements(self@),
    {
        let mut stmt = "UPDATE attribute_directory.attribute SET data_type = ".to_owned();
        let t = self.attribute.data_type.to_text();
        let lit = sql_literal(t.as_str());
        stmt.append(lit.as_str());
        stmt.append(
            " FROM attribute_directory.attribute_store JOIN directory.data_source ON data_source.id = attribute_store.data_source_id JOIN directory.entity_type ON entity_type.id = attribute_store.entity_type_id WHERE attribute.attribute_store_id = attribute_store.id AND attribute.name = ",
        );
        let lit = sql_literal(self.attribute.name.as_str());
        stmt.append(lit.as_str());
        stmt.append(" AND data_source.name = ");
        let lit = sql_literal(self.attribute_store.data_source.as_str());
        stmt.append(lit.as_str());
        stmt.append(" AND entity_type.name = ");
        let lit = sql_literal(self.attribute_store.entity_type.as_str());
        stmt.append(lit.as_str());
        let mut r: Vec<String> = Vec::new();
        r.push(stmt);
        proof {
            assert(r.deep_view() =~= spec_change_attribute_statements(self@));
        }
        r
    }

    /// The message reported when this change applies cleanly.
    pub fn message(&self) -> (r: String)
        ensures
            r@ == spec_change_attribute_message(self@),
    {
        let mut r = "Changed type of attribute '".to_owned();
        let a = self.attribute.describe();
        r.append(a.as_str());
        r.append("' in store '");
        let s = self.attribute_store.describe();
        r.append(s.as_str());
        r.append("'");
        r
    }
}

/// The SQL text of one attribute as an `attribute_descr` row.
pub open spec fn spec_attribute_row_sql(a: AttributeView) -> Seq<char> {
    "ROW("@ + spec_sql_literal_plain(a.name) + ", "@ + spec_sql_literal_plain(
        spec_data_type_text(a.data_type),
    ) + ", "@ + spec_sql_literal_plain(a.description) + ")"@
}

/// The attribute rows joined with commas.
pub open spec fn spec_attribute_rows_sql(ats: Seq<AttributeView>) -> Seq<char>
    decreases ats.len(),
{
    if ats.len() == 0 {
        Seq::empty()
    } else if ats.len() == 1 {
        spec_attribute_row_sql(ats[0])
    } else {
        spec_attribute_rows_sql(ats.drop_last()) + ","@ + spec_attribute_row_sql(ats.last())
    }
}

fn attribute_rows_sql(ats: &Vec<Attribute>) -> (r: String)
    ensures
        r@ == spec_attribute_rows_sql(ats.deep_view()),
{
    let ghost dv = ats.deep_view();
    let mut r = String::new();
    let mut i: usize = 0;
    proof {
        assert(dv.take(0) =~= Seq::<AttributeView>::empty());
    }
    while i < ats.len()
        invariant
            0 <= i <= ats.len(),
            dv == ats.deep_view(),
            dv.len() == ats.len(),
            r@ == spec_attribute_rows_sql(dv.take(i as int)),
        decreases ats.len() - i,
    {
        if i > 0 {
            r.append(",");
        }
        let mut row = "ROW(".to_owned();
        let lit = sql_literal(ats[i].name.as_str());
        row.append(lit.as_str());
        row.append(", ");
        let t = ats[i].data_type.to_text();
        let lit = sql_literal(t.as_str());
        row.append(lit.as_str());
        row.append(", ");
        let lit = sql_literal(ats[i].description.as_str());
        row.append(lit.as_str());
        row.append(")");
        r.append(row.as_str());
        proof {
            assert(dv.take(i + 1).drop_last() =~= dv.take(i as int));
            assert(dv.take(i + 1).last() == dv[i as int]);
        }
        i = i + 1;
    }
    proof {
        assert(dv.take(ats.len() as int) =~= dv);
    }
    r
}

/// The one statement of an `AddAttributeStore` change.
pub open spec fn spec_add_attribute_store_statements(c: AddAttributeStoreView) -> Seq<Seq<char>> {
    seq![
        "CALL attribute_directory.create_attribute_store("@ + spec_sql_literal_plain(
            c.attribute_store.data_source,
        ) + "::text, "@ + spec_sql_literal_plain(c.attribute_store.entity_type)
            + "::text, ARRAY["@ + spec_attribute_rows_sql(c.attribute_store.attributes)
            + "]::attribute_directory.attribute_descr[])"@,
    ]
}

/// The success message of an `AddAttributeStore` change.
pub open spec fn spec_add_attribute_store_message(c: AddAttributeStoreView) -> Seq<char> {
    "Created attribute store '"@ + spec_attribute_store_text(c.attribute_store) + "'"@
}

impl AddAttributeStore {
    /// The SQL statements applying this change.
    pub fn statements(&self) -> (r: Vec<String>)
        ensures
            r.deep_view() == spec_add_attribute_store_statements(self@),
    {
        let mut stmt = "CALL attribute_directory.create_attribute_store(".to_owned();
        let lit = sql_literal(self.attribute_store.data_source.as_str());
        stmt.append(lit.as_str());
        stmt.append("::text, ");
        let lit = sql_literal(self.attribute_store.entity_type.as_str());
        stmt.append(lit.as_str());
        stmt.append("::text, ARRAY[");
        let rows = attribute_rows_sql(&self.attribute_store.attributes);
        stmt.append(rows.as_str());
        stmt.append("]::attribute_directory.attribute_descr[])");
        let mut r: Vec<String> = Vec::new();
        r.push(stmt);
        proof {
            assert(r.deep_view() =~= spec_add_attribute_store_statements(self@));
        }
        r
    }

    /// The message reported when this change applies cleanly.
    pub fn message(&self) -> (r: String)
        ensures
            r@ == spec_add_attribute_store_message(self@),
    {
        let mut r = "Created attribute store '".to_owned();
        let s = self.attribute_store.describe();
        r.append(s.as_str());
        r.append("'");
        r
    }
}


fn load_attributes(client: &mut postgres::Client, attribute_store_id: i32) -> (r: Result<
    Vec<Attribute>,
    Error,
>)
    ensures
        r matches Err(e) ==> e is Database,
{
    let mut q =
        "SELECT name, data_type, description FROM attribute_directory.attribute WHERE attribute_store_id = ".to_owned();
    let n = i64_to_string(attribute_store_id as i64);
    q.append(n.as_str());
    let rows = match pg::query(client, q.as_str()) {
        Ok(rows) => rows,
        Err(e) => {
            return Err(Error::Database(e));
        },
    };
    let mut attributes: Vec<Attribute> = Vec::new();
    let mut i: usize = 0;
    while i < rows.len()
        decreases rows.len() - i,
    {
        let name = match pg::row_string(&rows[i], 0) {
            Ok(v) => v,
            Err(e) => {
                return Err(Error::Database(e));
            },
        };
        let data_type_text = match pg::row_string(&rows[i], 1) {
            Ok(v) => v,
            Err(e) => {
                return Err(Error::Database(e));
            },
        };
        let description = match pg::row_opt_string(&rows[i], 2) {
            Ok(Some(v)) => v,
            Ok(None) => String::new(),
            Err(e) => {
                return Err(Error::Database(e));
            },
        };
        attributes.push(
            Attribute { name, data_type: DataType::from_text(data_type_text.as_str()), description },
        );
        i = i + 1;
    }
    Ok(attributes)
}

/// Loads every registered attribute store from the live database; a
/// failing call is a database error.
pub fn load_attribute_stores(client: &mut postgres::Client) -> (r: Result<
    Vec<AttributeStore>,
    Error,
>)
    ensures
        r matches Err(e) ==> e is Database,
{
    let rows = match pg::query(
        client,
        "SELECT attribute_store.id, data_source.name, entity_type.name FROM attribute_directory.attribute_store JOIN directory.data_source ON data_source.id = attribute_store.data_source_id JOIN directory.entity_type ON entity_type.id = attribute_store.entity_type_id",
    ) {
        Ok(rows) => rows,
        Err(e) => {
            return Err(Error::Database(e));
        },
    };
    let mut stores: Vec<AttributeStore> = Vec::new();
    let mut i: usize = 0;
    while i < rows.len()
        decreases rows.len() - i,
    {
        let store_id = match pg::row_i32(&rows[i], 0) {
            Ok(v) => v,
            Err(e) => {
                return Err(Error::Database(e));
            },
        };
        let data_source = match pg::row_string(&rows[i], 1) {
            Ok(v) => v,
            Err(e) => {
                return Err(Error::Database(e));
            },
        };
        let entity_type = match pg::row_string(&rows[i], 2) {
            Ok(v) => v,
            Err(e) => {
                return Err(Error::Database(e));
            },
        };
        let attributes = match load_attributes(client, store_id) {
            Ok(v) => v,
            Err(e) => {
                return Err(e);
            },
        };
        stores.push(AttributeStore { data_source, entity_type, attributes });
        i = i + 1;
    }
    Ok(stores)
}

/// Loads one attribute store by its identity key from the live database;
/// a loaded store carries exactly the identity key it was asked for, and
/// a failing call is a database error.
pub fn load_attribute_store(
    client: &mut postgres::Client,
    data_source: &str,
    entity_type: &str,
) -> (r: Result<AttributeStore, Error>)
    ensures
        r matches Ok(s) ==> s@.data_source == data_source@ && s@.entity_type == entity_type@,
        r matches Err(e) ==> e is Database,
{
    let mut q =
        "SELECT attribute_store.id FROM attribute_directory.attribute_store JOIN directory.data_source ON data_source.id = attribute_store.data_source_id JOIN directory.entity_type ON entity_type.id = attribute_store.entity_type_id WHERE data_source.name = ".to_owned();
    let lit = sql_literal(data_source);
    q.append(lit.as_str());
    q.append(" AND entity_type.name = ");
    let lit = sql_literal(entity_type);
    q.append(lit.as_str());
    let row = match pg::query_one(client, q.as_str()) {
        Ok(row) => row,
        Err(e) => {
            return Err(Error::Database(e));
        },
    };
    let store_id = match pg::row_i32(&row, 0) {
        Ok(v) => v,
        Err(e) => {
            return Err(Error::Database(e));
        },
    };
    let attributes = match load_attributes(client, store_id) {
        Ok(v) => v,
        Err(e) => {
            return Err(e);
        },
    };
    Ok(
        AttributeStore {
            data_source: data_source.to_owned(),
            entity_type: entity_type.to_owned(),
            attributes,
        },
    )
}

} // verus!
