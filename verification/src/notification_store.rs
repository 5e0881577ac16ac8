//! Notification stores: event streams with typed attribute columns, one
//! store per data source. The identity key of a store is its data source;
//! of an attribute, its name.

use vstd::prelude::*;

verus! {

use crate::text::{str_eq, u64_to_string, spec_dec_digits, sql_literal, spec_sql_literal_plain};
use crate::change::ChangeView;
use crate::error::{Error, DatabaseError};
use crate::text::i64_to_string;
use crate::pg;
use vstd::pervasive::cloned;

/// A typed column of a notification store.
pub struct Attribute {
    pub name: String,
    pub data_type: String,
    pub description: String,
}

/// The mathematical shape of a notification attribute.
pub ghost struct NotificationAttributeView {
    pub name: Seq<char>,
    pub data_type: Seq<char>,
    pub description: Seq<char>,
}

impl View for Attribute {
    type V = NotificationAttributeView;

    open spec fn view(&self) -> NotificationAttributeView {
        NotificationAttributeView {
            name: self.name@,
            data_type: self.data_type@,
            description: self.description@,
        }
    }
}

impl DeepView for Attribute {
    type V = NotificationAttributeView;

    open spec fn deep_view(&self) -> NotificationAttributeView {
        self.view()
    }
}

impl Clone for Attribute {
    fn clone(&self) -> (r: Self)
        ensures
            r == *self,
    {
        Attribute {
            name: self.name.clone(),
            data_type: self.data_type.clone(),
            description: self.description.clone(),
        }
    }
}

/// A notification store.
pub struct NotificationStore {
    pub title: Option<String>,
    pub data_source: String,
    pub attributes: Vec<Attribute>,
}

/// The mathematical shape of a notification store.
pub ghost struct NotificationStoreView {
    pub title: Option<Seq<char>>,
    pub data_source: Seq<char>,
    pub attributes: Seq<NotificationAttributeView>,
}

impl View for NotificationStore {
    type V = NotificationStoreView;

    open spec fn view(&self) -> NotificationStoreView {
        NotificationStoreView {
            title: match self.title {
                Option::Some(ref t) => Some(t@),
                Option::None => None,
            },
            data_source: self.data_source@,
            attributes: self.attributes.deep_view(),
        }
    }
}

impl DeepView for NotificationStore {
    type V = NotificationStoreView;

    open spec fn deep_view(&self) -> NotificationStoreView {
        self.view()
    }
}

impl Clone for NotificationStore {
    fn clone(&self) -> (r: Self)
        ensures
            r@ == self@,
    {
        let title = match &self.title {
            Option::Some(t) => Some(t.clone()),
            Option::None => None,
        };
        let r = NotificationStore {
            title,
            data_source: self.data_source.clone(),
            attributes: self.attributes.clone(),
        };
        proof {
            assert forall|i: int| 0 <= i < self.attributes@.len() implies r.attributes.deep_view()[i]
                == self.attributes.deep_view()[i] by {
                assert(cloned::<Attribute>(self.attributes[i], r.attributes[i]));
            }
            assert(r.attributes.deep_view() =~= self.attributes.deep_view());
        }
        r
    }
}

/// The display text of a notification store: its identity key.
pub open spec fn spec_notification_store_text(s: NotificationStoreView) -> Seq<char> {
    "NotificationStore("@ + s.data_source + ")"@
}

impl NotificationStore {
    /// Renders this store for audit messages.
    pub fn describe(&self) -> (r: String)
        ensures
            r@ == spec_notification_store_text(self@),
    {
        let mut r = "NotificationStore(".to_owned();
        r.append(self.data_source.as_str());
        r.append(")");
        r
    }
}

/// Adds newly declared attributes to an existing notification store.
pub struct AddAttributes {
    pub notification_store: NotificationStore,
    pub attributes: Vec<Attribute>,
}

/// The mathematical shape of a notification `AddAttributes` change.
pub ghost struct AddNotificationAttributesView {
    pub notification_store: NotificationStoreView,
    pub attributes: Seq<NotificationAttributeView>,
}

impl View for AddAttributes {
    type V = AddNotificationAttributesView;

    open spec fn view(&self) -> AddNotificationAttributesView {
        AddNotificationAttributesView {
            notification_store: self.notification_store@,
            attributes: self.attributes.deep_view(),
        }
    }
}

/// The display text of a notification `AddAttributes` change.
pub open spec fn spec_add_notification_attributes_text(c: AddNotificationAttributesView) -> Seq<
    char,
> {
    "AddAttributes("@ + spec_notification_store_text(c.notification_store) + ", "@
        + spec_dec_digits(c.attributes.len() as int) + ")"@
}

impl AddAttributes {
    /// Renders this change for audit messages.
    pub fn describe(&self) -> (r: String)
        ensures
            r@ == spec_add_notification_attributes_text(self@),
    {
        let mut r = "AddAttributes(".to_owned();
        let s = self.notification_store.describe();
        r.append(s.as_str());
        r.append(", ");
        let n = u64_to_string(self.attributes.len() as u64);
        r.append(n.as_str());
        r.append(")");
        r
    }
}

/// Creates a whole notification store with its declared attributes.
pub struct AddNotificationStore {
    pub notification_store: NotificationStore,
}

/// The mathematical shape of an `AddNotificationStore` change.
pub ghost struct AddNotificationStoreView {
    pub notification_store: NotificationStoreView,
}

impl View for AddNotificationStore {
    type V = AddNotificationStoreView;

    open spec fn view(&self) -> AddNotificationStoreView {
        AddNotificationStoreView { notification_store: self.notification_store@ }
    }
}

/// The display text of an `AddNotificationStore` change.
pub open spec fn spec_add_notification_store_text(c: AddNotificationStoreView) -> Seq<char> {
    "AddNotificationStore("@ + spec_notification_store_text(c.notification_store) + ")"@
}

impl AddNotificationStore {
    /// Renders this change for audit messages.
    pub fn describe(&self) -> (r: String)
        ensures
            r@ == spec_add_notification_store_text(self@),
    {
        let mut r = "AddNotificationStore(".to_owned();
        let s = self.notification_store.describe();
        r.append(s.as_str());
        r.append(")");
        r
    }
}

/// The first attribute carrying `name`, scanning from the front.
pub open spec fn spec_find_notification_attribute(
    ats: Seq<NotificationAttributeView>,
    name: Seq<char>,
) -> Option<NotificationAttributeView>
    decreases ats.len(),
{
    if ats.len() == 0 {
        None
    } else if ats.first().name == name {
        Some(ats.first())
    } else {
        spec_find_notification_attribute(ats.drop_first(), name)
    }
}

/// Looks a notification attribute up by name.
pub fn find_notification_attribute(ats: &Vec<Attribute>, name: &str) -> (r: Option<usize>)
    ensures
        match spec_find_notification_attribute(ats.deep_view(), name@) {
            Option::None => r is None,
            Option::Some(a) => r matches Some(i) && i < ats.len() && ats.deep_view()[i as int]
                == a,
        },
{
    let ghost dv = ats.deep_view();
    let mut i: usize = 0;
    proof {
        assert(dv.skip(0) =~= dv);
    }
    while i < ats.len()
        invariant
            0 <= i <= ats.len(),
            dv == ats.deep_view(),
            dv.len() == ats.len(),
            spec_find_notification_attribute(dv, name@) == spec_find_notification_attribute(
                dv.skip(i as int),
                name@,
            ),
        decreases ats.len() - i,
    {
        let ghost rest = dv.skip(i as int);
        if str_eq(ats[i].name.as_str(), name) {
            proof {
                assert(rest.first() == dv[i as int]);
            }
            return Some(i);
        }
        proof {
            assert(rest.first() == dv[i as int]);
            assert(rest.drop_first() =~= dv.skip(i + 1));
        }
        i = i + 1;
    }
    proof {
        assert(dv.skip(ats.len() as int) =~= Seq::<NotificationAttributeView>::empty());
    }
    None
}

/// Every attribute's own name is found.
pub proof fn lemma_find_notification_attribute_member(
    ats: Seq<NotificationAttributeView>,
    i: int,
)
    requires
        0 <= i < ats.len(),
    ensures
        spec_find_notification_attribute(ats, ats[i].name) is Some,
    decreases ats.len(),
{
    if ats.first().name != ats[i].name {
        lemma_find_notification_attribute_member(ats.drop_first(), i - 1);
    }
}


/// The attributes of `other` whose names `mine` does not know.
pub open spec fn spec_new_notification_attributes(
    mine: Seq<NotificationAttributeView>,
    other: Seq<NotificationAttributeView>,
) -> Seq<NotificationAttributeView>
    decreases other.len(),
{
    if other.len() == 0 {
        Seq::empty()
    } else {
        spec_new_notification_attributes(mine, other.drop_last()) + (
        if spec_find_notification_attribute(mine, other.last().name) is None {
            seq![other.last()]
        } else {
            Seq::empty()
        })
    }
}

/// The change list between two notification stores of the same data
/// source: newly declared attributes batched into one `AddAttributes`;
/// nothing else is diffed.
pub open spec fn spec_notification_store_diff(
    mine: NotificationStoreView,
    other: NotificationStoreView,
) -> Seq<ChangeView> {
    let news = spec_new_notification_attributes(mine.attributes, other.attributes);
    if news.len() > 0 {
        seq![
            ChangeView::AddNotificationAttributes(
                AddNotificationAttributesView { notification_store: mine, attributes: news },
            ),
        ]
    } else {
        Seq::empty()
    }
}

impl NotificationStore {
    /// Compares this store against a declared `other` of the same data
    /// source and emits the change list.
    pub fn diff(&self, other: &NotificationStore) -> (r: Vec<crate::change::Change>)
        ensures
            r.deep_view() == spec_notification_store_diff(self@, other@),
    {
        let ghost mdv = self.attributes.deep_view();
        let ghost odv = other.attributes.deep_view();
        let mut new_attributes: Vec<Attribute> = Vec::new();
        let mut i: usize = 0;
        proof {
            assert(odv.take(0) =~= Seq::<NotificationAttributeView>::empty());
            assert(new_attributes.deep_view() =~= Seq::<NotificationAttributeView>::empty());
        }
        while i < other.attributes.len()
            invariant
                0 <= i <= other.attributes.len(),
                mdv == self.attributes.deep_view(),
                odv == other.attributes.deep_view(),
                odv.len() == other.attributes.len(),
                new_attributes.deep_view() == spec_new_notification_attributes(
                    mdv,
                    odv.take(i as int),
                ),
            decreases other.attributes.len() - i,
        {
            let ghost nt0 = new_attributes.deep_view();
            proof {
                assert(odv.take(i + 1).drop_last() =~= odv.take(i as int));
                assert(odv.take(i + 1).last() == odv[i as int]);
            }
            match find_notification_attribute(&self.attributes, other.attributes[i].name.as_str()) {
                Option::Some(_) => {
                    proof {
                        assert(new_attributes.deep_view() =~= spec_new_notification_attributes(
                            mdv,
                            odv.take(i + 1),
                        ));
                    }
                },
                Option::None => {
                    new_attributes.push(other.attributes[i].clone());
                    proof {
                        assert(new_attributes.deep_view() =~= nt0.push(odv[i as int]));
                        assert(new_attributes.deep_view() =~= spec_new_notification_attributes(
                            mdv,
                            odv.take(i + 1),
                        ));
                    }
                },
            }
            i = i + 1;
        }
        proof {
            assert(odv.take(other.attributes.len() as int) =~= odv);
        }
        let mut changes: Vec<crate::change::Change> = Vec::new();
        if new_attributes.len() > 0 {
            changes.push(
                crate::change::Change::AddNotificationAttributes(
                    AddAttributes {
                        notification_store: self.clone(),
                        attributes: new_attributes,
                    },
                ),
            );
        }
        proof {
            assert(changes.deep_view() =~= spec_notification_store_diff(self@, other@));
        }
        changes
    }
}

/// When `mine` knows every name of `other`, nothing counts as new.
pub proof fn lemma_new_notification_attributes_all_known(
    mine: Seq<NotificationAttributeView>,
    other: Seq<NotificationAttributeView>,
)
    requires
        forall|k: int|
            0 <= k < other.len() ==> spec_find_notification_attribute(
                mine,
                (#[trigger] other[k]).name,
            ) is Some,
    ensures
        spec_new_notification_attributes(mine, other) == Seq::<NotificationAttributeView>::empty(),
    decreases other.len(),
{
    if other.len() > 0 {
        assert(forall|k: int|
            0 <= k < other.drop_last().len() ==> other.drop_last()[k] == other[k]);
        lemma_new_notification_attributes_all_known(mine, other.drop_last());
        assert(spec_new_notification_attributes(mine, other)
            =~= Seq::<NotificationAttributeView>::empty());
    }
}

/// Diff idempotence at notification store level: a store diffed against
/// itself yields no change.
pub proof fn lemma_notification_store_diff_idempotent(s: NotificationStoreView)
    ensures
        spec_notification_store_diff(s, s) == Seq::<ChangeView>::empty(),
{
    assert forall|k: int|
        0 <= k < s.attributes.len() implies spec_find_notification_attribute(
        s.attributes,
        (#[trigger] s.attributes[k]).name,
    ) is Some by {
        lemma_find_notification_attribute_member(s.attributes, k);
    }
    lemma_new_notification_attributes_all_known(s.attributes, s.attributes);
}


/// One insert-and-create-column statement per added attribute.
pub open spec fn spec_add_notification_attribute_statement(
    store: NotificationStoreView,
    a: NotificationAttributeView,
) -> Seq<char> {
    "WITH a AS (INSERT INTO notification_directory.attribute(notification_store_id, name, data_type, description) SELECT ns.id, "@
        + spec_sql_literal_plain(a.name) + ", "@ + spec_sql_literal_plain(a.data_type) + ", "@
        + spec_sql_literal_plain(a.description)
        + " FROM notification_directory.notification_store ns JOIN directory.data_source ds ON ds.id = ns.data_source_id WHERE ds.name = "@
        + spec_sql_literal_plain(store.data_source)
        + " RETURNING attribute) SELECT notification_directory.create_attribute_column(a.attribute) FROM a"@
}

/// The statements of a notification `AddAttributes` change.
pub open spec fn spec_add_notification_attributes_statements_rec(
    store: NotificationStoreView,
    ats: Seq<NotificationAttributeView>,
) -> Seq<Seq<char>>
    decreases ats.len(),
{
    if ats.len() == 0 {
        Seq::empty()
    } else {
        spec_add_notification_attributes_statements_rec(store, ats.drop_last()) + seq![
            spec_add_notification_attribute_statement(store, ats.last()),
        ]
    }
}

/// The statements of a notification `AddAttributes` change.
pub open spec fn spec_add_notification_attributes_statements(
    c: AddNotificationAttributesView,
) -> Seq<Seq<char>> {
    spec_add_notification_attributes_statements_rec(c.notification_store, c.attributes)
}

/// The success message of a notification `AddAttributes` change.
pub open spec fn spec_add_notification_attributes_message(
    c: AddNotificationAttributesView,
) -> Seq<char> {
    "Added attributes to notification store '"@ + spec_notification_store_text(
        c.notification_store,
    ) + "'"@
}

impl AddAttributes {
    /// The SQL statements applying this change, in order.
    pub fn statements(&self) -> (r: Vec<String>)
        ensures
            r.deep_view() == spec_add_notification_attributes_statements(self@),
    {
        let ghost adv = self.attributes.deep_view();
        let mut r: Vec<String> = Vec::new();
        let mut i: usize = 0;
        proof {
            assert(adv.take(0) =~= Seq::<NotificationAttributeView>::empty());
            assert(r.deep_view() =~= Seq::<Seq<char>>::empty());
        }
        while i < self.attributes.len()
            invariant
                0 <= i <= self.attributes.len(),
                adv == self.attributes.deep_view(),
                adv.len() == self.attributes.len(),
                r.deep_view() == spec_add_notification_attributes_statements_rec(
                    self@.notification_store,
                    adv.take(i as int),
                ),
            decreases self.attributes.len() - i,
        {
            let ghost r0 = r.deep_view();
            let mut stmt =
                "WITH a AS (INSERT INTO notification_directory.attribute(notification_store_id, name, data_type, description) SELECT ns.id, ".to_owned();
            let lit = sql_literal(self.attributes[i].name.as_str());
            stmt.append(lit.as_str());
            stmt.append(", ");
            let lit = sql_literal(self.attributes[i].data_type.as_str());
            stmt.append(lit.as_str());
            stmt.append(", ");
            let lit = sql_literal(self.attributes[i].description.as_str());
            stmt.append(lit.as_str());
            stmt.append(
                " FROM notification_directory.notification_store ns JOIN directory.data_source ds ON ds.id = ns.data_source_id WHERE ds.name = ",
            );
            let lit = sql_literal(self.notification_store.data_source.as_str());
            stmt.append(lit.as_str());
            stmt.append(
                " RETURNING attribute) SELECT notification_directory.create_attribute_column(a.attribute) FROM a",
            );
            r.push(stmt);
            proof {
                assert(adv.take(i + 1).drop_last() =~= adv.take(i as int));
                assert(adv.take(i + 1).last() == adv[i as int]);
                assert(r.deep_view() =~= r0.push(
                    spec_add_notification_attribute_statement(
                        self@.notification_store,
                        adv[i as int],
                    ),
                ));
                assert(r.deep_view() =~= spec_add_notification_attributes_statements_rec(
                    self@.notification_store,
                    adv.take(i + 1),
                ));
            }
            i = i + 1;
        }
        proof {
            assert(adv.take(self.attributes.len() as int) =~= adv);
        }
        r
    }

    /// The message reported when this change applies cleanly.
    pub fn message(&self) -> (r: String)
        ensures
            r@ == spec_add_notification_attributes_message(self@),
    {
        let mut r = "Added attributes to notification store '".to_owned();
        let s = self.notification_store.describe();
        r.append(s.as_str());
        r.append("'");
        r
    }
}

/// The SQL text of one attribute as an `attr_def` row.
pub open spec fn spec_attr_def_row_sql(a: NotificationAttributeView) -> Seq<char> {
    "("@ + spec_sql_literal_plain(a.name) + ", "@ + spec_sql_literal_plain(a.data_type) + ", '')"@
}

/// The `attr_def` rows joined with commas.
pub open spec fn spec_attr_def_rows_sql(ats: Seq<NotificationAttributeView>) -> Seq<char>
    decreases ats.len(),
{
    if ats.len() == 0 {
        Seq::empty()
    } else if ats.len() == 1 {
        spec_attr_def_row_sql(ats[0])
    } else {
        spec_attr_def_rows_sql(ats.drop_last()) + ","@ + spec_attr_def_row_sql(ats.last())
    }
}

/// The one statement of an `AddNotificationStore` change.
pub open spec fn spec_add_notification_store_statements(c: AddNotificationStoreView) -> Seq<
    Seq<char>,
> {
    seq![
        "SELECT notification_directory.create_notification_store("@ + spec_sql_literal_plain(
            c.notification_store.data_source,
        ) + "::text, ARRAY["@ + spec_attr_def_rows_sql(c.notification_store.attributes)
            + "]::notification_directory.attr_def[])"@,
    ]
}

/// The success message of an `AddNotificationStore` change, worded as the
/// executor has always reported it.
pub open spec fn spec_add_notification_store_message(c: AddNotificationStoreView) -> Seq<char> {
    "Created attribute store '"@ + spec_notification_store_text(c.notification_store) + "'"@
}

impl AddNotificationStore {
    /// The SQL statements applying this change.
    pub fn statements(&self) -> (r: Vec<String>)
        ensures
            r.deep_view() == spec_add_notification_store_statements(self@),
    {
        let ghost adv = self.notification_store.attributes.deep_view();
        let mut stmt = "SELECT notification_directory.create_notification_store(".to_owned();
        let lit = sql_literal(self.notification_store.data_source.as_str());
        stmt.append(lit.as_str());
        stmt.append("::text, ARRAY[");
        let mut rows = String::new();
        let mut i: usize = 0;
        proof {
            assert(adv.take(0) =~= Seq::<NotificationAttributeView>::empty());
        }
        while i < self.notification_store.attributes.len()
            invariant
                0 <= i <= self.notification_store.attributes.len(),
                adv == self.notification_store.attributes.deep_view(),
                adv.len() == self.notification_store.attributes.len(),
                rows@ == spec_attr_def_rows_sql(adv.take(i as int)),
            decreases self.notification_store.attributes.len() - i,
        {
            if i > 0 {
                rows.append(",");
            }
            rows.append("(");
            let lit = sql_literal(self.notification_store.attributes[i].name.as_str());
            rows.append(lit.as_str());
            rows.append(", ");
            let lit = sql_literal(self.notification_store.attributes[i].data_type.as_str());
            rows.append(lit.as_str());
            rows.append(", '')");
            proof {
                assert(adv.take(i + 1).drop_last() =~= adv.take(i as int));
                assert(adv.take(i + 1).last() == adv[i as int]);
            }
            i = i + 1;
        }
        proof {
            assert(adv.take(self.notification_store.attributes.len() as int) =~= adv);
        }
        stmt.append(rows.as_str());
        stmt.append("]::notification_directory.attr_def[])");
        let mut r: Vec<String> = Vec::new();
        r.push(stmt);
        proof {
            assert(r.deep_view() =~= spec_add_notification_store_statements(self@));
        }
        r
    }

    /// The message reported when this change applies cleanly.
    pub fn message(&self) -> (r: String)
        ensures
            r@ == spec_add_notification_store_message(self@),
    {
        let mut r = "Created attribute store '".to_owned();
        let s = self.notification_store.describe();
        r.append(s.as_str());
        r.append("'");
        r
    }
}


fn load_notification_attributes(
    client: &mut postgres::Client,
    notification_store_id: i32,
) -> (r: Result<Vec<Attribute>, Error>)
    ensures
        r matches Err(e) ==> e is Database,
{
    let mut q =
        "SELECT name, data_type, description FROM notification_directory.attribute WHERE notification_store_id = ".to_owned();
    let n = i64_to_string(notification_store_id as i64);
    q.append(n.as_str());
    let rows = match pg::query(client, q.as_str()) {
        Ok(rows) => rows,
        Err(e) => {
            return Err(Error::Database(e));
        },
    };
    let mut attributes: Vec<Attribute> = Vec::new();
    let mut i: usize = 0;
    while i < rows.len()
        decreases rows.len() - i,
    {
        let name = match pg::row_string(&rows[i], 0) {
            Ok(v) => v,
            Err(e) => {
                return Err(Error::Database(e));
            },
        };
        let data_type = match pg::row_string(&rows[i], 1) {
            Ok(v) => v,
            Err(e) => {
                return Err(Error::Database(e));
            },
        };
        let description = match pg::row_opt_string(&rows[i], 2) {
            Ok(Some(v)) => v,
            Ok(None) => String::new(),
            Err(e) => {
                return Err(Error::Database(e));
            },
        };
        attributes.push(Attribute { name, data_type, description });
        i = i + 1;
    }
    Ok(attributes)
}

/// Loads every registered notification store from the live database; the
/// directory stores no title, so every loaded store carries none, and a
/// failing call is a database error.
pub fn load_notification_stores(client: &mut postgres::Client) -> (r: Result<
    Vec<NotificationStore>,
    Error,
>)
    ensures
        r matches Err(e) ==> e is Database,
        r matches Ok(ss) ==> forall|a: int| 0 <= a < ss@.len() ==> (#[trigger] ss@[a])@.title is None,
{
    let rows = match pg::query(
        client,
        "SELECT notification_store.id, data_source.name FROM notification_directory.notification_store JOIN directory.data_source ON data_source.id = notification_store.data_source_id",
    ) {
        Ok(rows) => rows,
        Err(e) => {
            return Err(Error::Database(e));
        },
    };
    let mut stores: Vec<NotificationStore> = Vec::new();
    let mut i: usize = 0;
    while i < rows.len()
        invariant
            forall|a: int| 0 <= a < stores@.len() ==> (#[trigger] stores@[a])@.title is None,
        decreases rows.len() - i,
    {
        let store_id = match pg::row_i32(&rows[i], 0) {
            Ok(v) => v,
            Err(e) => {
                return Err(Error::Database(e));
            },
        };
        let data_source = match pg::row_string(&rows[i], 1) {
            Ok(v) => v,
            Err(e) => {
                return Err(Error::Database(e));
            },
        };
        let attributes = match load_notification_attributes(client, store_id) {
            Ok(v) => v,
            Err(e) => {
                return Err(e);
            },
        };
        let ghost stores0 = stores@;
        stores.push(NotificationStore { title: None, data_source, attributes });
        proof {
            assert forall|a: int|
                0 <= a < stores@.len() implies (#[trigger] stores@[a])@.title is None by {
                if a < stores0.len() {
                    assert(stores@[a] == stores0[a]);
                }
            }
        }
        i = i + 1;
    }
    Ok(stores)
}

/// Loads one notification store by its data source from the live
/// database; a loaded store carries exactly the data source it was asked
/// for, and a failing call is a database error.
pub fn load_notification_store(
    client: &mut postgres::Client,
    data_source: &str,
) -> (r: Result<NotificationStore, Error>)
    ensures
        r matches Ok(s) ==> s@.data_source == data_source@,
        r matches Err(e) ==> e is Database,
{
    let mut q =
        "SELECT notification_store.id FROM notification_directory.notification_store JOIN directory.data_source ON data_source.id = notification_store.data_source_id WHERE data_source.name = ".to_owned();
    let lit = sql_literal(data_source);
    q.append(lit.as_str());
    let row = match pg::query_one(client, q.as_str()) {
        Ok(row) => row,
        Err(e) => {
            return Err(Error::Database(e));
        },
    };
    let store_id = match pg::row_i32(&row, 0) {
        Ok(v) => v,
        Err(e) => {
            return Err(Error::Database(e));
        },
    };
    let attributes = match load_notification_attributes(client, store_id) {
        Ok(v) => v,
        Err(e) => {
            return Err(e);
        },
    };
    Ok(NotificationStore { title: None, data_source: data_source.to_owned(), attributes })
}

/// Whether a notification store is registered for the data source; more
/// than one match, like a failing call, is reported as a database error.
pub fn notification_store_exists(client: &mut postgres::Client, data_source_name: &str) -> (r:
    Result<bool, Error>)
    ensures
        r matches Err(e) ==> e is Database,
{
    let mut q =
        "SELECT notification_store.id, data_source.name FROM notification_directory.notification_store JOIN directory.data_source ON data_source.id = notification_store.data_source_id WHERE data_source.name = ".to_owned();
    let lit = sql_literal(data_source_name);
    q.append(lit.as_str());
    let rows = match pg::query(client, q.as_str()) {
        Ok(rows) => rows,
        Err(e) => {
            return Err(Error::Database(e));
        },
    };
    if rows.len() == 0 {
        Ok(false)
    } else if rows.len() == 1 {
        Ok(true)
    } else {
        Err(
            Error::Database(
                DatabaseError::from_msg(
                    "Unexpected number of notification store matches".to_owned(),
                ),
            ),
        )
    }
}

} // verus!
