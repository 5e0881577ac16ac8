//! Relations: named materialized mappings between two entity sets, backed
//! by a reference table replicated to every node.

use vstd::prelude::*;

verus! {

use crate::text::{sql_literal, sql_ident, spec_sql_literal_plain, spec_sql_ident};

/// A relation: its name and the defining query.
pub struct Relation {
    pub name: String,
    pub query: String,
}

/// The mathematical shape of a relation.
pub ghost struct RelationView {
    pub name: Seq<char>,
    pub query: Seq<char>,
}

impl View for Relation {
    type V = RelationView;

    open spec fn view(&self) -> RelationView {
        RelationView { name: self.name@, query: self.query@ }
    }
}

impl DeepView for Relation {
    type V = RelationView;

    open spec fn deep_view(&self) -> RelationView {
        self.view()
    }
}

impl Clone for Relation {
    fn clone(&self) -> (r: Self)
        ensures
            r == *self,
    {
        Relation { name: self.name.clone(), query: self.query.clone() }
    }
}

/// The display text of a relation.
pub open spec fn spec_relation_text(r: RelationView) -> Seq<char> {
    "Relation("@ + r.name + ")"@
}

impl Relation {
    /// Renders this relation for audit messages.
    pub fn describe(&self) -> (r: String)
        ensures
            r@ == spec_relation_text(self@),
    {
        let mut r = "Relation(".to_owned();
        r.append(self.name.as_str());
        r.append(")");
        r
    }
}

/// Creates the relation's reference table, its defining view, its indexes,
/// and registers it.
pub struct AddRelation {
    pub relation: Relation,
}

/// The mathematical shape of an `AddRelation` change.
pub ghost struct AddRelationView {
    pub relation: RelationView,
}

impl View for AddRelation {
    type V = AddRelationView;

    open spec fn view(&self) -> AddRelationView {
        AddRelationView { relation: self.relation@ }
    }
}

/// The display text of an `AddRelation` change.
pub open spec fn spec_add_relation_text(c: AddRelationView) -> Seq<char> {
    "AddRelation("@ + spec_relation_text(c.relation) + ")"@
}

impl AddRelation {
    /// Renders this change for audit messages.
    pub fn describe(&self) -> (r: String)
        ensures
            r@ == spec_add_relation_text(self@),
    {
        let mut r = "AddRelation(".to_owned();
        let s = self.relation.describe();
        r.append(s.as_str());
        r.append(")");
        r
    }
}


/// The statements of an `AddRelation` change: the reference table, the
/// defining view, the unique and lookup indexes, the replication to every
/// node, and the registration.
pub open spec fn spec_add_relation_statements(c: AddRelationView) -> Seq<Seq<char>> {
    seq![
        "CREATE TABLE relation."@ + spec_sql_ident(c.relation.name)
            + "(source_id integer, target_id integer)"@,
        "CREATE VIEW relation_def."@ + spec_sql_ident(c.relation.name) + " AS "@
            + c.relation.query,
        "CREATE UNIQUE INDEX ON relation."@ + spec_sql_ident(c.relation.name)
            + "(source_id, target_id)"@,
        "CREATE INDEX ON relation."@ + spec_sql_ident(c.relation.name) + "(target_id)"@,
        "SELECT create_reference_table('relation."@ + spec_sql_ident(c.relation.name) + "')"@,
        "SELECT relation_directory.register_type("@ + spec_sql_literal_plain(c.relation.name)
            + ")"@,
    ]
}

/// The success message of an `AddRelation` change.
pub open spec fn spec_add_relation_message(c: AddRelationView) -> Seq<char> {
    "Added relation "@ + spec_relation_text(c.relation)
}

impl AddRelation {
    /// The SQL statements applying this change, in order.
    pub fn statements(&self) -> (r: Vec<String>)
        ensures
            r.deep_view() == spec_add_relation_statements(self@),
    {
        let mut r: Vec<String> = Vec::new();
        let id = sql_ident(self.relation.name.as_str());
        let mut s1 = "CREATE TABLE relation.".to_owned();
        s1.append(id.as_str());
        s1.append("(source_id integer, target_id integer)");
        r.push(s1);
        let mut s2 = "CREATE VIEW relation_def.".to_owned();
        s2.append(id.as_str());
        s2.append(" AS ");
        s2.append(self.relation.query.as_str());
        r.push(s2);
        let mut s3 = "CREATE UNIQUE INDEX ON relation.".to_owned();
        s3.append(id.as_str());
        s3.append("(source_id, target_id)");
        r.push(s3);
        let mut s4 = "CREATE INDEX ON relation.".to_owned();
        s4.append(id.as_str());
        s4.append("(target_id)");
        r.push(s4);
        let mut s5 = "SELECT create_reference_table('relation.".to_owned();
        s5.append(id.as_str());
        s5.append("')");
        r.push(s5);
        let mut s6 = "SELECT relation_directory.register_type(".to_owned();
        let lit = sql_literal(self.relation.name.as_str());
        s6.append(lit.as_str());
        s6.append(")");
        r.push(s6);
        proof {
            assert(r.deep_view() =~= spec_add_relation_statements(self@));
        }
        r
    }

    /// The message reported when this change applies cleanly.
    pub fn message(&self) -> (r: String)
        ensures
            r@ == spec_add_relation_message(self@),
    {
        let mut r = "Added relation ".to_owned();
        let s = self.relation.describe();
        r.append(s.as_str());
        r
    }
}

} // verus!
