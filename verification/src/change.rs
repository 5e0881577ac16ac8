//! The unit of reconciliation work. Every concrete change the diff engine
//! can emit is one variant of `Change`: a closed set, so handling stays
//! exhaustive. A change renders itself for audit logs and applies itself
//! against a database connection inside its own transaction.

use vstd::prelude::*;

verus! {

use crate::trend_store::{
    AddTrends, AddTrendsView, ModifyTrendDataTypes, ModifyTrendDataTypesView, AddTrendStorePart,
    AddTrendStorePartView, AddTrendStore, AddTrendStoreView, spec_add_trends_text,
    spec_modify_trend_data_types_text, spec_add_part_text, spec_add_store_text,
};
use crate::attribute_store::{
    AddAttributes, AddAttributesView, RemoveAttributes, RemoveAttributesView, ChangeAttribute,
    ChangeAttributeView, AddAttributeStore, AddAttributeStoreView, spec_add_attributes_text,
    spec_remove_attributes_text, spec_change_attribute_text, spec_add_attribute_store_text,
};
use crate::notification_store::{AddNotificationStore, AddNotificationStoreView};
use crate::notification_store::AddAttributes as AddNotificationAttributes;
use crate::notification_store::AddNotificationAttributesView;
use crate::notification_store::spec_add_notification_attributes_text;
use crate::notification_store::spec_add_notification_store_text;
use crate::relation::{AddRelation, AddRelationView, spec_add_relation_text};
use crate::trend_materialization::{
    AddTrendMaterialization, AddTrendMaterializationView, UpdateTrendMaterialization,
    UpdateTrendMaterializationView, UpdateTrendViewMaterializationAttributes,
    UpdateTrendViewMaterializationAttributesView, spec_add_materialization_text,
    spec_update_materialization_text, spec_update_view_attributes_text,
};

/// One unit of reconciliation work.
pub enum Change {
    AddTrends(AddTrends),
    ModifyTrendDataTypes(ModifyTrendDataTypes),
    AddTrendStorePart(AddTrendStorePart),
    AddTrendStore(AddTrendStore),
    AddAttributes(AddAttributes),
    RemoveAttributes(RemoveAttributes),
    ChangeAttribute(ChangeAttribute),
    AddAttributeStore(AddAttributeStore),
    AddNotificationAttributes(AddNotificationAttributes),
    AddNotificationStore(AddNotificationStore),
    AddRelation(AddRelation),
    AddTrendMaterialization(AddTrendMaterialization),
    UpdateTrendMaterialization(UpdateTrendMaterialization),
    UpdateTrendViewMaterializationAttributes(UpdateTrendViewMaterializationAttributes),
}

/// The mathematical shape of a change.
pub ghost enum ChangeView {
    AddTrends(AddTrendsView),
    ModifyTrendDataTypes(ModifyTrendDataTypesView),
    AddTrendStorePart(AddTrendStorePartView),
    AddTrendStore(AddTrendStoreView),
    AddAttributes(AddAttributesView),
    RemoveAttributes(RemoveAttributesView),
    ChangeAttribute(ChangeAttributeView),
    AddAttributeStore(AddAttributeStoreView),
    AddNotificationAttributes(AddNotificationAttributesView),
    AddNotificationStore(AddNotificationStoreView),
    AddRelation(AddRelationView),
    AddTrendMaterialization(AddTrendMaterializationView),
    UpdateTrendMaterialization(UpdateTrendMaterializationView),
    UpdateTrendViewMaterializationAttributes(UpdateTrendViewMaterializationAttributesView),
}

impl View for Change {
    type V = ChangeView;

    open spec fn view(&self) -> ChangeView {
        match self {
            Change::AddTrends(c) => ChangeView::AddTrends(c@),
            Change::ModifyTrendDataTypes(c) => ChangeView::ModifyTrendDataTypes(c@),
            Change::AddTrendStorePart(c) => ChangeView::AddTrendStorePart(c@),
            Change::AddTrendStore(c) => ChangeView::AddTrendStore(c@),
            Change::AddAttributes(c) => ChangeView::AddAttributes(c@),
            Change::RemoveAttributes(c) => ChangeView::RemoveAttributes(c@),
            Change::ChangeAttribute(c) => ChangeView::ChangeAttribute(c@),
            Change::AddAttributeStore(c) => ChangeView::AddAttributeStore(c@),
            Change::AddNotificationAttributes(c) => ChangeView::AddNotificationAttributes(c@),
            Change::AddNotificationStore(c) => ChangeView::AddNotificationStore(c@),
            Change::AddRelation(c) => ChangeView::AddRelation(c@),
            Change::AddTrendMaterialization(c) => ChangeView::AddTrendMaterialization(c@),
            Change::UpdateTrendMaterialization(c) => ChangeView::UpdateTrendMaterialization(c@),
            Change::UpdateTrendViewMaterializationAttributes(c) => ChangeView::UpdateTrendViewMaterializationAttributes(
                c@,
            ),
        }
    }
}

impl DeepView for Change {
    type V = ChangeView;

    open spec fn deep_view(&self) -> ChangeView {
        self.view()
    }
}

/// The audit text of a change, by variant.
pub open spec fn spec_change_text(c: ChangeView) -> Seq<char> {
    match c {
        ChangeView::AddTrends(v) => spec_add_trends_text(v),
        ChangeView::ModifyTrendDataTypes(v) => spec_modify_trend_data_types_text(v),
        ChangeView::AddTrendStorePart(v) => spec_add_part_text(v),
        ChangeView::AddTrendStore(v) => spec_add_store_text(v),
        ChangeView::AddAttributes(v) => spec_add_attributes_text(v),
        ChangeView::RemoveAttributes(v) => spec_remove_attributes_text(v),
        ChangeView::ChangeAttribute(v) => spec_change_attribute_text(v),
        ChangeView::AddAttributeStore(v) => spec_add_attribute_store_text(v),
        ChangeView::AddNotificationAttributes(v) => spec_add_notification_attributes_text(v),
        ChangeView::AddNotificationStore(v) => spec_add_notification_store_text(v),
        ChangeView::AddRelation(v) => spec_add_relation_text(v),
        ChangeView::AddTrendMaterialization(v) => spec_add_materialization_text(v),
        ChangeView::UpdateTrendMaterialization(v) => spec_update_materialization_text(v),
        ChangeView::UpdateTrendViewMaterializationAttributes(v) => spec_update_view_attributes_text(
            v,
        ),
    }
}

impl Change {
    /// Renders this change for audit and logging.
    pub fn describe(&self) -> (r: String)
        ensures
            r@ == spec_change_text(self@),
    {
        match self {
            Change::AddTrends(c) => c.describe(),
            Change::ModifyTrendDataTypes(c) => c.describe(),
            Change::AddTrendStorePart(c) => c.describe(),
            Change::AddTrendStore(c) => c.describe(),
            Change::AddAttributes(c) => c.describe(),
            Change::RemoveAttributes(c) => c.describe(),
            Change::ChangeAttribute(c) => c.describe(),
            Change::AddAttributeStore(c) => c.describe(),
            Change::AddNotificationAttributes(c) => c.describe(),
            Change::AddNotificationStore(c) => c.describe(),
            Change::AddRelation(c) => c.describe(),
            Change::AddTrendMaterialization(c) => c.describe(),
            Change::UpdateTrendMaterialization(c) => c.describe(),
            Change::UpdateTrendViewMaterializationAttributes(c) => c.describe(),
        }
    }
}


/// The SQL statements of a change, by variant.
pub open spec fn spec_change_statements(c: ChangeView) -> Seq<Seq<char>> {
    match c {
        ChangeView::AddTrends(v) => crate::trend_store::spec_add_trends_statements(v),
        ChangeView::ModifyTrendDataTypes(v) => crate::trend_store::spec_modify_trend_data_types_statements(
            v,
        ),
        ChangeView::AddTrendStorePart(v) => crate::trend_store::spec_add_part_statements(v),
        ChangeView::AddTrendStore(v) => crate::trend_store::spec_add_store_statements(v),
        ChangeView::AddAttributes(v) => crate::attribute_store::spec_add_attributes_statements(v),
        ChangeView::RemoveAttributes(v) => crate::attribute_store::spec_remove_attributes_statements(
            v,
        ),
        ChangeView::ChangeAttribute(v) => crate::attribute_store::spec_change_attribute_statements(
            v,
        ),
        ChangeView::AddAttributeStore(v) => crate::attribute_store::spec_add_attribute_store_statements(
            v,
        ),
        ChangeView::AddNotificationAttributes(v) => crate::notification_store::spec_add_notification_attributes_statements(
            v,
        ),
        ChangeView::AddNotificationStore(v) => crate::notification_store::spec_add_notification_store_statements(
            v,
        ),
        ChangeView::AddRelation(v) => crate::relation::spec_add_relation_statements(v),
        ChangeView::AddTrendMaterialization(v) => crate::trend_materialization::spec_add_materialization_statements(
            v,
        ),
        ChangeView::UpdateTrendMaterialization(v) => crate::trend_materialization::spec_update_materialization_statements(
            v,
        ),
        ChangeView::UpdateTrendViewMaterializationAttributes(v) => crate::trend_materialization::spec_update_view_attributes_statements(
            v,
        ),
    }
}

/// The success message of a change, by variant.
pub open spec fn spec_change_message(c: ChangeView) -> Seq<char> {
    match c {
        ChangeView::AddTrends(v) => crate::trend_store::spec_add_trends_message(v),
        ChangeView::ModifyTrendDataTypes(v) => crate::trend_store::spec_modify_trend_data_types_message(
            v,
        ),
        ChangeView::AddTrendStorePart(v) => crate::trend_store::spec_add_part_message(v),
        ChangeView::AddTrendStore(v) => crate::trend_store::spec_add_store_message(v),
        ChangeView::AddAttributes(v) => crate::attribute_store::spec_add_attributes_message(v),
        ChangeView::RemoveAttributes(v) => crate::attribute_store::spec_remove_attributes_message(
            v,
        ),
        ChangeView::ChangeAttribute(v) => crate::attribute_store::spec_change_attribute_message(v),
        ChangeView::AddAttributeStore(v) => crate::attribute_store::spec_add_attribute_store_message(
            v,
        ),
        ChangeView::AddNotificationAttributes(v) => crate::notification_store::spec_add_notification_attributes_message(
            v,
        ),
        ChangeView::AddNotificationStore(v) => crate::notification_store::spec_add_notification_store_message(
            v,
        ),
        ChangeView::AddRelation(v) => crate::relation::spec_add_relation_message(v),
        ChangeView::AddTrendMaterialization(v) => crate::trend_materialization::spec_add_materialization_message(
            v,
        ),
        ChangeView::UpdateTrendMaterialization(v) => crate::trend_materialization::spec_update_materialization_message(
            v,
        ),
        ChangeView::UpdateTrendViewMaterializationAttributes(v) => crate::trend_materialization::spec_update_view_attributes_message(
            v,
        ),
    }
}

impl Change {
    /// The SQL statements applying this change, in order.
    pub fn statements(&self) -> (r: Vec<String>)
        ensures
            r.deep_view() == spec_change_statements(self@),
    {
        match self {
            Change::AddTrends(c) => c.statements(),
            Change::ModifyTrendDataTypes(c) => c.statements(),
            Change::AddTrendStorePart(c) => c.statements(),
            Change::AddTrendStore(c) => c.statements(),
            Change::AddAttributes(c) => c.statements(),
            Change::RemoveAttributes(c) => c.statements(),
            Change::ChangeAttribute(c) => c.statements(),
            Change::AddAttributeStore(c) => c.statements(),
            Change::AddNotificationAttributes(c) => c.statements(),
            Change::AddNotificationStore(c) => c.statements(),
            Change::AddRelation(c) => c.statements(),
            Change::AddTrendMaterialization(c) => c.statements(),
            Change::UpdateTrendMaterialization(c) => c.statements(),
            Change::UpdateTrendViewMaterializationAttributes(c) => c.statements(),
        }
    }

    /// The message reported when this change applies cleanly.
    pub fn message(&self) -> (r: String)
        ensures
            r@ == spec_change_message(self@),
    {
        match self {
            Change::AddTrends(c) => c.message(),
            Change::ModifyTrendDataTypes(c) => c.message(),
            Change::AddTrendStorePart(c) => c.message(),
            Change::AddTrendStore(c) => c.message(),
            Change::AddAttributes(c) => c.message(),
            Change::RemoveAttributes(c) => c.message(),
            Change::ChangeAttribute(c) => c.message(),
            Change::AddAttributeStore(c) => c.message(),
            Change::AddNotificationAttributes(c) => c.message(),
            Change::AddNotificationStore(c) => c.message(),
            Change::AddRelation(c) => c.message(),
            Change::AddTrendMaterialization(c) => c.message(),
            Change::UpdateTrendMaterialization(c) => c.message(),
            Change::UpdateTrendViewMaterializationAttributes(c) => c.message(),
        }
    }

    /// Applies this change inside its own transaction: every statement in
    /// order, committed together; a failing statement rolls everything
    /// back, so a change is never partially applied. On success the
    /// change's own message comes back; a failure is always reported as a
    /// database error. The one two-phase change is the materialization
    /// update: its teardown commits on its own before the
    /// re-implementation, and the error text names the half that failed.
    pub fn apply(&self, client: &mut postgres::Client) -> (r: Result<
        String,
        crate::error::Error,
    >)
        ensures
            r matches Ok(m) ==> m@ == spec_change_message(self@),
            r is Err ==> r->Err_0 is Database,
    {
        if let Change::UpdateTrendMaterialization(c) = self {
            return match c.trend_materialization.update(client) {
                Ok(_) => Ok(self.message()),
                Err(crate::trend_materialization::MaterializationUpdateError::Teardown(e)) => {
                    let mut msg = "materialization teardown failed: ".to_owned();
                    msg.append(e.msg.as_str());
                    Err(crate::error::Error::Database(crate::error::DatabaseError::from_msg(msg)))
                },
                Err(crate::trend_materialization::MaterializationUpdateError::Recreate(e)) => {
                    let mut msg = "materialization recreation failed: ".to_owned();
                    msg.append(e.msg.as_str());
                    Err(crate::error::Error::Database(crate::error::DatabaseError::from_msg(msg)))
                },
            };
        }
        let stmts = self.statements();
        match run_in_transaction(client, &stmts) {
            Ok(_) => Ok(self.message()),
            Err(e) => Err(crate::error::Error::Database(e)),
        }
    }

    /// Applies this change with session-local prelude statements run
    /// first inside the same single transaction; initialization uses it
    /// for the store creations. The materialization update change goes
    /// through `apply`, which runs it in its two phases.
    pub fn apply_with_prelude(
        &self,
        client: &mut postgres::Client,
        prelude: &Vec<String>,
    ) -> (r: Result<String, crate::error::Error>)
        ensures
            r matches Ok(m) ==> m@ == spec_change_message(self@),
            r is Err ==> r->Err_0 is Database,
    {
        let mut all: Vec<String> = Vec::new();
        let mut i: usize = 0;
        while i < prelude.len()
            decreases prelude.len() - i,
        {
            all.push(prelude[i].clone());
            i = i + 1;
        }
        let mut stmts = self.statements();
        all.append(&mut stmts);
        match run_in_transaction(client, &all) {
            Ok(_) => Ok(self.message()),
            Err(e) => Err(crate::error::Error::Database(e)),
        }
    }
}

/// Runs statements as one transaction: all of them commit together, or a
/// failure rolls every one of them back and is reported.
pub fn run_in_transaction(
    client: &mut postgres::Client,
    statements: &Vec<String>,
) -> (r: Result<(), crate::error::DatabaseError>) {
    if let Err(e) = crate::pg::execute(client, "BEGIN") {
        return Err(e);
    }
    let mut i: usize = 0;
    while i < statements.len()
        invariant
            0 <= i <= statements.len(),
        decreases statements.len() - i,
    {
        match crate::pg::execute(client, statements[i].as_str()) {
            Ok(_) => {},
            Err(e) => {
                let rollback = crate::pg::execute(client, "ROLLBACK");
                match rollback {
                    Ok(_) => {},
                    Err(_) => {},
                }
                return Err(e);
            },
        }
        i = i + 1;
    }
    match crate::pg::execute(client, "COMMIT") {
        Ok(_) => Ok(()),
        Err(e) => {
            let rollback = crate::pg::execute(client, "ROLLBACK");
            match rollback {
                Ok(_) => {},
                Err(_) => {},
            }
            Err(e)
        },
    }
}

} // verus!
