//! Change statements and messages, the sanity check over definitions,
//! threshold validation, and the service error mapping.

use minerva::admin_cli::check_trend_store;
use minerva::instance::{classify_custom_file, CustomFileAction};
use minerva::text::ends_with_text;
use minerva::attribute_store::{AddAttributeStore, Attribute, AttributeStore};
use minerva::change::Change;
use minerva::meas_value::DataType;
use minerva::relation::{AddRelation, Relation};
use minerva::service::{ServiceErrorKind, TriggerData};
use minerva::trend_store::{
    delete_outcome, AddTrendStore, AddTrendStorePart, DeleteTrendStoreErrorKind, Trend, TrendStore,
    TrendStorePart,
};
use minerva::trigger::{Threshold, Trigger};

fn store_with_duplicate_part() -> TrendStore {
    let part = TrendStorePart {
        name: "hub_node_main_15m".to_string(),
        trends: Vec::new(),
        generated_trends: Vec::new(),
    };
    TrendStore {
        data_source: "hub".to_string(),
        entity_type: "node".to_string(),
        granularity: 900,
        partition_size: 86400,
        parts: vec![part.clone(), part],
    }
}

#[test]
fn duplicate_part_names_are_reported_per_occurrence() {
    let messages = check_trend_store(&store_with_duplicate_part());
    assert_eq!(messages.len(), 2);
    assert_eq!(
        messages[0],
        "Error: 2 trend store parts with name 'hub_node_main_15m'"
    );
}

#[test]
fn a_clean_definition_reports_nothing() {
    let mut store = store_with_duplicate_part();
    store.parts[1].name = "hub_node_main_1d".to_string();
    assert_eq!(check_trend_store(&store).len(), 0);
}

#[test]
fn add_relation_statements_create_replicate_and_register() {
    let change = Change::AddRelation(AddRelation {
        relation: Relation {
            name: "node->site".to_string(),
            query: "SELECT 1 AS source_id, 2 AS target_id".to_string(),
        },
    });
    let statements = change.statements();
    assert_eq!(statements.len(), 6);
    assert_eq!(
        statements[0],
        "CREATE TABLE relation.\"node->site\"(source_id integer, target_id integer)"
    );
    assert_eq!(
        statements[1],
        "CREATE VIEW relation_def.\"node->site\" AS SELECT 1 AS source_id, 2 AS target_id"
    );
    assert_eq!(
        statements[5],
        "SELECT relation_directory.register_type('node->site')"
    );
    assert_eq!(change.message(), "Added relation Relation(node->site)");
}

#[test]
fn add_attribute_store_batches_every_attribute_into_one_call() {
    let change = Change::AddAttributeStore(AddAttributeStore {
        attribute_store: AttributeStore {
            data_source: "test".to_string(),
            entity_type: "node".to_string(),
            attributes: vec![Attribute {
                name: "equipment_type".to_string(),
                data_type: DataType::Text,
                description: "Type name from vendor".to_string(),
            }],
        },
    });
    let statements = change.statements();
    assert_eq!(statements.len(), 1);
    assert_eq!(
        statements[0],
        "CALL attribute_directory.create_attribute_store('test'::text, 'node'::text, \
         ARRAY[ROW('equipment_type', 'text', 'Type name from vendor')]\
         ::attribute_directory.attribute_descr[])"
    );
    assert_eq!(
        change.message(),
        "Created attribute store 'AttributeStore(test, node)'"
    );
}

#[test]
fn modify_trend_data_types_raises_timeouts_first() {
    let store = TrendStore {
        data_source: "hub".to_string(),
        entity_type: "node".to_string(),
        granularity: 900,
        partition_size: 86400,
        parts: vec![TrendStorePart {
            name: "hub_node_main_15m".to_string(),
            trends: vec![Trend {
                name: "freq_power".to_string(),
                data_type: "integer".to_string(),
                description: String::new(),
                time_aggregation: "SUM".to_string(),
                entity_aggregation: "SUM".to_string(),
                extra_data: "{}".to_string(),
            }],
            generated_trends: Vec::new(),
        }],
    };
    let mut wanted = store.clone();
    wanted.parts[0].trends[0].data_type = "numeric".to_string();

    let changes = store.diff(&wanted);
    assert_eq!(changes.len(), 1);
    let statements = changes[0].statements();
    assert_eq!(statements[0], "SET SESSION statement_timeout = 0");
    assert_eq!(statements[1], "SET SESSION lock_timeout = '10min'");
    assert_eq!(
        statements[3],
        "ALTER TABLE trend.\"hub_node_main_15m\" ALTER \"freq_power\" TYPE numeric \
         USING CAST(\"freq_power\" AS numeric)"
    );
    assert_eq!(
        changes[0].message(),
        "Altered trend data types for trend store part 'hub_node_main_15m'"
    );
}

#[test]
fn add_trend_store_passes_granularity_as_seconds() {
    let change = Change::AddTrendStore(AddTrendStore {
        trend_store: TrendStore {
            data_source: "hub".to_string(),
            entity_type: "node".to_string(),
            granularity: 900,
            partition_size: 86400,
            parts: Vec::new(),
        },
    });
    let statements = change.statements();
    assert_eq!(statements.len(), 1);
    assert_eq!(
        statements[0],
        "SELECT id FROM trend_directory.create_trend_store('hub', 'node', \
         '900 seconds'::interval, '86400 seconds'::interval, \
         ARRAY[]::trend_directory.trend_store_part_descr[])"
    );
    assert_eq!(change.message(), "Added trend store TrendStore(hub, node, 15m)");
}

fn trigger_with(names: &[&str]) -> Trigger {
    Trigger {
        name: "average-output".to_string(),
        enabled: true,
        description: String::new(),
        thresholds: names
            .iter()
            .map(|n| Threshold {
                name: n.to_string(),
                data_type: "numeric".to_string(),
                value: "10".to_string(),
            })
            .collect(),
    }
}

#[test]
fn threshold_validation_reports_missing_and_unknown_fields() {
    let existing = trigger_with(&["max_power", "min_power"]);
    let request = TriggerData {
        name: "average-output".to_string(),
        enabled: true,
        description: String::new(),
        thresholds: trigger_with(&["max_power", "surprise"]).thresholds,
    };
    let reports = request.validate_against(&existing);
    assert_eq!(reports.len(), 2);
    assert_eq!(reports[0].0, "surprise");
    assert_eq!(reports[0].1, "This field is required");
    assert_eq!(reports[1].0, "min_power");
    assert_eq!(reports[1].1, "This field does not exist");
}

#[test]
fn a_complete_threshold_request_validates_cleanly_and_applies() {
    let existing = trigger_with(&["max_power"]);
    let mut requested = trigger_with(&["max_power"]);
    requested.thresholds[0].value = "20".to_string();
    let request = TriggerData {
        name: "average-output".to_string(),
        enabled: false,
        description: "lowered".to_string(),
        thresholds: requested.thresholds,
    };
    assert_eq!(request.validate_against(&existing).len(), 0);
    let updated = request.applied_to(&existing);
    assert_eq!(updated.name, "average-output");
    assert!(!updated.enabled);
    assert_eq!(updated.thresholds[0].value, "20");
}

#[test]
fn service_error_kinds_map_onto_their_statuses() {
    assert_eq!(ServiceErrorKind::NotFound.status_code(), 404);
    assert_eq!(ServiceErrorKind::BadRequest.status_code(), 400);
    assert_eq!(ServiceErrorKind::PoolError.status_code(), 500);
    assert_eq!(ServiceErrorKind::DbError.status_code(), 500);
    assert_eq!(ServiceErrorKind::InternalError.status_code(), 500);
}

#[test]
fn add_trend_store_part_passes_granularity_in_seconds() {
    let change = Change::AddTrendStorePart(AddTrendStorePart {
        trend_store: TrendStore {
            data_source: "hub".to_string(),
            entity_type: "node".to_string(),
            granularity: 900,
            partition_size: 86400,
            parts: Vec::new(),
        },
        trend_store_part: TrendStorePart {
            name: "hub_node_main_15m".to_string(),
            trends: Vec::new(),
            generated_trends: Vec::new(),
        },
    });
    let statements = change.statements();
    assert_eq!(statements.len(), 1);
    assert!(statements[0].contains("granularity = 900 * interval '1 sec'"));
    assert!(statements[0].contains("'hub_node_main_15m'"));
}

#[test]
fn a_removed_trend_yields_no_change() {
    let mine = TrendStorePart {
        name: "hub_node_main_15m".to_string(),
        trends: vec![Trend {
            name: "freq_power".to_string(),
            data_type: "numeric".to_string(),
            description: String::new(),
            time_aggregation: "SUM".to_string(),
            entity_aggregation: "SUM".to_string(),
            extra_data: "{}".to_string(),
        }],
        generated_trends: Vec::new(),
    };
    let other = TrendStorePart {
        name: "hub_node_main_15m".to_string(),
        trends: Vec::new(),
        generated_trends: Vec::new(),
    };
    assert_eq!(mine.diff(&other).len(), 0);
}

#[test]
fn deletion_outcome_follows_the_affected_row_count() {
    assert!(delete_outcome(1).is_ok());
    assert!(delete_outcome(7).is_ok());
    match delete_outcome(0) {
        Err(e) => {
            assert!(matches!(e.kind, DeleteTrendStoreErrorKind::NoSuchTrendStore));
            assert_eq!(e.original, "No trend store matches");
        }
        Ok(_) => panic!("zero affected rows must be refused"),
    }
}

#[test]
fn custom_stage_files_dispatch_by_suffix_then_permission() {
    assert!(matches!(
        classify_custom_file("010-roles.sql", false),
        CustomFileAction::ExecuteSql
    ));
    assert!(matches!(
        classify_custom_file("020-load.psql", false),
        CustomFileAction::ExecutePsql
    ));
    assert!(matches!(
        classify_custom_file("030-seed", true),
        CustomFileAction::ExecuteProgram
    ));
    assert!(matches!(
        classify_custom_file("README.md", false),
        CustomFileAction::Skip
    ));
    assert!(matches!(
        classify_custom_file("sql", false),
        CustomFileAction::Skip
    ));
    assert!(matches!(
        classify_custom_file("a.psql", false),
        CustomFileAction::ExecutePsql
    ));
}

#[test]
fn suffix_matching_is_exact() {
    assert!(ends_with_text("setup.sql", ".sql"));
    assert!(!ends_with_text("setup.psql", ".sql"));
    assert!(ends_with_text("setup.psql", ".psql"));
    assert!(!ends_with_text("sql", ".sql"));
    assert!(ends_with_text(".sql", ".sql"));
    assert!(!ends_with_text("", ".sql"));
}
