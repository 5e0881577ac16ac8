//! The diff engine: idempotence, completeness, batching, and the exact
//! audit renderings of the emitted changes.

use minerva::attribute_store::{Attribute, AttributeStore};
use minerva::change::Change;
use minerva::instance::MinervaInstance;
use minerva::meas_value::DataType;
use minerva::notification_store::Attribute as NotificationAttribute;
use minerva::notification_store::NotificationStore;
use minerva::trend_store::{Trend, TrendStore, TrendStorePart};

fn trend(name: &str, data_type: &str) -> Trend {
    Trend {
        name: name.to_string(),
        data_type: data_type.to_string(),
        description: String::new(),
        time_aggregation: "SUM".to_string(),
        entity_aggregation: "SUM".to_string(),
        extra_data: "{}".to_string(),
    }
}

#[test]
fn test_diff() {
    let test_vec1: TrendStorePart = TrendStorePart {
        name: String::from("Part_A"),
        trends: Vec::new(),
        generated_trends: Vec::new(),
    };

    let test_vec2: TrendStorePart = TrendStorePart {
        name: String::from("Part_A"),
        trends: vec![Trend {
            name: String::from("New"),
            data_type: "Wow".to_string(),
            description: String::new(),
            time_aggregation: String::new(),
            entity_aggregation: String::new(),
            extra_data: "null".to_string(),
        }],
        generated_trends: Vec::new(),
    };

    let test_result: Vec<Change> = TrendStorePart::diff(&test_vec1, &test_vec2);

    assert_eq!(test_result.len(), 1);

    match &test_result[0] {
        Change::AddTrends(add) => {
            assert_eq!(add.trend_store_part.name, test_vec1.name);
            assert_eq!(add.trends[0].name, "New");
        }
        _ => panic!("expected an AddTrends change"),
    }
}

#[test]
fn test_diff_added_attributes() {
    let my_attribute_store = AttributeStore {
        data_source: "test".to_string(),
        entity_type: "node".to_string(),
        attributes: vec![],
    };

    let other_attribute_store = AttributeStore {
        data_source: "test".to_string(),
        entity_type: "node".to_string(),
        attributes: vec![Attribute {
            name: "equipment_type".to_string(),
            data_type: DataType::Text,
            description: "Type name from vendor".to_string(),
        }],
    };

    let changes = my_attribute_store.diff(&other_attribute_store);

    assert_eq!(changes.len(), 1);
    let first_change = changes.first().expect("Should have a change");

    assert_eq!(
        first_change.describe(),
        "AddAttributes(AttributeStore(test, node), 1):\n - equipment_type: text\n"
    );
}

#[test]
fn test_diff_removed_attributes() {
    let my_attribute_store = AttributeStore {
        data_source: "test".to_string(),
        entity_type: "node".to_string(),
        attributes: vec![Attribute {
            name: "equipment_type".to_string(),
            data_type: DataType::Text,
            description: "Type name from vendor".to_string(),
        }],
    };

    let other_attribute_store = AttributeStore {
        data_source: "test".to_string(),
        entity_type: "node".to_string(),
        attributes: vec![],
    };

    let changes = my_attribute_store.diff(&other_attribute_store);

    assert_eq!(changes.len(), 1);
    let first_change = changes.first().expect("Should have a change");

    assert_eq!(
        first_change.describe(),
        "RemoveAttributes(AttributeStore(test, node), 1)\n - equipment_type\n"
    );
}

fn sample_store() -> TrendStore {
    TrendStore {
        data_source: "hub".to_string(),
        entity_type: "node".to_string(),
        granularity: 900,
        partition_size: 86400,
        parts: vec![TrendStorePart {
            name: "hub_node_main_15m".to_string(),
            trends: vec![trend("outside_temp", "numeric"), trend("inside_temp", "numeric")],
            generated_trends: Vec::new(),
        }],
    }
}

#[test]
fn diff_of_identical_stores_is_empty() {
    let a = sample_store();
    let b = sample_store();
    assert_eq!(a.diff(&b).len(), 0);
}

#[test]
fn diff_of_identical_parts_is_empty() {
    let a = sample_store().parts[0].clone();
    let b = sample_store().parts[0].clone();
    assert_eq!(a.diff(&b).len(), 0);
}

#[test]
fn diff_of_identical_instances_is_empty() {
    let a = MinervaInstance {
        instance_root: None,
        trend_stores: vec![sample_store()],
        attribute_stores: Vec::new(),
        notification_stores: Vec::new(),
        relations: Vec::new(),
        trend_materializations: Vec::new(),
        triggers: Vec::new(),
    };
    let b = MinervaInstance {
        instance_root: None,
        trend_stores: vec![sample_store()],
        attribute_stores: Vec::new(),
        notification_stores: Vec::new(),
        relations: Vec::new(),
        trend_materializations: Vec::new(),
        triggers: Vec::new(),
    };
    assert_eq!(a.diff(&b).len(), 0);
}

#[test]
fn one_added_trend_yields_one_add_trends_with_exactly_that_trend() {
    let mine = sample_store().parts[0].clone();
    let mut other = sample_store().parts[0].clone();
    other.trends.push(trend("freq_power", "numeric"));

    let changes = mine.diff(&other);
    assert_eq!(changes.len(), 1);
    match &changes[0] {
        Change::AddTrends(add) => {
            assert_eq!(add.trends.len(), 1);
            assert_eq!(add.trends[0].name, "freq_power");
            assert_eq!(add.trend_store_part.name, "hub_node_main_15m");
        }
        _ => panic!("expected an AddTrends change"),
    }
}

#[test]
fn two_type_changes_batch_into_one_modification_change() {
    let mine = sample_store().parts[0].clone();
    let mut other = sample_store().parts[0].clone();
    other.trends[0].data_type = "double precision".to_string();
    other.trends[1].data_type = "bigint".to_string();

    let changes = mine.diff(&other);
    assert_eq!(changes.len(), 1);
    match &changes[0] {
        Change::ModifyTrendDataTypes(m) => {
            assert_eq!(m.modifications.len(), 2);
            assert_eq!(m.modifications[0].trend_name, "outside_temp");
            assert_eq!(m.modifications[0].from_type, "numeric");
            assert_eq!(m.modifications[0].to_type, "double precision");
            assert_eq!(m.modifications[1].trend_name, "inside_temp");
            assert_eq!(m.modifications[1].to_type, "bigint");
            assert_eq!(
                changes[0].describe(),
                "ModifyTrendDataTypes(TrendStorePart(hub_node_main_15m), \
                 Trend(outside_temp, numeric->double precision),Trend(inside_temp, numeric->bigint))"
            );
        }
        _ => panic!("expected a ModifyTrendDataTypes change"),
    }
}

#[test]
fn additions_come_before_modifications() {
    let mine = sample_store().parts[0].clone();
    let mut other = sample_store().parts[0].clone();
    other.trends[0].data_type = "bigint".to_string();
    other.trends.push(trend("freq_power", "numeric"));

    let changes = mine.diff(&other);
    assert_eq!(changes.len(), 2);
    assert!(matches!(changes[0], Change::AddTrends(_)));
    assert!(matches!(changes[1], Change::ModifyTrendDataTypes(_)));
}

#[test]
fn missing_part_is_added_whole() {
    let mine = sample_store();
    let mut other = sample_store();
    other.parts.push(TrendStorePart {
        name: "hub_node_main_1d".to_string(),
        trends: vec![trend("outside_temp", "numeric")],
        generated_trends: Vec::new(),
    });

    let changes = mine.diff(&other);
    assert_eq!(changes.len(), 1);
    match &changes[0] {
        Change::AddTrendStorePart(add) => {
            assert_eq!(add.trend_store_part.name, "hub_node_main_1d");
            assert_eq!(
                changes[0].describe(),
                "AddTrendStorePart(TrendStore(hub, node, 15m), TrendStorePart(hub_node_main_1d))"
            );
        }
        _ => panic!("expected an AddTrendStorePart change"),
    }
}

#[test]
fn changed_attribute_type_is_emitted_individually() {
    let mine = AttributeStore {
        data_source: "test".to_string(),
        entity_type: "node".to_string(),
        attributes: vec![
            Attribute {
                name: "equipment_type".to_string(),
                data_type: DataType::Text,
                description: String::new(),
            },
            Attribute {
                name: "height".to_string(),
                data_type: DataType::Int2,
                description: String::new(),
            },
        ],
    };
    let mut other = mine.clone();
    other.attributes[1].data_type = DataType::Integer;

    let changes = mine.diff(&other);
    assert_eq!(changes.len(), 1);
    assert_eq!(
        changes[0].describe(),
        "ChangeAttribute(AttributeStore(test, node), height)"
    );
}

#[test]
fn a_new_notification_attribute_is_batched_into_one_change() {
    let mine = NotificationStore {
        title: None,
        data_source: "trigger-notification".to_string(),
        attributes: Vec::new(),
    };
    let mut other = mine.clone();
    other.attributes.push(NotificationAttribute {
        name: "severity".to_string(),
        data_type: "text".to_string(),
        description: String::new(),
    });
    let changes = mine.diff(&other);
    assert_eq!(changes.len(), 1);
    assert_eq!(
        changes[0].describe(),
        "AddAttributes(NotificationStore(trigger-notification), 1)"
    );
    let statements = changes[0].statements();
    assert_eq!(statements.len(), 1);
    assert!(statements[0].contains("'severity'"));
    assert!(statements[0].contains("'trigger-notification'"));
}

#[test]
fn identical_notification_stores_diff_to_nothing() {
    let mine = NotificationStore {
        title: Some("Trigger notifications".to_string()),
        data_source: "trigger-notification".to_string(),
        attributes: Vec::new(),
    };
    let other = mine.clone();
    assert_eq!(mine.diff(&other).len(), 0);
}

#[test]
fn attribute_additions_come_before_type_changes_and_removals() {
    let mine = AttributeStore {
        data_source: "test".to_string(),
        entity_type: "node".to_string(),
        attributes: vec![
            Attribute {
                name: "equipment_type".to_string(),
                data_type: DataType::Text,
                description: String::new(),
            },
            Attribute {
                name: "height".to_string(),
                data_type: DataType::Int2,
                description: String::new(),
            },
        ],
    };
    let other = AttributeStore {
        data_source: "test".to_string(),
        entity_type: "node".to_string(),
        attributes: vec![
            Attribute {
                name: "equipment_type".to_string(),
                data_type: DataType::Text,
                description: String::new(),
            },
            Attribute {
                name: "height".to_string(),
                data_type: DataType::Integer,
                description: String::new(),
            },
            Attribute {
                name: "vendor".to_string(),
                data_type: DataType::Text,
                description: String::new(),
            },
        ],
    };

    let changes = mine.diff(&other);
    assert_eq!(changes.len(), 2);
    assert!(matches!(changes[0], Change::AddAttributes(_)));
    assert!(matches!(changes[1], Change::ChangeAttribute(_)));

    let mut fewer = other.clone();
    fewer.attributes.remove(0);
    let changes = mine.diff(&fewer);
    assert_eq!(changes.len(), 3);
    assert!(matches!(changes[0], Change::AddAttributes(_)));
    assert!(matches!(changes[1], Change::ChangeAttribute(_)));
    assert!(matches!(changes[2], Change::RemoveAttributes(_)));
}
