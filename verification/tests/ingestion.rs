//! The ingestion pipeline's verified core: case-insensitive column
//! matching, the COPY encoding with per-type NULL sentinels, and the
//! staging statement that touches only the matched columns.

use minerva::attribute_store::{Attribute, AttributeStore};
use minerva::attribute_storage::{
    copy_escape, encode_row, encode_rows, match_columns, AttributeDataRow,
};
use minerva::meas_value::DataType;

fn node_store() -> AttributeStore {
    AttributeStore {
        data_source: "hub".to_string(),
        entity_type: "node".to_string(),
        attributes: vec![
            Attribute {
                name: "outside_temp".to_string(),
                data_type: DataType::Numeric,
                description: String::new(),
            },
            Attribute {
                name: "inside_temp".to_string(),
                data_type: DataType::Numeric,
                description: String::new(),
            },
            Attribute {
                name: "power_kwh".to_string(),
                data_type: DataType::Numeric,
                description: String::new(),
            },
            Attribute {
                name: "freq_power".to_string(),
                data_type: DataType::Numeric,
                description: String::new(),
            },
        ],
    }
}

#[test]
fn columns_match_ignoring_case_and_ignore_unknown_ones() {
    let store = node_store();
    let requested = vec![
        "FREQ_POWER".to_string(),
        "unknown_column".to_string(),
        "Inside_Temp".to_string(),
    ];
    let matched = match_columns(&store.attributes, &requested);
    assert_eq!(matched.len(), 2);
    assert_eq!(matched[0].attribute.name, "inside_temp");
    assert_eq!(matched[0].position, 2);
    assert_eq!(matched[1].attribute.name, "freq_power");
    assert_eq!(matched[1].position, 0);
}

#[test]
fn copy_escaping_keeps_fields_in_their_place() {
    assert_eq!(copy_escape("plain"), "plain");
    assert_eq!(copy_escape("a\tb"), "a\\tb");
    assert_eq!(copy_escape("a\nb"), "a\\nb");
    assert_eq!(copy_escape("a\\b"), "a\\\\b");
    assert_eq!(copy_escape("a\rb"), "a\\rb");
}

#[test]
fn a_batch_of_two_rows_encodes_into_two_lines() {
    let store = node_store();
    let requested = vec!["freq_power".to_string()];
    let matched = match_columns(&store.attributes, &requested);
    let rows = vec![
        AttributeDataRow {
            entity_name: "hillside14".to_string(),
            values: vec![Some("212.4".to_string())],
        },
        AttributeDataRow {
            entity_name: "hillside15".to_string(),
            values: vec![Some("212.5".to_string())],
        },
    ];
    let payload = encode_rows(&matched, &rows).expect("the batch must encode");
    assert_eq!(payload, "hillside14\t212.4\nhillside15\t212.5\n");
    assert_eq!(payload.matches('\n').count(), rows.len());
}

#[test]
fn an_absent_value_encodes_as_its_types_own_sentinel() {
    let attrs = vec![
        Attribute {
            name: "height".to_string(),
            data_type: DataType::Int2,
            description: String::new(),
        },
        Attribute {
            name: "label".to_string(),
            data_type: DataType::Text,
            description: String::new(),
        },
    ];
    let requested = vec!["height".to_string(), "label".to_string()];
    let matched = match_columns(&attrs, &requested);
    let row = AttributeDataRow {
        entity_name: "hillside14".to_string(),
        values: vec![None, None],
    };
    let line = encode_row(&matched, &row).expect("the row must encode");
    assert_eq!(line, "hillside14\t-32768\t\n");
}

#[test]
fn a_bad_integer_refuses_the_batch() {
    let attrs = vec![Attribute {
        name: "height".to_string(),
        data_type: DataType::Int2,
        description: String::new(),
    }];
    let requested = vec!["height".to_string()];
    let matched = match_columns(&attrs, &requested);
    let rows = vec![AttributeDataRow {
        entity_name: "hillside14".to_string(),
        values: vec![Some("tall".to_string())],
    }];
    assert!(encode_rows(&matched, &rows).is_none());
}

#[test]
fn a_partial_batch_touches_only_its_own_columns() {
    let store = node_store();
    let requested = vec!["power_kwh".to_string(), "freq_power".to_string()];
    let matched = match_columns(&store.attributes, &requested);

    let staging = store.staging_statement(&matched);
    assert!(staging.contains("\"power_kwh\""));
    assert!(staging.contains("\"freq_power\""));
    assert!(!staging.contains("outside_temp"));
    assert!(!staging.contains("inside_temp"));

    let row = AttributeDataRow {
        entity_name: "hillside15".to_string(),
        values: vec![Some("55.9".to_string()), Some("200.0".to_string())],
    };
    let line = encode_row(&matched, &row).expect("the row must encode");
    assert_eq!(line, "hillside15\t55.9\t200.0\n");
}

#[test]
fn the_temporary_relation_declares_every_attribute() {
    let store = node_store();
    assert_eq!(
        store.temp_table_statement(),
        "CREATE TEMPORARY TABLE \"tmp_hub_node\"(entity_name text,\
         \"outside_temp\" numeric,\"inside_temp\" numeric,\
         \"power_kwh\" numeric,\"freq_power\" numeric) ON COMMIT DROP"
    );
}

#[test]
fn the_copy_statement_lists_entity_name_first() {
    let store = node_store();
    let requested = vec!["freq_power".to_string()];
    let matched = match_columns(&store.attributes, &requested);
    assert_eq!(
        store.copy_statement(&matched),
        "COPY \"tmp_hub_node\"(entity_name,\"freq_power\") FROM STDIN"
    );
}
