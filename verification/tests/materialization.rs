//! The materialization compiler: the PL/pgSQL coercion, the scalar-knob
//! diff, and teardown-before-recreate.

use minerva::change::Change;
use minerva::trend_materialization::{
    coorce_to_plpgsql, map_sql_to_plpgsql, TrendFunctionMaterialization, TrendMaterialization,
    TrendMaterializationFunction, TrendMaterializationSource, TrendViewMaterialization,
};

fn view_materialization() -> TrendViewMaterialization {
    TrendViewMaterialization {
        target_trend_store_part: "kpi-test-kpi_node_15m".to_string(),
        enabled: true,
        processing_delay: 1800,
        stability_delay: 300,
        reprocessing_period: 259200,
        sources: vec![TrendMaterializationSource {
            trend_store_part: "hub_node_main_15m".to_string(),
            mapping_function: "trend.mapping_id".to_string(),
        }],
        view: "SELECT 1".to_string(),
        fingerprint_function: "SELECT max(modified.last), format('{}')::jsonb".to_string(),
        description: None,
    }
}

fn function_materialization() -> TrendFunctionMaterialization {
    TrendFunctionMaterialization {
        target_trend_store_part: "kpi-test-kpi_node_15m".to_string(),
        enabled: true,
        processing_delay: 1800,
        stability_delay: 300,
        reprocessing_period: 259200,
        sources: vec![TrendMaterializationSource {
            trend_store_part: "hub_node_main_15m".to_string(),
            mapping_function: "trend.mapping_id".to_string(),
        }],
        function: TrendMaterializationFunction {
            return_type: "TABLE (\n    entity_id integer\n)\n".to_string(),
            src: "BEGIN\nRETURN QUERY EXECUTE $query$\nSELECT 1\n$query$ USING $1;\nEND;\n"
                .to_string(),
            language: "plpgsql".to_string(),
        },
        fingerprint_function: "SELECT max(modified.last), format('{}')::jsonb".to_string(),
        description: None,
    }
}

#[test]
fn plain_sql_compiles_to_the_exact_plpgsql_wrapper() {
    let body = "SELECT\n  t1.entity_id,\n  $1 AS timestamp,\n  inside_temp - outside_temp AS \"test-kpi-name\"\nFROM trend.\"hub_node_main_15m\" t1\nWHERE t1.timestamp = $1\nGROUP BY t1.entity_id\n";
    let expected = "BEGIN\nRETURN QUERY EXECUTE $query$\nSELECT\n  t1.entity_id,\n  $1 AS timestamp,\n  inside_temp - outside_temp AS \"test-kpi-name\"\nFROM trend.\"hub_node_main_15m\" t1\nWHERE t1.timestamp = $1\nGROUP BY t1.entity_id\n$query$ USING $1;\nEND;\n";
    assert_eq!(map_sql_to_plpgsql(body.to_string()), expected);
}

#[test]
fn coercion_rewrites_sql_and_keeps_plpgsql() {
    let (lang, src) =
        coorce_to_plpgsql(("sql".to_string(), "SELECT 1".to_string())).expect("sql is accepted");
    assert_eq!(lang, "plpgsql");
    assert_eq!(src, "BEGIN\nRETURN QUERY EXECUTE $query$\nSELECT 1$query$ USING $1;\nEND;\n");

    let (lang, src) = coorce_to_plpgsql(("plpgsql".to_string(), "BEGIN END;".to_string()))
        .expect("plpgsql passes through");
    assert_eq!(lang, "plpgsql");
    assert_eq!(src, "BEGIN END;");

    assert!(coorce_to_plpgsql(("python".to_string(), "pass".to_string())).is_err());
}

#[test]
fn equal_view_materializations_diff_to_nothing() {
    let a = TrendMaterialization::View(view_materialization());
    let b = TrendMaterialization::View(view_materialization());
    assert_eq!(a.diff(&b).len(), 0);
}

#[test]
fn a_changed_timing_knob_diffs_to_one_attribute_update() {
    let a = TrendMaterialization::View(view_materialization());
    let mut other = view_materialization();
    other.processing_delay = 3600;
    let b = TrendMaterialization::View(other);
    let changes = a.diff(&b);
    assert_eq!(changes.len(), 1);
    assert_eq!(
        changes[0].describe(),
        "UpdateTrendViewMaterializationAttributes(kpi-test-kpi_node_15m)"
    );
}

#[test]
fn function_materializations_report_no_diffable_change() {
    let a = TrendMaterialization::Function(function_materialization());
    let b = TrendMaterialization::Function(function_materialization());
    assert_eq!(a.diff(&b).len(), 0);
}

#[test]
fn update_tears_down_before_recreating_and_registers_one_implementation() {
    // The materialization currently implemented as a view is updated to a
    // function implementation: the plan must first de-register both
    // mechanisms, then register exactly the function, never both.
    let new_definition = TrendMaterialization::Function(function_materialization());
    let plan = new_definition.update_statements();
    let teardown = new_definition.teardown_statements();

    assert!(plan.len() > teardown.len());
    for (i, stage) in teardown.iter().enumerate() {
        assert_eq!(&plan[i], stage);
    }
    assert!(teardown[0].starts_with("DELETE FROM trend_directory.view_materialization"));
    assert!(teardown[1].starts_with("DELETE FROM trend_directory.function_materialization"));

    let function_registrations = plan
        .iter()
        .filter(|s| s.starts_with("INSERT INTO trend_directory.function_materialization"))
        .count();
    let view_registrations = plan
        .iter()
        .filter(|s| s.starts_with("INSERT INTO trend_directory.view_materialization"))
        .count();
    assert_eq!(function_registrations, 1);
    assert_eq!(view_registrations, 0);
}

#[test]
fn a_view_update_plan_registers_only_the_view() {
    let new_definition = TrendMaterialization::View(view_materialization());
    let plan = new_definition.update_statements();
    let view_registrations = plan
        .iter()
        .filter(|s| s.starts_with("INSERT INTO trend_directory.view_materialization"))
        .count();
    let function_registrations = plan
        .iter()
        .filter(|s| s.starts_with("INSERT INTO trend_directory.function_materialization"))
        .count();
    assert_eq!(view_registrations, 1);
    assert_eq!(function_registrations, 0);
}

#[test]
fn the_create_plan_quotes_the_view_name() {
    let m = TrendMaterialization::View(view_materialization());
    let plan = m.create_statements();
    assert_eq!(
        plan[0],
        "CREATE VIEW trend.\"_kpi-test-kpi_node_15m\" AS SELECT 1"
    );
}

#[test]
fn a_refused_language_names_itself() {
    match coorce_to_plpgsql(("python".to_string(), "pass".to_string())) {
        Err(e) => assert_eq!(e.to_text(), "Unexpected language 'python'"),
        Ok(_) => panic!("an unexpected language must be refused"),
    }
}
