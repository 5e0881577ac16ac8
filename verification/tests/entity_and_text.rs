//! The entity mapping cache and resolution core, the SQL quoting, and
//! the smaller text utilities.

use minerva::entity::{resolve_ids, CachingEntityMapping};
use minerva::error::EntityMappingError;
use minerva::text::{eq_ignore_case, i64_to_string, sql_ident, sql_literal, u64_to_string};

#[test]
fn the_cache_serves_what_it_was_handed() {
    let mut mapping = CachingEntityMapping::new(100);
    assert_eq!(mapping.cached_id("node", "hillside14"), None);
    mapping.cache_id("node".to_string(), "hillside14".to_string(), 42);
    assert_eq!(mapping.cached_id("node", "hillside14"), Some(42));
    assert_eq!(mapping.cached_id("node", "hillside15"), None);
    assert_eq!(mapping.cached_id("pvpanel", "hillside14"), None);
}

#[test]
fn resolution_is_order_preserving_and_serves_duplicates_alike() {
    let names = vec![
        "hillside14".to_string(),
        "hillside15".to_string(),
        "hillside14".to_string(),
    ];
    let hits = vec![Some(7), None, Some(7)];
    let fetched = vec![("hillside15".to_string(), 8)];
    let ids = resolve_ids(&names, &hits, &fetched).expect("every name resolves");
    assert_eq!(ids, vec![7, 8, 7]);
}

#[test]
fn resolution_converges_for_two_callers_over_one_store() {
    // Two concurrent creators of `hillside16` both receive the single
    // stored id from the conflict-resolving upsert; whatever each cache
    // held, both resolutions agree.
    let names = vec!["hillside16".to_string(), "hillside14".to_string()];
    let first = resolve_ids(
        &names,
        &vec![None, Some(7)],
        &vec![("hillside16".to_string(), 9)],
    )
    .expect("resolves");
    let second = resolve_ids(
        &names,
        &vec![None, None],
        &vec![("hillside16".to_string(), 9), ("hillside14".to_string(), 7)],
    )
    .expect("resolves");
    assert_eq!(first, second);
}

#[test]
fn an_unresolved_name_fails_the_whole_call() {
    let names = vec!["hillside14".to_string(), "ghost".to_string()];
    let hits = vec![Some(7), None];
    let fetched: Vec<(String, i32)> = Vec::new();
    match resolve_ids(&names, &hits, &fetched) {
        Err(EntityMappingError::UnmappedEntityError) => {}
        _ => panic!("expected an UnmappedEntityError"),
    }
}

#[test]
fn identifier_quoting_doubles_inner_quotes() {
    assert_eq!(sql_ident("plain"), "\"plain\"");
    assert_eq!(sql_ident("weird\"name"), "\"weird\"\"name\"");
}

#[test]
fn literal_quoting_doubles_inner_quotes() {
    assert_eq!(sql_literal("plain"), "'plain'");
    assert_eq!(sql_literal("O'Brien"), "'O''Brien'");
    assert_eq!(sql_literal(""), "''");
}

#[test]
fn case_insensitive_matching_folds_both_sides() {
    assert!(eq_ignore_case("FREQ_POWER", "freq_power"));
    assert!(eq_ignore_case("Inside_Temp", "INSIDE_TEMP"));
    assert!(!eq_ignore_case("inside_temp", "outside_temp"));
}

#[test]
fn decimal_rendering_is_exact() {
    assert_eq!(u64_to_string(0), "0");
    assert_eq!(u64_to_string(900), "900");
    assert_eq!(u64_to_string(18446744073709551615), "18446744073709551615");
    assert_eq!(i64_to_string(-1), "-1");
    assert_eq!(i64_to_string(i64::MIN), "-9223372036854775808");
    assert_eq!(i64_to_string(42), "42");
}
