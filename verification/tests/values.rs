//! The comparisons that the scenarios rest on, on given values.
use catalog_conformance::metrics::{
    assert_metric_hit, Attribute, Metric, MetricFailure, Observation, Recorded,
};
use catalog_conformance::naming::same_by_name;
use catalog_conformance::order::{assert_ge, assert_gt, OutOfOrder};
use catalog_conformance::retention::{get_candidate, Created, CANDIDATES, DATED, RETENTION_DAYS};
use catalog_conformance::same::{
    list_contains, same_bytes, same_elements, same_ints, same_set, Same,
};
use catalog_conformance::sorting::{check_same_by_id, keep_latest_by_id, refs, sort_by_id};
use catalog_conformance::text::{
    assert_string_set_eq, contains_text, is_before, is_utf8_of, text_eq,
};
use catalog_conformance::types::{
    Column, ColumnSchema, ColumnType, CompactionLevel, MaxL0CreatedAt, ParquetFileParams,
    ParquetFileSource, TableSchema, Template,
};

fn texts(list: &[&str]) -> Vec<String> {
    list.iter().map(|s| s.to_string()).collect()
}

fn column(id: i64, name: &str) -> Column {
    Column { id, table_id: 1, name: name.to_string(), column_type: ColumnType::Tag }
}

#[test]
fn sets_of_texts_are_compared() {
    assert!(assert_string_set_eq(&texts(&["a", "b"]), &texts(&["b", "a"])).is_ok());
    assert!(assert_string_set_eq(&texts(&[]), &texts(&[])).is_ok());
    assert!(assert_string_set_eq(&texts(&["a"]), &texts(&["a", "b"])).is_err());
    assert!(assert_string_set_eq(&texts(&["a", "b"]), &texts(&["a"])).is_err());
    assert!(assert_string_set_eq(&texts(&["a"]), &texts(&["A"])).is_err());
}

#[test]
fn duplicates_are_tolerated() {
    assert!(assert_string_set_eq(&texts(&["a", "b", "a"]), &texts(&["b", "a"])).is_ok());
    assert!(assert_string_set_eq(&texts(&["a"]), &texts(&["a", "a", "a"])).is_ok());
}

#[test]
fn order_is_asserted() {
    assert!(assert_gt(2u64, 1).is_ok());
    assert_eq!(assert_gt(1u64, 1), Err(OutOfOrder { left: 1, right: 1 }));
    assert_eq!(assert_gt(0u64, 1), Err(OutOfOrder { left: 0, right: 1 }));
    assert!(assert_ge(2u64, 1).is_ok());
    assert!(assert_ge(1u64, 1).is_ok());
    assert_eq!(assert_ge(0u64, 1), Err(OutOfOrder { left: 0, right: 1 }));
    assert_eq!(assert_ge("a", "b"), Err(OutOfOrder { left: "a", right: "b" }));
    assert!(assert_gt(i64::MAX, i64::MIN).is_ok());
}

#[test]
fn texts_are_compared() {
    assert!(text_eq("für", "für"));
    assert!(!text_eq("a", "b"));
    assert!(!text_eq("a", "ab"));
    assert!(text_eq("", ""));
}

#[test]
fn texts_are_found_in_texts() {
    assert!(contains_text("expected PartitionId(4)", "PartitionId"));
    assert!(contains_text("aab", "ab"));
    assert!(contains_text("abc", ""));
    assert!(contains_text("", ""));
    assert!(!contains_text("", "a"));
    assert!(!contains_text("abc", "abcd"));
    assert!(!contains_text("abc", "ac"));
}

#[test]
fn texts_are_ordered() {
    assert!(is_before("test_namespace", "test_namespace2"));
    assert!(!is_before("test_namespace2", "test_namespace"));
    assert!(is_before("", "a"));
    assert!(!is_before("a", "a"));
    assert!(is_before("a", "b"));
    assert!(is_before("z", "ä"));
}

#[test]
fn bytes_are_utf8() {
    assert!(is_utf8_of(&vec![102, 111, 111], "foo"));
    assert!(is_utf8_of(&vec![0xc3, 0xbc], "ü"));
    assert!(!is_utf8_of(&vec![0xfc], "ü"));
    assert!(!is_utf8_of(&vec![102, 111], "foo"));
    assert!(is_utf8_of(&vec![], ""));
}

#[test]
fn lists_are_compared() {
    assert!(same_ints(&vec![2, 1, 3], &vec![2, 1, 3]));
    assert!(!same_ints(&vec![2, 1, 3], &vec![1, 2, 3]));
    assert!(!same_ints(&vec![2, 1], &vec![2, 1, 3]));
    assert!(same_bytes(&vec![7], &vec![7]));
    assert!(!same_bytes(&vec![7], &vec![8]));
    assert!(list_contains(&vec![1i64, 2], &2));
    assert!(!list_contains(&vec![1i64, 2], &3));
}

#[test]
fn elements_are_counted_but_sets_are_not() {
    assert!(same_elements(&vec![1u128, 2, 1], &vec![1, 1, 2]));
    assert!(!same_elements(&vec![1u128, 2, 1], &vec![1, 2, 2]));
    assert!(!same_elements(&vec![1u128], &vec![1, 1]));
    assert!(same_set(&vec![1, 2, 1], &vec![2, 1]));
    assert!(!same_set(&vec![1, 2], &vec![1]));
    assert!(!same_set(&vec![1], &vec![1, 2]));
}

#[test]
fn columns_are_compared_by_all_their_fields() {
    assert!(column(1, "a").same(&column(1, "a")));
    assert!(!column(1, "a").same(&column(2, "a")));
    assert!(!column(1, "a").same(&column(1, "b")));
    let other = Column { column_type: ColumnType::I64, ..column(1, "a") };
    assert!(!column(1, "a").same(&other));
}

#[test]
fn sorting_is_by_id_and_stable() {
    let list = vec![column(3, "c"), column(1, "a"), column(3, "d"), column(2, "b")];
    let sorted = sort_by_id(&refs(&list));
    let shown: Vec<(i64, &str)> = sorted.iter().map(|c| (c.id, c.name.as_str())).collect();
    assert_eq!(shown, [(1, "a"), (2, "b"), (3, "c"), (3, "d")]);
}

#[test]
fn order_does_not_matter() {
    let a = vec![column(2, "b"), column(1, "a")];
    let b = vec![column(1, "a"), column(2, "b")];
    let c = vec![column(1, "a"), column(2, "x")];
    assert!(check_same_by_id(&refs(&a), &refs(&b)));
    assert!(!check_same_by_id(&refs(&a), &refs(&c)));
    assert!(!check_same_by_id(&refs(&a), &refs(&vec![column(1, "a")])));
}

#[test]
fn latest_of_the_same_id_is_kept() {
    let list = vec![column(2, "old"), column(1, "a"), column(2, "new")];
    let kept = keep_latest_by_id(&refs(&list));
    let shown: Vec<(i64, &str)> = kept.iter().map(|c| (c.id, c.name.as_str())).collect();
    assert_eq!(shown, [(1, "a"), (2, "new")]);
}

fn observation(op: &str, result: &str, recorded: Recorded) -> Observation {
    let attribute =
        |name: &str, value: &str| Attribute { name: name.to_string(), value: value.to_string() };
    Observation { attributes: vec![attribute("op", op), attribute("result", result)], recorded }
}

/// What a catalog reports that has a metric of something else, too.
fn report(observations: &[Observation]) -> Vec<Metric> {
    let metric = |name: &str, observations: Vec<Observation>| Metric {
        name: name.to_string(),
        observations,
    };
    vec![
        metric("other", vec![observation("create", "success", Recorded::DurationHistogram(100))]),
        metric("catalog_op_duration", observations.to_vec()),
    ]
}

#[test]
fn calls_are_counted() {
    let list = vec![
        observation("create", "success", Recorded::DurationHistogram(2)),
        observation("create", "error", Recorded::DurationHistogram(7)),
        observation("other", "success", Recorded::Other),
        observation("create", "success", Recorded::DurationHistogram(3)),
    ];
    assert_eq!(assert_metric_hit(&report(&list), "create"), Ok(5));
}

#[test]
fn missing_calls_are_found() {
    let list = vec![
        observation("create", "error", Recorded::DurationHistogram(7)),
        observation("create", "success", Recorded::DurationHistogram(0)),
    ];
    assert_eq!(assert_metric_hit(&report(&list), "create"), Err(MetricFailure::NoCalls));
    assert_eq!(assert_metric_hit(&report(&[]), "create"), Err(MetricFailure::NoCalls));
}

#[test]
fn missing_metric_is_found() {
    let mut metrics = report(&[observation("create", "success", Recorded::DurationHistogram(1))]);
    assert_eq!(assert_metric_hit(&metrics, "create"), Ok(1));
    metrics.pop();
    assert_eq!(assert_metric_hit(&metrics, "create"), Err(MetricFailure::NoMetric));
    assert_eq!(assert_metric_hit(&vec![], "create"), Err(MetricFailure::NoMetric));
}

#[test]
fn other_metrics_are_refused() {
    let list = vec![observation("create", "success", Recorded::Other)];
    assert_eq!(assert_metric_hit(&report(&list), "create"), Err(MetricFailure::InvalidMetricType));
}

#[test]
fn calls_that_cannot_be_counted_are_refused() {
    let list = vec![
        observation("create", "success", Recorded::DurationHistogram(u64::MAX)),
        observation("create", "success", Recorded::DurationHistogram(1)),
    ];
    assert_eq!(assert_metric_hit(&report(&list), "create"), Err(MetricFailure::TooManyCalls));
}

#[test]
fn hit_stays_a_hit_and_a_miss_a_miss() {
    let mut list = vec![
        observation("create", "success", Recorded::DurationHistogram(2)),
        observation("other", "success", Recorded::DurationHistogram(1)),
    ];
    assert_eq!(assert_metric_hit(&report(&list), "create"), Ok(2));
    assert_eq!(assert_metric_hit(&report(&list), "delete"), Err(MetricFailure::NoCalls));
    list[1].recorded = Recorded::DurationHistogram(5);
    list.insert(0, observation("delete", "error", Recorded::DurationHistogram(3)));
    assert_eq!(assert_metric_hit(&report(&list), "create"), Ok(2));
    assert_eq!(assert_metric_hit(&report(&list), "delete"), Err(MetricFailure::NoCalls));
    list[1].recorded = Recorded::DurationHistogram(4);
    assert_eq!(assert_metric_hit(&report(&list), "create"), Ok(4));
}

fn table_schema(name: &str, columns: &[(&str, i64)]) -> TableSchema {
    TableSchema {
        name: name.to_string(),
        id: 1,
        partition_template: Template { parts: None },
        columns: columns
            .iter()
            .map(|(name, id)| ColumnSchema {
                name: name.to_string(),
                id: *id,
                column_type: ColumnType::Tag,
            })
            .collect(),
    }
}

#[test]
fn schemas_are_the_same_by_name() {
    let a = vec![table_schema("x", &[("a", 1), ("b", 2)]), table_schema("y", &[])];
    let b = vec![table_schema("y", &[]), table_schema("x", &[("b", 2), ("a", 1)])];
    assert!(same_by_name(&a, &b));
    assert!(a[0].same(&b[1]));
    assert!(!a[0].same(&table_schema("x", &[("a", 2), ("b", 1)])));
    assert!(!a[0].same(&table_schema("x", &[("a", 1)])));
    assert!(!same_by_name(&a, &vec![table_schema("x", &[("a", 1), ("b", 2)])]));
    assert!(!same_by_name(&vec![], &b));
    assert!(same_by_name(&Vec::<TableSchema>::new(), &vec![]));
}

#[test]
fn last_of_the_same_name_counts() {
    let a = table_schema("x", &[("a", 1), ("a", 2)]);
    assert!(a.same(&table_schema("x", &[("a", 2)])));
    assert!(!a.same(&table_schema("x", &[("a", 1)])));
}

#[test]
fn two_candidates_go() {
    let gone: Vec<usize> = (0..CANDIDATES).filter(|i| !get_candidate(*i).retain).collect();
    assert_eq!(gone, [4, 5]);
    assert_eq!(get_candidate(4).days_ago, Some(10));
    assert_eq!(get_candidate(5).created, Created::Unknown);
}

#[test]
fn candidates_follow_the_rule() {
    for i in 0..CANDIDATES {
        let c = get_candidate(i);
        let old = matches!(c.days_ago, Some(days) if days > RETENTION_DAYS);
        let go = old && !c.has_parquet_files && c.created != Created::Now;
        assert_eq!(c.retain, !go, "candidate {i}");
        assert_eq!(c.days_ago.is_some(), i < DATED);
    }
}

#[test]
fn parameters_are_copied() {
    let params = ParquetFileParams {
        namespace_id: 1,
        table_id: 2,
        partition_id: 3,
        partition_hash_id: Some(vec![4, 5]),
        object_store_id: 6,
        min_time: 7,
        max_time: 8,
        file_size_bytes: 9,
        row_count: 10,
        compaction_level: CompactionLevel::Final,
        created_at: 11,
        column_set: vec![12, 13],
        max_l0_created_at: MaxL0CreatedAt::Computed(14),
        source: Some(ParquetFileSource::BulkIngest),
    };
    let copy = params.copy();
    assert_eq!(format!("{copy:?}"), format!("{params:?}"));
}
