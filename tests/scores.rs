use evaluation_scores::{
    append_decimal, average_score_from_rows, average_score_query, float_less,
    score_buckets_from_rows, score_buckets_query, scores_bounds_from_rows, scores_bounds_query,
    validate_string_against_injection, AverageRow, BoundsRow, BucketRow,
    EvaluationDatapointResult, EvaluationScore, InsertAction, InsertEvent, InsertSession,
    ScoreError, WritePhase,
};

const PROJECT: u128 = 0xa1a2a3a4b1b2c1c2d1d2d3d4d5d6d7d8;
const EVAL_A: u128 = 0x0000000000000000000000000000000a;
const EVAL_B: u128 = 0xffffffffffffffffffffffffffffffff;

fn point(entries: &[(&str, f64)]) -> EvaluationDatapointResult {
    EvaluationDatapointResult {
        scores: entries.iter().map(|(n, v)| (n.to_string(), v.to_bits())).collect(),
    }
}

#[test]
fn flatten_one_row_per_metric() {
    let points = vec![point(&[("accuracy", 0.5), ("f1", 0.25)]), point(&[]), point(&[("accuracy", 1.0)])];
    let ids = vec![11u128, 22, 33];
    let rows = EvaluationScore::from_evaluation_datapoint_results(
        &points,
        &ids,
        PROJECT,
        "group-a".to_string(),
        EVAL_A,
        1_700_000_000_000_000_000,
    );
    assert_eq!(rows.len(), 3);
    let got: Vec<(u128, &str, f64)> =
        rows.iter().map(|r| (r.result_id, r.name.as_str(), f64::from_bits(r.value))).collect();
    assert_eq!(got, vec![(11, "accuracy", 0.5), (11, "f1", 0.25), (33, "accuracy", 1.0)]);
    for r in &rows {
        assert_eq!(r.project_id, PROJECT);
        assert_eq!(r.evaluation_id, EVAL_A);
        assert_eq!(r.group_id, "group-a");
        assert_eq!(r.timestamp, 1_700_000_000_000_000_000);
    }
}

#[test]
fn flatten_empty_batch() {
    let rows = EvaluationScore::from_evaluation_datapoint_results(
        &Vec::new(),
        &Vec::new(),
        PROJECT,
        "g".to_string(),
        EVAL_A,
        0,
    );
    assert!(rows.is_empty());
}

#[test]
fn guard_accepts_plain_names() {
    for name in ["accuracy", "exact_match", "bleu-4", "Score2", "Exact Match", "order by", "", "a-b_c"] {
        assert_eq!(validate_string_against_injection(name), Ok(()), "{name}");
    }
}

#[test]
fn guard_rejects_unsafe_names() {
    for name in [
        "a'b", "a;b", "a--b", "x OR y", "x or", "DROP table", "a\"b", "a/*b", "a*/b", "a\\b",
        "x\tunion\tselect", "score and 1",
    ] {
        assert_eq!(validate_string_against_injection(name), Err(ScoreError::InvalidInput), "{name}");
    }
}

#[test]
fn average_query_text_exact() {
    let q = average_score_query(PROJECT, EVAL_A, "accuracy").unwrap();
    assert_eq!(
        q,
        "SELECT avg(value) AS average_value, count() AS matched_rows FROM evaluation_scores \
         WHERE project_id = 'a1a2a3a4-b1b2-c1c2-d1d2-d3d4d5d6d7d8' \
         AND evaluation_id = '00000000-0000-0000-0000-00000000000a' AND name = 'accuracy'"
    );
}

#[test]
fn average_query_rejects_unsafe_name() {
    assert_eq!(average_score_query(PROJECT, EVAL_A, "x' OR '1'='1"), Err(ScoreError::InvalidInput));
}

#[test]
fn average_of_no_rows_is_no_data() {
    assert_eq!(average_score_from_rows(&vec![]), Err(ScoreError::NoData));
    let nan = AverageRow { average_value: f64::NAN.to_bits(), matched_rows: 0 };
    assert_eq!(average_score_from_rows(&vec![nan]), Err(ScoreError::NoData));
}

#[test]
fn average_of_matching_rows() {
    let row = AverageRow { average_value: 2.5f64.to_bits(), matched_rows: 4 };
    assert_eq!(average_score_from_rows(&vec![row]).map(f64::from_bits), Ok(2.5));
    assert_eq!(average_score_from_rows(&vec![row, row]), Err(ScoreError::StoreQueryFailure));
}

#[test]
fn histogram_rejects_degenerate_parameters() {
    let ten = 10.0f64.to_bits();
    let zero = 0.0f64.to_bits();
    assert_eq!(score_buckets_query(PROJECT, EVAL_A, "acc", zero, ten, 0), Err(ScoreError::InvalidInput));
    assert_eq!(score_buckets_query(PROJECT, EVAL_A, "acc", ten, ten, 5), Err(ScoreError::InvalidInput));
    assert_eq!(score_buckets_query(PROJECT, EVAL_A, "acc", ten, zero, 5), Err(ScoreError::InvalidInput));
    assert_eq!(
        score_buckets_query(PROJECT, EVAL_A, "acc", (-0.0f64).to_bits(), zero, 5),
        Err(ScoreError::InvalidInput)
    );
    assert_eq!(
        score_buckets_query(PROJECT, EVAL_A, "acc", f64::NAN.to_bits(), ten, 5),
        Err(ScoreError::InvalidInput)
    );
    assert_eq!(score_buckets_query(PROJECT, EVAL_A, "a;b", zero, ten, 5), Err(ScoreError::InvalidInput));
}

#[test]
fn histogram_query_text() {
    let q = score_buckets_query(PROJECT, EVAL_A, "acc", 0.0f64.to_bits(), 10.0f64.to_bits(), 5).unwrap();
    assert!(q.starts_with(&format!(
        "WITH reinterpretAsFloat64(toUInt64(0)) AS range_lower, reinterpretAsFloat64(toUInt64({})) AS range_upper, (range_upper - range_lower) / 5 AS step_size",
        10.0f64.to_bits()
    )));
    assert!(q.contains("if(interval_num = 5, range_upper, range_lower + interval_num * step_size) AS upper_bound"));
    assert!(q.contains("(interval_num = 5 AND v <= upper_bound)"));
    assert!(q.contains("v >= lower_bound AND (v < upper_bound"));
    assert!(q.contains("arrayJoin(range(1, 5 + 1))"));
    assert!(q.contains("name = 'acc'"));
    assert!(q.ends_with("ORDER BY interval_num"));
}

fn example_rows() -> Vec<BucketRow> {
    // Values 1, 2, 3, 7, 9 over [0, 10] in five buckets.
    let edges = [0.0f64, 2.0, 4.0, 6.0, 8.0, 10.0];
    let heights = [1u64, 1, 0, 1, 1];
    (0..5)
        .map(|i| BucketRow {
            interval_num: i as u64 + 1,
            lower_bound: edges[i].to_bits(),
            upper_bound: edges[i + 1].to_bits(),
            height: heights[i],
        })
        .collect()
}

#[test]
fn histogram_buckets_from_rows() {
    let buckets = score_buckets_from_rows(&example_rows(), 5, 10.0f64.to_bits()).unwrap();
    assert_eq!(buckets.len(), 5);
    let heights: Vec<u64> = buckets.iter().map(|b| b.height).collect();
    assert_eq!(heights, vec![1, 1, 0, 1, 1]);
    assert_eq!(heights.iter().sum::<u64>(), 4);
    let lowers: Vec<f64> = buckets.iter().map(|b| f64::from_bits(b.lower_bound)).collect();
    assert_eq!(lowers, vec![0.0, 2.0, 4.0, 6.0, 8.0]);
    assert_eq!(buckets[4].upper_bound, 10.0f64.to_bits());
}

#[test]
fn histogram_rows_malformed() {
    let rows = example_rows();
    let ten = 10.0f64.to_bits();
    assert_eq!(score_buckets_from_rows(&rows[..4].to_vec(), 5, ten), Err(ScoreError::StoreQueryFailure));
    let mut swapped = rows.clone();
    swapped.swap(1, 2);
    assert_eq!(score_buckets_from_rows(&swapped, 5, ten), Err(ScoreError::StoreQueryFailure));
    let mut descending = rows.clone();
    descending[3].lower_bound = 3.0f64.to_bits();
    assert_eq!(score_buckets_from_rows(&descending, 5, ten), Err(ScoreError::StoreQueryFailure));
    let drifted = 10.000000000000002f64.to_bits();
    assert_eq!(score_buckets_from_rows(&rows, 5, drifted), Err(ScoreError::StoreQueryFailure));
    assert_eq!(score_buckets_from_rows(&vec![], 0, ten).map(|b| b.len()), Ok(0));
}

#[test]
fn bounds_query_text() {
    let q = scores_bounds_query(PROJECT, &vec![EVAL_A, EVAL_B], "acc").unwrap();
    assert_eq!(
        q,
        "SELECT max(value) AS upper_bound, count() AS matched_rows FROM evaluation_scores \
         WHERE project_id = 'a1a2a3a4-b1b2-c1c2-d1d2-d3d4d5d6d7d8' AND evaluation_id IN \
         ('00000000-0000-0000-0000-00000000000a','ffffffff-ffff-ffff-ffff-ffffffffffff') AND name = 'acc'"
    );
}

#[test]
fn bounds_query_errors() {
    assert_eq!(scores_bounds_query(PROJECT, &vec![], "acc"), Err(ScoreError::NoData));
    assert_eq!(scores_bounds_query(PROJECT, &vec![EVAL_A], "a--"), Err(ScoreError::InvalidInput));
    assert_eq!(scores_bounds_query(PROJECT, &vec![], "a'"), Err(ScoreError::InvalidInput));
}

#[test]
fn bounds_over_two_evaluations() {
    let row = BoundsRow { upper_bound: 9.0f64.to_bits(), matched_rows: 6 };
    let b = scores_bounds_from_rows(&vec![row]).unwrap();
    assert_eq!(f64::from_bits(b.upper_bound), 9.0);
    let empty = BoundsRow { upper_bound: 0, matched_rows: 0 };
    assert_eq!(scores_bounds_from_rows(&vec![empty]), Err(ScoreError::NoData));
    assert_eq!(scores_bounds_from_rows(&vec![]), Err(ScoreError::NoData));
}

#[test]
fn insert_empty_batch_never_writes() {
    let (mut s, a) = InsertSession::start(0);
    assert!(matches!(a, InsertAction::Finish(Ok(()))));
    for e in [InsertEvent::ScopeOpened, InsertEvent::RowWritten, InsertEvent::Committed] {
        assert!(matches!(s.step(e), InsertAction::Finish(Ok(()))));
    }
}

#[test]
fn insert_writes_rows_in_order_then_commits() {
    let (mut s, a) = InsertSession::start(2);
    assert!(matches!(a, InsertAction::OpenScope));
    assert!(matches!(s.step(InsertEvent::ScopeOpened), InsertAction::WriteRow(0)));
    assert!(matches!(s.step(InsertEvent::RowWritten), InsertAction::WriteRow(1)));
    assert!(matches!(s.step(InsertEvent::RowWritten), InsertAction::Commit));
    assert!(matches!(s.step(InsertEvent::Committed), InsertAction::Finish(Ok(()))));
}

#[test]
fn insert_reports_failure_phase() {
    let (mut s, _) = InsertSession::start(1);
    assert!(matches!(
        s.step(InsertEvent::OpenFailed),
        InsertAction::Finish(Err(ScoreError::StoreWriteFailure(WritePhase::Open)))
    ));
    let (mut s, _) = InsertSession::start(3);
    s.step(InsertEvent::ScopeOpened);
    assert!(matches!(
        s.step(InsertEvent::WriteFailed),
        InsertAction::Finish(Err(ScoreError::StoreWriteFailure(WritePhase::Write)))
    ));
    assert!(matches!(
        s.step(InsertEvent::RowWritten),
        InsertAction::Finish(Err(ScoreError::StoreWriteFailure(WritePhase::Write)))
    ));
    let (mut s, _) = InsertSession::start(1);
    s.step(InsertEvent::ScopeOpened);
    s.step(InsertEvent::RowWritten);
    assert!(matches!(
        s.step(InsertEvent::CommitFailed),
        InsertAction::Finish(Err(ScoreError::StoreWriteFailure(WritePhase::Commit)))
    ));
}

#[test]
fn float_order_from_bits() {
    let b = |x: f64| x.to_bits();
    assert!(float_less(b(1.0), b(2.0)));
    assert!(!float_less(b(2.0), b(1.0)));
    assert!(float_less(b(-1.0), b(0.0)));
    assert!(float_less(b(-2.0), b(-1.0)));
    assert!(!float_less(b(-0.0), b(0.0)));
    assert!(!float_less(b(0.0), b(-0.0)));
    assert!(float_less(b(1e308), b(f64::INFINITY)));
    assert!(float_less(b(f64::NEG_INFINITY), b(-1e308)));
    assert!(!float_less(b(f64::NAN), b(1.0)));
    assert!(!float_less(b(1.0), b(f64::NAN)));
}

#[test]
fn decimal_digits() {
    for n in [0u64, 7, 10, 1234567890, u64::MAX] {
        let mut s = String::from("x=");
        append_decimal(&mut s, n);
        assert_eq!(s, format!("x={n}"));
    }
}
