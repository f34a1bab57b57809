use vstd::prelude::*;

use crate::error::ScoreError;
use crate::guard::{is_injection_safe, validate_string_against_injection};
use crate::text::{append_decimal, decimal, float_less, float_lt, uuid_string, uuid_text};

verus! {

/// The condition that selects the rows of one metric of one evaluation.
pub open spec fn score_filter(project_id: u128, evaluation_id: u128, name: Seq<char>) -> Seq<char> {
    "project_id = '"@ + uuid_text(project_id) + "' AND evaluation_id = '"@ + uuid_text(
        evaluation_id,
    ) + "' AND name = '"@ + name + "'"@
}

fn append_score_filter(q: &mut String, project_id: u128, evaluation_id: u128, name: &str)
    ensures
        final(q)@ == old(q)@ + score_filter(project_id, evaluation_id, name@),
{
    q.append("project_id = '");
    q.append(uuid_string(project_id).as_str());
    q.append("' AND evaluation_id = '");
    q.append(uuid_string(evaluation_id).as_str());
    q.append("' AND name = '");
    q.append(name);
    q.append("'");
    assert(q@ =~= old(q)@ + score_filter(project_id, evaluation_id, name@));
}

/// The query for the mean value, and the number, of the matching rows.
pub open spec fn average_query_text(project_id: u128, evaluation_id: u128, name: Seq<char>) -> Seq<
    char,
> {
    "SELECT avg(value) AS average_value, count() AS matched_rows FROM evaluation_scores WHERE "@
        + score_filter(project_id, evaluation_id, name)
}

/// Builds the average query for a metric of an evaluation; a name that is
/// unsafe to splice is refused.
pub fn average_score_query(project_id: u128, evaluation_id: u128, name: &str) -> (r: Result<
    String,
    ScoreError,
>)
    ensures
        r is Ok <==> is_injection_safe(name@),
        r is Ok ==> r->Ok_0@ == average_query_text(project_id, evaluation_id, name@),
        r is Err ==> r->Err_0 == ScoreError::InvalidInput,
{
    validate_string_against_injection(name)?;
    let mut q = String::new();
    q.append(
        "SELECT avg(value) AS average_value, count() AS matched_rows FROM evaluation_scores WHERE ",
    );
    append_score_filter(&mut q, project_id, evaluation_id, name);
    assert(q@ =~= average_query_text(project_id, evaluation_id, name@));
    Ok(q)
}

/// A result row of the average query; `average_value` is a binary64 bit
/// pattern.
#[derive(Clone, Copy, Debug, PartialEq, Eq, Structural)]
pub struct AverageRow {
    pub average_value: u64,
    pub matched_rows: u64,
}

/// Reads the mean from the rows of the average query: no row, or a count
/// of zero matching rows, is `NoData`; more than one row is a malformed
/// result.
pub fn average_score_from_rows(rows: &Vec<AverageRow>) -> (r: Result<u64, ScoreError>)
    ensures
        rows@.len() == 0 ==> r == Err::<u64, ScoreError>(ScoreError::NoData),
        rows@.len() > 1 ==> r == Err::<u64, ScoreError>(ScoreError::StoreQueryFailure),
        rows@.len() == 1 && rows@[0].matched_rows == 0 ==> r == Err::<u64, ScoreError>(
            ScoreError::NoData,
        ),
        rows@.len() == 1 && rows@[0].matched_rows > 0 ==> r == Ok::<u64, ScoreError>(
            rows@[0].average_value,
        ),
{
    if rows.len() == 0 {
        Err(ScoreError::NoData)
    } else if rows.len() > 1 {
        Err(ScoreError::StoreQueryFailure)
    } else if rows[0].matched_rows == 0 {
        Err(ScoreError::NoData)
    } else {
        Ok(rows[0].average_value)
    }
}

/// The histogram parameters that a query may be built on: at least one
/// bucket, and an upper bound greater than the lower bound.
pub open spec fn valid_histogram_range(lower_bound: u64, upper_bound: u64, bucket_count: u64) -> bool {
    bucket_count >= 1 && float_lt(lower_bound, upper_bound)
}

/// The histogram query. The bounds enter as bit patterns that the store
/// reinterprets, so the last bucket ends exactly at the requested upper
/// bound. The buckets are generated from `1..=bucket_count` alone and the
/// matching values are counted into each, so a bucket with no value is
/// still reported. Bucket `i` spans `[lower + (i-1)*step, lower + i*step)`;
/// the last one ends at the upper bound and is closed.
pub open spec fn histogram_query_text(
    project_id: u128,
    evaluation_id: u128,
    name: Seq<char>,
    lower_bound: u64,
    upper_bound: u64,
    bucket_count: u64,
) -> Seq<char> {
    let n = decimal(bucket_count as nat);
    "WITH reinterpretAsFloat64(toUInt64("@ + decimal(lower_bound as nat)
        + ")) AS range_lower, reinterpretAsFloat64(toUInt64("@ + decimal(upper_bound as nat)
        + ")) AS range_upper, (range_upper - range_lower) / "@ + n
        + " AS step_size, (SELECT groupArray(value) FROM evaluation_scores WHERE "@
        + score_filter(project_id, evaluation_id, name)
        + ") AS matched_values SELECT interval_num, range_lower + (interval_num - 1) * step_size AS lower_bound, if(interval_num = "@
        + n + ", range_upper, range_lower + interval_num * step_size) AS upper_bound, toUInt64(arrayCount(v -> v >= lower_bound AND (v < upper_bound OR (interval_num = "@
        + n + " AND v <= upper_bound)), matched_values)) AS height FROM (SELECT arrayJoin(range(1, "@
        + n + " + 1)) AS interval_num) ORDER BY interval_num"@
}

/// Builds the histogram query of a metric of an evaluation over
/// `bucket_count` equal buckets between the two bounds (binary64 bit
/// patterns). An unsafe name, no bucket, or an upper bound not above the
/// lower bound is `InvalidInput`, and no query is built.
pub fn score_buckets_query(
    project_id: u128,
    evaluation_id: u128,
    name: &str,
    lower_bound: u64,
    upper_bound: u64,
    bucket_count: u64,
) -> (r: Result<String, ScoreError>)
    ensures
        r is Ok <==> is_injection_safe(name@) && valid_histogram_range(
            lower_bound,
            upper_bound,
            bucket_count,
        ),
        r is Ok ==> r->Ok_0@ == histogram_query_text(
            project_id,
            evaluation_id,
            name@,
            lower_bound,
            upper_bound,
            bucket_count,
        ),
        r is Err ==> r->Err_0 == ScoreError::InvalidInput,
{
    validate_string_against_injection(name)?;
    if bucket_count == 0 || !float_less(lower_bound, upper_bound) {
        return Err(ScoreError::InvalidInput);
    }
    let mut q = String::new();
    q.append("WITH reinterpretAsFloat64(toUInt64(");
    append_decimal(&mut q, lower_bound);
    q.append(")) AS range_lower, reinterpretAsFloat64(toUInt64(");
    append_decimal(&mut q, upper_bound);
    q.append(")) AS range_upper, (range_upper - range_lower) / ");
    append_decimal(&mut q, bucket_count);
    q.append(" AS step_size, (SELECT groupArray(value) FROM evaluation_scores WHERE ");
    append_score_filter(&mut q, project_id, evaluation_id, name);
    q.append(
        ") AS matched_values SELECT interval_num, range_lower + (interval_num - 1) * step_size AS lower_bound, if(interval_num = ",
    );
    append_decimal(&mut q, bucket_count);
    q.append(
        ", range_upper, range_lower + interval_num * step_size) AS upper_bound, toUInt64(arrayCount(v -> v >= lower_bound AND (v < upper_bound OR (interval_num = ",
    );
    append_decimal(&mut q, bucket_count);
    q.append(" AND v <= upper_bound)), matched_values)) AS height FROM (SELECT arrayJoin(range(1, ");
    append_decimal(&mut q, bucket_count);
    q.append(" + 1)) AS interval_num) ORDER BY interval_num");
    assert(q@ =~= histogram_query_text(
        project_id,
        evaluation_id,
        name@,
        lower_bound,
        upper_bound,
        bucket_count,
    ));
    Ok(q)
}

/// A result row of the histogram query; the bounds are binary64 bit
/// patterns.
#[derive(Clone, Copy, Debug, PartialEq, Eq, Structural)]
pub struct BucketRow {
    pub interval_num: u64,
    pub lower_bound: u64,
    pub upper_bound: u64,
    pub height: u64,
}

/// One bucket of a histogram; the bounds are binary64 bit patterns.
#[derive(Clone, Copy, Debug, PartialEq, Eq, Structural)]
pub struct EvaluationScoreBucket {
    pub lower_bound: u64,
    pub upper_bound: u64,
    pub height: u64,
}

/// The rows of a histogram query are well formed: one per bucket, in
/// bucket order, no lower bound below the one before it, the last ending
/// exactly at the requested upper bound.
pub open spec fn well_formed_bucket_rows(rows: Seq<BucketRow>, bucket_count: u64, upper_bound: u64) -> bool {
    &&& rows.len() == bucket_count
    &&& forall|i: int| 0 <= i < rows.len() ==> (#[trigger] rows[i]).interval_num == i + 1
    &&& forall|i: int|
        0 < i < rows.len() ==> !float_lt(#[trigger] rows[i].lower_bound, rows[i - 1].lower_bound)
    &&& rows.len() > 0 ==> rows.last().upper_bound == upper_bound
}

pub open spec fn bucket_of(row: BucketRow) -> EvaluationScoreBucket {
    EvaluationScoreBucket {
        lower_bound: row.lower_bound,
        upper_bound: row.upper_bound,
        height: row.height,
    }
}

/// Reads the buckets from the rows of a histogram query. Rows that are not
/// exactly one per bucket, in bucket order with lower bounds ascending, the
/// last one ending at the requested upper bound, are a malformed result.
pub fn score_buckets_from_rows(rows: &Vec<BucketRow>, bucket_count: u64, upper_bound: u64) -> (r:
    Result<Vec<EvaluationScoreBucket>, ScoreError>)
    ensures
        r is Ok <==> well_formed_bucket_rows(rows@, bucket_count, upper_bound),
        r is Err ==> r->Err_0 == ScoreError::StoreQueryFailure,
        r is Ok ==> r->Ok_0@ == rows@.map_values(|row: BucketRow| bucket_of(row)),
        r is Ok ==> r->Ok_0@.len() == bucket_count,
        r is Ok && bucket_count > 0 ==> r->Ok_0@.last().upper_bound == upper_bound,
{
    if rows.len() as u64 != bucket_count {
        return Err(ScoreError::StoreQueryFailure);
    }
    let mut out: Vec<EvaluationScoreBucket> = Vec::new();
    let mut i: usize = 0;
    while i < rows.len()
        invariant
            i <= rows@.len(),
            rows@.len() == bucket_count,
            forall|m: int| 0 <= m < i ==> (#[trigger] rows@[m]).interval_num == m + 1,
            forall|m: int|
                0 < m < i ==> !float_lt(#[trigger] rows@[m].lower_bound, rows@[m - 1].lower_bound),
            out@ == rows@.take(i as int).map_values(|row: BucketRow| bucket_of(row)),
        decreases rows@.len() - i,
    {
        let row = rows[i];
        if row.interval_num != i as u64 + 1 {
            return Err(ScoreError::StoreQueryFailure);
        }
        if i > 0 && float_less(row.lower_bound, rows[i - 1].lower_bound) {
            return Err(ScoreError::StoreQueryFailure);
        }
        out.push(EvaluationScoreBucket {
            lower_bound: row.lower_bound,
            upper_bound: row.upper_bound,
            height: row.height,
        });
        i = i + 1;
        assert(out@ =~= rows@.take(i as int).map_values(|row: BucketRow| bucket_of(row)));
    }
    assert(rows@.take(i as int) =~= rows@);
    if rows.len() > 0 && rows[rows.len() - 1].upper_bound != upper_bound {
        return Err(ScoreError::StoreQueryFailure);
    }
    Ok(out)
}

/// The ids of a set of evaluations, each quoted, separated by commas.
pub open spec fn quoted_ids(ids: Seq<u128>) -> Seq<char>
    decreases ids.len(),
{
    if ids.len() == 0 {
        Seq::empty()
    } else {
        let init = ids.drop_last();
        let item = "'"@ + uuid_text(ids.last()) + "'"@;
        if init.len() == 0 {
            item
        } else {
            quoted_ids(init) + ","@ + item
        }
    }
}

/// The query for the largest value, and the number, of the rows of a metric
/// over a set of evaluations.
pub open spec fn bounds_query_text(project_id: u128, evaluation_ids: Seq<u128>, name: Seq<char>) -> Seq<
    char,
> {
    "SELECT max(value) AS upper_bound, count() AS matched_rows FROM evaluation_scores WHERE project_id = '"@
        + uuid_text(project_id) + "' AND evaluation_id IN ("@ + quoted_ids(evaluation_ids)
        + ") AND name = '"@ + name + "'"@
}

/// Builds the bounds query of a metric over a set of evaluations. An unsafe
/// name is `InvalidInput`; otherwise an empty set is `NoData`, and no query
/// is built.
pub fn scores_bounds_query(project_id: u128, evaluation_ids: &Vec<u128>, name: &str) -> (r: Result<
    String,
    ScoreError,
>)
    ensures
        r is Ok <==> is_injection_safe(name@) && evaluation_ids@.len() > 0,
        r is Ok ==> r->Ok_0@ == bounds_query_text(project_id, evaluation_ids@, name@),
        !is_injection_safe(name@) ==> r == Err::<String, ScoreError>(ScoreError::InvalidInput),
        is_injection_safe(name@) && evaluation_ids@.len() == 0 ==> r == Err::<String, ScoreError>(
            ScoreError::NoData,
        ),
{
    validate_string_against_injection(name)?;
    if evaluation_ids.len() == 0 {
        return Err(ScoreError::NoData);
    }
    let mut q = String::new();
    q.append(
        "SELECT max(value) AS upper_bound, count() AS matched_rows FROM evaluation_scores WHERE project_id = '",
    );
    q.append(uuid_string(project_id).as_str());
    q.append("' AND evaluation_id IN (");
    let ghost start = q@;
    let mut i: usize = 0;
    while i < evaluation_ids.len()
        invariant
            i <= evaluation_ids@.len(),
            q@ == start + quoted_ids(evaluation_ids@.take(i as int)),
        decreases evaluation_ids@.len() - i,
    {
        let ghost before = q@;
        if i > 0 {
            q.append(",");
        }
        q.append("'");
        q.append(uuid_string(evaluation_ids[i]).as_str());
        q.append("'");
        proof {
            let t = evaluation_ids@.take(i + 1);
            assert(t.drop_last() =~= evaluation_ids@.take(i as int));
            assert(t.last() == evaluation_ids@[i as int]);
        }
        i = i + 1;
        assert(q@ =~= start + quoted_ids(evaluation_ids@.take(i as int)));
    }
    assert(evaluation_ids@.take(i as int) =~= evaluation_ids@);
    q.append(") AND name = '");
    q.append(name);
    q.append("'");
    assert(q@ =~= bounds_query_text(project_id, evaluation_ids@, name@));
    Ok(q)
}

/// A result row of the bounds query; `upper_bound` is a binary64 bit pattern.
#[derive(Clone, Copy, Debug, PartialEq, Eq, Structural)]
pub struct BoundsRow {
    pub upper_bound: u64,
    pub matched_rows: u64,
}

/// The largest value of a metric over a set of evaluations, as a binary64
/// bit pattern.
#[derive(Clone, Copy, Debug, PartialEq, Eq, Structural)]
pub struct ComparedEvaluationScoresBounds {
    pub upper_bound: u64,
}

/// Reads the bounds from the rows of the bounds query: no row, or a count
/// of zero matching rows, is `NoData`; more than one row is a malformed
/// result.
pub fn scores_bounds_from_rows(rows: &Vec<BoundsRow>) -> (r: Result<
    ComparedEvaluationScoresBounds,
    ScoreError,
>)
    ensures
        rows@.len() == 0 ==> r == Err::<ComparedEvaluationScoresBounds, ScoreError>(
            ScoreError::NoData,
        ),
        rows@.len() > 1 ==> r == Err::<ComparedEvaluationScoresBounds, ScoreError>(
            ScoreError::StoreQueryFailure,
        ),
        rows@.len() == 1 && rows@[0].matched_rows == 0 ==> r == Err::<
            ComparedEvaluationScoresBounds,
            ScoreError,
        >(ScoreError::NoData),
        rows@.len() == 1 && rows@[0].matched_rows > 0 ==> r == Ok::<
            ComparedEvaluationScoresBounds,
            ScoreError,
        >(ComparedEvaluationScoresBounds { upper_bound: rows@[0].upper_bound }),
{
    if rows.len() == 0 {
        Err(ScoreError::NoData)
    } else if rows.len() > 1 {
        Err(ScoreError::StoreQueryFailure)
    } else if rows[0].matched_rows == 0 {
        Err(ScoreError::NoData)
    } else {
        Ok(ComparedEvaluationScoresBounds { upper_bound: rows[0].upper_bound })
    }
}

} // verus!
