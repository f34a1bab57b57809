use vstd::prelude::*;

verus! {

/// The metrics that one datapoint result reports: each entry is a metric
/// name and the IEEE-754 binary64 bit pattern of its value.
pub struct EvaluationDatapointResult {
    pub scores: Vec<(String, u64)>,
}

impl View for EvaluationDatapointResult {
    type V = Seq<(Seq<char>, u64)>;

    open spec fn view(&self) -> Seq<(Seq<char>, u64)> {
        self.scores@.map_values(|e: (String, u64)| (e.0@, e.1))
    }
}

/// One stored score row. Identifiers are the 128-bit values of UUIDs,
/// `value` is the IEEE-754 binary64 bit pattern of the score, and
/// `timestamp` counts nanoseconds since the Unix epoch.
pub struct EvaluationScore {
    pub project_id: u128,
    pub group_id: String,
    pub evaluation_id: u128,
    pub result_id: u128,
    pub name: String,
    pub value: u64,
    pub timestamp: i64,
}

/// The mathematical value of a score row.
pub struct ScoreView {
    pub project_id: u128,
    pub group_id: Seq<char>,
    pub evaluation_id: u128,
    pub result_id: u128,
    pub name: Seq<char>,
    pub value: u64,
    pub timestamp: i64,
}

impl View for EvaluationScore {
    type V = ScoreView;

    open spec fn view(&self) -> ScoreView {
        ScoreView {
            project_id: self.project_id,
            group_id: self.group_id@,
            evaluation_id: self.evaluation_id,
            result_id: self.result_id,
            name: self.name@,
            value: self.value,
            timestamp: self.timestamp,
        }
    }
}

/// The rows that one datapoint result yields: one per metric entry, in order.
pub open spec fn point_rows(
    entries: Seq<(Seq<char>, u64)>,
    result_id: u128,
    project_id: u128,
    group_id: Seq<char>,
    evaluation_id: u128,
    timestamp: i64,
) -> Seq<ScoreView> {
    entries.map_values(
        |e: (Seq<char>, u64)|
            ScoreView {
                project_id,
                group_id,
                evaluation_id,
                result_id,
                name: e.0,
                value: e.1,
                timestamp,
            },
    )
}

/// The rows of a batch of datapoint results paired positionally with their
/// result ids: the rows of each point in turn.
pub open spec fn flat_rows(
    points: Seq<Seq<(Seq<char>, u64)>>,
    result_ids: Seq<u128>,
    project_id: u128,
    group_id: Seq<char>,
    evaluation_id: u128,
    timestamp: i64,
) -> Seq<ScoreView>
    decreases points.len(),
{
    if points.len() == 0 {
        Seq::empty()
    } else {
        let n = points.len() - 1;
        flat_rows(points.take(n), result_ids, project_id, group_id, evaluation_id, timestamp)
            + point_rows(points[n], result_ids[n], project_id, group_id, evaluation_id, timestamp)
    }
}

/// The number of metric entries over all points.
pub open spec fn total_metrics(points: Seq<Seq<(Seq<char>, u64)>>) -> nat
    decreases points.len(),
{
    if points.len() == 0 {
        0
    } else {
        total_metrics(points.take(points.len() - 1)) + points.last().len()
    }
}

/// The flattened batch has one row per metric entry of its points.
pub proof fn lemma_flat_rows_len(
    points: Seq<Seq<(Seq<char>, u64)>>,
    result_ids: Seq<u128>,
    project_id: u128,
    group_id: Seq<char>,
    evaluation_id: u128,
    timestamp: i64,
)
    ensures
        flat_rows(points, result_ids, project_id, group_id, evaluation_id, timestamp).len()
            == total_metrics(points),
    decreases points.len(),
{
    if points.len() > 0 {
        lemma_flat_rows_len(
            points.take(points.len() - 1),
            result_ids,
            project_id,
            group_id,
            evaluation_id,
            timestamp,
        );
    }
}

/// Row `total_metrics(points.take(p)) + e` of the flattened batch is the
/// `e`-th metric of point `p`, with that point's result id and the shared
/// project, group, evaluation and timestamp.
pub proof fn lemma_row_source(
    points: Seq<Seq<(Seq<char>, u64)>>,
    result_ids: Seq<u128>,
    project_id: u128,
    group_id: Seq<char>,
    evaluation_id: u128,
    timestamp: i64,
    p: int,
    e: int,
)
    requires
        0 <= p < points.len(),
        0 <= e < points[p].len(),
    ensures
        total_metrics(points.take(p)) + e < flat_rows(
            points,
            result_ids,
            project_id,
            group_id,
            evaluation_id,
            timestamp,
        ).len(),
        flat_rows(points, result_ids, project_id, group_id, evaluation_id, timestamp)[total_metrics(
            points.take(p),
        ) + e] == (ScoreView {
            project_id,
            group_id,
            evaluation_id,
            result_id: result_ids[p],
            name: points[p][e].0,
            value: points[p][e].1,
            timestamp,
        }),
    decreases points.len(),
{
    let n = points.len() - 1;
    let init = points.take(n);
    lemma_flat_rows_len(init, result_ids, project_id, group_id, evaluation_id, timestamp);
    lemma_flat_rows_len(points, result_ids, project_id, group_id, evaluation_id, timestamp);
    if p == n {
        assert(init =~= points.take(p));
    } else {
        lemma_row_source(init, result_ids, project_id, group_id, evaluation_id, timestamp, p, e);
        assert(init.take(p) =~= points.take(p));
        assert(init[p] == points[p]);
    }
}

pub open spec fn points_view(points: Seq<EvaluationDatapointResult>) -> Seq<
    Seq<(Seq<char>, u64)>,
> {
    points.map_values(|p: EvaluationDatapointResult| p@)
}

pub open spec fn rows_view(rows: Seq<EvaluationScore>) -> Seq<ScoreView> {
    rows.map_values(|r: EvaluationScore| r@)
}

impl EvaluationScore {
    /// Flattens datapoint results, paired positionally with their result
    /// ids, into score rows: one row per metric entry of each point, carrying
    /// that point's result id and the shared project, group, evaluation and
    /// timestamp.
    pub fn from_evaluation_datapoint_results(
        points: &Vec<EvaluationDatapointResult>,
        result_ids: &Vec<u128>,
        project_id: u128,
        group_id: String,
        evaluation_id: u128,
        timestamp: i64,
    ) -> (rows: Vec<EvaluationScore>)
        requires
            points@.len() == result_ids@.len(),
        ensures
            rows_view(rows@) == flat_rows(
                points_view(points@),
                result_ids@,
                project_id,
                group_id@,
                evaluation_id,
                timestamp,
            ),
            rows@.len() == total_metrics(points_view(points@)),
    {
        let ghost pv = points_view(points@);
        let ghost g = group_id@;
        let mut rows: Vec<EvaluationScore> = Vec::new();
        let mut i: usize = 0;
        while i < points.len()
            invariant
                i <= points@.len(),
                points@.len() == result_ids@.len(),
                pv == points_view(points@),
                g == group_id@,
                rows_view(rows@) == flat_rows(
                    pv.take(i as int),
                    result_ids@,
                    project_id,
                    g,
                    evaluation_id,
                    timestamp,
                ),
            decreases points@.len() - i,
        {
            let scores = &points[i].scores;
            let result_id = result_ids[i];
            let ghost before = rows_view(rows@);
            let ghost entries = pv[i as int];
            let mut j: usize = 0;
            while j < scores.len()
                invariant
                    j <= scores@.len(),
                    entries == scores@.map_values(|e: (String, u64)| (e.0@, e.1)),
                    g == group_id@,
                    rows_view(rows@) == before + point_rows(
                        entries.take(j as int),
                        result_id,
                        project_id,
                        g,
                        evaluation_id,
                        timestamp,
                    ),
                decreases scores@.len() - j,
            {
                let row = EvaluationScore {
                    project_id,
                    group_id: group_id.clone(),
                    evaluation_id,
                    result_id,
                    name: scores[j].0.clone(),
                    value: scores[j].1,
                    timestamp,
                };
                let ghost old_rows = rows@;
                rows.push(row);
                proof {
                    assert(rows@ == old_rows.push(row));
                    assert(rows_view(rows@) =~= rows_view(old_rows).push(row@));
                    assert(point_rows(entries.take(j + 1), result_id, project_id, g, evaluation_id, timestamp)
                        =~= point_rows(entries.take(j as int), result_id, project_id, g, evaluation_id, timestamp).push(row@));
                }
                j = j + 1;
            }
            proof {
                assert(entries.take(j as int) =~= entries);
                assert(pv.take(i + 1).take(i as int) =~= pv.take(i as int));
                assert(pv.take(i + 1)[i as int] == entries);
            }
            i = i + 1;
        }
        proof {
            assert(pv.take(i as int) =~= pv);
            lemma_flat_rows_len(pv, result_ids@, project_id, g, evaluation_id, timestamp);
        }
        rows
    }
}

} // verus!
