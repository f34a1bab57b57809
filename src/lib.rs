//! Evaluation score rows: flattening of per-datapoint results, validation of
//! metric names, construction of the analytical queries, interpretation of
//! their results, and the decisions of a batch insert.
//!
//! Score values and histogram bounds are carried as IEEE-754 binary64 bit
//! patterns, identifiers as the 128-bit values of UUIDs, and timestamps as
//! nanoseconds since the Unix epoch.

use vstd::prelude::*;

pub mod error;
pub mod guard;
pub mod insert;
pub mod model;
pub mod queries;
pub mod text;

pub use error::{ScoreError, WritePhase};
pub use guard::validate_string_against_injection;
pub use insert::{InsertAction, InsertEvent, InsertSession, InsertState};
pub use model::{EvaluationDatapointResult, EvaluationScore, ScoreView};
pub use queries::{
    average_score_from_rows, average_score_query, score_buckets_from_rows, score_buckets_query,
    scores_bounds_from_rows, scores_bounds_query, AverageRow, BoundsRow, BucketRow,
    ComparedEvaluationScoresBounds, EvaluationScoreBucket,
};
pub use text::{append_decimal, float_less};

verus! {

} // verus!
