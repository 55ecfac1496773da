//! The inference engine's verified face. Loading the model file and running
//! the graph belong to the unverified shell; what is verified here is the
//! declared contract of score extraction, which in the current design is a
//! placeholder that ignores its input and returns a fixed score vector.
//!
//! Scores and features cross this boundary as fixed-point integers so that
//! the contracts can speak of exact values: features in thousandths, scores
//! in hundredths. The shell converts to and from floating point at the edge;
//! the fixed scores 99, 10 and 50 hundredths are 0.99, 0.1 and 0.5.

use vstd::prelude::*;

use crate::errors::ErrorKind;
use crate::errors::FetchError;

verus! {

/// The placeholder score vector, in hundredths: 0.99, 0.1, 0.5.
pub open spec fn stub_scores() -> Seq<u32> {
    seq![99u32, 10u32, 50u32]
}

/// What extraction returns for a given feature vector (in thousandths). The
/// placeholder ignores the features entirely.
pub open spec fn spec_extract(features: Seq<i64>) -> Seq<u32> {
    stub_scores()
}

/// Extraction is pure and deterministic: the scores of any two feature
/// vectors agree, so repeated calls on the same input yield the same output.
pub proof fn lemma_extract_deterministic(f1: Seq<i64>, f2: Seq<i64>)
    ensures
        spec_extract(f1) == spec_extract(f2),
{
}

/// Accepts a model path if and only if it names something: an empty path
/// cannot be a model file and is rejected as a `ModelLoad` failure before
/// the file is ever touched.
pub fn validate_model_path(path: &str) -> (r: Result<(), FetchError>)
    ensures
        r is Ok <==> path@.len() > 0,
        r matches Err(e) ==> e.kind_spec() == ErrorKind::ModelLoad,
{
    if path.unicode_len() == 0 {
        Err(FetchError::ModelLoad(String::from_str("empty model path")))
    } else {
        Ok(())
    }
}

/// A loaded engine: constructed once, then shared read-only across any
/// number of `extract` calls.
pub struct InferenceEngine {
    /// The placeholder score table the loaded graph stands in for.
    pub scores: Vec<u32>,
}

impl InferenceEngine {
    /// The engine holds exactly the placeholder scores.
    pub open spec fn wf(&self) -> bool {
        self.scores@ == stub_scores()
    }

    /// Sets up an engine. Reading and validating the model file is the
    /// shell's work; the engine itself is ready as soon as it is built.
    pub fn new() -> (e: InferenceEngine)
        ensures
            e.wf(),
    {
        let mut scores: Vec<u32> = Vec::new();
        scores.push(99);
        scores.push(10);
        scores.push(50);
        proof {
            assert(scores@ =~= stub_scores());
        }
        InferenceEngine { scores }
    }

    /// Maps a feature vector (thousandths) to the score vector (hundredths).
    /// The placeholder never fails and returns the fixed scores whatever the
    /// features are.
    pub fn extract(&self, features: &Vec<i64>) -> (r: Result<Vec<u32>, FetchError>)
        requires
            self.wf(),
        ensures
            r matches Ok(scores) && scores@ == spec_extract(features@),
    {
        let mut scores: Vec<u32> = Vec::new();
        let mut i: usize = 0;
        while i < self.scores.len()
            invariant
                self.wf(),
                i <= self.scores@.len(),
                scores@ == self.scores@.subrange(0, i as int),
            decreases self.scores@.len() - i,
        {
            scores.push(self.scores[i]);
            proof {
                assert(scores@ =~= self.scores@.subrange(0, i + 1 as int));
            }
            i = i + 1;
        }
        proof {
            assert(scores@ =~= self.scores@);
        }
        Ok(scores)
    }
}

} // verus!
