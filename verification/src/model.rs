//! The tolerance-based model quality check: how many predictions fall
//! within a fluctuation band around their labels. Training and scoring
//! themselves are delegated to an external boosting library and happen
//! outside the library; this is the verified accounting over the
//! scores it returns.

use vstd::prelude::*;

verus! {

/// How many of the first `n` predictions are within `fluctuation` of
/// their labels.
pub open spec fn accurate_count(labels: Seq<u64>, predictions: Seq<u64>, fluctuation: u64, n: int) -> int
    decreases n,
{
    if n <= 0 {
        0
    } else {
        accurate_count(labels, predictions, fluctuation, n - 1) + (
        if abs_diff(labels[n - 1] as int, predictions[n - 1] as int) <= fluctuation {
            1int
        } else {
            0int
        })
    }
}

/// The absolute difference of two integers.
pub open spec fn abs_diff(a: int, b: int) -> int {
    if a >= b {
        a - b
    } else {
        b - a
    }
}

/// Counts the predictions within `fluctuation` of their labels, the
/// accuracy figure of a trained model over a test dataset.
pub fn count_accurate_predictions(labels: &Vec<u64>, predictions: &Vec<u64>, fluctuation: u64)
    -> (n: usize)
    requires
        labels@.len() == predictions@.len(),
    ensures
        n == accurate_count(labels@, predictions@, fluctuation, labels@.len() as int),
{
    let mut total: usize = 0;
    let mut i: usize = 0;
    while i < labels.len()
        invariant
            0 <= i <= labels@.len(),
            labels@.len() == predictions@.len(),
            total == accurate_count(labels@, predictions@, fluctuation, i as int),
            total <= i,
        decreases labels@.len() - i,
    {
        let label = labels[i];
        let prediction = predictions[i];
        let diff = if label >= prediction {
            label - prediction
        } else {
            prediction - label
        };
        if diff <= fluctuation {
            total = total + 1;
        }
        i = i + 1;
    }
    total
}

} // verus!
