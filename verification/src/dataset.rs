//! The dataset builder: maps a candle sequence into index-aligned
//! feature/label arrays for model training.

use vstd::prelude::*;
use crate::errors::TradeError;
use crate::market::Candle;

verus! {

/// Feature vectors: one `[open]` vector per candle.
pub type Features = Vec<Vec<u64>>;

/// Labels: one `high` scalar per candle.
pub type Labels = Vec<u64>;

/// Index-aligned training data: `features[i]` is labelled by
/// `labels[i]`. Built fresh each strategy cycle and never mutated after
/// construction.
#[derive(Debug, Clone)]
pub struct DataSet(pub Features, pub Labels);

impl DataSet {
    /// Feature and label arrays have the same length and every feature
    /// vector holds exactly one value.
    pub open spec fn wf(self) -> bool {
        &&& self.0@.len() == self.1@.len()
        &&& forall|i: int| 0 <= i < self.0@.len() ==> (#[trigger] self.0@[i])@.len() == 1
    }

    /// Each candle contributes, in candle order, the feature vector
    /// `[open]` and the label `high`.
    pub open spec fn from_candles_spec(self, candles: Seq<Candle>) -> bool {
        &&& self.0@.len() == candles.len()
        &&& self.1@.len() == candles.len()
        &&& forall|i: int|
            0 <= i < candles.len() ==> (#[trigger] self.0@[i])@.len() == 1 && self.0@[i]@[0]
                == candles[i].open
        &&& forall|i: int| 0 <= i < candles.len() ==> self.1@[i] == candles[i].high
    }

    /// Extracts the necessary labels and features from the given
    /// candles, preserving their order. Fails with `EmptyDatasetError`
    /// if, and only if, zero candles were produced: a downstream train
    /// call on an empty dataset is never attempted silently.
    pub fn from_candles(candles: &Vec<Candle>) -> (r: Result<DataSet, TradeError>)
        ensures
            r is Err <==> candles@.len() == 0,
            r matches Err(e) ==> e == TradeError::EmptyDatasetError,
            r matches Ok(ds) ==> ds.from_candles_spec(candles@) && ds.wf(),
    {
        if candles.len() == 0 {
            return Err(TradeError::EmptyDatasetError);
        }
        let mut features: Features = Vec::new();
        let mut labels: Labels = Vec::new();
        let mut i: usize = 0;
        while i < candles.len()
            invariant
                0 <= i <= candles@.len(),
                features@.len() == i,
                labels@.len() == i,
                forall|k: int|
                    0 <= k < i ==> (#[trigger] features@[k])@.len() == 1 && features@[k]@[0]
                        == candles@[k].open,
                forall|k: int| 0 <= k < i ==> labels@[k] == candles@[k].high,
            decreases candles@.len() - i,
        {
            let c = candles[i];
            let mut feature: Vec<u64> = Vec::new();
            feature.push(c.open);
            features.push(feature);
            labels.push(c.high);
            i = i + 1;
        }
        Ok(DataSet(features, labels))
    }
}

} // verus!
