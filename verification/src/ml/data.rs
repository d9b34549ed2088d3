//! The recorded training dataset: the shape of its rows, and the settings a
//! model is trained with on it.

use crate::capture::types::FEATURE_DIMENSION;
use vstd::prelude::*;

verus! {

/// Number of trees of the trained forest.
pub const TRAINING_TREES: usize = 100;

/// Number of rows drawn from the dataset for each tree. A dataset with fewer
/// rows cannot be trained on.
pub const TRAINING_SAMPLE_SIZE: usize = 256;

/// Freedom in choosing the directions of the cuts: 0 cuts along the axes.
pub const TRAINING_EXTENSION_LEVEL: usize = 0;

/// Whether the first `count` fields of a row all hold some text.
pub open spec fn filled_up_to(fields: Seq<String>, count: int) -> bool {
    forall|i: int| 0 <= i < count ==> (#[trigger] fields[i])@.len() > 0
}

/// Whether a row holds one feature vector: it has a field for each column of
/// the model, and none of those fields is empty.
pub open spec fn spec_row_is_complete(fields: Seq<String>) -> bool {
    fields.len() >= FEATURE_DIMENSION && filled_up_to(fields, FEATURE_DIMENSION as int)
}

/// Decides whether a row of the dataset can be read as a feature vector. A
/// row that cannot is skipped by the loader, not reported.
pub fn row_is_complete(fields: &Vec<String>) -> (complete: bool)
    ensures
        complete == spec_row_is_complete(fields@),
{
    if fields.len() < FEATURE_DIMENSION {
        return false;
    }
    let mut i: usize = 0;
    while i < FEATURE_DIMENSION
        invariant
            i <= FEATURE_DIMENSION <= fields@.len(),
            filled_up_to(fields@, i as int),
        decreases FEATURE_DIMENSION - i,
    {
        if fields[i].as_str().is_empty() {
            return false;
        }
        i = i + 1;
    }
    true
}

} // verus!
