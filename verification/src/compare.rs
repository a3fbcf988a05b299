use crate::graph::ComputationGraph;
use crate::record::Tape;
use crate::scalar::{f64ad, AdError};
use crate::word::{ge, spec_is_nan, spec_ordinal};
use core::cmp::Ordering;
use vstd::prelude::*;

verus! {

/// How two words compare as binary64 numbers: by their places in the order,
/// and not at all when one of them is no number.
pub open spec fn word_ordering(a: u64, b: u64) -> Option<Ordering> {
    if spec_is_nan(a) || spec_is_nan(b) {
        None
    } else if spec_ordinal(a) < spec_ordinal(b) {
        Some(Ordering::Less)
    } else if spec_ordinal(a) == spec_ordinal(b) {
        Some(Ordering::Equal)
    } else {
        Some(Ordering::Greater)
    }
}

/// Compares two words as binary64 numbers.
pub fn compare_words(a: u64, b: u64) -> (r: Option<Ordering>)
    ensures
        r == word_ordering(a, b),
{
    let above = ge(a, b);
    let below = ge(b, a);
    if above && below {
        Some(Ordering::Equal)
    } else if above {
        Some(Ordering::Greater)
    } else if below {
        Some(Ordering::Less)
    } else {
        None
    }
}

/// How two scalars compare: as their values do. A scalar without a value on
/// the tape cannot be compared; of two such, the left one is reported.
pub open spec fn scalar_ordering(lhs: f64ad, rhs: f64ad, tape: Tape) -> Result<
    Option<Ordering>,
    AdError,
> {
    match (lhs.spec_value(tape), rhs.spec_value(tape)) {
        (Ok(a), Ok(b)) => Ok(word_ordering(a, b)),
        (Err(e), _) => Err(e),
        (_, Err(e)) => Err(e),
    }
}

impl f64ad {
    /// Compares the values of two scalars.
    pub fn partial_cmp(&self, other: &Self, computation_graph: &ComputationGraph) -> (r: Result<
        Option<Ordering>,
        AdError,
    >)
        requires
            computation_graph.wf(),
            self.in_range(computation_graph.tape()),
            other.in_range(computation_graph.tape()),
        ensures
            r == scalar_ordering(*self, *other, computation_graph.tape()),
    {
        let a = self.value(computation_graph)?;
        let b = other.value(computation_graph)?;
        Ok(compare_words(a, b))
    }

    /// Whether the values of two scalars are equal as numbers.
    pub fn eq(&self, other: &Self, computation_graph: &ComputationGraph) -> (r: Result<
        bool,
        AdError,
    >)
        requires
            computation_graph.wf(),
            self.in_range(computation_graph.tape()),
            other.in_range(computation_graph.tape()),
        ensures
            r == (match scalar_ordering(*self, *other, computation_graph.tape()) {
                Ok(o) => Ok::<bool, AdError>(o == Some(Ordering::Equal)),
                Err(e) => Err::<bool, AdError>(e),
            }),
    {
        let a = self.value(computation_graph)?;
        let b = other.value(computation_graph)?;
        Ok(ge(a, b) && ge(b, a))
    }
}

} // verus!
