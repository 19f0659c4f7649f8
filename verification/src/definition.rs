//! What a suite has to offer to be registered.

use crate::result::TestResult;
use vstd::prelude::*;

verus! {

/// A behavioural test suite bound to one feature description.
pub trait CucumberTest {
    /// The name of the suite. It is used to find the feature file.
    const NAME: &'static str;

    /// Starts the suite on the feature description at `feature_path` and
    /// hands back the unit of work that runs it.
    fn run(feature_path: String) -> TestResult;
}

} // verus!
