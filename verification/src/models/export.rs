//! The outcome of an import.

use vstd::prelude::*;

verus! {

/// How many rows an import took in, how many it refused, and why.
#[derive(Clone, Debug)]
pub struct ImportResult {
    pub rows_imported: u64,
    pub rows_failed: u64,
    pub errors: Vec<String>,
}

} // verus!
