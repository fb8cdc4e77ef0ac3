//! The mapping record kept by the store.

use vstd::prelude::*;

verus! {

/// One stored mapping: a short identifier and the long URL it stands for,
/// kept exactly as submitted.
#[derive(Debug, Clone)]
pub struct Url {
    pub short_id: String,
    pub long_url: String,
}

} // verus!
