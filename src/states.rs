use vstd::prelude::*;

verus! {

/// Stage of a freshly created processor: its data has not been checked yet.
pub struct Initial;

/// Stage of a processor whose data was found non-empty.
pub struct Validated;

/// Stage of a processor whose data has been transformed.
pub struct Processed;

} // verus!
