//! The status with which the process ends.

use vstd::prelude::*;

verus! {

/// Everything that was asked for was done; also where nothing was selected.
pub const OK: i32 = 0;

/// The run was given up.
pub const FAILURE: i32 = 1;

} // verus!
