//! Stack traces of a running thread through the operating system's debug
//! engine: the walk records and the frames built from them, the seeding of a
//! walk from a captured register context, and the decisions of one trace,
//! from choosing the walker to resuming a suspended thread.

use vstd::prelude::*;

pub mod context;
pub mod frame;
pub mod runs;
pub mod walker;

verus! {

} // verus!
