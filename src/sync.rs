use vstd::prelude::*;

use crate::error::CortexResult;

verus! {

/// The capabilities that a mutual-exclusion backend offers to a segment handle.
///
/// A lock is named by the same integer key as the memory segment it guards.
/// Reading and writing may take the same exclusive section: only mutual
/// exclusion against every other holder is needed.
pub trait CortexSync: Sized {
    /// Backend-specific settings used when a new lock is created.
    type Settings;

    /// Creates a new lock under `cortex_key`.
    fn new(cortex_key: i32, settings: Option<&Self::Settings>) -> CortexResult<Self>;

    /// Attaches to the lock that already exists under `cortex_key`.
    fn attach(cortex_key: i32) -> CortexResult<Self>;

    /// Claims the lock for this process, resetting what a crashed owner left.
    fn force_ownership(&mut self);

    /// Enters the exclusive section in order to read.
    fn read_lock(&self) -> CortexResult<()>;

    /// Enters the exclusive section in order to write.
    fn write_lock(&self) -> CortexResult<()>;

    /// Leaves the exclusive section.
    fn release(&self) -> CortexResult<()>;
}

} // verus!
