//! The seam between start-up and the logic of the program.

use vstd::prelude::*;

use crate::context::Context;
use crate::error::Error;

verus! {

/// The main entrypoint to the program: it takes over the context and runs
/// the program's logic in it. There is no logic yet, so it does no work and
/// succeeds on every context.
pub fn entrypoint(_context: Context) -> (done: Result<(), Error>)
    ensures
        done is Ok,
{
    Ok(())
}

} // verus!
