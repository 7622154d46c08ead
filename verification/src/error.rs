//! Failures that the renderer core reports to its caller.

use vstd::prelude::*;

verus! {

/// Why an operation of the renderer core did not go through.
#[derive(Clone, Copy, Debug, PartialEq, Eq, Structural)]
pub enum RenderError {
    /// A GPU buffer or a bundle handle could not be allocated.
    ResourceExhausted,
    /// A trace handle that the trace store cannot resolve.
    UnknownTrace,
    /// A bundle handle that the bundle table does not hold.
    UnknownBundle,
}

} // verus!
