//! Errors reported by type inference.
use vstd::prelude::*;

use crate::types::Type;

verus! {

/// Why inference of a top-level expression failed.
#[derive(Clone, Debug)]
pub enum InferError {
    /// Two concrete types that cannot be unified: the one required, and the one found.
    TypeMismatch { expected: Type, found: Type },
    /// A name that is not bound in the environment.
    UndefinedIdentifier { name: String },
    /// A call with a number of arguments other than the callee's parameter count.
    ArityMismatch { name: String, params: usize, args: usize },
    /// A stable state was reached with an `Unknown` left in the tree.
    CouldNotInfer,
    /// The environment repeated from one iteration to the next while the tree kept changing.
    InferenceLoop,
    /// The iteration ceiling was reached without convergence.
    NoConvergence,
}

} // verus!
