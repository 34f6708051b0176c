//! A typed intermediate-representation builder and code-generation front end.
//!
//! A caller describes a function as a sequence of typed operations
//! (arithmetic, comparisons, memory access, branches, calls) against an
//! abstract value space.  The library checks types at emission time, resolves
//! forward and backward label references, verifies the finished instruction
//! graph, and turns it into a callable artifact whose behaviour is given by a
//! small-step semantics over bit-level values.

use vstd::prelude::*;

pub use context::{CompiledFunction, Context};
pub use driver::{check_loops, translate};
pub use function::{Label, UncompiledFunction, Value};
pub use ir::{HostEvent, Machine};
pub use run::Outcome;
pub use types::{Field, TagData, Type, TypeKind};

pub mod context;
pub mod driver;
pub mod function;
pub mod ir;
pub mod laws;
pub mod run;
pub mod types;

verus! {

/// Errors reported by the type system, the instruction builder and the
/// compilation pipeline.
#[derive(Clone, Copy, PartialEq, Eq, Structural, Debug)]
pub enum JitError {
    /// An operand or result type is incompatible with the operation.
    TypeMismatch,
    /// A struct or union field lookup by name found no such field.
    NoSuchField,
    /// A branch references a label that was never bound.
    UnboundLabel,
    /// The instruction graph is malformed (rebound label, missing
    /// terminator, out-of-order compilation).
    VerificationError,
    /// A value or label belonging to one function was used by another.
    CrossFunctionUse,
    /// A loop was closed while no loop was open.
    UnmatchedLoopClose,
}

/// Optimization hints attached to a call site.  The lowering backend trusts
/// them without verification; an incorrect flag is a programmer error.
#[derive(Clone, Copy, PartialEq, Eq, Structural, Debug)]
pub struct CallFlags {
    /// The callee never raises or unwinds.
    pub no_throw: bool,
    /// The callee never returns to the call site.
    pub no_return: bool,
    /// The call may be emitted as a tail call.
    pub tail: bool,
}

impl CallFlags {
    /// Flags with every hint cleared.
    pub fn none() -> (r: CallFlags)
        ensures
            r == (CallFlags { no_throw: false, no_return: false, tail: false }),
    {
        CallFlags { no_throw: false, no_return: false, tail: false }
    }

    /// Flags asserting that the callee never raises or unwinds.
    pub fn no_throw() -> (r: CallFlags)
        ensures
            r == (CallFlags { no_throw: true, no_return: false, tail: false }),
    {
        CallFlags { no_throw: true, no_return: false, tail: false }
    }
}

} // verus!
