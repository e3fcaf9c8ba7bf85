//! The lowering contexts that own the decisions of expression and call lowering.

use vstd::prelude::*;

verus! {

/// The expression lowering context: the choices it makes for comparisons, built-ins in
/// call position, `require`, getters, `push` slots and `type(...)` constants.
pub struct ExpressionContext;

/// The call lowering context: the choices it makes for calls, built-in calls, external
/// and library calls, struct literals and `push`.
pub struct CallContext;

/// The call emitter of the expression emitter: its dispatch of calls and member accesses.
pub struct CallEmitter;

} // verus!
