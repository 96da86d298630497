//! Chaining multi-argument function calls in method syntax, with verified
//! calling conventions.
//!
//! A pipe binds a receiver as the first argument of a target function and
//! returns an applicator over the remaining arguments; invoking the
//! applicator performs the call and yields the function's result. A tap has
//! the same two-stage form but discards the function's result and yields the
//! (possibly updated) receiver, optionally after narrowing the receiver to a
//! projected part, unconditionally or gated on presence.
//!
//! Every combination of receiver mode and call semantics is a distinct
//! applicator type, tagged by the marker types in this crate, and each
//! applicator carries a contract that ties what it returns to the target
//! function's own pre- and postconditions. The receiver mode is chosen by
//! the method name — `pipe`, `pipe_shared`, `pipe_mut`, `tap`, `tap_mut`,
//! `tap_proj`, `tap_cond` and their state-passing counterparts — so the
//! routing of a target function to a calling convention is explicit and
//! deterministic, and a function whose shape does not fit the chosen mode or
//! arity is rejected when the program is compiled, never at run time.
//!
//! Functions that take the receiver by exclusive reference are rendered in
//! state-passing style: the target consumes the current value and hands back
//! the updated one beside its result. Trailing-argument counts zero through
//! three are provided; each arity is an independent method, and further
//! arities follow the same uniform pattern.

mod curried;
mod laws;
mod markers;
mod projected;
mod surface;

pub use curried::Curried;
pub use laws::{
    law_projection_run, law_projection_run_stateful, law_projection_skip,
    law_projection_skip_stateful, law_tap_identity, law_tap_update, law_transform,
    law_transform_shared, law_transform_stateful,
};
pub use markers::{Cond, Imm, Mut, Own, PipeMark, Proj, TapMark};
pub use projected::{Extracted, Projected};
pub use surface::{Pipe, Tap, TapWith};
