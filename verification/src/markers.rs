use vstd::prelude::*;

verus! {

/// Marker type: the target function takes the receiver (or its projected
/// part) by shared reference, so the receiver is never changed and the
/// applicator can be reused.
pub struct Imm;

/// Marker type: the target function takes the receiver (or its projected
/// part) in state-passing style, consuming the current value and returning
/// the updated one; the applicator threads the state through.
pub struct Mut;

/// Marker type: the target function takes the receiver by value, consuming
/// it; the applicator can be invoked once.
pub struct Own;

/// Marker type: tap semantics. The target function's result is discarded and
/// the (possibly updated) receiver is returned.
pub struct TapMark;

/// Marker type: pipe semantics. The target function's result is returned.
pub struct PipeMark;

/// Marker type: unconditional projection. The projection always yields a
/// part of the receiver, and the target function always runs on it.
pub struct Proj;

/// Marker type: conditional projection. The projection yields the part only
/// when it is present; when it is absent the target function is skipped.
pub struct Cond;

} // verus!
