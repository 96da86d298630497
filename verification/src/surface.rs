use vstd::prelude::*;

use crate::curried::Curried;
use crate::markers::{Cond, Imm, Mut, Own, PipeMark, Proj, TapMark};
use crate::projected::Projected;

verus! {

/// Extension trait for transforming values: binds `self` as the first
/// argument of `f` and returns the applicator over the remaining arguments.
/// The mode is chosen by name: `pipe` moves `self` into `f`, `pipe_shared`
/// lends `self` to `f` on every call, and `pipe_mut` threads `self` through
/// a state-passing `f`. A function that fits several modes is routed by the
/// method name alone, so the choice is always explicit and deterministic.
pub trait Pipe: Sized {
    fn pipe<F>(self, f: F) -> (c: Curried<Own, PipeMark, Self, F>)
        ensures
            c.recv == self && c.func == f,
    ;

    fn pipe_shared<F>(self, f: F) -> (c: Curried<Imm, PipeMark, Self, F>)
        ensures
            c.recv == self && c.func == f,
    ;

    fn pipe_mut<F>(self, f: F) -> (c: Curried<Mut, PipeMark, Self, F>)
        ensures
            c.recv == self && c.func == f,
    ;
}

impl<T> Pipe for T {
    fn pipe<F>(self, f: F) -> (c: Curried<Own, PipeMark, Self, F>) {
        Curried { mode: Own, kind: PipeMark, recv: self, func: f }
    }

    fn pipe_shared<F>(self, f: F) -> (c: Curried<Imm, PipeMark, Self, F>) {
        Curried { mode: Imm, kind: PipeMark, recv: self, func: f }
    }

    fn pipe_mut<F>(self, f: F) -> (c: Curried<Mut, PipeMark, Self, F>) {
        Curried { mode: Mut, kind: PipeMark, recv: self, func: f }
    }
}

/// Extension trait for running side effects: binds `self` and `f` into an
/// applicator that calls `f` for its effect and returns the receiver. `tap`
/// lends `self` to `f`, which cannot change it; `tap_mut` hands `self` to a
/// state-passing `f` and returns the updated value that `f` gives back.
pub trait Tap: Sized {
    fn tap<F>(self, f: F) -> (c: Curried<Imm, TapMark, Self, F>)
        ensures
            c.recv == self && c.func == f,
    ;

    fn tap_mut<F>(self, f: F) -> (c: Curried<Mut, TapMark, Self, F>)
        ensures
            c.recv == self && c.func == f,
    ;
}

impl<T> Tap for T {
    fn tap<F>(self, f: F) -> (c: Curried<Imm, TapMark, Self, F>) {
        Curried { mode: Imm, kind: TapMark, recv: self, func: f }
    }

    fn tap_mut<F>(self, f: F) -> (c: Curried<Mut, TapMark, Self, F>) {
        Curried { mode: Mut, kind: TapMark, recv: self, func: f }
    }
}

/// Extension trait for running side effects on a projected part of the
/// value. `tap_proj` and `tap_cond` lend the part by shared reference,
/// unconditionally or only when the projection finds it present;
/// `tap_proj_mut` and `tap_cond_mut` are the state-passing counterparts,
/// whose projection splits the receiver into the part and a rebuild
/// function.
pub trait TapWith: Sized {
    fn tap_proj<T: ?Sized, P, F>(self, proj: P, f: F) -> (c: Projected<
        Imm,
        Proj,
        Self,
        P,
        F,
    >) where P: for<'b> FnOnce(&'b Self) -> &'b T
        ensures
            c.recv == self && c.proj == proj && c.func == f,
    ;

    fn tap_cond<T: ?Sized, P, F>(self, proj: P, f: F) -> (c: Projected<
        Imm,
        Cond,
        Self,
        P,
        F,
    >) where P: for<'b> FnOnce(&'b Self) -> Option<&'b T>
        ensures
            c.recv == self && c.proj == proj && c.func == f,
    ;

    fn tap_proj_mut<P, F>(self, proj: P, f: F) -> (c: Projected<Mut, Proj, Self, P, F>)
        ensures
            c.recv == self && c.proj == proj && c.func == f,
    ;

    fn tap_cond_mut<P, F>(self, proj: P, f: F) -> (c: Projected<Mut, Cond, Self, P, F>)
        ensures
            c.recv == self && c.proj == proj && c.func == f,
    ;
}

impl<T> TapWith for T {
    fn tap_proj<U: ?Sized, P, F>(self, proj: P, f: F) -> (c: Projected<
        Imm,
        Proj,
        Self,
        P,
        F,
    >) where P: for<'b> FnOnce(&'b Self) -> &'b U {
        Projected { mode: Imm, kind: Proj, recv: self, proj, func: f }
    }

    fn tap_cond<U: ?Sized, P, F>(self, proj: P, f: F) -> (c: Projected<
        Imm,
        Cond,
        Self,
        P,
        F,
    >) where P: for<'b> FnOnce(&'b Self) -> Option<&'b U> {
        Projected { mode: Imm, kind: Cond, recv: self, proj, func: f }
    }

    fn tap_proj_mut<P, F>(self, proj: P, f: F) -> (c: Projected<Mut, Proj, Self, P, F>) {
        Projected { mode: Mut, kind: Proj, recv: self, proj, func: f }
    }

    fn tap_cond_mut<P, F>(self, proj: P, f: F) -> (c: Projected<Mut, Cond, Self, P, F>) {
        Projected { mode: Mut, kind: Cond, recv: self, proj, func: f }
    }
}

} // verus!
