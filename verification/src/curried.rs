use vstd::prelude::*;

use crate::markers::{Imm, Mut, Own, PipeMark, TapMark};

verus! {

/// The applicator produced by binding a receiver to a target function.
///
/// `M` records how the receiver is passed to the function (`Imm`, `Mut` or
/// `Own`) and `K` records what is returned (`PipeMark` for the function's
/// result, `TapMark` for the receiver). The `call` methods supply the
/// trailing arguments; the arities are independent, and using an arity or a
/// function shape that the pair `(M, K)` does not provide is rejected when
/// the program is compiled, never at run time.
pub struct Curried<M, K, A0, F> {
    pub mode: M,
    pub kind: K,
    pub recv: A0,
    pub func: F,
}

/// Transform, receiver by value: each `call` consumes the applicator, moves
/// the receiver into the target function, and returns exactly what the
/// function returns.
impl<A0, F> Curried<Own, PipeMark, A0, F> {
    pub fn call0<R>(self) -> (r: R) where F: FnOnce(A0) -> R
        requires
            call_requires(self.func, (self.recv,)),
        ensures
            call_ensures(self.func, (self.recv,), r),
    {
        let Curried { mode: _, kind: _, recv, func } = self;
        func(recv)
    }

    pub fn call1<A1, R>(self, a1: A1) -> (r: R) where F: FnOnce(A0, A1) -> R
        requires
            call_requires(self.func, (self.recv, a1)),
        ensures
            call_ensures(self.func, (self.recv, a1), r),
    {
        let Curried { mode: _, kind: _, recv, func } = self;
        func(recv, a1)
    }

    pub fn call2<A1, A2, R>(self, a1: A1, a2: A2) -> (r: R) where F: FnOnce(A0, A1, A2) -> R
        requires
            call_requires(self.func, (self.recv, a1, a2)),
        ensures
            call_ensures(self.func, (self.recv, a1, a2), r),
    {
        let Curried { mode: _, kind: _, recv, func } = self;
        func(recv, a1, a2)
    }

    pub fn call3<A1, A2, A3, R>(self, a1: A1, a2: A2, a3: A3) -> (r: R) where
        F: FnOnce(A0, A1, A2, A3) -> R,

        requires
            call_requires(self.func, (self.recv, a1, a2, a3)),
        ensures
            call_ensures(self.func, (self.recv, a1, a2, a3), r),
    {
        let Curried { mode: _, kind: _, recv, func } = self;
        func(recv, a1, a2, a3)
    }
}

/// Transform, receiver by shared reference: each `call` borrows the retained
/// receiver for the duration of the target call and returns the function's
/// result. The applicator is reusable: every call sees the same receiver and
/// only the newly supplied trailing arguments.
impl<A0, F> Curried<Imm, PipeMark, A0, F> {
    pub fn call0<R>(&self) -> (r: R) where F: Fn(&A0) -> R
        requires
            call_requires(self.func, (&self.recv,)),
        ensures
            call_ensures(self.func, (&self.recv,), r),
    {
        (self.func)(&self.recv)
    }

    pub fn call1<A1, R>(&self, a1: A1) -> (r: R) where F: Fn(&A0, A1) -> R
        requires
            call_requires(self.func, (&self.recv, a1)),
        ensures
            call_ensures(self.func, (&self.recv, a1), r),
    {
        (self.func)(&self.recv, a1)
    }

    pub fn call2<A1, A2, R>(&self, a1: A1, a2: A2) -> (r: R) where F: Fn(&A0, A1, A2) -> R
        requires
            call_requires(self.func, (&self.recv, a1, a2)),
        ensures
            call_ensures(self.func, (&self.recv, a1, a2), r),
    {
        (self.func)(&self.recv, a1, a2)
    }

    pub fn call3<A1, A2, A3, R>(&self, a1: A1, a2: A2, a3: A3) -> (r: R) where
        F: Fn(&A0, A1, A2, A3) -> R,

        requires
            call_requires(self.func, (&self.recv, a1, a2, a3)),
        ensures
            call_ensures(self.func, (&self.recv, a1, a2, a3), r),
    {
        (self.func)(&self.recv, a1, a2, a3)
    }
}

/// Transform, receiver in state-passing style: the target function consumes
/// the current receiver and returns the updated receiver beside its result.
/// Each `call` returns the re-armed applicator and the result, so updates
/// made by one call are seen by the next.
impl<A0, F> Curried<Mut, PipeMark, A0, F> {
    pub fn call0<R>(self) -> (out: (Self, R)) where F: Fn(A0) -> (A0, R)
        requires
            call_requires(self.func, (self.recv,)),
        ensures
            out.0.func == self.func,
            call_ensures(self.func, (self.recv,), (out.0.recv, out.1)),
    {
        let Curried { mode: _, kind: _, recv, func } = self;
        let (recv, r) = func(recv);
        (Curried { mode: Mut, kind: PipeMark, recv, func }, r)
    }

    pub fn call1<A1, R>(self, a1: A1) -> (out: (Self, R)) where F: Fn(A0, A1) -> (A0, R)
        requires
            call_requires(self.func, (self.recv, a1)),
        ensures
            out.0.func == self.func,
            call_ensures(self.func, (self.recv, a1), (out.0.recv, out.1)),
    {
        let Curried { mode: _, kind: _, recv, func } = self;
        let (recv, r) = func(recv, a1);
        (Curried { mode: Mut, kind: PipeMark, recv, func }, r)
    }

    pub fn call2<A1, A2, R>(self, a1: A1, a2: A2) -> (out: (Self, R)) where
        F: Fn(A0, A1, A2) -> (A0, R),

        requires
            call_requires(self.func, (self.recv, a1, a2)),
        ensures
            out.0.func == self.func,
            call_ensures(self.func, (self.recv, a1, a2), (out.0.recv, out.1)),
    {
        let Curried { mode: _, kind: _, recv, func } = self;
        let (recv, r) = func(recv, a1, a2);
        (Curried { mode: Mut, kind: PipeMark, recv, func }, r)
    }

    pub fn call3<A1, A2, A3, R>(self, a1: A1, a2: A2, a3: A3) -> (out: (Self, R)) where
        F: Fn(A0, A1, A2, A3) -> (A0, R),

        requires
            call_requires(self.func, (self.recv, a1, a2, a3)),
        ensures
            out.0.func == self.func,
            call_ensures(self.func, (self.recv, a1, a2, a3), (out.0.recv, out.1)),
    {
        let Curried { mode: _, kind: _, recv, func } = self;
        let (recv, r) = func(recv, a1, a2, a3);
        (Curried { mode: Mut, kind: PipeMark, recv, func }, r)
    }
}

/// Tap, receiver by shared reference: each `call` lends the receiver to the
/// target function, discards the function's result, and returns the receiver
/// itself, unchanged.
impl<A0, F> Curried<Imm, TapMark, A0, F> {
    pub fn call0<R>(self) -> (out: A0) where F: FnOnce(&A0) -> R
        requires
            call_requires(self.func, (&self.recv,)),
        ensures
            out == self.recv,
            exists|r: R| call_ensures(self.func, (&self.recv,), r),
    {
        let Curried { mode: _, kind: _, recv, func } = self;
        let r = func(&recv);
        recv
    }

    pub fn call1<A1, R>(self, a1: A1) -> (out: A0) where F: FnOnce(&A0, A1) -> R
        requires
            call_requires(self.func, (&self.recv, a1)),
        ensures
            out == self.recv,
            exists|r: R| call_ensures(self.func, (&self.recv, a1), r),
    {
        let Curried { mode: _, kind: _, recv, func } = self;
        let r = func(&recv, a1);
        recv
    }

    pub fn call2<A1, A2, R>(self, a1: A1, a2: A2) -> (out: A0) where F: FnOnce(&A0, A1, A2) -> R
        requires
            call_requires(self.func, (&self.recv, a1, a2)),
        ensures
            out == self.recv,
            exists|r: R| call_ensures(self.func, (&self.recv, a1, a2), r),
    {
        let Curried { mode: _, kind: _, recv, func } = self;
        let r = func(&recv, a1, a2);
        recv
    }

    pub fn call3<A1, A2, A3, R>(self, a1: A1, a2: A2, a3: A3) -> (out: A0) where
        F: FnOnce(&A0, A1, A2, A3) -> R,

        requires
            call_requires(self.func, (&self.recv, a1, a2, a3)),
        ensures
            out == self.recv,
            exists|r: R| call_ensures(self.func, (&self.recv, a1, a2, a3), r),
    {
        let Curried { mode: _, kind: _, recv, func } = self;
        let r = func(&recv, a1, a2, a3);
        recv
    }
}

/// Tap, receiver in state-passing style: the target function consumes the
/// receiver and returns the updated receiver beside a result; the result is
/// discarded and the updated receiver is returned. The function's update is
/// applied exactly once.
impl<A0, F> Curried<Mut, TapMark, A0, F> {
    pub fn call0<R>(self) -> (out: A0) where F: FnOnce(A0) -> (A0, R)
        requires
            call_requires(self.func, (self.recv,)),
        ensures
            exists|r: R| call_ensures(self.func, (self.recv,), (out, r)),
    {
        let Curried { mode: _, kind: _, recv, func } = self;
        let (out, r) = func(recv);
        out
    }

    pub fn call1<A1, R>(self, a1: A1) -> (out: A0) where F: FnOnce(A0, A1) -> (A0, R)
        requires
            call_requires(self.func, (self.recv, a1)),
        ensures
            exists|r: R| call_ensures(self.func, (self.recv, a1), (out, r)),
    {
        let Curried { mode: _, kind: _, recv, func } = self;
        let (out, r) = func(recv, a1);
        out
    }

    pub fn call2<A1, A2, R>(self, a1: A1, a2: A2) -> (out: A0) where
        F: FnOnce(A0, A1, A2) -> (A0, R),

        requires
            call_requires(self.func, (self.recv, a1, a2)),
        ensures
            exists|r: R| call_ensures(self.func, (self.recv, a1, a2), (out, r)),
    {
        let Curried { mode: _, kind: _, recv, func } = self;
        let (out, r) = func(recv, a1, a2);
        out
    }

    pub fn call3<A1, A2, A3, R>(self, a1: A1, a2: A2, a3: A3) -> (out: A0) where
        F: FnOnce(A0, A1, A2, A3) -> (A0, R),

        requires
            call_requires(self.func, (self.recv, a1, a2, a3)),
        ensures
            exists|r: R| call_ensures(self.func, (self.recv, a1, a2, a3), (out, r)),
    {
        let Curried { mode: _, kind: _, recv, func } = self;
        let (out, r) = func(recv, a1, a2, a3);
        out
    }
}

} // verus!
