use vstd::prelude::*;

use crate::markers::{Cond, Imm, Mut, Proj};

verus! {

/// What a state-passing projection yields: either the part of the receiver
/// that the target function should work on, paired with the function that
/// rebuilds the whole receiver around the updated part, or — for a
/// conditional projection whose part is absent — the untouched receiver.
pub enum Extracted<T, J, A0> {
    Present(T, J),
    Absent(A0),
}

/// The applicator produced by binding a receiver, a projection and a target
/// function. The projection narrows the receiver to a part; the target
/// function runs on the part; the whole receiver is returned. `M` records
/// how the part is passed (`Imm` or `Mut`) and `K` whether the projection is
/// unconditional (`Proj`) or gated on presence (`Cond`). The projection is
/// evaluated exactly once per call, whether or not the part is present.
pub struct Projected<M, K, A0, P, F> {
    pub mode: M,
    pub kind: K,
    pub recv: A0,
    pub proj: P,
    pub func: F,
}

/// Unconditional projection by shared reference: each `call` narrows the
/// receiver with the projection, lends the part to the target function,
/// discards the function's result, and returns the receiver unchanged.
impl<A0, P, F> Projected<Imm, Proj, A0, P, F> {
    pub fn call0<T: ?Sized, R>(self) -> (out: A0) where
        P: for<'b> FnOnce(&'b A0) -> &'b T,
        F: FnOnce(&T) -> R,

        requires
            call_requires(self.proj, (&self.recv,)),
            forall|v: &T|
                call_ensures(self.proj, (&self.recv,), v) ==> call_requires(self.func, (v,)),
        ensures
            out == self.recv,
            exists|v: &T, r: R|
                call_ensures(self.proj, (&self.recv,), v) && call_ensures(self.func, (v,), r),
    {
        let Projected { mode: _, kind: _, recv, proj, func } = self;
        let v = proj(&recv);
        let r = func(v);
        recv
    }

    pub fn call1<T: ?Sized, A1, R>(self, a1: A1) -> (out: A0) where
        P: for<'b> FnOnce(&'b A0) -> &'b T,
        F: FnOnce(&T, A1) -> R,

        requires
            call_requires(self.proj, (&self.recv,)),
            forall|v: &T|
                call_ensures(self.proj, (&self.recv,), v) ==> call_requires(self.func, (v, a1)),
        ensures
            out == self.recv,
            exists|v: &T, r: R|
                call_ensures(self.proj, (&self.recv,), v) && call_ensures(self.func, (v, a1), r),
    {
        let Projected { mode: _, kind: _, recv, proj, func } = self;
        let v = proj(&recv);
        let r = func(v, a1);
        recv
    }

    pub fn call2<T: ?Sized, A1, A2, R>(self, a1: A1, a2: A2) -> (out: A0) where
        P: for<'b> FnOnce(&'b A0) -> &'b T,
        F: FnOnce(&T, A1, A2) -> R,

        requires
            call_requires(self.proj, (&self.recv,)),
            forall|v: &T|
                call_ensures(self.proj, (&self.recv,), v) ==> call_requires(
                    self.func,
                    (v, a1, a2),
                ),
        ensures
            out == self.recv,
            exists|v: &T, r: R|
                call_ensures(self.proj, (&self.recv,), v) && call_ensures(
                    self.func,
                    (v, a1, a2),
                    r,
                ),
    {
        let Projected { mode: _, kind: _, recv, proj, func } = self;
        let v = proj(&recv);
        let r = func(v, a1, a2);
        recv
    }

    pub fn call3<T: ?Sized, A1, A2, A3, R>(self, a1: A1, a2: A2, a3: A3) -> (out: A0) where
        P: for<'b> FnOnce(&'b A0) -> &'b T,
        F: FnOnce(&T, A1, A2, A3) -> R,

        requires
            call_requires(self.proj, (&self.recv,)),
            forall|v: &T|
                call_ensures(self.proj, (&self.recv,), v) ==> call_requires(
                    self.func,
                    (v, a1, a2, a3),
                ),
        ensures
            out == self.recv,
            exists|v: &T, r: R|
                call_ensures(self.proj, (&self.recv,), v) && call_ensures(
                    self.func,
                    (v, a1, a2, a3),
                    r,
                ),
    {
        let Projected { mode: _, kind: _, recv, proj, func } = self;
        let v = proj(&recv);
        let r = func(v, a1, a2, a3);
        recv
    }
}

/// Conditional projection by shared reference: each `call` narrows the
/// receiver with the projection; when the part is present the target
/// function runs on it and its result is discarded, when it is absent the
/// function is skipped entirely. The receiver is returned unchanged either
/// way.
impl<A0, P, F> Projected<Imm, Cond, A0, P, F> {
    pub fn call0<T: ?Sized, R>(self) -> (out: A0) where
        P: for<'b> FnOnce(&'b A0) -> Option<&'b T>,
        F: FnOnce(&T) -> R,

        requires
            call_requires(self.proj, (&self.recv,)),
            forall|v: &T|
                call_ensures(self.proj, (&self.recv,), Some(v)) ==> call_requires(
                    self.func,
                    (v,),
                ),
        ensures
            out == self.recv,
            exists|o: Option<&T>|
                call_ensures(self.proj, (&self.recv,), o) && (o matches Some(v) ==> exists|r: R|
                    call_ensures(self.func, (v,), r)),
    {
        let Projected { mode: _, kind: _, recv, proj, func } = self;
        match proj(&recv) {
            Some(v) => {
                let r = func(v);
            },
            None => {},
        }
        recv
    }

    pub fn call1<T: ?Sized, A1, R>(self, a1: A1) -> (out: A0) where
        P: for<'b> FnOnce(&'b A0) -> Option<&'b T>,
        F: FnOnce(&T, A1) -> R,

        requires
            call_requires(self.proj, (&self.recv,)),
            forall|v: &T|
                call_ensures(self.proj, (&self.recv,), Some(v)) ==> call_requires(
                    self.func,
                    (v, a1),
                ),
        ensures
            out == self.recv,
            exists|o: Option<&T>|
                call_ensures(self.proj, (&self.recv,), o) && (o matches Some(v) ==> exists|r: R|
                    call_ensures(self.func, (v, a1), r)),
    {
        let Projected { mode: _, kind: _, recv, proj, func } = self;
        match proj(&recv) {
            Some(v) => {
                let r = func(v, a1);
            },
            None => {},
        }
        recv
    }

    pub fn call2<T: ?Sized, A1, A2, R>(self, a1: A1, a2: A2) -> (out: A0) where
        P: for<'b> FnOnce(&'b A0) -> Option<&'b T>,
        F: FnOnce(&T, A1, A2) -> R,

        requires
            call_requires(self.proj, (&self.recv,)),
            forall|v: &T|
                call_ensures(self.proj, (&self.recv,), Some(v)) ==> call_requires(
                    self.func,
                    (v, a1, a2),
                ),
        ensures
            out == self.recv,
            exists|o: Option<&T>|
                call_ensures(self.proj, (&self.recv,), o) && (o matches Some(v) ==> exists|r: R|
                    call_ensures(self.func, (v, a1, a2), r)),
    {
        let Projected { mode: _, kind: _, recv, proj, func } = self;
        match proj(&recv) {
            Some(v) => {
                let r = func(v, a1, a2);
            },
            None => {},
        }
        recv
    }

    pub fn call3<T: ?Sized, A1, A2, A3, R>(self, a1: A1, a2: A2, a3: A3) -> (out: A0) where
        P: for<'b> FnOnce(&'b A0) -> Option<&'b T>,
        F: FnOnce(&T, A1, A2, A3) -> R,

        requires
            call_requires(self.proj, (&self.recv,)),
            forall|v: &T|
                call_ensures(self.proj, (&self.recv,), Some(v)) ==> call_requires(
                    self.func,
                    (v, a1, a2, a3),
                ),
        ensures
            out == self.recv,
            exists|o: Option<&T>|
                call_ensures(self.proj, (&self.recv,), o) && (o matches Some(v) ==> exists|r: R|
                    call_ensures(self.func, (v, a1, a2, a3), r)),
    {
        let Projected { mode: _, kind: _, recv, proj, func } = self;
        match proj(&recv) {
            Some(v) => {
                let r = func(v, a1, a2, a3);
            },
            None => {},
        }
        recv
    }
}

/// Unconditional projection in state-passing style: the projection splits
/// the receiver into the part and a rebuild function; the target function
/// consumes the part and returns its updated value beside a result; the
/// result is discarded and the rebuilt receiver, carrying the updated part,
/// is returned.
impl<A0, P, F> Projected<Mut, Proj, A0, P, F> {
    pub fn call0<T, J, R>(self) -> (out: A0) where
        P: FnOnce(A0) -> (T, J),
        J: FnOnce(T) -> A0,
        F: FnOnce(T) -> (T, R),

        requires
            call_requires(self.proj, (self.recv,)),
            forall|t: T, j: J|
                call_ensures(self.proj, (self.recv,), (t, j)) ==> call_requires(self.func, (t,)),
            forall|t: T, j: J, t2: T, r: R|
                call_ensures(self.proj, (self.recv,), (t, j)) && call_ensures(
                    self.func,
                    (t,),
                    (t2, r),
                ) ==> call_requires(j, (t2,)),
        ensures
            exists|t: T, j: J, t2: T, r: R|
                call_ensures(self.proj, (self.recv,), (t, j)) && call_ensures(
                    self.func,
                    (t,),
                    (t2, r),
                ) && call_ensures(j, (t2,), out),
    {
        let Projected { mode: _, kind: _, recv, proj, func } = self;
        let (t, j) = proj(recv);
        let (t2, r) = func(t);
        j(t2)
    }

    pub fn call1<T, J, A1, R>(self, a1: A1) -> (out: A0) where
        P: FnOnce(A0) -> (T, J),
        J: FnOnce(T) -> A0,
        F: FnOnce(T, A1) -> (T, R),

        requires
            call_requires(self.proj, (self.recv,)),
            forall|t: T, j: J|
                call_ensures(self.proj, (self.recv,), (t, j)) ==> call_requires(
                    self.func,
                    (t, a1),
                ),
            forall|t: T, j: J, t2: T, r: R|
                call_ensures(self.proj, (self.recv,), (t, j)) && call_ensures(
                    self.func,
                    (t, a1),
                    (t2, r),
                ) ==> call_requires(j, (t2,)),
        ensures
            exists|t: T, j: J, t2: T, r: R|
                call_ensures(self.proj, (self.recv,), (t, j)) && call_ensures(
                    self.func,
                    (t, a1),
                    (t2, r),
                ) && call_ensures(j, (t2,), out),
    {
        let Projected { mode: _, kind: _, recv, proj, func } = self;
        let (t, j) = proj(recv);
        let (t2, r) = func(t, a1);
        j(t2)
    }

    pub fn call2<T, J, A1, A2, R>(self, a1: A1, a2: A2) -> (out: A0) where
        P: FnOnce(A0) -> (T, J),
        J: FnOnce(T) -> A0,
        F: FnOnce(T, A1, A2) -> (T, R),

        requires
            call_requires(self.proj, (self.recv,)),
            forall|t: T, j: J|
                call_ensures(self.proj, (self.recv,), (t, j)) ==> call_requires(
                    self.func,
                    (t, a1, a2),
                ),
            forall|t: T, j: J, t2: T, r: R|
                call_ensures(self.proj, (self.recv,), (t, j)) && call_ensures(
                    self.func,
                    (t, a1, a2),
                    (t2, r),
                ) ==> call_requires(j, (t2,)),
        ensures
            exists|t: T, j: J, t2: T, r: R|
                call_ensures(self.proj, (self.recv,), (t, j)) && call_ensures(
                    self.func,
                    (t, a1, a2),
                    (t2, r),
                ) && call_ensures(j, (t2,), out),
    {
        let Projected { mode: _, kind: _, recv, proj, func } = self;
        let (t, j) = proj(recv);
        let (t2, r) = func(t, a1, a2);
        j(t2)
    }

    pub fn call3<T, J, A1, A2, A3, R>(self, a1: A1, a2: A2, a3: A3) -> (out: A0) where
        P: FnOnce(A0) -> (T, J),
        J: FnOnce(T) -> A0,
        F: FnOnce(T, A1, A2, A3) -> (T, R),

        requires
            call_requires(self.proj, (self.recv,)),
            forall|t: T, j: J|
                call_ensures(self.proj, (self.recv,), (t, j)) ==> call_requires(
                    self.func,
                    (t, a1, a2, a3),
                ),
            forall|t: T, j: J, t2: T, r: R|
                call_ensures(self.proj, (self.recv,), (t, j)) && call_ensures(
                    self.func,
                    (t, a1, a2, a3),
                    (t2, r),
                ) ==> call_requires(j, (t2,)),
        ensures
            exists|t: T, j: J, t2: T, r: R|
                call_ensures(self.proj, (self.recv,), (t, j)) && call_ensures(
                    self.func,
                    (t, a1, a2, a3),
                    (t2, r),
                ) && call_ensures(j, (t2,), out),
    {
        let Projected { mode: _, kind: _, recv, proj, func } = self;
        let (t, j) = proj(recv);
        let (t2, r) = func(t, a1, a2, a3);
        j(t2)
    }
}

/// Conditional projection in state-passing style: the projection consumes
/// the receiver and yields either the part with its rebuild function, or the
/// untouched receiver when the part is absent. When present, the target
/// function updates the part and the rebuilt receiver is returned; when
/// absent, the function is skipped and the receiver comes back as the
/// projection handed it over.
impl<A0, P, F> Projected<Mut, Cond, A0, P, F> {
    pub fn call0<T, J, R>(self) -> (out: A0) where
        P: FnOnce(A0) -> Extracted<T, J, A0>,
        J: FnOnce(T) -> A0,
        F: FnOnce(T) -> (T, R),

        requires
            call_requires(self.proj, (self.recv,)),
            forall|t: T, j: J|
                call_ensures(self.proj, (self.recv,), Extracted::Present(t, j))
                    ==> call_requires(self.func, (t,)),
            forall|t: T, j: J, t2: T, r: R|
                call_ensures(self.proj, (self.recv,), Extracted::Present(t, j)) && call_ensures(
                    self.func,
                    (t,),
                    (t2, r),
                ) ==> call_requires(j, (t2,)),
        ensures
            exists|c: Extracted<T, J, A0>|
                call_ensures(self.proj, (self.recv,), c) && (match c {
                    Extracted::Absent(a) => out == a,
                    Extracted::Present(t, j) => exists|t2: T, r: R|
                        call_ensures(self.func, (t,), (t2, r)) && call_ensures(j, (t2,), out),
                }),
    {
        let Projected { mode: _, kind: _, recv, proj, func } = self;
        match proj(recv) {
            Extracted::Absent(a) => a,
            Extracted::Present(t, j) => {
                let (t2, r) = func(t);
                j(t2)
            },
        }
    }

    pub fn call1<T, J, A1, R>(self, a1: A1) -> (out: A0) where
        P: FnOnce(A0) -> Extracted<T, J, A0>,
        J: FnOnce(T) -> A0,
        F: FnOnce(T, A1) -> (T, R),

        requires
            call_requires(self.proj, (self.recv,)),
            forall|t: T, j: J|
                call_ensures(self.proj, (self.recv,), Extracted::Present(t, j))
                    ==> call_requires(self.func, (t, a1)),
            forall|t: T, j: J, t2: T, r: R|
                call_ensures(self.proj, (self.recv,), Extracted::Present(t, j)) && call_ensures(
                    self.func,
                    (t, a1),
                    (t2, r),
                ) ==> call_requires(j, (t2,)),
        ensures
            exists|c: Extracted<T, J, A0>|
                call_ensures(self.proj, (self.recv,), c) && (match c {
                    Extracted::Absent(a) => out == a,
                    Extracted::Present(t, j) => exists|t2: T, r: R|
                        call_ensures(self.func, (t, a1), (t2, r)) && call_ensures(j, (t2,), out),
                }),
    {
        let Projected { mode: _, kind: _, recv, proj, func } = self;
        match proj(recv) {
            Extracted::Absent(a) => a,
            Extracted::Present(t, j) => {
                let (t2, r) = func(t, a1);
                j(t2)
            },
        }
    }

    pub fn call2<T, J, A1, A2, R>(self, a1: A1, a2: A2) -> (out: A0) where
        P: FnOnce(A0) -> Extracted<T, J, A0>,
        J: FnOnce(T) -> A0,
        F: FnOnce(T, A1, A2) -> (T, R),

        requires
            call_requires(self.proj, (self.recv,)),
            forall|t: T, j: J|
                call_ensures(self.proj, (self.recv,), Extracted::Present(t, j))
                    ==> call_requires(self.func, (t, a1, a2)),
            forall|t: T, j: J, t2: T, r: R|
                call_ensures(self.proj, (self.recv,), Extracted::Present(t, j)) && call_ensures(
                    self.func,
                    (t, a1, a2),
                    (t2, r),
                ) ==> call_requires(j, (t2,)),
        ensures
            exists|c: Extracted<T, J, A0>|
                call_ensures(self.proj, (self.recv,), c) && (match c {
                    Extracted::Absent(a) => out == a,
                    Extracted::Present(t, j) => exists|t2: T, r: R|
                        call_ensures(self.func, (t, a1, a2), (t2, r)) && call_ensures(
                            j,
                            (t2,),
                            out,
                        ),
                }),
    {
        let Projected { mode: _, kind: _, recv, proj, func } = self;
        match proj(recv) {
            Extracted::Absent(a) => a,
            Extracted::Present(t, j) => {
                let (t2, r) = func(t, a1, a2);
                j(t2)
            },
        }
    }

    pub fn call3<T, J, A1, A2, A3, R>(self, a1: A1, a2: A2, a3: A3) -> (out: A0) where
        P: FnOnce(A0) -> Extracted<T, J, A0>,
        J: FnOnce(T) -> A0,
        F: FnOnce(T, A1, A2, A3) -> (T, R),

        requires
            call_requires(self.proj, (self.recv,)),
            forall|t: T, j: J|
                call_ensures(self.proj, (self.recv,), Extracted::Present(t, j))
                    ==> call_requires(self.func, (t, a1, a2, a3)),
            forall|t: T, j: J, t2: T, r: R|
                call_ensures(self.proj, (self.recv,), Extracted::Present(t, j)) && call_ensures(
                    self.func,
                    (t, a1, a2, a3),
                    (t2, r),
                ) ==> call_requires(j, (t2,)),
        ensures
            exists|c: Extracted<T, J, A0>|
                call_ensures(self.proj, (self.recv,), c) && (match c {
                    Extracted::Absent(a) => out == a,
                    Extracted::Present(t, j) => exists|t2: T, r: R|
                        call_ensures(self.func, (t, a1, a2, a3), (t2, r)) && call_ensures(
                            j,
                            (t2,),
                            out,
                        ),
                }),
    {
        let Projected { mode: _, kind: _, recv, proj, func } = self;
        match proj(recv) {
            Extracted::Absent(a) => a,
            Extracted::Present(t, j) => {
                let (t2, r) = func(t, a1, a2, a3);
                j(t2)
            },
        }
    }
}

} // verus!
