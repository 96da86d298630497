use vstd::prelude::*;

use crate::curried::Curried;
use crate::markers::{Cond, Imm, Mut, Own, PipeMark, TapMark};
use crate::projected::{Extracted, Projected};

verus! {

/// Law: a staged by-value transform agrees with the direct call. If `c` is
/// the applicator that `pipe` builds from `recv` and `f`, then any result of
/// `c.call1(a1)` is a result that `f` itself can produce on `(recv, a1)`.
pub proof fn law_transform<A0, A1, R, F: FnOnce(A0, A1) -> R>(
    c: Curried<Own, PipeMark, A0, F>,
    recv: A0,
    f: F,
    a1: A1,
    r: R,
)
    requires
        c.recv == recv && c.func == f,
        call_ensures(c.func, (c.recv, a1), r),
    ensures
        call_ensures(f, (recv, a1), r),
{
}

/// Law: a staged shared-reference transform agrees with the direct call, on
/// every invocation of the applicator. Each call reflects only the fixed
/// receiver and the newly supplied argument, so the applicator may be
/// invoked any number of times with different arguments.
pub proof fn law_transform_shared<A0, A1, R, F: Fn(&A0, A1) -> R>(
    c: Curried<Imm, PipeMark, A0, F>,
    recv: A0,
    f: F,
    a1: A1,
    r: R,
)
    requires
        c.recv == recv && c.func == f,
        call_ensures(c.func, (&c.recv, a1), r),
    ensures
        call_ensures(f, (&recv, a1), r),
{
}

/// Law: a staged state-passing transform agrees with the direct call: the
/// re-armed applicator holds exactly the receiver that `f` handed back, so
/// the update of one call is seen by the next.
pub proof fn law_transform_stateful<A0, A1, R, F: Fn(A0, A1) -> (A0, R)>(
    c: Curried<Mut, PipeMark, A0, F>,
    recv: A0,
    f: F,
    a1: A1,
    c2: Curried<Mut, PipeMark, A0, F>,
    r: R,
)
    requires
        c.recv == recv && c.func == f,
        c2.func == c.func,
        call_ensures(c.func, (c.recv, a1), (c2.recv, r)),
    ensures
        call_ensures(f, (recv, a1), (c2.recv, r)),
{
}

/// Law: a shared-reference tap returns the receiver it was built from,
/// observably unchanged, and some run of the target function took place on a
/// borrow of that same receiver.
pub proof fn law_tap_identity<A0, A1, R, F: FnOnce(&A0, A1) -> R>(
    c: Curried<Imm, TapMark, A0, F>,
    recv: A0,
    f: F,
    a1: A1,
    out: A0,
)
    requires
        c.recv == recv && c.func == f,
        out == c.recv,
        exists|r: R| call_ensures(c.func, (&c.recv, a1), r),
    ensures
        out == recv,
        exists|r: R| call_ensures(f, (&recv, a1), r),
{
}

/// Law: a state-passing tap returns the receiver with exactly the update
/// that the target function performed, applied exactly once: the output is
/// related to the original receiver by one run of `f`, whose own result was
/// discarded.
pub proof fn law_tap_update<A0, A1, R, F: FnOnce(A0, A1) -> (A0, R)>(
    c: Curried<Mut, TapMark, A0, F>,
    recv: A0,
    f: F,
    a1: A1,
    out: A0,
)
    requires
        c.recv == recv && c.func == f,
        exists|r: R| call_ensures(c.func, (c.recv, a1), (out, r)),
    ensures
        exists|r: R| call_ensures(f, (recv, a1), (out, r)),
{
}

/// Law: a conditional shared-reference tap whose projection can only find
/// the part absent returns the receiver unchanged; nothing is demanded of
/// the target function, which is never run.
pub proof fn law_projection_skip<A0, T, A1, R, P, F>(
    ap: Projected<Imm, Cond, A0, P, F>,
    recv: A0,
    a1: A1,
    out: A0,
) where P: for<'b> FnOnce(&'b A0) -> Option<&'b T>, F: FnOnce(&T, A1) -> R
    requires
        ap.recv == recv,
        forall|o: Option<&T>| call_ensures(ap.proj, (&ap.recv,), o) ==> o is None,
        out == ap.recv,
        exists|o: Option<&T>|
            call_ensures(ap.proj, (&ap.recv,), o) && (o matches Some(v) ==> exists|r: R|
                call_ensures(ap.func, (v, a1), r)),
    ensures
        out == recv,
{
}

/// Law: a conditional state-passing tap whose projection can only find the
/// part absent returns the receiver unchanged and never runs the target
/// function.
pub proof fn law_projection_skip_stateful<A0, T, J, A1, R, P, F>(
    ap: Projected<Mut, Cond, A0, P, F>,
    recv: A0,
    a1: A1,
    out: A0,
) where P: FnOnce(A0) -> Extracted<T, J, A0>, J: FnOnce(T) -> A0, F: FnOnce(T, A1) -> (T, R)
    requires
        ap.recv == recv,
        forall|c: Extracted<T, J, A0>|
            call_ensures(ap.proj, (ap.recv,), c) ==> c == Extracted::<T, J, A0>::Absent(ap.recv),
        exists|c: Extracted<T, J, A0>|
            call_ensures(ap.proj, (ap.recv,), c) && (match c {
                Extracted::Absent(a) => out == a,
                Extracted::Present(t, j) => exists|t2: T, r: R|
                    call_ensures(ap.func, (t, a1), (t2, r)) && call_ensures(j, (t2,), out),
            }),
    ensures
        out == recv,
{
}

/// Law: a conditional shared-reference tap whose projection always finds the
/// part `v` present returns the receiver unchanged, and the target function
/// ran exactly once, on `v` and the trailing argument.
pub proof fn law_projection_run<A0, T, A1, R, P, F>(
    ap: Projected<Imm, Cond, A0, P, F>,
    recv: A0,
    v: &T,
    a1: A1,
    out: A0,
) where P: for<'b> FnOnce(&'b A0) -> Option<&'b T>, F: FnOnce(&T, A1) -> R
    requires
        ap.recv == recv,
        forall|o: Option<&T>| call_ensures(ap.proj, (&ap.recv,), o) ==> o == Some(v),
        out == ap.recv,
        exists|o: Option<&T>|
            call_ensures(ap.proj, (&ap.recv,), o) && (o matches Some(u) ==> exists|r: R|
                call_ensures(ap.func, (u, a1), r)),
    ensures
        out == recv,
        exists|r: R| call_ensures(ap.func, (v, a1), r),
{
}

/// Law: a conditional state-passing tap whose projection always finds the
/// part `v` present, with `j` as its rebuild function, runs the target
/// function exactly once on `v` and the trailing argument, and returns the
/// receiver rebuilt around the updated part.
pub proof fn law_projection_run_stateful<A0, T, J, A1, R, P, F>(
    ap: Projected<Mut, Cond, A0, P, F>,
    recv: A0,
    v: T,
    j: J,
    a1: A1,
    out: A0,
) where P: FnOnce(A0) -> Extracted<T, J, A0>, J: FnOnce(T) -> A0, F: FnOnce(T, A1) -> (T, R)
    requires
        ap.recv == recv,
        forall|c: Extracted<T, J, A0>|
            call_ensures(ap.proj, (ap.recv,), c) ==> c == Extracted::<T, J, A0>::Present(v, j),
        exists|c: Extracted<T, J, A0>|
            call_ensures(ap.proj, (ap.recv,), c) && (match c {
                Extracted::Absent(a) => out == a,
                Extracted::Present(t, jj) => exists|t2: T, r: R|
                    call_ensures(ap.func, (t, a1), (t2, r)) && call_ensures(jj, (t2,), out),
            }),
    ensures
        exists|t2: T, r: R| call_ensures(ap.func, (v, a1), (t2, r)) && call_ensures(j, (t2,), out),
{
}

} // verus!
