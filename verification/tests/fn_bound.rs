use pipei::{Extracted, Pipe, Tap, TapWith};

struct Token<'a> {
    dropped: &'a mut bool,
    n: i32,
}

impl<'a> Drop for Token<'a> {
    fn drop(&mut self) {
        *self.dropped = true;
    }
}

#[derive(Clone, Copy)]
struct Buf<const N: usize> {
    data: [i32; N],
    len: usize,
}

impl<const N: usize> Buf<N> {
    fn new() -> Self {
        Self {
            data: [0; N],
            len: 0,
        }
    }

    fn push(&mut self, x: i32) {
        self.data[self.len] = x;
        self.len += 1;
    }
}

fn add(x: &i32, y: i32) -> i32 {
    *x + y
}

fn mul(x: &i32, y: i32) -> i32 {
    *x * y
}

fn increment_and_get(x: i32) -> (i32, i32) {
    (x + 1, x + 1)
}

fn push(mut v: Buf<4>, x: i32) -> (Buf<4>, ()) {
    v.push(x);
    (v, ())
}

fn sum(v: [i32; 3]) -> i32 {
    v[0] + v[1] + v[2]
}

fn double(x: i32) -> (i32, ()) {
    (x * 2, ())
}

fn add_n(v: i32, n: i32) -> (i32, ()) {
    (v + n, ())
}

#[derive(Debug)]
struct Request<'a> {
    _url: &'a str,
    attempts: u32,
}

fn track_retry(count: u32) -> (u32, ()) {
    (count + 1, ())
}

fn log_trace<T: core::fmt::Debug>(_val: &T, _label: &str) { /* ... */
}

#[test]
fn pipe_imm_closure_is_reusable() {
    let add_ten = 10.pipe_shared(add);
    assert_eq!(add_ten.call1(1), 11);
    assert_eq!(add_ten.call1(2), 12);
    assert_eq!(add_ten.call1(3), 13);
}

#[test]
fn pipe_imm_closure_works_in_map() {
    let double = 2.pipe_shared(mul);
    assert_eq!([1, 2, 3].map(|x| double.call1(x)), [2, 4, 6]);
}

#[test]
fn pipe_mut_closure_is_fnmut() {
    let counter = 0.pipe_mut(increment_and_get);
    let (counter, r) = counter.call0();
    assert_eq!(r, 1);
    let (counter, r) = counter.call0();
    assert_eq!(r, 2);
    let (_counter, r) = counter.call0();
    assert_eq!(r, 3);
}

#[test]
fn pipe_mut_mutates_captured_copy_not_original() {
    let mut original = Buf::<4>::new();
    original.push(1);
    let appender = original.pipe_mut(push);
    let (appender, _) = appender.call1(2);
    let (_appender, _) = appender.call1(3);
}

#[test]
fn pipe_own_consumes_value() {
    let result = [1, 2, 3].pipe(sum).call0();
    assert_eq!(result, 6);
}

#[test]
fn tap_imm_accepts_fnonce_closure() {
    let mut dropped = false;
    let tok = Token {
        dropped: &mut dropped,
        n: 0,
    };
    let result = 42
        .tap(|_x: &i32| {
            drop(tok);
        })
        .call0();
    assert_eq!(result, 42);
    assert!(dropped);
}

#[test]
fn tap_mut_accepts_fnonce_closure() {
    let mut dropped = false;
    let tok = Token {
        dropped: &mut dropped,
        n: 5,
    };
    let result = 10
        .tap_mut(move |x: i32| {
            let n = tok.n;
            drop(tok);
            (x + n, ())
        })
        .call0();
    assert_eq!(result, 15);
    assert!(dropped);
}

#[test]
fn tap_mut_still_works_with_fn() {
    let result = 5.tap_mut(double).call0();
    assert_eq!(result, 10);
}

#[test]
fn tap_cond_none_does_not_run_side_effect() {
    let mut ran = false;
    let none: Option<i32> = None;
    let result = none
        .tap_cond(|x: &Option<i32>| x.as_ref(), {
            let f = |_v: &i32| ran = true;
            f
        })
        .call0();
    assert_eq!(result, None);
    assert!(!ran);
}

#[test]
fn tap_cond_some_does_run_side_effect() {
    let mut ran = false;
    let some = Some(7);
    let result = some
        .tap_cond(|x: &Option<i32>| x.as_ref(), {
            let f = |_v: &i32| ran = true;
            f
        })
        .call0();
    assert_eq!(result, Some(7));
    assert!(ran);
}

#[test]
fn tap_cond_mut_none_skips_mutation() {
    let mut ran = false;
    let val = 3;
    let result = val
        .tap_cond_mut(
            |x: i32| {
                if x > 100 {
                    Extracted::Present(x, |v: i32| v)
                } else {
                    Extracted::Absent(x)
                }
            },
            {
                let f = |v: i32| {
                    ran = true;
                    (v, ())
                };
                f
            },
        )
        .call0();
    assert_eq!(result, 3);
    assert!(!ran);
}

#[test]
fn tap_cond_mut_accepts_fnonce_projection_and_effect() {
    let mut dropped = false;
    let tok = Token {
        dropped: &mut dropped,
        n: 0,
    };
    let result = Some(10)
        .tap_cond_mut(
            move |x: Option<i32>| {
                let _ = tok.n;
                drop(tok);
                match x {
                    Some(v) => Extracted::Present(v, Some),
                    None => Extracted::Absent(None),
                }
            },
            {
                let f = |v: i32| (v + 1, ());
                f
            },
        )
        .call0();
    assert_eq!(result, Some(11));
    assert!(dropped);
}

#[test]
fn tap_cond_mut_extra_args() {
    let result = 10
        .tap_cond_mut(
            |x: i32| {
                if x >= 0 {
                    Extracted::Present(x, |v: i32| v)
                } else {
                    Extracted::Absent(x)
                }
            },
            {
                let f = add_n;
                f
            },
        )
        .call1(5);
    assert_eq!(result, 15);
}

#[test]
fn test_readme_proj() {
    let req = Request {
        _url: "https://pipei.rs",
        attempts: 3,
    };

    let req = req
        .tap_proj_mut(
            |r: Request<'static>| {
                let url = r._url;
                (r.attempts, move |a: u32| Request { _url: url, attempts: a })
            },
            track_retry,
        )
        .call0();

    assert_eq!(req.attempts, 4);

    let res = Err::<(), u32>(503)
        .tap_cond(|x: &Result<(), u32>| x.as_ref().err(), log_trace)
        .call1("request failed");

    assert_eq!(res.unwrap_err(), 503);

    let req = req.tap_cond(|r: &Request| Some(r), log_trace).call1("FINAL");

    assert_eq!(req.attempts, 4);
}
