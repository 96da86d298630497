use pipei::{Extracted, TapWith};

struct Counter {
    count: i32,
}

struct Wrapper {
    inner: Counter,
}

fn increment(c: Counter) -> (Counter, ()) {
    (Counter { count: c.count + 1 }, ())
}

fn add_ten(val: i32) -> (i32, ()) {
    (val + 10, ())
}

#[test]
fn tap_cond_mutate_struct() {
    let wrapper = Wrapper {
        inner: Counter { count: 0 },
    };

    let res = wrapper
        .tap_cond_mut(
            |w: Wrapper| Extracted::Present(w.inner, |c: Counter| Wrapper { inner: c }),
            increment,
        )
        .call0();

    assert_eq!(res.inner.count, 1);
}

#[test]
fn tap_proj_mutate_struct() {
    let wrapper = Wrapper {
        inner: Counter { count: 0 },
    };

    let res = wrapper
        .tap_proj_mut(
            |w: Wrapper| (w.inner, |c: Counter| Wrapper { inner: c }),
            increment,
        )
        .call0();

    assert_eq!(res.inner.count, 1);
}

#[test]
fn tap_cond_mutate_primitive_field() {
    let counter = Counter { count: 5 };

    let res = counter
        .tap_cond_mut(
            |c: Counter| Extracted::Present(c.count, |v: i32| Counter { count: v }),
            add_ten,
        )
        .call0();

    assert_eq!(res.count, 15);
}

#[test]
fn tap_proj_mutate_primitive_field() {
    let counter = Counter { count: 5 };

    let res = counter
        .tap_proj_mut(
            |c: Counter| (c.count, |v: i32| Counter { count: v }),
            add_ten,
        )
        .call0();

    assert_eq!(res.count, 15);
}

#[test]
fn tap_cond_conditional_mutation() {
    let value = 100;

    let res = value
        .tap_cond_mut(
            |v: i32| {
                if v > 50 {
                    Extracted::Present(v, |x: i32| x)
                } else {
                    Extracted::Absent(v)
                }
            },
            add_ten,
        )
        .call0();

    assert_eq!(res, 110);
}

#[test]
fn tap_cond_owned_to_mut_projection() {
    let counter = Counter { count: 0 };

    let res = counter
        .tap_cond_mut(
            |c: Counter| Extracted::Present(c.count, |v: i32| Counter { count: v }),
            add_ten,
        )
        .call0();

    assert_eq!(res.count, 10);
}

#[test]
fn tap_proj_owned_to_mut_projection() {
    let counter = Counter { count: 0 };

    let res = counter
        .tap_proj_mut(
            |c: Counter| (c.count, |v: i32| Counter { count: v }),
            add_ten,
        )
        .call0();

    assert_eq!(res.count, 10);
}
