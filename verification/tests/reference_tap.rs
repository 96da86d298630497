use pipei::{Extracted, TapWith};

fn log_val(_v: &i32) {}

fn log_str(_s: &str) {}

fn check_ref(v: &&i32) {
    assert_eq!(**v, 500);
}

#[test]
fn test_ref_tap_some() {
    let opt = Some(42);
    let _ = (&opt).tap_cond(|x: &&Option<i32>| x.as_ref(), log_val).call0();
    assert_eq!(opt, Some(42));
}

#[test]
fn test_ref_tap_ok() {
    let res: Result<i32, &str> = Ok(100);
    let _ = (&res)
        .tap_cond(|x: &&Result<i32, &str>| x.as_ref().ok(), log_val)
        .call0();
    assert_eq!(res, Ok(100));
}

#[test]
fn test_ref_tap_err() {
    let res: Result<i32, &str> = Err("fail")
        .tap_cond(|x: &Result<i32, &str>| x.err(), log_str)
        .call0();
    assert_eq!(res.err(), Some("fail"));
    assert_eq!(res, Err("fail"));
}

#[test]
fn test_mut_ref_tap_some() {
    let val = Some(5);
    let val = val
        .tap_cond_mut(
            |x: Option<i32>| match x {
                Some(v) => Extracted::Present(v, Some),
                None => Extracted::Absent(None),
            },
            |v: i32| (v + 10, ()),
        )
        .call0();
    assert_eq!(val, Some(15));
}

#[test]
fn test_ref_tap_dbg_style() {
    let value = 500;

    let _ = (&value).tap_cond(|x: &&i32| Some(x), check_ref).call0();

    assert_eq!(value, 500);
}
