use epitaph::attempt::err;
use epitaph::callback::{f_attempt, f_attempt_err, f_attempt_err_with, f_err, f_ok};
use epitaph::{Described, Detailed, DetailedError, ErrorText, StringErr};
use std::cell::RefCell;

#[derive(Clone, PartialEq, Eq, Debug)]
enum Kind {
    KindA,
    KindB,
}

impl Described for Kind {
    const DESCRIPTION: &'static str = "Layer Error";
}

type Error = Detailed<Kind, StringErr>;

#[test]
fn a_success_calls_the_callback_once_with_the_value() {
    let seen: RefCell<Vec<Result<i32, Error>>> = RefCell::new(Vec::new());
    f_ok(|r: Result<i32, Error>| seen.borrow_mut().push(r), 5);
    let seen = seen.into_inner();
    assert_eq!(seen.len(), 1);
    assert_eq!(seen[0].as_ref().ok(), Some(&5));
}

#[test]
fn a_fresh_failure_calls_the_callback_once_with_the_error() {
    let seen: RefCell<Vec<Result<i32, Error>>> = RefCell::new(Vec::new());
    f_err(
        |r: Result<i32, Error>| seen.borrow_mut().push(r),
        Kind::KindB,
        Some(StringErr::from_str("why")),
        "stop".to_owned(),
        "f.rs",
        3,
    );
    let mut seen = seen.into_inner();
    assert_eq!(seen.len(), 1);
    let e = seen.pop().unwrap().unwrap_err();
    assert_eq!(e.kind(), &Kind::KindB);
    assert_eq!(e.message(), "stop");
    assert_eq!(e.trace(), &[("f.rs", 3)]);
    assert_eq!(e.cause().map(|c| c.display()), Some("why".to_owned()));
}

#[test]
fn f_attempt_gives_value_and_callback_back_uncalled() {
    let seen: RefCell<Vec<Result<u8, Error>>> = RefCell::new(Vec::new());
    let out = f_attempt(
        |r: Result<u8, Error>| seen.borrow_mut().push(r),
        Ok::<i32, Error>(5),
        None,
        "f.rs",
        1,
    );
    let (value, func) = out.unwrap();
    assert_eq!(value, 5);
    assert_eq!(seen.borrow().len(), 0);
    func(Ok(1));
    assert_eq!(seen.borrow().len(), 1);
}

#[test]
fn f_attempt_calls_back_once_with_the_failure_handed_on() {
    let seen: RefCell<Vec<Result<u8, Error>>> = RefCell::new(Vec::new());
    let failed: Result<i32, Error> = err(Kind::KindA, None, "stop".to_owned(), "e.rs", 9);
    let out = f_attempt(
        |r: Result<u8, Error>| seen.borrow_mut().push(r),
        failed,
        Some("Description".to_owned()),
        "f.rs",
        1,
    );
    assert!(out.is_none());
    let mut seen = seen.into_inner();
    assert_eq!(seen.len(), 1);
    let e = seen.pop().unwrap().unwrap_err();
    assert_eq!(e.trace(), &[("e.rs", 9), ("f.rs", 1)]);
    assert_eq!(e.message(), "stop");
    assert_eq!(e.kind(), &Kind::KindA);
}

#[test]
fn f_attempt_err_with_detail_and_argument_calls_back_with_one_place() {
    let seen: RefCell<Vec<Result<i32, Error>>> = RefCell::new(Vec::new());
    let out = f_attempt_err(
        |r: Result<i32, Error>| seen.borrow_mut().push(r),
        Err::<i32, StringErr>(StringErr::from_str("inner error")),
        |_| Kind::KindA,
        format!("Description with arg {}", 5),
        "f.rs",
        45,
    );
    assert!(out.is_none());
    let mut seen = seen.into_inner();
    assert_eq!(seen.len(), 1);
    let e = seen.pop().unwrap().unwrap_err();
    assert_eq!(e.message(), "Description with arg 5");
    assert_eq!(e.trace().len(), 1);
    assert_eq!(e.trace(), &[("f.rs", 45)]);
    assert_eq!(e.kind(), &Kind::KindA);
    assert_eq!(e.cause().map(|c| c.display()), Some("inner error".to_owned()));
}

#[test]
fn f_attempt_err_gives_value_and_callback_back_uncalled() {
    let seen: RefCell<Vec<Result<i32, Error>>> = RefCell::new(Vec::new());
    let out = f_attempt_err(
        |r: Result<i32, Error>| seen.borrow_mut().push(r),
        Ok::<&str, StringErr>("fine"),
        |_| Kind::KindA,
        "Description".to_owned(),
        "f.rs",
        44,
    );
    let (value, _func) = out.unwrap();
    assert_eq!(value, "fine");
    assert_eq!(seen.borrow().len(), 0);
}

#[test]
fn f_attempt_err_with_calls_back_with_the_mapped_cause() {
    let seen: RefCell<Vec<Result<i32, Error>>> = RefCell::new(Vec::new());
    let failed: Result<i32, Error> = err(Kind::KindA, None, "stop".to_owned(), "e.rs", 9);
    let out = f_attempt_err_with(
        |r: Result<i32, Error>| seen.borrow_mut().push(r),
        failed,
        |_| Kind::KindB,
        |_| StringErr::from_str("inner error"),
        "Description".to_owned(),
        "f.rs",
        46,
    );
    assert!(out.is_none());
    let mut seen = seen.into_inner();
    assert_eq!(seen.len(), 1);
    let e = seen.pop().unwrap().unwrap_err();
    assert_eq!(e.kind(), &Kind::KindB);
    assert_eq!(e.message(), "Description");
    assert_eq!(e.trace(), &[("f.rs", 46)]);
    assert_eq!(e.cause().map(|c| c.display()), Some("inner error".to_owned()));
}

#[test]
fn f_attempt_err_with_gives_value_and_callback_back_uncalled() {
    let seen: RefCell<Vec<Result<i32, Error>>> = RefCell::new(Vec::new());
    let out = f_attempt_err_with(
        |r: Result<i32, Error>| seen.borrow_mut().push(r),
        Ok::<i32, Error>(5),
        |_| Kind::KindB,
        |_| StringErr::from_str("inner error"),
        "Description".to_owned(),
        "f.rs",
        46,
    );
    let (value, _func) = out.unwrap();
    assert_eq!(value, 5);
    assert_eq!(seen.borrow().len(), 0);
}
