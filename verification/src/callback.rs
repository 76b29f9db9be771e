//! The helpers for operations that end by calling someone back.
//!
//! Such an operation owns a callback that takes its `Result`. It calls the
//! callback once, with the value or with the failure, and is then over. A
//! helper here that finds a failure calls the callback with it and gives
//! nothing back; one that finds a value gives it back together with the
//! callback, which has not been called yet.
use crate::detailed::DetailedError;
use crate::detailed::DetailedFromError;
use crate::detailed::Record;
use vstd::prelude::*;

verus! {

/// Ends the operation well: calls `func` with `value`.
pub fn f_ok<T, E, F>(func: F, value: T) where F: FnOnce(Result<T, E>)
    requires
        call_requires(func, (Ok::<T, E>(value),)),
    ensures
        call_ensures(func, (Ok::<T, E>(value),), ()),
{
    func(Ok(value))
}

/// Ends the operation with a fresh error, made at `file`:`line`: calls `func`
/// with it.
pub fn f_err<T, D, F>(
    func: F,
    kind: D::Kind,
    cause: Option<D::Cause>,
    desc: String,
    file: &'static str,
    line: u32,
) where D: DetailedError, F: FnOnce(Result<T, D>)
    requires
        forall|e: D|
            #[trigger] e.record() == (Record {
                kind,
                cause,
                message: desc@,
                trace: seq![(file, line)],
            }) ==> call_requires(func, (Err::<T, D>(e),)),
    ensures
        exists|e: D|
            #[trigger] e.record() == (Record {
                kind,
                cause,
                message: desc@,
                trace: seq![(file, line)],
            }) && call_ensures(func, (Err::<T, D>(e),), ()),
{
    let e = D::new(kind, cause, desc, file, line);
    func(Err(e))
}

/// Takes the value out of `result`, or ends the operation with its error,
/// handed on at `file`:`line`.
///
/// A success gives the value and the callback back, and the callback has
/// not been called. A failure is handed on as `D` makes it, `func` is
/// called with it, and nothing comes back.
pub fn f_attempt<T, U, E, D, F>(
    func: F,
    result: Result<T, E>,
    detail: Option<String>,
    file: &'static str,
    line: u32,
) -> (out: Option<(T, F)>) where D: DetailedFromError<E>, F: FnOnce(Result<U, D>)
    requires
        result matches Err(e) ==> forall|handed: D| #[trigger]
            D::wrapped(e, detail, file, line, handed) ==> call_requires(
                func,
                (Err::<U, D>(handed),),
            ),
    ensures
        match result {
            Ok(value) => out == Some((value, func)),
            Err(e) => out is None && exists|handed: D| #[trigger]
                D::wrapped(e, detail, file, line, handed) && call_ensures(
                    func,
                    (Err::<U, D>(handed),),
                    (),
                ),
        },
{
    match result {
        Ok(value) => Some((value, func)),
        Err(e) => {
            let handed = D::from_error(e, detail, file, line);
            func(Err(handed));
            None
        },
    }
}

/// What [`f_attempt_err`] calls the callback with: a fresh error of the
/// given parts, made of `e`.
pub open spec fn made_of<E, D, KF>(
    made: D,
    e: E,
    kind_fn: KF,
    desc: Seq<char>,
    file: &'static str,
    line: u32,
) -> bool where D: DetailedError<Cause = E>, KF: FnOnce(&E) -> D::Kind {
    &&& call_ensures(kind_fn, (&e,), made.record().kind)
    &&& made.record().cause == Some(e)
    &&& made.record().message == desc
    &&& made.record().trace == seq![(file, line)]
}

/// Takes the value out of `result`, or ends the operation with a new error
/// made of its error.
///
/// A success gives the value and the callback back; neither `kind_fn` nor
/// `func` has been called. On a failure `func` is called with a fresh error
/// made at `file`:`line`, whose kind is what `kind_fn` makes of the error,
/// whose cause is that error and whose message is `desc`; nothing comes
/// back.
pub fn f_attempt_err<T, U, E, D, KF, F>(
    func: F,
    result: Result<T, E>,
    kind_fn: KF,
    desc: String,
    file: &'static str,
    line: u32,
) -> (out: Option<(T, F)>) where
    D: DetailedError<Cause = E>,
    KF: FnOnce(&E) -> D::Kind,
    F: FnOnce(Result<U, D>),

    requires
        result matches Err(e) ==> call_requires(kind_fn, (&e,)) && forall|made: D| #[trigger]
            made_of(made, e, kind_fn, desc@, file, line) ==> call_requires(
                func,
                (Err::<U, D>(made),),
            ),
    ensures
        match result {
            Ok(value) => out == Some((value, func)),
            Err(e) => out is None && exists|made: D| #[trigger]
                made_of(made, e, kind_fn, desc@, file, line) && call_ensures(
                    func,
                    (Err::<U, D>(made),),
                    (),
                ),
        },
{
    match result {
        Ok(value) => Some((value, func)),
        Err(e) => {
            let kind = kind_fn(&e);
            let made = D::new(kind, Some(e), desc, file, line);
            assert(made_of(made, e, kind_fn, desc@, file, line));
            func(Err(made));
            None
        },
    }
}

/// What [`f_attempt_err_with`] calls the callback with: a fresh error of the
/// given parts, whose cause was made of `e`.
pub open spec fn made_with<E, D, KF, CF>(
    made: D,
    e: E,
    kind_fn: KF,
    cause_fn: CF,
    desc: Seq<char>,
    file: &'static str,
    line: u32,
) -> bool where D: DetailedError, KF: FnOnce(&E) -> D::Kind, CF: FnOnce(E) -> D::Cause {
    &&& call_ensures(kind_fn, (&e,), made.record().kind)
    &&& made.record().cause matches Some(inner) && call_ensures(cause_fn, (e,), inner)
    &&& made.record().message == desc
    &&& made.record().trace == seq![(file, line)]
}

/// Takes the value out of `result`, or ends the operation with a new error
/// made of its error, with a cause of the caller's making.
///
/// As [`f_attempt_err`], but the cause of the new error is what `cause_fn`
/// makes of the error.
pub fn f_attempt_err_with<T, U, E, D, KF, CF, F>(
    func: F,
    result: Result<T, E>,
    kind_fn: KF,
    cause_fn: CF,
    desc: String,
    file: &'static str,
    line: u32,
) -> (out: Option<(T, F)>) where
    D: DetailedError,
    KF: FnOnce(&E) -> D::Kind,
    CF: FnOnce(E) -> D::Cause,
    F: FnOnce(Result<U, D>),

    requires
        result matches Err(e) ==> call_requires(kind_fn, (&e,)) && call_requires(cause_fn, (e,))
            && forall|made: D| #[trigger]
            made_with(made, e, kind_fn, cause_fn, desc@, file, line) ==> call_requires(
                func,
                (Err::<U, D>(made),),
            ),
    ensures
        match result {
            Ok(value) => out == Some((value, func)),
            Err(e) => out is None && exists|made: D| #[trigger]
                made_with(made, e, kind_fn, cause_fn, desc@, file, line) && call_ensures(
                    func,
                    (Err::<U, D>(made),),
                    (),
                ),
        },
{
    match result {
        Ok(value) => Some((value, func)),
        Err(e) => {
            let kind = kind_fn(&e);
            let inner = cause_fn(e);
            let made = D::new(kind, Some(inner), desc, file, line);
            assert(made_with(made, e, kind_fn, cause_fn, desc@, file, line));
            func(Err(made));
            None
        },
    }
}

} // verus!
