//! Looking at a `Result` and handing a failure on.
//!
//! Each helper returns what the caller is to go on with: the value, or the
//! error that the caller returns in its turn.
use crate::detailed::DetailedError;
use crate::detailed::DetailedFromError;
use crate::detailed::Record;
use vstd::prelude::*;

verus! {

/// The failure to return where an operation finds that it cannot go on: a
/// fresh error, made at `file`:`line`.
pub fn err<T, D: DetailedError>(
    kind: D::Kind,
    cause: Option<D::Cause>,
    desc: String,
    file: &'static str,
    line: u32,
) -> (out: Result<T, D>)
    ensures
        out matches Err(e) && e.record() == (Record {
            kind,
            cause,
            message: desc@,
            trace: seq![(file, line)],
        }),
{
    Err(D::new(kind, cause, desc, file, line))
}

/// Takes the value out of `result`, or hands its error on at `file`:`line`.
///
/// A success comes back as it is. A failure comes back as the error that
/// `D` makes of it at that place, with `detail`.
pub fn attempt<T, E, D: DetailedFromError<E>>(
    result: Result<T, E>,
    detail: Option<String>,
    file: &'static str,
    line: u32,
) -> (out: Result<T, D>)
    ensures
        match result {
            Ok(value) => out == Ok::<T, D>(value),
            Err(e) => out matches Err(handed) && D::wrapped(e, detail, file, line, handed),
        },
{
    match result {
        Ok(value) => Ok(value),
        Err(e) => Err(D::from_error(e, detail, file, line)),
    }
}

/// Takes the value out of `result`, or makes a new error of its error.
///
/// A success comes back as it is, and `kind_fn` is not called. A failure
/// comes back as a fresh error made at `file`:`line`: its kind is what
/// `kind_fn` makes of the error, its cause is that error, its message is
/// `desc`.
pub fn attempt_err<T, E, D, KF>(
    result: Result<T, E>,
    kind_fn: KF,
    desc: String,
    file: &'static str,
    line: u32,
) -> (out: Result<T, D>) where D: DetailedError<Cause = E>, KF: FnOnce(&E) -> D::Kind
    requires
        result matches Err(e) ==> call_requires(kind_fn, (&e,)),
    ensures
        match result {
            Ok(value) => out == Ok::<T, D>(value),
            Err(e) => out matches Err(made) && call_ensures(kind_fn, (&e,), made.record().kind)
                && made.record().cause == Some(e) && made.record().message == desc@
                && made.record().trace == seq![(file, line)],
        },
{
    match result {
        Ok(value) => Ok(value),
        Err(e) => {
            let kind = kind_fn(&e);
            Err(D::new(kind, Some(e), desc, file, line))
        },
    }
}

/// Takes the value out of `result`, or makes a new error of its error, with
/// a cause of the caller's making.
///
/// As [`attempt_err`], but the cause of the new error is what `cause_fn`
/// makes of the error. The kind is taken first, from the error as it came.
pub fn attempt_err_with<T, E, D, KF, CF>(
    result: Result<T, E>,
    kind_fn: KF,
    cause_fn: CF,
    desc: String,
    file: &'static str,
    line: u32,
) -> (out: Result<T, D>) where
    D: DetailedError,
    KF: FnOnce(&E) -> D::Kind,
    CF: FnOnce(E) -> D::Cause,

    requires
        result matches Err(e) ==> call_requires(kind_fn, (&e,)) && call_requires(cause_fn, (e,)),
    ensures
        match result {
            Ok(value) => out == Ok::<T, D>(value),
            Err(e) => out matches Err(made) && call_ensures(kind_fn, (&e,), made.record().kind)
                && (made.record().cause matches Some(inner) && call_ensures(cause_fn, (e,), inner))
                && made.record().message == desc@ && made.record().trace == seq![(file, line)],
        },
{
    match result {
        Ok(value) => Ok(value),
        Err(e) => {
            let kind = kind_fn(&e);
            let inner = cause_fn(e);
            Err(D::new(kind, Some(inner), desc, file, line))
        },
    }
}

} // verus!
