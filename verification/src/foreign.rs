//! Errors of another sort as causes: how a detailed error is made of one.
use crate::detailed::DetailedError;
use crate::detailed::Record;
use crate::plain::ValueErr;
use std::fmt::Display;
use vstd::prelude::*;
use vstd::string::to_string_from_display_ensures;
use vstd::string::StringExecFns;

verus! {

/// The file named in the trace of an error that was converted where no place
/// was at hand.
pub const UNKNOWN_FILE: &'static str = "<unknown>";

/// The line that goes with [`UNKNOWN_FILE`].
pub const UNKNOWN_LINE: u32 = 0;

/// The message of an error that was made of a foreign one: the description
/// alone, or the description, a colon, a blank and the detail.
pub open spec fn detailed_message(description: Seq<char>, detail: Option<String>) -> Seq<char> {
    match detail {
        Some(words) => description + ": "@ + words@,
        None => description,
    }
}

/// Writes the message of an error that is made of a foreign one.
pub fn message(description: &str, detail: Option<String>) -> (m: String)
    ensures
        m@ == detailed_message(description@, detail),
{
    let mut m = String::from_str(description);
    match detail {
        Some(words) => {
            m.append(": ");
            m.append(words.as_str());
        },
        None => {},
    }
    m
}

/// Makes a detailed error of a foreign one at `file`:`line`.
///
/// The kind is what `kind_fn` makes of the foreign error, the cause is the
/// foreign error itself, the message is `description` with the detail, if
/// there is one, and the trace is the one place.
pub fn wrap_foreign<D, E, KF>(
    foreign: E,
    kind_fn: KF,
    description: &str,
    detail: Option<String>,
    file: &'static str,
    line: u32,
) -> (out: D) where D: DetailedError<Cause = E>, KF: FnOnce(&E) -> D::Kind
    requires
        call_requires(kind_fn, (&foreign,)),
    ensures
        call_ensures(kind_fn, (&foreign,), out.record().kind),
        out.record().cause == Some(foreign),
        out.record().message == detailed_message(description@, detail),
        out.record().trace == seq![(file, line)],
{
    let kind = kind_fn(&foreign);
    let text = message(description, detail);
    D::new(kind, Some(foreign), text, file, line)
}

/// Makes a detailed error of a foreign one at `file`:`line`, with a cause of
/// the caller's making.
///
/// As [`wrap_foreign`], but the cause is what `cause_fn` makes of the foreign
/// error. The kind is taken first, from the foreign error as it came.
pub fn wrap_foreign_with<D, E, KF, CF>(
    foreign: E,
    kind_fn: KF,
    cause_fn: CF,
    description: &str,
    detail: Option<String>,
    file: &'static str,
    line: u32,
) -> (out: D) where D: DetailedError, KF: FnOnce(&E) -> D::Kind, CF: FnOnce(E) -> D::Cause
    requires
        call_requires(kind_fn, (&foreign,)),
        call_requires(cause_fn, (foreign,)),
    ensures
        call_ensures(kind_fn, (&foreign,), out.record().kind),
        out.record().cause matches Some(inner) && call_ensures(cause_fn, (foreign,), inner),
        out.record().message == detailed_message(description@, detail),
        out.record().trace == seq![(file, line)],
{
    let kind = kind_fn(&foreign);
    let inner = cause_fn(foreign);
    let text = message(description, detail);
    D::new(kind, Some(inner), text, file, line)
}

/// Makes a detailed error of any value that can be displayed.
///
/// As [`wrap_foreign`], but the cause is a [`ValueErr`] that holds the value.
pub fn wrap_value<D, E, KF>(
    foreign: E,
    kind_fn: KF,
    description: &str,
    detail: Option<String>,
    file: &'static str,
    line: u32,
) -> (out: D) where
    E: Send + Sync + Display + 'static,
    D: DetailedError<Cause = ValueErr<E>>,
    KF: FnOnce(&E) -> D::Kind,

    requires
        call_requires(kind_fn, (&foreign,)),
    ensures
        call_ensures(kind_fn, (&foreign,), out.record().kind),
        out.record().cause matches Some(inner) && inner.value() == foreign
            && to_string_from_display_ensures::<E>(&foreign, inner.rendered()),
        out.record().message == detailed_message(description@, detail),
        out.record().trace == seq![(file, line)],
{
    let kind = kind_fn(&foreign);
    let inner = ValueErr::new(foreign);
    let text = message(description, detail);
    D::new(kind, Some(inner), text, file, line)
}

/// Makes a detailed error of a foreign one where no place is at hand: the
/// trace names [`UNKNOWN_FILE`] and [`UNKNOWN_LINE`], and the message is the
/// description alone.
pub fn convert_foreign<D, E, KF>(foreign: E, kind_fn: KF, description: &str) -> (out: D) where
    D: DetailedError<Cause = E>,
    KF: FnOnce(&E) -> D::Kind,

    requires
        call_requires(kind_fn, (&foreign,)),
    ensures
        call_ensures(kind_fn, (&foreign,), out.record().kind),
        out.record().cause == Some(foreign),
        out.record().message == description@,
        out.record().trace == seq![(UNKNOWN_FILE, UNKNOWN_LINE)],
{
    wrap_foreign(foreign, kind_fn, description, None, UNKNOWN_FILE, UNKNOWN_LINE)
}

/// Makes a detailed error of a displayable value where no place is at hand.
///
/// As [`convert_foreign`], but the cause is a [`ValueErr`] that holds the
/// value.
pub fn convert_value<D, E, KF>(foreign: E, kind_fn: KF, description: &str) -> (out: D) where
    E: Send + Sync + Display + 'static,
    D: DetailedError<Cause = ValueErr<E>>,
    KF: FnOnce(&E) -> D::Kind,

    requires
        call_requires(kind_fn, (&foreign,)),
    ensures
        call_ensures(kind_fn, (&foreign,), out.record().kind),
        out.record().cause matches Some(inner) && inner.value() == foreign
            && to_string_from_display_ensures::<E>(&foreign, inner.rendered()),
        out.record().message == description@,
        out.record().trace == seq![(UNKNOWN_FILE, UNKNOWN_LINE)],
{
    wrap_value(foreign, kind_fn, description, None, UNKNOWN_FILE, UNKNOWN_LINE)
}

/// Makes a detailed error of the failure of an operation that was given up
/// before it produced anything, at `file`:`line`.
///
/// As [`wrap_foreign`], but the kind does not depend on the failure: it is
/// `aborted_kind`.
pub fn wrap_aborted<D, E>(
    failure: E,
    aborted_kind: D::Kind,
    aborted_desc: &str,
    detail: Option<String>,
    file: &'static str,
    line: u32,
) -> (out: D) where D: DetailedError<Cause = E>
    ensures
        out.record() == (Record {
            kind: aborted_kind,
            cause: Some(failure),
            message: detailed_message(aborted_desc@, detail),
            trace: seq![(file, line)],
        }),
{
    let text = message(aborted_desc, detail);
    D::new(aborted_kind, Some(failure), text, file, line)
}

/// The detailed error that stands for an operation that was given up, where
/// neither a place nor the failure itself is at hand: it has no cause, and
/// its trace names [`UNKNOWN_FILE`] and [`UNKNOWN_LINE`].
pub fn convert_aborted<D: DetailedError>(aborted_kind: D::Kind, aborted_desc: &str) -> (out: D)
    ensures
        out.record() == (Record {
            kind: aborted_kind,
            cause: None::<D::Cause>,
            message: aborted_desc@,
            trace: seq![(UNKNOWN_FILE, UNKNOWN_LINE)],
        }),
{
    D::new(aborted_kind, None, String::from_str(aborted_desc), UNKNOWN_FILE, UNKNOWN_LINE)
}

} // verus!
