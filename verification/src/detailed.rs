//! The detailed error: kind, cause, message and trace.
use crate::plain::ErrorText;
use crate::text::decimal;
use crate::text::decimal_string;
use vstd::prelude::*;
use vstd::string::StringExecFns;

verus! {

/// A kind type names the family of errors that it classifies: every error of
/// that kind type is described by the same fixed words.
pub trait Described {
    /// The description shared by all errors of this family.
    const DESCRIPTION: &'static str;
}

/// What a detailed error holds.
///
/// `trace` runs from the place where the error was made to the place that
/// handed it on last.
pub struct Record<K, C> {
    pub kind: K,
    pub cause: Option<C>,
    pub message: Seq<char>,
    pub trace: Seq<(&'static str, u32)>,
}

/// An error with a kind, an optional cause, a message and a trace.
pub trait DetailedError: ErrorText + Sized {
    /// The classification of the error.
    type Kind;

    /// The errors that can have caused this one.
    type Cause: ErrorText + Send + Sync;

    /// What the error holds.
    spec fn record(&self) -> Record<Self::Kind, Self::Cause>;

    /// A fresh error, made at `file`:`line`. Any kind and any message are
    /// taken as they are. The trace of the new error is that one place.
    fn new(
        kind: Self::Kind,
        cause: Option<Self::Cause>,
        desc: String,
        file: &'static str,
        line: u32,
    ) -> (e: Self)
        ensures
            e.record() == (Record { kind, cause, message: desc@, trace: seq![(file, line)] }),
            e.record().trace.len() >= 1,
    ;

    /// The classification of the error.
    fn kind(&self) -> (k: &Self::Kind)
        ensures
            *k == self.record().kind,
    ;

    /// The error that caused this one, if there is one.
    fn cause(&self) -> (c: Option<&Self::Cause>)
        ensures
            match c {
                Some(inner) => self.record().cause == Some(*inner),
                None => self.record().cause is None,
            },
    ;

    /// The places that the error passed, oldest first. It is never empty.
    fn trace(&self) -> (t: &[(&'static str, u32)])
        ensures
            t@ == self.record().trace,
            t@.len() >= 1,
    ;
}

/// An error that can be made of an `E` on its way up, at a given place.
pub trait DetailedFromError<E>: Sized {
    /// Whether `out` is what `cause` becomes when it is handed on at
    /// `file`:`line` with the detail `msg`.
    spec fn wrapped(cause: E, msg: Option<String>, file: &'static str, line: u32, out: Self) -> bool;

    /// Hands `cause` on at `file`:`line`.
    fn from_error(cause: E, msg: Option<String>, file: &'static str, line: u32) -> (out: Self)
        ensures
            Self::wrapped(cause, msg, file, line, out),
    ;
}

/// The line that stands for one place of a trace.
pub open spec fn trace_line(entry: (&'static str, u32)) -> Seq<char> {
    "    @ "@ + entry.0@ + ":"@ + decimal(entry.1 as nat) + "\n"@
}

/// The lines of a trace, the latest place first.
pub open spec fn trace_text(trace: Seq<(&'static str, u32)>) -> Seq<char> {
    trace.reverse().map_values(|entry: (&'static str, u32)| trace_line(entry)).flatten()
}

/// The text of what was caused by `cause`: that of the cause, or nothing.
pub open spec fn cause_text<C: ErrorText>(cause: Option<C>) -> Seq<char> {
    match cause {
        Some(inner) => inner.display_text(),
        None => Seq::empty(),
    }
}

/// A detailed error written out: the description and the message on one
/// line, one line for each place of the trace from the latest to the oldest,
/// and then the cause as it displays itself.
pub open spec fn formatted<K, C: ErrorText>(description: Seq<char>, record: Record<K, C>) -> Seq<
    char,
> {
    description + ": "@ + record.message + "\n"@ + trace_text(record.trace) + cause_text(
        record.cause,
    )
}

/// The lines of a trace end with the line of its oldest place.
pub proof fn lemma_trace_text_oldest_last(trace: Seq<(&'static str, u32)>)
    requires
        trace.len() > 0,
    ensures
        trace_text(trace) == trace_text(trace.drop_first()) + trace_line(trace.first()),
{
    let line = |entry: (&'static str, u32)| trace_line(entry);
    let rest = trace.drop_first().reverse().map_values(line);
    assert(trace.reverse().map_values(line) =~= rest.push(trace_line(trace.first())));
    rest.lemma_flatten_push(trace_line(trace.first()));
}

/// The generic detailed error: one type for every kind type `K` and every
/// type of cause `C`.
#[derive(Debug)]
pub struct Detailed<K, C> {
    kind: K,
    cause: Option<C>,
    msg: String,
    trace: Vec<(&'static str, u32)>,
}

impl<K, C> View for Detailed<K, C> {
    type V = Record<K, C>;

    closed spec fn view(&self) -> Record<K, C> {
        Record { kind: self.kind, cause: self.cause, message: self.msg@, trace: self.trace@ }
    }
}

impl<K, C> Detailed<K, C> {
    /// Every error has been somewhere.
    #[verifier::type_invariant]
    spec fn has_origin(&self) -> bool {
        self.trace@.len() >= 1
    }

    /// The message that the error was made with.
    #[inline]
    pub fn message(&self) -> (m: &str)
        ensures
            m@ == self@.message,
    {
        self.msg.as_str()
    }
}

impl<K: Described, C: ErrorText + Send + Sync> ErrorText for Detailed<K, C> {
    open spec fn description_text(&self) -> Seq<char> {
        K::DESCRIPTION@
    }

    open spec fn display_text(&self) -> Seq<char> {
        formatted(K::DESCRIPTION@, self@)
    }

    #[inline]
    fn description(&self) -> (s: &str) {
        K::DESCRIPTION
    }

    fn display(&self) -> (s: String) {
        let mut out = String::from_str(K::DESCRIPTION);
        out.append(": ");
        out.append(self.msg.as_str());
        out.append("\n");
        let ghost head = out@;
        let count = self.trace.len();
        let mut i: usize = count;
        assert(self.trace@.subrange(count as int, count as int) =~= Seq::empty());
        assert(trace_text(Seq::empty()) =~= Seq::empty());
        while i > 0
            invariant
                i <= count,
                count == self.trace@.len(),
                out@ == head + trace_text(self.trace@.subrange(i as int, count as int)),
            decreases i,
        {
            i = i - 1;
            let (file, line) = self.trace[i];
            let number = decimal_string(line);
            proof {
                let later = self.trace@.subrange(i as int + 1, count as int);
                let now = self.trace@.subrange(i as int, count as int);
                assert(now.drop_first() =~= later);
                lemma_trace_text_oldest_last(now);
            }
            out.append("    @ ");
            out.append(file);
            out.append(":");
            out.append(number.as_str());
            out.append("\n");
            assert(out@ =~= head + trace_text(self.trace@.subrange(i as int, count as int)));
        }
        assert(self.trace@.subrange(0, count as int) =~= self.trace@);
        match &self.cause {
            Some(inner) => {
                let below = inner.display();
                out.append(below.as_str());
            },
            None => {
                assert(out@ + Seq::<char>::empty() =~= out@);
            },
        }
        assert(out@ =~= formatted(K::DESCRIPTION@, self@));
        out
    }
}

impl<K: Described, C: ErrorText + Send + Sync> DetailedError for Detailed<K, C> {
    type Kind = K;

    type Cause = C;

    open spec fn record(&self) -> Record<K, C> {
        self@
    }

    #[inline]
    fn new(kind: K, cause: Option<C>, desc: String, file: &'static str, line: u32) -> (e: Self) {
        let mut trace = Vec::new();
        trace.push((file, line));
        Detailed { kind, cause, msg: desc, trace }
    }

    #[inline]
    fn kind(&self) -> (k: &K) {
        &self.kind
    }

    #[inline]
    fn cause(&self) -> (c: Option<&C>) {
        self.cause.as_ref()
    }

    #[inline]
    fn trace(&self) -> (t: &[(&'static str, u32)]) {
        proof {
            use_type_invariant(self);
        }
        self.trace.as_slice()
    }
}

impl<K, C> DetailedFromError<Detailed<K, C>> for Detailed<K, C> {
    /// An error that is handed on keeps its kind, its cause and its message,
    /// whatever detail comes with it. Its trace grows by the new place.
    open spec fn wrapped(
        cause: Detailed<K, C>,
        msg: Option<String>,
        file: &'static str,
        line: u32,
        out: Detailed<K, C>,
    ) -> bool {
        out@ == (Record { trace: cause@.trace.push((file, line)), ..cause@ })
    }

    fn from_error(cause: Detailed<K, C>, msg: Option<String>, file: &'static str, line: u32) -> (out:
        Detailed<K, C>) {
        let Detailed { kind, cause: inner, msg: text, mut trace } = cause;
        trace.push((file, line));
        Detailed { kind, cause: inner, msg: text, trace }
    }
}

} // verus!
