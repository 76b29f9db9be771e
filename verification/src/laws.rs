//! What holds of every detailed error, stated over its record and its text.
use crate::detailed::formatted;
use crate::detailed::lemma_trace_text_oldest_last;
use crate::detailed::trace_line;
use crate::detailed::trace_text;
use crate::detailed::Detailed;
use crate::detailed::DetailedFromError;
use crate::detailed::Record;
use crate::plain::ErrorText;
use vstd::prelude::*;

verus! {

/// The words before the trace in a detailed error that is written out.
pub open spec fn heading<K, C>(description: Seq<char>, record: Record<K, C>) -> Seq<char> {
    description + ": "@ + record.message + "\n"@
}

/// Where in the lines of `trace` the line of its place `i` begins: behind the
/// lines of all the places that came later.
pub open spec fn line_start(trace: Seq<(&'static str, u32)>, i: int) -> int {
    trace_text(trace.subrange(i + 1, trace.len() as int)).len() as int
}

/// Where that line ends.
pub open spec fn line_end(trace: Seq<(&'static str, u32)>, i: int) -> int {
    line_start(trace, i) + trace_line(trace[i]).len()
}

/// A trace of no place has no lines.
pub proof fn lemma_trace_text_empty()
    ensures
        trace_text(Seq::empty()) == Seq::<char>::empty(),
{
    let line = |entry: (&'static str, u32)| trace_line(entry);
    assert(Seq::<(&'static str, u32)>::empty().reverse().map_values(line) =~= Seq::empty());
}

/// The lines of two traces in a row are the lines of the later one and then
/// the lines of the earlier one.
pub proof fn lemma_trace_text_concat(
    earlier: Seq<(&'static str, u32)>,
    later: Seq<(&'static str, u32)>,
)
    ensures
        trace_text(earlier + later) == trace_text(later) + trace_text(earlier),
    decreases earlier.len(),
{
    if earlier.len() == 0 {
        lemma_trace_text_empty();
        assert(earlier + later =~= later);
        assert(earlier =~= Seq::empty());
        assert(trace_text(later) + Seq::<char>::empty() =~= trace_text(later));
    } else {
        let whole = earlier + later;
        assert(whole.drop_first() =~= earlier.drop_first() + later);
        lemma_trace_text_oldest_last(whole);
        lemma_trace_text_concat(earlier.drop_first(), later);
        lemma_trace_text_oldest_last(earlier);
        assert(trace_text(whole) =~= trace_text(later) + trace_text(earlier));
    }
}

/// The one line of a trace of one place.
pub proof fn lemma_trace_text_single(entry: (&'static str, u32))
    ensures
        trace_text(seq![entry]) == trace_line(entry),
{
    lemma_trace_text_empty();
    lemma_trace_text_oldest_last(seq![entry]);
    assert(seq![entry].drop_first() =~= Seq::empty());
    assert(Seq::<char>::empty() + trace_line(entry) =~= trace_line(entry));
}

/// No line of a trace is empty.
pub proof fn lemma_trace_line_not_empty(entry: (&'static str, u32))
    ensures
        trace_line(entry).len() > 0,
{
    reveal_strlit("\n");
}

/// An error that is handed on grows by exactly the new place: the trace is
/// one longer and ends with that place, the places before it stay as they
/// were and in their order, and kind, cause and message are untouched,
/// whatever detail was given.
pub proof fn law_handing_on_keeps_history<K, C>(
    before: Detailed<K, C>,
    detail: Option<String>,
    file: &'static str,
    line: u32,
    after: Detailed<K, C>,
)
    requires
        <Detailed<K, C> as DetailedFromError<Detailed<K, C>>>::wrapped(
            before,
            detail,
            file,
            line,
            after,
        ),
    ensures
        after@.trace.len() == before@.trace.len() + 1,
        after@.trace.last() == (file, line),
        forall|i: int| 0 <= i < before@.trace.len() ==> after@.trace[i] == before@.trace[i],
        after@.kind == before@.kind,
        after@.cause == before@.cause,
        after@.message == before@.message,
{
}

/// Handing an error on puts one line on top of its trace as it is written
/// out, and changes nothing else of the text.
pub proof fn law_handing_on_adds_top_line<K, C: ErrorText>(
    description: Seq<char>,
    record: Record<K, C>,
    place: (&'static str, u32),
)
    ensures
        formatted(description, Record { trace: record.trace.push(place), ..record }) == heading(
            description,
            record,
        ) + trace_line(place) + trace_text(record.trace) + crate::detailed::cause_text(
            record.cause,
        ),
{
    assert(record.trace.push(place) =~= record.trace + seq![place]);
    lemma_trace_text_concat(record.trace, seq![place]);
    lemma_trace_text_single(place);
    let after = Record { trace: record.trace.push(place), ..record };
    assert(formatted(description, after) =~= heading(description, record) + trace_line(place)
        + trace_text(record.trace) + crate::detailed::cause_text(record.cause));
}

/// A trace is written out backwards: of two places, the line of the later
/// one stands before the line of the earlier one, and each line stands whole
/// at its start.
pub proof fn law_later_place_stands_first(trace: Seq<(&'static str, u32)>, i: int, j: int)
    requires
        0 <= i < j < trace.len(),
    ensures
        0 <= line_start(trace, j) < line_end(trace, j) <= line_start(trace, i) < line_end(trace, i)
            <= trace_text(trace).len(),
        trace_text(trace).subrange(line_start(trace, j), line_end(trace, j)) == trace_line(
            trace[j],
        ),
        trace_text(trace).subrange(line_start(trace, i), line_end(trace, i)) == trace_line(
            trace[i],
        ),
{
    let n = trace.len() as int;
    lemma_line_stands_at_start(trace, i);
    lemma_line_stands_at_start(trace, j);
    // The places after `i` are those up to `j`, then `j`, then those after `j`.
    let after_i = trace.subrange(i + 1, n);
    let between = trace.subrange(i + 1, j);
    let after_j = trace.subrange(j + 1, n);
    assert(after_i =~= between + (seq![trace[j]] + after_j));
    lemma_trace_text_concat(between, seq![trace[j]] + after_j);
    lemma_trace_text_concat(seq![trace[j]], after_j);
    lemma_trace_text_single(trace[j]);
}

/// The line of place `i` stands whole at its start in the lines of the trace.
pub proof fn lemma_line_stands_at_start(trace: Seq<(&'static str, u32)>, i: int)
    requires
        0 <= i < trace.len(),
    ensures
        0 <= line_start(trace, i) < line_end(trace, i) <= trace_text(trace).len(),
        trace_text(trace).subrange(line_start(trace, i), line_end(trace, i)) == trace_line(
            trace[i],
        ),
{
    let n = trace.len() as int;
    let before = trace.subrange(0, i);
    let after = trace.subrange(i + 1, n);
    assert(trace =~= before + (seq![trace[i]] + after));
    lemma_trace_text_concat(before, seq![trace[i]] + after);
    lemma_trace_text_concat(seq![trace[i]], after);
    lemma_trace_text_single(trace[i]);
    let text = trace_text(after) + trace_line(trace[i]) + trace_text(before);
    assert(trace_text(trace) =~= text);
    lemma_trace_line_not_empty(trace[i]);
    assert(text.subrange(line_start(trace, i), line_end(trace, i)) =~= trace_line(trace[i]));
}

/// Three places are written out the last one first.
pub proof fn law_three_places_backwards(
    first: (&'static str, u32),
    second: (&'static str, u32),
    third: (&'static str, u32),
)
    ensures
        trace_text(seq![first, second, third]) == trace_line(third) + trace_line(second)
            + trace_line(first),
{
    assert(seq![first, second, third] =~= seq![first] + (seq![second] + seq![third]));
    lemma_trace_text_concat(seq![first], seq![second] + seq![third]);
    lemma_trace_text_concat(seq![second], seq![third]);
    lemma_trace_text_single(first);
    lemma_trace_text_single(second);
    lemma_trace_text_single(third);
}

/// Reading does not wear an error out: whenever an error is displayed, the
/// text is the same.
pub proof fn law_display_repeats<T: ErrorText>(error: &T, once: String, again: String)
    requires
        call_ensures(T::display, (error,), once),
        call_ensures(T::display, (error,), again),
    ensures
        once@ == again@,
        once@ == error.display_text(),
{
}

} // verus!
