use epitaph::attempt::{attempt, err};
use epitaph::{Described, Detailed, DetailedError, DetailedFromError, ErrorText, StringErr};

#[allow(dead_code)]
#[derive(Clone, PartialEq, Eq, Debug)]
enum Kind {
    KindA,
    KindB,
}

impl Described for Kind {
    const DESCRIPTION: &'static str = "Layer Error";
}

#[derive(Clone, PartialEq, Eq, Debug)]
enum Outer {
    Wrapped,
}

impl Described for Outer {
    const DESCRIPTION: &'static str = "Outer Error";
}

type Error = Detailed<Kind, StringErr>;

#[test]
fn a_fresh_error_has_been_in_one_place() {
    let e = Error::new(Kind::KindA, None, "went wrong".to_owned(), "c.rs", 10);
    assert_eq!(e.trace().len(), 1);
    assert_eq!(e.trace(), &[("c.rs", 10)]);
}

#[test]
fn a_fresh_error_holds_what_it_was_made_with() {
    let cause = StringErr::from_str("below");
    let e = Error::new(Kind::KindB, Some(cause), "went wrong".to_owned(), "c.rs", 10);
    assert_eq!(e.kind(), &Kind::KindB);
    assert_eq!(e.message(), "went wrong");
    assert_eq!(e.cause().map(|c| c.display()), Some("below".to_owned()));
    assert_eq!(e.description(), "Layer Error");
}

#[test]
fn a_fresh_error_may_have_no_cause_and_an_empty_message() {
    let e = Error::new(Kind::KindA, None, String::new(), "", 0);
    assert!(e.cause().is_none());
    assert_eq!(e.message(), "");
    assert_eq!(e.trace(), &[("", 0)]);
    assert_eq!(e.display(), "Layer Error: \n    @ :0\n");
}

#[test]
fn handing_on_adds_one_place_and_changes_nothing_else() {
    let cause = StringErr::from_str("below");
    let e = Error::new(Kind::KindB, Some(cause), "went wrong".to_owned(), "c.rs", 10);
    let e = Error::from_error(e, None, "b.rs", 20);
    assert_eq!(e.trace(), &[("c.rs", 10), ("b.rs", 20)]);
    assert_eq!(e.kind(), &Kind::KindB);
    assert_eq!(e.message(), "went wrong");
    assert_eq!(e.cause().map(|c| c.display()), Some("below".to_owned()));
}

#[test]
fn handing_on_the_same_sort_of_error_drops_the_detail() {
    let e = Error::new(Kind::KindA, None, "went wrong".to_owned(), "c.rs", 10);
    let e = Error::from_error(e, Some("more words".to_owned()), "b.rs", 20);
    assert_eq!(e.message(), "went wrong");
    assert_eq!(e.trace().len(), 2);
    assert_eq!(e.display(), "Layer Error: went wrong\n    @ b.rs:20\n    @ c.rs:10\n");
}

fn layer_c() -> Result<(), Error> {
    err(Kind::KindA, None, "no luck".to_owned(), "c.rs", 10)
}

fn layer_b() -> Result<(), Error> {
    attempt(layer_c(), None, "b.rs", 20)?;
    Ok(())
}

fn layer_a() -> Result<(), Error> {
    attempt(layer_b(), None, "a.rs", 30)?;
    Ok(())
}

#[test]
fn three_layers_leave_three_places_oldest_first() {
    let e = layer_a().unwrap_err();
    assert_eq!(e.trace(), &[("c.rs", 10), ("b.rs", 20), ("a.rs", 30)]);
    assert_eq!(e.kind(), &Kind::KindA);
}

#[test]
fn three_layers_are_written_out_latest_first() {
    let e = layer_a().unwrap_err();
    let text = e.display();
    assert_eq!(text, "Layer Error: no luck\n    @ a.rs:30\n    @ b.rs:20\n    @ c.rs:10\n");
    let at_30 = text.find("    @ a.rs:30\n").unwrap();
    let at_20 = text.find("    @ b.rs:20\n").unwrap();
    let at_10 = text.find("    @ c.rs:10\n").unwrap();
    assert!(at_30 < at_20);
    assert!(at_20 < at_10);
}

#[test]
fn the_cause_is_written_below_the_trace() {
    let cause = StringErr::from_str("file not found");
    let e = Error::new(Kind::KindA, Some(cause), "cannot load".to_owned(), "load.rs", 7);
    assert_eq!(e.display(), "Layer Error: cannot load\n    @ load.rs:7\nfile not found");
}

#[test]
fn a_detailed_cause_is_written_out_in_full() {
    let root = StringErr::from_str("root");
    let inner = Error::new(Kind::KindB, Some(root), "inner".to_owned(), "in.rs", 1);
    let inner = Error::from_error(inner, None, "in.rs", 2);
    let outer: Detailed<Outer, Error> =
        Detailed::new(Outer::Wrapped, Some(inner), "outer".to_owned(), "out.rs", 3);
    assert_eq!(
        outer.display(),
        "Outer Error: outer\n    @ out.rs:3\nLayer Error: inner\n    @ in.rs:2\n    @ in.rs:1\nroot"
    );
    assert_eq!(outer.description(), "Outer Error");
    assert_eq!(outer.cause().unwrap().description(), "Layer Error");
}

#[test]
fn writing_an_error_out_twice_gives_the_same_text() {
    let e = layer_a().unwrap_err();
    let once = e.display();
    let again = e.display();
    assert_eq!(once, again);
    assert_eq!(e.trace().len(), 3);
}

#[test]
fn a_long_line_number_is_written_in_full() {
    let e = Error::new(Kind::KindA, None, "m".to_owned(), "f.rs", u32::MAX);
    assert_eq!(e.display(), "Layer Error: m\n    @ f.rs:4294967295\n");
}
