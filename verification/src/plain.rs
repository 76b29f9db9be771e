//! What every error can do, and two plain errors to use as causes.
use std::fmt::Display;
use vstd::prelude::*;
use vstd::std_specs::convert::FromSpecImpl;
use vstd::string::to_string_from_display_ensures;

verus! {

/// An error that can describe itself: the least that a cause has to offer.
pub trait ErrorText {
    /// The fixed description of this sort of error.
    spec fn description_text(&self) -> Seq<char>;

    /// The text that this error is displayed as.
    spec fn display_text(&self) -> Seq<char>;

    /// A short, fixed description of this sort of error.
    fn description(&self) -> (s: &str)
        ensures
            s@ == self.description_text(),
    ;

    /// The error written out for a reader.
    fn display(&self) -> (s: String)
        ensures
            s@ == self.display_text(),
    ;
}

/// An error that is nothing but a message.
#[derive(Debug)]
pub struct StringErr(String);

impl View for StringErr {
    type V = Seq<char>;

    /// The message.
    closed spec fn view(&self) -> Seq<char> {
        self.0@
    }
}

impl StringErr {
    /// An error with the message `error`.
    #[inline]
    pub fn new(error: String) -> (e: StringErr)
        ensures
            e@ == error@,
    {
        StringErr(error)
    }

    /// An error with a copy of `error` as its message.
    #[inline]
    pub fn from_str(error: &str) -> (e: StringErr)
        ensures
            e@ == error@,
    {
        StringErr(error.to_owned())
    }
}

impl ErrorText for StringErr {
    open spec fn description_text(&self) -> Seq<char> {
        "error string"@
    }

    open spec fn display_text(&self) -> Seq<char> {
        self@
    }

    #[inline]
    fn description(&self) -> (s: &str) {
        "error string"
    }

    #[inline]
    fn display(&self) -> (s: String) {
        self.0.clone()
    }
}

impl Clone for StringErr {
    #[inline]
    fn clone(&self) -> (e: StringErr)
        ensures
            e@ == self@,
    {
        StringErr(self.0.clone())
    }
}

impl From<String> for StringErr {
    #[inline]
    fn from(error: String) -> (e: StringErr)
        ensures
            e@ == error@,
    {
        StringErr(error)
    }
}

impl FromSpecImpl<String> for StringErr {
    open spec fn obeys_from_spec() -> bool {
        true
    }

    closed spec fn from_spec(error: String) -> StringErr {
        StringErr(error)
    }
}

impl<'a> From<&'a str> for StringErr {
    #[inline]
    fn from(error: &'a str) -> (e: StringErr)
        ensures
            e@ == error@,
    {
        StringErr::from_str(error)
    }
}

impl<'a> FromSpecImpl<&'a str> for StringErr {
    open spec fn obeys_from_spec() -> bool {
        false
    }

    closed spec fn from_spec(error: &'a str) -> StringErr {
        arbitrary()
    }
}

/// An error made of any value that can be displayed. The value is written
/// out once, when the error is made, and the error displays as that text.
#[derive(Debug)]
pub struct ValueErr<E>(E, String) where E: Send + Display + 'static;

impl<E> ValueErr<E> where E: Send + Display + 'static {
    /// The value that the error was made of.
    pub closed spec fn value(&self) -> E {
        self.0
    }

    /// The text that the value was written out as.
    pub closed spec fn rendered(&self) -> String {
        self.1
    }

    /// An error that holds `error` and displays as `error` does.
    pub fn new(error: E) -> (e: ValueErr<E>)
        ensures
            e.value() == error,
            to_string_from_display_ensures::<E>(&error, e.rendered()),
    {
        let msg = error.to_string();
        ValueErr(error, msg)
    }
}

impl<E> ErrorText for ValueErr<E> where E: Send + Display + 'static {
    open spec fn description_text(&self) -> Seq<char> {
        "error value"@
    }

    open spec fn display_text(&self) -> Seq<char> {
        self.rendered()@
    }

    #[inline]
    fn description(&self) -> (s: &str) {
        "error value"
    }

    #[inline]
    fn display(&self) -> (s: String) {
        self.1.clone()
    }
}

impl<E> From<E> for ValueErr<E> where E: Send + Display + 'static {
    #[inline]
    fn from(error: E) -> (e: ValueErr<E>)
        ensures
            e.value() == error,
            to_string_from_display_ensures::<E>(&error, e.rendered()),
    {
        ValueErr::new(error)
    }
}

impl<E> FromSpecImpl<E> for ValueErr<E> where E: Send + Display + 'static {
    open spec fn obeys_from_spec() -> bool {
        false
    }

    closed spec fn from_spec(error: E) -> ValueErr<E> {
        arbitrary()
    }
}

impl<E> Clone for ValueErr<E> where E: Send + Clone + Display + 'static {
    #[inline]
    fn clone(&self) -> (e: ValueErr<E>)
        ensures
            cloned(self.value(), e.value()),
            e.rendered() == self.rendered(),
    {
        ValueErr(self.0.clone(), self.1.clone())
    }
}

} // verus!
