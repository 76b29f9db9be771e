//! Richly annotated error values.
//!
//! An error of this crate carries a classification (its kind), an optional
//! underlying cause, a message, and a trace: the source locations it passed
//! while it was handed up the call stack. The helpers in [`attempt`] and
//! [`callback`] inspect a `Result`, annotate a failure with one more location
//! and hand it on; [`foreign`] makes detailed errors of errors of another
//! sort; [`laws`] states what holds of every detailed error.
pub mod attempt;
pub mod callback;
pub mod detailed;
pub mod foreign;
pub mod laws;
pub mod plain;
pub mod text;

pub use detailed::Described;
pub use detailed::Detailed;
pub use detailed::DetailedError;
pub use detailed::DetailedFromError;
pub use detailed::Record;
pub use plain::ErrorText;
pub use plain::StringErr;
pub use plain::ValueErr;
