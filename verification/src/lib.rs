//! Type-directed synthesis of aggregation expressions.
//!
//! Given the declared type of a field and a designated target parameter, the
//! walker derives, for one capability at a time, an expression that
//! aggregates over every nested occurrence of the parameter: the fewest and
//! the most occurrences that a value can hold, the occurrences that a live
//! value holds, and the sequences that yield them by shared reference, by
//! exclusive reference or by value.
//!
//! - [`types`] holds the type expressions that are walked.
//! - [`generated`] holds the accessors and the expressions that are
//!   generated, and the refusals.
//! - [`catalog`] holds the capabilities.
//! - [`walker`] holds the traversal of one type expression.
//! - [`driver`] applies the traversal to the fields of a record and to the
//!   variants of a tagged type.
//! - [`bounds`] says what a generated minimum or maximum amounts to.
//! - [`live`] says what a generated count or sequence amounts to on a live
//!   value.
//! - [`laws`] proves what holds of every derivation.
pub mod bounds;
pub mod catalog;
pub mod driver;
pub mod generated;
pub mod laws;
pub mod live;
pub mod types;
pub mod walker;
