//! The items of a format, and the ways in which rendering fails.
//!
//! A format is a sequence of `chrono::format::Item`s, as
//! `chrono::format::StrftimeItems` reads them from a pattern.
use chrono::format::{Fixed, InternalFixed, InternalNumeric, Item, Numeric, Pad};
use vstd::prelude::*;

verus! {

/// `chrono::format::Pad`: how a numeric field is padded to its width.
#[verifier::external_type_specification]
pub struct ExPad(Pad);

/// `chrono::format::InternalNumeric`: what a reserved numeric field holds.
#[verifier::external_type_specification]
#[verifier::external_body]
pub struct ExInternalNumeric(InternalNumeric);

/// `chrono::format::InternalFixed`: what a reserved textual field holds.
#[verifier::external_type_specification]
#[verifier::external_body]
pub struct ExInternalFixed(InternalFixed);

/// `chrono::format::Numeric`: the fields that are rendered as numbers.
#[verifier::external_type_specification]
pub struct ExNumeric(Numeric);

/// `chrono::format::Fixed`: the fields that are rendered as text.
#[verifier::external_type_specification]
pub struct ExFixed(Fixed);

/// `chrono::format::Item`: one item of a format.
#[verifier::external_type_specification]
pub struct ExItem<'a>(Item<'a>);

/// Why a format could not be rendered.
#[derive(Clone, Copy, Debug, PartialEq, Eq, Structural)]
pub enum FormatError {
    /// An item needs a date, a time or an offset that was not given.
    MissingArgument,
    /// The format holds the mark of an error.
    MalformedDirective,
    /// The format holds an item that is not rendered.
    UnsupportedDirective,
}

} // verus!
