//! The one error type shared by parsing and conversion.

use vstd::prelude::*;

verus! {

/// The physical kind of a quantity.
#[derive(Clone, Copy, Debug, PartialEq, Eq, Structural)]
pub enum Quantity {
    Length,
    Time,
    Energy,
}

/// The operand that stands in the denominator of a conversion formula.
#[derive(Clone, Copy, Debug, PartialEq, Eq, Structural)]
pub enum Operand {
    Time,
    Energy,
}

/// What went wrong while parsing inputs or converting between quantities.
#[derive(Clone, Debug, PartialEq, Eq)]
pub enum ConversionError {
    /// A value token did not parse as a 32-bit float; holds the token.
    InvalidNumber(String),
    /// A unit token matched no unit of the given kind; holds the token as it
    /// was given, untrimmed and uncased.
    UnsupportedUnit(Quantity, String),
    /// The denominator of the conversion formula was zero.
    DivisionByZero(Operand),
}

/// The human-readable message for an error.
pub open spec fn message_of(e: ConversionError) -> Seq<char> {
    match e {
        ConversionError::InvalidNumber(t) => "Invalid number: "@ + t@,
        ConversionError::UnsupportedUnit(Quantity::Length, t) => "Unsupported length unit: "@ + t@,
        ConversionError::UnsupportedUnit(Quantity::Time, t) => "Unsupported time unit: "@ + t@,
        ConversionError::UnsupportedUnit(Quantity::Energy, t) => "Unsupported energy unit: "@ + t@,
        ConversionError::DivisionByZero(Operand::Time) => "Division by zero: the time of flight is zero"@,
        ConversionError::DivisionByZero(Operand::Energy) => "Division by zero: the energy is zero"@,
    }
}

/// Whether `e` reports the unit token `text` as unknown for quantities of kind `q`.
pub open spec fn is_unsupported(e: ConversionError, q: Quantity, text: Seq<char>) -> bool {
    &&& e matches ConversionError::UnsupportedUnit(k, t)
    &&& k == q
    &&& t@ == text
}

impl ConversionError {
    /// The human-readable message for this error.
    pub fn message(&self) -> (r: String)
        ensures
            r@ == message_of(*self),
    {
        match self {
            ConversionError::InvalidNumber(t) => String::from_str("Invalid number: ").concat(
                t.as_str(),
            ),
            ConversionError::UnsupportedUnit(Quantity::Length, t) => String::from_str(
                "Unsupported length unit: ",
            ).concat(t.as_str()),
            ConversionError::UnsupportedUnit(Quantity::Time, t) => String::from_str(
                "Unsupported time unit: ",
            ).concat(t.as_str()),
            ConversionError::UnsupportedUnit(Quantity::Energy, t) => String::from_str(
                "Unsupported energy unit: ",
            ).concat(t.as_str()),
            ConversionError::DivisionByZero(Operand::Time) => String::from_str(
                "Division by zero: the time of flight is zero",
            ),
            ConversionError::DivisionByZero(Operand::Energy) => String::from_str(
                "Division by zero: the energy is zero",
            ),
        }
    }
}

} // verus!
