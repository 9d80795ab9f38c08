//! The unit vocabulary of each quantity kind, and the resolution of a unit
//! token against it.

use vstd::prelude::*;

use crate::error::{is_unsupported, ConversionError, Quantity};
use crate::text::{all_white_space, key_of, lemma_trimmed_ignores_padding, same_text, unit_key};

verus! {

/// A unit of length.
#[derive(Clone, Copy, Debug, PartialEq, Eq, Structural)]
pub enum LengthUnit {
    Centimeter,
    Meter,
    Kilometer,
}

/// A unit of time.
#[derive(Clone, Copy, Debug, PartialEq, Eq, Structural)]
pub enum TimeUnit {
    Nanosecond,
    Microsecond,
    Millisecond,
    Second,
}

/// A unit of energy.
#[derive(Clone, Copy, Debug, PartialEq, Eq, Structural)]
pub enum EnergyUnit {
    Electronvolt,
    Kiloelectronvolt,
    Megaelectronvolt,
    Gigaelectronvolt,
    Joule,
}

/// The length unit that a lookup key names, if any.
pub open spec fn length_unit_named(k: Seq<char>) -> Option<LengthUnit> {
    if k == "cm"@ || k == "centimeter"@ || k == "centimeters"@ {
        Some(LengthUnit::Centimeter)
    } else if k == "m"@ || k == "meter"@ || k == "meters"@ {
        Some(LengthUnit::Meter)
    } else if k == "km"@ || k == "kilometer"@ || k == "kilometers"@ {
        Some(LengthUnit::Kilometer)
    } else {
        None
    }
}

/// The time unit that a lookup key names, if any.
pub open spec fn time_unit_named(k: Seq<char>) -> Option<TimeUnit> {
    if k == "ns"@ || k == "nanosecond"@ || k == "nanoseconds"@ {
        Some(TimeUnit::Nanosecond)
    } else if k == "mus"@ || k == "us"@ || k == "microsecond"@ || k == "microseconds"@ {
        Some(TimeUnit::Microsecond)
    } else if k == "ms"@ || k == "millisecond"@ || k == "milliseconds"@ {
        Some(TimeUnit::Millisecond)
    } else if k == "s"@ || k == "second"@ || k == "seconds"@ {
        Some(TimeUnit::Second)
    } else {
        None
    }
}

/// The energy unit that a lookup key names, if any.
pub open spec fn energy_unit_named(k: Seq<char>) -> Option<EnergyUnit> {
    if k == "ev"@ || k == "electronvolt"@ || k == "electronvolts"@ {
        Some(EnergyUnit::Electronvolt)
    } else if k == "kev"@ || k == "kiloelectronvolt"@ || k == "kiloelectronvolts"@ {
        Some(EnergyUnit::Kiloelectronvolt)
    } else if k == "mev"@ || k == "megaelectronvolt"@ || k == "megaelectronvolts"@ {
        Some(EnergyUnit::Megaelectronvolt)
    } else if k == "gev"@ || k == "gigaelectronvolt"@ || k == "gigaelectronvolts"@ {
        Some(EnergyUnit::Gigaelectronvolt)
    } else if k == "j"@ || k == "joule"@ || k == "joules"@ {
        Some(EnergyUnit::Joule)
    } else {
        None
    }
}

/// Whether `r` is what resolving the unit token `text` of kind `q` gives, when
/// its lookup key names `named`: that unit, or else an error that keeps the
/// token as given.
pub open spec fn resolves_to<U>(
    r: Result<U, ConversionError>,
    named: Option<U>,
    q: Quantity,
    text: Seq<char>,
) -> bool {
    match named {
        Some(u) => r == Ok::<U, ConversionError>(u),
        None => r matches Err(e) && is_unsupported(e, q, text),
    }
}

/// Looks up an already folded key in the length vocabulary.
pub fn length_unit_from_key(key: &str) -> (r: Option<LengthUnit>)
    ensures
        r == length_unit_named(key@),
{
    if same_text(key, "cm") || same_text(key, "centimeter") || same_text(key, "centimeters") {
        Some(LengthUnit::Centimeter)
    } else if same_text(key, "m") || same_text(key, "meter") || same_text(key, "meters") {
        Some(LengthUnit::Meter)
    } else if same_text(key, "km") || same_text(key, "kilometer") || same_text(key, "kilometers") {
        Some(LengthUnit::Kilometer)
    } else {
        None
    }
}

/// Looks up an already folded key in the time vocabulary.
pub fn time_unit_from_key(key: &str) -> (r: Option<TimeUnit>)
    ensures
        r == time_unit_named(key@),
{
    if same_text(key, "ns") || same_text(key, "nanosecond") || same_text(key, "nanoseconds") {
        Some(TimeUnit::Nanosecond)
    } else if same_text(key, "mus") || same_text(key, "us") || same_text(key, "microsecond")
        || same_text(key, "microseconds") {
        Some(TimeUnit::Microsecond)
    } else if same_text(key, "ms") || same_text(key, "millisecond") || same_text(
        key,
        "milliseconds",
    ) {
        Some(TimeUnit::Millisecond)
    } else if same_text(key, "s") || same_text(key, "second") || same_text(key, "seconds") {
        Some(TimeUnit::Second)
    } else {
        None
    }
}

/// Looks up an already folded key in the energy vocabulary.
pub fn energy_unit_from_key(key: &str) -> (r: Option<EnergyUnit>)
    ensures
        r == energy_unit_named(key@),
{
    if same_text(key, "ev") || same_text(key, "electronvolt") || same_text(key, "electronvolts") {
        Some(EnergyUnit::Electronvolt)
    } else if same_text(key, "kev") || same_text(key, "kiloelectronvolt") || same_text(
        key,
        "kiloelectronvolts",
    ) {
        Some(EnergyUnit::Kiloelectronvolt)
    } else if same_text(key, "mev") || same_text(key, "megaelectronvolt") || same_text(
        key,
        "megaelectronvolts",
    ) {
        Some(EnergyUnit::Megaelectronvolt)
    } else if same_text(key, "gev") || same_text(key, "gigaelectronvolt") || same_text(
        key,
        "gigaelectronvolts",
    ) {
        Some(EnergyUnit::Gigaelectronvolt)
    } else if same_text(key, "j") || same_text(key, "joule") || same_text(key, "joules") {
        Some(EnergyUnit::Joule)
    } else {
        None
    }
}

/// Resolves a length unit token, matched without regard to case or
/// surrounding white space.
pub fn parse_length_unit(unit: &str) -> (r: Result<LengthUnit, ConversionError>)
    ensures
        resolves_to(r, length_unit_named(key_of(unit@)), Quantity::Length, unit@),
{
    let key = unit_key(unit);
    match length_unit_from_key(key.as_str()) {
        Some(u) => Ok(u),
        None => Err(ConversionError::UnsupportedUnit(Quantity::Length, String::from_str(unit))),
    }
}

/// Resolves a time unit token, matched without regard to case or surrounding
/// white space.
pub fn parse_time_unit(unit: &str) -> (r: Result<TimeUnit, ConversionError>)
    ensures
        resolves_to(r, time_unit_named(key_of(unit@)), Quantity::Time, unit@),
{
    let key = unit_key(unit);
    match time_unit_from_key(key.as_str()) {
        Some(u) => Ok(u),
        None => Err(ConversionError::UnsupportedUnit(Quantity::Time, String::from_str(unit))),
    }
}

/// Resolves an energy unit token, matched without regard to case or
/// surrounding white space.
pub fn parse_energy_unit(unit: &str) -> (r: Result<EnergyUnit, ConversionError>)
    ensures
        resolves_to(r, energy_unit_named(key_of(unit@)), Quantity::Energy, unit@),
{
    let key = unit_key(unit);
    match energy_unit_from_key(key.as_str()) {
        Some(u) => Ok(u),
        None => Err(ConversionError::UnsupportedUnit(Quantity::Energy, String::from_str(unit))),
    }
}

/// White space around a unit token never changes which unit it resolves
/// to, for any kind of quantity.
pub proof fn lemma_padding_does_not_change_unit(
    pre: Seq<char>,
    token: Seq<char>,
    post: Seq<char>,
)
    requires
        all_white_space(pre),
        all_white_space(post),
    ensures
        length_unit_named(key_of(pre + token + post)) == length_unit_named(key_of(token)),
        time_unit_named(key_of(pre + token + post)) == time_unit_named(key_of(token)),
        energy_unit_named(key_of(pre + token + post)) == energy_unit_named(key_of(token)),
{
    lemma_trimmed_ignores_padding(pre, token, post);
}

} // verus!
