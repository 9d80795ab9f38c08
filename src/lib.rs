//! Neutron time-of-flight and energy conversion: the unit vocabulary of each
//! quantity kind, the resolution of unit tokens against it, and the error
//! type shared by parsing and conversion.

pub mod error;
pub mod text;
pub mod units;

pub use error::{ConversionError, Operand, Quantity};
pub use text::{same_text, trim, unit_key};
pub use units::{
    energy_unit_from_key, length_unit_from_key, parse_energy_unit, parse_length_unit,
    parse_time_unit, time_unit_from_key, EnergyUnit, LengthUnit, TimeUnit,
};
