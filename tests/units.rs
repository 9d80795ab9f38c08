use neutron_tof::{
    energy_unit_from_key, length_unit_from_key, parse_energy_unit, parse_length_unit,
    parse_time_unit, time_unit_from_key, ConversionError, EnergyUnit, LengthUnit, Quantity,
    TimeUnit,
};

#[test]
fn centimeter_spellings_resolve_alike() {
    for token in ["cm", "centimeter", "centimeters", " CM "] {
        assert_eq!(parse_length_unit(token), Ok(LengthUnit::Centimeter), "{token:?}");
    }
}

#[test]
fn every_length_synonym_resolves() {
    for token in ["m", "meter", "meters", "Meter", "\tM\n"] {
        assert_eq!(parse_length_unit(token), Ok(LengthUnit::Meter), "{token:?}");
    }
    for token in ["km", "kilometer", "kilometers", "KM", "  Kilometers"] {
        assert_eq!(parse_length_unit(token), Ok(LengthUnit::Kilometer), "{token:?}");
    }
}

#[test]
fn every_time_synonym_resolves() {
    for token in ["ns", "nanosecond", "nanoseconds", " NS "] {
        assert_eq!(parse_time_unit(token), Ok(TimeUnit::Nanosecond), "{token:?}");
    }
    for token in ["mus", "us", "microsecond", "microseconds", "US"] {
        assert_eq!(parse_time_unit(token), Ok(TimeUnit::Microsecond), "{token:?}");
    }
    for token in ["ms", "millisecond", "milliseconds", "Ms"] {
        assert_eq!(parse_time_unit(token), Ok(TimeUnit::Millisecond), "{token:?}");
    }
    for token in ["s", "second", "seconds", " S"] {
        assert_eq!(parse_time_unit(token), Ok(TimeUnit::Second), "{token:?}");
    }
}

#[test]
fn every_energy_synonym_resolves() {
    for token in ["ev", "eV", "electronvolt", "electronvolts"] {
        assert_eq!(parse_energy_unit(token), Ok(EnergyUnit::Electronvolt), "{token:?}");
    }
    for token in ["kev", "keV", "kiloelectronvolt", "kiloelectronvolts"] {
        assert_eq!(parse_energy_unit(token), Ok(EnergyUnit::Kiloelectronvolt), "{token:?}");
    }
    for token in ["mev", "MeV", "megaelectronvolt", "megaelectronvolts"] {
        assert_eq!(parse_energy_unit(token), Ok(EnergyUnit::Megaelectronvolt), "{token:?}");
    }
    for token in ["gev", "GeV", "gigaelectronvolt", "gigaelectronvolts"] {
        assert_eq!(parse_energy_unit(token), Ok(EnergyUnit::Gigaelectronvolt), "{token:?}");
    }
    for token in ["j", "J", "joule", "Joules"] {
        assert_eq!(parse_energy_unit(token), Ok(EnergyUnit::Joule), "{token:?}");
    }
}

#[test]
fn furlong_is_an_unsupported_length_unit() {
    assert_eq!(
        parse_length_unit("furlong"),
        Err(ConversionError::UnsupportedUnit(Quantity::Length, "furlong".to_string()))
    );
}

#[test]
fn unsupported_unit_keeps_the_token_as_given() {
    assert_eq!(
        parse_time_unit(" Fortnight "),
        Err(ConversionError::UnsupportedUnit(Quantity::Time, " Fortnight ".to_string()))
    );
    assert_eq!(
        parse_energy_unit("erg"),
        Err(ConversionError::UnsupportedUnit(Quantity::Energy, "erg".to_string()))
    );
}

#[test]
fn units_of_one_kind_are_refused_for_another() {
    assert_eq!(
        parse_length_unit("s"),
        Err(ConversionError::UnsupportedUnit(Quantity::Length, "s".to_string()))
    );
    assert_eq!(
        parse_time_unit("m"),
        Err(ConversionError::UnsupportedUnit(Quantity::Time, "m".to_string()))
    );
    assert_eq!(
        parse_energy_unit("km"),
        Err(ConversionError::UnsupportedUnit(Quantity::Energy, "km".to_string()))
    );
}

#[test]
fn empty_and_blank_tokens_are_unsupported() {
    assert_eq!(
        parse_length_unit(""),
        Err(ConversionError::UnsupportedUnit(Quantity::Length, String::new()))
    );
    assert_eq!(
        parse_energy_unit("   "),
        Err(ConversionError::UnsupportedUnit(Quantity::Energy, "   ".to_string()))
    );
}

#[test]
fn mixed_case_mev_reads_as_megaelectronvolt() {
    // Matching ignores case, so "meV" is the same token as "MeV".
    assert_eq!(parse_energy_unit("meV"), Ok(EnergyUnit::Megaelectronvolt));
}

#[test]
fn inner_white_space_is_not_removed() {
    assert_eq!(
        parse_length_unit("k m"),
        Err(ConversionError::UnsupportedUnit(Quantity::Length, "k m".to_string()))
    );
}

#[test]
fn key_lookup_is_exact() {
    assert_eq!(length_unit_from_key("cm"), Some(LengthUnit::Centimeter));
    assert_eq!(length_unit_from_key("CM"), None);
    assert_eq!(length_unit_from_key(" cm"), None);
    assert_eq!(time_unit_from_key("mus"), Some(TimeUnit::Microsecond));
    assert_eq!(time_unit_from_key("min"), None);
    assert_eq!(energy_unit_from_key("j"), Some(EnergyUnit::Joule));
    assert_eq!(energy_unit_from_key("mev"), Some(EnergyUnit::Megaelectronvolt));
    assert_eq!(energy_unit_from_key("meV"), None);
}
