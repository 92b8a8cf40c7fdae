use ome_metadata::ome::{
    UnitsElectricPotential, UnitsFrequency, UnitsLength, UnitsPower, UnitsPressure,
    UnitsTemperature, UnitsTime,
};
use ome_metadata::text::{bytes_eq, str_eq};
use ome_metadata::Error;

#[test]
fn every_length_symbol_reads_back() {
    for unit in UnitsLength::variants() {
        assert_eq!(UnitsLength::parse(unit.symbol()), Ok(unit));
    }
}

#[test]
fn every_time_symbol_reads_back() {
    for unit in UnitsTime::variants() {
        assert_eq!(UnitsTime::parse(unit.symbol()), Ok(unit));
    }
}

#[test]
fn every_frequency_symbol_reads_back() {
    for unit in UnitsFrequency::variants() {
        assert_eq!(UnitsFrequency::parse(unit.symbol()), Ok(unit));
    }
}

#[test]
fn every_power_symbol_reads_back() {
    for unit in UnitsPower::variants() {
        assert_eq!(UnitsPower::parse(unit.symbol()), Ok(unit));
    }
}

#[test]
fn every_pressure_symbol_reads_back() {
    for unit in UnitsPressure::variants() {
        assert_eq!(UnitsPressure::parse(unit.symbol()), Ok(unit));
    }
}

#[test]
fn every_electric_potential_symbol_reads_back() {
    for unit in UnitsElectricPotential::variants() {
        assert_eq!(UnitsElectricPotential::parse(unit.symbol()), Ok(unit));
    }
}

#[test]
fn every_temperature_symbol_reads_back() {
    for unit in UnitsTemperature::variants() {
        assert_eq!(UnitsTemperature::parse(unit.symbol()), Ok(unit));
    }
}

#[test]
fn symbols_are_distinct_within_a_domain() {
    let units = UnitsPressure::variants();
    for (i, a) in units.iter().enumerate() {
        for (j, b) in units.iter().enumerate() {
            assert_eq!(a.symbol() == b.symbol(), i == j);
        }
    }
    let units = UnitsLength::variants();
    for (i, a) in units.iter().enumerate() {
        for (j, b) in units.iter().enumerate() {
            assert_eq!(a.symbol() == b.symbol(), i == j);
        }
    }
}

#[test]
fn prefixed_symbols() {
    assert_eq!(UnitsLength::parse("km"), Ok(UnitsLength::km));
    assert_eq!(UnitsLength::parse("m"), Ok(UnitsLength::m));
    assert_eq!(UnitsLength::parse("dam"), Ok(UnitsLength::dam));
    assert_eq!(UnitsFrequency::parse("MHz"), Ok(UnitsFrequency::MHz));
    assert_eq!(UnitsFrequency::parse("mHz"), Ok(UnitsFrequency::mHz));
    assert_eq!(UnitsPower::parse("W"), Ok(UnitsPower::W));
    assert_eq!(UnitsPressure::parse("hPa"), Ok(UnitsPressure::hPa));
    assert_eq!(UnitsElectricPotential::parse("kV"), Ok(UnitsElectricPotential::kV));
    assert_eq!(UnitsTime::parse("as"), Ok(UnitsTime::as_));
    assert_eq!(UnitsTime::as_.symbol(), "as");
}

#[test]
fn micro_is_read_in_both_spellings_and_written_with_the_micro_sign() {
    assert_eq!(UnitsLength::parse("µm"), Ok(UnitsLength::um));
    assert_eq!(UnitsLength::parse("um"), Ok(UnitsLength::um));
    assert_eq!(UnitsLength::um.symbol(), "µm");
    assert_eq!(UnitsTime::parse("µs"), Ok(UnitsTime::us));
    assert_eq!(UnitsTime::parse("us"), Ok(UnitsTime::us));
    assert_eq!(UnitsTime::us.symbol(), "µs");
    assert_eq!(UnitsFrequency::parse("uHz"), Ok(UnitsFrequency::uHz));
    assert_eq!(UnitsFrequency::uHz.symbol(), "µHz");
    assert_eq!(UnitsPower::parse("uW"), Ok(UnitsPower::uW));
    assert_eq!(UnitsPower::uW.symbol(), "µW");
    assert_eq!(UnitsPressure::parse("uPa"), Ok(UnitsPressure::uPa));
    assert_eq!(UnitsPressure::uPa.symbol(), "µPa");
    assert_eq!(UnitsElectricPotential::parse("uV"), Ok(UnitsElectricPotential::uV));
    assert_eq!(UnitsElectricPotential::uV.symbol(), "µV");
}

#[test]
fn units_of_other_systems() {
    assert_eq!(UnitsLength::parse("Å"), Ok(UnitsLength::A));
    assert_eq!(UnitsLength::parse("thou"), Ok(UnitsLength::Thou));
    assert_eq!(UnitsLength::parse("li"), Ok(UnitsLength::Li));
    assert_eq!(UnitsLength::parse("in"), Ok(UnitsLength::In));
    assert_eq!(UnitsLength::parse("ft"), Ok(UnitsLength::Ft));
    assert_eq!(UnitsLength::parse("yd"), Ok(UnitsLength::Yd));
    assert_eq!(UnitsLength::parse("mi"), Ok(UnitsLength::Mi));
    assert_eq!(UnitsLength::parse("ua"), Ok(UnitsLength::Ua));
    assert_eq!(UnitsLength::parse("ly"), Ok(UnitsLength::Ly));
    assert_eq!(UnitsLength::parse("pc"), Ok(UnitsLength::Pc));
    assert_eq!(UnitsLength::parse("pt"), Ok(UnitsLength::Pt));
    assert_eq!(UnitsLength::parse("pixel"), Ok(UnitsLength::Pixel));
    assert_eq!(UnitsLength::parse("reference frame"), Ok(UnitsLength::ReferenceFrame));
    assert_eq!(UnitsPressure::parse("bar"), Ok(UnitsPressure::bar));
    assert_eq!(UnitsPressure::parse("Mbar"), Ok(UnitsPressure::Mbar));
    assert_eq!(UnitsPressure::parse("mbar"), Ok(UnitsPressure::mbar));
    assert_eq!(UnitsPressure::parse("atm"), Ok(UnitsPressure::atm));
    assert_eq!(UnitsPressure::parse("psi"), Ok(UnitsPressure::psi));
    assert_eq!(UnitsPressure::parse("Torr"), Ok(UnitsPressure::Torr));
    assert_eq!(UnitsPressure::parse("mTorr"), Ok(UnitsPressure::mTorr));
    assert_eq!(UnitsPressure::parse("mm Hg"), Ok(UnitsPressure::mmHg));
    assert_eq!(UnitsTime::parse("min"), Ok(UnitsTime::min));
    assert_eq!(UnitsTime::parse("h"), Ok(UnitsTime::h));
    assert_eq!(UnitsTime::parse("d"), Ok(UnitsTime::d));
    assert_eq!(UnitsTemperature::parse("°C"), Ok(UnitsTemperature::C));
    assert_eq!(UnitsTemperature::parse("°F"), Ok(UnitsTemperature::F));
    assert_eq!(UnitsTemperature::parse("K"), Ok(UnitsTemperature::K));
    assert_eq!(UnitsTemperature::parse("°R"), Ok(UnitsTemperature::R));
}

#[test]
fn unknown_symbol_is_reported_as_given() {
    assert_eq!(UnitsPressure::parse("xyz"), Err(Error::UnknownUnit("xyz".to_string())));
    assert_eq!(UnitsLength::parse(""), Err(Error::UnknownUnit(String::new())));
    assert_eq!(UnitsTemperature::parse("kelvin"), Err(Error::UnknownUnit("kelvin".to_string())));
}

#[test]
fn nothing_is_trimmed_and_no_case_is_folded() {
    assert_eq!(UnitsLength::parse(" km"), Err(Error::UnknownUnit(" km".to_string())));
    assert_eq!(UnitsLength::parse("km "), Err(Error::UnknownUnit("km ".to_string())));
    assert_eq!(UnitsLength::parse("KM"), Err(Error::UnknownUnit("KM".to_string())));
    assert_eq!(UnitsLength::parse("Km"), Err(Error::UnknownUnit("Km".to_string())));
    assert_eq!(UnitsLength::parse("Pixel"), Err(Error::UnknownUnit("Pixel".to_string())));
    assert_eq!(UnitsLength::parse("A"), Err(Error::UnknownUnit("A".to_string())));
    assert_eq!(UnitsPressure::parse("mmHg"), Err(Error::UnknownUnit("mmHg".to_string())));
    assert_eq!(UnitsPressure::parse("torr"), Err(Error::UnknownUnit("torr".to_string())));
    assert_eq!(UnitsTemperature::parse("C"), Err(Error::UnknownUnit("C".to_string())));
    assert_eq!(UnitsTemperature::parse("k"), Err(Error::UnknownUnit("k".to_string())));
    assert_eq!(UnitsFrequency::parse("hz"), Err(Error::UnknownUnit("hz".to_string())));
}

#[test]
fn a_symbol_of_another_domain_is_unknown() {
    assert_eq!(UnitsLength::parse("Pa"), Err(Error::UnknownUnit("Pa".to_string())));
    assert_eq!(UnitsTime::parse("m"), Err(Error::UnknownUnit("m".to_string())));
    assert_eq!(UnitsPower::parse("V"), Err(Error::UnknownUnit("V".to_string())));
}

#[test]
fn greek_mu_is_not_the_micro_sign() {
    assert_eq!(UnitsLength::parse("\u{3bc}m"), Err(Error::UnknownUnit("\u{3bc}m".to_string())));
    assert_eq!(UnitsLength::parse("\u{b5}m"), Ok(UnitsLength::um));
}

#[test]
fn variant_counts() {
    assert_eq!(UnitsTemperature::variants().len(), 4);
    assert_eq!(UnitsLength::variants().len(), 34);
    assert_eq!(UnitsPressure::variants().len(), 32);
    assert_eq!(UnitsTime::variants().len(), 24);
    assert_eq!(UnitsFrequency::variants().len(), 21);
    assert_eq!(UnitsPower::variants().len(), 21);
    assert_eq!(UnitsElectricPotential::variants().len(), 21);
}

#[test]
fn variants_come_in_declaration_order() {
    assert_eq!(
        UnitsTemperature::variants(),
        vec![UnitsTemperature::C, UnitsTemperature::F, UnitsTemperature::K, UnitsTemperature::R]
    );
    let lengths = UnitsLength::variants();
    assert_eq!(lengths[0], UnitsLength::Ym);
    assert_eq!(lengths[10], UnitsLength::m);
    assert_eq!(lengths[14], UnitsLength::um);
    assert_eq!(lengths[20], UnitsLength::ym);
    assert_eq!(lengths[21], UnitsLength::A);
    assert_eq!(lengths[33], UnitsLength::ReferenceFrame);
    let times = UnitsTime::variants();
    assert_eq!(times[18], UnitsTime::as_);
    assert_eq!(times[23], UnitsTime::d);
    let pressures = UnitsPressure::variants();
    assert_eq!(pressures[21], UnitsPressure::bar);
    assert_eq!(pressures[31], UnitsPressure::mmHg);
}

#[test]
fn variants_can_be_listed_again() {
    assert_eq!(UnitsPower::variants(), UnitsPower::variants());
    assert_eq!(UnitsFrequency::variants()[6], UnitsFrequency::MHz);
    assert_eq!(UnitsElectricPotential::variants()[10], UnitsElectricPotential::V);
}

#[test]
fn string_comparison_is_exact() {
    assert!(str_eq("mm Hg", "mm Hg"));
    assert!(!str_eq("mm Hg", "mmHg"));
    assert!(!str_eq("km", "k"));
    assert!(!str_eq("k", "km"));
    assert!(str_eq("", ""));
    assert!(!str_eq("µm", "um"));
    assert!(str_eq("°C", "°C"));
    assert!(bytes_eq(&[1, 2, 3], &[1, 2, 3]));
    assert!(!bytes_eq(&[1, 2, 3], &[1, 2, 4]));
    assert!(!bytes_eq(&[1, 2, 3], &[1, 2]));
    assert!(bytes_eq(&[], &[]));
}
