use ome_metadata::ome::{UnitsLength, UnitsPressure, UnitsTemperature};
use ome_metadata::{Convert, Error};

#[test]
fn messages() {
    assert_eq!(Error::UnknownUnit("xyz".to_string()).message(), "unknown unit: xyz");
    assert_eq!(Error::SizeOfUnknown("pixel".to_string()).message(), "size of pixel is unknown");
    assert_eq!(
        Error::TemparatureConversion.message(),
        "no conversion to K by multiplication only"
    );
    assert_eq!(Error::UnknownUnit(String::new()).message(), "unknown unit: ");
}

#[test]
fn messages_of_errors_that_the_library_returns() {
    assert_eq!(UnitsPressure::parse("xyz").unwrap_err().message(), "unknown unit: xyz");
    assert_eq!(
        UnitsLength::ReferenceFrame.as_si().unwrap_err().message(),
        "size of reference frame is unknown"
    );
    assert_eq!(
        UnitsTemperature::C.as_si().unwrap_err().message(),
        "no conversion to K by multiplication only"
    );
}

#[test]
fn units_are_read_through_the_standard_trait_too() {
    assert_eq!("km".parse::<UnitsLength>(), Ok(UnitsLength::km));
    assert_eq!("mm Hg".parse::<UnitsPressure>(), Ok(UnitsPressure::mmHg));
    assert_eq!("°F".parse::<UnitsTemperature>(), Ok(UnitsTemperature::F));
    assert_eq!("F".parse::<UnitsTemperature>(), Err(Error::UnknownUnit("F".to_string())));
}
