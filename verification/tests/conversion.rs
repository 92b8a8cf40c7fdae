use ome_metadata::ome::{
    UnitsElectricPotential, UnitsFrequency, UnitsLength, UnitsPower, UnitsPressure,
    UnitsTemperature, UnitsTime,
};
use ome_metadata::{Conversion, Convert, Error, Factor};

fn decimal(mantissa: i64, exponent: i32) -> f64 {
    format!("{}e{}", mantissa, exponent).parse().unwrap()
}

fn number(factor: &Factor) -> f64 {
    decimal(factor.mantissa as i64, factor.exponent) / factor.divisor as f64
}

fn apply(conversion: &Conversion, value: f64) -> f64 {
    match conversion {
        Conversion::Identity => value,
        Conversion::Scale { from, to } => value * number(from) / number(to),
        Conversion::Affine { shift_before, numerator, denominator, shift_after } => {
            let mut x = value;
            if *shift_before != 0 {
                x = x + decimal(*shift_before as i64, -2);
            }
            if *numerator != 1 || *denominator != 1 {
                x = x * *numerator as f64 / *denominator as f64;
            }
            if *shift_after != 0 {
                x = x + decimal(*shift_after as i64, -2);
            }
            x
        }
    }
}

fn convert<U: Convert>(from: U, to: U, value: f64) -> Result<f64, Error> {
    Ok(apply(&from.convert(&to)?, value))
}

fn close(a: f64, b: f64) -> bool {
    (a - b).abs() <= 1e-9 * b.abs().max(1e-300)
}

#[test]
fn same_unit_is_identity_in_every_domain() {
    for unit in UnitsLength::variants() {
        assert_eq!(unit.convert(&unit), Ok(Conversion::Identity));
    }
    for unit in UnitsTime::variants() {
        assert_eq!(unit.convert(&unit), Ok(Conversion::Identity));
    }
    for unit in UnitsFrequency::variants() {
        assert_eq!(unit.convert(&unit), Ok(Conversion::Identity));
    }
    for unit in UnitsPower::variants() {
        assert_eq!(unit.convert(&unit), Ok(Conversion::Identity));
    }
    for unit in UnitsPressure::variants() {
        assert_eq!(unit.convert(&unit), Ok(Conversion::Identity));
    }
    for unit in UnitsElectricPotential::variants() {
        assert_eq!(unit.convert(&unit), Ok(Conversion::Identity));
    }
    for unit in UnitsTemperature::variants() {
        assert_eq!(unit.convert(&unit), Ok(Conversion::Identity));
    }
}

#[test]
fn identity_keeps_the_value_even_without_a_size() {
    assert_eq!(convert(UnitsLength::Pixel, UnitsLength::Pixel, 3.25), Ok(3.25));
    assert_eq!(
        convert(UnitsLength::ReferenceFrame, UnitsLength::ReferenceFrame, -0.1),
        Ok(-0.1)
    );
    assert_eq!(convert(UnitsTemperature::C, UnitsTemperature::C, 36.6), Ok(36.6));
    assert_eq!(convert(UnitsPressure::psi, UnitsPressure::psi, 0.1), Ok(0.1));
}

#[test]
fn scale_correctness() {
    assert_eq!(convert(UnitsLength::m, UnitsLength::km, 1000.0), Ok(1.0));
    assert_eq!(convert(UnitsLength::km, UnitsLength::m, 1.0), Ok(1000.0));
}

#[test]
fn conversion_is_the_ratio_of_the_two_scales() {
    assert_eq!(
        UnitsLength::m.convert(&UnitsLength::km),
        Ok(Conversion::Scale {
            from: Factor { mantissa: 1, exponent: 0, divisor: 1 },
            to: Factor { mantissa: 1, exponent: 3, divisor: 1 },
        })
    );
    assert_eq!(
        UnitsLength::In.convert(&UnitsLength::mm),
        Ok(Conversion::Scale {
            from: Factor { mantissa: 254, exponent: -4, divisor: 1 },
            to: Factor { mantissa: 1, exponent: -3, divisor: 1 },
        })
    );
    assert!(close(convert(UnitsLength::In, UnitsLength::mm, 1.0).unwrap(), 25.4));
    assert!(close(convert(UnitsLength::Mi, UnitsLength::km, 1.0).unwrap(), 1.609344));
    assert!(close(convert(UnitsPressure::atm, UnitsPressure::bar, 1.0).unwrap(), 1.01325));
    assert!(close(convert(UnitsPressure::bar, UnitsPressure::kPa, 2.0).unwrap(), 200.0));
    assert!(close(convert(UnitsTime::min, UnitsTime::s, 2.0).unwrap(), 120.0));
    assert!(close(convert(UnitsTime::d, UnitsTime::h, 1.0).unwrap(), 24.0));
    assert!(close(convert(UnitsTime::h, UnitsTime::min, 1.0).unwrap(), 60.0));
    assert!(close(convert(UnitsFrequency::MHz, UnitsFrequency::kHz, 1.5).unwrap(), 1500.0));
    assert!(close(convert(UnitsPower::mW, UnitsPower::uW, 1.0).unwrap(), 1000.0));
    assert!(close(
        convert(UnitsElectricPotential::kV, UnitsElectricPotential::V, 0.5).unwrap(),
        500.0
    ));
}

#[test]
fn unit_without_a_size_cannot_be_converted() {
    assert_eq!(
        UnitsLength::Pixel.convert(&UnitsLength::um),
        Err(Error::SizeOfUnknown("pixel".to_string()))
    );
    assert_eq!(
        UnitsLength::um.convert(&UnitsLength::Pixel),
        Err(Error::SizeOfUnknown("pixel".to_string()))
    );
    assert_eq!(
        UnitsLength::m.convert(&UnitsLength::ReferenceFrame),
        Err(Error::SizeOfUnknown("reference frame".to_string()))
    );
    assert_eq!(
        convert(UnitsLength::Pixel, UnitsLength::um, 1.0),
        Err(Error::SizeOfUnknown("pixel".to_string()))
    );
}

#[test]
fn the_unit_converted_from_fails_first() {
    assert_eq!(
        UnitsLength::Pixel.convert(&UnitsLength::ReferenceFrame),
        Err(Error::SizeOfUnknown("pixel".to_string()))
    );
    assert_eq!(
        UnitsLength::ReferenceFrame.convert(&UnitsLength::Pixel),
        Err(Error::SizeOfUnknown("reference frame".to_string()))
    );
}

#[test]
fn si_factors_of_length() {
    assert_eq!(UnitsLength::Ym.as_si(), Ok(Factor { mantissa: 1, exponent: 24, divisor: 1 }));
    assert_eq!(UnitsLength::m.as_si(), Ok(Factor { mantissa: 1, exponent: 0, divisor: 1 }));
    assert_eq!(UnitsLength::um.as_si(), Ok(Factor { mantissa: 1, exponent: -6, divisor: 1 }));
    assert_eq!(UnitsLength::ym.as_si(), Ok(Factor { mantissa: 1, exponent: -24, divisor: 1 }));
    assert_eq!(UnitsLength::A.as_si(), Ok(Factor { mantissa: 1, exponent: -10, divisor: 1 }));
    assert_eq!(UnitsLength::Thou.as_si(), Ok(Factor { mantissa: 254, exponent: -7, divisor: 1 }));
    assert_eq!(UnitsLength::Li.as_si(), Ok(Factor { mantissa: 5, exponent: 2, divisor: 1 }));
    assert_eq!(UnitsLength::In.as_si(), Ok(Factor { mantissa: 254, exponent: -4, divisor: 1 }));
    assert_eq!(UnitsLength::Ft.as_si(), Ok(Factor { mantissa: 305, exponent: -3, divisor: 1 }));
    assert_eq!(UnitsLength::Yd.as_si(), Ok(Factor { mantissa: 914, exponent: -3, divisor: 1 }));
    assert_eq!(
        UnitsLength::Mi.as_si(),
        Ok(Factor { mantissa: 1609344, exponent: -3, divisor: 1 })
    );
    assert_eq!(UnitsLength::Ua.as_si(), Ok(Factor { mantissa: 1496, exponent: 8, divisor: 1 }));
    assert_eq!(UnitsLength::Ly.as_si(), Ok(Factor { mantissa: 9461, exponent: 12, divisor: 1 }));
    assert_eq!(UnitsLength::Pc.as_si(), Ok(Factor { mantissa: 3086, exponent: 13, divisor: 1 }));
    assert_eq!(
        UnitsLength::Pt.as_si(),
        Ok(Factor { mantissa: 352778, exponent: -9, divisor: 1 })
    );
    assert_eq!(UnitsLength::Pixel.as_si(), Err(Error::SizeOfUnknown("pixel".to_string())));
    assert_eq!(
        UnitsLength::ReferenceFrame.as_si(),
        Err(Error::SizeOfUnknown("reference frame".to_string()))
    );
}

#[test]
fn si_factors_as_numbers() {
    assert_eq!(number(&UnitsLength::Thou.as_si().unwrap()), 2.54e-5);
    assert_eq!(number(&UnitsLength::Mi.as_si().unwrap()), 1.609344e3);
    assert_eq!(number(&UnitsLength::Ly.as_si().unwrap()), 9.461e15);
    assert_eq!(number(&UnitsLength::Pt.as_si().unwrap()), 3.52778e-4);
    assert_eq!(number(&UnitsLength::ym.as_si().unwrap()), 1e-24);
    assert_eq!(number(&UnitsPressure::atm.as_si().unwrap()), 1.01325e5);
    assert_eq!(number(&UnitsPressure::psi.as_si().unwrap()), 6.89476e3);
    assert_eq!(number(&UnitsPressure::mmHg.as_si().unwrap()), 1.33322e2);
    assert_eq!(number(&UnitsPressure::Torr.as_si().unwrap()), 1.33322e2);
    assert_eq!(number(&UnitsPressure::mTorr.as_si().unwrap()), 1.33322e-1);
    assert_eq!(number(&UnitsTime::min.as_si().unwrap()), 60.0);
    assert_eq!(number(&UnitsTime::h.as_si().unwrap()), 3600.0);
    assert_eq!(number(&UnitsTime::d.as_si().unwrap()), 86400.0);
    assert_eq!(number(&UnitsTemperature::K.as_si().unwrap()), 10.0);
    assert_eq!(number(&UnitsTemperature::R.as_si().unwrap()), 5.0 / 9.0);
}

#[test]
fn si_factors_of_the_prefixes() {
    let exponents: [i32; 21] =
        [24, 21, 18, 15, 12, 9, 6, 3, 2, 1, 0, -1, -2, -3, -6, -9, -12, -15, -18, -21, -24];
    for (i, exponent) in exponents.iter().enumerate() {
        let factor = Factor { mantissa: 1, exponent: *exponent, divisor: 1 };
        assert_eq!(UnitsLength::variants()[i].as_si(), Ok(factor));
        assert_eq!(UnitsTime::variants()[i].as_si(), Ok(factor));
        assert_eq!(UnitsFrequency::variants()[i].as_si(), Ok(factor));
        assert_eq!(UnitsPower::variants()[i].as_si(), Ok(factor));
        assert_eq!(UnitsPressure::variants()[i].as_si(), Ok(factor));
        assert_eq!(UnitsElectricPotential::variants()[i].as_si(), Ok(factor));
    }
}

#[test]
fn si_factors_of_pressure_and_time() {
    assert_eq!(UnitsPressure::bar.as_si(), Ok(Factor { mantissa: 1, exponent: 5, divisor: 1 }));
    assert_eq!(UnitsPressure::Mbar.as_si(), Ok(Factor { mantissa: 1, exponent: 11, divisor: 1 }));
    assert_eq!(UnitsPressure::kbar.as_si(), Ok(Factor { mantissa: 1, exponent: 8, divisor: 1 }));
    assert_eq!(UnitsPressure::dbar.as_si(), Ok(Factor { mantissa: 1, exponent: 4, divisor: 1 }));
    assert_eq!(UnitsPressure::cbar.as_si(), Ok(Factor { mantissa: 1, exponent: 3, divisor: 1 }));
    assert_eq!(UnitsPressure::mbar.as_si(), Ok(Factor { mantissa: 1, exponent: 2, divisor: 1 }));
    assert_eq!(
        UnitsPressure::atm.as_si(),
        Ok(Factor { mantissa: 101325, exponent: 0, divisor: 1 })
    );
    assert_eq!(
        UnitsPressure::psi.as_si(),
        Ok(Factor { mantissa: 689476, exponent: -2, divisor: 1 })
    );
    assert_eq!(UnitsTime::min.as_si(), Ok(Factor { mantissa: 6, exponent: 1, divisor: 1 }));
    assert_eq!(UnitsTime::d.as_si(), Ok(Factor { mantissa: 864, exponent: 2, divisor: 1 }));
}

#[test]
fn exactly_one_unit_of_each_domain_has_factor_one() {
    let one = Factor { mantissa: 1, exponent: 0, divisor: 1 };
    for unit in UnitsLength::variants() {
        assert_eq!(unit.as_si() == Ok(one), unit == UnitsLength::m);
    }
    for unit in UnitsTime::variants() {
        assert_eq!(unit.as_si() == Ok(one), unit == UnitsTime::s);
    }
    for unit in UnitsFrequency::variants() {
        assert_eq!(unit.as_si() == Ok(one), unit == UnitsFrequency::Hz);
    }
    for unit in UnitsPower::variants() {
        assert_eq!(unit.as_si() == Ok(one), unit == UnitsPower::W);
    }
    for unit in UnitsPressure::variants() {
        assert_eq!(unit.as_si() == Ok(one), unit == UnitsPressure::Pa);
    }
    for unit in UnitsElectricPotential::variants() {
        assert_eq!(unit.as_si() == Ok(one), unit == UnitsElectricPotential::V);
    }
}

#[test]
fn every_factor_is_positive() {
    for unit in UnitsLength::variants() {
        if let Ok(factor) = unit.as_si() {
            assert!(factor.mantissa > 0 && factor.divisor > 0);
            assert!(number(&factor) > 0.0);
        }
    }
    for unit in UnitsPressure::variants() {
        let factor = unit.as_si().unwrap();
        assert!(factor.mantissa > 0 && factor.divisor > 0);
    }
}

#[test]
fn multiplicative_round_trip_of_lengths() {
    let units = UnitsLength::variants();
    for a in units.iter() {
        for b in units.iter() {
            if a.as_si().is_err() || b.as_si().is_err() {
                continue;
            }
            for x in [1.0, -2.5, 1234.5678, 1e-7] {
                let there = convert(*a, *b, x).unwrap();
                let back = convert(*b, *a, there).unwrap();
                assert!(close(back, x), "{:?} {:?} {} {}", a, b, x, back);
            }
        }
    }
}

#[test]
fn multiplicative_round_trip_of_the_other_domains() {
    for a in UnitsPressure::variants() {
        for b in UnitsPressure::variants() {
            let back = convert(b, a, convert(a, b, 7.75).unwrap()).unwrap();
            assert!(close(back, 7.75));
        }
    }
    for a in UnitsTime::variants() {
        for b in UnitsTime::variants() {
            let back = convert(b, a, convert(a, b, 7.75).unwrap()).unwrap();
            assert!(close(back, 7.75));
        }
    }
    for a in UnitsFrequency::variants() {
        for b in UnitsFrequency::variants() {
            let back = convert(b, a, convert(a, b, 7.75).unwrap()).unwrap();
            assert!(close(back, 7.75));
        }
    }
    for a in UnitsPower::variants() {
        for b in UnitsPower::variants() {
            let back = convert(b, a, convert(a, b, 7.75).unwrap()).unwrap();
            assert!(close(back, 7.75));
        }
    }
    for a in UnitsElectricPotential::variants() {
        for b in UnitsElectricPotential::variants() {
            let back = convert(b, a, convert(a, b, 7.75).unwrap()).unwrap();
            assert!(close(back, 7.75));
        }
    }
}

#[test]
fn temperature_exactness() {
    assert_eq!(convert(UnitsTemperature::C, UnitsTemperature::K, 0.0), Ok(273.15));
    assert_eq!(convert(UnitsTemperature::F, UnitsTemperature::C, 32.0), Ok(0.0));
    assert_eq!(convert(UnitsTemperature::K, UnitsTemperature::F, 0.0), Ok(-459.67));
    let c = convert(UnitsTemperature::R, UnitsTemperature::C, 491.67).unwrap();
    assert!(c.abs() < 1e-9);
}

#[test]
fn temperature_formulas() {
    let v: f64 = 100.0;
    assert_eq!(convert(UnitsTemperature::F, UnitsTemperature::C, v), Ok((v - 32.) * 5. / 9.));
    assert_eq!(convert(UnitsTemperature::K, UnitsTemperature::C, v), Ok(v - 273.15));
    assert_eq!(convert(UnitsTemperature::R, UnitsTemperature::C, v), Ok((v * 5. / 9.) - 273.15));
    assert_eq!(convert(UnitsTemperature::C, UnitsTemperature::F, v), Ok((v * 9. / 5.) + 32.));
    assert_eq!(convert(UnitsTemperature::K, UnitsTemperature::F, v), Ok((v * 9. / 5.) - 459.67));
    assert_eq!(convert(UnitsTemperature::R, UnitsTemperature::F, v), Ok(v - 459.67));
    assert_eq!(convert(UnitsTemperature::C, UnitsTemperature::K, v), Ok(v + 273.15));
    assert_eq!(convert(UnitsTemperature::F, UnitsTemperature::K, v), Ok((v + 459.67) * 5. / 9.));
    assert_eq!(convert(UnitsTemperature::R, UnitsTemperature::K, v), Ok(v * 5. / 9.));
    assert_eq!(convert(UnitsTemperature::C, UnitsTemperature::R, v), Ok((v + 273.15) * 9. / 5.));
    assert_eq!(convert(UnitsTemperature::F, UnitsTemperature::R, v), Ok(v + 459.67));
    assert_eq!(convert(UnitsTemperature::K, UnitsTemperature::R, v), Ok(v * 9. / 5.));
}

#[test]
fn temperature_plans() {
    assert_eq!(
        UnitsTemperature::F.convert(&UnitsTemperature::C),
        Ok(Conversion::Affine { shift_before: -3200, numerator: 5, denominator: 9, shift_after: 0 })
    );
    assert_eq!(
        UnitsTemperature::C.convert(&UnitsTemperature::K),
        Ok(Conversion::Affine { shift_before: 0, numerator: 1, denominator: 1, shift_after: 27315 })
    );
    assert_eq!(
        UnitsTemperature::R.convert(&UnitsTemperature::C),
        Ok(Conversion::Affine {
            shift_before: 0,
            numerator: 5,
            denominator: 9,
            shift_after: -27315
        })
    );
    assert_eq!(
        UnitsTemperature::C.convert(&UnitsTemperature::R),
        Ok(Conversion::Affine { shift_before: 27315, numerator: 9, denominator: 5, shift_after: 0 })
    );
}

#[test]
fn temperature_never_takes_a_ratio_of_scales() {
    for a in UnitsTemperature::variants() {
        for b in UnitsTemperature::variants() {
            let plan = a.convert(&b).unwrap();
            assert!(!matches!(plan, Conversion::Scale { .. }));
            assert_eq!(matches!(plan, Conversion::Identity), a == b);
        }
    }
}

#[test]
fn temperature_round_trip() {
    for a in UnitsTemperature::variants() {
        for b in UnitsTemperature::variants() {
            let back = convert(b, a, convert(a, b, 25.0).unwrap()).unwrap();
            assert!((back - 25.0).abs() < 1e-9);
        }
    }
}

#[test]
fn temperature_factors() {
    assert_eq!(UnitsTemperature::C.as_si(), Err(Error::TemparatureConversion));
    assert_eq!(UnitsTemperature::F.as_si(), Err(Error::TemparatureConversion));
    assert_eq!(UnitsTemperature::K.as_si(), Ok(Factor { mantissa: 1, exponent: 1, divisor: 1 }));
    assert_eq!(UnitsTemperature::R.as_si(), Ok(Factor { mantissa: 5, exponent: 0, divisor: 9 }));
}

#[test]
fn factor_constructors() {
    assert_eq!(Factor::decimal(254, -4), Factor { mantissa: 254, exponent: -4, divisor: 1 });
    assert_eq!(Factor::fraction(5, 9), Factor { mantissa: 5, exponent: 0, divisor: 9 });
}
