use vstd::prelude::*;

verus! {

/// Temperature scale chosen by the user for display.
#[derive(Clone, Copy, PartialEq, Eq, Structural, Debug)]
pub enum UnitSelector {
    Celsius,
    Fahrenheit,
}

/// Temperatures are carried as hundredths of a degree (or of a kelvin), so
/// that a reading such as 293.15 K is the integer 29315. Conversions must
/// stay within this bound; parsed provider values always do.
pub const CENTI_LIMIT: i64 = 100_000_000_000_000_000;

/// Kelvin to Celsius, in hundredths: shift by 273.15 K.
pub open spec fn celsius_centi(kelvin_centi: int) -> int {
    kelvin_centi - 27315
}

/// Kelvin to Fahrenheit, in hundredths: scale the Celsius value by 9/5 and
/// shift by 32 degrees. The division by 5 truncates toward zero.
pub open spec fn fahrenheit_centi(kelvin_centi: int) -> int {
    let c = kelvin_centi - 27315;
    if c >= 0 {
        c * 9 / 5 + 3200
    } else {
        3200 - ((0 - c) * 9 / 5)
    }
}

/// The displayed temperature, in hundredths of the chosen unit's degree.
pub open spec fn to_display_centi(kelvin_centi: int, unit: UnitSelector) -> int {
    match unit {
        UnitSelector::Celsius => celsius_centi(kelvin_centi),
        UnitSelector::Fahrenheit => fahrenheit_centi(kelvin_centi),
    }
}

/// Converts a Kelvin reading (in hundredths) to the unit chosen for display.
pub fn kelvin_to_unit(kelvin_centi: i64, unit: UnitSelector) -> (r: i64)
    requires
        -CENTI_LIMIT <= kelvin_centi <= CENTI_LIMIT,
    ensures
        r == to_display_centi(kelvin_centi as int, unit),
        -2 * CENTI_LIMIT <= r <= 2 * CENTI_LIMIT,
{
    match unit {
        UnitSelector::Celsius => kelvin_centi - 27315,
        UnitSelector::Fahrenheit => {
            let c: i64 = kelvin_centi - 27315;
            if c >= 0 {
                let q: u64 = (c as u64) * 9 / 5;
                (q as i64) + 3200
            } else {
                let m: u64 = (-c) as u64;
                let q: u64 = m * 9 / 5;
                3200 - (q as i64)
            }
        },
    }
}

/// The label printed after a converted temperature.
pub open spec fn unit_label_spec(unit: UnitSelector) -> Seq<char> {
    match unit {
        UnitSelector::Celsius => "°C"@,
        UnitSelector::Fahrenheit => "°F"@,
    }
}

pub fn unit_label(unit: UnitSelector) -> (r: String)
    ensures
        r@ == unit_label_spec(unit),
{
    match unit {
        UnitSelector::Celsius => String::from_str("°C"),
        UnitSelector::Fahrenheit => String::from_str("°F"),
    }
}

/// The unit a user flag selects: `F` or `f` means Fahrenheit, anything else
/// (including the default `C`) means Celsius.
pub open spec fn unit_of_flag(flag: Seq<char>) -> UnitSelector {
    if flag == "F"@ || flag == "f"@ {
        UnitSelector::Fahrenheit
    } else {
        UnitSelector::Celsius
    }
}

pub fn unit_from_flag(flag: &str) -> (r: UnitSelector)
    ensures
        r == unit_of_flag(flag@),
{
    proof {
        reveal_strlit("F");
        reveal_strlit("f");
    }
    let n = flag.unicode_len();
    if n == 1 {
        let c = flag.get_char(0);
        if c == 'F' {
            proof {
                assert(flag@ =~= "F"@);
            }
            UnitSelector::Fahrenheit
        } else if c == 'f' {
            proof {
                assert(flag@ =~= "f"@);
            }
            UnitSelector::Fahrenheit
        } else {
            proof {
                assert(flag@ != "F"@ && flag@ != "f"@);
            }
            UnitSelector::Celsius
        }
    } else {
        proof {
            assert(flag@ != "F"@ && flag@ != "f"@);
        }
        UnitSelector::Celsius
    }
}

} // verus!
