use weather_cli::numfmt::{centi_to_string, parse_centi, trimmed_centi_to_string, u64_to_string};
use weather_cli::units::{kelvin_to_unit, unit_from_flag, unit_label, UnitSelector};

#[test]
fn celsius_conversion_is_shift() {
    // 293.15 K is 20.00 degrees Celsius
    assert_eq!(kelvin_to_unit(29315, UnitSelector::Celsius), 2000);
    // 273.15 K is the freezing point
    assert_eq!(kelvin_to_unit(27315, UnitSelector::Celsius), 0);
    // below freezing goes negative
    assert_eq!(kelvin_to_unit(27300, UnitSelector::Celsius), -15);
    assert_eq!(kelvin_to_unit(0, UnitSelector::Celsius), -27315);
}

#[test]
fn fahrenheit_conversion_scales_and_shifts() {
    // 20 C is 68 F
    assert_eq!(kelvin_to_unit(29315, UnitSelector::Fahrenheit), 6800);
    // 0 C is 32 F
    assert_eq!(kelvin_to_unit(27315, UnitSelector::Fahrenheit), 3200);
    // -0.15 C is 31.73 F
    assert_eq!(kelvin_to_unit(27300, UnitSelector::Fahrenheit), 3173);
    // 100 C is 212 F
    assert_eq!(kelvin_to_unit(37315, UnitSelector::Fahrenheit), 21200);
}

#[test]
fn conversion_formulas_hold_on_samples() {
    let samples: [i64; 6] = [0, 1, 27315, 29315, -5000, 1_000_000];
    for &k in samples.iter() {
        assert_eq!(kelvin_to_unit(k, UnitSelector::Celsius), k - 27315);
        let c = k - 27315;
        let f = if c >= 0 { c * 9 / 5 + 3200 } else { 3200 - (-c) * 9 / 5 };
        assert_eq!(kelvin_to_unit(k, UnitSelector::Fahrenheit), f);
    }
}

#[test]
fn unit_flag_is_case_insensitive_with_celsius_default() {
    assert_eq!(unit_from_flag("F"), UnitSelector::Fahrenheit);
    assert_eq!(unit_from_flag("f"), UnitSelector::Fahrenheit);
    assert_eq!(unit_from_flag("C"), UnitSelector::Celsius);
    assert_eq!(unit_from_flag("c"), UnitSelector::Celsius);
    assert_eq!(unit_from_flag(""), UnitSelector::Celsius);
    assert_eq!(unit_from_flag("K"), UnitSelector::Celsius);
    assert_eq!(unit_from_flag("Fahrenheit"), UnitSelector::Celsius);
}

#[test]
fn unit_labels() {
    assert_eq!(unit_label(UnitSelector::Celsius), "°C");
    assert_eq!(unit_label(UnitSelector::Fahrenheit), "°F");
}

#[test]
fn whole_numbers_render() {
    assert_eq!(u64_to_string(0), "0");
    assert_eq!(u64_to_string(7), "7");
    assert_eq!(u64_to_string(12345), "12345");
    assert_eq!(u64_to_string(1013), "1013");
}

#[test]
fn hundredths_render_with_two_places() {
    assert_eq!(centi_to_string(2000), "20.00");
    assert_eq!(centi_to_string(5), "0.05");
    assert_eq!(centi_to_string(-15), "-0.15");
    assert_eq!(centi_to_string(0), "0.00");
    assert_eq!(centi_to_string(-27315), "-273.15");
}

#[test]
fn decimal_text_parses_to_hundredths() {
    assert_eq!(parse_centi("293.15"), Some(29315));
    assert_eq!(parse_centi("300"), Some(30000));
    assert_eq!(parse_centi("0.5"), Some(50));
    assert_eq!(parse_centi("00.10"), Some(10));
    assert_eq!(parse_centi("-0.05"), Some(-5));
}

#[test]
fn third_fraction_digit_rounds_to_nearest() {
    assert_eq!(parse_centi("-1.239"), Some(-124));
    assert_eq!(parse_centi("1.234"), Some(123));
    assert_eq!(parse_centi("1.235"), Some(124));
    assert_eq!(parse_centi("1.2349"), Some(123));
    assert_eq!(parse_centi("0.005"), Some(1));
    assert_eq!(parse_centi("0.004"), Some(0));
    assert_eq!(parse_centi("9.999"), Some(1000));
    assert_eq!(parse_centi("999999999999999.999"), Some(100_000_000_000_000_000));
}

#[test]
fn shortest_form_drops_trailing_zeros() {
    assert_eq!(trimmed_centi_to_string(410), "4.1");
    assert_eq!(trimmed_centi_to_string(400), "4");
    assert_eq!(trimmed_centi_to_string(413), "4.13");
    assert_eq!(trimmed_centi_to_string(0), "0");
    assert_eq!(trimmed_centi_to_string(-50), "-0.5");
    assert_eq!(trimmed_centi_to_string(-5), "-0.05");
}

#[test]
fn malformed_decimal_text_is_rejected() {
    assert_eq!(parse_centi(""), None);
    assert_eq!(parse_centi("-"), None);
    assert_eq!(parse_centi("."), None);
    assert_eq!(parse_centi("12."), None);
    assert_eq!(parse_centi(".5"), None);
    assert_eq!(parse_centi("1e3"), None);
    assert_eq!(parse_centi("abc"), None);
    assert_eq!(parse_centi("12a.5"), None);
    assert_eq!(parse_centi("12.5a"), None);
    // sixteen integer digits are out of range
    assert_eq!(parse_centi("1234567890123456"), None);
    // fifteen are still in
    assert_eq!(parse_centi("123456789012345"), Some(12345678901234500));
}
