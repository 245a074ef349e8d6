use power_meter::unit::Unit;

#[test]
fn unit_numbers_of_the_standard_are_mapped() {
    assert_eq!(Unit::from_u8(8), Some(Unit::Degree));
    assert_eq!(Unit::from_u8(27), Some(Unit::Watt));
    assert_eq!(Unit::from_u8(30), Some(Unit::WattHour));
    assert_eq!(Unit::from_u8(33), Some(Unit::Ampere));
    assert_eq!(Unit::from_u8(35), Some(Unit::Volt));
    assert_eq!(Unit::from_u8(44), Some(Unit::Hertz));
}

#[test]
fn unknown_unit_numbers_map_to_none() {
    assert_eq!(Unit::from_u8(0), None);
    assert_eq!(Unit::from_u8(29), None);
    assert_eq!(Unit::from_u8(255), None);
}

#[test]
fn unit_symbols() {
    assert_eq!(Unit::Watt.as_str(), "W");
    assert_eq!(Unit::WattHour.as_str(), "Wh");
    assert_eq!(Unit::Volt.as_str(), "V");
    assert_eq!(Unit::Ampere.as_str(), "A");
    assert_eq!(Unit::Degree.as_str(), "\u{b0}");
    assert_eq!(Unit::Hertz.as_str(), "Hz");
}
