use thermostat::MilliCelsius;

#[test]
fn integer_constructor_accepts_closed_domain_and_rejects_neighbors() {
    assert_eq!(
        MilliCelsius::from_milli_celsius(MilliCelsius::min_value().as_milli_celsius()),
        Some(MilliCelsius::min_value())
    );
    assert_eq!(
        MilliCelsius::from_milli_celsius(MilliCelsius::max_value().as_milli_celsius()),
        Some(MilliCelsius::max_value())
    );
    assert_eq!(MilliCelsius::from_milli_celsius(-100_001), None);
    assert_eq!(MilliCelsius::from_milli_celsius(200_001), None);
}

#[test]
fn integer_accessor_round_trips() {
    let value = MilliCelsius::from_milli_celsius(21_063)
        .unwrap_or_else(|| panic!("test value must be in range"));
    assert_eq!(value.as_milli_celsius(), 21_063);
    assert_eq!(MilliCelsius::min_value().as_milli_celsius(), -100_000);
    assert_eq!(MilliCelsius::max_value().as_milli_celsius(), 200_000);
}

#[test]
fn default_temperature_is_zero_celsius() {
    assert_eq!(MilliCelsius::default().as_milli_celsius(), 0);
}
