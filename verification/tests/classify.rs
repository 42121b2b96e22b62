use openweathermap::{classify, LocationSpec};

#[test]
fn numeric_string_is_by_id() {
    assert_eq!(classify("2950159"), LocationSpec::ById(2950159));
}

#[test]
fn numeric_string_with_plus_sign_is_by_id() {
    assert_eq!(classify("+12"), LocationSpec::ById(12));
}

#[test]
fn numeric_string_with_leading_zeros_is_by_id() {
    assert_eq!(classify("0012"), LocationSpec::ById(12));
}

#[test]
fn zero_is_by_id() {
    assert_eq!(classify("0"), LocationSpec::ById(0));
}

#[test]
fn largest_id_is_by_id() {
    assert_eq!(
        classify("18446744073709551615"),
        LocationSpec::ById(u64::MAX)
    );
}

#[test]
fn overflowing_number_is_by_name() {
    assert_eq!(
        classify("99999999999999999999999"),
        LocationSpec::ByName("99999999999999999999999".to_string())
    );
}

#[test]
fn coordinate_pair_is_by_coordinates() {
    assert_eq!(
        classify("52.5244,13.4105"),
        LocationSpec::ByCoordinates {
            lat: "52.5244".to_string(),
            lon: "13.4105".to_string(),
        }
    );
}

#[test]
fn spaced_coordinate_pair_is_by_coordinates() {
    assert_eq!(
        classify("52.5244 ,\t 13.4105"),
        LocationSpec::ByCoordinates {
            lat: "52.5244".to_string(),
            lon: "13.4105".to_string(),
        }
    );
}

#[test]
fn negative_coordinates_are_captured_with_sign() {
    assert_eq!(
        classify("-10.5,-3.25"),
        LocationSpec::ByCoordinates {
            lat: "-10.5".to_string(),
            lon: "-3.25".to_string(),
        }
    );
}

#[test]
fn embedded_coordinate_pair_is_found() {
    assert_eq!(
        classify("near 1.5, 2.75 somewhere"),
        LocationSpec::ByCoordinates {
            lat: "1.5".to_string(),
            lon: "2.75".to_string(),
        }
    );
}

#[test]
fn leftmost_coordinate_pair_wins() {
    assert_eq!(
        classify("1.0,2.0 and 3.0,4.0"),
        LocationSpec::ByCoordinates {
            lat: "1.0".to_string(),
            lon: "2.0".to_string(),
        }
    );
}

#[test]
fn city_with_country_is_by_name() {
    assert_eq!(
        classify("Berlin,DE"),
        LocationSpec::ByName("Berlin,DE".to_string())
    );
}

#[test]
fn plain_city_is_by_name() {
    assert_eq!(classify("Berlin"), LocationSpec::ByName("Berlin".to_string()));
}

#[test]
fn empty_string_is_by_name() {
    assert_eq!(classify(""), LocationSpec::ByName(String::new()));
}

#[test]
fn integer_pair_without_dots_is_by_name() {
    assert_eq!(classify("1,2"), LocationSpec::ByName("1,2".to_string()));
}

#[test]
fn single_decimal_is_by_name() {
    assert_eq!(classify("52.5244"), LocationSpec::ByName("52.5244".to_string()));
}

#[test]
fn decimal_without_fraction_digits_is_by_name() {
    assert_eq!(classify("52.,13.4"), LocationSpec::ByName("52.,13.4".to_string()));
}

#[test]
fn unicode_name_is_by_name() {
    assert_eq!(
        classify("Zürich,CH"),
        LocationSpec::ByName("Zürich,CH".to_string())
    );
}
