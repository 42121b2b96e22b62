use openweathermap::{build_url, classify, PollConfig, Units};

fn config(units: Units, lang: &str, key: &str) -> PollConfig {
    PollConfig {
        units,
        lang: lang.to_string(),
        api_key: key.to_string(),
        poll_mins: 10,
    }
}

#[test]
fn url_for_city_id() {
    let loc = classify("2950159");
    let url = build_url(&loc, &config(Units::Metric, "en", "mykey"));
    assert_eq!(
        url,
        "http://api.openweathermap.org/data/2.5/weather?id=2950159&units=metric&lang=en&appid=mykey"
    );
}

#[test]
fn url_for_coordinates() {
    let loc = classify("52.5244,13.4105");
    let url = build_url(&loc, &config(Units::Metric, "en", "mykey"));
    assert_eq!(
        url,
        "http://api.openweathermap.org/data/2.5/weather?lat=52.5244&lon=13.4105&units=metric&lang=en&appid=mykey"
    );
}

#[test]
fn url_for_city_name_with_country() {
    let loc = classify("Berlin,DE");
    let url = build_url(&loc, &config(Units::Metric, "en", "mykey"));
    assert_eq!(
        url,
        "http://api.openweathermap.org/data/2.5/weather?q=Berlin,DE&units=metric&lang=en&appid=mykey"
    );
}

#[test]
fn url_renders_id_canonically() {
    let loc = classify("+0012");
    let url = build_url(&loc, &config(Units::Standard, "de", "k"));
    assert_eq!(
        url,
        "http://api.openweathermap.org/data/2.5/weather?id=12&units=standard&lang=de&appid=k"
    );
}

#[test]
fn url_for_imperial_units() {
    let loc = classify("London");
    let url = build_url(&loc, &config(Units::Imperial, "en", "k2"));
    assert_eq!(
        url,
        "http://api.openweathermap.org/data/2.5/weather?q=London&units=imperial&lang=en&appid=k2"
    );
}

#[test]
fn units_codes() {
    assert_eq!(Units::Standard.code(), "standard");
    assert_eq!(Units::Metric.code(), "metric");
    assert_eq!(Units::Imperial.code(), "imperial");
}

#[test]
fn single_shot_is_zero_interval() {
    let mut cfg = config(Units::Metric, "en", "k");
    assert!(!cfg.single_shot());
    cfg.poll_mins = 0;
    assert!(cfg.single_shot());
}

#[test]
fn url_is_deterministic() {
    let loc = classify("Paris,FR");
    let cfg = config(Units::Metric, "fr", "k");
    assert_eq!(build_url(&loc, &cfg), build_url(&loc, &cfg));
}
