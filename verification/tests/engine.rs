use openweathermap::{
    first_decision, on_fetch, session_start, status_text, Clouds, Coord, CurrentWeather,
    EngineState, FetchEvent, Main, Sys, UpdateOutcome, Weather, Wind,
};

fn sample_report() -> CurrentWeather {
    CurrentWeather {
        coord: Coord {
            lon: "13.4105".to_string(),
            lat: "52.5244".to_string(),
        },
        weather: vec![Weather {
            id: 800,
            main: "Clear".to_string(),
            description: "clear sky".to_string(),
            icon: "01d".to_string(),
        }],
        base: "stations".to_string(),
        main: Main {
            temp: "21.5".to_string(),
            feels_like: "21.0".to_string(),
            pressure: "1013".to_string(),
            humidity: "40".to_string(),
            temp_min: "19.0".to_string(),
            temp_max: "23.0".to_string(),
            sea_level: None,
            grnd_level: None,
        },
        visibility: 10000,
        wind: Wind {
            speed: "3.6".to_string(),
            deg: "160".to_string(),
            gust: None,
        },
        clouds: Clouds {
            all: "0".to_string(),
        },
        rain: None,
        snow: None,
        dt: 1_600_000_000,
        sys: Sys {
            type_: Some(1),
            id: Some(1275),
            message: None,
            country: "DE".to_string(),
            sunrise: 1_599_969_000,
            sunset: 1_600_014_000,
        },
        timezone: 7200,
        id: 2950159,
        name: "Berlin".to_string(),
        cod: 200,
    }
}

#[test]
fn session_start_emits_loading() {
    let (state, first) = session_start();
    assert_eq!(state, EngineState::Polling);
    assert_eq!(first, UpdateOutcome::Loading);
}

#[test]
fn transport_failure_retries_silently() {
    let step = on_fetch(FetchEvent::TransportFailure, false);
    assert_eq!(step.emission, None);
    assert_eq!(step.state, EngineState::Polling);
    assert!(!step.wait);
}

#[test]
fn transport_failure_does_not_stop_single_shot() {
    let step = on_fetch(FetchEvent::TransportFailure, true);
    assert_eq!(step.emission, None);
    assert_eq!(step.state, EngineState::Polling);
    assert!(!step.wait);
}

#[test]
fn unauthorized_is_reported_and_polling_continues() {
    let step = on_fetch(
        FetchEvent::Response {
            status: 401,
            parsed: Err("401 body did not parse".to_string()),
        },
        false,
    );
    assert_eq!(
        step.emission,
        Some(UpdateOutcome::Failure("401 Unauthorized".to_string()))
    );
    assert_eq!(step.state, EngineState::Polling);
    assert!(step.wait);
}

#[test]
fn unauthorized_stops_a_single_shot_session() {
    let step = on_fetch(
        FetchEvent::Response {
            status: 401,
            parsed: Err("401 body did not parse".to_string()),
        },
        true,
    );
    assert_eq!(
        step.emission,
        Some(UpdateOutcome::Failure("401 Unauthorized".to_string()))
    );
    assert_eq!(step.state, EngineState::Stopped);
    assert!(!step.wait);
}

#[test]
fn unparseable_ok_body_reports_the_decoder_error() {
    let message = "missing field `coord` at line 1 column 57".to_string();
    let step = on_fetch(
        FetchEvent::Response {
            status: 200,
            parsed: Err(message.clone()),
        },
        true,
    );
    assert_eq!(step.emission, Some(UpdateOutcome::Failure(message)));
    assert_eq!(step.state, EngineState::Stopped);
}

#[test]
fn parsed_ok_body_is_a_success() {
    let step = on_fetch(
        FetchEvent::Response {
            status: 200,
            parsed: Ok(sample_report()),
        },
        false,
    );
    assert_eq!(step.emission, Some(UpdateOutcome::Success(sample_report())));
    assert_eq!(step.state, EngineState::Polling);
    assert!(step.wait);
}

#[test]
fn single_shot_success_stops_the_session() {
    let step = on_fetch(
        FetchEvent::Response {
            status: 200,
            parsed: Ok(sample_report()),
        },
        true,
    );
    assert_eq!(step.emission, Some(UpdateOutcome::Success(sample_report())));
    assert_eq!(step.state, EngineState::Stopped);
    assert!(!step.wait);
}

#[test]
fn awaiting_finishes_on_the_first_success() {
    assert_eq!(
        first_decision(Some(UpdateOutcome::Success(sample_report()))),
        Some(Ok(sample_report()))
    );
}

#[test]
fn status_text_uses_the_canonical_reason() {
    assert_eq!(status_text(401), "401 Unauthorized");
    assert_eq!(status_text(200), "200 OK");
    assert_eq!(status_text(404), "404 Not Found");
    assert_eq!(status_text(503), "503 Service Unavailable");
}

#[test]
fn status_text_for_an_unlisted_code() {
    assert_eq!(status_text(599), "599 <unknown status code>");
}
