use openweathermap::{first_decision, loading_message, update, UpdateOutcome, LOADING};

#[test]
fn empty_channel_polls_as_nothing_yet() {
    let (_tx, rx): (std::sync::mpsc::Sender<UpdateOutcome>, openweathermap::Receiver) =
        std::sync::mpsc::channel();
    assert_eq!(update(&rx), None);
    assert_eq!(update(&rx), None);
}

#[test]
fn disconnected_channel_polls_as_nothing_yet() {
    let (tx, rx): (std::sync::mpsc::Sender<UpdateOutcome>, openweathermap::Receiver) =
        std::sync::mpsc::channel();
    drop(tx);
    assert_eq!(update(&rx), None);
}

#[test]
fn outcomes_are_polled_in_emission_order() {
    let (tx, rx): (std::sync::mpsc::Sender<UpdateOutcome>, openweathermap::Receiver) =
        std::sync::mpsc::channel();
    tx.send(UpdateOutcome::Loading).unwrap();
    tx.send(UpdateOutcome::Failure("first".to_string())).unwrap();
    tx.send(UpdateOutcome::Failure("second".to_string())).unwrap();
    assert_eq!(update(&rx), Some(UpdateOutcome::Loading));
    assert_eq!(
        update(&rx),
        Some(UpdateOutcome::Failure("first".to_string()))
    );
    assert_eq!(
        update(&rx),
        Some(UpdateOutcome::Failure("second".to_string()))
    );
    assert_eq!(update(&rx), None);
}

#[test]
fn awaiting_discards_loading_and_nothing_yet() {
    assert_eq!(first_decision(None), None);
    assert_eq!(first_decision(Some(UpdateOutcome::Loading)), None);
}

#[test]
fn awaiting_finishes_on_the_first_failure() {
    assert_eq!(
        first_decision(Some(UpdateOutcome::Failure("401 Unauthorized".to_string()))),
        Some(Err("401 Unauthorized".to_string()))
    );
}

#[test]
fn loading_sentinel_text() {
    assert_eq!(LOADING, "loading...");
    assert_eq!(loading_message(), "loading...");
}
