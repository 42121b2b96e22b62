pub mod api;
pub mod channel;
pub mod engine;
pub mod location;
pub mod request;
pub mod text;

pub use api::{
    Alert, Clouds, Coord, Current, CurrentWeather, DailyFeelsLike, DailyTemp, Day, Hour, Main,
    Minute, OneCall, Sys, Volume, Weather, Wind,
};
pub use channel::{first_decision, update, Receiver};
pub use engine::{
    on_fetch, session_start, status_text, EngineState, FetchEvent, StepOutcome, UpdateOutcome,
};
pub use location::{classify, LocationSpec};
pub use request::{build_url, PollConfig, Units};

use vstd::prelude::*;

verus! {

/// Textual form of the loading sentinel: the message a session delivers
/// before its first real fetch has completed.
pub const LOADING: &'static str = "loading...";

pub fn loading_message() -> (r: &'static str)
    ensures
        r@ == LOADING@,
{
    LOADING
}

} // verus!
