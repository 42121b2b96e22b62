//! The polling engine's decisions.
//!
//! One session runs `Starting -> Polling (repeating) -> Stopped`. On
//! entry it publishes the loading sentinel once; each polling iteration
//! then performs one fetch and publishes that fetch's outcome. The fetch
//! itself - transport, status, body decoding - is unverified work at the
//! boundary; what it came to is handed back in as a `FetchEvent`, and
//! every decision about it is made here: what to publish, whether to
//! stop, whether to wait out the poll interval.

use crate::api::CurrentWeather;
use crate::text::{canonical_digits, u64_to_string};
use vstd::prelude::*;
use vstd::string::StringExecFns;

verus! {

/// Tagged result of one polling attempt, as published to the consumer.
#[derive(Debug, Clone, PartialEq, Eq)]
pub enum UpdateOutcome {
    /// No fetch has completed yet.
    Loading,
    /// A fetch succeeded and its payload parsed.
    Success(CurrentWeather),
    /// A fetch reached the provider but came to nothing; the reason as text.
    Failure(String),
}

/// The mathematical shape of a published outcome.
pub enum OutcomeView {
    Loading,
    Success(CurrentWeather),
    Failure(Seq<char>),
}

/// The shape of an outcome value.
pub open spec fn outcome_view(o: UpdateOutcome) -> OutcomeView {
    match o {
        UpdateOutcome::Loading => OutcomeView::Loading,
        UpdateOutcome::Success(w) => OutcomeView::Success(w),
        UpdateOutcome::Failure(m) => OutcomeView::Failure(m@),
    }
}

/// What one fetch attempt came to, as the unverified transport layer
/// reports it.
#[derive(Debug, PartialEq, Eq)]
pub enum FetchEvent {
    /// The request never reached the provider: connection error or timeout.
    TransportFailure,
    /// The provider answered. `status` is its HTTP status code; `parsed`
    /// is the decoder's verdict on the body.
    Response { status: u16, parsed: Result<CurrentWeather, String> },
}

/// The canonical reason phrase of an HTTP status code, if the code is in
/// range and listed: a fixed table, a function of the code alone.
pub uninterp spec fn reason_of(status: u16) -> Option<Seq<char>>;

/// Relies on http's `StatusCode::from_u16` and
/// `StatusCode::canonical_reason`: the canonical reason phrase of a
/// status code, or nothing for an out-of-range or unlisted code.
#[verifier::external_body]
fn reason_phrase(status: u16) -> (r: Option<&'static str>)
    ensures
        match r {
            Some(p) => reason_of(status) == Some(p@),
            None => reason_of(status) is None,
        },
{
    match http::StatusCode::from_u16(status) {
        Ok(code) => code.canonical_reason(),
        Err(_) => None,
    }
}

/// The status line a failed response is reported with: the code, a
/// space, and the reason phrase, as the HTTP crate displays a status.
pub open spec fn status_text_spec(status: u16) -> Seq<char> {
    canonical_digits(status as int) + " "@ + (match reason_of(status) {
        Some(p) => p,
        None => "<unknown status code>"@,
    })
}

/// Render the status line of a response code.
pub fn status_text(status: u16) -> (r: String)
    ensures
        r@ == status_text_spec(status),
{
    let mut r = u64_to_string(status as u64);
    r.append(" ");
    match reason_phrase(status) {
        Some(p) => r.append(p),
        None => r.append("<unknown status code>"),
    }
    proof {
        assert(r@ =~= status_text_spec(status));
    }
    r
}

/// State of one polling session's engine.
#[derive(Debug, Clone, Copy, PartialEq, Eq, Structural)]
pub enum EngineState {
    /// Created, loading sentinel not yet published.
    Starting,
    /// Fetching on the configured interval.
    Polling,
    /// Terminal: nothing further is published.
    Stopped,
}

/// What one engine step decides: the state to continue in, the outcome
/// to publish, and whether to wait out the poll interval first.
#[derive(Debug, Clone, PartialEq, Eq)]
pub struct StepOutcome {
    /// The engine's next state.
    pub state: EngineState,
    /// The outcome to publish on the channel, if any.
    pub emission: Option<UpdateOutcome>,
    /// Whether to sleep for the poll interval before the next fetch.
    pub wait: bool,
}

/// The outcome one event is published as: nothing for a transport
/// failure, the status line for a non-OK status, the decoder's error for
/// an unparseable OK body, and the report for a parsed one.
pub open spec fn event_emission(e: FetchEvent) -> Option<OutcomeView> {
    match e {
        FetchEvent::TransportFailure => None,
        FetchEvent::Response { status, parsed } => if status != 200 {
            Some(OutcomeView::Failure(status_text_spec(status)))
        } else {
            match parsed {
                Ok(w) => Some(OutcomeView::Success(w)),
                Err(m) => Some(OutcomeView::Failure(m@)),
            }
        },
    }
}

/// The state after one event: a response ends a single-shot session;
/// everything else keeps polling.
pub open spec fn next_state(state: EngineState, e: FetchEvent, single_shot: bool) -> EngineState {
    if state is Polling {
        if e is Response && single_shot {
            EngineState::Stopped
        } else {
            EngineState::Polling
        }
    } else {
        state
    }
}

/// Enter a session: the loading sentinel is published once, before any
/// network activity, and the engine begins polling.
pub fn session_start() -> (r: (EngineState, UpdateOutcome))
    ensures
        r.0 is Polling,
        r.1 is Loading,
{
    (EngineState::Polling, UpdateOutcome::Loading)
}

/// Decide one polling iteration from what its fetch came to. A transport
/// failure publishes nothing and retries at once; any response publishes
/// exactly its outcome, stops a single-shot session, and otherwise waits
/// out the poll interval.
pub fn on_fetch(event: FetchEvent, single_shot: bool) -> (r: StepOutcome)
    ensures
        (match r.emission {
            Some(o) => Some(outcome_view(o)),
            None => None::<OutcomeView>,
        }) == event_emission(event),
        r.state == next_state(EngineState::Polling, event, single_shot),
        r.wait == (event is Response && !single_shot),
{
    match event {
        FetchEvent::TransportFailure => StepOutcome {
            state: EngineState::Polling,
            emission: None,
            wait: false,
        },
        FetchEvent::Response { status, parsed } => {
            let emission = if status != 200 {
                UpdateOutcome::Failure(status_text(status))
            } else {
                match parsed {
                    Ok(w) => UpdateOutcome::Success(w),
                    Err(m) => UpdateOutcome::Failure(m),
                }
            };
            StepOutcome {
                state: if single_shot {
                    EngineState::Stopped
                } else {
                    EngineState::Polling
                },
                emission: Some(emission),
                wait: !single_shot,
            }
        },
    }
}

/// Everything the engine publishes after the loading sentinel, given the
/// events its fetches come to while it still runs.
pub open spec fn run_emissions(
    state: EngineState,
    events: Seq<FetchEvent>,
    single_shot: bool,
) -> Seq<OutcomeView>
    decreases events.len(),
{
    if events.len() == 0 || !(state is Polling) {
        Seq::empty()
    } else {
        (match event_emission(events[0]) {
            Some(o) => seq![o],
            None => Seq::<OutcomeView>::empty(),
        }) + run_emissions(next_state(state, events[0], single_shot), events.skip(1), single_shot)
    }
}

/// The engine's state after the given events.
pub open spec fn run_state(
    state: EngineState,
    events: Seq<FetchEvent>,
    single_shot: bool,
) -> EngineState
    decreases events.len(),
{
    if events.len() == 0 {
        state
    } else {
        run_state(next_state(state, events[0], single_shot), events.skip(1), single_shot)
    }
}

/// Everything a session publishes, from its start: the loading sentinel,
/// then the outcome of each event.
pub open spec fn session_trace(events: Seq<FetchEvent>, single_shot: bool) -> Seq<OutcomeView> {
    seq![OutcomeView::Loading] + run_emissions(EngineState::Polling, events, single_shot)
}

/// After its start, the engine never publishes the loading sentinel
/// again.
pub proof fn lemma_run_emissions_no_loading(
    state: EngineState,
    events: Seq<FetchEvent>,
    single_shot: bool,
)
    ensures
        forall|i: int|
            0 <= i < run_emissions(state, events, single_shot).len() ==> !(run_emissions(
                state,
                events,
                single_shot,
            )[i] is Loading),
    decreases events.len(),
{
    if events.len() > 0 && state is Polling {
        lemma_run_emissions_no_loading(
            next_state(state, events[0], single_shot),
            events.skip(1),
            single_shot,
        );
    }
}

/// Law: a session publishes the loading sentinel exactly once, first:
/// before any other outcome, and never again.
pub proof fn lemma_loading_once_first(events: Seq<FetchEvent>, single_shot: bool)
    ensures
        session_trace(events, single_shot).len() >= 1,
        session_trace(events, single_shot)[0] is Loading,
        forall|i: int|
            1 <= i < session_trace(events, single_shot).len() ==> !(session_trace(
                events,
                single_shot,
            )[i] is Loading),
{
    lemma_run_emissions_no_loading(EngineState::Polling, events, single_shot);
}

/// A stopped engine stays stopped and publishes nothing.
pub proof fn lemma_stopped_stays(events: Seq<FetchEvent>, single_shot: bool)
    ensures
        run_state(EngineState::Stopped, events, single_shot) is Stopped,
        run_emissions(EngineState::Stopped, events, single_shot) =~= Seq::<OutcomeView>::empty(),
    decreases events.len(),
{
    if events.len() > 0 {
        lemma_stopped_stays(events.skip(1), single_shot);
    }
}

/// In single-shot mode, a polling engine publishes at most one outcome.
pub proof fn lemma_single_shot_emissions(state: EngineState, events: Seq<FetchEvent>)
    ensures
        run_emissions(state, events, true).len() <= 1,
    decreases events.len(),
{
    if events.len() > 0 && state is Polling {
        let rest = events.skip(1);
        match event_emission(events[0]) {
            Some(o) => {
                lemma_stopped_stays(rest, true);
            },
            None => {
                lemma_single_shot_emissions(EngineState::Polling, rest);
            },
        }
    }
}

/// Law: with poll interval zero a session publishes at most the loading
/// sentinel and one terminal outcome, and once some fetch has reached
/// the provider the engine is stopped.
pub proof fn lemma_single_shot_stops(events: Seq<FetchEvent>)
    ensures
        session_trace(events, true).len() <= 2,
        (exists|i: int| 0 <= i < events.len() && events[i] is Response) ==> run_state(
            EngineState::Polling,
            events,
            true,
        ) is Stopped,
    decreases events.len(),
{
    lemma_single_shot_emissions(EngineState::Polling, events);
    if exists|i: int| 0 <= i < events.len() && events[i] is Response {
        let i = choose|i: int| 0 <= i < events.len() && events[i] is Response;
        if events[0] is Response {
            lemma_stopped_stays(events.skip(1), true);
        } else {
            assert(events.skip(1)[i - 1] is Response);
            lemma_single_shot_stops(events.skip(1));
        }
    }
}

/// Law: with a non-zero poll interval the engine never stops by itself;
/// after any failure it keeps polling.
pub proof fn lemma_polling_continues(events: Seq<FetchEvent>)
    ensures
        run_state(EngineState::Polling, events, false) is Polling,
    decreases events.len(),
{
    if events.len() > 0 {
        lemma_polling_continues(events.skip(1));
    }
}

} // verus!
