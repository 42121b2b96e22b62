//! The consumer's side of a session.
//!
//! A session hands its consumer the receiving end of an unbounded
//! single-producer/single-consumer channel of outcomes. Two access
//! patterns are built on it: a non-blocking poll that takes the next
//! queued outcome if there is one, and an awaiting helper that spins on
//! the poll until the first real result. The spin itself is unbounded
//! waiting and lives with the unverified shell; what it does with each
//! polled value is `first_decision`, verified here for every value the
//! channel could hold.

use crate::api::CurrentWeather;
use crate::engine::UpdateOutcome;
use vstd::prelude::*;

verus! {

#[verifier::external_type_specification]
#[verifier::external_body]
#[verifier::reject_recursive_types(T)]
pub struct ExReceiver<T>(std::sync::mpsc::Receiver<T>);

/// Receiver handle of one polling session's channel: what a session
/// start hands back, and what updates are polled from.
pub type Receiver = std::sync::mpsc::Receiver<UpdateOutcome>;

/// Relies on std's mpsc `Receiver::try_recv`: an already-queued value,
/// received without blocking, or nothing when the channel is empty or
/// disconnected.
#[verifier::external_body]
fn try_next(receiver: &Receiver) -> (r: Option<UpdateOutcome>) {
    receiver.try_recv().ok()
}

/// Receive a session's next queued outcome without waiting: nothing
/// when no new outcome is pending, else the oldest one not yet taken.
/// Never blocks and never fails on an empty channel.
pub fn update(receiver: &Receiver) -> Option<UpdateOutcome> {
    try_next(receiver)
}

/// What an awaiting consumer does with one poll's result: keep waiting
/// on "nothing yet" and on the loading sentinel, finish with the first
/// success or failure, unwrapped. The loading sentinel is never handed
/// out as a final result.
pub fn first_decision(polled: Option<UpdateOutcome>) -> (r: Option<
    Result<CurrentWeather, String>,
>)
    ensures
        r is Some <==> (polled matches Some(o) && !(o is Loading)),
        polled matches Some(UpdateOutcome::Success(w)) ==> r == Some(
            Ok::<CurrentWeather, String>(w),
        ),
        polled matches Some(UpdateOutcome::Failure(m)) ==> r == Some(
            Err::<CurrentWeather, String>(m),
        ),
{
    match polled {
        Some(UpdateOutcome::Success(w)) => Some(Ok(w)),
        Some(UpdateOutcome::Failure(m)) => Some(Err(m)),
        Some(UpdateOutcome::Loading) => None,
        None => None,
    }
}

} // verus!

