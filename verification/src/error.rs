//! Error handling around the engine: the engine's own error type, and the
//! two helpers through which components surface failures as events rather
//! than panics.

use vstd::prelude::*;

use crate::entity::EventMessage;

verus! {

/// Declares the channel error type of the outside crate the application
/// sends events with, so that [`safe_send`] can take its result; the error
/// only means the receiving side is gone.
#[verifier::external_type_specification]
#[verifier::external_body]
#[verifier::reject_recursive_types(T)]
pub struct ExSendError<T>(crossbeam::channel::SendError<T>);

/// An error of the engine's own, carrying a message for the interface.
#[derive(Debug, Clone)]
pub struct CustomError {
    pub message: String,
}

impl CustomError {
    pub fn new(message: String) -> (e: Self)
        ensures
            e.message == message,
    {
        CustomError { message }
    }

    /// The message carried, for display by the interface.
    pub fn message(&self) -> (m: &String)
        ensures
            m == &self.message,
    {
        &self.message
    }
}

/// Handle result function of methods: hand the content through if there is
/// no error; otherwise turn the error into a show-error event and return
/// nothing.
pub fn handle_result<T>(result: Result<T, CustomError>, events: &mut Vec<EventMessage>) -> (r:
    Option<T>)
    ensures
        result matches Ok(t) ==> {
            &&& r == Some(t)
            &&& final(events)@ == old(events)@
        },
        result matches Err(e) ==> {
            &&& r is None
            &&& final(events)@ == old(events)@.push(EventMessage::ShowError(e.message))
        },
{
    match result {
        Ok(t) => Some(t),
        Err(e) => {
            events.push(EventMessage::ShowError(e.message));
            None
        },
    }
}

/// Consume the outcome of an event send. A failed send only means the
/// receiving side has gone away, which playback treats as harmless, so the
/// outcome is dropped either way.
pub fn safe_send<T>(result: Result<(), crossbeam::channel::SendError<T>>) {
    let _ = result;
}

} // verus!
