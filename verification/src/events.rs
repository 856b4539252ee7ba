//! The event listener.
//!
//! The bot's listener is an explicit placeholder: it receives every platform
//! event, unconditionally succeeds, and has no side effect. Event delivery
//! itself is owned by the external gateway framework, which calls into this
//! function with each event it dispatches.

use vstd::prelude::*;

verus! {

/// The error type of the event listener. The listener never produces one;
/// the type exists so the listener's signature matches what the dispatch
/// layer expects of an event handler.
pub struct EventError {
    pub message: String,
}

/// Handles one platform event of any shape: always succeeds, and neither
/// reads nor changes anything.
pub fn listen<E>(event: &E) -> (r: Result<(), EventError>)
    ensures
        r is Ok,
{
    let _ = event;
    Ok(())
}

} // verus!
