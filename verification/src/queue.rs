use vstd::prelude::*;
use crate::error::ClockError;
use crate::message::Message;

verus! {

/// What a listener does next.
#[derive(Debug, Copy, Clone, PartialEq, Eq, Structural)]
pub enum ListenerAction {
    /// Wait for the next frame.
    Receive,
    /// Hand the message to the caller's callback, then go round again.
    Deliver(Message),
    /// Leave the loop without an error.
    Finish,
    /// Leave the loop with this error.
    Fail(ClockError),
}

impl ListenerAction {
    /// What the loop returns if this action ends it.
    pub open spec fn outcome(self) -> Option<Result<(), ClockError>> {
        match self {
            ListenerAction::Finish => Some(Ok(())),
            ListenerAction::Fail(error) => Some(Err(error)),
            _ => None,
        }
    }

    /// What the loop returns if this action ends it, `None` if it goes on.
    pub fn result(&self) -> (result: Option<Result<(), ClockError>>)
        ensures
            result == self.outcome(),
    {
        match self {
            ListenerAction::Finish => Some(Ok(())),
            ListenerAction::Fail(error) => Some(Err(*error)),
            _ => None,
        }
    }
}

/// What a listener does once it has looked at its flag, at the start of
/// each round: it goes on to receive while the flag is up, and leaves without
/// an error once it is down.
pub fn before_receive(running: bool) -> (action: ListenerAction)
    ensures
        action == if running {
            ListenerAction::Receive
        } else {
            ListenerAction::Finish
        },
{
    if running {
        ListenerAction::Receive
    } else {
        ListenerAction::Finish
    }
}

/// What a listener does with what the transport gave: a frame that decodes
/// is delivered; a failure of the transport and a frame that does not decode
/// both end the loop with their error. No frame is skipped.
pub fn after_receive(received: Result<Vec<u8>, ClockError>) -> (action: ListenerAction)
    ensures
        action == match received {
            Err(error) => ListenerAction::Fail(error),
            Ok(frame) => match Message::decode(frame@) {
                Ok(message) => ListenerAction::Deliver(message),
                Err(error) => ListenerAction::Fail(error),
            },
        },
{
    match received {
        Err(error) => ListenerAction::Fail(error),
        Ok(frame) => match Message::try_from(frame) {
            Ok(message) => ListenerAction::Deliver(message),
            Err(error) => ListenerAction::Fail(error),
        },
    }
}

} // verus!
