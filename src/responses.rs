use vstd::prelude::*;

use crate::message::Message;

verus! {

/// The closed set of base signals that every application error reduces to.
#[derive(Debug)]
pub enum BaseError {
    /// No handler is registered for the command's type.
    CommandNotFound,
    /// No handler list is registered for the event's topic.
    EventNotFound,
    /// Stop the remaining handlers of the current event.
    StopSentinel,
    /// Stop the remaining handlers of the current event and queue the carried event.
    StopSentinelWithEvent(Message),
    /// A failure of the storage layer, with its description.
    DatabaseError(String),
    /// Any other application failure.
    ServiceError,
}

impl BaseError {
    /// Whether the error is one of the two control-flow sentinels.
    pub open spec fn is_sentinel(&self) -> bool {
        self is StopSentinel || self is StopSentinelWithEvent
    }
}

} // verus!
