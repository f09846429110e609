//! An in-process command and event dispatch core: one command runs its handler,
//! and the events it raises are drained in order through the handlers of their
//! topics, with stop sentinels curtailing the handlers of one event.

pub mod context;
pub mod guarantees;
pub mod message;
pub mod messagebus;
pub mod registry;
pub mod responses;
