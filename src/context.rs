use vstd::prelude::*;

use std::collections::VecDeque;

use crate::message::Message;

verus! {

/// The queue of pending events of one command invocation.
pub struct ContextManager {
    pub event_queue: VecDeque<Message>,
}

impl View for ContextManager {
    type V = Seq<Message>;

    open spec fn view(&self) -> Seq<Message> {
        self.event_queue@
    }
}

impl ContextManager {
    /// A fresh, empty queue.
    pub fn new() -> (r: ContextManager)
        ensures
            r@ == Seq::<Message>::empty(),
    {
        ContextManager { event_queue: VecDeque::new() }
    }

    /// Appends an event at the tail of the queue.
    pub fn push_back(&mut self, event: Message)
        ensures
            final(self)@ == old(self)@.push(event),
    {
        self.event_queue.push_back(event);
    }

    /// Removes and returns the event at the head of the queue, if any.
    pub fn pop_front(&mut self) -> (r: Option<Message>)
        ensures
            old(self)@.len() == 0 ==> r is None && final(self)@ == old(self)@,
            old(self)@.len() > 0 ==> r == Some(old(self)@[0]) && final(self)@
                == old(self)@.drop_first(),
    {
        self.event_queue.pop_front()
    }

    /// The number of pending events.
    pub fn len(&self) -> (r: usize)
        ensures
            r == self@.len(),
    {
        self.event_queue.len()
    }

    /// Whether no event is pending.
    pub fn is_empty(&self) -> (r: bool)
        ensures
            r == (self@.len() == 0),
    {
        self.event_queue.len() == 0
    }
}

} // verus!
