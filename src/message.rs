use vstd::prelude::*;

verus! {

/// The routing metadata of a message: the entity it concerns and its topic.
#[derive(Debug)]
pub struct MessageMetadata {
    pub aggregate_id: String,
    pub topic: String,
}

/// A command or an event: its metadata together with its serialized state.
#[derive(Debug)]
pub struct Message {
    pub aggregate_id: String,
    pub topic: String,
    pub state: String,
}

/// A transport-ready record of a message, for an external publication mechanism.
#[derive(Debug)]
pub struct Outbox {
    pub aggregate_id: String,
    pub topic: String,
    pub state: String,
}

impl Outbox {
    /// A record with the given metadata and serialized state.
    pub fn new(aggregate_id: String, topic: String, state: String) -> (r: Outbox)
        ensures
            r.aggregate_id@ == aggregate_id@,
            r.topic@ == topic@,
            r.state@ == state@,
    {
        Outbox { aggregate_id, topic, state }
    }
}

/// The mathematical value of a message.
pub struct MessageView {
    pub aggregate_id: Seq<char>,
    pub topic: Seq<char>,
    pub state: Seq<char>,
}

impl View for Message {
    type V = MessageView;

    open spec fn view(&self) -> MessageView {
        MessageView { aggregate_id: self.aggregate_id@, topic: self.topic@, state: self.state@ }
    }
}

impl Message {
    /// A message with the given metadata and serialized state.
    pub fn new(aggregate_id: String, topic: String, state: String) -> (r: Message)
        ensures
            r.aggregate_id@ == aggregate_id@,
            r.topic@ == topic@,
            r.state@ == state@,
    {
        Message { aggregate_id, topic, state }
    }

    /// The routing metadata of the message.
    pub fn metadata(&self) -> (r: MessageMetadata)
        ensures
            r.aggregate_id@ == self.aggregate_id@,
            r.topic@ == self.topic@,
    {
        MessageMetadata { aggregate_id: self.aggregate_id.clone(), topic: self.topic.clone() }
    }

    /// The serialized state of the message.
    pub fn state(&self) -> (r: String)
        ensures
            r@ == self.state@,
    {
        self.state.clone()
    }

    /// The outbox record of the message: its metadata and state at this moment.
    pub fn outbox(&self) -> (r: Outbox)
        ensures
            r.aggregate_id@ == self.aggregate_id@,
            r.topic@ == self.topic@,
            r.state@ == self.state@,
    {
        let metadata = self.metadata();
        Outbox::new(metadata.aggregate_id, metadata.topic, self.state())
    }

    /// An independent copy of the message, for handing to one handler.
    pub fn message_clone(&self) -> (r: Message)
        ensures
            r@ == self@,
    {
        Message {
            aggregate_id: self.aggregate_id.clone(),
            topic: self.topic.clone(),
            state: self.state.clone(),
        }
    }
}

} // verus!
