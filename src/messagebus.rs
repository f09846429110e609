use vstd::prelude::*;

use crate::context::ContextManager;
use crate::message::{Message, MessageView};
use crate::registry::{CommandRegistry, EventRegistry, HandlerId};
use crate::responses::BaseError;

verus! {

/// The command and event handler tables of an application, read-only once built.
pub struct MessageBus {
    pub command_handler: CommandRegistry,
    pub event_handler: EventRegistry,
}

/// The event whose handlers are being run, and how far they have got.
pub struct EventDispatch {
    pub event: Message,
    pub handlers: Vec<HandlerId>,
    pub next: usize,
    pub stopped: bool,
}

/// The mathematical value of an `EventDispatch`.
pub struct CursorView {
    pub event: Message,
    pub handlers: Seq<HandlerId>,
    pub next: nat,
    pub stopped: bool,
}

impl View for EventDispatch {
    type V = CursorView;

    open spec fn view(&self) -> CursorView {
        CursorView {
            event: self.event,
            handlers: self.handlers@,
            next: self.next as nat,
            stopped: self.stopped,
        }
    }
}

/// The state of one command invocation: the command handler chosen for it, the
/// command handler's result once it is known, and the event being dispatched.
pub struct Invocation<R, E> {
    pub command_handler: HandlerId,
    pub result: Option<Result<R, E>>,
    pub current: Option<EventDispatch>,
    pub running: bool,
}

/// The mathematical value of an `Invocation`.
pub struct InvocationView<R, E> {
    pub command_handler: HandlerId,
    pub result: Option<Result<R, E>>,
    pub cursor: Option<CursorView>,
    pub running: bool,
}

impl<R, E> View for Invocation<R, E> {
    type V = InvocationView<R, E>;

    open spec fn view(&self) -> InvocationView<R, E> {
        InvocationView {
            command_handler: self.command_handler,
            result: self.result,
            cursor: match self.current {
                Some(d) => Some(d@),
                None => None,
            },
            running: self.running,
        }
    }
}

/// What the caller is to do next for an invocation.
pub enum Step {
    /// Run the handler with this copy of the current event, then report its outcome.
    RunHandler { handler: HandlerId, event: Message },
    /// The event was taken off the queue, but no handler is registered for its topic.
    EventNotFound { event: Message },
    /// The event at the head of the queue was taken up; its handlers follow.
    EventTakenUp,
    /// The queue is drained, or the command failed: the invocation is over.
    Finished,
}

/// The mathematical value of a `Step`; a handler's copy of the event is given by its value.
pub enum StepView {
    RunHandler { handler: HandlerId, copy: MessageView },
    EventNotFound { event: Message },
    EventTakenUp,
    Finished,
}

impl View for Step {
    type V = StepView;

    open spec fn view(&self) -> StepView {
        match self {
            Step::RunHandler { handler, event } => StepView::RunHandler {
                handler: *handler,
                copy: event@,
            },
            Step::EventNotFound { event } => StepView::EventNotFound { event: *event },
            Step::EventTakenUp => StepView::EventTakenUp,
            Step::Finished => StepView::Finished,
        }
    }
}

/// No handler of the current event remains to be run: there is none, all have
/// run, or a sentinel stopped them.
pub open spec fn cursor_idle(c: Option<CursorView>) -> bool {
    match c {
        None => true,
        Some(c) => c.stopped || c.next >= c.handlers.len(),
    }
}

/// One step of the dispatch loop, from the invocation's state, the event routes
/// and the queue, to the new state, the new queue and what the caller is to do.
pub open spec fn next_spec<R, E>(
    s: InvocationView<R, E>,
    routes: Map<Seq<char>, Vec<HandlerId>>,
    q: Seq<Message>,
) -> (InvocationView<R, E>, Seq<Message>, StepView) {
    match s.result {
        Some(Ok(_)) => if !cursor_idle(s.cursor) {
            let c = s.cursor.unwrap();
            (
                InvocationView {
                    cursor: Some(CursorView { next: c.next + 1, ..c }),
                    running: true,
                    ..s
                },
                q,
                StepView::RunHandler { handler: c.handlers[c.next as int], copy: c.event@ },
            )
        } else if q.len() == 0 {
            (InvocationView { cursor: None, ..s }, q, StepView::Finished)
        } else if routes.contains_key(q[0].topic@) {
            (
                InvocationView {
                    cursor: Some(
                        CursorView {
                            event: q[0],
                            handlers: routes[q[0].topic@]@,
                            next: 0,
                            stopped: false,
                        },
                    ),
                    ..s
                },
                q.drop_first(),
                StepView::EventTakenUp,
            )
        } else {
            (
                InvocationView { cursor: None, ..s },
                q.drop_first(),
                StepView::EventNotFound { event: q[0] },
            )
        },
        _ => (s, q, StepView::Finished),
    }
}

/// The effect of a handler's outcome on the invocation's state and the queue.
pub open spec fn done_spec<R, E>(
    s: InvocationView<R, E>,
    outcome: Result<(), BaseError>,
    q: Seq<Message>,
) -> (InvocationView<R, E>, Seq<Message>) {
    let c = s.cursor.unwrap();
    match outcome {
        Err(BaseError::StopSentinel) => (
            InvocationView {
                cursor: Some(CursorView { stopped: true, ..c }),
                running: false,
                ..s
            },
            q,
        ),
        Err(BaseError::StopSentinelWithEvent(e)) => (
            InvocationView {
                cursor: Some(CursorView { stopped: true, ..c }),
                running: false,
                ..s
            },
            q.push(e),
        ),
        _ => (InvocationView { running: false, ..s }, q),
    }
}

impl MessageBus {
    /// Both tables hold each key once.
    pub open spec fn wf(&self) -> bool {
        self.command_handler.wf() && self.event_handler.wf()
    }

    /// A bus over the given handler tables.
    pub fn new(command_handler: CommandRegistry, event_handler: EventRegistry) -> (r: MessageBus)
        ensures
            r.command_handler == command_handler,
            r.event_handler == event_handler,
    {
        MessageBus { command_handler, event_handler }
    }

    /// Starts an invocation of `command`: chooses the one handler registered for
    /// its type, or fails with `CommandNotFound`, in which case nothing is dispatched.
    pub fn handle<R, E>(&self, command: &Message) -> (r: Result<Invocation<R, E>, BaseError>)
        requires
            self.wf(),
        ensures
            r is Ok <==> self.command_handler@.contains_key(command.topic@),
            r matches Ok(inv) ==> inv@ == (InvocationView::<R, E> {
                command_handler: self.command_handler@[command.topic@],
                result: None,
                cursor: None,
                running: false,
            }),
            r matches Err(e) ==> e == BaseError::CommandNotFound,
    {
        match self.command_handler.lookup(&command.topic) {
            Some(h) => Ok(Invocation { command_handler: *h, result: None, current: None, running: false }),
            None => Err(BaseError::CommandNotFound),
        }
    }
}

/// An element-for-element copy of a handler list.
fn copy_handlers(v: &Vec<HandlerId>) -> (r: Vec<HandlerId>)
    ensures
        r@ == v@,
{
    let mut r: Vec<HandlerId> = Vec::new();
    let mut i: usize = 0;
    while i < v.len()
        invariant
            0 <= i <= v@.len(),
            r@ == v@.subrange(0, i as int),
        decreases v@.len() - i,
    {
        r.push(v[i]);
        i += 1;
    }
    assert(r@ =~= v@);
    r
}

impl<R, E> Invocation<R, E> {
    /// Records the result of the command handler.
    pub fn command_done(&mut self, res: Result<R, E>)
        requires
            old(self).result is None,
        ensures
            final(self)@ == (InvocationView { result: Some(res), ..old(self)@ }),
    {
        self.result = Some(res);
    }

    /// Takes one step of the dispatch loop: runs the next handler of the current
    /// event, or takes up the event at the head of the queue, or finishes.
    pub fn next(&mut self, bus: &MessageBus, ctx: &mut ContextManager) -> (step: Step)
        requires
            bus.wf(),
            old(self).result is Some,
            !old(self).running,
        ensures
            ({
                let (s, q, st) = next_spec(old(self)@, bus.event_handler@, old(ctx)@);
                final(self)@ == s && final(ctx)@ == q && step@ == st
            }),
    {
        let failed = match &self.result {
            Some(Ok(_)) => false,
            _ => true,
        };
        if failed {
            return Step::Finished;
        }
        let current = self.current.take();
        match current {
            Some(d) => {
                if !d.stopped && d.next < d.handlers.len() {
                    let handler = d.handlers[d.next];
                    let event = d.event.message_clone();
                    self.current = Some(EventDispatch { next: d.next + 1, ..d });
                    self.running = true;
                    return Step::RunHandler { handler, event };
                }
            },
            None => {},
        }
        match ctx.pop_front() {
            None => Step::Finished,
            Some(event) => match bus.event_handler.lookup(&event.topic) {
                Some(hs) => {
                    let handlers = copy_handlers(hs);
                    self.current = Some(EventDispatch { event, handlers, next: 0, stopped: false });
                    Step::EventTakenUp
                },
                None => Step::EventNotFound { event },
            },
        }
    }

    /// Applies the outcome of the handler that the last step ran: a stop sentinel
    /// ends the current event's handlers, queuing the carried event if there is one;
    /// any other outcome lets the next handler run.
    pub fn handler_done(&mut self, outcome: Result<(), BaseError>, ctx: &mut ContextManager)
        requires
            old(self).running,
            old(self).current is Some,
        ensures
            (final(self)@, final(ctx)@) == done_spec(old(self)@, outcome, old(ctx)@),
    {
        self.running = false;
        match outcome {
            Err(BaseError::StopSentinel) => {
                let d = self.current.take().unwrap();
                self.current = Some(EventDispatch { stopped: true, ..d });
            },
            Err(BaseError::StopSentinelWithEvent(e)) => {
                let d = self.current.take().unwrap();
                self.current = Some(EventDispatch { stopped: true, ..d });
                ctx.push_back(e);
            },
            _ => {},
        }
    }

    /// Ends the invocation with the command handler's result.
    pub fn finish(self) -> (r: Result<R, E>)
        requires
            self.result is Some,
        ensures
            r == self.result.unwrap(),
    {
        self.result.unwrap()
    }
}

} // verus!
