use vstd::prelude::*;

use crate::message::Message;
use crate::messagebus::{cursor_idle, done_spec, next_spec, CursorView, InvocationView, StepView};
use crate::registry::HandlerId;
use crate::responses::BaseError;

verus! {

/// The step that takes up the event at the head of a non-empty queue `q`: it
/// leaves the rest of the queue in order and either starts the event's handler
/// list or reports that its topic has none.
pub open spec fn takes_up_head<R, E>(
    s: InvocationView<R, E>,
    routes: Map<Seq<char>, Vec<HandlerId>>,
    q: Seq<Message>,
) -> bool {
    let (s2, q2, st) = next_spec(s, routes, q);
    &&& q2 == q.drop_first()
    &&& s2.result == s.result
    &&& !s2.running
    &&& if routes.contains_key(q[0].topic@) {
        &&& st == StepView::EventTakenUp
        &&& s2.cursor == Some(
            CursorView { event: q[0], handlers: routes[q[0].topic@]@, next: 0, stopped: false },
        )
    } else {
        &&& st == StepView::EventNotFound { event: q[0] }
        &&& s2.cursor is None
    }
}

/// Events are dispatched in queue order: once the current event has no handler
/// left to run, the next step takes up the head of the queue, and whatever was
/// appended behind it stays behind the events that were queued earlier.
pub proof fn lemma_events_dispatched_in_fifo_order<R, E>(
    s: InvocationView<R, E>,
    routes: Map<Seq<char>, Vec<HandlerId>>,
    q: Seq<Message>,
    later: Seq<Message>,
)
    requires
        s.result matches Some(Ok(_)),
        !s.running,
        cursor_idle(s.cursor),
        q.len() > 0,
    ensures
        takes_up_head(s, routes, q + later),
        (q + later)[0] == q[0],
        (q + later).drop_first() == q.drop_first() + later,
{
    assert((q + later)[0] == q[0]);
    assert((q + later).drop_first() =~= q.drop_first() + later);
}

/// The queue changes only at its two ends: a step of the dispatch loop leaves it
/// as it was or removes its head, and a handler's outcome leaves it as it was or
/// appends one event at its tail. No event ever overtakes one queued before it.
pub proof fn lemma_queue_changes_only_at_its_ends<R, E>(
    s: InvocationView<R, E>,
    routes: Map<Seq<char>, Vec<HandlerId>>,
    q: Seq<Message>,
    outcome: Result<(), BaseError>,
)
    ensures
        ({
            let q1 = next_spec(s, routes, q).1;
            q1 == q || (q.len() > 0 && q1 == q.drop_first())
        }),
        ({
            let q2 = done_spec(s, outcome, q).1;
            q2 == q || (q2.len() == q.len() + 1 && q2.subrange(0, q.len() as int) == q)
        }),
{
    let q2 = done_spec(s, outcome, q).1;
    if q2 != q {
        assert(q2.subrange(0, q.len() as int) =~= q);
    }
}

/// Handlers of one event run in registration order, and an outcome that is not a
/// stop sentinel (success or any other error) stops neither the handlers after it
/// nor the events queued after the current one.
pub proof fn lemma_handlers_run_in_order<R, E>(
    s: InvocationView<R, E>,
    routes: Map<Seq<char>, Vec<HandlerId>>,
    q: Seq<Message>,
    outcome: Result<(), BaseError>,
)
    requires
        s.result matches Some(Ok(_)),
        !s.running,
        s.cursor matches Some(c) && !c.stopped && c.next < c.handlers.len(),
        !(outcome matches Err(e) && e.is_sentinel()),
    ensures
        ({
            let c = s.cursor.unwrap();
            let (s1, q1, st1) = next_spec(s, routes, q);
            let (s2, q2) = done_spec(s1, outcome, q1);
            &&& st1 == StepView::RunHandler { handler: c.handlers[c.next as int], copy: c.event@ }
            &&& q2 == q
            &&& s2.cursor == Some(CursorView { next: c.next + 1, ..c })
            &&& c.next + 1 < c.handlers.len() ==> next_spec(s2, routes, q2).2
                == StepView::RunHandler {
                handler: c.handlers[(c.next + 1) as int],
                copy: c.event@,
            }
            &&& c.next + 1 == c.handlers.len() && q.len() > 0 ==> takes_up_head(s2, routes, q2)
        }),
{
}

/// A handler that raises `StopSentinel` ends the handlers of its own event only:
/// the queue is left as it was, and the next step takes up its head.
pub proof fn lemma_stop_sentinel_ends_current_event<R, E>(
    s: InvocationView<R, E>,
    routes: Map<Seq<char>, Vec<HandlerId>>,
    q: Seq<Message>,
)
    requires
        s.result matches Some(Ok(_)),
        s.running,
        s.cursor is Some,
    ensures
        ({
            let (s2, q2) = done_spec(s, Err(BaseError::StopSentinel), q);
            &&& q2 == q
            &&& cursor_idle(s2.cursor)
            &&& q.len() > 0 ==> takes_up_head(s2, routes, q2)
            &&& q.len() == 0 ==> next_spec(s2, routes, q2).2 == StepView::Finished
        }),
{
}

/// A handler that raises `StopSentinelWithEvent(e)` ends the handlers of its own
/// event and appends `e` at the tail of the queue: the next step takes up the
/// head of the queue as it was, and `e` only once the queue before it is gone.
pub proof fn lemma_stop_sentinel_with_event_queues_it_last<R, E>(
    s: InvocationView<R, E>,
    routes: Map<Seq<char>, Vec<HandlerId>>,
    q: Seq<Message>,
    e: Message,
)
    requires
        s.result matches Some(Ok(_)),
        s.running,
        s.cursor is Some,
    ensures
        ({
            let (s2, q2) = done_spec(s, Err(BaseError::StopSentinelWithEvent(e)), q);
            &&& q2 == q.push(e)
            &&& cursor_idle(s2.cursor)
            &&& takes_up_head(s2, routes, q2)
            &&& q.len() > 0 ==> q2[0] == q[0] && q2.drop_first() == q.drop_first().push(e)
            &&& q.len() == 0 ==> q2[0] == e
        }),
{
    let q2 = q.push(e);
    if q.len() > 0 {
        assert(q2.drop_first() =~= q.drop_first().push(e));
    }
}

/// The command handler's result is kept unchanged by every step of the dispatch
/// loop, whatever the events and the outcomes of their handlers.
pub proof fn lemma_command_result_kept<R, E>(
    s: InvocationView<R, E>,
    routes: Map<Seq<char>, Vec<HandlerId>>,
    q: Seq<Message>,
    outcome: Result<(), BaseError>,
)
    ensures
        next_spec(s, routes, q).0.result == s.result,
        done_spec(s, outcome, q).0.result == s.result,
{
}

} // verus!
