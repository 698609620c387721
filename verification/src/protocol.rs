//! The control/render loop as a state machine: each iteration races the frame
//! clock against the control bus and reacts to whichever event arrives first.
//! The decisions are pure functions from the event to the next loop state and
//! the actions the host performs.

use vstd::prelude::*;

verus! {

/// A message from the broadcast control bus.
#[derive(Clone, Copy, PartialEq, Eq, Structural, Debug)]
pub enum ControlMessage {
    /// The terminal content changed; the layer re-uploads it as a texture.
    Repaint,
    /// The layer must shut down.
    End,
    /// Any other message; it is forwarded opaquely to the handlers.
    Other,
}

/// Why the control bus failed to deliver a message. Never fatal to the loop.
#[derive(Clone, Copy, PartialEq, Eq, Structural, Debug)]
pub enum ReceiveError {
    /// The bus was closed.
    Closed,
    /// The subscriber lagged and `skipped` messages were dropped.
    Overflowed { skipped: u64 },
}

/// What one loop iteration woke up to: the race between the frame clock and
/// the control bus, with no priority between the two.
#[derive(Clone, Copy, PartialEq, Eq, Structural, Debug)]
pub enum Event {
    /// The frame clock ticked.
    Tick,
    /// The bus delivered a message.
    Message(ControlMessage),
    /// The bus reported a receive error.
    ReceiveFailed(ReceiveError),
}

/// What the host does for the loop: render a frame, upload the terminal
/// texture, forward a message, or log a receive error.
#[derive(Clone, Copy, PartialEq, Eq, Structural, Debug)]
pub enum Action {
    /// Run one render pass and submit the surface.
    RenderPass,
    /// Upload the terminal content to the pipeline as an input texture.
    UploadTexture,
    /// Hand the message to the GPU pipeline's own handler.
    ForwardToPipeline(ControlMessage),
    /// Hand the message to the layer base's common handler.
    ForwardToBase(ControlMessage),
    /// Log the receive error; the loop carries on.
    LogReceiveError(ReceiveError),
}

/// Whether the loop keeps running after an event.
#[derive(Clone, Copy, PartialEq, Eq, Structural, Debug)]
pub enum LoopState {
    /// The loop waits for the next event.
    Running,
    /// The End message arrived; the loop exits before any further processing.
    Terminated,
}

/// The loop state after one event: only the End message terminates.
pub open spec fn step_state(e: Event) -> LoopState {
    match e {
        Event::Message(ControlMessage::End) => LoopState::Terminated,
        _ => LoopState::Running,
    }
}

/// The actions one event provokes: a tick renders; a repaint uploads the
/// texture exactly once and is then forwarded to both handlers; any other
/// message is only forwarded; End provokes nothing; a receive error is logged.
pub open spec fn step_actions(e: Event) -> Seq<Action> {
    match e {
        Event::Tick => seq![Action::RenderPass],
        Event::Message(ControlMessage::End) => Seq::empty(),
        Event::Message(ControlMessage::Repaint) => seq![
            Action::UploadTexture,
            Action::ForwardToPipeline(ControlMessage::Repaint),
            Action::ForwardToBase(ControlMessage::Repaint),
        ],
        Event::Message(m) => seq![Action::ForwardToPipeline(m), Action::ForwardToBase(m)],
        Event::ReceiveFailed(err) => seq![Action::LogReceiveError(err)],
    }
}

/// Decides one loop iteration: the next loop state and the actions the host
/// performs, in order.
pub fn step(e: &Event) -> (r: (LoopState, Vec<Action>))
    ensures
        r.0 == step_state(*e),
        r.1@ == step_actions(*e),
{
    let mut actions: Vec<Action> = Vec::new();
    let next = match e {
        Event::Tick => {
            actions.push(Action::RenderPass);
            LoopState::Running
        },
        Event::Message(ControlMessage::End) => LoopState::Terminated,
        Event::Message(ControlMessage::Repaint) => {
            actions.push(Action::UploadTexture);
            actions.push(Action::ForwardToPipeline(ControlMessage::Repaint));
            actions.push(Action::ForwardToBase(ControlMessage::Repaint));
            LoopState::Running
        },
        Event::Message(m) => {
            actions.push(Action::ForwardToPipeline(*m));
            actions.push(Action::ForwardToBase(*m));
            LoopState::Running
        },
        Event::ReceiveFailed(err) => {
            actions.push(Action::LogReceiveError(*err));
            LoopState::Running
        },
    };
    proof {
        assert(actions@ =~= step_actions(*e));
    }
    (next, actions)
}

/// How many texture uploads a run of actions performs.
pub open spec fn upload_count(s: Seq<Action>) -> nat
    decreases s.len(),
{
    if s.len() == 0 {
        0nat
    } else {
        (if s[0] is UploadTexture {
            1nat
        } else {
            0nat
        }) + upload_count(s.skip(1))
    }
}

/// Law: a repaint message triggers exactly one texture upload, and it comes
/// before the message is forwarded to the pipeline and layer-base handlers;
/// no other event uploads at all.
pub proof fn lemma_repaint_uploads_once(e: Event)
    ensures
        upload_count(step_actions(e)) == (if e == Event::Message(ControlMessage::Repaint) {
            1nat
        } else {
            0nat
        }),
        e == Event::Message(ControlMessage::Repaint) ==> {
            &&& step_actions(e)[0] is UploadTexture
            &&& step_actions(e)[1] == Action::ForwardToPipeline(ControlMessage::Repaint)
            &&& step_actions(e)[2] == Action::ForwardToBase(ControlMessage::Repaint)
        },
{
    reveal_with_fuel(upload_count, 5);
    let s = step_actions(e);
    match e {
        Event::Tick => {
            assert(s.skip(1) =~= Seq::<Action>::empty());
        },
        Event::Message(ControlMessage::End) => {},
        Event::Message(ControlMessage::Repaint) => {
            assert(s.skip(1).skip(1) =~= s.skip(2));
            assert(s.skip(2).skip(1) =~= Seq::<Action>::empty());
            assert(upload_count(s.skip(1)) == 0);
        },
        Event::Message(ControlMessage::Other) => {
            assert(s.skip(1).skip(1) =~= Seq::<Action>::empty());
        },
        Event::ReceiveFailed(_) => {
            assert(s.skip(1) =~= Seq::<Action>::empty());
        },
    }
}

/// Every action a whole session performs, in order: events are handled one at
/// a time until the first one that terminates the loop, whose actions — and
/// every later event's — never run.
pub open spec fn session_actions(events: Seq<Event>) -> Seq<Action>
    decreases events.len(),
{
    if events.len() == 0 {
        Seq::empty()
    } else if step_state(events[0]) is Terminated {
        Seq::empty()
    } else {
        step_actions(events[0]) + session_actions(events.skip(1))
    }
}

/// Replays the loop over the events it would wake up to, in arrival order,
/// and returns the actions performed: the loop exits at the first End.
pub fn run_session(events: &Vec<Event>) -> (trace: Vec<Action>)
    ensures
        trace@ == session_actions(events@),
{
    let mut trace: Vec<Action> = Vec::new();
    let mut i: usize = 0;
    proof {
        assert(events@.skip(0) =~= events@);
        assert(trace@ + session_actions(events@) =~= session_actions(events@));
    }
    while i < events.len()
        invariant
            i <= events@.len(),
            session_actions(events@) == trace@ + session_actions(events@.skip(i as int)),
        decreases events@.len() - i,
    {
        let (next, mut actions) = step(&events[i]);
        proof {
            assert(events@.skip(i as int)[0] == events@[i as int]);
            assert(events@.skip(i as int).skip(1) =~= events@.skip(i as int + 1));
        }
        match next {
            LoopState::Terminated => {
                proof {
                    assert(session_actions(events@.skip(i as int)) =~= Seq::<Action>::empty());
                    assert(trace@ =~= session_actions(events@));
                }
                return trace;
            },
            LoopState::Running => {
                trace.append(&mut actions);
            },
        }
        i = i + 1;
    }
    proof {
        assert(events@.skip(events@.len() as int) =~= Seq::<Event>::empty());
        assert(trace@ =~= session_actions(events@));
    }
    trace
}

/// Law: an End message received while the loop is running terminates it
/// within that iteration. Whatever events follow — further frame ticks
/// included — the session performs no action after the End: in particular no
/// render pass runs and no frame is submitted afterwards.
pub proof fn lemma_end_stops_session(before: Seq<Event>, after: Seq<Event>)
    requires
        forall|j: int|
            0 <= j < before.len() ==> before[j] != Event::Message(ControlMessage::End),
    ensures
        session_actions(before + seq![Event::Message(ControlMessage::End)] + after)
            == session_actions(before),
    decreases before.len(),
{
    let s = before + seq![Event::Message(ControlMessage::End)] + after;
    if before.len() == 0 {
        assert(s[0] == Event::Message(ControlMessage::End));
        assert(session_actions(s) =~= Seq::<Action>::empty());
        assert(session_actions(before) =~= Seq::<Action>::empty());
    } else {
        assert(s[0] == before[0]);
        assert(step_state(s[0]) is Running);
        assert(s.skip(1) =~= before.skip(1) + seq![Event::Message(ControlMessage::End)] + after);
        lemma_end_stops_session(before.skip(1), after);
        assert(session_actions(s) == step_actions(before[0]) + session_actions(s.skip(1)));
        assert(session_actions(before) == step_actions(before[0]) + session_actions(
            before.skip(1),
        ));
    }
}

} // verus!
