use vstd::prelude::*;
use crate::invocation::{Call, Request};

verus! {

/// Where an actor stands in its script.
#[derive(Clone, Copy, Debug, PartialEq, Eq, Structural)]
pub enum Phase {
    /// Waiting at the rendezvous.
    Start,
    /// The join request is out.
    Joining,
    /// The send request is out.
    Sending,
    /// The close request is out.
    Closing,
    /// Done, by a failed join or after closing.
    Terminated,
}

/// What happened since the actor's last step.
#[derive(Clone, Copy, Debug, PartialEq, Eq, Structural)]
pub enum Event {
    /// The rendezvous let the actor through.
    Released,
    /// The request that was out has finished, with the given result.
    Completed { success: bool },
}

/// A progress message an actor reports.
#[derive(Clone, Copy, Debug, PartialEq, Eq, Structural)]
pub enum Note {
    Joining,
    Joined,
    JoinFailed,
    Sending,
    SendingResponse,
    Sent,
    SendFailed,
    Closing,
    Closed,
    CloseFailed,
}

impl Note {
    pub open spec fn text_spec(self) -> Seq<char> {
        match self {
            Note::Joining => "Joining session..."@,
            Note::Joined => "Successfully joined session."@,
            Note::JoinFailed => "Failed to join session."@,
            Note::Sending => "Sending message..."@,
            Note::SendingResponse => "Sending response message..."@,
            Note::Sent => "Message sent."@,
            Note::SendFailed => "Failed to send message."@,
            Note::Closing => "Closing session..."@,
            Note::Closed => "Session closed."@,
            Note::CloseFailed => "Failed to close session."@,
        }
    }

    /// The message text, without the actor's label.
    pub fn text(&self) -> (r: &'static str)
        ensures
            r@ == self.text_spec(),
    {
        match self {
            Note::Joining => "Joining session...",
            Note::Joined => "Successfully joined session.",
            Note::JoinFailed => "Failed to join session.",
            Note::Sending => "Sending message...",
            Note::SendingResponse => "Sending response message...",
            Note::Sent => "Message sent.",
            Note::SendFailed => "Failed to send message.",
            Note::Closing => "Closing session...",
            Note::Closed => "Session closed.",
            Note::CloseFailed => "Failed to close session.",
        }
    }

    /// The log line of this message for the actor labelled `label`.
    pub fn line(&self, label: &str) -> (r: String)
        ensures
            r@ == label@ + ": "@ + self.text_spec(),
    {
        let mut r = String::from_str(label);
        r.append(": ");
        r.append(self.text());
        r
    }
}

/// An actor: its label, the shared session it joins, and whom it greets.
#[derive(Debug)]
pub struct Actor {
    pub label: String,
    pub session_id: String,
    pub target_id: String,
    pub message: String,
    /// Whether its message answers the other actor's.
    pub responds: bool,
}

/// The result of one step: the next phase, the messages to report in order,
/// and the request to run next, if any.
#[derive(Debug)]
pub struct Step {
    pub phase: Phase,
    pub notes: Vec<Note>,
    pub request: Option<Request>,
}

impl View for Step {
    type V = (Phase, Seq<Note>, Option<Call>);

    open spec fn view(&self) -> (Phase, Seq<Note>, Option<Call>) {
        (
            self.phase,
            self.notes@,
            match self.request {
                Some(q) => Some(q@),
                None => None,
            },
        )
    }
}

pub open spec fn calls_of(c: Option<Call>) -> Seq<Call> {
    match c {
        Some(x) => seq![x],
        None => seq![],
    }
}

impl Actor {
    pub open spec fn sending_note(&self) -> Note {
        if self.responds {
            Note::SendingResponse
        } else {
            Note::Sending
        }
    }

    /// One step of the script. An event that does not fit the phase changes
    /// nothing.
    pub open spec fn transition(&self, phase: Phase, event: Event) -> (Phase, Seq<Note>, Option<Call>) {
        match (phase, event) {
            (Phase::Start, Event::Released) => (
                Phase::Joining,
                seq![Note::Joining],
                Some(Call::JoinSession(self.session_id@)),
            ),
            (Phase::Joining, Event::Completed { success }) => if success {
                (
                    Phase::Sending,
                    seq![Note::Joined, self.sending_note()],
                    Some(Call::Send(self.target_id@, self.message@)),
                )
            } else {
                (Phase::Terminated, seq![Note::JoinFailed], None)
            },
            (Phase::Sending, Event::Completed { success }) => (
                Phase::Closing,
                seq![if success { Note::Sent } else { Note::SendFailed }, Note::Closing],
                Some(Call::Close),
            ),
            (Phase::Closing, Event::Completed { success }) => (
                Phase::Terminated,
                seq![if success { Note::Closed } else { Note::CloseFailed }],
                None,
            ),
            _ => (phase, seq![], None),
        }
    }

    /// The requests issued, in order, when the events arrive one by one
    /// from `phase`.
    pub open spec fn calls(&self, phase: Phase, events: Seq<Event>) -> Seq<Call>
        decreases events.len(),
    {
        if events.len() == 0 {
            seq![]
        } else {
            let (next, _notes, call) = self.transition(phase, events[0]);
            calls_of(call) + self.calls(next, events.drop_first())
        }
    }

    /// The messages reported, in order, when the events arrive one by one
    /// from `phase`.
    pub open spec fn notes(&self, phase: Phase, events: Seq<Event>) -> Seq<Note>
        decreases events.len(),
    {
        if events.len() == 0 {
            seq![]
        } else {
            let (next, notes, _call) = self.transition(phase, events[0]);
            notes + self.notes(next, events.drop_first())
        }
    }

    /// The whole script from `phase` on, when every request succeeds.
    pub open spec fn script(&self, phase: Phase) -> Seq<Call> {
        match phase {
            Phase::Start => seq![
                Call::JoinSession(self.session_id@),
                Call::Send(self.target_id@, self.message@),
                Call::Close,
            ],
            Phase::Joining => seq![Call::Send(self.target_id@, self.message@), Call::Close],
            Phase::Sending => seq![Call::Close],
            _ => seq![],
        }
    }

    /// The first actor: it greets the second.
    pub fn user_1(session_id: &str) -> (r: Actor)
        ensures
            r.label@ == "User 1"@,
            r.session_id@ == session_id@,
            r.target_id@ == "user_2_id"@,
            r.message@ == "Hello from User 1"@,
            !r.responds,
    {
        Actor {
            label: String::from_str("User 1"),
            session_id: String::from_str(session_id),
            target_id: String::from_str("user_2_id"),
            message: String::from_str("Hello from User 1"),
            responds: false,
        }
    }

    /// The second actor: it answers the first.
    pub fn user_2(session_id: &str) -> (r: Actor)
        ensures
            r.label@ == "User 2"@,
            r.session_id@ == session_id@,
            r.target_id@ == "user_1_id"@,
            r.message@ == "Hello from User 2"@,
            r.responds,
    {
        Actor {
            label: String::from_str("User 2"),
            session_id: String::from_str(session_id),
            target_id: String::from_str("user_1_id"),
            message: String::from_str("Hello from User 2"),
            responds: true,
        }
    }

    /// Takes one step of the script.
    pub fn step(&self, phase: Phase, event: Event) -> (r: Step)
        ensures
            r@ == self.transition(phase, event),
    {
        let mut notes: Vec<Note> = Vec::new();
        match (phase, event) {
            (Phase::Start, Event::Released) => {
                notes.push(Note::Joining);
                let request = Request::JoinSession { session_id: self.session_id.clone() };
                Step { phase: Phase::Joining, notes, request: Some(request) }
            },
            (Phase::Joining, Event::Completed { success }) => {
                if success {
                    notes.push(Note::Joined);
                    notes.push(if self.responds { Note::SendingResponse } else { Note::Sending });
                    let request = Request::Send {
                        target_id: self.target_id.clone(),
                        message: self.message.clone(),
                    };
                    Step { phase: Phase::Sending, notes, request: Some(request) }
                } else {
                    notes.push(Note::JoinFailed);
                    Step { phase: Phase::Terminated, notes, request: None }
                }
            },
            (Phase::Sending, Event::Completed { success }) => {
                notes.push(if success { Note::Sent } else { Note::SendFailed });
                notes.push(Note::Closing);
                Step { phase: Phase::Closing, notes, request: Some(Request::Close) }
            },
            (Phase::Closing, Event::Completed { success }) => {
                notes.push(if success { Note::Closed } else { Note::CloseFailed });
                Step { phase: Phase::Terminated, notes, request: None }
            },
            _ => Step { phase, notes, request: None },
        }
    }
}

/// Once terminated, an actor issues no request and reports nothing more.
pub proof fn lemma_terminated_is_silent(a: Actor, events: Seq<Event>)
    ensures
        a.calls(Phase::Terminated, events) == Seq::<Call>::empty(),
        a.notes(Phase::Terminated, events) == Seq::<Note>::empty(),
    decreases events.len(),
{
    if events.len() > 0 {
        lemma_terminated_is_silent(a, events.drop_first());
    }
}

/// An actor that the rendezvous has not let through stays at the start: it
/// issues no request and reports nothing, whatever results arrive.
pub proof fn lemma_unreleased_actor_waits(a: Actor, events: Seq<Event>)
    requires
        forall|i: int| 0 <= i < events.len() ==> events[i] != Event::Released,
    ensures
        a.calls(Phase::Start, events) == Seq::<Call>::empty(),
        a.notes(Phase::Start, events) == Seq::<Note>::empty(),
    decreases events.len(),
{
    if events.len() > 0 {
        let rest = events.drop_first();
        assert forall|i: int| 0 <= i < rest.len() implies rest[i] != Event::Released by {
            assert(rest[i] == events[i + 1]);
        }
        lemma_unreleased_actor_waits(a, rest);
        assert(a.calls(Phase::Start, events) =~= a.calls(Phase::Start, rest));
        assert(a.notes(Phase::Start, events) =~= a.notes(Phase::Start, rest));
    }
}

/// Whatever events arrive, an actor's requests follow its script: a join,
/// then one send, then one close, possibly cut short, never repeated.
pub proof fn lemma_calls_follow_script(a: Actor, phase: Phase, events: Seq<Event>)
    ensures
        a.calls(phase, events).is_prefix_of(a.script(phase)),
    decreases events.len(),
{
    if events.len() > 0 {
        let (next, _notes, call) = a.transition(phase, events[0]);
        let rest = events.drop_first();
        lemma_calls_follow_script(a, next, rest);
        lemma_terminated_is_silent(a, rest);
        let tail = a.calls(next, rest);
        assert(a.calls(phase, events) == calls_of(call) + tail);
        if next == phase {
            assert(call is None);
            assert(calls_of(call) + tail =~= tail);
        } else if next == Phase::Terminated && phase == Phase::Joining {
            assert(calls_of(call) + tail =~= Seq::<Call>::empty());
        } else {
            assert(a.script(phase) =~= calls_of(call) + a.script(next));
            assert(tail =~= a.script(next).subrange(0, tail.len() as int));
            assert((calls_of(call) + tail) =~= a.script(phase).subrange(
                0,
                (calls_of(call) + tail).len() as int,
            ));
        }
    }
}

/// An actor whose join fails issues no send and no close, whatever follows.
pub proof fn lemma_failed_join_stops(a: Actor, rest: Seq<Event>)
    ensures
        a.calls(Phase::Start, seq![Event::Released, Event::Completed { success: false }] + rest)
            == seq![Call::JoinSession(a.session_id@)],
        a.notes(Phase::Start, seq![Event::Released, Event::Completed { success: false }] + rest)
            == seq![Note::Joining, Note::JoinFailed],
{
    let events = seq![Event::Released, Event::Completed { success: false }] + rest;
    let after_release = events.drop_first();
    assert(after_release[0] == Event::Completed { success: false });
    assert(after_release.drop_first() =~= rest);
    lemma_terminated_is_silent(a, rest);
    assert(a.calls(Phase::Joining, after_release) == Seq::<Call>::empty() + a.calls(
        Phase::Terminated,
        rest,
    ));
    assert(a.notes(Phase::Joining, after_release) == seq![Note::JoinFailed] + a.notes(
        Phase::Terminated,
        rest,
    ));
    assert(a.calls(Phase::Start, events) == seq![Call::JoinSession(a.session_id@)] + a.calls(
        Phase::Joining,
        after_release,
    ));
    assert(a.notes(Phase::Start, events) == seq![Note::Joining] + a.notes(
        Phase::Joining,
        after_release,
    ));
    assert(a.calls(Phase::Start, events) =~= seq![Call::JoinSession(a.session_id@)]);
    assert(a.notes(Phase::Start, events) =~= seq![Note::Joining, Note::JoinFailed]);
}

/// An actor whose join succeeds sends exactly once and closes exactly once,
/// whatever the send and the close return and whatever follows.
pub proof fn lemma_joined_sends_and_closes_once(
    a: Actor,
    sent: bool,
    closed: bool,
    rest: Seq<Event>,
)
    ensures
        a.calls(
            Phase::Start,
            seq![
                Event::Released,
                Event::Completed { success: true },
                Event::Completed { success: sent },
                Event::Completed { success: closed },
            ] + rest,
        ) == seq![
            Call::JoinSession(a.session_id@),
            Call::Send(a.target_id@, a.message@),
            Call::Close,
        ],
{
    let events = seq![
        Event::Released,
        Event::Completed { success: true },
        Event::Completed { success: sent },
        Event::Completed { success: closed },
    ] + rest;
    let e1 = events.drop_first();
    let e2 = e1.drop_first();
    let e3 = e2.drop_first();
    assert(e1[0] == Event::Completed { success: true });
    assert(e2[0] == Event::Completed { success: sent });
    assert(e3[0] == Event::Completed { success: closed });
    assert(e3.drop_first() =~= rest);
    lemma_terminated_is_silent(a, rest);
    assert(a.calls(Phase::Closing, e3) == seq![] + a.calls(Phase::Terminated, rest));
    assert(a.calls(Phase::Sending, e2) == seq![Call::Close] + a.calls(Phase::Closing, e3));
    assert(a.calls(Phase::Joining, e1) == seq![Call::Send(a.target_id@, a.message@)] + a.calls(
        Phase::Sending,
        e2,
    ));
    assert(a.calls(Phase::Start, events) == seq![Call::JoinSession(a.session_id@)] + a.calls(
        Phase::Joining,
        e1,
    ));
    assert(a.calls(Phase::Start, events) =~= seq![
        Call::JoinSession(a.session_id@),
        Call::Send(a.target_id@, a.message@),
        Call::Close,
    ]);
}

} // verus!
