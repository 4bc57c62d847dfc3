use vstd::prelude::*;

use crate::codec::{decode, encode, frame_envelope, frame_text};
use crate::envelope::{Message, MessageView};

verus! {

/// The text of the notice a client gets when its session starts.
pub const WELCOME: &'static str = "connected";

/// The text of the notice a client gets for a frame that is not an envelope.
pub const FORMAT_ERROR: &'static str = "format error: expected valid JSON envelope";

/// Where a session is in its life; it only moves forward.
#[derive(Debug, Clone, Copy, PartialEq, Eq, Structural)]
pub enum Phase {
    Starting,
    Running,
    Closing,
    Closed,
}

/// The concurrent activities of a session.
#[derive(Debug, Clone, Copy, PartialEq, Eq, Structural)]
pub enum Activity {
    /// Reads frames from the client.
    Inbound,
    /// Takes envelopes from the hub subscription.
    Outbound,
    /// Owns the client stream and writes what is queued for it.
    Writer,
}

/// What happens to a session.
#[derive(Debug, Clone, PartialEq, Eq)]
pub enum Event {
    /// The stream to the client is established and the activities are started.
    Opened,
    /// The client sent a text frame.
    Frame(String),
    /// The hub delivered an envelope to this session's subscription.
    Delivered(Message),
    /// An activity reached its end, by success or by failure.
    Ended(Activity),
    /// Every activity that was still running has been cancelled and joined.
    Joined,
}

/// What the session asks its runner to do.
#[derive(Debug, Clone, PartialEq, Eq)]
pub enum Action {
    /// Queue this text frame for this client alone.
    Send(String),
    /// Publish this envelope to the hub, unchanged.
    Publish(Message),
    /// Cancel every activity of the session that is still running.
    CancelAll,
    /// Drop the session's hub subscription.
    Release,
    /// Nothing.
    Idle,
}

pub enum EventView {
    Opened,
    Frame(Seq<char>),
    Delivered(MessageView),
    Ended(Activity),
    Joined,
}

pub enum ActionView {
    Send(Seq<char>),
    Publish(MessageView),
    CancelAll,
    Release,
    Idle,
}

impl View for Event {
    type V = EventView;

    open spec fn view(&self) -> EventView {
        match self {
            Event::Opened => EventView::Opened,
            Event::Frame(t) => EventView::Frame(t@),
            Event::Delivered(m) => EventView::Delivered(m@),
            Event::Ended(a) => EventView::Ended(*a),
            Event::Joined => EventView::Joined,
        }
    }
}

impl View for Action {
    type V = ActionView;

    open spec fn view(&self) -> ActionView {
        match self {
            Action::Send(t) => ActionView::Send(t@),
            Action::Publish(m) => ActionView::Publish(m@),
            Action::CancelAll => ActionView::CancelAll,
            Action::Release => ActionView::Release,
            Action::Idle => ActionView::Idle,
        }
    }
}

/// The supervisor of one client connection: it decides, event by event, what
/// the session's activities do and when the session is torn down.
///
/// The sender of an envelope is a hub subscriber like any other, so it gets
/// its own envelope back. There is no idle timeout: a session ends only when
/// one of its activities ends.
#[derive(Debug)]
pub struct Supervisor {
    phase: Phase,
    subscribed: bool,
}

pub struct SupervisorView {
    pub phase: Phase,
    pub subscribed: bool,
}

impl View for Supervisor {
    type V = SupervisorView;

    closed spec fn view(&self) -> SupervisorView {
        SupervisorView { phase: self.phase, subscribed: self.subscribed }
    }
}

/// The text of a notice sent to one client.
pub open spec fn notice_text(text: Seq<char>) -> Seq<char> {
    frame_text(MessageView::System(text))
}

/// The next state of a session and what it asks for, given an event.
pub open spec fn next(s: SupervisorView, e: EventView) -> (SupervisorView, ActionView) {
    match (s.phase, e) {
        (Phase::Starting, EventView::Opened) => (
            SupervisorView { phase: Phase::Running, ..s },
            ActionView::Send(notice_text(WELCOME@)),
        ),
        (Phase::Running, EventView::Frame(t)) => (
            s,
            match frame_envelope(t) {
                Ok(m) => ActionView::Publish(m),
                Err(_) => ActionView::Send(notice_text(FORMAT_ERROR@)),
            },
        ),
        (Phase::Running, EventView::Delivered(m)) => (s, ActionView::Send(frame_text(m))),
        (Phase::Running, EventView::Ended(_)) => (
            SupervisorView { phase: Phase::Closing, ..s },
            ActionView::CancelAll,
        ),
        (Phase::Closing, EventView::Joined) => (
            SupervisorView { phase: Phase::Closed, subscribed: false },
            ActionView::Release,
        ),
        _ => (s, ActionView::Idle),
    }
}

/// The state a session reaches and the actions it asks for over a run of
/// events, in order.
pub open spec fn run(s: SupervisorView, es: Seq<EventView>) -> (SupervisorView, Seq<ActionView>)
    decreases es.len(),
{
    if es.len() == 0 {
        (s, Seq::empty())
    } else {
        let (s1, a) = next(s, es[0]);
        let (s2, rest) = run(s1, es.drop_first());
        (s2, seq![a] + rest)
    }
}

/// A running session writes every envelope the hub delivers to it, each
/// as its own frame and in the order of delivery, and stays running.
pub proof fn lemma_delivery_in_order(s: SupervisorView, ms: Seq<MessageView>)
    requires
        s.phase == Phase::Running,
    ensures
        run(s, ms.map_values(|m: MessageView| EventView::Delivered(m))) == (
            s,
            ms.map_values(|m: MessageView| ActionView::Send(frame_text(m))),
        ),
    decreases ms.len(),
{
    let es = ms.map_values(|m: MessageView| EventView::Delivered(m));
    let sends = ms.map_values(|m: MessageView| ActionView::Send(frame_text(m)));
    if ms.len() > 0 {
        let rest = ms.drop_first();
        lemma_delivery_in_order(s, rest);
        assert(es.drop_first() =~= rest.map_values(|m: MessageView| EventView::Delivered(m)));
        assert(sends =~= seq![ActionView::Send(frame_text(ms[0]))] + rest.map_values(
            |m: MessageView| ActionView::Send(frame_text(m)),
        ));
    } else {
        assert(sends =~= Seq::empty());
    }
}

/// A frame that is not an envelope earns its sender exactly one notice,
/// publishes nothing and leaves the session running: an envelope sent
/// after it is published.
pub proof fn lemma_malformed_frame(s: SupervisorView, bad: Seq<char>, good: Seq<char>)
    requires
        s.phase == Phase::Running,
        frame_envelope(bad) is Err,
        frame_envelope(good) is Ok,
    ensures
        next(s, EventView::Frame(bad)) == (s, ActionView::Send(notice_text(FORMAT_ERROR@))),
        run(s, seq![EventView::Frame(bad), EventView::Frame(good)]) == (
            s,
            seq![
                ActionView::Send(notice_text(FORMAT_ERROR@)),
                ActionView::Publish(frame_envelope(good)->Ok_0),
            ],
        ),
{
    reveal_with_fuel(run, 3);
    let es = seq![EventView::Frame(bad), EventView::Frame(good)];
    assert(es.drop_first() =~= seq![EventView::Frame(good)]);
    assert(es.drop_first().drop_first() =~= Seq::<EventView>::empty());
    assert(run(s, es).1 =~= seq![
        ActionView::Send(notice_text(FORMAT_ERROR@)),
        ActionView::Publish(frame_envelope(good)->Ok_0),
    ]);
}

/// The end of any one activity of a running session has the others
/// cancelled; once they are joined the session is closed and its hub
/// subscription released.
pub proof fn lemma_teardown(s: SupervisorView, a: Activity)
    requires
        s.phase == Phase::Running,
    ensures
        run(s, seq![EventView::Ended(a), EventView::Joined]) == (
            SupervisorView { phase: Phase::Closed, subscribed: false },
            seq![ActionView::CancelAll, ActionView::Release],
        ),
{
    reveal_with_fuel(run, 3);
    let es = seq![EventView::Ended(a), EventView::Joined];
    assert(es.drop_first() =~= seq![EventView::Joined]);
    assert(es.drop_first().drop_first() =~= Seq::<EventView>::empty());
    assert(run(s, es).1 =~= seq![ActionView::CancelAll, ActionView::Release]);
}

/// A session that is closing never runs again, and a closed one ignores
/// every event and holds no subscription.
pub proof fn lemma_no_way_back(s: SupervisorView, e: EventView)
    requires
        s.phase == Phase::Closing || s.phase == Phase::Closed,
    ensures
        next(s, e).0.phase == Phase::Closing || next(s, e).0.phase == Phase::Closed,
        s.phase == Phase::Closed ==> next(s, e) == (s, ActionView::Idle),
        next(s, e).0.phase == Phase::Closed && s.phase == Phase::Closing ==> !next(s, e).0.subscribed,
{
}

fn notice(text: &str) -> (r: String)
    ensures
        r@ == notice_text(text@),
{
    encode(&Message::System(String::from_str(text)))
}

impl Supervisor {
    /// A session that holds its hub subscription and has not started yet.
    pub fn new() -> (r: Supervisor)
        ensures
            r@ == (SupervisorView { phase: Phase::Starting, subscribed: true }),
    {
        Supervisor { phase: Phase::Starting, subscribed: true }
    }

    pub fn phase(&self) -> (r: Phase)
        ensures
            r == self@.phase,
    {
        self.phase
    }

    /// Whether the session still holds its hub subscription.
    pub fn is_subscribed(&self) -> (r: bool)
        ensures
            r == self@.subscribed,
    {
        self.subscribed
    }

    /// Takes one event and says what is to be done about it.
    pub fn step(&mut self, event: Event) -> (r: Action)
        ensures
            (final(self)@, r@) == next(old(self)@, event@),
    {
        match (self.phase, event) {
            (Phase::Starting, Event::Opened) => {
                self.phase = Phase::Running;
                Action::Send(notice(WELCOME))
            },
            (Phase::Running, Event::Frame(t)) => match decode(t.as_str()) {
                Ok(m) => Action::Publish(m),
                Err(_) => Action::Send(notice(FORMAT_ERROR)),
            },
            (Phase::Running, Event::Delivered(m)) => Action::Send(encode(&m)),
            (Phase::Running, Event::Ended(_)) => {
                self.phase = Phase::Closing;
                Action::CancelAll
            },
            (Phase::Closing, Event::Joined) => {
                self.phase = Phase::Closed;
                self.subscribed = false;
                Action::Release
            },
            _ => Action::Idle,
        }
    }
}

} // verus!
