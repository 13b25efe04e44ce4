use vstd::prelude::*;

verus! {

/// A transport command sent to the controller.
#[derive(Debug, Clone, Copy, PartialEq, Eq, Structural)]
pub enum Control {
    Play,
    Pause,
    Exit,
}

/// Where the controller stands in its lifecycle.
#[derive(Debug, Clone, Copy, PartialEq, Eq, Structural)]
pub enum TransportState {
    Idle,
    Playing,
    Paused,
    Terminated,
}

/// What the controller asks of the output device after a message.
#[derive(Debug, Clone, Copy, PartialEq, Eq, Structural)]
pub enum DeviceAction {
    Start,
    Stop,
    Release,
    Nothing,
}

/// The message a received event stands for: a closed channel is an exit.
pub open spec fn effective(msg: Option<Control>) -> Control {
    match msg {
        Some(m) => m,
        None => Control::Exit,
    }
}

/// Next state after an event; a terminated controller ignores everything.
pub open spec fn next_state(s: TransportState, msg: Option<Control>) -> TransportState {
    if s == TransportState::Terminated {
        TransportState::Terminated
    } else {
        match effective(msg) {
            Control::Play => TransportState::Playing,
            Control::Pause => TransportState::Paused,
            Control::Exit => TransportState::Terminated,
        }
    }
}

/// Device operation performed for an event in a given state.
pub open spec fn action_for(s: TransportState, msg: Option<Control>) -> DeviceAction {
    if s == TransportState::Terminated {
        DeviceAction::Nothing
    } else {
        match effective(msg) {
            Control::Play => DeviceAction::Start,
            Control::Pause => DeviceAction::Stop,
            Control::Exit => DeviceAction::Release,
        }
    }
}

/// The states visited when the messages are processed one at a time from `s`:
/// `s` itself, then one state per message handled, stopping at termination.
pub open spec fn visits(s: TransportState, msgs: Seq<Control>) -> Seq<TransportState>
    decreases msgs.len(),
{
    if s == TransportState::Terminated || msgs.len() == 0 {
        seq![s]
    } else {
        seq![s] + visits(next_state(s, Some(msgs[0])), msgs.subrange(1, msgs.len() as int))
    }
}

/// Decides the next state and the device operation for one received event
/// (`None` when the channel was closed).
pub fn transition(s: TransportState, msg: Option<Control>) -> (r: (TransportState, DeviceAction))
    ensures
        r.0 == next_state(s, msg),
        r.1 == action_for(s, msg),
{
    match s {
        TransportState::Terminated => (TransportState::Terminated, DeviceAction::Nothing),
        _ => match msg {
            Some(Control::Play) => (TransportState::Playing, DeviceAction::Start),
            Some(Control::Pause) => (TransportState::Paused, DeviceAction::Stop),
            Some(Control::Exit) | None => (TransportState::Terminated, DeviceAction::Release),
        },
    }
}

/// The transport controller: the single writer of transport state.
pub struct Transport {
    state: TransportState,
}

impl Transport {
    /// The controller's current state.
    pub closed spec fn view_state(&self) -> TransportState {
        self.state
    }

    /// A controller whose stream is open but not yet started.
    pub fn new() -> (t: Transport)
        ensures
            t.view_state() == TransportState::Idle,
    {
        Transport { state: TransportState::Idle }
    }

    /// The current state.
    pub fn state(&self) -> (r: TransportState)
        ensures
            r == self.view_state(),
    {
        self.state
    }

    /// Whether the controller has stopped handling messages.
    pub fn is_terminated(&self) -> (r: bool)
        ensures
            r == (self.view_state() == TransportState::Terminated),
    {
        self.state == TransportState::Terminated
    }

    /// Applies one event fully and returns the device operation to perform.
    pub fn handle(&mut self, msg: Option<Control>) -> (a: DeviceAction)
        ensures
            final(self).view_state() == next_state(old(self).view_state(), msg),
            a == action_for(old(self).view_state(), msg),
    {
        let (s, a) = transition(self.state, msg);
        self.state = s;
        a
    }
}

/// The states that a fresh controller visits while it processes `msgs` in
/// order: the initial state first, then one state per message it handles.
pub fn visited_states(msgs: &Vec<Control>) -> (r: Vec<TransportState>)
    ensures
        r@ == visits(TransportState::Idle, msgs@),
{
    let mut t = Transport::new();
    let mut out: Vec<TransportState> = Vec::new();
    out.push(t.state());
    let mut i: usize = 0;
    assert(msgs@.subrange(0, msgs@.len() as int) =~= msgs@);
    assert(out@.drop_last() + visits(TransportState::Idle, msgs@) =~= visits(
        TransportState::Idle,
        msgs@,
    ));
    while i < msgs.len() && !t.is_terminated()
        invariant
            0 <= i <= msgs.len(),
            out@.len() >= 1,
            out@.last() == t.view_state(),
            out@.drop_last() + visits(t.view_state(), msgs@.subrange(i as int, msgs@.len() as int))
                == visits(TransportState::Idle, msgs@),
        decreases msgs.len() - i,
    {
        let ghost before = t.view_state();
        let ghost rest = msgs@.subrange(i as int, msgs@.len() as int);
        let ghost out0 = out@;
        t.handle(Some(msgs[i]));
        out.push(t.state());
        i = i + 1;
        proof {
            assert(rest.subrange(1, rest.len() as int) =~= msgs@.subrange(i as int, msgs@.len() as int));
            assert(rest[0] == msgs@[i - 1]);
            assert(out@.drop_last() =~= out0);
            assert(out0 =~= out0.drop_last() + seq![before]);
        }
    }
    proof {
        let rest = msgs@.subrange(i as int, msgs@.len() as int);
        assert(visits(t.view_state(), rest) =~= seq![t.view_state()]);
        assert(out@ =~= out@.drop_last() + seq![out@.last()]);
    }
    out
}

/// Messages are handled in order and no state is skipped: each visited state
/// after the first is the transition of the one before on the next message.
pub proof fn lemma_visits_follow_messages(s: TransportState, msgs: Seq<Control>, i: int)
    requires
        0 <= i,
        i + 1 < visits(s, msgs).len(),
    ensures
        i < msgs.len(),
        visits(s, msgs)[i] != TransportState::Terminated,
        visits(s, msgs)[i + 1] == next_state(visits(s, msgs)[i], Some(msgs[i])),
    decreases msgs.len(),
{
    if s == TransportState::Terminated || msgs.len() == 0 {
    } else {
        let rest = msgs.subrange(1, msgs.len() as int);
        let s1 = next_state(s, Some(msgs[0]));
        if i > 0 {
            lemma_visits_follow_messages(s1, rest, i - 1);
        } else {
            reveal_with_fuel(visits, 2);
        }
    }
}

/// Repeating `Play` leaves a live controller playing: the second one changes
/// nothing.
pub proof fn lemma_play_idempotent(s: TransportState)
    requires
        s != TransportState::Terminated,
    ensures
        next_state(next_state(s, Some(Control::Play)), Some(Control::Play))
            == TransportState::Playing,
        next_state(next_state(s, Some(Control::Play)), Some(Control::Play))
            == next_state(s, Some(Control::Play)),
{
}

/// Repeating `Pause` leaves a live controller paused: the second one changes
/// nothing.
pub proof fn lemma_pause_idempotent(s: TransportState)
    requires
        s != TransportState::Terminated,
    ensures
        next_state(next_state(s, Some(Control::Pause)), Some(Control::Pause))
            == TransportState::Paused,
        next_state(next_state(s, Some(Control::Pause)), Some(Control::Pause))
            == next_state(s, Some(Control::Pause)),
{
}

/// Once terminated, the controller stays terminated and touches the device
/// no more, whatever arrives.
pub proof fn lemma_terminated_is_final(msg: Option<Control>)
    ensures
        next_state(TransportState::Terminated, msg) == TransportState::Terminated,
        action_for(TransportState::Terminated, msg) == DeviceAction::Nothing,
{
}

} // verus!
