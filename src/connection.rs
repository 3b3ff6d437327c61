use vstd::prelude::*;
use crate::error::{ConnectionError, GatewayError};
use crate::frame::{Payload, decode_payload, frame_fields, identify_frame, identify_text};
use crate::opcode::{GatewayOp, op_of_code, is_known_code};

verus! {

/// Where a connection stands in the protocol.
#[derive(Debug, Clone, Copy, PartialEq, Eq, Structural)]
pub enum Phase {
    Connecting,
    Connected,
    Authenticating,
    Active,
    Closed,
    Failed,
}

/// What the driver of a connection must do after an inbound payload.
#[derive(Debug, Clone, PartialEq, Eq)]
pub enum Action {
    /// Start the periodic heartbeat with this interval in milliseconds.
    StartHeartbeat { interval_ms: u64 },
    /// Enqueue this text frame on the outbound queue.
    Send(String),
    /// Decode the payload's event and hand it to the event registry.
    DispatchEvent,
}

/// An action as a mathematical value.
pub enum ActionView {
    StartHeartbeat(nat),
    Send(Seq<char>),
    DispatchEvent,
}

impl View for Action {
    type V = ActionView;

    open spec fn view(&self) -> ActionView {
        match self {
            Action::StartHeartbeat { interval_ms } => ActionView::StartHeartbeat(*interval_ms as nat),
            Action::Send(s) => ActionView::Send(s@),
            Action::DispatchEvent => ActionView::DispatchEvent,
        }
    }
}

/// The outcome of handling a payload, as a mathematical value.
pub open spec fn outcome_view(r: Result<Vec<Action>, ConnectionError>) -> Result<Seq<ActionView>, ConnectionError> {
    match r {
        Ok(v) => Ok(v@.map_values(|a: Action| a@)),
        Err(e) => Err(e),
    }
}

/// Whether a phase ends the connection: nothing more is handled in it.
pub open spec fn is_terminal(p: Phase) -> bool {
    p == Phase::Closed || p == Phase::Failed
}

/// The next phase, and the actions or the error, when a connection in phase
/// `p`, identifying with `token` and `intents`, receives a payload with opcode
/// `op` and, for a hello, the announced heartbeat interval `iv`.
pub open spec fn step(p: Phase, token: Seq<char>, intents: nat, op: int, iv: Option<i64>) -> (Phase, Result<Seq<ActionView>, ConnectionError>) {
    if is_terminal(p) {
        (p, Ok(seq![]))
    } else {
        match op_of_code(op) {
            None => (Phase::Failed, Err(ConnectionError::Gateway(GatewayError::InvalidOpCode))),
            Some(GatewayOp::Hello) => {
                if p == Phase::Connected {
                    if iv.is_some() && iv.unwrap() > 0 {
                        (
                            Phase::Authenticating,
                            Ok(seq![
                                ActionView::Send(identify_text(token, intents)),
                                ActionView::StartHeartbeat(iv.unwrap() as nat),
                            ]),
                        )
                    } else {
                        (Phase::Failed, Err(ConnectionError::MalformedFrame))
                    }
                } else {
                    (p, Ok(seq![]))
                }
            },
            Some(GatewayOp::Dispatch) => {
                if p == Phase::Authenticating || p == Phase::Active {
                    (Phase::Active, Ok(seq![ActionView::DispatchEvent]))
                } else {
                    (p, Ok(seq![]))
                }
            },
            Some(_) => (p, Ok(seq![])),
        }
    }
}

/// The actions that a connection in phase `p` emits over a sequence of inbound
/// payloads `evs` (opcode and announced interval), until the first error ends
/// the read loop.
pub open spec fn run(p: Phase, token: Seq<char>, intents: nat, evs: Seq<(int, Option<i64>)>) -> Seq<ActionView>
    decreases evs.len(),
{
    if evs.len() == 0 {
        seq![]
    } else {
        let (next, out) = step(p, token, intents, evs[0].0, evs[0].1);
        match out {
            Ok(acts) => acts + run(next, token, intents, evs.drop_first()),
            Err(_) => seq![],
        }
    }
}

/// The number of frames among `acts` that are handed to the outbound queue.
pub open spec fn sends(acts: Seq<ActionView>) -> nat
    decreases acts.len(),
{
    if acts.len() == 0 {
        0
    } else {
        (if acts[0] is Send { 1nat } else { 0nat }) + sends(acts.drop_first())
    }
}

/// The number of heartbeat starts among `acts`.
pub open spec fn heartbeat_starts(acts: Seq<ActionView>) -> nat
    decreases acts.len(),
{
    if acts.len() == 0 {
        0
    } else {
        (if acts[0] is StartHeartbeat { 1nat } else { 0nat }) + heartbeat_starts(acts.drop_first())
    }
}

proof fn lemma_counts_concat(a: Seq<ActionView>, b: Seq<ActionView>)
    ensures
        sends(a + b) == sends(a) + sends(b),
        heartbeat_starts(a + b) == heartbeat_starts(a) + heartbeat_starts(b),
    decreases a.len(),
{
    if a.len() > 0 {
        lemma_counts_concat(a.drop_first(), b);
        assert((a + b).drop_first() =~= a.drop_first() + b);
    }
}

/// An opcode outside the table ends a live connection with `InvalidOpCode`,
/// and once it has failed, no payload makes it emit anything.
pub proof fn lemma_unknown_op_fails(p: Phase, token: Seq<char>, intents: nat, op: int, iv: Option<i64>, evs: Seq<(int, Option<i64>)>)
    requires
        !is_known_code(op),
        !is_terminal(p),
    ensures
        step(p, token, intents, op, iv) == (
            Phase::Failed,
            Err::<Seq<ActionView>, ConnectionError>(ConnectionError::Gateway(GatewayError::InvalidOpCode)),
        ),
        run(p, token, intents, seq![(op, iv)] + evs) == Seq::<ActionView>::empty(),
        run(Phase::Failed, token, intents, evs) == Seq::<ActionView>::empty(),
{
    lemma_terminal_silent(Phase::Failed, token, intents, evs);
    assert((seq![(op, iv)] + evs)[0] == (op, iv));
}

/// A connection that is closed or has failed emits nothing, whatever it receives.
pub proof fn lemma_terminal_silent(p: Phase, token: Seq<char>, intents: nat, evs: Seq<(int, Option<i64>)>)
    requires
        is_terminal(p),
    ensures
        run(p, token, intents, evs) == Seq::<ActionView>::empty(),
    decreases evs.len(),
{
    if evs.len() > 0 {
        lemma_terminal_silent(p, token, intents, evs.drop_first());
        assert(run(p, token, intents, evs) =~= Seq::<ActionView>::empty() + run(p, token, intents, evs.drop_first()));
    }
}

/// Outside the connected phase a connection never sends a frame nor starts a
/// heartbeat, whatever it receives.
pub proof fn lemma_no_handshake_unless_connected(p: Phase, token: Seq<char>, intents: nat, evs: Seq<(int, Option<i64>)>)
    requires
        p != Phase::Connected,
    ensures
        sends(run(p, token, intents, evs)) == 0,
        heartbeat_starts(run(p, token, intents, evs)) == 0,
    decreases evs.len(),
{
    if evs.len() > 0 {
        let (next, out) = step(p, token, intents, evs[0].0, evs[0].1);
        if out is Ok {
            let acts = out->Ok_0;
            lemma_no_handshake_unless_connected(next, token, intents, evs.drop_first());
            lemma_counts_concat(acts, run(next, token, intents, evs.drop_first()));
            assert(run(p, token, intents, evs) == acts + run(next, token, intents, evs.drop_first()));
            assert(sends(Seq::<ActionView>::empty()) == 0);
            assert(heartbeat_starts(Seq::<ActionView>::empty()) == 0);
            if acts.len() > 0 {
                assert(acts.drop_first() =~= Seq::<ActionView>::empty());
                assert(sends(acts) == 0);
                assert(heartbeat_starts(acts) == 0);
            }
        }
    }
}

/// Over any sequence of inbound payloads, a connection sends at most one
/// identify frame and starts at most one heartbeat.
pub proof fn lemma_identify_once(p: Phase, token: Seq<char>, intents: nat, evs: Seq<(int, Option<i64>)>)
    ensures
        sends(run(p, token, intents, evs)) <= 1,
        heartbeat_starts(run(p, token, intents, evs)) <= 1,
    decreases evs.len(),
{
    if p != Phase::Connected {
        lemma_no_handshake_unless_connected(p, token, intents, evs);
    } else if evs.len() > 0 {
        let (next, out) = step(p, token, intents, evs[0].0, evs[0].1);
        if out is Ok {
            let acts = out->Ok_0;
            let rest = run(next, token, intents, evs.drop_first());
            lemma_counts_concat(acts, rest);
            assert(run(p, token, intents, evs) == acts + rest);
            assert(sends(Seq::<ActionView>::empty()) == 0);
            assert(heartbeat_starts(Seq::<ActionView>::empty()) == 0);
            if next == Phase::Connected {
                lemma_identify_once(next, token, intents, evs.drop_first());
                assert(acts =~= Seq::<ActionView>::empty());
            } else {
                lemma_no_handshake_unless_connected(next, token, intents, evs.drop_first());
                if acts.len() == 2 {
                    assert(acts.drop_first().drop_first() =~= Seq::<ActionView>::empty());
                    assert(sends(acts.drop_first()) == 0);
                    assert(heartbeat_starts(acts.drop_first()) == 1);
                } else if acts.len() == 1 {
                    assert(acts.drop_first() =~= Seq::<ActionView>::empty());
                }
            }
        }
    }
}

/// A connected client whose first hello announces a positive interval, and
/// which receives no unknown opcode before it, sends exactly one identify frame
/// and starts exactly one heartbeat over the whole sequence of payloads.
pub proof fn lemma_identify_exactly_once(token: Seq<char>, intents: nat, evs: Seq<(int, Option<i64>)>, i: int)
    requires
        0 <= i < evs.len(),
        evs[i].0 == 10,
        evs[i].1 is Some && evs[i].1->Some_0 > 0,
        forall|j: int| 0 <= j < i ==> is_known_code(#[trigger] evs[j].0) && evs[j].0 != 10,
    ensures
        sends(run(Phase::Connected, token, intents, evs)) == 1,
        heartbeat_starts(run(Phase::Connected, token, intents, evs)) == 1,
    decreases i,
{
    let rest = evs.drop_first();
    let p = Phase::Connected;
    assert(sends(Seq::<ActionView>::empty()) == 0);
    assert(heartbeat_starts(Seq::<ActionView>::empty()) == 0);
    if i == 0 {
        let (next, out) = step(p, token, intents, evs[0].0, evs[0].1);
        let acts = out->Ok_0;
        assert(next == Phase::Authenticating);
        lemma_no_handshake_unless_connected(next, token, intents, rest);
        lemma_counts_concat(acts, run(next, token, intents, rest));
        assert(acts.drop_first().drop_first() =~= Seq::<ActionView>::empty());
        assert(sends(acts.drop_first()) == 0);
        assert(heartbeat_starts(acts.drop_first()) == 1);
    } else {
        assert(is_known_code(evs[0].0) && evs[0].0 != 10);
        let (next, out) = step(p, token, intents, evs[0].0, evs[0].1);
        assert(next == Phase::Connected);
        assert(out == Ok::<Seq<ActionView>, ConnectionError>(Seq::<ActionView>::empty()));
        assert forall|j: int| 0 <= j < i - 1 implies is_known_code(#[trigger] rest[j].0) && rest[j].0 != 10 by {
            assert(rest[j] == evs[j + 1]);
        }
        lemma_identify_exactly_once(token, intents, rest, i - 1);
        assert(run(p, token, intents, evs) =~= run(next, token, intents, rest));
    }
}

/// A connected client that receives a hello with a positive interval sends one
/// identify frame with its token and intents, then starts the heartbeat with
/// that interval, and is then authenticating.
pub proof fn lemma_hello_handshake(token: Seq<char>, intents: nat, ms: i64)
    requires
        ms > 0,
    ensures
        step(Phase::Connected, token, intents, 10, Some(ms)) == (
            Phase::Authenticating,
            Ok::<Seq<ActionView>, ConnectionError>(seq![
                ActionView::Send(identify_text(token, intents)),
                ActionView::StartHeartbeat(ms as nat),
            ]),
        ),
{
}

/// The protocol state of one gateway connection, with the credentials it
/// identifies with.
pub struct Connection {
    phase: Phase,
    token: String,
    intents: u64,
}

impl Connection {
    pub closed spec fn spec_phase(&self) -> Phase {
        self.phase
    }

    pub closed spec fn spec_token(&self) -> Seq<char> {
        self.token@
    }

    pub closed spec fn spec_intents(&self) -> nat {
        self.intents as nat
    }

    /// A connection whose transport is not open yet.
    pub fn new(token: String, intents: u64) -> (r: Connection)
        ensures
            r.spec_phase() == Phase::Connecting,
            r.spec_token() == token@,
            r.spec_intents() == intents as nat,
    {
        Connection { phase: Phase::Connecting, token, intents }
    }

    pub fn phase(&self) -> (p: Phase)
        ensures
            p == self.spec_phase(),
    {
        self.phase
    }

    pub fn token(&self) -> (t: &str)
        ensures
            t@ == self.spec_token(),
    {
        self.token.as_str()
    }

    pub fn intents(&self) -> (n: u64)
        ensures
            n as nat == self.spec_intents(),
    {
        self.intents
    }

    /// Records that the transport handshake completed.
    pub fn transport_opened(&mut self)
        ensures
            final(self).spec_phase() == (if old(self).spec_phase() == Phase::Connecting {
                Phase::Connected
            } else {
                old(self).spec_phase()
            }),
            final(self).spec_token() == old(self).spec_token(),
            final(self).spec_intents() == old(self).spec_intents(),
    {
        if self.phase == Phase::Connecting {
            self.phase = Phase::Connected;
        }
    }

    /// Records that the connection was closed.
    pub fn close(&mut self)
        ensures
            final(self).spec_phase() == Phase::Closed,
            final(self).spec_token() == old(self).spec_token(),
            final(self).spec_intents() == old(self).spec_intents(),
    {
        self.phase = Phase::Closed;
    }

    /// Handles a payload with opcode `op`; `heartbeat_interval` is what a hello
    /// payload announces, and is read only for a hello.
    pub fn handle(&mut self, op: i64, heartbeat_interval: Option<i64>) -> (r: Result<Vec<Action>, ConnectionError>)
        ensures
            (final(self).spec_phase(), outcome_view(r)) == step(
                old(self).spec_phase(),
                old(self).spec_token(),
                old(self).spec_intents(),
                op as int,
                heartbeat_interval,
            ),
            final(self).spec_token() == old(self).spec_token(),
            final(self).spec_intents() == old(self).spec_intents(),
    {
        let ghost p = self.phase;
        if self.phase == Phase::Closed || self.phase == Phase::Failed {
            let r: Vec<Action> = Vec::new();
            assert(r@.map_values(|a: Action| a@) =~= seq![]);
            return Ok(r);
        }
        let op = GatewayOp::from_code(op);
        match op {
            None => {
                self.phase = Phase::Failed;
                Err(ConnectionError::Gateway(GatewayError::InvalidOpCode))
            },
            Some(GatewayOp::Hello) => {
                if self.phase == Phase::Connected {
                    match heartbeat_interval {
                        Some(ms) if ms > 0 => {
                            let frame = identify_frame(self.token.as_str(), self.intents);
                            let r = vec![Action::Send(frame), Action::StartHeartbeat { interval_ms: ms as u64 }];
                            self.phase = Phase::Authenticating;
                            assert(r@.map_values(|a: Action| a@) =~= seq![
                                ActionView::Send(identify_text(self.token@, self.intents as nat)),
                                ActionView::StartHeartbeat(ms as nat),
                            ]);
                            Ok(r)
                        },
                        _ => {
                            self.phase = Phase::Failed;
                            Err(ConnectionError::MalformedFrame)
                        },
                    }
                } else {
                    let r: Vec<Action> = Vec::new();
                    assert(r@.map_values(|a: Action| a@) =~= seq![]);
                    Ok(r)
                }
            },
            Some(GatewayOp::Dispatch) => {
                if self.phase == Phase::Authenticating || self.phase == Phase::Active {
                    self.phase = Phase::Active;
                    let r = vec![Action::DispatchEvent];
                    assert(r@.map_values(|a: Action| a@) =~= seq![ActionView::DispatchEvent]);
                    Ok(r)
                } else {
                    let r: Vec<Action> = Vec::new();
                    assert(r@.map_values(|a: Action| a@) =~= seq![]);
                    Ok(r)
                }
            },
            Some(_) => {
                let r: Vec<Action> = Vec::new();
                assert(r@.map_values(|a: Action| a@) =~= seq![]);
                Ok(r)
            },
        }
    }

    /// Handles a decoded payload.
    pub fn handle_payload(&mut self, payload: &Payload) -> (r: Result<Vec<Action>, ConnectionError>)
        ensures
            (final(self).spec_phase(), outcome_view(r)) == step(
                old(self).spec_phase(),
                old(self).spec_token(),
                old(self).spec_intents(),
                payload.op as int,
                payload.heartbeat_interval,
            ),
            final(self).spec_token() == old(self).spec_token(),
            final(self).spec_intents() == old(self).spec_intents(),
    {
        self.handle(payload.op, payload.heartbeat_interval)
    }

    /// Handles an inbound text frame. A frame that does not decode ends the
    /// connection as malformed, unless it was closed already.
    pub fn handle_frame(&mut self, text: &str) -> (r: Result<Vec<Action>, ConnectionError>)
        ensures
            final(self).spec_token() == old(self).spec_token(),
            final(self).spec_intents() == old(self).spec_intents(),
            match frame_fields(text@) {
                None => r == Err::<Vec<Action>, ConnectionError>(ConnectionError::MalformedFrame)
                    && final(self).spec_phase() == (if old(self).spec_phase() == Phase::Closed {
                        Phase::Closed
                    } else {
                        Phase::Failed
                    }),
                Some(f) => (final(self).spec_phase(), outcome_view(r)) == step(
                    old(self).spec_phase(),
                    old(self).spec_token(),
                    old(self).spec_intents(),
                    f.0 as int,
                    f.1,
                ),
            },
    {
        match decode_payload(text) {
            Ok(payload) => self.handle_payload(&payload),
            Err(e) => {
                if self.phase != Phase::Closed {
                    self.phase = Phase::Failed;
                }
                Err(e)
            },
        }
    }
}

} // verus!
