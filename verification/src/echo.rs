//! Diagnostic TCP echo service: the decision core of the task that listens
//! on one fixed port, echoes back exactly what it reads, and returns to
//! listening when the session ends.
//!
//! The service is a state machine driven by the transport: the caller
//! performs the action the machine asks for (accept, read, write), hands the
//! outcome back as an event, and the machine decides the next step. The
//! session ends on a zero-byte read (clean peer close), on any read or write
//! error, or on the idle timeout, which the transport surfaces as its own
//! event; every ending returns the machine to listening, so a new connection
//! can be accepted immediately. One connection is handled at a time: the
//! machine never asks for a second accept while a session runs.

use vstd::prelude::*;

verus! {

/// TCP port the diagnostic service listens on.
pub const ECHO_PORT: u16 = 1234;

/// Capacity of the fixed receive buffer; one read returns at most this many
/// bytes.
pub const ECHO_BUFFER_CAPACITY: usize = 4096;

/// Idle timeout of a session in milliseconds; enforced by the transport and
/// surfaced as `EchoEvent::ReadTimeout`.
pub const ECHO_IDLE_TIMEOUT_MS: u64 = 10_000;

/// Where the service stands: waiting for a connection, waiting for bytes
/// from the peer, or echoing the bytes of the last read back.
#[derive(Clone, Copy, PartialEq, Eq, Structural, Debug)]
pub enum EchoState {
    Listening,
    Reading,
    Writing,
}

/// Outcome of the last transport action, handed back by the driver loop.
#[derive(Debug)]
pub enum EchoEvent {
    /// A connection was accepted.
    AcceptOk,
    /// The accept failed (for example a malformed connection attempt).
    AcceptErr,
    /// A read returned these bytes: more than zero, at most the buffer
    /// capacity.
    ReadData(Vec<u8>),
    /// A read returned zero bytes: the peer closed its half cleanly.
    ReadEnd,
    /// A read failed.
    ReadErr,
    /// No bytes arrived within the idle timeout; the transport tore the
    /// session down.
    ReadTimeout,
    /// The echo write completed in full.
    WriteOk,
    /// The echo write failed.
    WriteErr,
}

/// What the machine asks the driver loop to do next.
#[derive(Debug)]
pub enum EchoAction {
    /// Wait for a connection on the fixed port.
    Accept,
    /// Read up to the buffer capacity from the peer.
    Read,
    /// Write exactly these bytes back to the peer.
    Write(Vec<u8>),
}

/// The events the transport can hand back in each state: each one reports
/// the outcome of the action the machine asked for there, and a read never
/// returns more than the buffer holds.
pub open spec fn event_fits(s: EchoState, e: EchoEvent) -> bool {
    match (s, e) {
        (EchoState::Listening, EchoEvent::AcceptOk) => true,
        (EchoState::Listening, EchoEvent::AcceptErr) => true,
        (EchoState::Reading, EchoEvent::ReadData(d)) => 0 < d@.len() <= ECHO_BUFFER_CAPACITY,
        (EchoState::Reading, EchoEvent::ReadEnd) => true,
        (EchoState::Reading, EchoEvent::ReadErr) => true,
        (EchoState::Reading, EchoEvent::ReadTimeout) => true,
        (EchoState::Writing, EchoEvent::WriteOk) => true,
        (EchoState::Writing, EchoEvent::WriteErr) => true,
        _ => false,
    }
}

/// The state after an event: a successful accept starts a session; read
/// bytes move the machine to echoing them; a clean close, an error, or the
/// idle timeout ends the session and returns to listening; a completed echo
/// returns to reading.
pub open spec fn step_state(s: EchoState, e: EchoEvent) -> EchoState {
    match (s, e) {
        (EchoState::Listening, EchoEvent::AcceptOk) => EchoState::Reading,
        (EchoState::Listening, _) => EchoState::Listening,
        (EchoState::Reading, EchoEvent::ReadData(_)) => EchoState::Writing,
        (EchoState::Reading, _) => EchoState::Listening,
        (EchoState::Writing, EchoEvent::WriteOk) => EchoState::Reading,
        (EchoState::Writing, _) => EchoState::Listening,
    }
}

/// The action the machine must emit for an event: read after a session
/// starts or an echo completes, write back exactly the bytes just read, and
/// accept again after any ending.
pub open spec fn action_matches(a: EchoAction, s: EchoState, e: EchoEvent) -> bool {
    match (s, e) {
        (EchoState::Listening, EchoEvent::AcceptOk) => a is Read,
        (EchoState::Listening, _) => a is Accept,
        (EchoState::Reading, EchoEvent::ReadData(d)) => a matches EchoAction::Write(w) && w@
            == d@,
        (EchoState::Reading, _) => a is Accept,
        (EchoState::Writing, EchoEvent::WriteOk) => a is Read,
        (EchoState::Writing, _) => a is Accept,
    }
}

/// The service as spawned: listening, asking the transport for a connection.
pub fn init() -> (r: (EchoState, EchoAction))
    ensures
        r.0 is Listening,
        r.1 is Accept,
{
    (EchoState::Listening, EchoAction::Accept)
}

/// One decision of the service: takes the outcome of the last action and
/// returns the next state and the next action. Bytes read are moved whole
/// into the write action — the echo sends exactly what was read, in order,
/// before any further read.
pub fn step(s: EchoState, e: EchoEvent) -> (r: (EchoState, EchoAction))
    requires
        event_fits(s, e),
    ensures
        r.0 == step_state(s, e),
        action_matches(r.1, s, e),
{
    match (s, e) {
        (EchoState::Listening, EchoEvent::AcceptOk) => (EchoState::Reading, EchoAction::Read),
        (EchoState::Reading, EchoEvent::ReadData(d)) => (
            EchoState::Writing,
            EchoAction::Write(d),
        ),
        (EchoState::Writing, EchoEvent::WriteOk) => (EchoState::Reading, EchoAction::Read),
        (_, _) => (EchoState::Listening, EchoAction::Accept),
    }
}

/// A run of events the transport could produce from state `s`: each event
/// fits the state the machine has reached.
pub open spec fn trace_ok(s: EchoState, events: Seq<EchoEvent>) -> bool
    decreases events.len(),
{
    events.len() == 0 || (event_fits(s, events.first()) && trace_ok(
        step_state(s, events.first()),
        events.drop_first(),
    ))
}

/// The state after a run of events.
pub open spec fn trace_final(s: EchoState, events: Seq<EchoEvent>) -> EchoState
    decreases events.len(),
{
    if events.len() == 0 {
        s
    } else {
        trace_final(step_state(s, events.first()), events.drop_first())
    }
}

/// Every byte sequence the peer sent in a run, in order.
pub open spec fn trace_payloads(events: Seq<EchoEvent>) -> Seq<Seq<u8>>
    decreases events.len(),
{
    if events.len() == 0 {
        Seq::empty()
    } else {
        let rest = trace_payloads(events.drop_first());
        match events.first() {
            EchoEvent::ReadData(d) => seq![d@] + rest,
            _ => rest,
        }
    }
}

/// Every byte sequence the machine asked the transport to write in a run,
/// in order.
pub open spec fn trace_outputs(s: EchoState, events: Seq<EchoEvent>) -> Seq<Seq<u8>>
    decreases events.len(),
{
    if events.len() == 0 {
        Seq::empty()
    } else {
        let rest = trace_outputs(step_state(s, events.first()), events.drop_first());
        match (s, events.first()) {
            (EchoState::Reading, EchoEvent::ReadData(d)) => seq![d@] + rest,
            _ => rest,
        }
    }
}

/// The echo law: over any run of transport events, the service writes back
/// exactly the byte sequences the peer sent, in order — nothing dropped,
/// nothing added, nothing reordered.
pub proof fn lemma_echo_exact(s: EchoState, events: Seq<EchoEvent>)
    requires
        trace_ok(s, events),
    ensures
        trace_outputs(s, events) == trace_payloads(events),
    decreases events.len(),
{
    if events.len() > 0 {
        lemma_echo_exact(step_state(s, events.first()), events.drop_first());
    }
}

/// A clean peer close ends the session and the machine immediately asks for
/// a new connection, which it is ready to accept.
pub proof fn lemma_clean_close_relisten()
    ensures
        step_state(EchoState::Reading, EchoEvent::ReadEnd) is Listening,
        forall|a: EchoAction|
            action_matches(a, EchoState::Reading, EchoEvent::ReadEnd) ==> a is Accept,
        event_fits(EchoState::Listening, EchoEvent::AcceptOk),
        step_state(EchoState::Listening, EchoEvent::AcceptOk) is Reading,
{
}

/// The idle timeout tears the session down like a read error: the machine
/// returns to listening and a subsequent connection attempt is accepted.
pub proof fn lemma_idle_timeout_relisten()
    ensures
        step_state(EchoState::Reading, EchoEvent::ReadTimeout) is Listening,
        forall|a: EchoAction|
            action_matches(a, EchoState::Reading, EchoEvent::ReadTimeout) ==> a is Accept,
        event_fits(EchoState::Listening, EchoEvent::AcceptOk),
        step_state(EchoState::Listening, EchoEvent::AcceptOk) is Reading,
{
}

/// Runs the machine over a whole recorded run of events, collecting what it
/// writes back. Returns the final state and the echoed byte sequences, which
/// the contract pins to exactly the peer's payloads, in order.
pub fn run_session(start: EchoState, events: Vec<EchoEvent>) -> (r: (EchoState, Vec<Vec<u8>>))
    requires
        trace_ok(start, events@),
    ensures
        r.0 == trace_final(start, events@),
        r.1@.map_values(|v: Vec<u8>| v@) == trace_payloads(events@),
{
    proof {
        lemma_echo_exact(start, events@);
    }
    let ghost all = events@;
    let mut events = events;
    let mut state = start;
    let mut out: Vec<Vec<u8>> = Vec::new();
    while events.len() > 0
        invariant
            trace_ok(state, events@),
            trace_final(state, events@) == trace_final(start, all),
            out@.map_values(|v: Vec<u8>| v@) + trace_outputs(state, events@) == trace_outputs(
                start,
                all,
            ),
        decreases events@.len(),
    {
        let ghost pre = events@;
        let ghost pre_out = out@;
        let e = events.remove(0);
        proof {
            assert(pre.remove(0) =~= pre.drop_first());
        }
        let (next, action) = step(state, e);
        match action {
            EchoAction::Write(w) => {
                out.push(w);
                proof {
                    assert(out@.map_values(|v: Vec<u8>| v@) =~= pre_out.map_values(
                        |v: Vec<u8>| v@,
                    ) + seq![w@]);
                }
            },
            _ => {},
        }
        state = next;
    }
    proof {
        assert(out@.map_values(|v: Vec<u8>| v@) =~= trace_outputs(start, all));
    }
    (state, out)
}

} // verus!
