//! Per-connection relay state machine.
//!
//! A connection accepted by the proxy listener walks through a fixed
//! set of phases: the proxy handshake, the policy decision on the
//! negotiated destination, the bounded outbound stream establishment,
//! the manual success reply, and the bidirectional relay. The driver
//! performs the surrounding I/O; every decision is taken here, by
//! [`Connection::step`], whose transitions are written out in
//! [`step_phase`] and [`step_action`]. A failure is terminal for the
//! connection that suffered it and for no other.

use crate::text::dec_chars;
use crate::text::u64_to_dec;
use vstd::prelude::*;

verus! {

/// The fixed number of seconds the outbound stream establishment may
/// take before the connection is dropped.
pub const CONNECT_TIMEOUT_SECS: u64 = 60;

/// The address a listener binds, as `addr:port` text.
pub fn bind_addr(addr: &str, port: u16) -> (r: String)
    ensures
        r@ == addr@ + ":"@ + dec_chars(port as int),
{
    String::from_str(addr).concat(":").concat(u64_to_dec(port as u64).as_str())
}

/// The destination a client asked for: either an IP literal or a
/// domain name, with the port in either case.
pub enum Destination {
    Ip { host: String, port: u16 },
    Domain { host: String, port: u16 },
}

impl Destination {
    pub open spec fn host(self) -> String {
        match self {
            Destination::Ip { host, .. } => host,
            Destination::Domain { host, .. } => host,
        }
    }

    pub open spec fn port(self) -> u16 {
        match self {
            Destination::Ip { port, .. } => port,
            Destination::Domain { port, .. } => port,
        }
    }

    pub open spec fn is_ip(self) -> bool {
        self is Ip
    }

    /// True when the destination is an IP literal rather than a name.
    pub fn is_ip_literal(&self) -> (r: bool)
        ensures
            r == self.is_ip(),
    {
        match self {
            Destination::Ip { .. } => true,
            Destination::Domain { .. } => false,
        }
    }
}

/// Why a connection ended before a clean relay: each variant is
/// isolated to the connection that suffered it.
pub enum ConnError {
    /// The proxy handshake did not complete.
    Handshake,
    /// The handshake completed but exposed no destination.
    NoTarget,
    /// The destination was an IP literal and policy rejects those.
    Policy,
    /// The outbound stream was not established within the bound.
    ConnectTimeout,
    /// The overlay client reported a connection failure.
    Connect,
    /// The success reply could not be written to the client.
    Reply,
}

/// Where a connection stands in its lifecycle.
pub enum Phase {
    /// The proxy handshake is in progress.
    Negotiating,
    /// The handshake produced a destination, not yet evaluated.
    TargetKnown { dest: Destination },
    /// Policy rejected the destination; terminal, nothing was dialled.
    Rejected,
    /// The outbound stream is being established, under the timeout.
    Connecting,
    /// The outbound stream is up; the success reply is owed.
    StreamReady,
    /// Both copy directions are running.
    Relaying,
    /// The relay ended; `up`/`down` are the byte counts when it ended
    /// cleanly in both directions.
    Closed { clean: bool, up: u64, down: u64 },
    /// The connection failed; terminal.
    Failed { err: ConnError },
}

/// What the surrounding I/O reports back to the state machine.
pub enum Event {
    /// The proxy handshake failed.
    HandshakeFailed,
    /// The proxy handshake finished; `target` is the negotiated
    /// destination, or `None` when the session exposed none.
    HandshakeDone { target: Option<Destination> },
    /// Asks the machine to evaluate the negotiated destination.
    EvaluateTarget,
    /// The outbound stream was established within the bound.
    ConnectSucceeded,
    /// The timeout elapsed before the outbound stream was up.
    ConnectTimedOut,
    /// The overlay client reported a failure before the timeout.
    ConnectFailed,
    /// The success reply was written and flushed.
    ReplySent,
    /// Writing or flushing the success reply failed.
    ReplyFailed,
    /// Both copy directions finished; byte counts per direction.
    RelayFinished { up: u64, down: u64 },
    /// A copy direction failed; the relay is over.
    RelayBroken,
}

/// What the driver must do after a step.
pub enum Action {
    /// Close the client connection without writing anything further.
    Drop,
    /// Nothing to perform; evaluate the destination next.
    Proceed,
    /// Open the outbound overlay stream to `host:port`, bounded by
    /// [`crate::CONNECT_TIMEOUT_SECS`].
    Connect { host: String, port: u16 },
    /// Write exactly the bytes of [`success_reply`] to the client
    /// socket, then flush.
    SendReply,
    /// Split both streams and run the two copy directions
    /// concurrently, each to its own completion or error.
    StartRelay,
    /// Release the connection's resources and report the outcome.
    Finish,
}

/// True when policy turns this destination away: an IP literal while
/// IP literals are rejected.
pub open spec fn rejects_dest(dest: Destination, reject_ip: bool) -> bool {
    reject_ip && dest.is_ip()
}

/// Phases from which no further event is accepted.
pub open spec fn is_terminal(p: Phase) -> bool {
    match p {
        Phase::Rejected => true,
        Phase::Closed { .. } => true,
        Phase::Failed { .. } => true,
        _ => false,
    }
}

/// Which events a phase accepts. The driver only reports an event the
/// current phase is waiting for.
pub open spec fn accepts(p: Phase, ev: Event) -> bool {
    match (p, ev) {
        (Phase::Negotiating, Event::HandshakeFailed) => true,
        (Phase::Negotiating, Event::HandshakeDone { .. }) => true,
        (Phase::TargetKnown { .. }, Event::EvaluateTarget) => true,
        (Phase::Connecting, Event::ConnectSucceeded) => true,
        (Phase::Connecting, Event::ConnectTimedOut) => true,
        (Phase::Connecting, Event::ConnectFailed) => true,
        (Phase::StreamReady, Event::ReplySent) => true,
        (Phase::StreamReady, Event::ReplyFailed) => true,
        (Phase::Relaying, Event::RelayFinished { .. }) => true,
        (Phase::Relaying, Event::RelayBroken) => true,
        _ => false,
    }
}

/// The phase after a step. An event the phase does not accept leaves
/// the phase as it is.
pub open spec fn step_phase(c: Connection, ev: Event) -> Phase {
    match (c.phase, ev) {
        (Phase::Negotiating, Event::HandshakeFailed) => Phase::Failed { err: ConnError::Handshake },
        (Phase::Negotiating, Event::HandshakeDone { target: None }) => Phase::Failed {
            err: ConnError::NoTarget,
        },
        (Phase::Negotiating, Event::HandshakeDone { target: Some(d) }) => Phase::TargetKnown {
            dest: d,
        },
        (Phase::TargetKnown { dest }, Event::EvaluateTarget) => if rejects_dest(
            dest,
            c.reject_ip,
        ) {
            Phase::Rejected
        } else {
            Phase::Connecting
        },
        (Phase::Connecting, Event::ConnectSucceeded) => Phase::StreamReady,
        (Phase::Connecting, Event::ConnectTimedOut) => Phase::Failed {
            err: ConnError::ConnectTimeout,
        },
        (Phase::Connecting, Event::ConnectFailed) => Phase::Failed { err: ConnError::Connect },
        (Phase::StreamReady, Event::ReplySent) => Phase::Relaying,
        (Phase::StreamReady, Event::ReplyFailed) => Phase::Failed { err: ConnError::Reply },
        (Phase::Relaying, Event::RelayFinished { up, down }) => Phase::Closed {
            clean: true,
            up,
            down,
        },
        (Phase::Relaying, Event::RelayBroken) => Phase::Closed { clean: false, up: 0, down: 0 },
        (p, _) => p,
    }
}

/// The action a step demands of the driver. An event the phase does
/// not accept demands nothing but dropping the connection.
pub open spec fn step_action(c: Connection, ev: Event) -> Action {
    match (c.phase, ev) {
        (Phase::Negotiating, Event::HandshakeFailed) => Action::Drop,
        (Phase::Negotiating, Event::HandshakeDone { target: None }) => Action::Drop,
        (Phase::Negotiating, Event::HandshakeDone { target: Some(_) }) => Action::Proceed,
        (Phase::TargetKnown { dest }, Event::EvaluateTarget) => if rejects_dest(
            dest,
            c.reject_ip,
        ) {
            Action::Drop
        } else {
            Action::Connect { host: dest.host(), port: dest.port() }
        },
        (Phase::Connecting, Event::ConnectSucceeded) => Action::SendReply,
        (Phase::Connecting, Event::ConnectTimedOut) => Action::Drop,
        (Phase::Connecting, Event::ConnectFailed) => Action::Drop,
        (Phase::StreamReady, Event::ReplySent) => Action::StartRelay,
        (Phase::StreamReady, Event::ReplyFailed) => Action::Drop,
        (Phase::Relaying, Event::RelayFinished { .. }) => Action::Finish,
        (Phase::Relaying, Event::RelayBroken) => Action::Finish,
        (_, _) => Action::Drop,
    }
}

/// One client connection: its identifier, the policy it runs under,
/// and where it stands.
pub struct Connection {
    /// Identifier assigned at accept time; used for correlation only.
    pub id: u64,
    /// Whether IP-literal destinations are rejected.
    pub reject_ip: bool,
    /// Where the connection stands.
    pub phase: Phase,
}

impl Connection {
    /// A freshly accepted connection: the handshake is ahead of it.
    pub fn new(id: u64, reject_ip: bool) -> (c: Connection)
        ensures
            c.id == id,
            c.reject_ip == reject_ip,
            c.phase == Phase::Negotiating,
    {
        Connection { id, reject_ip, phase: Phase::Negotiating }
    }

    /// Takes one step of the lifecycle: consumes the reported event,
    /// moves to the next phase, and tells the driver what to do.
    pub fn step(self, ev: Event) -> (r: (Connection, Action))
        requires
            accepts(self.phase, ev),
        ensures
            r.0.id == self.id,
            r.0.reject_ip == self.reject_ip,
            r.0.phase == step_phase(self, ev),
            r.1 == step_action(self, ev),
    {
        let Connection { id, reject_ip, phase } = self;
        match (phase, ev) {
            (Phase::Negotiating, Event::HandshakeFailed) => (
                Connection { id, reject_ip, phase: Phase::Failed { err: ConnError::Handshake } },
                Action::Drop,
            ),
            (Phase::Negotiating, Event::HandshakeDone { target: None }) => (
                Connection { id, reject_ip, phase: Phase::Failed { err: ConnError::NoTarget } },
                Action::Drop,
            ),
            (Phase::Negotiating, Event::HandshakeDone { target: Some(d) }) => (
                Connection { id, reject_ip, phase: Phase::TargetKnown { dest: d } },
                Action::Proceed,
            ),
            (Phase::TargetKnown { dest }, Event::EvaluateTarget) => {
                if reject_ip && dest.is_ip_literal() {
                    (Connection { id, reject_ip, phase: Phase::Rejected }, Action::Drop)
                } else {
                    let (host, port) = match dest {
                        Destination::Ip { host, port } => (host, port),
                        Destination::Domain { host, port } => (host, port),
                    };
                    (
                        Connection { id, reject_ip, phase: Phase::Connecting },
                        Action::Connect { host, port },
                    )
                }
            },
            (Phase::Connecting, Event::ConnectSucceeded) => (
                Connection { id, reject_ip, phase: Phase::StreamReady },
                Action::SendReply,
            ),
            (Phase::Connecting, Event::ConnectTimedOut) => (
                Connection {
                    id,
                    reject_ip,
                    phase: Phase::Failed { err: ConnError::ConnectTimeout },
                },
                Action::Drop,
            ),
            (Phase::Connecting, Event::ConnectFailed) => (
                Connection { id, reject_ip, phase: Phase::Failed { err: ConnError::Connect } },
                Action::Drop,
            ),
            (Phase::StreamReady, Event::ReplySent) => (
                Connection { id, reject_ip, phase: Phase::Relaying },
                Action::StartRelay,
            ),
            (Phase::StreamReady, Event::ReplyFailed) => (
                Connection { id, reject_ip, phase: Phase::Failed { err: ConnError::Reply } },
                Action::Drop,
            ),
            (Phase::Relaying, Event::RelayFinished { up, down }) => (
                Connection { id, reject_ip, phase: Phase::Closed { clean: true, up, down } },
                Action::Finish,
            ),
            (Phase::Relaying, Event::RelayBroken) => (
                Connection { id, reject_ip, phase: Phase::Closed { clean: false, up: 0, down: 0 } },
                Action::Finish,
            ),
            (p, _) => (Connection { id, reject_ip, phase: p }, Action::Drop),
        }
    }
}

/// Checks the negotiated destination against policy: `Err(Policy)`
/// exactly when the destination is an IP literal and the reject-IP
/// policy is on; `Ok` on every other input.
pub fn validate_target(dest: &Destination, reject_ip: bool) -> (r: Result<(), ConnError>)
    ensures
        r is Err <==> rejects_dest(*dest, reject_ip),
        r is Err ==> r == Result::<(), ConnError>::Err(ConnError::Policy),
{
    if reject_ip && dest.is_ip_literal() {
        Err(ConnError::Policy)
    } else {
        Ok(())
    }
}

/// The bytes of the fixed SOCKS5 success reply: version 5, status
/// "succeeded", an all-zero IPv4 bound address and a zero bound port,
/// since the overlay exposes no meaningful bound address.
pub open spec fn success_reply_spec() -> Seq<u8> {
    seq![0x05u8, 0x00u8, 0x00u8, 0x01u8, 0x00u8, 0x00u8, 0x00u8, 0x00u8, 0x00u8, 0x00u8]
}

/// Builds the fixed 10-byte success reply the driver writes to the
/// client socket once the outbound stream is up.
pub fn success_reply() -> (r: Vec<u8>)
    ensures
        r@ == success_reply_spec(),
{
    let mut v: Vec<u8> = Vec::new();
    v.push(0x05);
    v.push(0x00);
    v.push(0x00);
    v.push(0x01);
    v.push(0x00);
    v.push(0x00);
    v.push(0x00);
    v.push(0x00);
    v.push(0x00);
    v.push(0x00);
    proof {
        assert(v@ =~= success_reply_spec());
    }
    v
}

/// Hands out connection identifiers in strict accept order.
pub struct ConnCounter {
    /// The identifier the next accepted connection will get.
    pub next: u64,
}

impl ConnCounter {
    /// A fresh counter: the first connection gets identifier 0.
    pub fn new() -> (c: ConnCounter)
        ensures
            c.next == 0,
    {
        ConnCounter { next: 0 }
    }

    /// Hands out the next identifier and moves past it. Wrapping at
    /// the integer bound is out of scope, so the bound is required.
    pub fn next_id(&mut self) -> (id: u64)
        requires
            old(self).next < u64::MAX,
        ensures
            id == old(self).next,
            final(self).next == old(self).next + 1,
    {
        let id = self.next;
        self.next = self.next + 1;
        id
    }
}

/// The connection after one step, with the event's phase change
/// applied and everything else kept.
pub open spec fn step_conn(c: Connection, ev: Event) -> Connection {
    Connection { id: c.id, reject_ip: c.reject_ip, phase: step_phase(c, ev) }
}

/// True when every event of `evs`, fed in order, is one the phase of
/// the moment accepts.
pub open spec fn trace_legal(c: Connection, evs: Seq<Event>) -> bool
    decreases evs.len(),
{
    evs.len() == 0 || (accepts(c.phase, evs[0]) && trace_legal(step_conn(c, evs[0]), evs.skip(1)))
}

/// The actions a run of `evs` demands of the driver, in order.
pub open spec fn trace_actions(c: Connection, evs: Seq<Event>) -> Seq<Action>
    decreases evs.len(),
{
    if evs.len() == 0 {
        Seq::empty()
    } else {
        seq![step_action(c, evs[0])] + trace_actions(step_conn(c, evs[0]), evs.skip(1))
    }
}

/// Phases from which the machine can still reach `Connecting`: the
/// phases where a connect event lies ahead.
pub open spec fn before_stream(p: Phase) -> bool {
    match p {
        Phase::Negotiating => true,
        Phase::TargetKnown { .. } => true,
        Phase::Connecting => true,
        _ => false,
    }
}

pub open spec fn is_connect_event(ev: Event) -> bool {
    match ev {
        Event::ConnectSucceeded => true,
        Event::ConnectTimedOut => true,
        Event::ConnectFailed => true,
        _ => false,
    }
}

/// Once the machine has left the phases ahead of the stream, no legal
/// trace holds another connect event: the establishment step happens
/// at most once per connection.
proof fn lemma_no_connect_event_after_stream(c: Connection, evs: Seq<Event>)
    requires
        trace_legal(c, evs),
        !before_stream(c.phase),
    ensures
        forall|i: int| 0 <= i < evs.len() ==> !is_connect_event(evs[i]),
    decreases evs.len(),
{
    if evs.len() > 0 {
        let c2 = step_conn(c, evs[0]);
        lemma_no_connect_event_after_stream(c2, evs.skip(1));
        assert(forall|i: int|
            1 <= i < evs.len() ==> evs[i] == evs.skip(1)[i - 1] && !is_connect_event(evs[i]));
    }
}

/// In a terminal phase no event is legal, so a legal trace is empty.
proof fn lemma_terminal_trace_empty(c: Connection, evs: Seq<Event>)
    requires
        trace_legal(c, evs),
        is_terminal(c.phase),
    ensures
        evs.len() == 0,
{
}

/// If the outbound stream establishment timed out, the success reply
/// is never sent: no action of the whole run asks the driver to write
/// it. (The reply is owed only after `ConnectSucceeded`, and a legal
/// trace cannot hold both connect outcomes.)
pub proof fn lemma_timeout_means_no_reply(c: Connection, evs: Seq<Event>)
    requires
        trace_legal(c, evs),
        evs.contains(Event::ConnectTimedOut),
    ensures
        !trace_actions(c, evs).contains(Action::SendReply),
    decreases evs.len(),
{
    let acts = trace_actions(c, evs);
    let c2 = step_conn(c, evs[0]);
    let tail = evs.skip(1);
    assert(evs.len() > 0) by {
        let i = choose|i: int| 0 <= i < evs.len() && evs[i] == Event::ConnectTimedOut;
    }
    assert(acts == seq![step_action(c, evs[0])] + trace_actions(c2, tail));
    if evs[0] == Event::ConnectTimedOut {
        assert(c.phase == Phase::Connecting);
        lemma_terminal_trace_empty(c2, tail);
        assert(acts =~= seq![Action::Drop]);
        assert(forall|i: int| 0 <= i < acts.len() ==> acts[i] != Action::SendReply);
    } else {
        let i = choose|i: int| 0 <= i < evs.len() && evs[i] == Event::ConnectTimedOut;
        assert(tail[i - 1] == evs[i]);
        assert(tail.contains(Event::ConnectTimedOut));
        if evs[0] == Event::ConnectSucceeded {
            assert(!before_stream(c2.phase));
            lemma_no_connect_event_after_stream(c2, tail);
            let j = choose|j: int| 0 <= j < tail.len() && tail[j] == Event::ConnectTimedOut;
            assert(is_connect_event(tail[j]));
            assert(false);
        }
        assert(step_action(c, evs[0]) != Action::SendReply);
        lemma_timeout_means_no_reply(c2, tail);
        assert(forall|i: int| 0 <= i < acts.len() ==> acts[i] != Action::SendReply) by {
            assert(forall|i: int|
                1 <= i < acts.len() ==> acts[i] == trace_actions(c2, tail)[i - 1]);
            assert(forall|i: int|
                0 <= i < trace_actions(c2, tail).len() ==> trace_actions(c2, tail)[i]
                    != Action::SendReply);
        }
    }
}

/// Before the success reply was asked for, the relay never starts:
/// wherever a run demands `StartRelay`, an earlier action of the same
/// run demanded `SendReply`. Together with the exact bytes of
/// [`success_reply`], this puts the full 10-byte reply on the wire
/// before any relay byte.
pub proof fn lemma_reply_precedes_relay(c: Connection, evs: Seq<Event>)
    requires
        trace_legal(c, evs),
        !(c.phase is StreamReady),
        !(c.phase is Relaying),
    ensures
        forall|j: int|
            0 <= j < trace_actions(c, evs).len() && trace_actions(c, evs)[j] == Action::StartRelay
                ==> exists|i: int|
                0 <= i < j && trace_actions(c, evs)[i] == Action::SendReply,
    decreases evs.len(),
{
    if evs.len() > 0 {
        let acts = trace_actions(c, evs);
        let c2 = step_conn(c, evs[0]);
        let tail = evs.skip(1);
        let tacts = trace_actions(c2, tail);
        assert(acts == seq![step_action(c, evs[0])] + tacts);
        if evs[0] == Event::ConnectSucceeded {
            // The reply is demanded right here, at index 0; any later
            // StartRelay has it in front.
            assert(c.phase == Phase::Connecting);
            assert(acts[0] == Action::SendReply);
            assert forall|j: int|
                0 <= j < acts.len() && acts[j] == Action::StartRelay implies exists|i: int|
                0 <= i < j && acts[i] == Action::SendReply by {
                assert(j != 0);
                assert(0 <= 0 < j && acts[0] == Action::SendReply);
            }
        } else {
            assert(!(c2.phase is StreamReady));
            assert(!(c2.phase is Relaying));
            lemma_reply_precedes_relay(c2, tail);
            assert(step_action(c, evs[0]) != Action::StartRelay);
            assert forall|j: int|
                0 <= j < acts.len() && acts[j] == Action::StartRelay implies exists|i: int|
                0 <= i < j && acts[i] == Action::SendReply by {
                assert(j != 0);
                assert(acts[j] == tacts[j - 1]);
                let w = choose|i: int| 0 <= i < j - 1 && tacts[i] == Action::SendReply;
                assert(0 <= w + 1 < j && acts[w + 1] == Action::SendReply);
            }
        }
    }
}

/// A run demands exactly one action per event.
proof fn lemma_trace_actions_len(c: Connection, evs: Seq<Event>)
    ensures
        trace_actions(c, evs).len() == evs.len(),
    decreases evs.len(),
{
    if evs.len() > 0 {
        lemma_trace_actions_len(step_conn(c, evs[0]), evs.skip(1));
    }
}

/// A step demands the success reply only on the event that
/// established the stream.
proof fn lemma_reply_action_needs_connect(c: Connection, evs: Seq<Event>)
    requires
        trace_legal(c, evs),
    ensures
        forall|k: int|
            0 <= k < evs.len() && trace_actions(c, evs)[k] == Action::SendReply ==> evs[k]
                == Event::ConnectSucceeded,
    decreases evs.len(),
{
    if evs.len() > 0 {
        let acts = trace_actions(c, evs);
        let c2 = step_conn(c, evs[0]);
        let tail = evs.skip(1);
        assert(acts == seq![step_action(c, evs[0])] + trace_actions(c2, tail));
        lemma_trace_actions_len(c2, tail);
        lemma_reply_action_needs_connect(c2, tail);
        assert(forall|k: int|
            1 <= k < evs.len() ==> acts[k] == trace_actions(c2, tail)[k - 1] && evs[k] == tail[k
                - 1]);
    }
}

/// The success reply is demanded at most once per connection: no two
/// actions of one run are both `SendReply`.
pub proof fn lemma_reply_at_most_once(c: Connection, evs: Seq<Event>)
    requires
        trace_legal(c, evs),
    ensures
        forall|i: int, j: int|
            0 <= i < j < trace_actions(c, evs).len() && trace_actions(c, evs)[i]
                == Action::SendReply ==> trace_actions(c, evs)[j] != Action::SendReply,
    decreases evs.len(),
{
    if evs.len() > 0 {
        let acts = trace_actions(c, evs);
        let c2 = step_conn(c, evs[0]);
        let tail = evs.skip(1);
        let tacts = trace_actions(c2, tail);
        assert(acts == seq![step_action(c, evs[0])] + tacts);
        lemma_reply_at_most_once(c2, tail);
        assert forall|i: int, j: int|
            0 <= i < j < acts.len() && acts[i] == Action::SendReply implies acts[j]
            != Action::SendReply by {
            if i == 0 {
                // The first step sent the reply, so the stream was
                // just established; no later step can establish it
                // again, and only that event demands a reply.
                assert(evs[0] == Event::ConnectSucceeded);
                assert(c.phase == Phase::Connecting);
                assert(!before_stream(c2.phase));
                lemma_no_connect_event_after_stream(c2, tail);
                lemma_reply_action_needs_connect(c2, tail);
                assert(acts[j] == tacts[j - 1]);
                if acts[j] == Action::SendReply {
                    lemma_trace_actions_len(c2, tail);
                    assert(0 <= j - 1 < tail.len());
                    assert(trace_actions(c2, tail)[j - 1] == Action::SendReply);
                    assert(tail[j - 1] == Event::ConnectSucceeded);
                    assert(is_connect_event(tail[j - 1]));
                    assert(false);
                }
            } else {
                assert(acts[i] == tacts[i - 1] && acts[j] == tacts[j - 1]);
            }
        }
    }
}

/// True when the event carries no destination that is a domain name:
/// either it is not a handshake completion, or the session exposed no
/// target, or the target is an IP literal.
pub open spec fn target_ip_or_absent(ev: Event) -> bool {
    match ev {
        Event::HandshakeDone { target: Some(d) } => d.is_ip(),
        _ => true,
    }
}

/// Under the reject-IP policy, a run whose negotiated destinations
/// are all IP literals never dials out: no action of the run is a
/// `Connect`, and the machine never passes through `Connecting`.
pub proof fn lemma_ip_reject_no_connect(c: Connection, evs: Seq<Event>)
    requires
        trace_legal(c, evs),
        c.reject_ip,
        c.phase is Negotiating || (c.phase matches Phase::TargetKnown { dest } && dest.is_ip())
            || is_terminal(c.phase),
        forall|i: int| 0 <= i < evs.len() ==> target_ip_or_absent(evs[i]),
    ensures
        forall|j: int|
            0 <= j < trace_actions(c, evs).len() ==> !(#[trigger] trace_actions(c, evs)[j] matches
                Action::Connect { .. }),
    decreases evs.len(),
{
    if evs.len() > 0 {
        let acts = trace_actions(c, evs);
        let c2 = step_conn(c, evs[0]);
        let tail = evs.skip(1);
        assert(acts == seq![step_action(c, evs[0])] + trace_actions(c2, tail));
        assert(target_ip_or_absent(evs[0]));
        assert(!(step_action(c, evs[0]) matches Action::Connect { .. }));
        assert(forall|i: int|
            0 <= i < tail.len() ==> tail[i] == evs[i + 1] && target_ip_or_absent(tail[i]));
        lemma_ip_reject_no_connect(c2, tail);
        assert(forall|j: int|
            1 <= j < acts.len() ==> acts[j] == trace_actions(c2, tail)[j - 1]);
    }
}

/// One step of a pool of concurrently running connections: the one
/// addressed by `id` takes the event, the rest stand as they are.
pub open spec fn step_pool(pool: Map<u64, Connection>, id: u64, ev: Event) -> Map<u64, Connection> {
    pool.insert(id, step_conn(pool[id], ev))
}

/// A connection's step — its induced failure included — leaves every
/// other connection of the pool exactly as it was.
pub proof fn lemma_connection_isolation(pool: Map<u64, Connection>, id: u64, ev: Event, other: u64)
    requires
        pool.dom().contains(other),
        other != id,
    ensures
        step_pool(pool, id, ev).dom().contains(other),
        step_pool(pool, id, ev)[other] == pool[other],
{
}

/// The identifiers a counter starting at `start` hands out over `n`
/// consecutive accepts.
pub open spec fn ids_assigned(start: u64, n: nat) -> Seq<u64> {
    Seq::new(n, |i: int| (start + i) as u64)
}

/// Identifiers assigned over any run of consecutive accepts are
/// strictly increasing, and therefore pairwise distinct.
pub proof fn lemma_ids_strictly_increasing(start: u64, n: nat, i: int, j: int)
    requires
        start + n <= u64::MAX + 1,
        0 <= i < j < n,
    ensures
        ids_assigned(start, n)[i] < ids_assigned(start, n)[j],
        ids_assigned(start, n)[i] != ids_assigned(start, n)[j],
{
}

} // verus!
