//! The session runner: a state machine over the lifecycle of at most
//! one client handle.
//!
//! The runner is driven by a host loop that waits on two sources — the
//! intent queue (commands) and the current packet source (inbound
//! packets) — and reports the outcome of every suspending operation it
//! performs (connection establishment, stop-and-join).  Each transition
//! method consumes one input and returns the [`Action`] the host must
//! carry out.  All decisions live here; all I/O lives with the host.

use crate::command::{Command, ConnectOutcome, Error, PublishPacket, StopOutcome};
use crate::packet::{Packet, QosLevel};
use crate::settings::{ClientSetting, TransportDescriptor};
use vstd::prelude::*;

verus! {

/// The connection lifecycle state.  `NoClient` is both initial and
/// terminal for a handle cycle; a stopped runner rests in `NoClient`
/// with its `running` flag cleared.
#[derive(Clone, Copy, Debug, PartialEq, Eq, Structural)]
pub enum ConnState {
    /// No client handle exists.
    NoClient,
    /// A connect attempt is in flight; no second attempt may start.
    Connecting,
    /// A client handle owns the one live connection.
    Connected,
    /// A graceful stop-and-join is in flight.
    Disconnecting,
}

/// What the host loop must do after a transition.  Payload-carrying
/// variants hand back exactly the values the triggering command
/// carried.
#[derive(Debug)]
pub enum Action {
    /// Nothing to carry out.
    DoNothing,
    /// Build a connection from the snapshot and attempt to establish
    /// it with a clean start, bounded by the fixed connect deadline;
    /// then report a [`ConnectOutcome`].
    Connect(ClientSetting),
    /// Build a connection from the transport descriptor and the
    /// captured session state (clean start off), bounded by the same
    /// deadline; then report a [`ConnectOutcome`].
    Resume(TransportDescriptor),
    /// Send a ping request over the live connection.
    SendPing,
    /// Hand the publish request to the live connection's outbound
    /// path.
    SendPublish(PublishPacket),
    /// Issue one subscribe request for one topic: packet identifier,
    /// delivery tier, topic filter.
    SendSubscribe(u16, QosLevel, String),
    /// Issue one unsubscribe request for one topic.
    SendUnsubscribe(u16, String),
    /// Discard the packet source, signal the client handle to stop,
    /// await its background task, then report a [`StopOutcome`].
    StopAndJoin,
    /// Abandon the in-flight connect attempt and ignore its outcome.
    CancelConnect,
    /// Forward this packet to the observer sink.
    Forward(Packet),
    /// Surface this error to the operator; the state change, if any,
    /// is given by the transition's contract.
    Report(Error),
    /// A stop arrived while no client handle exists: report that there
    /// is nothing to stop and change nothing.
    NothingToStop,
}

/// A command's shape, stripped of its payload.  The runner's state
/// transition depends only on this and on the current state.
#[derive(Clone, Copy, Debug, PartialEq, Eq, Structural)]
pub enum CmdKind {
    StartClient,
    ResumeSession,
    Ping,
    Publish,
    Subscribe,
    Unsubscribe,
    StopClient,
    StopRunner,
}

/// An action's shape, stripped of every payload but the reported
/// error.
#[derive(Clone, Copy, Debug, PartialEq, Eq, Structural)]
pub enum ActionKind {
    DoNothing,
    Connect,
    Resume,
    SendPing,
    SendPublish,
    SendSubscribe,
    SendUnsubscribe,
    StopAndJoin,
    CancelConnect,
    Forward,
    Report(Error),
    NothingToStop,
}

/// The shape of a command.
pub open spec fn kind_of_cmd(c: Command) -> CmdKind {
    match c {
        Command::StartClient(_) => CmdKind::StartClient,
        Command::ResumeSession(_) => CmdKind::ResumeSession,
        Command::Ping => CmdKind::Ping,
        Command::Publish(_) => CmdKind::Publish,
        Command::Subscribe(_, _, _) => CmdKind::Subscribe,
        Command::Unsubscribe(_, _) => CmdKind::Unsubscribe,
        Command::StopClient => CmdKind::StopClient,
        Command::StopRunner => CmdKind::StopRunner,
    }
}

/// The shape of an action.
pub open spec fn kind_of_action(a: Action) -> ActionKind {
    match a {
        Action::DoNothing => ActionKind::DoNothing,
        Action::Connect(_) => ActionKind::Connect,
        Action::Resume(_) => ActionKind::Resume,
        Action::SendPing => ActionKind::SendPing,
        Action::SendPublish(_) => ActionKind::SendPublish,
        Action::SendSubscribe(_, _, _) => ActionKind::SendSubscribe,
        Action::SendUnsubscribe(_, _) => ActionKind::SendUnsubscribe,
        Action::StopAndJoin => ActionKind::StopAndJoin,
        Action::CancelConnect => ActionKind::CancelConnect,
        Action::Forward(_) => ActionKind::Forward,
        Action::Report(e) => ActionKind::Report(e),
        Action::NothingToStop => ActionKind::NothingToStop,
    }
}

/// The runner's abstract state: the lifecycle state, whether a
/// session-resumption token is held, whether the runner still accepts
/// commands, and the full history of packets that arrived and packets
/// forwarded to the observer sink.
#[verifier::ext_equal]
pub struct RunnerModel {
    pub state: ConnState,
    pub has_session: bool,
    pub running: bool,
    pub arrived: Seq<Packet>,
    pub forwarded: Seq<Packet>,
}

/// The model of a freshly created runner.
pub open spec fn init_model() -> RunnerModel {
    RunnerModel {
        state: ConnState::NoClient,
        has_session: false,
        running: true,
        arrived: Seq::empty(),
        forwarded: Seq::empty(),
    }
}

/// The state after processing a command of the given shape.
pub open spec fn step_command(m: RunnerModel, k: CmdKind) -> RunnerModel {
    match k {
        CmdKind::StartClient => if m.state is NoClient {
            RunnerModel { state: ConnState::Connecting, ..m }
        } else {
            m
        },
        CmdKind::ResumeSession => if m.state is NoClient && m.has_session {
            RunnerModel { state: ConnState::Connecting, has_session: false, ..m }
        } else {
            m
        },
        CmdKind::Ping => m,
        CmdKind::Publish => m,
        CmdKind::Subscribe => m,
        CmdKind::Unsubscribe => m,
        CmdKind::StopClient => if m.state is Connected {
            RunnerModel { state: ConnState::Disconnecting, ..m }
        } else if m.state is Connecting {
            RunnerModel { state: ConnState::NoClient, ..m }
        } else {
            m
        },
        CmdKind::StopRunner => if m.state is Connected {
            RunnerModel { state: ConnState::Disconnecting, running: false, ..m }
        } else if m.state is Connecting {
            RunnerModel { state: ConnState::NoClient, running: false, ..m }
        } else {
            RunnerModel { running: false, ..m }
        },
    }
}

/// The shape of the action returned for a command of the given shape.
pub open spec fn command_action(m: RunnerModel, k: CmdKind) -> ActionKind {
    match k {
        CmdKind::StartClient => if m.state is NoClient {
            ActionKind::Connect
        } else {
            ActionKind::Report(Error::ClientAlreadyActive)
        },
        CmdKind::ResumeSession => if !(m.state is NoClient) {
            ActionKind::Report(Error::ClientAlreadyActive)
        } else if m.has_session {
            ActionKind::Resume
        } else {
            ActionKind::Report(Error::NoSessionToResume)
        },
        CmdKind::Ping => if m.state is Connected {
            ActionKind::SendPing
        } else {
            ActionKind::Report(Error::NotConnected)
        },
        CmdKind::Publish => if m.state is Connected {
            ActionKind::SendPublish
        } else {
            ActionKind::Report(Error::NotConnected)
        },
        CmdKind::Subscribe => if m.state is Connected {
            ActionKind::SendSubscribe
        } else {
            ActionKind::Report(Error::NotConnected)
        },
        CmdKind::Unsubscribe => if m.state is Connected {
            ActionKind::SendUnsubscribe
        } else {
            ActionKind::Report(Error::NotConnected)
        },
        CmdKind::StopClient => if m.state is Connected {
            ActionKind::StopAndJoin
        } else if m.state is Connecting {
            ActionKind::CancelConnect
        } else {
            ActionKind::NothingToStop
        },
        CmdKind::StopRunner => if m.state is Connected {
            ActionKind::StopAndJoin
        } else if m.state is Connecting {
            ActionKind::CancelConnect
        } else {
            ActionKind::DoNothing
        },
    }
}

/// The state after an inbound packet: it is recorded as arrived and,
/// in the same step, as forwarded to the observer sink.
pub open spec fn step_packet(m: RunnerModel, p: Packet) -> RunnerModel {
    RunnerModel { arrived: m.arrived.push(p), forwarded: m.forwarded.push(p), ..m }
}

/// The state after the host reports the outcome of a connect attempt.
pub open spec fn step_connect_outcome(m: RunnerModel, o: ConnectOutcome) -> RunnerModel {
    match o {
        ConnectOutcome::Connected => RunnerModel { state: ConnState::Connected, ..m },
        ConnectOutcome::TimedOut => RunnerModel { state: ConnState::NoClient, ..m },
        ConnectOutcome::Rejected => RunnerModel { state: ConnState::NoClient, ..m },
    }
}

/// The shape of the action returned for a connect outcome.
pub open spec fn connect_outcome_action(o: ConnectOutcome) -> ActionKind {
    match o {
        ConnectOutcome::Connected => ActionKind::DoNothing,
        ConnectOutcome::TimedOut => ActionKind::Report(Error::ConnectTimeout),
        ConnectOutcome::Rejected => ActionKind::Report(Error::ConnectRejected),
    }
}

/// The state after the host reports the outcome of a stop-and-join.
/// The transition to `NoClient` happens regardless of the outcome
/// (fail-open on teardown); only a captured session is kept.
pub open spec fn step_stop_outcome(m: RunnerModel, o: StopOutcome) -> RunnerModel {
    match o {
        StopOutcome::SessionCaptured => RunnerModel {
            state: ConnState::NoClient,
            has_session: true,
            ..m
        },
        StopOutcome::Failed => RunnerModel { state: ConnState::NoClient, ..m },
    }
}

/// The shape of the action returned for a stop outcome.
pub open spec fn stop_outcome_action(o: StopOutcome) -> ActionKind {
    match o {
        StopOutcome::SessionCaptured => ActionKind::DoNothing,
        StopOutcome::Failed => ActionKind::Report(Error::StopFailed),
    }
}

/// The state after the packet source closes while connected: the
/// transport was severed, and the runner treats it as an implicit
/// disconnect.
pub open spec fn step_severed(m: RunnerModel) -> RunnerModel {
    RunnerModel { state: ConnState::NoClient, ..m }
}

/// How many client handles the runner's state accounts for: one while
/// a handle owns the live connection or is being torn down, none
/// otherwise.
pub open spec fn live_handle_count(m: RunnerModel) -> nat {
    if m.state is Connected || m.state is Disconnecting {
        1
    } else {
        0
    }
}

/// The session runner.  It owns exactly one lifecycle state, one
/// session-state slot and the packet-forwarding history; a host loop
/// owns the channels and the client handle and carries out the actions
/// the runner returns.
pub struct Runner {
    state: ConnState,
    has_session: bool,
    running: bool,
    arrived: Ghost<Seq<Packet>>,
    forwarded: Ghost<Seq<Packet>>,
}

impl View for Runner {
    type V = RunnerModel;

    closed spec fn view(&self) -> RunnerModel {
        RunnerModel {
            state: self.state,
            has_session: self.has_session,
            running: self.running,
            arrived: self.arrived@,
            forwarded: self.forwarded@,
        }
    }
}

impl Runner {
    /// A fresh runner: no client, no captured session, accepting
    /// commands.
    pub fn new() -> (r: Runner)
        ensures
            r@ == init_model(),
    {
        let r = Runner {
            state: ConnState::NoClient,
            has_session: false,
            running: true,
            arrived: Ghost(Seq::empty()),
            forwarded: Ghost(Seq::empty()),
        };
        proof {
            assert(r@ =~= init_model());
        }
        r
    }

    /// Process one operator command.  The new state is
    /// [`step_command`] of the old, the returned action's shape is
    /// [`command_action`], and every payload the action carries is
    /// exactly the one the command carried.
    pub fn process(&mut self, cmd: Command) -> (a: Action)
        requires
            old(self)@.running,
        ensures
            final(self)@ == step_command(old(self)@, kind_of_cmd(cmd)),
            kind_of_action(a) == command_action(old(self)@, kind_of_cmd(cmd)),
            (a matches Action::Connect(s) ==> cmd matches Command::StartClient(s0) && s == s0),
            (a matches Action::Resume(t) ==> cmd matches Command::ResumeSession(t0) && t == t0),
            (a matches Action::SendPublish(p) ==> cmd matches Command::Publish(p0) && p == p0),
            (a matches Action::SendSubscribe(id, q, t) ==> cmd matches Command::Subscribe(
                id0,
                q0,
                t0,
            ) && id == id0 && q == q0 && t == t0),
            (a matches Action::SendUnsubscribe(id, t) ==> cmd matches Command::Unsubscribe(id0, t0)
                && id == id0 && t == t0),
    {
        match cmd {
            Command::StartClient(settings) => {
                if matches!(self.state, ConnState::NoClient) {
                    self.state = ConnState::Connecting;
                    Action::Connect(settings)
                } else {
                    Action::Report(Error::ClientAlreadyActive)
                }
            },
            Command::ResumeSession(transport) => {
                if !matches!(self.state, ConnState::NoClient) {
                    Action::Report(Error::ClientAlreadyActive)
                } else if self.has_session {
                    self.state = ConnState::Connecting;
                    self.has_session = false;
                    Action::Resume(transport)
                } else {
                    Action::Report(Error::NoSessionToResume)
                }
            },
            Command::Ping => {
                if matches!(self.state, ConnState::Connected) {
                    Action::SendPing
                } else {
                    Action::Report(Error::NotConnected)
                }
            },
            Command::Publish(publish) => {
                if matches!(self.state, ConnState::Connected) {
                    Action::SendPublish(publish)
                } else {
                    Action::Report(Error::NotConnected)
                }
            },
            Command::Subscribe(packet_id, qos, topic) => {
                if matches!(self.state, ConnState::Connected) {
                    Action::SendSubscribe(packet_id, qos, topic)
                } else {
                    Action::Report(Error::NotConnected)
                }
            },
            Command::Unsubscribe(packet_id, topic) => {
                if matches!(self.state, ConnState::Connected) {
                    Action::SendUnsubscribe(packet_id, topic)
                } else {
                    Action::Report(Error::NotConnected)
                }
            },
            Command::StopClient => {
                if matches!(self.state, ConnState::Connected) {
                    self.state = ConnState::Disconnecting;
                    Action::StopAndJoin
                } else if matches!(self.state, ConnState::Connecting) {
                    self.state = ConnState::NoClient;
                    Action::CancelConnect
                } else {
                    Action::NothingToStop
                }
            },
            Command::StopRunner => {
                self.running = false;
                if matches!(self.state, ConnState::Connected) {
                    self.state = ConnState::Disconnecting;
                    Action::StopAndJoin
                } else if matches!(self.state, ConnState::Connecting) {
                    self.state = ConnState::NoClient;
                    Action::CancelConnect
                } else {
                    Action::DoNothing
                }
            },
        }
    }

    /// Accept one inbound packet from the installed packet source and
    /// direct it, in arrival order, to the observer sink.
    pub fn on_packet(&mut self, p: Packet) -> (a: Action)
        requires
            old(self)@.state is Connected || old(self)@.state is Disconnecting,
        ensures
            final(self)@ == step_packet(old(self)@, p),
            a == Action::Forward(p),
    {
        proof {
            self.arrived@ = self.arrived@.push(p);
            self.forwarded@ = self.forwarded@.push(p);
        }
        Action::Forward(p)
    }

    /// Record the outcome of the connect attempt the host performed
    /// for the last `Connect` or `Resume` action.  Success installs
    /// the new handle's packet source and enters `Connected`; failure
    /// retains no partial handle and returns to `NoClient`.
    pub fn on_connect_outcome(&mut self, o: ConnectOutcome) -> (a: Action)
        requires
            old(self)@.state is Connecting,
        ensures
            final(self)@ == step_connect_outcome(old(self)@, o),
            kind_of_action(a) == connect_outcome_action(o),
    {
        match o {
            ConnectOutcome::Connected => {
                self.state = ConnState::Connected;
                Action::DoNothing
            },
            ConnectOutcome::TimedOut => {
                self.state = ConnState::NoClient;
                Action::Report(Error::ConnectTimeout)
            },
            ConnectOutcome::Rejected => {
                self.state = ConnState::NoClient;
                Action::Report(Error::ConnectRejected)
            },
        }
    }

    /// Record the outcome of the stop-and-join the host performed for
    /// the last `StopAndJoin` action.  The runner returns to
    /// `NoClient` whatever happened; a captured session state is kept
    /// for a future resume.
    pub fn on_stop_outcome(&mut self, o: StopOutcome) -> (a: Action)
        requires
            old(self)@.state is Disconnecting,
        ensures
            final(self)@ == step_stop_outcome(old(self)@, o),
            kind_of_action(a) == stop_outcome_action(o),
    {
        self.state = ConnState::NoClient;
        match o {
            StopOutcome::SessionCaptured => {
                self.has_session = true;
                Action::DoNothing
            },
            StopOutcome::Failed => Action::Report(Error::StopFailed),
        }
    }

    /// Record whether the live connection accepted the last request
    /// action (ping, publish, subscribe or unsubscribe).  A failed
    /// request is reported and changes nothing: the connection is
    /// assumed still usable until the packet source itself closes.
    pub fn on_request_outcome(&mut self, ok: bool) -> (a: Action)
        requires
            old(self)@.state is Connected,
        ensures
            final(self)@ == old(self)@,
            a == (if ok {
                Action::DoNothing
            } else {
                Action::Report(Error::RequestFailed)
            }),
    {
        if ok {
            Action::DoNothing
        } else {
            Action::Report(Error::RequestFailed)
        }
    }

    /// The packet source closed while connected: the transport was
    /// severed.  The runner treats it as an implicit disconnect and
    /// returns to `NoClient`; the host discards the dead handle.
    pub fn on_packets_closed(&mut self) -> (a: Action)
        requires
            old(self)@.state is Connected,
        ensures
            final(self)@ == step_severed(old(self)@),
            a == Action::Report(Error::ConnectionSevered),
    {
        self.state = ConnState::NoClient;
        Action::Report(Error::ConnectionSevered)
    }

    /// The intent queue closed: the documented signal for graceful
    /// shutdown, equivalent to processing `StopRunner`.
    pub fn on_commands_closed(&mut self) -> (a: Action)
        requires
            old(self)@.running,
        ensures
            final(self)@ == step_command(old(self)@, CmdKind::StopRunner),
            kind_of_action(a) == command_action(old(self)@, CmdKind::StopRunner),
    {
        self.running = false;
        if matches!(self.state, ConnState::Connected) {
            self.state = ConnState::Disconnecting;
            Action::StopAndJoin
        } else if matches!(self.state, ConnState::Connecting) {
            self.state = ConnState::NoClient;
            Action::CancelConnect
        } else {
            Action::DoNothing
        }
    }

    /// Whether the runner still accepts commands.
    pub fn is_running(&self) -> (b: bool)
        ensures
            b == self@.running,
    {
        self.running
    }

    /// Whether a captured session state is held for a future resume.
    pub fn session_available(&self) -> (b: bool)
        ensures
            b == self@.has_session,
    {
        self.has_session
    }

    /// The current lifecycle state.
    pub fn conn_state(&self) -> (s: ConnState)
        ensures
            s == self@.state,
    {
        self.state
    }

    /// Whether a packet source is installed, i.e. whether the host
    /// loop should wait on inbound packets at all.
    pub fn source_installed(&self) -> (b: bool)
        ensures
            b == (self@.state is Connected || self@.state is Disconnecting),
    {
        matches!(self.state, ConnState::Connected | ConnState::Disconnecting)
    }

    /// Whether the runner has fully stopped: it no longer accepts
    /// commands and no client handle remains.
    pub fn finished(&self) -> (b: bool)
        ensures
            b == (!self@.running && self@.state is NoClient),
    {
        !self.running && matches!(self.state, ConnState::NoClient)
    }
}

/// At most one client handle exists at any instant, for every
/// interleaving of commands: a handle-creating action (`Connect` or
/// `Resume`) is issued only when no handle is accounted for, and it
/// moves the runner to `Connecting`, from which no second
/// handle-creating action can be issued before the first attempt's
/// outcome is recorded.
pub proof fn lemma_at_most_one_client(m: RunnerModel, k: CmdKind)
    ensures
        live_handle_count(step_command(m, k)) <= 1,
        (command_action(m, k) is Connect || command_action(m, k) is Resume) ==> live_handle_count(
            m,
        ) == 0 && step_command(m, k).state is Connecting,
        m.state is Connecting ==> !(command_action(m, k) is Connect) && !(command_action(
            m,
            k,
        ) is Resume),
{
}

/// The handle bound also holds across every other transition: an
/// attempt outcome, a stop outcome, a severed transport and an inbound
/// packet each leave at most one handle accounted for.
pub proof fn lemma_handle_bound_other_steps(
    m: RunnerModel,
    co: ConnectOutcome,
    so: StopOutcome,
    p: Packet,
)
    ensures
        live_handle_count(step_connect_outcome(m, co)) <= 1,
        live_handle_count(step_stop_outcome(m, so)) <= 1,
        live_handle_count(step_severed(m)) == 0,
        live_handle_count(step_packet(m, p)) == live_handle_count(m),
{
}

/// One transition of the runner, of whichever of the five inputs
/// drives it: a command, an inbound packet, a connect or stop outcome,
/// or the packet source closing.
pub enum RunnerStep {
    Cmd(CmdKind),
    Inbound(Packet),
    ConnectDone(ConnectOutcome),
    StopDone(StopOutcome),
    SourceClosed,
}

/// The state a single step leads to.
pub open spec fn apply_step(m: RunnerModel, s: RunnerStep) -> RunnerModel {
    match s {
        RunnerStep::Cmd(k) => step_command(m, k),
        RunnerStep::Inbound(p) => step_packet(m, p),
        RunnerStep::ConnectDone(o) => step_connect_outcome(m, o),
        RunnerStep::StopDone(o) => step_stop_outcome(m, o),
        RunnerStep::SourceClosed => step_severed(m),
    }
}

/// The state a whole run of steps leads to.
pub open spec fn run_steps(m: RunnerModel, steps: Seq<RunnerStep>) -> RunnerModel
    decreases steps.len(),
{
    if steps.len() == 0 {
        m
    } else {
        run_steps(apply_step(m, steps[0]), steps.drop_first())
    }
}

/// The packets a run of steps delivers, in arrival order.
pub open spec fn arrivals_of(steps: Seq<RunnerStep>) -> Seq<Packet>
    decreases steps.len(),
{
    if steps.len() == 0 {
        Seq::empty()
    } else {
        match steps[0] {
            RunnerStep::Inbound(p) => seq![p] + arrivals_of(steps.drop_first()),
            _ => arrivals_of(steps.drop_first()),
        }
    }
}

proof fn lemma_run_steps_histories(m: RunnerModel, steps: Seq<RunnerStep>)
    ensures
        run_steps(m, steps).arrived == m.arrived + arrivals_of(steps),
        run_steps(m, steps).forwarded == m.forwarded + arrivals_of(steps),
    decreases steps.len(),
{
    if steps.len() == 0 {
        assert(m.arrived + arrivals_of(steps) =~= m.arrived);
        assert(m.forwarded + arrivals_of(steps) =~= m.forwarded);
    } else {
        let m1 = apply_step(m, steps[0]);
        let rest = steps.drop_first();
        lemma_run_steps_histories(m1, rest);
        assert(m1.arrived + arrivals_of(rest) =~= m.arrived + arrivals_of(steps));
        assert(m1.forwarded + arrivals_of(rest) =~= m.forwarded + arrivals_of(steps));
    }
}

/// Over every interleaving of commands, packets, outcomes and source
/// closures: starting from a fresh runner, the packets forwarded to
/// the observer sink are exactly the packets that arrived, in arrival
/// order — order-preservation, no duplication, no loss — and the
/// runner never accounts for more than one client handle.
pub proof fn lemma_every_run_forwards_exactly_the_arrivals(steps: Seq<RunnerStep>)
    ensures
        run_steps(init_model(), steps).arrived == arrivals_of(steps),
        run_steps(init_model(), steps).forwarded == arrivals_of(steps),
        live_handle_count(run_steps(init_model(), steps)) <= 1,
{
    lemma_run_steps_histories(init_model(), steps);
    assert(init_model().arrived + arrivals_of(steps) =~= arrivals_of(steps));
    assert(init_model().forwarded + arrivals_of(steps) =~= arrivals_of(steps));
}

/// `ResumeSession` without a prior captured session state is rejected
/// and does not alter the runner's state; with no client active the
/// report names the missing session explicitly.
pub proof fn lemma_resume_without_session_rejected(m: RunnerModel)
    requires
        !m.has_session,
    ensures
        step_command(m, CmdKind::ResumeSession) == m,
        command_action(m, CmdKind::ResumeSession) is Report,
        m.state is NoClient ==> command_action(m, CmdKind::ResumeSession) == ActionKind::Report(
            Error::NoSessionToResume,
        ),
{
}

/// Packets reach the observer sink in arrival order, with no loss and
/// no duplication: every arriving packet is appended to both histories
/// in the same step, so the forwarded history always equals the
/// arrival history.
pub proof fn lemma_packets_forwarded_in_order(m: RunnerModel, p: Packet)
    requires
        m.forwarded == m.arrived,
    ensures
        step_packet(m, p).arrived == m.arrived.push(p),
        step_packet(m, p).forwarded == m.forwarded.push(p),
        step_packet(m, p).forwarded == step_packet(m, p).arrived,
{
}

/// No transition other than a packet arrival touches the packet
/// histories: commands and outcomes neither drop nor duplicate what
/// was forwarded.
pub proof fn lemma_history_untouched(
    m: RunnerModel,
    k: CmdKind,
    co: ConnectOutcome,
    so: StopOutcome,
)
    ensures
        step_command(m, k).arrived == m.arrived,
        step_command(m, k).forwarded == m.forwarded,
        step_connect_outcome(m, co).arrived == m.arrived,
        step_connect_outcome(m, co).forwarded == m.forwarded,
        step_stop_outcome(m, so).arrived == m.arrived,
        step_stop_outcome(m, so).forwarded == m.forwarded,
        step_severed(m).arrived == m.arrived,
        step_severed(m).forwarded == m.forwarded,
{
}

/// `StopClient` while no client handle exists is a no-op: the runner
/// reports that there is nothing to stop and leaves every part of its
/// state unchanged.
pub proof fn lemma_stop_without_client_is_noop(m: RunnerModel)
    requires
        m.state is NoClient,
    ensures
        step_command(m, CmdKind::StopClient) == m,
        command_action(m, CmdKind::StopClient) is NothingToStop,
{
}

/// A ping, publish, subscribe or unsubscribe issued while no live
/// connection exists is rejected with an explicit "not connected"
/// error and never reaches a handle: the state is unchanged and the
/// only action is the report.
pub proof fn lemma_requests_need_connection(m: RunnerModel, k: CmdKind)
    requires
        !(m.state is Connected),
        k is Ping || k is Publish || k is Subscribe || k is Unsubscribe,
    ensures
        step_command(m, k) == m,
        command_action(m, k) == ActionKind::Report(Error::NotConnected),
{
}

} // verus!
