//! The operator's intent surface: the closed set of commands the runner
//! processes, the outbound publish request, and the runner's error
//! taxonomy.

use crate::packet::QosLevel;
use crate::settings::{ClientSetting, TransportDescriptor};
use vstd::prelude::*;

verus! {

/// An outbound publish request.  The packet identifier is
/// caller-supplied, or absent per at-most-once semantics.
#[derive(Clone, Debug)]
pub struct PublishPacket {
    pub packet_id: Option<u16>,
    pub topic: String,
    pub payload: Vec<u8>,
    pub qos: QosLevel,
    pub retain: bool,
}

impl PublishPacket {
    /// A publish request from raw operator input.  A packet identifier
    /// of 0 stands for "absent" (at-most-once correlation), and an
    /// empty topic is rejected, never sent.
    pub fn from_input(
        packet_id: u16,
        topic: String,
        payload: Vec<u8>,
        qos: QosLevel,
        retain: bool,
    ) -> (r: Result<PublishPacket, Error>)
        ensures
            topic@.len() == 0 <==> r is Err,
            (r matches Err(e) ==> e == Error::EmptyTopic),
            (r matches Ok(p) ==> p.packet_id == (if packet_id == 0 {
                Option::<u16>::None
            } else {
                Some(packet_id)
            }) && p.topic == topic && p.payload == payload && p.qos == qos && p.retain == retain),
    {
        if topic.as_str().is_empty() {
            return Err(Error::EmptyTopic);
        }
        let id = if packet_id == 0 {
            None
        } else {
            Some(packet_id)
        };
        Ok(PublishPacket { packet_id: id, topic, payload, qos, retain })
    }
}

/// An operator intent.  Each command is consumed exactly once by the
/// runner.
#[derive(Debug)]
pub enum Command {
    /// Connect with a clean start, using the given settings snapshot.
    StartClient(ClientSetting),
    /// Reconnect over the given transport, resuming the captured
    /// session state.  Valid only when a prior `StopClient` captured
    /// one.
    ResumeSession(TransportDescriptor),
    /// Send a ping request over the live connection.
    Ping,
    /// Hand a publish request to the live connection's outbound path.
    Publish(PublishPacket),
    /// Subscribe to a single topic: packet identifier, delivery tier,
    /// topic filter.
    Subscribe(u16, QosLevel, String),
    /// Unsubscribe from a single topic: packet identifier, topic
    /// filter.
    Unsubscribe(u16, String),
    /// Gracefully tear down the live connection and capture its
    /// session state for a later resume.
    StopClient,
    /// Begin runner shutdown, tearing down any live connection first.
    StopRunner,
}

impl Command {
    /// A single-topic subscribe intent from raw operator input; an
    /// empty topic is rejected, never sent.
    pub fn subscribe_request(packet_id: u16, qos: QosLevel, topic: String) -> (r: Result<
        Command,
        Error,
    >)
        ensures
            topic@.len() == 0 <==> r is Err,
            (r matches Err(e) ==> e == Error::EmptyTopic),
            (r matches Ok(c) ==> c == Command::Subscribe(packet_id, qos, topic)),
    {
        if topic.as_str().is_empty() {
            Err(Error::EmptyTopic)
        } else {
            Ok(Command::Subscribe(packet_id, qos, topic))
        }
    }

    /// A single-topic unsubscribe intent from raw operator input; an
    /// empty topic is rejected, never sent.
    pub fn unsubscribe_request(packet_id: u16, topic: String) -> (r: Result<Command, Error>)
        ensures
            topic@.len() == 0 <==> r is Err,
            (r matches Err(e) ==> e == Error::EmptyTopic),
            (r matches Ok(c) ==> c == Command::Unsubscribe(packet_id, topic)),
    {
        if topic.as_str().is_empty() {
            Err(Error::EmptyTopic)
        } else {
            Ok(Command::Unsubscribe(packet_id, topic))
        }
    }
}

/// Why the runner could not carry an intent out.  Every error is
/// surfaced at the point the command fails; none is silently swallowed,
/// and the runner never panics on one.
#[derive(Clone, Copy, Debug, PartialEq, Eq, Structural)]
pub enum Error {
    /// Connection establishment exceeded the fixed deadline.
    ConnectTimeout,
    /// The broker rejected the handshake.
    ConnectRejected,
    /// A ping, publish, subscribe or unsubscribe request failed; the
    /// connection is assumed still usable.
    RequestFailed,
    /// Graceful shutdown did not complete cleanly; the chance to
    /// resume the session is forfeited, nothing more.
    StopFailed,
    /// A request that needs a live connection arrived while none
    /// existed.
    NotConnected,
    /// `ResumeSession` arrived while no captured session state exists.
    NoSessionToResume,
    /// A connect intent arrived while a client handle already exists
    /// or a connect attempt is already in flight.
    ClientAlreadyActive,
    /// The packet source closed while connected: the transport was
    /// severed, and the runner treats it as an implicit disconnect.
    ConnectionSevered,
    /// A publish, subscribe or unsubscribe was built with an empty
    /// topic, which no request may carry.
    EmptyTopic,
}

/// The human-readable message for an error.
pub open spec fn error_message(e: Error) -> Seq<char> {
    match e {
        Error::ConnectTimeout => "connect attempt exceeded the deadline"@,
        Error::ConnectRejected => "broker rejected the connect handshake"@,
        Error::RequestFailed => "request failed"@,
        Error::StopFailed => "client did not stop cleanly; session state lost"@,
        Error::NotConnected => "not connected"@,
        Error::NoSessionToResume => "no session to resume"@,
        Error::ClientAlreadyActive => "a client is already active"@,
        Error::ConnectionSevered => "connection severed; client discarded"@,
        Error::EmptyTopic => "topic is empty"@,
    }
}

impl Error {
    /// The message to surface to the operator.
    pub fn message(&self) -> (r: &'static str)
        ensures
            r@ == error_message(*self),
    {
        match self {
            Error::ConnectTimeout => "connect attempt exceeded the deadline",
            Error::ConnectRejected => "broker rejected the connect handshake",
            Error::RequestFailed => "request failed",
            Error::StopFailed => "client did not stop cleanly; session state lost",
            Error::NotConnected => "not connected",
            Error::NoSessionToResume => "no session to resume",
            Error::ClientAlreadyActive => "a client is already active",
            Error::ConnectionSevered => "connection severed; client discarded",
            Error::EmptyTopic => "topic is empty",
        }
    }
}

/// The outcome a host reports after carrying out a stop-and-join: either
/// the background task yielded a resumable session state, or the
/// teardown failed to yield one.
#[derive(Clone, Copy, Debug, PartialEq, Eq)]
pub enum StopOutcome {
    /// The stop completed and the task yielded a session state, now
    /// held by the runner for a future resume.
    SessionCaptured,
    /// The stop or the join failed, or no session state came back.
    Failed,
}

/// The outcome a host reports after a connect attempt.
#[derive(Clone, Copy, Debug, PartialEq, Eq)]
pub enum ConnectOutcome {
    /// Handshake acknowledged within the deadline.
    Connected,
    /// The fixed connect deadline passed first.
    TimedOut,
    /// The broker or the transport rejected the attempt.
    Rejected,
}

} // verus!
