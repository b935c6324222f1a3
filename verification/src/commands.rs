//! The messages of the control protocol.

use crate::id::Uuid;
use vstd::prelude::*;

verus! {

/// A request to flash the firmware with the given identifier.
#[derive(Clone, Copy, Debug, PartialEq, Eq, Structural)]
pub struct UploadMessage {
    pub binary: Uuid,
}

/// A request to start monitoring for the given experiment.
#[derive(Clone, Copy, Debug, PartialEq, Eq, Structural)]
pub struct MonitorMessage {
    pub experiment: Uuid,
}

/// What the control server may send.
#[derive(Clone, Copy, Debug, PartialEq, Eq, Structural)]
pub enum IncomingMessage {
    UploadMessage(UploadMessage),
    MonitorMessage(MonitorMessage),
}

/// An inbound frame could not be understood.
#[derive(Clone, Debug, PartialEq, Eq)]
pub struct ParseMessage {
    pub info: String,
}

/// A monitoring session is already active.
#[derive(Clone, Debug, PartialEq, Eq)]
pub struct AlreadyMonitoring {}

/// The monitor script could not be built or started.
#[derive(Clone, Debug, PartialEq, Eq)]
pub struct ScriptRunError {
    pub info: String,
}

/// The monitor server could not be reached.
#[derive(Clone, Debug, PartialEq, Eq)]
pub struct ConnectionError {
    pub info: String,
}

/// Why a monitoring session was not started.
#[derive(Clone, Debug, PartialEq, Eq)]
pub enum MonitorErrorMessage {
    AlreadyMonitoring(AlreadyMonitoring),
    ScriptRunError(ScriptRunError),
    ConnectionError(ConnectionError),
}

/// What the agent may send to the control server. Each message is a final
/// report: none expects a reply.
#[derive(Clone, Debug, PartialEq, Eq)]
pub enum OutgoingMessage {
    ParseMessage(ParseMessage),
    MonitorErrorMessage(MonitorErrorMessage),
}

/// The mathematical value of an [`OutgoingMessage`].
pub enum Report {
    /// An inbound frame could not be understood; the diagnostic.
    Parse(Seq<char>),
    /// A monitoring session is already active.
    AlreadyMonitoring,
    /// The monitor script could not be built or started; the diagnostic.
    ScriptRun(Seq<char>),
    /// The monitor server could not be reached; the diagnostic.
    Connection(Seq<char>),
}

impl View for OutgoingMessage {
    type V = Report;

    open spec fn view(&self) -> Report {
        match self {
            OutgoingMessage::ParseMessage(m) => Report::Parse(m.info@),
            OutgoingMessage::MonitorErrorMessage(MonitorErrorMessage::AlreadyMonitoring(_)) =>
                Report::AlreadyMonitoring,
            OutgoingMessage::MonitorErrorMessage(MonitorErrorMessage::ScriptRunError(m)) =>
                Report::ScriptRun(m.info@),
            OutgoingMessage::MonitorErrorMessage(MonitorErrorMessage::ConnectionError(m)) =>
                Report::Connection(m.info@),
        }
    }
}

impl OutgoingMessage {
    /// The report that an inbound frame could not be understood.
    pub fn parse_error(info: String) -> (m: OutgoingMessage)
        ensures
            m@ == Report::Parse(info@),
    {
        OutgoingMessage::ParseMessage(ParseMessage { info })
    }

    /// The report that a monitoring session is already active.
    pub fn already_monitoring() -> (m: OutgoingMessage)
        ensures
            m@ == Report::AlreadyMonitoring,
    {
        OutgoingMessage::MonitorErrorMessage(
            MonitorErrorMessage::AlreadyMonitoring(AlreadyMonitoring {  }),
        )
    }

    /// The report that the monitor script could not be built or started.
    pub fn script_run_error(info: String) -> (m: OutgoingMessage)
        ensures
            m@ == Report::ScriptRun(info@),
    {
        OutgoingMessage::MonitorErrorMessage(
            MonitorErrorMessage::ScriptRunError(ScriptRunError { info }),
        )
    }

    /// The report that the monitor server could not be reached.
    pub fn connection_error(info: String) -> (m: OutgoingMessage)
        ensures
            m@ == Report::Connection(info@),
    {
        OutgoingMessage::MonitorErrorMessage(
            MonitorErrorMessage::ConnectionError(ConnectionError { info }),
        )
    }
}

} // verus!
