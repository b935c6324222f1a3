//! Error values of the agent.

use vstd::prelude::*;

verus! {

/// A failure described by a plain message.
#[derive(Debug)]
pub struct BasicAgentError {
    details: String,
}

impl View for BasicAgentError {
    type V = Seq<char>;

    /// The message of the error.
    closed spec fn view(&self) -> Seq<char> {
        self.details@
    }
}

impl BasicAgentError {
    /// An error that carries `msg`.
    pub fn new(msg: &str) -> (e: BasicAgentError)
        ensures
            e@ == msg@,
    {
        BasicAgentError { details: msg.to_owned() }
    }

    /// The message of the error.
    pub fn description(&self) -> (s: &str)
        ensures
            s@ == self@,
    {
        self.details.as_str()
    }

    /// The message of the error, as an owned string.
    pub fn to_string(&self) -> (s: String)
        ensures
            s@ == self@,
    {
        self.details.clone()
    }
}

/// The agent could not start.
#[derive(Debug)]
pub struct StartupError(pub BasicAgentError);

/// A script could not be written to a temporary file.
#[derive(Debug)]
pub struct TempFileError(pub BasicAgentError);

/// The monitor command could not be built.
#[derive(Debug)]
pub enum MonitorError {
    TempFileError(TempFileError),
}

/// The upload command could not be built.
#[derive(Debug)]
pub enum UploadError {
    TempFileError(TempFileError),
}

/// Any failure that ends the agent.
#[derive(Debug)]
pub enum AgentError {
    StartupError(StartupError),
    MonitorError(MonitorError),
}

/// The mathematical value of words that may be missing.
pub open spec fn words(text: Option<&str>) -> Option<Seq<char>> {
    match text {
        Some(t) => Some(t@),
        None => None,
    }
}

/// The words of a failure behind a fixed prefix, where there was a failure.
pub open spec fn prefixed(prefix: Seq<char>, failure: Option<Seq<char>>) -> Option<Seq<char>> {
    match failure {
        Some(why) => Some(prefix + why),
        None => None,
    }
}

impl MonitorError {
    /// The message of the error.
    pub open spec fn message(&self) -> Seq<char> {
        match self {
            MonitorError::TempFileError(e) => e.0@,
        }
    }
}

impl UploadError {
    /// The message of the error.
    pub open spec fn message(&self) -> Seq<char> {
        match self {
            UploadError::TempFileError(e) => e.0@,
        }
    }
}

impl AgentError {
    /// The message of the error.
    pub open spec fn message(&self) -> Seq<char> {
        match self {
            AgentError::StartupError(e) => e.0@,
            AgentError::MonitorError(e) => e.message(),
        }
    }
}

} // verus!
