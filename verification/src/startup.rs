//! What has to hold before the agent serves its first frame, and how the
//! process ends.

use crate::errors::{prefixed, words, AgentError, BasicAgentError, StartupError};
use vstd::prelude::*;
use vstd::string::StringExecFns;

verus! {

/// The startup error with the given message.
fn startup_error(message: &str) -> (e: AgentError)
    ensures
        e is StartupError,
        e.message() == message@,
{
    AgentError::StartupError(StartupError(BasicAgentError::new(message)))
}

/// The mathematical value of a check: the message of the error, if it
/// failed.
pub open spec fn failure_of(r: Result<(), AgentError>) -> Option<Seq<char>> {
    match r {
        Ok(_) => None,
        Err(e) => Some(e.message()),
    }
}

/// The agent needs a kind of agent to run as: `selected` says whether the
/// command line names one.
pub fn require_subcommand(selected: bool) -> (r: Result<(), AgentError>)
    ensures
        r is Ok <==> selected,
        r matches Err(e) ==> e is StartupError,
        !selected ==> failure_of(r) == Some("Subcommand for agent is required"@),
{
    if selected {
        Ok(())
    } else {
        Err(startup_error("Subcommand for agent is required"))
    }
}

/// The agent needs its connection to the control server: `failure` holds the
/// words of the failure where the connection could not be made.
pub fn require_control_connection(failure: Option<&str>) -> (r: Result<(), AgentError>)
    ensures
        r matches Err(e) ==> e is StartupError,
        failure_of(r) == prefixed("Failed connecting to the control server: "@, words(failure)),
{
    match failure {
        None => Ok(()),
        Some(why) => {
            let mut message = "Failed connecting to the control server: ".to_owned();
            message.append(why);
            Err(startup_error(message.as_str()))
        },
    }
}

/// The agent needs its device: `exists` says whether the device file is
/// there. This is looked at once, at startup.
pub fn require_device(exists: bool) -> (r: Result<(), AgentError>)
    ensures
        r is Ok <==> exists,
        r matches Err(e) ==> e is StartupError,
        !exists ==> failure_of(r) == Some("Device file does not exist"@),
{
    if exists {
        Ok(())
    } else {
        Err(startup_error("Device file does not exist"))
    }
}

/// The exit status of the process: zero where the agent ran until its
/// control channel closed, one where it ended with an error.
pub fn exit_status(outcome: &Result<(), AgentError>) -> (status: u8)
    ensures
        status == 0 <==> outcome is Ok,
        outcome is Err ==> status == 1,
{
    match outcome {
        Ok(_) => 0,
        Err(_) => 1,
    }
}

} // verus!
