//! The ways in which a run can fail.

use vstd::prelude::*;
use vstd::string::StringExecFns;

verus! {

/// Why a run failed. Every failure ends the run: nothing is tried again and
/// no command is carried out in part.
#[derive(Clone, Copy, Debug, PartialEq, Eq, Structural)]
pub enum ControlError {
    /// The credentials or the configuration directory are not to be had.
    /// This is found before anything is sent.
    Configuration,
    /// Authorization or renewal failed, or the user did not complete it.
    Authentication,
    /// The remote player could not be asked or refused the call.
    RemoteService,
}

/// A request to the remote player that was not answered: the player could
/// not be reached, or it refused.
#[derive(Clone, Copy, Debug, PartialEq, Eq, Structural)]
pub struct RemoteFailure;

/// The status with which a run that succeeded ends.
pub const EXIT_SUCCESS: u8 = 0;

/// The status with which a run that failed ends.
pub const EXIT_FAILURE: u8 = 1;

/// What to tell the user about a failure.
pub open spec fn message_of(error: ControlError) -> Seq<char> {
    match error {
        ControlError::Configuration => "configuration error: credentials or configuration directory unavailable"@,
        ControlError::Authentication => "authentication error: could not obtain a valid access token"@,
        ControlError::RemoteService => "remote service error: the playback request failed"@,
    }
}

/// The status of a run with the given outcome: zero on success, and not
/// zero on any failure.
pub open spec fn status_of(outcome: Result<(), ControlError>) -> u8 {
    match outcome {
        Ok(_) => EXIT_SUCCESS,
        Err(_) => EXIT_FAILURE,
    }
}

/// How a request that was made for a command ends the command: what was
/// answered stands, and a failure becomes the command's own failure. It is
/// not hidden and the request is not made again.
pub open spec fn surfaced<T>(reply: Result<T, RemoteFailure>) -> Result<T, ControlError> {
    match reply {
        Ok(answer) => Ok(answer),
        Err(_) => Err(ControlError::RemoteService),
    }
}

impl ControlError {
    /// What to tell the user about the failure.
    pub fn message(&self) -> (text: String)
        ensures
            text@ == message_of(*self),
    {
        match self {
            ControlError::Configuration => String::from_str(
                "configuration error: credentials or configuration directory unavailable",
            ),
            ControlError::Authentication => String::from_str(
                "authentication error: could not obtain a valid access token",
            ),
            ControlError::RemoteService => String::from_str(
                "remote service error: the playback request failed",
            ),
        }
    }
}

/// The status with which the process ends.
pub fn exit_status(outcome: &Result<(), ControlError>) -> (status: u8)
    ensures
        status == status_of(*outcome),
        status == 0 <==> outcome is Ok,
{
    match outcome {
        Ok(_) => EXIT_SUCCESS,
        Err(_) => EXIT_FAILURE,
    }
}

} // verus!
