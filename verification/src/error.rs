//! The ways in which the webhook fails.

use vstd::prelude::*;

verus! {

/// Why no configuration could be made. The host does not start without one.
#[derive(Debug, Clone, Copy, PartialEq, Eq, Structural)]
pub enum ConfigError {
    /// The shared secret is not set. There is no default for it.
    MissingSecret,
}

impl ConfigError {
    /// What the host says when it refuses to start.
    pub open spec fn spec_message(self) -> Seq<char> {
        "WEBHOOK_SECRET must be set in .env!"@
    }

    /// What the host says when it refuses to start.
    pub fn message(self) -> (text: &'static str)
        ensures
            text@ == self.spec_message(),
    {
        "WEBHOOK_SECRET must be set in .env!"
    }
}

/// Why a deploy request was not carried out.
#[derive(Debug, Clone, Copy, PartialEq, Eq, Structural)]
pub enum DeployError {
    /// The request's secret is not the configured one.
    Unauthorized,
    /// No script exists for the service.
    ScriptNotFound,
    /// The script could not be started, or ended otherwise than with exit
    /// code zero. The caller is not told which.
    ExecutionFailure,
}

impl DeployError {
    /// The HTTP status that reports this error.
    pub open spec fn spec_status(self) -> u16 {
        match self {
            DeployError::Unauthorized => 403,
            DeployError::ScriptNotFound => 404,
            DeployError::ExecutionFailure => 500,
        }
    }

    /// The text that reports this error to the caller.
    pub open spec fn spec_message(self) -> Seq<char> {
        match self {
            DeployError::Unauthorized => "Unauthorized"@,
            DeployError::ScriptNotFound => "Script not found"@,
            DeployError::ExecutionFailure => "Deployment failed"@,
        }
    }

    /// The HTTP status that reports this error.
    #[verifier::when_used_as_spec(spec_status)]
    pub fn status(self) -> (code: u16)
        ensures
            code == self.spec_status(),
    {
        match self {
            DeployError::Unauthorized => 403,
            DeployError::ScriptNotFound => 404,
            DeployError::ExecutionFailure => 500,
        }
    }

    /// The text that reports this error to the caller.
    pub fn message(self) -> (text: &'static str)
        ensures
            text@ == self.spec_message(),
    {
        match self {
            DeployError::Unauthorized => "Unauthorized",
            DeployError::ScriptNotFound => "Script not found",
            DeployError::ExecutionFailure => "Deployment failed",
        }
    }
}

} // verus!
