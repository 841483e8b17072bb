//! Where the deployment script of a service lives.

use crate::error::DeployError;
use vstd::prelude::*;
use vstd::string::StringExecFns;

verus! {

/// The path of the script that deploys `service_name`:
/// `{commands_dir}/{service_name}.sh`.
///
/// The service name is taken as it is given. No character of it is rejected or
/// escaped, so a name that holds `/` or `..` names a file outside the commands
/// directory; whether such a file is run is left to the host's file system.
pub open spec fn script_path_of(commands_dir: Seq<char>, service_name: Seq<char>) -> Seq<char> {
    commands_dir + "/"@ + service_name + ".sh"@
}

/// Builds the path of the script that deploys `service_name`.
pub fn script_path(commands_dir: &str, service_name: &str) -> (path: String)
    ensures
        path@ == script_path_of(commands_dir@, service_name@),
{
    let mut path = String::from_str(commands_dir);
    path.append("/");
    path.append(service_name);
    path.append(".sh");
    path
}

/// What the host reports after it was asked to run a script.
#[derive(Debug, Clone, Copy, PartialEq, Eq, Structural)]
pub enum RunReport {
    /// The script ran and exited with this code.
    Exited { code: i32 },
    /// The script ran and ended without an exit code, as when a signal kills it.
    Terminated,
    /// The script could not be started.
    SpawnFailed,
}

impl RunReport {
    /// How a deployment ended whose script gave this report: well with exit
    /// code zero, and in an execution failure otherwise.
    pub open spec fn spec_outcome(self) -> Result<(), DeployError> {
        if self == (RunReport::Exited { code: 0 }) {
            Ok(())
        } else {
            Err(DeployError::ExecutionFailure)
        }
    }

    /// How a deployment ended whose script gave this report.
    #[verifier::when_used_as_spec(spec_outcome)]
    pub fn outcome(self) -> (outcome: Result<(), DeployError>)
        ensures
            outcome == self.spec_outcome(),
    {
        match self {
            RunReport::Exited { code } => if code == 0 {
                Ok(())
            } else {
                Err(DeployError::ExecutionFailure)
            },
            RunReport::Terminated => Err(DeployError::ExecutionFailure),
            RunReport::SpawnFailed => Err(DeployError::ExecutionFailure),
        }
    }
}

} // verus!
