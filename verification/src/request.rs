//! What a caller sends to have a service deployed.

use vstd::prelude::*;

verus! {

/// The body of a deploy request. It lives as long as the request is handled.
#[derive(Debug, PartialEq, Eq)]
pub struct DeployRequest {
    /// The secret that the caller shows.
    pub secret: String,
}

impl Clone for DeployRequest {
    fn clone(&self) -> (copy: DeployRequest)
        ensures
            copy.secret@ == self.secret@,
    {
        DeployRequest { secret: self.secret.clone() }
    }
}

} // verus!
