//! The deploy handler, as a state machine.
//!
//! Handling one request takes two things that only the host can do: look
//! whether the script exists, and run it. So the handler does not run from
//! start to end. It is a value, a [`Deployment`], that names the one thing the
//! host has to do next ([`Deployment::pending`]) and moves on when the host
//! reports what came of it ([`Deployment::advance`]). The host repeats this
//! until the pending action is the response.
//!
//! A deployment holds nothing of any other request: the same request, made
//! twice, has its script run twice, and nothing keeps two deployments of one
//! service from running at the same time.

use crate::config::{Config, ConfigView};
use crate::error::DeployError;
use crate::request::DeployRequest;
use crate::response::{Response, ResponseView};
use crate::script::{script_path, script_path_of, RunReport};
use vstd::prelude::*;

verus! {

/// How far the handling of one deploy request has come.
#[derive(Debug, PartialEq, Eq)]
pub enum Deployment {
    /// The request was let through; whether its script exists is not known yet.
    Locating { script: String },
    /// The script exists; it has not reported back yet.
    Running { script: String },
    /// The request has been decided.
    Finished { outcome: Result<(), DeployError> },
}

/// A [`Deployment`] as a mathematical value.
pub enum DeploymentView {
    Locating { script: Seq<char> },
    Running { script: Seq<char> },
    Finished { outcome: Result<(), DeployError> },
}

impl View for Deployment {
    type V = DeploymentView;

    open spec fn view(&self) -> DeploymentView {
        match self {
            Deployment::Locating { script } => DeploymentView::Locating { script: script@ },
            Deployment::Running { script } => DeploymentView::Running { script: script@ },
            Deployment::Finished { outcome } => DeploymentView::Finished { outcome: *outcome },
        }
    }
}

/// What the host has to do next for a deployment.
#[derive(Debug, PartialEq, Eq)]
pub enum Action {
    /// Find out whether a file exists at `path`, and report it with
    /// [`Event::Located`].
    Locate { path: String },
    /// Run the file at `path` as a child process with the host's own
    /// environment and rights, wait until it ends, however long that takes,
    /// and report it with [`Event::Ran`].
    Run { path: String },
    /// Send `response`. Nothing is left to do after it.
    Respond { response: Response },
}

/// An [`Action`] as a mathematical value.
pub enum ActionView {
    Locate { path: Seq<char> },
    Run { path: Seq<char> },
    Respond { response: ResponseView },
}

impl View for Action {
    type V = ActionView;

    open spec fn view(&self) -> ActionView {
        match self {
            Action::Locate { path } => ActionView::Locate { path: path@ },
            Action::Run { path } => ActionView::Run { path: path@ },
            Action::Respond { response } => ActionView::Respond { response: response@ },
        }
    }
}

/// What the host reports back after an action.
#[derive(Debug, Clone, Copy, PartialEq, Eq, Structural)]
pub enum Event {
    /// The answer to [`Action::Locate`].
    Located { exists: bool },
    /// The answer to [`Action::Run`].
    Ran { report: RunReport },
}

/// The host's machine as one deployment meets it: what is asked of the host
/// there, and what comes back. Nothing is assumed of either function.
pub struct Host {
    /// Whether a file exists at a path.
    pub exists: spec_fn(Seq<char>) -> bool,
    /// What running the file at a path reports.
    pub run: spec_fn(Seq<char>) -> RunReport,
}

impl Host {
    /// The event with which this host answers `action`. A response is sent
    /// and not answered.
    pub open spec fn answer(self, action: ActionView) -> Option<Event> {
        match action {
            ActionView::Locate { path } => Some(Event::Located { exists: (self.exists)(path) }),
            ActionView::Run { path } => Some(Event::Ran { report: (self.run)(path) }),
            ActionView::Respond { .. } => None,
        }
    }
}

impl DeploymentView {
    /// Where the deployment of `service_name` starts once the request is let
    /// through: at the lookup of its script.
    pub open spec fn deploy_service(config: ConfigView, service_name: Seq<char>) -> DeploymentView {
        DeploymentView::Locating { script: script_path_of(config.commands_dir, service_name) }
    }

    /// Where the handling of a deploy request starts. A request with another
    /// secret than the configured one is decided at once; no script is looked
    /// for.
    pub open spec fn deploy(
        config: ConfigView,
        service_name: Seq<char>,
        secret: Seq<char>,
    ) -> DeploymentView {
        if config.admits(secret) {
            DeploymentView::deploy_service(config, service_name)
        } else {
            DeploymentView::Finished { outcome: Err(DeployError::Unauthorized) }
        }
    }

    /// What the host has to do next.
    pub open spec fn pending(self) -> ActionView {
        match self {
            DeploymentView::Locating { script } => ActionView::Locate { path: script },
            DeploymentView::Running { script } => ActionView::Run { path: script },
            DeploymentView::Finished { outcome } => ActionView::Respond {
                response: ResponseView::of_outcome(outcome),
            },
        }
    }

    /// The deployment after the host has reported `event`. An event that does
    /// not answer the pending action changes nothing.
    pub open spec fn advance(self, event: Event) -> DeploymentView {
        match (self, event) {
            (DeploymentView::Locating { script }, Event::Located { exists }) => if exists {
                DeploymentView::Running { script }
            } else {
                DeploymentView::Finished { outcome: Err(DeployError::ScriptNotFound) }
            },
            (DeploymentView::Running { script }, Event::Ran { report }) => DeploymentView::Finished {
                outcome: report.spec_outcome(),
            },
            _ => self,
        }
    }

    /// The deployment after the host has reported `events`, first to last,
    /// whether or not each answers what was pending.
    pub open spec fn after(self, events: Seq<Event>) -> DeploymentView
        decreases events.len(),
    {
        if events.len() == 0 {
            self
        } else {
            self.after(events.drop_last()).advance(events.last())
        }
    }

    /// The deployment after `host` has carried out the pending action and
    /// reported on it; the same deployment where a response is pending.
    pub open spec fn round(self, host: Host) -> DeploymentView {
        match host.answer(self.pending()) {
            Some(event) => self.advance(event),
            None => self,
        }
    }

    /// The deployment after that many rounds with `host`.
    pub open spec fn rounds(self, host: Host, count: nat) -> DeploymentView
        decreases count,
    {
        if count == 0 {
            self
        } else {
            self.round(host).rounds(host, (count - 1) as nat)
        }
    }
}

/// How a deploy request ends on `host`, said outright: without the configured
/// secret it is unauthorized, whatever the service; with it, the script is
/// not found where no file is at its path; else the script is run and its
/// report decides.
pub open spec fn deploy_outcome(
    config: ConfigView,
    service_name: Seq<char>,
    secret: Seq<char>,
    host: Host,
) -> Result<(), DeployError> {
    let script = script_path_of(config.commands_dir, service_name);
    if !config.admits(secret) {
        Err(DeployError::Unauthorized)
    } else if !(host.exists)(script) {
        Err(DeployError::ScriptNotFound)
    } else {
        (host.run)(script).spec_outcome()
    }
}

/// Starts the deployment of `service_name` for a request that was let
/// through: the host is to look for the service's script.
pub fn deploy_service(config: &Config, service_name: &str) -> (deployment: Deployment)
    ensures
        deployment@ == DeploymentView::deploy_service(config@, service_name@),
{
    Deployment::Locating { script: script_path(config.commands_dir.as_str(), service_name) }
}

/// Starts the handling of a deploy request for `service_name`.
///
/// The secret is tested first. Where it is not the configured one, the
/// deployment is finished from the start and the host is never asked to look
/// for a script or to run one.
pub fn deploy(
    config: &Config,
    service_name: &str,
    request: &DeployRequest,
) -> (deployment: Deployment)
    ensures
        deployment@ == DeploymentView::deploy(config@, service_name@, request.secret@),
{
    if config.admits(request) {
        deploy_service(config, service_name)
    } else {
        Deployment::Finished { outcome: Err(DeployError::Unauthorized) }
    }
}

impl Deployment {
    /// What the host has to do next.
    pub fn pending(&self) -> (action: Action)
        ensures
            action@ == self@.pending(),
    {
        match self {
            Deployment::Locating { script } => Action::Locate { path: script.clone() },
            Deployment::Running { script } => Action::Run { path: script.clone() },
            Deployment::Finished { outcome } => Action::Respond {
                response: Response::of_outcome(*outcome),
            },
        }
    }

    /// Moves on with what the host reports. An event that does not answer the
    /// pending action changes nothing.
    pub fn advance(self, event: Event) -> (next: Deployment)
        ensures
            next@ == self@.advance(event),
    {
        match self {
            Deployment::Locating { script } => match event {
                Event::Located { exists } => if exists {
                    Deployment::Running { script }
                } else {
                    Deployment::Finished { outcome: Err(DeployError::ScriptNotFound) }
                },
                Event::Ran { .. } => Deployment::Locating { script },
            },
            Deployment::Running { script } => match event {
                Event::Ran { report } => Deployment::Finished { outcome: report.outcome() },
                Event::Located { .. } => Deployment::Running { script },
            },
            Deployment::Finished { outcome } => Deployment::Finished { outcome },
        }
    }
}

} // verus!
