//! What holds of every deploy request, proved of the state machine.
//!
//! The laws speak of [`DeploymentView`], the value that the contracts of
//! [`deploy`](crate::deploy::deploy), [`Deployment::pending`] and
//! [`Deployment::advance`] tie the executable handler to.
//!
//! [`Deployment::pending`]: crate::deploy::Deployment::pending
//! [`Deployment::advance`]: crate::deploy::Deployment::advance

use crate::config::ConfigView;
use crate::deploy::{deploy_outcome, ActionView, DeploymentView, Event, Host};
use crate::error::DeployError;
use crate::response::{BodyView, ResponseView};
use crate::script::{script_path_of, RunReport};
use vstd::prelude::*;

verus! {

/// A decided request stays decided: whatever the host reports afterwards,
/// the deployment is finished with the same outcome.
pub proof fn finished_ignores_events(outcome: Result<(), DeployError>, events: Seq<Event>)
    ensures
        (DeploymentView::Finished { outcome }).after(events) == (DeploymentView::Finished {
            outcome,
        }),
    decreases events.len(),
{
    if events.len() > 0 {
        finished_ignores_events(outcome, events.drop_last());
    }
}

/// A decided request asks nothing more of the host: however many rounds
/// follow, the deployment is finished with the same outcome.
pub proof fn finished_needs_no_round(outcome: Result<(), DeployError>, host: Host, count: nat)
    ensures
        (DeploymentView::Finished { outcome }).rounds(host, count) == (DeploymentView::Finished {
            outcome,
        }),
    decreases count,
{
    if count > 0 {
        finished_needs_no_round(outcome, host, (count - 1) as nat);
    }
}

/// Two rounds with the host decide any request, further rounds change
/// nothing, and the decision is the one that [`deploy_outcome`] states: the
/// state machine and the outright statement agree on every configuration,
/// request and host.
pub proof fn two_rounds_decide(
    config: ConfigView,
    service_name: Seq<char>,
    secret: Seq<char>,
    host: Host,
    count: nat,
)
    requires
        count >= 2,
    ensures
        DeploymentView::deploy(config, service_name, secret).rounds(host, count) == (
        DeploymentView::Finished { outcome: deploy_outcome(config, service_name, secret, host) }),
{
    reveal_with_fuel(DeploymentView::rounds, 3);
    finished_needs_no_round(
        deploy_outcome(config, service_name, secret, host),
        host,
        (count - 2) as nat,
    );
}

/// A request that does not show the configured secret is answered with `403`
/// and `{"error": "Unauthorized"}`, whatever the service name and whether or
/// not its script exists. The answer is pending from the start, so the host
/// is not asked to look for a script, nor to run one; and nothing that the
/// host reports changes it.
pub proof fn wrong_secret_is_forbidden(
    config: ConfigView,
    service_name: Seq<char>,
    secret: Seq<char>,
    events: Seq<Event>,
    host: Host,
    count: nat,
)
    requires
        secret != config.webhook_secret,
    ensures
        DeploymentView::deploy(config, service_name, secret).pending() == (ActionView::Respond {
            response: ResponseView {
                status: 403,
                body: BodyView::Json { key: "error"@, value: "Unauthorized"@ },
            },
        }),
        DeploymentView::deploy(config, service_name, secret).after(events)
            == DeploymentView::deploy(config, service_name, secret),
        DeploymentView::deploy(config, service_name, secret).rounds(host, count)
            == DeploymentView::deploy(config, service_name, secret),
{
    finished_ignores_events(Err(DeployError::Unauthorized), events);
    finished_needs_no_round(Err(DeployError::Unauthorized), host, count);
}

/// The host is asked for nothing but what the request earned. Whatever the
/// host has reported so far, in whatever order: a path that it is asked to
/// look for or to run is the path of the named service's script, and the
/// request showed the configured secret; and it is asked to run the script
/// only after it reported that the script exists.
pub proof fn only_the_named_script_runs(
    config: ConfigView,
    service_name: Seq<char>,
    secret: Seq<char>,
    events: Seq<Event>,
)
    ensures
        match DeploymentView::deploy(config, service_name, secret).after(events).pending() {
            ActionView::Locate { path } => {
                &&& secret == config.webhook_secret
                &&& path == script_path_of(config.commands_dir, service_name)
            },
            ActionView::Run { path } => {
                &&& secret == config.webhook_secret
                &&& path == script_path_of(config.commands_dir, service_name)
                &&& events.contains(Event::Located { exists: true })
            },
            ActionView::Respond { .. } => true,
        },
    decreases events.len(),
{
    if events.len() > 0 {
        only_the_named_script_runs(config, service_name, secret, events.drop_last());
    }
}

/// A request that shows the configured secret for a service whose script
/// does not exist is answered with `404` and `{"error": "Script not found"}`.
/// The host is asked to look for the script, and for nothing else.
pub proof fn missing_script_is_not_found(
    config: ConfigView,
    service_name: Seq<char>,
    secret: Seq<char>,
    host: Host,
)
    requires
        secret == config.webhook_secret,
        !(host.exists)(script_path_of(config.commands_dir, service_name)),
    ensures
        DeploymentView::deploy(config, service_name, secret).pending() == (ActionView::Locate {
            path: script_path_of(config.commands_dir, service_name),
        }),
        DeploymentView::deploy(config, service_name, secret).round(host).pending() == (
        ActionView::Respond {
            response: ResponseView {
                status: 404,
                body: BodyView::Json { key: "error"@, value: "Script not found"@ },
            },
        }),
{
}

/// A request that shows the configured secret for a service whose script
/// exists has that script run, and where it exits with code zero the answer is
/// `200` with `{"status": "Deployment successful"}`.
pub proof fn exit_zero_is_success(
    config: ConfigView,
    service_name: Seq<char>,
    secret: Seq<char>,
    host: Host,
)
    requires
        secret == config.webhook_secret,
        (host.exists)(script_path_of(config.commands_dir, service_name)),
        (host.run)(script_path_of(config.commands_dir, service_name)) == (RunReport::Exited {
            code: 0,
        }),
    ensures
        DeploymentView::deploy(config, service_name, secret).round(host).pending() == (
        ActionView::Run { path: script_path_of(config.commands_dir, service_name) }),
        DeploymentView::deploy(config, service_name, secret).round(host).round(host).pending() == (
        ActionView::Respond {
            response: ResponseView {
                status: 200,
                body: BodyView::Json { key: "status"@, value: "Deployment successful"@ },
            },
        }),
{
}

/// A request that shows the configured secret for a service whose script
/// exists, but does not exit with code zero, is answered with `500` and
/// `{"error": "Deployment failed"}`: for another exit code, for a script that
/// ended without one, and for one that could not be started alike.
pub proof fn other_exit_is_failure(
    config: ConfigView,
    service_name: Seq<char>,
    secret: Seq<char>,
    host: Host,
)
    requires
        secret == config.webhook_secret,
        (host.exists)(script_path_of(config.commands_dir, service_name)),
        (host.run)(script_path_of(config.commands_dir, service_name)) != (RunReport::Exited {
            code: 0,
        }),
    ensures
        DeploymentView::deploy(config, service_name, secret).round(host).pending() == (
        ActionView::Run { path: script_path_of(config.commands_dir, service_name) }),
        DeploymentView::deploy(config, service_name, secret).round(host).round(host).pending() == (
        ActionView::Respond {
            response: ResponseView {
                status: 500,
                body: BodyView::Json { key: "error"@, value: "Deployment failed"@ },
            },
        }),
{
}

/// Deploying is not idempotent. A deployment is made of the configuration and
/// the request alone and keeps no trace of earlier ones. So where the same
/// request is made twice, and the script exists both times, the host is asked
/// to run it both times, and each answer goes by its own run: the second may
/// differ from the first.
pub proof fn repeated_request_runs_again(
    config: ConfigView,
    service_name: Seq<char>,
    secret: Seq<char>,
    first: Host,
    second: Host,
)
    requires
        secret == config.webhook_secret,
        (first.exists)(script_path_of(config.commands_dir, service_name)),
        (second.exists)(script_path_of(config.commands_dir, service_name)),
    ensures
        DeploymentView::deploy(config, service_name, secret).round(first).pending() == (
        ActionView::Run { path: script_path_of(config.commands_dir, service_name) }),
        DeploymentView::deploy(config, service_name, secret).round(second).pending() == (
        ActionView::Run { path: script_path_of(config.commands_dir, service_name) }),
        DeploymentView::deploy(config, service_name, secret).rounds(first, 2) == (
        DeploymentView::Finished {
            outcome: (first.run)(script_path_of(config.commands_dir, service_name)).spec_outcome(),
        }),
        DeploymentView::deploy(config, service_name, secret).rounds(second, 2) == (
        DeploymentView::Finished {
            outcome: (second.run)(script_path_of(config.commands_dir, service_name)).spec_outcome(),
        }),
{
    two_rounds_decide(config, service_name, secret, first, 2);
    two_rounds_decide(config, service_name, secret, second, 2);
}

} // verus!
