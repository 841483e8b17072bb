use deploy_webhook::config::Config;
use deploy_webhook::deploy::{deploy, deploy_service, Action, Deployment, Event};
use deploy_webhook::error::DeployError;
use deploy_webhook::request::DeployRequest;
use deploy_webhook::response::{Body, Response};
use deploy_webhook::script::RunReport;

/// A host for one test: the files it holds, what a run reports, and a record
/// of what it was asked.
struct World {
    files: Vec<String>,
    report: RunReport,
    located: Vec<String>,
    ran: Vec<String>,
}

fn world(files: &[&str], report: RunReport) -> World {
    World {
        files: files.iter().map(|file| file.to_string()).collect(),
        report,
        located: Vec::new(),
        ran: Vec::new(),
    }
}

/// Drives one request to its response, as a host does.
fn handle(world: &mut World, config: &Config, service_name: &str, secret: &str) -> Response {
    let request = DeployRequest { secret: secret.to_string() };
    let mut deployment = deploy(config, service_name, &request);
    for _ in 0..3 {
        let event = match deployment.pending() {
            Action::Locate { path } => {
                let exists = world.files.contains(&path);
                world.located.push(path);
                Event::Located { exists }
            }
            Action::Run { path } => {
                world.ran.push(path);
                Event::Ran { report: world.report }
            }
            Action::Respond { response } => return response,
        };
        deployment = deployment.advance(event);
    }
    panic!("no response after three rounds");
}

fn config(commands_dir: &str, secret: &str) -> Config {
    Config { commands_dir: commands_dir.to_string(), webhook_secret: secret.to_string() }
}

fn json(status: u16, key: &str, value: &str) -> Response {
    Response { status, body: Body::Json { key: key.to_string(), value: value.to_string() } }
}

#[test]
fn existing_script_that_exits_zero_gives_200() {
    let mut world = world(&["/cmds/foo.sh"], RunReport::Exited { code: 0 });
    let response = handle(&mut world, &config("/cmds", "abc"), "foo", "abc");
    assert_eq!(response, json(200, "status", "Deployment successful"));
    assert_eq!(world.located, vec!["/cmds/foo.sh".to_string()]);
    assert_eq!(world.ran, vec!["/cmds/foo.sh".to_string()]);
}

#[test]
fn wrong_secret_gives_403() {
    let mut world = world(&["/cmds/foo.sh"], RunReport::Exited { code: 0 });
    let response = handle(&mut world, &config("/cmds", "abc"), "foo", "wrong");
    assert_eq!(response, json(403, "error", "Unauthorized"));
    assert!(world.located.is_empty());
    assert!(world.ran.is_empty());
}

#[test]
fn missing_script_gives_404() {
    let mut world = world(&["/cmds/foo.sh"], RunReport::Exited { code: 0 });
    let response = handle(&mut world, &config("/cmds", "abc"), "missing", "abc");
    assert_eq!(response, json(404, "error", "Script not found"));
    assert_eq!(world.located, vec!["/cmds/missing.sh".to_string()]);
    assert!(world.ran.is_empty());
}

#[test]
fn wrong_secret_gives_403_for_a_missing_script_too() {
    let mut world = world(&[], RunReport::SpawnFailed);
    let response = handle(&mut world, &config("/cmds", "abc"), "missing", "abd");
    assert_eq!(response, json(403, "error", "Unauthorized"));
    assert!(world.located.is_empty());
    assert!(world.ran.is_empty());
}

#[test]
fn secret_is_compared_character_for_character() {
    let config = config("/cmds", "abc");
    for secret in ["", "ab", "abcd", "ABC", " abc", "abc ", "abc\n"] {
        let mut world = world(&["/cmds/foo.sh"], RunReport::Exited { code: 0 });
        let response = handle(&mut world, &config, "foo", secret);
        assert_eq!(response.status, 403, "secret {:?}", secret);
        assert!(world.ran.is_empty());
    }
    assert!(config.admits(&DeployRequest { secret: "abc".to_string() }));
    assert!(!config.admits(&DeployRequest { secret: "abC".to_string() }));
}

#[test]
fn empty_configured_secret_admits_only_the_empty_secret() {
    let config = config("/cmds", "");
    assert!(config.admits(&DeployRequest { secret: String::new() }));
    assert!(!config.admits(&DeployRequest { secret: "x".to_string() }));
}

#[test]
fn nonzero_exit_gives_500() {
    for code in [1, 2, 127, 255, -1, i32::MIN, i32::MAX] {
        let mut world = world(&["/cmds/foo.sh"], RunReport::Exited { code });
        let response = handle(&mut world, &config("/cmds", "abc"), "foo", "abc");
        assert_eq!(response, json(500, "error", "Deployment failed"), "code {}", code);
        assert_eq!(world.ran, vec!["/cmds/foo.sh".to_string()]);
    }
}

#[test]
fn script_ended_without_exit_code_gives_500() {
    let mut world = world(&["/cmds/foo.sh"], RunReport::Terminated);
    let response = handle(&mut world, &config("/cmds", "abc"), "foo", "abc");
    assert_eq!(response, json(500, "error", "Deployment failed"));
}

#[test]
fn spawn_failure_gives_500() {
    let mut world = world(&["/cmds/foo.sh"], RunReport::SpawnFailed);
    let response = handle(&mut world, &config("/cmds", "abc"), "foo", "abc");
    assert_eq!(response, json(500, "error", "Deployment failed"));
}

#[test]
fn repeated_request_runs_the_script_again() {
    let mut world = world(&["/cmds/x.sh"], RunReport::Exited { code: 0 });
    let config = config("/cmds", "abc");
    let first = handle(&mut world, &config, "x", "abc");
    let second = handle(&mut world, &config, "x", "abc");
    assert_eq!(first.status, 200);
    assert_eq!(second.status, 200);
    assert_eq!(world.ran, vec!["/cmds/x.sh".to_string(), "/cmds/x.sh".to_string()]);
}

#[test]
fn deploy_starts_with_the_lookup_of_the_script() {
    let request = DeployRequest { secret: "abc".to_string() };
    let deployment = deploy(&config("/cmds", "abc"), "foo", &request);
    assert_eq!(deployment, Deployment::Locating { script: "/cmds/foo.sh".to_string() });
    assert_eq!(deployment.pending(), Action::Locate { path: "/cmds/foo.sh".to_string() });
}

#[test]
fn deploy_with_wrong_secret_is_finished_at_once() {
    let request = DeployRequest { secret: "nope".to_string() };
    let deployment = deploy(&config("/cmds", "abc"), "foo", &request);
    assert_eq!(deployment, Deployment::Finished { outcome: Err(DeployError::Unauthorized) });
}

#[test]
fn deploy_service_does_not_look_at_any_secret() {
    let deployment = deploy_service(&config("./command", "abc"), "api");
    assert_eq!(deployment, Deployment::Locating { script: "./command/api.sh".to_string() });
}

#[test]
fn advance_follows_each_answer() {
    let locating = Deployment::Locating { script: "/cmds/foo.sh".to_string() };
    let running = locating.advance(Event::Located { exists: true });
    assert_eq!(running, Deployment::Running { script: "/cmds/foo.sh".to_string() });
    assert_eq!(running.pending(), Action::Run { path: "/cmds/foo.sh".to_string() });
    let finished = running.advance(Event::Ran { report: RunReport::Exited { code: 0 } });
    assert_eq!(finished, Deployment::Finished { outcome: Ok(()) });
    assert_eq!(
        finished.pending(),
        Action::Respond { response: json(200, "status", "Deployment successful") }
    );

    let locating = Deployment::Locating { script: "/cmds/foo.sh".to_string() };
    let finished = locating.advance(Event::Located { exists: false });
    assert_eq!(finished, Deployment::Finished { outcome: Err(DeployError::ScriptNotFound) });
}

#[test]
fn event_that_answers_nothing_pending_is_ignored() {
    let locating = Deployment::Locating { script: "/cmds/foo.sh".to_string() };
    let still = locating.advance(Event::Ran { report: RunReport::Exited { code: 0 } });
    assert_eq!(still, Deployment::Locating { script: "/cmds/foo.sh".to_string() });

    let running = Deployment::Running { script: "/cmds/foo.sh".to_string() };
    let still = running.advance(Event::Located { exists: false });
    assert_eq!(still, Deployment::Running { script: "/cmds/foo.sh".to_string() });
}

#[test]
fn finished_deployment_stays_as_it_is() {
    for outcome in [
        Ok(()),
        Err(DeployError::Unauthorized),
        Err(DeployError::ScriptNotFound),
        Err(DeployError::ExecutionFailure),
    ] {
        for event in [
            Event::Located { exists: true },
            Event::Located { exists: false },
            Event::Ran { report: RunReport::Exited { code: 0 } },
            Event::Ran { report: RunReport::SpawnFailed },
        ] {
            let finished = Deployment::Finished { outcome };
            assert_eq!(finished.advance(event), Deployment::Finished { outcome });
        }
    }
}

#[test]
fn service_name_is_not_sanitized() {
    let mut world = world(&["/cmds/../etc/run.sh"], RunReport::Exited { code: 0 });
    let response = handle(&mut world, &config("/cmds", "abc"), "../etc/run", "abc");
    assert_eq!(response.status, 200);
    assert_eq!(world.ran, vec!["/cmds/../etc/run.sh".to_string()]);
}
