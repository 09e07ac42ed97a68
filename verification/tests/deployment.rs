use deployer::cli::Operation;
use deployer::deploy::{make_starter_configs, Action, Deployment, Event, Task};
use deployer::error::DeployError;
use deployer::process::ProcessSpec;
use deployer::service::{Service, ServiceKind, SourceType};
use deployer::target::Target;

fn target() -> Target {
    Target::new(
        "prod".to_string(),
        "ssh://deploy@example.com/srv/web".to_string(),
        "deploy".to_string(),
        "/home/me/.ssh/id_ed25519".to_string(),
    )
}

fn git_service(deps: Vec<String>) -> Service {
    Service::new(
        "web".to_string(),
        SourceType::Git {
            repo: "https://example.com/web.git".to_string(),
            env: "web.env".to_string(),
            port: 8080,
        },
        ServiceKind::Node,
        deps,
    )
}

fn tool(name: &str, script: &str) -> Service {
    Service::new(
        name.to_string(),
        SourceType::Tool { install: script.to_string() },
        ServiceKind::Rust,
        vec![],
    )
}

fn step(d: Deployment, e: Event) -> (Deployment, Action) {
    assert!(d.expects(&e), "unexpected event {:?}", e);
    d.step(e)
}

fn remote(cmd: &str) -> Action {
    Action::RemoteExec(cmd.to_string())
}

#[test]
fn down_refuses_a_tool() {
    let d = Deployment::new(Task::Down, tool("redis", "r.sh"), target());
    let (d, a) = step(d, Event::Started);
    assert_eq!(a, Action::Finish(Err(DeployError::CannotPullToolDown)));
    assert!(d.is_finished());
}

#[test]
fn erase_refuses_a_tool() {
    let d = Deployment::new(Task::Erase, tool("redis", "r.sh"), target());
    let (_, a) = step(d, Event::Started);
    assert_eq!(a, Action::Finish(Err(DeployError::CannotEraseTool)));
}

#[test]
fn down_stops_the_service() {
    let d = Deployment::new(Task::Down, git_service(vec![]), target());
    let (d, a) = step(d, Event::Started);
    assert_eq!(a, remote("sudo systemctl stop web.service "));
    let (d, a) = step(d, Event::Succeeded);
    assert_eq!(a, Action::Finish(Ok(())));
    assert!(d.is_finished());
}

#[test]
fn erase_stops_then_erases() {
    let d = Deployment::new(Task::Erase, git_service(vec![]), target());
    let (d, a) = step(d, Event::Started);
    assert_eq!(a, remote("sudo systemctl stop web.service "));
    let (d, a) = step(d, Event::Succeeded);
    assert_eq!(
        a,
        remote("rm -rf /etc/systemd/system/web.service && rm -rf web && rm -rf web-startup.sh")
    );
    let (_, a) = step(d, Event::Succeeded);
    assert_eq!(a, Action::Finish(Ok(())));
}

#[test]
fn a_failed_stop_ends_the_erase() {
    let d = Deployment::new(Task::Erase, git_service(vec![]), target());
    let (d, _) = step(d, Event::Started);
    let err = DeployError::RemoteCommandFailed { stdout: "denied".to_string() };
    let (d, a) = step(d, Event::Failed(err.clone()));
    assert_eq!(a, Action::Finish(Err(err)));
    assert!(d.is_finished());
    assert!(!d.expects(&Event::Succeeded));
}

#[test]
fn push_skips_a_tool() {
    let d = Deployment::new(Task::Push, tool("redis", "r.sh"), target());
    let (_, a) = step(d, Event::Started);
    assert_eq!(a, Action::Finish(Ok(())));
}

fn clone_spec(dir: &str) -> ProcessSpec {
    ProcessSpec {
        program: "git".to_string(),
        args: vec!["clone".to_string(), "https://example.com/web.git".to_string(), dir.to_string()],
        envs: vec![],
    }
}

fn push_spec() -> ProcessSpec {
    ProcessSpec {
        program: "git".to_string(),
        args: vec!["push".to_string(), "ssh://deploy@example.com/srv/web".to_string()],
        envs: vec![(
            "GIT_SSH_COMMAND".to_string(),
            "ssh -i /home/me/.ssh/id_ed25519".to_string(),
        )],
    }
}

#[test]
fn push_clones_pushes_and_restarts() {
    let d = Deployment::new(Task::Push, git_service(vec![]), target());
    let (d, a) = step(d, Event::Started);
    assert_eq!(a, Action::CreateTempDir);
    let (d, a) = step(d, Event::TempDirCreated("/tmp/abc".to_string()));
    assert_eq!(a, Action::RunProcess(clone_spec("/tmp/abc")));
    let (d, a) = step(d, Event::ProcessExited(true));
    assert_eq!(a, Action::RunProcess(push_spec()));
    let (d, a) = step(d, Event::ProcessExited(true));
    assert_eq!(
        a,
        remote("sudo systemctl enable web.service && sudo systemctl restart web.service")
    );
    let (d, a) = step(d, Event::Succeeded);
    assert_eq!(a, Action::Finish(Ok(())));
    assert!(d.is_finished());
}

#[test]
fn failed_clone_ends_the_push() {
    let d = Deployment::new(Task::Push, git_service(vec![]), target());
    let (d, _) = step(d, Event::Started);
    let (d, _) = step(d, Event::TempDirCreated("/tmp/x".to_string()));
    let (_, a) = step(d, Event::ProcessExited(false));
    assert_eq!(a, Action::Finish(Err(DeployError::GitCloneFailed)));
}

#[test]
fn failed_push_ends_the_push() {
    let d = Deployment::new(Task::Push, git_service(vec![]), target());
    let (d, _) = step(d, Event::Started);
    let (d, _) = step(d, Event::TempDirCreated("/tmp/x".to_string()));
    let (d, _) = step(d, Event::ProcessExited(true));
    let (_, a) = step(d, Event::ProcessExited(false));
    assert_eq!(a, Action::Finish(Err(DeployError::GitPushFailed)));
}

#[test]
fn up_installs_dependencies_in_order_then_the_service() {
    let deps = vec!["redis.toml".to_string(), "pg.toml".to_string()];
    let d = Deployment::new(Task::Up, git_service(deps), target());
    let (d, a) = step(d, Event::Started);
    assert_eq!(a, Action::LoadService("redis.toml".to_string()));
    // redis is missing: its install script is uploaded and run.
    let (d, a) = step(d, Event::ServiceLoaded(tool("redis", "redis.sh")));
    assert_eq!(a, remote("command -v redis"));
    let (d, a) = step(d, Event::Failed(DeployError::RemoteCommandFailed { stdout: String::new() }));
    assert_eq!(a, Action::Transfer("redis.sh".to_string()));
    let (d, a) = step(d, Event::Succeeded);
    assert_eq!(a, remote("chmod +x redis.sh && ./redis.sh && rm -rf redis.sh"));
    let (d, a) = step(d, Event::Succeeded);
    assert_eq!(a, Action::LoadService("pg.toml".to_string()));
    // pg is already there: nothing is installed.
    let (d, a) = step(d, Event::ServiceLoaded(tool("pg", "pg.sh")));
    assert_eq!(a, remote("command -v pg"));
    let (d, a) = step(d, Event::Succeeded);
    // Then the service itself, found installed, and pushed.
    assert_eq!(a, remote("[ -e /etc/systemd/system/web.service ]"));
    let (d, a) = step(d, Event::Succeeded);
    assert_eq!(a, Action::CreateTempDir);
    assert!(!d.is_finished());
}

#[test]
fn up_of_a_missing_git_service_renders_its_configuration() {
    let d = Deployment::new(Task::Up, git_service(vec![]), target());
    let (d, a) = step(d, Event::Started);
    assert_eq!(a, remote("[ -e /etc/systemd/system/web.service ]"));
    let (d, a) = step(d, Event::Failed(DeployError::RemoteCommandFailed { stdout: String::new() }));
    let configs = vec![
        ("name".to_string(), "web".to_string()),
        ("port".to_string(), "8080".to_string()),
        ("cmd".to_string(), "node src/index.js".to_string()),
        ("username".to_string(), "deploy".to_string()),
    ];
    assert_eq!(a, Action::RenderConfigs(configs));
    let (d, a) = step(d, Event::Succeeded);
    assert_eq!(a, Action::Transfer("web.env".to_string()));
    // What follows a successful upload is not implemented: only its failure
    // is expected, and it ends the deployment.
    assert!(!d.expects(&Event::Succeeded));
    let err = DeployError::Outside { message: "sftp refused".to_string() };
    assert!(d.expects(&Event::Failed(err.clone())));
    let (d, a) = step(d, Event::Failed(err.clone()));
    assert_eq!(a, Action::Finish(Err(err)));
    assert!(d.is_finished());
}

#[test]
fn up_stops_when_a_dependency_cannot_be_read() {
    let d = Deployment::new(Task::Up, git_service(vec!["gone.toml".to_string()]), target());
    let (d, _) = step(d, Event::Started);
    let err = DeployError::Outside { message: "No such file or directory".to_string() };
    let (_, a) = step(d, Event::Failed(err.clone()));
    assert_eq!(a, Action::Finish(Err(err)));
}

#[test]
fn events_out_of_turn_are_not_expected() {
    let d = Deployment::new(Task::Push, git_service(vec![]), target());
    assert!(d.expects(&Event::Started));
    assert!(!d.expects(&Event::Succeeded));
    assert!(!d.expects(&Event::Failed(DeployError::GitCloneFailed)));
    assert!(!d.expects(&Event::ProcessExited(true)));
    let (d, _) = step(d, Event::Started);
    assert!(d.expects(&Event::TempDirCreated("/tmp".to_string())));
    assert!(!d.expects(&Event::Started));
}

#[test]
fn starter_configs_values() {
    let c = make_starter_configs(&git_service(vec![]), &target());
    assert_eq!(c[0], ("name".to_string(), "web".to_string()));
    assert_eq!(c[1], ("port".to_string(), "8080".to_string()));
    assert_eq!(c[2], ("cmd".to_string(), "node src/index.js".to_string()));
    assert_eq!(c[3], ("username".to_string(), "deploy".to_string()));
}

#[test]
fn operations_map_to_tasks() {
    let s = "s.toml".to_string();
    let t = "t.toml".to_string();
    assert_eq!(Operation::Up { service: s.clone(), target: t.clone() }.task(), Some(Task::Up));
    assert_eq!(Operation::Push { service: s.clone(), target: t.clone() }.task(), Some(Task::Push));
    assert_eq!(Operation::Down { service: s.clone(), target: t.clone() }.task(), Some(Task::Down));
    assert_eq!(Operation::Erase { service: s.clone(), target: t }.task(), Some(Task::Erase));
    assert_eq!(Operation::Prepare { service: s, cmd: vec![] }.task(), None);
}

#[test]
fn deployment_accessors() {
    let d = Deployment::new(Task::Erase, git_service(vec![]), target());
    assert_eq!(d.task(), Task::Erase);
    assert_eq!(d.service().name(), "web");
    assert_eq!(d.target().name(), "prod");
    assert_eq!(d.target().address(), "ssh://deploy@example.com/srv/web");
    assert_eq!(d.target().username(), "deploy");
    assert_eq!(d.target().identity(), "/home/me/.ssh/id_ed25519");
}
