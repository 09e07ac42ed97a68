use deployer::connector::{
    check_exit_status, env_path, name_from_bytes, nginx_path, random_upload_name, single_address, starter_path,
    systemd_path, UPLOAD_NAME_LEN,
};
use deployer::error::DeployError;
use deployer::os::{Os, OsLike, ShellCommand};
use deployer::process::prepare_process;
use deployer::service::{Service, ServiceKind, SourceType};
use deployer::text::u32_to_decimal;

fn git_service(name: &str, port: u32) -> Service {
    Service::new(
        name.to_string(),
        SourceType::Git {
            repo: "https://example.com/web.git".to_string(),
            env: "web.env".to_string(),
            port,
        },
        ServiceKind::Node,
        vec![],
    )
}

fn tool_service(name: &str) -> Service {
    Service::new(
        name.to_string(),
        SourceType::Tool { install: "install-redis.sh".to_string() },
        ServiceKind::Rust,
        vec![],
    )
}

#[test]
fn startup_commands_by_kind() {
    assert_eq!(ServiceKind::Node.get_startup_cmd(), "node src/index.js");
    assert_eq!(ServiceKind::Rust.get_startup_cmd(), "cargo run --release");
    assert_eq!(ServiceKind::Maven.get_startup_cmd(), "mvn run");
    assert_eq!(ServiceKind::JavaJar.get_startup_cmd(), "java --jar main.jar");
}

#[test]
fn source_queries() {
    let git = SourceType::Git { repo: "r".to_string(), env: "e".to_string(), port: 3000 };
    let tool = SourceType::Tool { install: "i.sh".to_string() };
    assert!(git.is_git() && !git.is_tool());
    assert!(tool.is_tool() && !tool.is_git());
    assert_eq!(git.get_repo_url(), Some(&"r".to_string()));
    assert_eq!(tool.get_repo_url(), None);
    assert_eq!(git.get_port(), Some(3000));
    assert_eq!(tool.get_port(), None);
}

#[test]
fn service_getters() {
    let s = Service::new(
        "api".to_string(),
        SourceType::Tool { install: "x.sh".to_string() },
        ServiceKind::Maven,
        vec!["db.toml".to_string()],
    );
    assert_eq!(s.name(), "api");
    assert_eq!(s.kind(), &ServiceKind::Maven);
    assert_eq!(s.dependencies(), &vec!["db.toml".to_string()]);
    assert!(s.source().is_tool());
}

#[test]
fn transpile_systemd_service() {
    let s = git_service("web", 8080);
    assert_eq!(
        Os::transpile(ShellCommand::CheckIfServiceExists, &s),
        "[ -e /etc/systemd/system/web.service ]"
    );
    assert_eq!(
        Os::transpile(ShellCommand::EnableAndStartService, &s),
        "sudo systemctl enable web.service && sudo systemctl restart web.service"
    );
    assert_eq!(Os::transpile(ShellCommand::StopService, &s), "sudo systemctl stop web.service ");
    assert_eq!(
        Os::transpile(ShellCommand::EraseService, &s),
        "rm -rf /etc/systemd/system/web.service && rm -rf web && rm -rf web-startup.sh"
    );
    assert_eq!(Os::transpile(ShellCommand::CreateServiceFolder, &s), "mkdir web");
    assert_eq!(Os::transpile(ShellCommand::GitInitService, &s), "cd web && git init --bare");
    assert_eq!(
        Os::transpile(ShellCommand::CleanupInstallService, &s),
        "chmod +x web-startup.sh && systemctl daemon-reload && sudo nginx -s reload"
    );
}

#[test]
fn transpile_tool() {
    let s = tool_service("redis");
    assert_eq!(Os::transpile(ShellCommand::CheckIfServiceExists, &s), "command -v redis");
    assert_eq!(Os::transpile(ShellCommand::EnableAndStartService, &s), ":");
    assert_eq!(Os::transpile(ShellCommand::StopService, &s), ":");
    assert_eq!(Os::transpile(ShellCommand::EraseService, &s), ":");
    assert_eq!(Os::transpile(ShellCommand::CreateServiceFolder, &s), "mkdir redis");
    assert_eq!(Os::transpile(ShellCommand::GitInitService, &s), "cd redis && git init --bare");
}

#[test]
fn script_once_command() {
    assert_eq!(
        Os::exec_script_once("setup.sh"),
        "chmod +x setup.sh && ./setup.sh && rm -rf setup.sh"
    );
}

#[test]
fn decimal_rendering() {
    assert_eq!(u32_to_decimal(0), "0");
    assert_eq!(u32_to_decimal(7), "7");
    assert_eq!(u32_to_decimal(10), "10");
    assert_eq!(u32_to_decimal(8080), "8080");
    assert_eq!(u32_to_decimal(u32::MAX), u32::MAX.to_string());
}

#[test]
fn random_names_are_alphanumeric() {
    for _ in 0..20 {
        let n = random_upload_name();
        assert_eq!(n.len(), UPLOAD_NAME_LEN);
        assert!(n.chars().all(|c| c.is_ascii_alphanumeric()));
    }
    // The names are drawn at random: forty draws are not all alike.
    let names: Vec<String> = (0..40).map(|_| random_upload_name()).collect();
    assert!(names.iter().any(|n| n != &names[0]));
}

#[test]
fn exit_status_decides_failure() {
    assert_eq!(check_exit_status(0, "fine".to_string()), Ok(()));
    assert_eq!(
        check_exit_status(1, "no such unit".to_string()),
        Err(DeployError::RemoteCommandFailed { stdout: "no such unit".to_string() })
    );
    assert_eq!(
        check_exit_status(127, String::new()),
        Err(DeployError::RemoteCommandFailed { stdout: String::new() })
    );
}

#[test]
fn exactly_one_address() {
    assert_eq!(single_address::<u32>(vec![]), None);
    assert_eq!(single_address(vec![42u32]), Some(42));
    assert_eq!(single_address(vec![1u32, 2]), None);
}

#[test]
fn upload_paths() {
    assert_eq!(env_path("web"), "web/.env");
    assert_eq!(nginx_path("web"), "/etc/nginx/default.d/web.conf");
    assert_eq!(starter_path("web"), "web-starter.sh");
    assert_eq!(systemd_path("web"), "/etc/systemd/system/web.service");
}

#[test]
fn unit_path_matches_existence_check() {
    let s = git_service("web", 1);
    assert_eq!(
        Os::transpile(ShellCommand::CheckIfServiceExists, &s),
        format!("[ -e {} ]", systemd_path("web"))
    );
}

#[test]
fn prepare_git_service() {
    let s = git_service("web", 8080);
    let cmd = vec!["npm".to_string(), "run".to_string(), "dev".to_string()];
    let p = prepare_process(&s, &cmd).unwrap();
    assert_eq!(p.program, "npm");
    assert_eq!(p.args, vec!["run".to_string(), "dev".to_string()]);
    assert_eq!(
        p.envs,
        vec![
            ("PORT".to_string(), "8080".to_string()),
            ("SUBPATH".to_string(), "/web/".to_string())
        ]
    );
}

#[test]
fn prepare_tool_has_no_port() {
    let s = tool_service("redis");
    let p = prepare_process(&s, &vec!["proxy".to_string()]).unwrap();
    assert_eq!(p.program, "proxy");
    assert!(p.args.is_empty());
    assert_eq!(p.envs, vec![("SUBPATH".to_string(), "/redis/".to_string())]);
}

#[test]
fn prepare_without_command_fails() {
    let s = tool_service("redis");
    assert_eq!(prepare_process(&s, &vec![]), Err(DeployError::NoCommand));
}

#[test]
fn names_from_bytes() {
    assert_eq!(name_from_bytes(&vec![]), "");
    assert_eq!(name_from_bytes(&b"aZ09xQ".to_vec()), "aZ09xQ");
}
