//! The decisions of a deployment, as a state machine.
//!
//! A [`Deployment`] is told what happened (an [`Event`]) and answers with the
//! next thing to do (an [`Action`]). The outside work itself (ssh commands,
//! uploads, git, reading service files, rendering configuration files) is
//! done by the caller, who reports its outcome as the next event.

use vstd::prelude::*;
use crate::error::DeployError;
use crate::os::{Os, OsLike, ShellCommand, transpiled, script_once};
use crate::process::{ProcessSpec, ProcessView};
use crate::service::{Service, ServiceView, SourceType, SourceView, ServiceKind, startup_cmd};
use crate::target::{Target, TargetView};
use crate::text::{decimal, u32_to_decimal};

verus! {

/// What a deployment does.
#[derive(Debug, Clone, Copy, PartialEq, Eq, Structural)]
pub enum Task {
    /// Install the service's dependencies, then the service, then push it.
    Up,
    /// Push the service's code to the target and restart it.
    Push,
    /// Stop the service.
    Down,
    /// Stop the service and delete it from the target.
    Erase,
}

/// What happened since the last action.
#[derive(Debug, PartialEq, Eq)]
pub enum Event {
    /// The deployment begins.
    Started,
    /// The last action (a remote command, an upload, rendering the
    /// configuration files) succeeded.
    Succeeded,
    /// The last action failed.
    Failed(DeployError),
    /// A temporary directory was created at this path.
    TempDirCreated(String),
    /// The local process ran to its end; whether it succeeded.
    ProcessExited(bool),
    /// The service file of a dependency was read.
    ServiceLoaded(Service),
}

/// The mathematical value of an [`Event`].
pub enum EventView {
    Started,
    Succeeded,
    Failed(DeployError),
    TempDirCreated(Seq<char>),
    ProcessExited(bool),
    ServiceLoaded(ServiceView),
}

impl View for Event {
    type V = EventView;

    open spec fn view(&self) -> EventView {
        match self {
            Event::Started => EventView::Started,
            Event::Succeeded => EventView::Succeeded,
            Event::Failed(e) => EventView::Failed(*e),
            Event::TempDirCreated(d) => EventView::TempDirCreated(d@),
            Event::ProcessExited(ok) => EventView::ProcessExited(*ok),
            Event::ServiceLoaded(s) => EventView::ServiceLoaded(s@),
        }
    }
}

/// The next thing to do.
#[derive(Debug, PartialEq, Eq)]
pub enum Action {
    /// Run this shell command on the target.
    RemoteExec(String),
    /// Upload the local file at this path to the target, under a random name.
    Transfer(String),
    /// Create a temporary directory.
    CreateTempDir,
    /// Run this local process.
    RunProcess(ProcessSpec),
    /// Read the service file at this path.
    LoadService(String),
    /// Render the starter script, the systemd unit and the nginx
    /// configuration from these values.
    RenderConfigs(Vec<(String, String)>),
    /// The deployment is over, with this outcome.
    Finish(Result<(), DeployError>),
}

/// The mathematical value of an [`Action`].
pub enum ActionView {
    RemoteExec(Seq<char>),
    Transfer(Seq<char>),
    CreateTempDir,
    RunProcess(ProcessView),
    LoadService(Seq<char>),
    RenderConfigs(Seq<(Seq<char>, Seq<char>)>),
    Finish(Result<(), DeployError>),
}

impl View for Action {
    type V = ActionView;

    open spec fn view(&self) -> ActionView {
        match self {
            Action::RemoteExec(c) => ActionView::RemoteExec(c@),
            Action::Transfer(p) => ActionView::Transfer(p@),
            Action::CreateTempDir => ActionView::CreateTempDir,
            Action::RunProcess(p) => ActionView::RunProcess(p@),
            Action::LoadService(p) => ActionView::LoadService(p@),
            Action::RenderConfigs(c) => ActionView::RenderConfigs(
                c@.map_values(|e: (String, String)| (e.0@, e.1@)),
            ),
            Action::Finish(r) => ActionView::Finish(*r),
        }
    }
}

/// Where a deployment stands.
#[derive(Debug, PartialEq, Eq)]
pub enum Phase {
    /// Not begun.
    Start,
    /// Reading the service file of dependency `index`.
    Loading { index: usize },
    /// Checking whether a service exists on the target: dependency `index`
    /// when `dependency` holds it, else the service itself.
    Checking { index: usize, dependency: Option<Service> },
    /// Rendering the configuration files of a git service; `env` is its
    /// environment file.
    Rendering { env: String },
    /// Uploading the environment file of a git service. Installing a git
    /// service found missing goes no further: only a failure of this upload
    /// is expected, as what follows a successful one is not implemented.
    TransferringEnv,
    /// Uploading the install script `script` of a tool.
    TransferringScript { index: usize, is_dependency: bool, script: String },
    /// Running the install script of a tool on the target.
    RunningScript { index: usize, is_dependency: bool },
    /// Creating the directory the repository is cloned into.
    CreatingTempDir,
    /// Cloning the repository.
    Cloning,
    /// Pushing the repository to the target.
    Pushing,
    /// Enabling and starting the service on the target.
    Enabling,
    /// Stopping the service; erasing it next when `then_erase`.
    Stopping { then_erase: bool },
    /// Erasing the service from the target.
    Erasing,
    /// Over.
    Finished,
}

/// The mathematical value of a [`Phase`].
pub enum PhaseView {
    Start,
    Loading { index: nat },
    Checking { index: nat, dependency: Option<ServiceView> },
    Rendering { env: Seq<char> },
    TransferringEnv,
    TransferringScript { index: nat, is_dependency: bool, script: Seq<char> },
    RunningScript { index: nat, is_dependency: bool },
    CreatingTempDir,
    Cloning,
    Pushing,
    Enabling,
    Stopping { then_erase: bool },
    Erasing,
    Finished,
}

impl View for Phase {
    type V = PhaseView;

    open spec fn view(&self) -> PhaseView {
        match self {
            Phase::Start => PhaseView::Start,
            Phase::Loading { index } => PhaseView::Loading { index: *index as nat },
            Phase::Checking { index, dependency } => PhaseView::Checking {
                index: *index as nat,
                dependency: match dependency {
                    Some(s) => Some(s@),
                    None => None,
                },
            },
            Phase::Rendering { env } => PhaseView::Rendering { env: env@ },
            Phase::TransferringEnv => PhaseView::TransferringEnv,
            Phase::TransferringScript { index, is_dependency, script } => PhaseView::TransferringScript {
                index: *index as nat,
                is_dependency: *is_dependency,
                script: script@,
            },
            Phase::RunningScript { index, is_dependency } => PhaseView::RunningScript {
                index: *index as nat,
                is_dependency: *is_dependency,
            },
            Phase::CreatingTempDir => PhaseView::CreatingTempDir,
            Phase::Cloning => PhaseView::Cloning,
            Phase::Pushing => PhaseView::Pushing,
            Phase::Enabling => PhaseView::Enabling,
            Phase::Stopping { then_erase } => PhaseView::Stopping { then_erase: *then_erase },
            Phase::Erasing => PhaseView::Erasing,
            Phase::Finished => PhaseView::Finished,
        }
    }
}

/// A deployment of a service to a target.
pub struct Deployment {
    task: Task,
    service: Service,
    target: Target,
    phase: Phase,
}

/// The mathematical value of a [`Deployment`].
pub struct DeploymentView {
    pub task: Task,
    pub service: ServiceView,
    pub target: TargetView,
    pub phase: PhaseView,
}

impl View for Deployment {
    type V = DeploymentView;

    closed spec fn view(&self) -> DeploymentView {
        DeploymentView {
            task: self.task,
            service: self.service@,
            target: self.target@,
            phase: self.phase@,
        }
    }
}

// ----- The decisions, as spec functions -----

/// The command that checks whether `s` exists on the target.
pub open spec fn check_exists(s: ServiceView) -> ActionView {
    ActionView::RemoteExec(transpiled(ShellCommand::CheckIfServiceExists, s.name, s.is_tool()))
}

/// Installing from dependency `index` on: read the next dependency's service
/// file, or, when all are installed, check for the service itself.
pub open spec fn install_from(svc: ServiceView, index: nat) -> (PhaseView, ActionView) {
    if index < svc.dependencies.len() {
        (PhaseView::Loading { index }, ActionView::LoadService(svc.dependencies[index as int]))
    } else {
        (PhaseView::Checking { index, dependency: None }, check_exists(svc))
    }
}

/// Pushing the service: a service that is not a git repository is not
/// pushed, and the deployment succeeds.
pub open spec fn begin_push(svc: ServiceView) -> (PhaseView, ActionView) {
    if svc.source is Git {
        (PhaseView::CreatingTempDir, ActionView::CreateTempDir)
    } else {
        (PhaseView::Finished, ActionView::Finish(Ok(())))
    }
}

/// After a service is installed (or found installed): the next dependency,
/// or, after the service itself, the push.
pub open spec fn after_install(svc: ServiceView, index: nat, dependency: bool) -> (
    PhaseView,
    ActionView,
) {
    if dependency {
        install_from(svc, index + 1)
    } else {
        begin_push(svc)
    }
}

/// The values the configuration templates of `s` are rendered with.
pub open spec fn starter_configs(s: ServiceView, t: TargetView) -> Seq<(Seq<char>, Seq<char>)> {
    let port: u32 = match s.source {
        SourceView::Git { port, .. } => port,
        SourceView::Tool { .. } => 0,
    };
    seq![
        ("name"@, s.name),
        ("port"@, decimal(port as nat)),
        ("cmd"@, startup_cmd(s.kind)),
        ("username"@, t.username),
    ]
}

/// Installing `s`, found missing on the target: a git service has its
/// configuration rendered; a tool has its install script uploaded.
pub open spec fn install_missing(s: ServiceView, t: TargetView, index: nat, dependency: bool) -> (
    PhaseView,
    ActionView,
) {
    match s.source {
        SourceView::Git { env, .. } => (
            PhaseView::Rendering { env },
            ActionView::RenderConfigs(starter_configs(s, t)),
        ),
        SourceView::Tool { install } => (
            PhaseView::TransferringScript { index, is_dependency: dependency, script: install },
            ActionView::Transfer(install),
        ),
    }
}

/// `git clone <repo> <dir>`.
pub open spec fn clone_process(repo: Seq<char>, dir: Seq<char>) -> ProcessView {
    ProcessView { program: "git"@, args: seq!["clone"@, repo, dir], envs: seq![] }
}

/// `git push <address>`, with ssh told to use the target's identity.
pub open spec fn push_process(t: TargetView) -> ProcessView {
    ProcessView {
        program: "git"@,
        args: seq!["push"@, t.address],
        envs: seq![("GIT_SSH_COMMAND"@, "ssh -i "@ + t.identity)],
    }
}

/// The repository of a source; empty for a tool.
pub open spec fn repo_of(source: SourceView) -> Seq<char> {
    match source {
        SourceView::Git { repo, .. } => repo,
        SourceView::Tool { .. } => Seq::empty(),
    }
}

/// The command that carries out `cmd` for the deployment's service.
pub open spec fn service_command(svc: ServiceView, cmd: ShellCommand) -> ActionView {
    ActionView::RemoteExec(transpiled(cmd, svc.name, svc.is_tool()))
}

/// Whether a deployment in `phase` expects the event `e`.
pub open spec fn expects(phase: PhaseView, e: EventView) -> bool {
    match e {
        EventView::Started => phase is Start,
        EventView::Failed(_) => !(phase is Start) && !(phase is Finished),
        EventView::ServiceLoaded(_) => phase is Loading,
        EventView::Succeeded => {
            ||| phase is Checking
            ||| phase is Rendering
            ||| phase is TransferringScript
            ||| phase is RunningScript
            ||| phase is Enabling
            ||| phase is Stopping
            ||| phase is Erasing
        },
        EventView::TempDirCreated(_) => phase is CreatingTempDir,
        EventView::ProcessExited(_) => phase is Cloning || phase is Pushing,
    }
}

/// The first step of a deployment.
pub open spec fn start(d: DeploymentView) -> (PhaseView, ActionView) {
    let svc = d.service;
    match d.task {
        Task::Up => install_from(svc, 0),
        Task::Push => begin_push(svc),
        Task::Down => if svc.is_tool() {
            (PhaseView::Finished, ActionView::Finish(Err(DeployError::CannotPullToolDown)))
        } else {
            (PhaseView::Stopping { then_erase: false }, service_command(svc, ShellCommand::StopService))
        },
        Task::Erase => if svc.is_tool() {
            (PhaseView::Finished, ActionView::Finish(Err(DeployError::CannotEraseTool)))
        } else {
            (PhaseView::Stopping { then_erase: true }, service_command(svc, ShellCommand::StopService))
        },
    }
}

/// The phase and the action that follow event `e` in deployment `d`.
pub open spec fn next(d: DeploymentView, e: EventView) -> (PhaseView, ActionView) {
    let svc = d.service;
    match e {
        EventView::Started => start(d),
        EventView::Failed(err) => match d.phase {
            PhaseView::Checking { index, dependency } => match dependency {
                Some(dep) => install_missing(dep, d.target, index, true),
                None => install_missing(svc, d.target, index, false),
            },
            _ => (PhaseView::Finished, ActionView::Finish(Err(err))),
        },
        EventView::ServiceLoaded(dep) => match d.phase {
            PhaseView::Loading { index } => (
                PhaseView::Checking { index, dependency: Some(dep) },
                check_exists(dep),
            ),
            _ => (d.phase, ActionView::Finish(Ok(()))),
        },
        EventView::Succeeded => match d.phase {
            PhaseView::Checking { index, dependency } => after_install(
                svc,
                index,
                dependency is Some,
            ),
            PhaseView::Rendering { env } => (PhaseView::TransferringEnv, ActionView::Transfer(env)),
            PhaseView::TransferringScript { index, is_dependency, script } => (
                PhaseView::RunningScript { index, is_dependency },
                ActionView::RemoteExec(script_once(script)),
            ),
            PhaseView::RunningScript { index, is_dependency } => after_install(svc, index, is_dependency),
            PhaseView::Stopping { then_erase } => if then_erase {
                (PhaseView::Erasing, service_command(svc, ShellCommand::EraseService))
            } else {
                (PhaseView::Finished, ActionView::Finish(Ok(())))
            },
            _ => (PhaseView::Finished, ActionView::Finish(Ok(()))),
        },
        EventView::TempDirCreated(dir) => (
            PhaseView::Cloning,
            ActionView::RunProcess(clone_process(repo_of(svc.source), dir)),
        ),
        EventView::ProcessExited(ok) => match d.phase {
            PhaseView::Cloning => if ok {
                (PhaseView::Pushing, ActionView::RunProcess(push_process(d.target)))
            } else {
                (PhaseView::Finished, ActionView::Finish(Err(DeployError::GitCloneFailed)))
            },
            _ => if ok {
                (PhaseView::Enabling, service_command(svc, ShellCommand::EnableAndStartService))
            } else {
                (PhaseView::Finished, ActionView::Finish(Err(DeployError::GitPushFailed)))
            },
        },
    }
}

/// The invariant of a deployment: the phase fits the task, and the index of
/// the dependency being installed is in range (the service itself comes
/// after all of them).
pub open spec fn wf(d: DeploymentView) -> bool {
    let n: nat = d.service.dependencies.len();
    match d.phase {
        PhaseView::Loading { index } => d.task == Task::Up && index < n,
        PhaseView::Checking { index, dependency } => {
            &&& d.task == Task::Up
            &&& dependency is Some ==> index < n
            &&& dependency is None ==> index == n
        },
        PhaseView::TransferringScript { index, is_dependency, .. } => {
            &&& d.task == Task::Up
            &&& is_dependency ==> index < n
            &&& !is_dependency ==> index == n
        },
        PhaseView::RunningScript { index, is_dependency } => {
            &&& d.task == Task::Up
            &&& is_dependency ==> index < n
            &&& !is_dependency ==> index == n
        },
        PhaseView::Rendering { .. } => d.task == Task::Up,
        PhaseView::TransferringEnv => d.task == Task::Up,
        PhaseView::CreatingTempDir | PhaseView::Cloning | PhaseView::Pushing | PhaseView::Enabling => {
            &&& d.service.source is Git
            &&& d.task == Task::Up || d.task == Task::Push
        },
        PhaseView::Stopping { then_erase } => {
            &&& d.task == Task::Down || d.task == Task::Erase
            &&& then_erase == (d.task == Task::Erase)
            &&& !d.service.is_tool()
        },
        PhaseView::Erasing => d.task == Task::Erase && !d.service.is_tool(),
        _ => true,
    }
}


// ----- The decisions, executed -----

fn check_exists_action(s: &Service) -> (a: Action)
    ensures
        a@ == check_exists(s@),
{
    Action::RemoteExec(Os::transpile(ShellCommand::CheckIfServiceExists, s))
}

fn service_action(s: &Service, cmd: ShellCommand) -> (a: Action)
    ensures
        a@ == service_command(s@, cmd),
{
    Action::RemoteExec(Os::transpile(cmd, s))
}

fn exec_install_from(svc: &Service, index: usize) -> (r: (Phase, Action))
    requires
        index <= svc@.dependencies.len(),
    ensures
        (r.0@, r.1@) == install_from(svc@, index as nat),
{
    let deps = svc.dependencies();
    if index < deps.len() {
        proof {
            assert(deps@.map_values(|p: String| p@)[index as int] == deps@[index as int]@);
        }
        (Phase::Loading { index }, Action::LoadService(deps[index].clone()))
    } else {
        (Phase::Checking { index, dependency: None }, check_exists_action(svc))
    }
}

fn exec_begin_push(svc: &Service) -> (r: (Phase, Action))
    ensures
        (r.0@, r.1@) == begin_push(svc@),
{
    if svc.source().is_git() {
        (Phase::CreatingTempDir, Action::CreateTempDir)
    } else {
        (Phase::Finished, Action::Finish(Ok(())))
    }
}

fn exec_after_install(svc: &Service, index: usize, dependency: bool) -> (r: (Phase, Action))
    requires
        dependency ==> index < svc@.dependencies.len(),
    ensures
        (r.0@, r.1@) == after_install(svc@, index as nat, dependency),
{
    if dependency {
        let n: usize = svc.dependencies().len();
        assert(index < n);
        exec_install_from(svc, index + 1)
    } else {
        exec_begin_push(svc)
    }
}

/// The values the configuration templates of `s` are rendered with on
/// target `t`: its name, its port, the command that starts it and the user
/// name of the target.
pub fn make_starter_configs(s: &Service, t: &Target) -> (c: Vec<(String, String)>)
    ensures
        c@.map_values(|e: (String, String)| (e.0@, e.1@)) == starter_configs(s@, t@),
{
    let port: u32 = match s.source().get_port() {
        Some(p) => p,
        None => 0,
    };
    let mut c: Vec<(String, String)> = Vec::new();
    c.push((String::from_str("name"), s.name().clone()));
    c.push((String::from_str("port"), u32_to_decimal(port)));
    c.push((String::from_str("cmd"), String::from_str(s.kind().get_startup_cmd())));
    c.push((String::from_str("username"), t.username().clone()));
    assert(c@.map_values(|e: (String, String)| (e.0@, e.1@)) =~= starter_configs(s@, t@));
    c
}

fn exec_install_missing(s: &Service, t: &Target, index: usize, dependency: bool) -> (r: (
    Phase,
    Action,
))
    ensures
        (r.0@, r.1@) == install_missing(s@, t@, index as nat, dependency),
{
    match s.source() {
        SourceType::Git { env, .. } => (
            Phase::Rendering { env: env.clone() },
            Action::RenderConfigs(make_starter_configs(s, t)),
        ),
        SourceType::Tool { install } => (
            Phase::TransferringScript { index, is_dependency: dependency, script: install.clone() },
            Action::Transfer(install.clone()),
        ),
    }
}

fn make_clone_process(repo: &String, dir: String) -> (p: ProcessSpec)
    ensures
        p@ == clone_process(repo@, dir@),
{
    let mut args: Vec<String> = Vec::new();
    args.push(String::from_str("clone"));
    args.push(repo.clone());
    args.push(dir);
    let p = ProcessSpec { program: String::from_str("git"), args, envs: Vec::new() };
    assert(p@.args =~= seq!["clone"@, repo@, dir@]);
    assert(p@.envs =~= Seq::<(Seq<char>, Seq<char>)>::empty());
    p
}

fn make_push_process(t: &Target) -> (p: ProcessSpec)
    ensures
        p@ == push_process(t@),
{
    let mut args: Vec<String> = Vec::new();
    args.push(String::from_str("push"));
    args.push(t.address().clone());
    let mut envs: Vec<(String, String)> = Vec::new();
    envs.push(
        (String::from_str("GIT_SSH_COMMAND"), String::from_str("ssh -i ").concat(t.identity().as_str())),
    );
    let p = ProcessSpec { program: String::from_str("git"), args, envs };
    assert(p@.args =~= seq!["push"@, t@.address]);
    assert(p@.envs =~= seq![("GIT_SSH_COMMAND"@, "ssh -i "@ + t@.identity)]);
    p
}

impl Deployment {
    #[verifier::type_invariant]
    closed spec fn well_formed(self) -> bool {
        wf(self@)
    }

    /// A deployment of `service` to `target` that does `task`, not begun.
    pub fn new(task: Task, service: Service, target: Target) -> (d: Deployment)
        ensures
            d@ == (DeploymentView {
                task,
                service: service@,
                target: target@,
                phase: PhaseView::Start,
            }),
    {
        Deployment { task, service, target, phase: Phase::Start }
    }

    /// What the deployment does.
    pub fn task(&self) -> (t: Task)
        ensures
            t == self@.task,
    {
        self.task
    }

    /// The service deployed.
    pub fn service(&self) -> (s: &Service)
        ensures
            s@ == self@.service,
    {
        &self.service
    }

    /// The target deployed to.
    pub fn target(&self) -> (t: &Target)
        ensures
            t@ == self@.target,
    {
        &self.target
    }

    /// Whether the deployment is over.
    pub fn is_finished(&self) -> (b: bool)
        ensures
            b == (self@.phase is Finished),
    {
        match self.phase {
            Phase::Finished => true,
            _ => false,
        }
    }

    /// Whether the deployment, where it stands, expects the event `e`.
    pub fn expects(&self, e: &Event) -> (b: bool)
        ensures
            b == expects(self@.phase, e@),
    {
        match e {
            Event::Started => match self.phase {
                Phase::Start => true,
                _ => false,
            },
            Event::Failed(_) => match self.phase {
                Phase::Start | Phase::Finished => false,
                _ => true,
            },
            Event::ServiceLoaded(_) => match self.phase {
                Phase::Loading { .. } => true,
                _ => false,
            },
            Event::Succeeded => match self.phase {
                Phase::Checking { .. } | Phase::Rendering { .. }
                | Phase::TransferringScript { .. } | Phase::RunningScript { .. } | Phase::Enabling
                | Phase::Stopping { .. } | Phase::Erasing => true,
                _ => false,
            },
            Event::TempDirCreated(_) => match self.phase {
                Phase::CreatingTempDir => true,
                _ => false,
            },
            Event::ProcessExited(_) => match self.phase {
                Phase::Cloning | Phase::Pushing => true,
                _ => false,
            },
        }
    }

    /// Takes in what happened and answers with the next thing to do.
    pub fn step(self, e: Event) -> (r: (Deployment, Action))
        requires
            expects(self@.phase, e@),
        ensures
            r.0@ == (DeploymentView { phase: next(self@, e@).0, ..self@ }),
            r.1@ == next(self@, e@).1,
    {
        proof {
            use_type_invariant(&self);
        }
        let Deployment { task, service, target, phase } = self;
        let (phase2, action): (Phase, Action) = match e {
            Event::Started => match task {
                Task::Up => exec_install_from(&service, 0),
                Task::Push => exec_begin_push(&service),
                Task::Down => if service.source().is_tool() {
                    (Phase::Finished, Action::Finish(Err(DeployError::CannotPullToolDown)))
                } else {
                    (Phase::Stopping { then_erase: false }, service_action(&service, ShellCommand::StopService))
                },
                Task::Erase => if service.source().is_tool() {
                    (Phase::Finished, Action::Finish(Err(DeployError::CannotEraseTool)))
                } else {
                    (Phase::Stopping { then_erase: true }, service_action(&service, ShellCommand::StopService))
                },
            },
            Event::Failed(err) => match phase {
                Phase::Checking { index, dependency } => match dependency {
                    Some(dep) => exec_install_missing(&dep, &target, index, true),
                    None => exec_install_missing(&service, &target, index, false),
                },
                _ => (Phase::Finished, Action::Finish(Err(err))),
            },
            Event::ServiceLoaded(dep) => match phase {
                Phase::Loading { index } => {
                    let a = check_exists_action(&dep);
                    (Phase::Checking { index, dependency: Some(dep) }, a)
                },
                _ => (phase, Action::Finish(Ok(()))),
            },
            Event::Succeeded => match phase {
                Phase::Checking { index, dependency } => {
                    let is_dep = match dependency {
                        Some(_) => true,
                        None => false,
                    };
                    exec_after_install(&service, index, is_dep)
                },
                Phase::Rendering { env } => (Phase::TransferringEnv, Action::Transfer(env)),
                Phase::TransferringScript { index, is_dependency, script } => (
                    Phase::RunningScript { index, is_dependency },
                    Action::RemoteExec(Os::exec_script_once(script.as_str())),
                ),
                Phase::RunningScript { index, is_dependency } => exec_after_install(
                    &service,
                    index,
                    is_dependency,
                ),
                Phase::Stopping { then_erase } => if then_erase {
                    (Phase::Erasing, service_action(&service, ShellCommand::EraseService))
                } else {
                    (Phase::Finished, Action::Finish(Ok(())))
                },
                _ => (Phase::Finished, Action::Finish(Ok(()))),
            },
            Event::TempDirCreated(dir) => {
                let p = match service.source() {
                    SourceType::Git { repo, .. } => make_clone_process(repo, dir),
                    SourceType::Tool { .. } => make_clone_process(&String::new(), dir),
                };
                (Phase::Cloning, Action::RunProcess(p))
            },
            Event::ProcessExited(ok) => match phase {
                Phase::Cloning => if ok {
                    (Phase::Pushing, Action::RunProcess(make_push_process(&target)))
                } else {
                    (Phase::Finished, Action::Finish(Err(DeployError::GitCloneFailed)))
                },
                _ => if ok {
                    (Phase::Enabling, service_action(&service, ShellCommand::EnableAndStartService))
                } else {
                    (Phase::Finished, Action::Finish(Err(DeployError::GitPushFailed)))
                },
            },
        };
        proof {
            lemma_next_keeps_wf(
                DeploymentView { task, service: service@, target: target@, phase: phase@ },
                e@,
            );
        }
        (Deployment { task, service, target, phase: phase2 }, action)
    }
}

// ----- Laws -----

/// Every step keeps a deployment well formed.
pub proof fn lemma_next_keeps_wf(d: DeploymentView, e: EventView)
    requires
        wf(d),
        expects(d.phase, e),
    ensures
        wf(DeploymentView { phase: next(d, e).0, ..d }),
{
}

/// How far the installation of dependencies has come: the index of the
/// dependency being installed, or the number of dependencies once the
/// service itself is reached.
pub open spec fn progress(d: DeploymentView) -> nat {
    match d.phase {
        PhaseView::Start => 0,
        PhaseView::Loading { index } => index,
        PhaseView::Checking { index, .. } => index,
        PhaseView::TransferringScript { index, .. } => index,
        PhaseView::RunningScript { index, .. } => index,
        _ => d.service.dependencies.len(),
    }
}

/// Dependencies are installed one by one, in the order the service lists
/// them, and before the service itself: the progress never goes back, and
/// a dependency's service file is read only when its turn has come, right
/// after the previous dependency.
pub proof fn lemma_dependencies_in_order(d: DeploymentView, e: EventView)
    requires
        wf(d),
        expects(d.phase, e),
    ensures
        progress(d) <= progress(DeploymentView { phase: next(d, e).0, ..d }),
        next(d, e).1 matches ActionView::LoadService(path) ==> {
            let i: nat = progress(DeploymentView { phase: next(d, e).0, ..d });
            &&& next(d, e).0 == PhaseView::Loading { index: i }
            &&& i < d.service.dependencies.len()
            &&& path == d.service.dependencies[i as int]
            &&& (d.phase is Start && i == 0) || (!(d.phase is Start) && i == progress(d) + 1)
        },
        next(d, e).0 matches PhaseView::Checking { dependency: None, .. } ==> progress(
            DeploymentView { phase: next(d, e).0, ..d },
        ) == d.service.dependencies.len(),
{
}

/// A tool is never stopped nor erased: a deployment that would stop or
/// erase one fails at once, without a command on the target.
pub proof fn lemma_tool_is_never_stopped(d: DeploymentView)
    requires
        d.phase is Start,
        d.service.is_tool(),
        d.task == Task::Down || d.task == Task::Erase,
    ensures
        next(d, EventView::Started) == (if d.task == Task::Down {
            (PhaseView::Finished, ActionView::Finish(Err(DeployError::CannotPullToolDown)))
        } else {
            (PhaseView::Finished, ActionView::Finish(Err(DeployError::CannotEraseTool)))
        }),
{
}

/// Erasing a service stops it first, then removes its files.
pub proof fn lemma_erase_stops_first(d: DeploymentView)
    requires
        d.phase is Start,
        d.task == Task::Erase,
        !d.service.is_tool(),
    ensures
        next(d, EventView::Started) == (
            PhaseView::Stopping { then_erase: true },
            service_command(d.service, ShellCommand::StopService),
        ),
        next(DeploymentView { phase: PhaseView::Stopping { then_erase: true }, ..d }, EventView::Succeeded)
            == (PhaseView::Erasing, service_command(d.service, ShellCommand::EraseService)),
{
}

/// Pushing a service that is not a git repository does nothing and
/// succeeds.
pub proof fn lemma_push_skips_non_git(d: DeploymentView)
    requires
        d.phase is Start,
        d.task == Task::Push,
        !(d.service.source is Git),
    ensures
        next(d, EventView::Started) == (PhaseView::Finished, ActionView::Finish(Ok(()))),
{
}

/// A failure ends the deployment with that very error, except a failed
/// existence check, which means the service is missing and gets installed.
pub proof fn lemma_failure_ends_deployment(d: DeploymentView, err: DeployError)
    requires
        wf(d),
        expects(d.phase, EventView::Failed(err)),
        !(d.phase is Checking),
    ensures
        next(d, EventView::Failed(err)) == (PhaseView::Finished, ActionView::Finish(Err(err))),
{
}

/// A service found missing is installed: from its install script when it is
/// a tool, from its rendered configuration when it comes from git. A service
/// found present is not installed again.
pub proof fn lemma_missing_service_is_installed(d: DeploymentView, e: EventView)
    requires
        wf(d),
        d.phase is Checking,
        expects(d.phase, e),
    ensures
        ({
            let s = match d.phase {
                PhaseView::Checking { dependency: Some(dep), .. } => dep,
                _ => d.service,
            };
            match e {
                EventView::Failed(_) => match s.source {
                    SourceView::Tool { install } => next(d, e).1 == ActionView::Transfer(install),
                    SourceView::Git { .. } => next(d, e).1 == ActionView::RenderConfigs(
                        starter_configs(s, d.target),
                    ),
                },
                _ => !(next(d, e).1 is Transfer) && !(next(d, e).1 is RenderConfigs),
            }
        }),
{
}

/// A finished deployment expects nothing more.
pub proof fn lemma_finished_is_final(d: DeploymentView, e: EventView)
    requires
        d.phase is Finished,
    ensures
        !expects(d.phase, e),
{
}

/// Installing a git service found missing is not implemented: once the
/// upload of its environment file is under way, the only event expected is
/// a failure, which ends the deployment with that error.
pub proof fn lemma_git_install_stops_after_env_upload(d: DeploymentView, e: EventView)
    requires
        d.phase is TransferringEnv,
    ensures
        expects(d.phase, e) <==> e is Failed,
        e matches EventView::Failed(err) ==> next(d, e) == (
            PhaseView::Finished,
            ActionView::Finish(Err(err)),
        ),
{
}

/// The command line that starts a service of kind `k`.
pub open spec fn kind_command(k: ServiceKind) -> Seq<char> {
    match k {
        ServiceKind::Node => "node src/index.js"@,
        ServiceKind::Rust => "cargo run --release"@,
        ServiceKind::Maven => "mvn run"@,
        ServiceKind::JavaJar => "java --jar main.jar"@,
    }
}

/// The existence check of a service named `name`: a tool is looked up as a
/// command, any other service by its systemd unit file.
pub open spec fn existence_check_text(name: Seq<char>, tool: bool) -> Seq<char> {
    if tool {
        "command -v "@ + name
    } else {
        "[ -e /etc/systemd/system/"@ + name + ".service ]"@
    }
}

/// A dependency, once its service file is read, is checked for on the
/// target by its own source: a git dependency by its systemd unit file, a
/// tool by its command.
pub proof fn lemma_loaded_dependency_is_checked(d: DeploymentView, dep: ServiceView)
    requires
        d.phase is Loading,
    ensures
        next(d, EventView::ServiceLoaded(dep)) == (
            PhaseView::Checking { index: d.phase->Loading_index, dependency: Some(dep) },
            ActionView::RemoteExec(existence_check_text(dep.name, dep.source is Tool)),
        ),
{
}

/// `Up` begins with the first dependency's service file, or, without
/// dependencies, with the existence check of the service itself.
pub proof fn lemma_up_begins_with_first_dependency(d: DeploymentView)
    requires
        d.phase is Start,
        d.task == Task::Up,
    ensures
        d.service.dependencies.len() > 0 ==> next(d, EventView::Started) == (
            PhaseView::Loading { index: 0 },
            ActionView::LoadService(d.service.dependencies[0]),
        ),
        d.service.dependencies.len() == 0 ==> next(d, EventView::Started) == (
            PhaseView::Checking { index: 0, dependency: None },
            ActionView::RemoteExec(existence_check_text(d.service.name, d.service.source is Tool)),
        ),
{
}

/// Once dependency `index` is in place (found, or installed by its script),
/// the next dependency's service file is read; after the last one, the
/// service itself is checked for.
pub proof fn lemma_next_dependency_after_install(d: DeploymentView, e: EventView)
    requires
        wf(d),
        e == EventView::Succeeded,
        (d.phase matches PhaseView::Checking { dependency: Some(_), .. }) || (
        d.phase matches PhaseView::RunningScript { is_dependency: true, .. }),
    ensures
        ({
            let i = progress(d);
            let deps = d.service.dependencies;
            &&& i + 1 < deps.len() ==> next(d, e) == (
                PhaseView::Loading { index: i + 1 },
                ActionView::LoadService(deps[(i + 1) as int]),
            )
            &&& i + 1 == deps.len() ==> next(d, e) == (
                PhaseView::Checking { index: i + 1, dependency: None },
                ActionView::RemoteExec(existence_check_text(d.service.name, d.service.source is Tool)),
            )
        }),
{
}

/// Once the service itself is in place, a git service is pushed (starting
/// with the directory for its clone) and a tool ends the deployment
/// successfully.
pub proof fn lemma_push_after_service_installed(d: DeploymentView, e: EventView)
    requires
        wf(d),
        e == EventView::Succeeded,
        (d.phase matches PhaseView::Checking { dependency: None, .. }) || (
        d.phase matches PhaseView::RunningScript { is_dependency: false, .. }),
    ensures
        d.service.source is Git ==> next(d, e) == (PhaseView::CreatingTempDir, ActionView::CreateTempDir),
        d.service.source is Tool ==> next(d, e) == (PhaseView::Finished, ActionView::Finish(Ok(()))),
{
}

/// A tool found missing is installed by uploading its install script, then
/// running that script once on the target.
pub proof fn lemma_missing_tool_runs_its_script(d: DeploymentView, err: DeployError, script: Seq<char>)
    requires
        wf(d),
        d.phase is Checking,
        ({
            let s = match d.phase {
                PhaseView::Checking { dependency: Some(dep), .. } => dep,
                _ => d.service,
            };
            s.source == SourceView::Tool { install: script }
        }),
    ensures
        next(d, EventView::Failed(err)).1 == ActionView::Transfer(script),
        next(DeploymentView { phase: next(d, EventView::Failed(err)).0, ..d }, EventView::Succeeded).1
            == ActionView::RemoteExec(
            "chmod +x "@ + script + " && ./"@ + script + " && rm -rf "@ + script,
        ),
{
}

/// The values the configuration of a git service is rendered with: its
/// name, the decimal text of its port, the command that starts its kind,
/// and the user name of the target.
pub proof fn lemma_starter_config_values(s: ServiceView, t: TargetView)
    requires
        s.source is Git,
    ensures
        starter_configs(s, t) == seq![
            ("name"@, s.name),
            ("port"@, decimal(s.source->Git_port as nat)),
            ("cmd"@, kind_command(s.kind)),
            ("username"@, t.username),
        ],
{
}

/// A git service found missing has its configuration rendered with its own
/// values, then its environment file uploaded.
pub proof fn lemma_missing_git_service_renders(d: DeploymentView, err: DeployError)
    requires
        wf(d),
        d.phase is Checking,
        ({
            let s = match d.phase {
                PhaseView::Checking { dependency: Some(dep), .. } => dep,
                _ => d.service,
            };
            s.source is Git
        }),
    ensures
        ({
            let s = match d.phase {
                PhaseView::Checking { dependency: Some(dep), .. } => dep,
                _ => d.service,
            };
            let n1 = next(d, EventView::Failed(err));
            &&& n1 == (
                PhaseView::Rendering { env: s.source->Git_env },
                ActionView::RenderConfigs(
                    seq![
                        ("name"@, s.name),
                        ("port"@, decimal(s.source->Git_port as nat)),
                        ("cmd"@, kind_command(s.kind)),
                        ("username"@, d.target.username),
                    ],
                ),
            )
            &&& next(DeploymentView { phase: n1.0, ..d }, EventView::Succeeded) == (
                PhaseView::TransferringEnv,
                ActionView::Transfer(s.source->Git_env),
            )
        }),
{
}

/// Pushing a git service, whatever its dependencies, begins with the
/// directory its repository is cloned into.
pub proof fn lemma_push_of_git_service_begins(d: DeploymentView)
    requires
        d.phase is Start,
        d.task == Task::Push,
        d.service.source is Git,
    ensures
        next(d, EventView::Started) == (PhaseView::CreatingTempDir, ActionView::CreateTempDir),
{
}

/// A push clones the service's repository into the new directory, pushes it
/// to the target's address with ssh using the target's identity, enables
/// and restarts the service's systemd unit, and succeeds; a failed clone or
/// push ends it with that failure.
pub proof fn lemma_push_steps(d: DeploymentView, dir: Seq<char>)
    requires
        wf(d),
        d.service.source is Git,
    ensures
        next(DeploymentView { phase: PhaseView::CreatingTempDir, ..d }, EventView::TempDirCreated(dir))
            == (
            PhaseView::Cloning,
            ActionView::RunProcess(
                ProcessView {
                    program: "git"@,
                    args: seq!["clone"@, d.service.source->Git_repo, dir],
                    envs: seq![],
                },
            ),
        ),
        next(DeploymentView { phase: PhaseView::Cloning, ..d }, EventView::ProcessExited(true)) == (
            PhaseView::Pushing,
            ActionView::RunProcess(
                ProcessView {
                    program: "git"@,
                    args: seq!["push"@, d.target.address],
                    envs: seq![("GIT_SSH_COMMAND"@, "ssh -i "@ + d.target.identity)],
                },
            ),
        ),
        next(DeploymentView { phase: PhaseView::Cloning, ..d }, EventView::ProcessExited(false)) == (
            PhaseView::Finished,
            ActionView::Finish(Err(DeployError::GitCloneFailed)),
        ),
        next(DeploymentView { phase: PhaseView::Pushing, ..d }, EventView::ProcessExited(true)) == (
            PhaseView::Enabling,
            ActionView::RemoteExec(
                "sudo systemctl enable "@ + d.service.name + ".service && sudo systemctl restart "@
                    + d.service.name + ".service"@,
            ),
        ),
        next(DeploymentView { phase: PhaseView::Pushing, ..d }, EventView::ProcessExited(false)) == (
            PhaseView::Finished,
            ActionView::Finish(Err(DeployError::GitPushFailed)),
        ),
        next(DeploymentView { phase: PhaseView::Enabling, ..d }, EventView::Succeeded) == (
            PhaseView::Finished,
            ActionView::Finish(Ok(())),
        ),
{
}

/// `Down` of a service that is not a tool stops its systemd unit, whatever
/// its name, and succeeds once that is done.
pub proof fn lemma_down_stops_the_unit(d: DeploymentView)
    requires
        d.phase is Start,
        d.task == Task::Down,
        !(d.service.source is Tool),
    ensures
        next(d, EventView::Started) == (
            PhaseView::Stopping { then_erase: false },
            ActionView::RemoteExec("sudo systemctl stop "@ + d.service.name + ".service "@),
        ),
        next(DeploymentView { phase: PhaseView::Stopping { then_erase: false }, ..d }, EventView::Succeeded)
            == (PhaseView::Finished, ActionView::Finish(Ok(()))),
{
}

/// `Erase` of a service that is not a tool stops its systemd unit, then
/// removes the unit file, its folder and its startup script, and succeeds.
pub proof fn lemma_erase_commands(d: DeploymentView)
    requires
        d.phase is Start,
        d.task == Task::Erase,
        !(d.service.source is Tool),
    ensures
        next(d, EventView::Started) == (
            PhaseView::Stopping { then_erase: true },
            ActionView::RemoteExec("sudo systemctl stop "@ + d.service.name + ".service "@),
        ),
        next(DeploymentView { phase: PhaseView::Stopping { then_erase: true }, ..d }, EventView::Succeeded)
            == (
            PhaseView::Erasing,
            ActionView::RemoteExec(
                "rm -rf /etc/systemd/system/"@ + d.service.name + ".service && rm -rf "@
                    + d.service.name + " && rm -rf "@ + d.service.name + "-startup.sh"@,
            ),
        ),
        next(DeploymentView { phase: PhaseView::Erasing, ..d }, EventView::Succeeded) == (
            PhaseView::Finished,
            ActionView::Finish(Ok(())),
        ),
{
}

} // verus!
