//! The shell commands that manage a service on the target host.

use vstd::prelude::*;
use crate::service::{Service, ServiceView};
use crate::connector::systemd_upload_path;

verus! {

/// An operation on a service that is carried out by a shell command on the
/// target host.
#[non_exhaustive]
#[derive(Debug, Clone, Copy, PartialEq, Eq, Structural)]
pub enum ShellCommand {
    CheckIfServiceExists,
    EnableAndStartService,
    StopService,
    EraseService,
    CreateServiceFolder,
    GitInitService,
    CleanupInstallService,
}

/// The command that does nothing.
pub const NO_OP: &'static str = ":";

/// The shell command that carries out `cmd` for a service named `name`;
/// `is_tool` tells whether the service is an installed tool, which is not
/// managed by systemd.
pub open spec fn transpiled(cmd: ShellCommand, name: Seq<char>, is_tool: bool) -> Seq<char> {
    match cmd {
        ShellCommand::CheckIfServiceExists => if is_tool {
            "command -v "@ + name
        } else {
            "[ -e /etc/systemd/system/"@ + name + ".service ]"@
        },
        ShellCommand::EnableAndStartService => if is_tool {
            ":"@
        } else {
            "sudo systemctl enable "@ + name + ".service && sudo systemctl restart "@ + name
                + ".service"@
        },
        ShellCommand::StopService => if is_tool {
            ":"@
        } else {
            "sudo systemctl stop "@ + name + ".service "@
        },
        ShellCommand::EraseService => if is_tool {
            ":"@
        } else {
            "rm -rf /etc/systemd/system/"@ + name + ".service && rm -rf "@ + name + " && rm -rf "@
                + name + "-startup.sh"@
        },
        ShellCommand::CreateServiceFolder => "mkdir "@ + name,
        ShellCommand::GitInitService => "cd "@ + name + " && git init --bare"@,
        ShellCommand::CleanupInstallService => "chmod +x "@ + name
            + "-startup.sh && systemctl daemon-reload && sudo nginx -s reload"@,
    }
}

/// The command that makes a script executable, runs it once and deletes it.
pub open spec fn script_once(path: Seq<char>) -> Seq<char> {
    "chmod +x "@ + path + " && ./"@ + path + " && rm -rf "@ + path
}

/// What an operating system offers to manage services.
pub trait OsLike {
    /// The shell command that carries out `cmd` for `service`.
    fn transpile(cmd: ShellCommand, service: &Service) -> String;

    /// The shell command that runs the script at `script_path` once.
    fn exec_script_once(script_path: &str) -> String;
}

/// A Linux host whose services are managed by systemd.
pub struct Os;

impl OsLike for Os {
    fn transpile(cmd: ShellCommand, service: &Service) -> (s: String)
        ensures
            s@ == transpiled(cmd, service@.name, service@.is_tool()),
    {
        let name = service.name().as_str();
        let is_tool = service.source().is_tool();
        match cmd {
            ShellCommand::CheckIfServiceExists => if is_tool {
                String::from_str("command -v ").concat(name)
            } else {
                String::from_str("[ -e /etc/systemd/system/").concat(name).concat(".service ]")
            },
            ShellCommand::EnableAndStartService => if is_tool {
                String::from_str(NO_OP)
            } else {
                String::from_str("sudo systemctl enable ").concat(name).concat(
                    ".service && sudo systemctl restart ",
                ).concat(name).concat(".service")
            },
            ShellCommand::StopService => if is_tool {
                String::from_str(NO_OP)
            } else {
                String::from_str("sudo systemctl stop ").concat(name).concat(".service ")
            },
            ShellCommand::EraseService => if is_tool {
                String::from_str(NO_OP)
            } else {
                String::from_str("rm -rf /etc/systemd/system/").concat(name).concat(
                    ".service && rm -rf ",
                ).concat(name).concat(" && rm -rf ").concat(name).concat("-startup.sh")
            },
            ShellCommand::CreateServiceFolder => String::from_str("mkdir ").concat(name),
            ShellCommand::GitInitService => String::from_str("cd ").concat(name).concat(
                " && git init --bare",
            ),
            ShellCommand::CleanupInstallService => String::from_str("chmod +x ").concat(
                name,
            ).concat("-startup.sh && systemctl daemon-reload && sudo nginx -s reload"),
        }
    }

    fn exec_script_once(script_path: &str) -> (s: String)
        ensures
            s@ == script_once(script_path@),
    {
        String::from_str("chmod +x ").concat(script_path).concat(" && ./").concat(
            script_path,
        ).concat(" && rm -rf ").concat(script_path)
    }
}

/// A tool is not a systemd service: enabling, stopping and erasing it are
/// the command that does nothing, whatever its name.
pub proof fn lemma_tools_are_not_managed(cmd: ShellCommand, service: ServiceView)
    requires
        service.is_tool(),
        cmd == ShellCommand::EnableAndStartService || cmd == ShellCommand::StopService || cmd
            == ShellCommand::EraseService,
    ensures
        transpiled(cmd, service.name, service.is_tool()) == ":"@,
{
}

/// The commands that create the service's folder, initialise its repository
/// and finish its installation do not depend on whether it is a tool.
pub proof fn lemma_setup_commands_ignore_source(cmd: ShellCommand, name: Seq<char>)
    requires
        cmd == ShellCommand::CreateServiceFolder || cmd == ShellCommand::GitInitService || cmd
            == ShellCommand::CleanupInstallService,
    ensures
        transpiled(cmd, name, true) == transpiled(cmd, name, false),
{
}

/// The existence check of a systemd service tests for the unit file at the
/// path the unit is uploaded to, and erasing the service removes that file
/// first.
pub proof fn lemma_check_and_erase_use_unit_path(name: Seq<char>)
    ensures
        transpiled(ShellCommand::CheckIfServiceExists, name, false) == "[ -e "@
            + systemd_upload_path(name) + " ]"@,
        transpiled(ShellCommand::EraseService, name, false) == "rm -rf "@ + systemd_upload_path(
            name,
        ) + " && rm -rf "@ + name + " && rm -rf "@ + name + "-startup.sh"@,
{
    reveal_strlit("[ -e /etc/systemd/system/");
    reveal_strlit("[ -e ");
    reveal_strlit("/etc/systemd/system/");
    reveal_strlit(".service ]");
    reveal_strlit(".service");
    reveal_strlit(" ]");
    reveal_strlit("rm -rf /etc/systemd/system/");
    reveal_strlit("rm -rf ");
    reveal_strlit(".service && rm -rf ");
    reveal_strlit(" && rm -rf ");
    assert("[ -e /etc/systemd/system/"@ =~= "[ -e "@ + "/etc/systemd/system/"@);
    assert(".service ]"@ =~= ".service"@ + " ]"@);
    assert("rm -rf /etc/systemd/system/"@ =~= "rm -rf "@ + "/etc/systemd/system/"@);
    assert(".service && rm -rf "@ =~= ".service"@ + " && rm -rf "@);
    assert(transpiled(ShellCommand::CheckIfServiceExists, name, false) =~= "[ -e "@
        + systemd_upload_path(name) + " ]"@);
    assert(transpiled(ShellCommand::EraseService, name, false) =~= "rm -rf "@ + systemd_upload_path(
        name,
    ) + " && rm -rf "@ + name + " && rm -rf "@ + name + "-startup.sh"@);
}

/// The commands that manage a systemd service named `name`: its existence
/// check tests for its unit file, it is enabled and restarted, stopped, and
/// erased with its unit file, folder and startup script; these hold for every
/// name.
pub proof fn lemma_systemd_service_commands(name: Seq<char>)
    ensures
        transpiled(ShellCommand::CheckIfServiceExists, name, false) == "[ -e /etc/systemd/system/"@
            + name + ".service ]"@,
        transpiled(ShellCommand::EnableAndStartService, name, false) == "sudo systemctl enable "@
            + name + ".service && sudo systemctl restart "@ + name + ".service"@,
        transpiled(ShellCommand::StopService, name, false) == "sudo systemctl stop "@ + name
            + ".service "@,
        transpiled(ShellCommand::EraseService, name, false) == "rm -rf /etc/systemd/system/"@
            + name + ".service && rm -rf "@ + name + " && rm -rf "@ + name + "-startup.sh"@,
{
}

/// The commands for a tool named `name`: it exists when the shell finds a
/// command of that name, and enabling, stopping and erasing it do nothing.
pub proof fn lemma_tool_commands(name: Seq<char>)
    ensures
        transpiled(ShellCommand::CheckIfServiceExists, name, true) == "command -v "@ + name,
        transpiled(ShellCommand::EnableAndStartService, name, true) == ":"@,
        transpiled(ShellCommand::StopService, name, true) == ":"@,
        transpiled(ShellCommand::EraseService, name, true) == ":"@,
{
}

/// The setup commands of a service named `name`, tool or not: create its
/// folder, make it a bare git repository, and make its startup script
/// executable before reloading systemd and nginx.
pub proof fn lemma_setup_commands(name: Seq<char>, is_tool: bool)
    ensures
        transpiled(ShellCommand::CreateServiceFolder, name, is_tool) == "mkdir "@ + name,
        transpiled(ShellCommand::GitInitService, name, is_tool) == "cd "@ + name
            + " && git init --bare"@,
        transpiled(ShellCommand::CleanupInstallService, name, is_tool) == "chmod +x "@ + name
            + "-startup.sh && systemctl daemon-reload && sudo nginx -s reload"@,
{
}

/// Running a script once makes it executable, runs it from the current
/// directory and deletes it, for every path.
pub proof fn lemma_script_once_command(path: Seq<char>)
    ensures
        script_once(path) == "chmod +x "@ + path + " && ./"@ + path + " && rm -rf "@ + path,
{
}

} // verus!
