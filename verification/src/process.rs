//! Local processes the tool starts: what program, with which arguments and
//! environment.

use vstd::prelude::*;
use crate::error::DeployError;
use crate::service::{Service, ServiceView, SourceView, port_of};
use crate::text::{decimal, u32_to_decimal};

verus! {

/// A local process to start: the program, its arguments and the environment
/// variables set for it, in the order they are set.
#[derive(Debug, Clone, PartialEq, Eq)]
pub struct ProcessSpec {
    pub program: String,
    pub args: Vec<String>,
    pub envs: Vec<(String, String)>,
}

/// The mathematical value of a [`ProcessSpec`].
pub struct ProcessView {
    pub program: Seq<char>,
    pub args: Seq<Seq<char>>,
    pub envs: Seq<(Seq<char>, Seq<char>)>,
}

impl View for ProcessSpec {
    type V = ProcessView;

    open spec fn view(&self) -> ProcessView {
        ProcessView {
            program: self.program@,
            args: self.args@.map_values(|a: String| a@),
            envs: self.envs@.map_values(|e: (String, String)| (e.0@, e.1@)),
        }
    }
}

/// The value of the `SUBPATH` variable for the service named `name`.
pub open spec fn subpath(name: Seq<char>) -> Seq<char> {
    "/"@ + name + "/"@
}

/// The environment a service runs under in development: `PORT` when the
/// service has a port, then `SUBPATH`.
pub open spec fn prepared_envs(name: Seq<char>, port: Option<u32>) -> Seq<(Seq<char>, Seq<char>)> {
    match port {
        Some(p) => seq![("PORT"@, decimal(p as nat)), ("SUBPATH"@, subpath(name))],
        None => seq![("SUBPATH"@, subpath(name))],
    }
}

/// The process that runs a service in development behind the proxy command
/// `proxy_command`: its first word is the program and the rest its
/// arguments. An empty proxy command is refused.
pub fn prepare_process(service: &Service, proxy_command: &Vec<String>) -> (r: Result<
    ProcessSpec,
    DeployError,
>)
    ensures
        proxy_command@.len() == 0 ==> r == Err::<ProcessSpec, DeployError>(DeployError::NoCommand),
        proxy_command@.len() > 0 ==> (r matches Ok(p) && p@ == (ProcessView {
            program: proxy_command@[0]@,
            args: proxy_command@.map_values(|a: String| a@).drop_first(),
            envs: prepared_envs(service@.name, port_of(service@.source)),
        })),
{
    if proxy_command.len() == 0 {
        return Err(DeployError::NoCommand);
    }
    let program = proxy_command[0].clone();
    let mut args: Vec<String> = Vec::new();
    let mut i: usize = 1;
    while i < proxy_command.len()
        invariant
            1 <= i <= proxy_command@.len(),
            args@.len() == i - 1,
            forall|j: int| 0 <= j < args@.len() ==> #[trigger] args@[j] == proxy_command@[j + 1],
        decreases proxy_command@.len() - i,
    {
        args.push(proxy_command[i].clone());
        i = i + 1;
    }
    assert(args@.map_values(|a: String| a@) =~= proxy_command@.map_values(|a: String| a@).drop_first());
    let mut envs: Vec<(String, String)> = Vec::new();
    let name = service.name().as_str();
    match service.source().get_port() {
        Some(port) => {
            envs.push((String::from_str("PORT"), u32_to_decimal(port)));
        },
        None => {},
    }
    envs.push((String::from_str("SUBPATH"), String::from_str("/").concat(name).concat("/")));
    let p = ProcessSpec { program, args, envs };
    assert(p@.envs =~= prepared_envs(service@.name, port_of(service@.source)));
    Ok(p)
}

/// A service run in development gets `PORT` set to the decimal text of its
/// port, whatever the port, when it has one, then `SUBPATH` set to
/// `/<name>/`; a service without a port gets only `SUBPATH`.
pub proof fn lemma_prepared_envs(name: Seq<char>, port: Option<u32>)
    ensures
        port matches Some(p) ==> {
            &&& prepared_envs(name, port).len() == 2
            &&& prepared_envs(name, port)[0] == ("PORT"@, decimal(p as nat))
            &&& prepared_envs(name, port)[1] == ("SUBPATH"@, "/"@ + name + "/"@)
        },
        port is None ==> prepared_envs(name, port) == seq![("SUBPATH"@, "/"@ + name + "/"@)],
{
}

/// A git service run in development on port `p` gets `PORT` first, with the
/// decimal text of `p`; a tool gets no `PORT`.
pub proof fn lemma_git_service_gets_its_port(s: ServiceView)
    ensures
        s.source matches SourceView::Git { port, .. } ==> prepared_envs(
            s.name,
            port_of(s.source),
        )[0] == ("PORT"@, decimal(port as nat)),
        s.source is Tool ==> forall|i: int|
            0 <= i < prepared_envs(s.name, port_of(s.source)).len() ==> #[trigger] prepared_envs(
                s.name,
                port_of(s.source),
            )[i].0 != "PORT"@,
{
    if s.source is Tool {
        reveal_strlit("PORT");
        reveal_strlit("SUBPATH");
        assert("PORT"@.len() != "SUBPATH"@.len());
    }
}

} // verus!
