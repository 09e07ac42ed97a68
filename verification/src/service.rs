//! The model of a deployable service: where its code comes from, what kind
//! of program it is, and which other services it depends on.

use vstd::prelude::*;

verus! {

/// The kind of program a service runs; it decides the command that starts it.
#[non_exhaustive]
#[derive(Debug, Clone, Copy, PartialEq, Eq, Structural)]
pub enum ServiceKind {
    Node,
    Rust,
    Maven,
    JavaJar,
}

/// The command line that starts a service of the given kind.
pub open spec fn startup_cmd(kind: ServiceKind) -> Seq<char> {
    match kind {
        ServiceKind::Node => "node src/index.js"@,
        ServiceKind::Rust => "cargo run --release"@,
        ServiceKind::Maven => "mvn run"@,
        ServiceKind::JavaJar => "java --jar main.jar"@,
    }
}

impl ServiceKind {
    /// The command line that starts a service of this kind.
    pub fn get_startup_cmd(&self) -> (cmd: &'static str)
        ensures
            cmd@ == startup_cmd(*self),
    {
        match self {
            ServiceKind::Node => "node src/index.js",
            ServiceKind::Rust => "cargo run --release",
            ServiceKind::Maven => "mvn run",
            ServiceKind::JavaJar => "java --jar main.jar",
        }
    }
}

/// Where a service comes from: a git repository that is pushed to the
/// target, or a tool installed on the target by a script.
///
/// Paths and the repository URL are held as their text.
#[non_exhaustive]
#[derive(Debug, Clone, PartialEq, Eq)]
pub enum SourceType {
    Git { repo: String, env: String, port: u32 },
    Tool { install: String },
}

/// The port a source serves on: that of a git repository; a tool has none.
pub open spec fn port_of(source: SourceView) -> Option<u32> {
    match source {
        SourceView::Git { port, .. } => Some(port),
        SourceView::Tool { .. } => None,
    }
}

/// The mathematical value of a [`SourceType`].
pub enum SourceView {
    Git { repo: Seq<char>, env: Seq<char>, port: u32 },
    Tool { install: Seq<char> },
}

impl View for SourceType {
    type V = SourceView;

    open spec fn view(&self) -> SourceView {
        match self {
            SourceType::Git { repo, env, port } => SourceView::Git {
                repo: repo@,
                env: env@,
                port: *port,
            },
            SourceType::Tool { install } => SourceView::Tool { install: install@ },
        }
    }
}

impl SourceType {
    /// Whether the source is an installed tool.
    pub fn is_tool(&self) -> (b: bool)
        ensures
            b == (self is Tool),
    {
        match self {
            SourceType::Tool { .. } => true,
            _ => false,
        }
    }

    /// Whether the source is a git repository.
    pub fn is_git(&self) -> (b: bool)
        ensures
            b == (self is Git),
    {
        match self {
            SourceType::Git { .. } => true,
            _ => false,
        }
    }

    /// The repository of a git source; `None` for a tool.
    pub fn get_repo_url(&self) -> (url: Option<&String>)
        ensures
            match self {
                SourceType::Git { repo, .. } => url == Some(repo),
                SourceType::Tool { .. } => url is None,
            },
    {
        match self {
            SourceType::Git { repo, .. } => Some(repo),
            _ => None,
        }
    }

    /// The port of a git source; `None` for a tool.
    pub fn get_port(&self) -> (port: Option<u32>)
        ensures
            match self {
                SourceType::Git { port: p, .. } => port == Some(*p),
                SourceType::Tool { .. } => port is None,
            },
    {
        match self {
            SourceType::Git { port, .. } => Some(*port),
            _ => None,
        }
    }
}

/// A service to deploy: its name, its source, its kind, and the paths of the
/// service files of the services it depends on.
#[derive(Debug, Clone, PartialEq, Eq)]
pub struct Service {
    name: String,
    source: SourceType,
    kind: ServiceKind,
    dependencies: Vec<String>,
}

/// The mathematical value of a [`Service`].
pub struct ServiceView {
    pub name: Seq<char>,
    pub source: SourceView,
    pub kind: ServiceKind,
    pub dependencies: Seq<Seq<char>>,
}

impl ServiceView {
    /// Whether the service is an installed tool rather than a git repository.
    pub open spec fn is_tool(self) -> bool {
        self.source is Tool
    }
}

impl View for Service {
    type V = ServiceView;

    closed spec fn view(&self) -> ServiceView {
        ServiceView {
            name: self.name@,
            source: self.source@,
            kind: self.kind,
            dependencies: self.dependencies@.map_values(|d: String| d@),
        }
    }
}

impl Service {
    /// Builds a service from its parts.
    pub fn new(name: String, source: SourceType, kind: ServiceKind, dependencies: Vec<String>) -> (s:
        Service)
        ensures
            s@ == (ServiceView {
                name: name@,
                source: source@,
                kind: kind,
                dependencies: dependencies@.map_values(|d: String| d@),
            }),
    {
        Service { name, source, kind, dependencies }
    }

    /// The name of the service.
    pub fn name(&self) -> (n: &String)
        ensures
            n@ == self@.name,
    {
        &self.name
    }

    /// Where the service comes from.
    pub fn source(&self) -> (s: &SourceType)
        ensures
            s@ == self@.source,
    {
        &self.source
    }

    /// The kind of program the service runs.
    pub fn kind(&self) -> (k: &ServiceKind)
        ensures
            *k == self@.kind,
    {
        &self.kind
    }

    /// The paths of the service files of the dependencies, in order.
    pub fn dependencies(&self) -> (d: &Vec<String>)
        ensures
            d@.map_values(|p: String| p@) == self@.dependencies,
    {
        &self.dependencies
    }
}

/// A tool and a git repository are the two sources there are: a source is
/// exactly one of them.
pub proof fn lemma_source_is_tool_or_git(source: SourceView)
    ensures
        (source is Tool) != (source is Git),
{
}

/// The command that starts each kind of service.
pub proof fn lemma_startup_commands(kind: ServiceKind)
    ensures
        kind == ServiceKind::Node ==> startup_cmd(kind) == "node src/index.js"@,
        kind == ServiceKind::Rust ==> startup_cmd(kind) == "cargo run --release"@,
        kind == ServiceKind::Maven ==> startup_cmd(kind) == "mvn run"@,
        kind == ServiceKind::JavaJar ==> startup_cmd(kind) == "java --jar main.jar"@,
{
}

/// A git source serves on its own port; a tool serves on none.
pub proof fn lemma_port_of_source(source: SourceView)
    ensures
        source matches SourceView::Git { port, .. } ==> port_of(source) == Some(port),
        source is Tool ==> port_of(source) is None,
{
}

} // verus!
