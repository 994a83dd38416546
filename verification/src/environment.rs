//! The execution environment: one container per build session.
//!
//! What the container is made of is decided here; making and removing it is
//! the work of whoever talks to the container engine.

use crate::paths::{join_path, joined_path};
use crate::text::{
    ascii_lower, chars_of, decimal, push_decimal, replace_char_from, starts_with_chars,
    starts_with_text, to_ascii_lower, with_char_replaced,
};
use vstd::prelude::*;
use vstd::string::*;

verus! {

/// The prefix of a Windows path in its extended form.
pub open spec fn extended_prefix() -> Seq<char> {
    "\\\\?\\"@
}

/// `s` starts with a drive: a letter, a colon, and something after them.
pub open spec fn has_drive(s: Seq<char>) -> bool {
    s.len() >= 3 && s[1] == ':'
}

/// A path with a drive as the container engine wants it: a slash, the drive
/// letter in lower case, and the rest with slashes for backslashes.
pub open spec fn drive_path(s: Seq<char>) -> Seq<char> {
    seq!['/', ascii_lower(s[0])] + with_char_replaced(s.skip(2), '\\', '/')
}

/// A path of the host as the container engine wants it in a bind mount.
///
/// A Windows path in its extended form loses the prefix; with a drive it
/// becomes a drive path, without one its backslashes become slashes. Any
/// other path with a drive becomes a drive path on a Windows host. Every
/// other path stays as it is.
pub open spec fn docker_path(path: Seq<char>, windows_host: bool) -> Seq<char> {
    if starts_with_text(path, extended_prefix()) {
        let cleaned = path.skip(extended_prefix().len() as int);
        if has_drive(cleaned) {
            drive_path(cleaned)
        } else {
            with_char_replaced(cleaned, '\\', '/')
        }
    } else if windows_host && has_drive(path) {
        drive_path(path)
    } else {
        path
    }
}

fn drive_path_from(v: &Vec<char>, start: usize) -> (r: String)
    requires
        start + 3 <= v.len(),
    ensures
        r@ == drive_path(v@.skip(start as int)),
{
    let mut out = String::new();
    out.push('/');
    out.push(to_ascii_lower(v[start]));
    let rest = replace_char_from(v, start + 2, '\\', '/');
    out.append(rest.as_str());
    proof {
        assert(v@.skip(start as int).skip(2) =~= v@.skip(start + 2));
        assert(out@ =~= drive_path(v@.skip(start as int)));
    }
    out
}

/// Turns a path of the host into the form that a bind mount takes.
/// `windows_host` says whether the host is a Windows machine.
pub fn windows_path_to_docker(path: &str, windows_host: bool) -> (r: String)
    ensures
        r@ == docker_path(path@, windows_host),
{
    let v = chars_of(path);
    let prefix = chars_of("\\\\?\\");
    if starts_with_chars(&v, &prefix) {
        let start = prefix.len();
        if v.len() - start >= 3 && v[start + 1] == ':' {
            drive_path_from(&v, start)
        } else {
            replace_char_from(&v, start, '\\', '/')
        }
    } else if windows_host && v.len() >= 3 && v[1] == ':' {
        assert(v@.skip(0) =~= v@);
        drive_path_from(&v, 0)
    } else {
        String::from_str(path)
    }
}

// ---------------------------------------------------------------------------
// The container
// ---------------------------------------------------------------------------

/// A container that was made and started.
#[derive(Debug)]
pub struct ContainerInfo {
    /// The identifier that the engine gave it.
    pub id: String,
    /// The name it was made with.
    pub name: String,
}

/// What a `ContainerInfo` is, to a contract.
pub struct ContainerInfoModel {
    pub id: Seq<char>,
    pub name: Seq<char>,
}

impl DeepView for ContainerInfo {
    type V = ContainerInfoModel;

    open spec fn deep_view(&self) -> ContainerInfoModel {
        ContainerInfoModel { id: self.id@, name: self.name@ }
    }
}

/// What a container is to be made of.
pub struct ContainerSpec {
    pub image: String,
    pub name: String,
    /// The process that keeps the container alive between commands.
    pub command: Vec<String>,
    pub working_dir: String,
    /// The bind mounts, each as host path, container path and mode.
    pub binds: Vec<String>,
    pub privileged: bool,
}

/// What a `ContainerSpec` is, to a contract.
pub struct ContainerSpecModel {
    pub image: Seq<char>,
    pub name: Seq<char>,
    pub command: Seq<Seq<char>>,
    pub working_dir: Seq<char>,
    pub binds: Seq<Seq<char>>,
    pub privileged: bool,
}

impl DeepView for ContainerSpec {
    type V = ContainerSpecModel;

    open spec fn deep_view(&self) -> ContainerSpecModel {
        ContainerSpecModel {
            image: self.image@,
            name: self.name@,
            command: self.command.deep_view(),
            working_dir: self.working_dir@,
            binds: self.binds.deep_view(),
            privileged: self.privileged,
        }
    }
}

/// The name of the container of the session that started at `timestamp`.
pub open spec fn container_name(timestamp: u64) -> Seq<char> {
    "repx-"@ + decimal(timestamp as nat)
}

/// The bind mount of the project directory: read and write, at `/app`.
pub open spec fn project_bind(project_path: Seq<char>, windows_host: bool) -> Seq<char> {
    docker_path(project_path, windows_host) + ":/app:rw"@
}

/// The bind mount of the metadata directory: read and write, at
/// `/flake-dir`.
pub open spec fn metadata_bind(metadata_dir: Seq<char>, windows_host: bool) -> Seq<char> {
    docker_path(metadata_dir, windows_host) + ":/flake-dir:rw"@
}

/// The container of a build session: the given image, run privileged for
/// the sake of the build engine inside, kept alive by an idle process, with
/// the project and the metadata directory mounted read and write, working
/// in the project directory, and named after the time the session started.
pub open spec fn container_plan(
    image: Seq<char>,
    project_path: Seq<char>,
    metadata_dir: Seq<char>,
    timestamp: u64,
    windows_host: bool,
) -> ContainerSpecModel {
    ContainerSpecModel {
        image,
        name: container_name(timestamp),
        command: seq!["sleep"@, "3600"@],
        working_dir: "/app"@,
        binds: seq![
            project_bind(project_path, windows_host),
            metadata_bind(metadata_dir, windows_host),
        ],
        privileged: true,
    }
}

/// What the container of a build session is to be made of.
pub fn setup_container(
    image: &str,
    project_path: &str,
    metadata_dir: &str,
    timestamp: u64,
    windows_host: bool,
) -> (r: ContainerSpec)
    ensures
        r.deep_view() == container_plan(
            image@,
            project_path@,
            metadata_dir@,
            timestamp,
            windows_host,
        ),
{
    let mut name = String::from_str("repx-");
    push_decimal(&mut name, timestamp);
    let mut command: Vec<String> = Vec::new();
    command.push(String::from_str("sleep"));
    command.push(String::from_str("3600"));
    let mut project = windows_path_to_docker(project_path, windows_host);
    project.append(":/app:rw");
    let mut metadata = windows_path_to_docker(metadata_dir, windows_host);
    metadata.append(":/flake-dir:rw");
    let mut binds: Vec<String> = Vec::new();
    binds.push(project);
    binds.push(metadata);
    let r = ContainerSpec {
        image: String::from_str(image),
        name,
        command,
        working_dir: String::from_str("/app"),
        binds,
        privileged: true,
    };
    proof {
        let plan = container_plan(image@, project_path@, metadata_dir@, timestamp, windows_host);
        assert(r.command.deep_view() =~= plan.command);
        assert(r.binds.deep_view() =~= plan.binds);
    }
    r
}

// ---------------------------------------------------------------------------
// Running a command in the container
// ---------------------------------------------------------------------------

/// How a command is run in the container.
pub struct ExecSpec {
    /// The program and its arguments.
    pub argv: Vec<String>,
    pub working_dir: String,
    pub attach_stdout: bool,
    pub attach_stderr: bool,
}

/// What an `ExecSpec` is, to a contract.
pub struct ExecSpecModel {
    pub argv: Seq<Seq<char>>,
    pub working_dir: Seq<char>,
    pub attach_stdout: bool,
    pub attach_stderr: bool,
}

impl DeepView for ExecSpec {
    type V = ExecSpecModel;

    open spec fn deep_view(&self) -> ExecSpecModel {
        ExecSpecModel {
            argv: self.argv.deep_view(),
            working_dir: self.working_dir@,
            attach_stdout: self.attach_stdout,
            attach_stderr: self.attach_stderr,
        }
    }
}

/// A command is handed to a shell in the project directory, and both its
/// output and its error stream are followed.
pub open spec fn exec_plan(command: Seq<char>) -> ExecSpecModel {
    ExecSpecModel {
        argv: seq!["sh"@, "-c"@, command],
        working_dir: "/app"@,
        attach_stdout: true,
        attach_stderr: true,
    }
}

/// How `command` is run in the container.
pub fn exec_spec(command: &str) -> (r: ExecSpec)
    ensures
        r.deep_view() == exec_plan(command@),
{
    let mut argv: Vec<String> = Vec::new();
    argv.push(String::from_str("sh"));
    argv.push(String::from_str("-c"));
    argv.push(String::from_str(command));
    let r = ExecSpec {
        argv,
        working_dir: String::from_str("/app"),
        attach_stdout: true,
        attach_stderr: true,
    };
    assert(r.argv.deep_view() =~= exec_plan(command@).argv);
    r
}

// ---------------------------------------------------------------------------
// Where things lie
// ---------------------------------------------------------------------------

/// The files of a build, each at its fixed place beside the project.
pub struct Layout {
    /// The directory of the build's metadata.
    pub metadata_dir: String,
    /// The ignore file of the metadata directory.
    pub gitignore: String,
    /// The build description in place.
    pub flake: String,
    /// The build description as it was just generated.
    pub new_flake: String,
    /// The lock file of the build description.
    pub flake_lock: String,
    /// The lock file of the project.
    pub cargo_lock: String,
}

/// What a `Layout` is, to a contract.
pub struct LayoutModel {
    pub metadata_dir: Seq<char>,
    pub gitignore: Seq<char>,
    pub flake: Seq<char>,
    pub new_flake: Seq<char>,
    pub flake_lock: Seq<char>,
    pub cargo_lock: Seq<char>,
}

impl DeepView for Layout {
    type V = LayoutModel;

    open spec fn deep_view(&self) -> LayoutModel {
        LayoutModel {
            metadata_dir: self.metadata_dir@,
            gitignore: self.gitignore@,
            flake: self.flake@,
            new_flake: self.new_flake@,
            flake_lock: self.flake_lock@,
            cargo_lock: self.cargo_lock@,
        }
    }
}

/// The directory of the metadata of the project at `project_path`.
pub open spec fn metadata_dir_of(project_path: Seq<char>, windows_host: bool) -> Seq<char> {
    joined_path(project_path, ".repx"@, windows_host)
}

/// The files of the build of the project at `project_path`.
pub open spec fn layout_of(project_path: Seq<char>, windows_host: bool) -> LayoutModel {
    let metadata_dir = metadata_dir_of(project_path, windows_host);
    LayoutModel {
        metadata_dir,
        gitignore: joined_path(metadata_dir, ".gitignore"@, windows_host),
        flake: joined_path(metadata_dir, "flake.nix"@, windows_host),
        new_flake: joined_path(metadata_dir, "flake.nix.new"@, windows_host),
        flake_lock: joined_path(metadata_dir, "flake.lock"@, windows_host),
        cargo_lock: joined_path(project_path, "Cargo.lock"@, windows_host),
    }
}

/// The files of the build of the project at `project_path`; `windows_host`
/// says whether the host is a Windows machine.
pub fn layout(project_path: &str, windows_host: bool) -> (r: Layout)
    ensures
        r.deep_view() == layout_of(project_path@, windows_host),
{
    let metadata_dir = join_path(project_path, ".repx", windows_host);
    Layout {
        gitignore: join_path(metadata_dir.as_str(), ".gitignore", windows_host),
        flake: join_path(metadata_dir.as_str(), "flake.nix", windows_host),
        new_flake: join_path(metadata_dir.as_str(), "flake.nix.new", windows_host),
        flake_lock: join_path(metadata_dir.as_str(), "flake.lock", windows_host),
        cargo_lock: join_path(project_path, "Cargo.lock", windows_host),
        metadata_dir,
    }
}

// ---------------------------------------------------------------------------
// Removing the container
// ---------------------------------------------------------------------------

/// How the container engine is asked to remove a container: by force,
/// whether or not the container still runs.
pub struct RemovalRequest {
    pub id: String,
    pub force: bool,
}

/// What the container engine said to a request for removal.
pub enum Removal {
    /// The container was removed.
    Removed,
    /// There was no such container.
    AlreadyGone,
    /// The container could not be removed, for the reason given.
    Failed(String),
}

/// The request that removes the container `id`.
pub fn removal_request(id: &str) -> (r: RemovalRequest)
    ensures
        r.id@ == id@,
        r.force,
{
    RemovalRequest { id: String::from_str(id), force: true }
}

/// Whether the environment is gone after the engine's answer: it is once
/// the container was removed, and just as much where there was none left
/// to remove.
pub open spec fn removal_result(removal: Removal) -> Result<(), Seq<char>> {
    match removal {
        Removal::Removed => Ok(()),
        Removal::AlreadyGone => Ok(()),
        Removal::Failed(reason) => Err(reason@),
    }
}

/// Turns the engine's answer to a request for removal into the outcome of
/// the teardown.
pub fn cleanup_container(removal: Removal) -> (r: Result<(), String>)
    ensures
        match r {
            Ok(_) => removal_result(removal) == Ok::<(), Seq<char>>(()),
            Err(reason) => removal_result(removal) == Err::<(), Seq<char>>(reason@),
        },
{
    match removal {
        Removal::Removed => Ok(()),
        Removal::AlreadyGone => Ok(()),
        Removal::Failed(reason) => Err(reason),
    }
}

} // verus!
