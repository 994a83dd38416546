//! One build session, from the making of its environment to its removal.
//!
//! The session asks for one thing at a time: make the environment, run a
//! command in it, remove it. Whoever talks to the container engine does
//! that and hands back how it went. The session decides what comes next,
//! writes the session log, and says what to tell the user.

use crate::descriptor::{
    drift_of, install_message, install_of, reconcile_descriptor, DescriptorError,
    DescriptorErrorModel, Install,
};
use crate::driver::{BuildDriver, DriverError, DriverErrorModel, DriverModel};
use crate::report::{Level, Notice, NoticeModel, Report, ReportModel};
use crate::environment::{ContainerInfo, ContainerInfoModel};
use crate::executor::{CommandError, CommandErrorModel};
use crate::logging::{
    command_entry, command_message, completion_entry, completion_message, BuildLogger,
    LoggerModel,
};
use crate::text::{join, joined, text2};
use vstd::prelude::*;
use vstd::string::*;

verus! {

// ---------------------------------------------------------------------------
// Phases, actions, events
// ---------------------------------------------------------------------------

/// Where the session stands.
#[derive(Clone, Copy, PartialEq, Eq, Structural, Debug)]
pub enum Phase {
    /// The environment is being made.
    Provision,
    /// The project directory is being declared safe for git.
    GitSafeDir,
    /// The project's lock file is being generated, since it has none.
    CargoLock,
    /// The descriptor's lock file is being generated.
    FlakeLock,
    /// The lock file is being opened to the user who runs the build, since
    /// the environment has written it as another.
    LockPermissions,
    /// The targets are being built.
    Targets,
    /// The environment is being removed.
    Teardown,
    /// The session is over.
    Finished,
}

/// What the session asks for.
pub enum Action {
    /// Make and start the environment.
    Provision,
    /// Run this command in the environment.
    Run(String),
    /// Remove the environment with this identifier.
    Teardown(String),
    /// Nothing more: the session is over.
    Finish,
}

/// What an `Action` is, to a contract.
pub enum ActionModel {
    Provision,
    Run(Seq<char>),
    Teardown(Seq<char>),
    Finish,
}

impl DeepView for Action {
    type V = ActionModel;

    open spec fn deep_view(&self) -> ActionModel {
        match self {
            Action::Provision => ActionModel::Provision,
            Action::Run(c) => ActionModel::Run(c@),
            Action::Teardown(id) => ActionModel::Teardown(id@),
            Action::Finish => ActionModel::Finish,
        }
    }
}

/// Why the environment could not be made, and what was left behind.
pub struct ProvisionFailure {
    pub reason: String,
    /// The identifier of the container that was made before the making
    /// failed, if it got that far.
    pub container_id: Option<String>,
}

/// What a `ProvisionFailure` is, to a contract.
pub struct ProvisionFailureModel {
    pub reason: Seq<char>,
    pub container_id: Option<Seq<char>>,
}

impl DeepView for ProvisionFailure {
    type V = ProvisionFailureModel;

    open spec fn deep_view(&self) -> ProvisionFailureModel {
        ProvisionFailureModel {
            reason: self.reason@,
            container_id: self.container_id.deep_view(),
        }
    }
}

/// How what the session asked for went.
pub enum Event {
    /// The environment was made, or could not be.
    Provisioned(Result<ContainerInfo, ProvisionFailure>),
    /// The command ended.
    Command(Result<String, CommandError>),
    /// The environment was removed, or could not be, for the reason given.
    TornDown(Result<(), String>),
}

/// What an `Event` is, to a contract.
pub enum EventModel {
    Provisioned(Result<ContainerInfoModel, ProvisionFailureModel>),
    Command(Result<Seq<char>, CommandErrorModel>),
    TornDown(Result<(), Seq<char>>),
}

impl DeepView for Event {
    type V = EventModel;

    open spec fn deep_view(&self) -> EventModel {
        match self {
            Event::Provisioned(Ok(info)) => EventModel::Provisioned(Ok(info.deep_view())),
            Event::Provisioned(Err(failure)) => EventModel::Provisioned(Err(failure.deep_view())),
            Event::Command(Ok(output)) => EventModel::Command(Ok(output@)),
            Event::Command(Err(e)) => EventModel::Command(Err(e.deep_view())),
            Event::TornDown(Ok(u)) => EventModel::TornDown(Ok(())),
            Event::TornDown(Err(reason)) => EventModel::TornDown(Err(reason@)),
        }
    }
}

/// Why a session failed.
pub enum SessionError {
    /// No build description could be generated.
    Descriptor(DescriptorError),
    /// The environment could not be made.
    Provisioning(String),
    /// A command that the build cannot do without failed.
    Command(CommandError),
    /// The build of the targets failed.
    Build(DriverError),
}

/// What a `SessionError` is, to a contract.
pub enum SessionErrorModel {
    Descriptor(DescriptorErrorModel),
    Provisioning(Seq<char>),
    Command(CommandErrorModel),
    Build(DriverErrorModel),
}

impl DeepView for SessionError {
    type V = SessionErrorModel;

    open spec fn deep_view(&self) -> SessionErrorModel {
        match self {
            SessionError::Descriptor(e) => SessionErrorModel::Descriptor(e.deep_view()),
            SessionError::Provisioning(reason) => SessionErrorModel::Provisioning(reason@),
            SessionError::Command(e) => SessionErrorModel::Command(e.deep_view()),
            SessionError::Build(e) => SessionErrorModel::Build(e.deep_view()),
        }
    }
}

impl SessionErrorModel {
    /// The failure in one line.
    pub open spec fn message(self) -> Seq<char> {
        match self {
            SessionErrorModel::Descriptor(e) => e.message(),
            SessionErrorModel::Provisioning(reason) => reason,
            SessionErrorModel::Command(e) => e.message(),
            SessionErrorModel::Build(e) => e.message(),
        }
    }
}

impl SessionError {
    /// The failure in one line.
    pub fn message(&self) -> (r: String)
        ensures
            r@ == self.deep_view().message(),
    {
        match self {
            SessionError::Descriptor(e) => e.message(),
            SessionError::Provisioning(reason) => reason.clone(),
            SessionError::Command(e) => e.message(),
            SessionError::Build(e) => e.message(),
        }
    }
}

// ---------------------------------------------------------------------------
// Commands and messages
// ---------------------------------------------------------------------------

pub open spec fn git_command() -> Seq<char> {
    "git config --global --add safe.directory /app"@
}

pub open spec fn cargo_lock_command() -> Seq<char> {
    "cargo generate-lockfile"@
}

pub open spec fn flake_lock_command() -> Seq<char> {
    "cd .repx && nix --extra-experimental-features 'nix-command flakes' flake lock"@
}

pub open spec fn relax_lock_command() -> Seq<char> {
    "chmod a+rw .repx/flake.lock"@
}

/// The name under which the lock command stands in the log.
pub open spec fn flake_lock_label() -> Seq<char> {
    "nix flake lock"@
}

pub open spec fn setup_message() -> Seq<char> {
    "Setting up Docker container"@
}

/// The first entry of a session's log: that the environment is about to be
/// made, or, after a failed generation, the entry that closes the session.
pub open spec fn opening_message(generation: Option<DescriptorErrorModel>) -> Seq<char> {
    match generation {
        None => setup_message(),
        Some(_) => completion_message(false),
    }
}

pub open spec fn created_message(id: Seq<char>) -> Seq<char> {
    "Created container with ID: "@ + id
}

pub open spec fn git_message() -> Seq<char> {
    "Configuring git safe directory in container"@
}

pub open spec fn git_warning(reason: Seq<char>) -> Seq<char> {
    "Warning: Failed to set git safe.directory: "@ + reason
        + ". This might cause issues if your flake relies on git history from the source directory."@
}

pub open spec fn git_notice() -> Seq<char> {
    "Failed to set git safe.directory in container. Build might proceed if git history isn't needed for local flake inputs."@
}

pub open spec fn cargo_lock_message() -> Seq<char> {
    "Cargo.lock not found, generating it..."@
}

pub open spec fn flake_lock_message() -> Seq<char> {
    "Generating flake.lock file"@
}

pub open spec fn lock_done_notice() -> Seq<char> {
    "Generated/updated flake.lock"@
}

pub open spec fn relax_failed_message(reason: Seq<char>) -> Seq<char> {
    "Failed to relax the permissions of flake.lock: "@ + reason
}

pub open spec fn targets_message(targets: Seq<Seq<char>>) -> Seq<char> {
    "Starting build for targets: "@ + joined(targets, ", "@)
}

pub open spec fn cleanup_message() -> Seq<char> {
    "Cleaning up container"@
}

pub open spec fn removed_notice() -> Seq<char> {
    "Container removed successfully"@
}

pub open spec fn teardown_failed_message(reason: Seq<char>) -> Seq<char> {
    "Failed to remove container: "@ + reason
}

// ---------------------------------------------------------------------------
// The state
// ---------------------------------------------------------------------------

/// What a session is, to a contract.
pub struct SessionModel {
    pub phase: Phase,
    /// Whether the environment was made.
    pub provisioned: bool,
    /// The identifier of the environment; empty before it was made.
    pub container_id: Seq<char>,
    /// Whether the project has a lock file of its own.
    pub cargo_lock_present: bool,
    pub driver: DriverModel,
    /// Why the session failed, once it is known to have.
    pub failure: Option<SessionErrorModel>,
}

impl SessionModel {
    /// The session before anything was asked for.
    pub open spec fn opened(
        targets: Seq<Seq<char>>,
        fallback: Option<Seq<char>>,
        cargo_lock_present: bool,
    ) -> Self {
        SessionModel {
            phase: Phase::Provision,
            provisioned: false,
            container_id: Seq::empty(),
            cargo_lock_present,
            driver: DriverModel::new(targets, fallback),
            failure: None,
        }
    }

    /// The session of a build whose description was generated, or could
    /// not be: `generation` is the failure of the generation, if it failed.
    /// After a failed generation the session is over before it began: it
    /// has failed with that failure, and asks for nothing.
    pub open spec fn started(
        generation: Option<DescriptorErrorModel>,
        targets: Seq<Seq<char>>,
        fallback: Option<Seq<char>>,
        cargo_lock_present: bool,
    ) -> Self {
        match generation {
            None => SessionModel::opened(targets, fallback, cargo_lock_present),
            Some(e) => SessionModel {
                phase: Phase::Finished,
                failure: Some(SessionErrorModel::Descriptor(e)),
                ..SessionModel::opened(targets, fallback, cargo_lock_present)
            },
        }
    }

    /// What the session asks for next.
    pub open spec fn next_action(self) -> ActionModel {
        match self.phase {
            Phase::Provision => ActionModel::Provision,
            Phase::GitSafeDir => ActionModel::Run(git_command()),
            Phase::CargoLock => ActionModel::Run(cargo_lock_command()),
            Phase::FlakeLock => ActionModel::Run(flake_lock_command()),
            Phase::LockPermissions => ActionModel::Run(relax_lock_command()),
            Phase::Targets => match self.driver.pending_command() {
                Some(c) => ActionModel::Run(c),
                None => ActionModel::Finish,
            },
            Phase::Teardown => ActionModel::Teardown(self.container_id),
            Phase::Finished => ActionModel::Finish,
        }
    }

    /// Whether `event` tells how the pending action went.
    pub open spec fn answered_by(self, event: EventModel) -> bool {
        match (self.next_action(), event) {
            (ActionModel::Provision, EventModel::Provisioned(_)) => true,
            (ActionModel::Run(_), EventModel::Command(_)) => true,
            (ActionModel::Teardown(_), EventModel::TornDown(_)) => true,
            _ => false,
        }
    }

    /// Turns to the lock files, the project's own first where it is missing.
    pub open spec fn to_locks(self, report: ReportModel) -> (SessionModel, ReportModel) {
        if self.cargo_lock_present {
            (SessionModel { phase: Phase::FlakeLock, ..self }, report.log(flake_lock_message()))
        } else {
            (
                SessionModel { phase: Phase::CargoLock, ..self },
                report.say(Level::Warning, cargo_lock_message()),
            )
        }
    }

    /// Gives the build up for `error` and turns to the removal of the
    /// environment.
    pub open spec fn aborted(self, error: SessionErrorModel, report: ReportModel) -> (
        SessionModel,
        ReportModel,
    ) {
        (
            SessionModel { phase: Phase::Teardown, failure: Some(error), ..self },
            report.log(cleanup_message()),
        )
    }

    /// Whether the session has not failed so far.
    pub open spec fn succeeded(self) -> bool {
        self.failure is None
    }

    /// One step: the session after `event`, and what there is to report. An
    /// event that does not answer the pending action changes nothing.
    pub open spec fn step(self, event: EventModel) -> (SessionModel, ReportModel) {
        let none = ReportModel::empty();
        match (self.phase, event) {
            (Phase::Provision, EventModel::Provisioned(Ok(info))) => (
                SessionModel {
                    phase: Phase::GitSafeDir,
                    provisioned: true,
                    container_id: info.id,
                    ..self
                },
                none.log(created_message(info.id)).log(git_message()),
            ),
            (Phase::Provision, EventModel::Provisioned(Err(failure))) => match failure.container_id {
                Some(id) => (
                    SessionModel {
                        phase: Phase::Teardown,
                        provisioned: true,
                        container_id: id,
                        failure: Some(SessionErrorModel::Provisioning(failure.reason)),
                        ..self
                    },
                    none.log(cleanup_message()),
                ),
                None => (
                    SessionModel {
                        phase: Phase::Finished,
                        failure: Some(SessionErrorModel::Provisioning(failure.reason)),
                        ..self
                    },
                    none.log(completion_message(false)),
                ),
            },
            (Phase::GitSafeDir, EventModel::Command(Ok(output))) => self.to_locks(
                none.log(command_message(git_command(), output)),
            ),
            (Phase::GitSafeDir, EventModel::Command(Err(e))) => self.to_locks(
                none.log(git_warning(e.message())).notify(Level::Warning, git_notice()),
            ),
            (Phase::CargoLock, EventModel::Command(Ok(output))) => (
                SessionModel { phase: Phase::FlakeLock, ..self },
                none.log(command_message(cargo_lock_command(), output)).log(flake_lock_message()),
            ),
            (Phase::CargoLock, EventModel::Command(Err(e))) => self.aborted(
                SessionErrorModel::Command(e),
                none,
            ),
            (Phase::FlakeLock, EventModel::Command(Ok(output))) => (
                SessionModel { phase: Phase::LockPermissions, ..self },
                none.log(command_message(flake_lock_label(), output)).notify(
                    Level::Success,
                    lock_done_notice(),
                ),
            ),
            (Phase::FlakeLock, EventModel::Command(Err(e))) => self.aborted(
                SessionErrorModel::Command(e),
                none,
            ),
            (Phase::LockPermissions, EventModel::Command(Ok(output))) => (
                SessionModel { phase: Phase::Targets, ..self },
                none.log(command_message(relax_lock_command(), output)).log(
                    targets_message(self.driver.queue),
                ),
            ),
            (Phase::LockPermissions, EventModel::Command(Err(e))) => (
                SessionModel { phase: Phase::Targets, ..self },
                none.say(Level::Warning, relax_failed_message(e.message())).log(
                    targets_message(self.driver.queue),
                ),
            ),
            (Phase::Targets, EventModel::Command(outcome)) => {
                let (driver, report) = self.driver.step(outcome);
                match driver.result() {
                    None => (SessionModel { driver, ..self }, report),
                    Some(Ok(_)) => (
                        SessionModel { phase: Phase::Teardown, driver, ..self },
                        report.log(cleanup_message()),
                    ),
                    Some(Err(e)) => (
                        SessionModel {
                            phase: Phase::Teardown,
                            driver,
                            failure: Some(SessionErrorModel::Build(e)),
                            ..self
                        },
                        report.log(cleanup_message()),
                    ),
                }
            },
            (Phase::Teardown, EventModel::TornDown(Ok(_))) => (
                SessionModel { phase: Phase::Finished, ..self },
                none.notify(Level::Success, removed_notice()).log(
                    completion_message(self.succeeded()),
                ),
            ),
            (Phase::Teardown, EventModel::TornDown(Err(reason))) => (
                SessionModel { phase: Phase::Finished, ..self },
                none.say(Level::Warning, teardown_failed_message(reason)).log(
                    completion_message(self.succeeded()),
                ),
            ),
            _ => (self, none),
        }
    }

    /// How the session ended; nothing before it has.
    pub open spec fn result(self) -> Option<Result<(), SessionErrorModel>> {
        if self.phase != Phase::Finished {
            None
        } else {
            match self.failure {
                Some(e) => Some(Err(e)),
                None => Some(Ok(())),
            }
        }
    }
}

/// One build session.
pub struct Session {
    phase: Phase,
    provisioned: bool,
    container_id: String,
    cargo_lock_present: bool,
    driver: BuildDriver,
    failure: Option<SessionError>,
}

impl View for Session {
    type V = SessionModel;

    closed spec fn view(&self) -> SessionModel {
        SessionModel {
            phase: self.phase,
            provisioned: self.provisioned,
            container_id: self.container_id@,
            cargo_lock_present: self.cargo_lock_present,
            driver: self.driver@,
            failure: self.failure.deep_view(),
        }
    }
}

impl Session {
    /// Opens a session that builds `targets`, in the order given, and logs
    /// that the environment is about to be made. `fallback` is for the
    /// driver; `cargo_lock_present` says whether the project has a lock
    /// file of its own.
    pub fn open(
        targets: Vec<String>,
        fallback: Option<String>,
        cargo_lock_present: bool,
        logger: &mut BuildLogger,
        timestamp: u64,
    ) -> (r: Session)
        ensures
            r@ == SessionModel::opened(
                targets.deep_view(),
                fallback.deep_view(),
                cargo_lock_present,
            ),
            final(logger)@ == old(logger)@.logged(timestamp, setup_message()),
    {
        logger.log(timestamp, "Setting up Docker container");
        Session {
            phase: Phase::Provision,
            provisioned: false,
            container_id: String::new(),
            cargo_lock_present,
            driver: BuildDriver::new(targets, fallback),
            failure: None,
        }
    }

    /// Starts the session of a build once its description was generated,
    /// or could not be: `generation` is the failure of the generation, if
    /// it failed. After a failed generation the session is over at once:
    /// its closing entry is logged, it has failed with that failure, and it
    /// asks for nothing, so that nothing is made and nothing is run.
    pub fn start(
        generation: Option<DescriptorError>,
        targets: Vec<String>,
        fallback: Option<String>,
        cargo_lock_present: bool,
        logger: &mut BuildLogger,
        timestamp: u64,
    ) -> (r: Session)
        ensures
            r@ == SessionModel::started(
                generation.deep_view(),
                targets.deep_view(),
                fallback.deep_view(),
                cargo_lock_present,
            ),
            final(logger)@ == old(logger)@.logged(
                timestamp,
                opening_message(generation.deep_view()),
            ),
    {
        match generation {
            None => Session::open(targets, fallback, cargo_lock_present, logger, timestamp),
            Some(e) => {
                logger.log_build_completion(timestamp, false);
                Session {
                    phase: Phase::Finished,
                    provisioned: false,
                    container_id: String::new(),
                    cargo_lock_present,
                    driver: BuildDriver::new(targets, fallback),
                    failure: Some(SessionError::Descriptor(e)),
                }
            },
        }
    }

    /// Where the session stands.
    pub fn phase(&self) -> (r: Phase)
        ensures
            r == self@.phase,
    {
        self.phase
    }

    /// Whether the session is over.
    pub fn is_finished(&self) -> (r: bool)
        ensures
            r == (self@.phase == Phase::Finished),
    {
        self.phase == Phase::Finished
    }

    /// The driver of the session's targets.
    pub fn driver(&self) -> (r: &BuildDriver)
        ensures
            r@ == self@.driver,
    {
        &self.driver
    }

    /// What the session asks for next.
    pub fn next_action(&self) -> (r: Action)
        ensures
            r.deep_view() == self@.next_action(),
    {
        match self.phase {
            Phase::Provision => Action::Provision,
            Phase::GitSafeDir => Action::Run(
                String::from_str("git config --global --add safe.directory /app"),
            ),
            Phase::CargoLock => Action::Run(String::from_str("cargo generate-lockfile")),
            Phase::FlakeLock => Action::Run(
                String::from_str(
                    "cd .repx && nix --extra-experimental-features 'nix-command flakes' flake lock",
                ),
            ),
            Phase::LockPermissions => Action::Run(String::from_str("chmod a+rw .repx/flake.lock")),
            Phase::Targets => match self.driver.pending_command() {
                Some(c) => Action::Run(c),
                None => Action::Finish,
            },
            Phase::Teardown => Action::Teardown(self.container_id.clone()),
            Phase::Finished => Action::Finish,
        }
    }

    fn to_locks(&mut self, report: &mut Report)
        ensures
            (final(self)@, final(report).deep_view()) == old(self)@.to_locks(
                old(report).deep_view(),
            ),
    {
        if self.cargo_lock_present {
            report.log(String::from_str("Generating flake.lock file"));
            self.phase = Phase::FlakeLock;
        } else {
            report.say(Level::Warning, String::from_str("Cargo.lock not found, generating it..."));
            self.phase = Phase::CargoLock;
        }
    }

    fn abort(&mut self, error: SessionError, report: &mut Report)
        ensures
            (final(self)@, final(report).deep_view()) == old(self)@.aborted(
                error.deep_view(),
                old(report).deep_view(),
            ),
    {
        report.log(String::from_str("Cleaning up container"));
        self.failure = Some(error);
        self.phase = Phase::Teardown;
    }

    /// Takes in how the pending action went and decides what comes next;
    /// returns what there is to report, without logging it.
    pub fn decide(&mut self, event: Event) -> (r: Report)
        ensures
            (final(self)@, r.deep_view()) == old(self)@.step(event.deep_view()),
    {
        let mut report = Report::new();
        match (self.phase, event) {
            (Phase::Provision, Event::Provisioned(Ok(info))) => {
                report.log(text2("Created container with ID: ", info.id.as_str()));
                report.log(String::from_str("Configuring git safe directory in container"));
                self.phase = Phase::GitSafeDir;
                self.provisioned = true;
                self.container_id = info.id;
            },
            (Phase::Provision, Event::Provisioned(Err(failure))) => {
                match failure.container_id {
                    Some(id) => {
                        report.log(String::from_str("Cleaning up container"));
                        self.provisioned = true;
                        self.container_id = id;
                        self.phase = Phase::Teardown;
                    },
                    None => {
                        report.log(completion_entry(false));
                        self.phase = Phase::Finished;
                    },
                }
                self.failure = Some(SessionError::Provisioning(failure.reason));
            },
            (Phase::GitSafeDir, Event::Command(Ok(output))) => {
                report.log(
                    command_entry("git config --global --add safe.directory /app", output.as_str()),
                );
                self.to_locks(&mut report);
            },
            (Phase::GitSafeDir, Event::Command(Err(e))) => {
                let mut m = text2(
                    "Warning: Failed to set git safe.directory: ",
                    e.message().as_str(),
                );
                m.append(
                    ". This might cause issues if your flake relies on git history from the source directory.",
                );
                report.log(m);
                report.notify(
                    Level::Warning,
                    String::from_str(
                        "Failed to set git safe.directory in container. Build might proceed if git history isn't needed for local flake inputs.",
                    ),
                );
                self.to_locks(&mut report);
            },
            (Phase::CargoLock, Event::Command(Ok(output))) => {
                report.log(command_entry("cargo generate-lockfile", output.as_str()));
                report.log(String::from_str("Generating flake.lock file"));
                self.phase = Phase::FlakeLock;
            },
            (Phase::CargoLock, Event::Command(Err(e))) => {
                self.abort(SessionError::Command(e), &mut report);
            },
            (Phase::FlakeLock, Event::Command(Ok(output))) => {
                report.log(command_entry("nix flake lock", output.as_str()));
                report.notify(Level::Success, String::from_str("Generated/updated flake.lock"));
                self.phase = Phase::LockPermissions;
            },
            (Phase::FlakeLock, Event::Command(Err(e))) => {
                self.abort(SessionError::Command(e), &mut report);
            },
            (Phase::LockPermissions, Event::Command(Ok(output))) => {
                report.log(command_entry("chmod a+rw .repx/flake.lock", output.as_str()));
                let names = join(self.driver.remaining(), ", ");
                report.log(text2("Starting build for targets: ", names.as_str()));
                self.phase = Phase::Targets;
            },
            (Phase::LockPermissions, Event::Command(Err(e))) => {
                report.say(
                    Level::Warning,
                    text2("Failed to relax the permissions of flake.lock: ", e.message().as_str()),
                );
                let names = join(self.driver.remaining(), ", ");
                report.log(text2("Starting build for targets: ", names.as_str()));
                self.phase = Phase::Targets;
            },
            (Phase::Targets, Event::Command(outcome)) => {
                report = self.driver.advance(outcome);
                match self.driver.result() {
                    None => {},
                    Some(Ok(u)) => {
                        report.log(String::from_str("Cleaning up container"));
                        self.phase = Phase::Teardown;
                    },
                    Some(Err(e)) => {
                        report.log(String::from_str("Cleaning up container"));
                        self.failure = Some(SessionError::Build(e));
                        self.phase = Phase::Teardown;
                    },
                }
            },
            (Phase::Teardown, Event::TornDown(Ok(u))) => {
                report.notify(Level::Success, String::from_str("Container removed successfully"));
                report.log(completion_entry(self.failure.is_none()));
                self.phase = Phase::Finished;
            },
            (Phase::Teardown, Event::TornDown(Err(reason))) => {
                report.say(
                    Level::Warning,
                    text2("Failed to remove container: ", reason.as_str()),
                );
                report.log(completion_entry(self.failure.is_none()));
                self.phase = Phase::Finished;
            },
            _ => {},
        }
        report
    }

    /// Takes in how the pending action went: decides what comes next, logs
    /// what there is to log at `timestamp`, and returns what to tell the
    /// user.
    pub fn handle(&mut self, event: Event, logger: &mut BuildLogger, timestamp: u64) -> (r: Vec<
        Notice,
    >)
        ensures
            final(self)@ == old(self)@.step(event.deep_view()).0,
            final(logger)@ == old(logger)@.logged_all(
                timestamp,
                old(self)@.step(event.deep_view()).1.logs,
            ),
            r.deep_view() == old(self)@.step(event.deep_view()).1.notices,
    {
        let report = self.decide(event);
        logger.log_all(timestamp, &report.logs);
        report.notices
    }

    fn failure_copy(&self) -> (r: Option<SessionError>)
        ensures
            r.deep_view() == self@.failure,
    {
        match &self.failure {
            None => None,
            Some(SessionError::Descriptor(DescriptorError::Metadata)) => Some(
                SessionError::Descriptor(DescriptorError::Metadata),
            ),
            Some(SessionError::Descriptor(DescriptorError::Template(text))) => Some(
                SessionError::Descriptor(DescriptorError::Template(text.clone())),
            ),
            Some(SessionError::Provisioning(reason)) => Some(
                SessionError::Provisioning(reason.clone()),
            ),
            Some(SessionError::Command(e)) => Some(
                SessionError::Command(crate::driver::clone_error(e)),
            ),
            Some(SessionError::Build(DriverError::Preparation(e))) => Some(
                SessionError::Build(DriverError::Preparation(crate::driver::clone_error(e))),
            ),
            Some(SessionError::Build(DriverError::Aggregate { failed })) => {
                let copy = crate::text::copy_texts(failed);
                Some(SessionError::Build(DriverError::Aggregate { failed: copy }))
            },
        }
    }

    /// How the session ended; nothing before it has. The session succeeded
    /// where the build of every target did.
    pub fn result(&self) -> (r: Option<Result<(), SessionError>>)
        ensures
            match r {
                None => self@.result() is None,
                Some(Ok(u)) => self@.result() == Some(Ok::<(), SessionErrorModel>(())),
                Some(Err(e)) => self@.result() == Some(
                    Err::<(), SessionErrorModel>(e.deep_view()),
                ),
            },
    {
        if self.phase != Phase::Finished {
            return None;
        }
        match self.failure_copy() {
            Some(e) => Some(Err(e)),
            None => Some(Ok(())),
        }
    }
}

// ---------------------------------------------------------------------------
// What holds of every session
// ---------------------------------------------------------------------------

impl SessionModel {
    /// The session after `events`, taken in one after the other.
    pub open spec fn run(self, events: Seq<EventModel>) -> SessionModel
        decreases events.len(),
    {
        if events.len() == 0 {
            self
        } else {
            self.run(events.drop_last()).step(events.last()).0
        }
    }

    /// Each of `events` tells how the action went that was pending when it
    /// came: nothing was done that the session had not asked for.
    pub open spec fn well_run(self, events: Seq<EventModel>) -> bool
        decreases events.len(),
    {
        events.len() == 0 || (self.well_run(events.drop_last()) && self.run(
            events.drop_last(),
        ).answered_by(events.last()))
    }

    /// How often the environment was removed while `events` came in: once
    /// for each event that told of a removal while the session was asking
    /// for one.
    pub open spec fn teardowns(self, events: Seq<EventModel>) -> nat
        decreases events.len(),
    {
        if events.len() == 0 {
            0
        } else {
            self.teardowns(events.drop_last()) + (if self.run(events.drop_last()).phase
                == Phase::Teardown && events.last() is TornDown {
                1nat
            } else {
                0nat
            })
        }
    }

    /// How often a command ran in the environment after its removal: once
    /// for each event that told of a command while the session was asking
    /// for one and the environment was gone.
    pub open spec fn commands_after_teardown(self, events: Seq<EventModel>) -> nat
        decreases events.len(),
    {
        if events.len() == 0 {
            0
        } else {
            self.commands_after_teardown(events.drop_last()) + (if self.teardowns(
                events.drop_last(),
            ) > 0 && self.run(events.drop_last()).next_action() is Run
                && events.last() is Command {
                1nat
            } else {
                0nat
            })
        }
    }

    /// A bound on the events that are left until the session is over.
    pub open spec fn steps_left(self) -> nat {
        match self.phase {
            Phase::Finished => 0,
            Phase::Teardown => 1,
            Phase::Targets => 1 + self.driver.steps_left(),
            Phase::LockPermissions => 2 + self.driver.steps_left(),
            Phase::FlakeLock => 3 + self.driver.steps_left(),
            Phase::CargoLock => 4 + self.driver.steps_left(),
            Phase::GitSafeDir => 5 + self.driver.steps_left(),
            Phase::Provision => 6 + self.driver.steps_left(),
        }
    }

    /// What every session that was opened satisfies: while its targets are
    /// being built, and before, the driver is not done.
    pub open spec fn consistent(self) -> bool {
        self.phase != Phase::Teardown && self.phase != Phase::Finished ==> self.driver.stage
            != crate::driver::Stage::Done
    }

    /// What `teardowns` is at each phase of a session that was run well.
    pub open spec fn accounts_for(self, teardowns: nat) -> bool {
        match self.phase {
            Phase::Provision => !self.provisioned && teardowns == 0 && self.failure is None,
            Phase::Finished => teardowns == (if self.provisioned {
                1nat
            } else {
                0nat
            }) && (!self.provisioned ==> self.failure is Some && self.failure->0 is Provisioning),
            _ => self.provisioned && teardowns == 0,
        }
    }
}

/// The account of removals stays right over every step.
pub proof fn lemma_step_accounts_for_teardowns(m: SessionModel, teardowns: nat, event: EventModel)
    requires
        m.accounts_for(teardowns),
    ensures
        m.step(event).0.accounts_for(
            teardowns + (if m.phase == Phase::Teardown && event is TornDown {
                1nat
            } else {
                0nat
            }),
        ),
        m.next_action() is Run ==> teardowns == 0,
{
}

/// The account of removals stays right over every run.
pub proof fn lemma_run_accounts_for_teardowns(start: SessionModel, events: Seq<EventModel>)
    requires
        start.accounts_for(0),
    ensures
        start.run(events).accounts_for(start.teardowns(events)),
        start.commands_after_teardown(events) == 0,
    decreases events.len(),
{
    if events.len() > 0 {
        lemma_run_accounts_for_teardowns(start, events.drop_last());
        lemma_step_accounts_for_teardowns(
            start.run(events.drop_last()),
            start.teardowns(events.drop_last()),
            events.last(),
        );
    }
}

/// Until a session is over it asks for something, and every answer brings
/// it closer to the end.
pub proof fn lemma_session_makes_progress(m: SessionModel, event: EventModel)
    requires
        m.consistent(),
        m.phase != Phase::Finished,
    ensures
        !(m.next_action() is Finish),
        m.answered_by(event) ==> m.step(event).0.consistent() && m.step(event).0.steps_left()
            < m.steps_left(),
{
    if m.phase == Phase::Targets {
        match event {
            EventModel::Command(outcome) => {
                crate::driver::lemma_step_makes_progress(m.driver, outcome);
            },
            _ => {
                crate::driver::lemma_step_makes_progress(
                    m.driver,
                    Ok::<Seq<char>, CommandErrorModel>(Seq::empty()),
                );
            },
        }
    }
}

/// A session comes to its end: run well, it takes in no more events than
/// seven for itself, one for the preparation of the output tree and seven
/// for each target.
pub proof fn lemma_session_comes_to_an_end(
    targets: Seq<Seq<char>>,
    fallback: Option<Seq<char>>,
    cargo_lock_present: bool,
    events: Seq<EventModel>,
)
    requires
        SessionModel::opened(targets, fallback, cargo_lock_present).well_run(events),
    ensures
        SessionModel::opened(targets, fallback, cargo_lock_present).run(events).consistent(),
        SessionModel::opened(targets, fallback, cargo_lock_present).run(events).steps_left()
            + events.len() <= 7 + 7 * targets.len(),
        events.len() <= 7 + 7 * targets.len(),
    decreases events.len(),
{
    let start = SessionModel::opened(targets, fallback, cargo_lock_present);
    if events.len() > 0 {
        let before = start.run(events.drop_last());
        lemma_session_comes_to_an_end(targets, fallback, cargo_lock_present, events.drop_last());
        if before.phase != Phase::Finished {
            lemma_session_makes_progress(before, events.last());
        }
    }
}

/// The environment is removed exactly once on every path to the end of a
/// session, whether every target was built, some failed, or the session
/// was given up: once if a container was made, even one that could not be
/// started, and never if none was made. No command runs in it after its
/// removal. A session that made no container failed for that. This holds
/// of every sequence of events: one that does not answer what the session
/// asks for changes nothing.
pub proof fn lemma_teardown_exactly_once(
    targets: Seq<Seq<char>>,
    fallback: Option<Seq<char>>,
    cargo_lock_present: bool,
    events: Seq<EventModel>,
)
    requires
        SessionModel::opened(targets, fallback, cargo_lock_present).run(events).phase
            == Phase::Finished,
    ensures
        ({
            let start = SessionModel::opened(targets, fallback, cargo_lock_present);
            let end = start.run(events);
            &&& end.provisioned ==> start.teardowns(events) == 1
            &&& !end.provisioned ==> start.teardowns(events) == 0
            &&& !end.provisioned ==> (end.result() matches Some(Err(e)) && e is Provisioning)
            &&& start.commands_after_teardown(events) == 0
        }),
{
    let start = SessionModel::opened(targets, fallback, cargo_lock_present);
    lemma_run_accounts_for_teardowns(start, events);
}

/// Until a session is over, its environment has not been removed.
pub proof fn lemma_no_teardown_before_the_end(
    targets: Seq<Seq<char>>,
    fallback: Option<Seq<char>>,
    cargo_lock_present: bool,
    events: Seq<EventModel>,
)
    requires
        SessionModel::opened(targets, fallback, cargo_lock_present).run(events).phase
            != Phase::Finished,
    ensures
        SessionModel::opened(targets, fallback, cargo_lock_present).teardowns(events) == 0,
{
    let start = SessionModel::opened(targets, fallback, cargo_lock_present);
    lemma_run_accounts_for_teardowns(start, events);
}

impl SessionModel {
    /// What every session that was opened for `targets` satisfies: its
    /// driver has those targets and started fresh, and where the session is
    /// past its targets without a failure, the build of the targets
    /// succeeded.
    pub open spec fn sound(self, targets: Seq<Seq<char>>) -> bool {
        &&& self.driver.settled()
        &&& self.driver.targets() == targets
        &&& (self.phase == Phase::Teardown || self.phase == Phase::Finished) && self.failure
            is None ==> self.driver.result() == Some(Ok::<(), DriverErrorModel>(()))
    }
}

/// A session stays sound over every step.
pub proof fn lemma_step_keeps_the_session_sound(
    m: SessionModel,
    targets: Seq<Seq<char>>,
    event: EventModel,
)
    requires
        m.sound(targets),
    ensures
        m.step(event).0.sound(targets),
{
    match event {
        EventModel::Command(outcome) => {
            crate::driver::lemma_step_keeps_the_targets(m.driver, outcome);
        },
        _ => {},
    }
}

/// A session succeeds only where every target did: once a session is over
/// without a failure, every target that was asked for was attempted, in the
/// order given, and each of them succeeded.
pub proof fn lemma_success_means_every_target_succeeded(
    targets: Seq<Seq<char>>,
    fallback: Option<Seq<char>>,
    cargo_lock_present: bool,
    events: Seq<EventModel>,
)
    ensures
        SessionModel::opened(targets, fallback, cargo_lock_present).run(events).sound(targets),
        SessionModel::opened(targets, fallback, cargo_lock_present).run(events).result() == Some(
            Ok::<(), SessionErrorModel>(()),
        ) ==> ({
            let end = SessionModel::opened(targets, fallback, cargo_lock_present).run(events);
            &&& crate::driver::names_of(end.driver.done) == targets
            &&& end.driver.all_passed()
            &&& end.provisioned
        }),
    decreases events.len(),
{
    let start = SessionModel::opened(targets, fallback, cargo_lock_present);
    if events.len() == 0 {
        assert(start.driver.targets() =~= targets);
    } else {
        lemma_success_means_every_target_succeeded(
            targets,
            fallback,
            cargo_lock_present,
            events.drop_last(),
        );
        lemma_step_keeps_the_session_sound(
            start.run(events.drop_last()),
            targets,
            events.last(),
        );
    }
    let end = start.run(events);
    if end.result() == Some(Ok::<(), SessionErrorModel>(())) {
        assert(end.driver.targets() =~= crate::driver::names_of(end.driver.done));
        lemma_run_accounts_for_teardowns(start, events);
    }
}

/// After a failed generation nothing is asked for: the session is over, it
/// has failed with the failure of the generation, and whatever events come,
/// it stays as it is, logs nothing, says nothing, and no environment is
/// made or removed.
pub proof fn lemma_failed_generation_asks_for_nothing(
    error: DescriptorErrorModel,
    targets: Seq<Seq<char>>,
    fallback: Option<Seq<char>>,
    cargo_lock_present: bool,
    events: Seq<EventModel>,
    log: LoggerModel,
    timestamp: u64,
)
    ensures
        ({
            let s = SessionModel::started(Some(error), targets, fallback, cargo_lock_present);
            &&& s.next_action() == ActionModel::Finish
            &&& s.result() == Some(
                Err::<(), SessionErrorModel>(SessionErrorModel::Descriptor(error)),
            )
            &&& s.run(events) == s
            &&& !s.run(events).provisioned
            &&& s.teardowns(events) == 0
            &&& s.notices(events) == Seq::<NoticeModel>::empty()
            &&& s.log_after(log, events, timestamp) == log
        }),
    decreases events.len(),
{
    let s = SessionModel::started(Some(error), targets, fallback, cargo_lock_present);
    if events.len() > 0 {
        lemma_failed_generation_asks_for_nothing(
            error,
            targets,
            fallback,
            cargo_lock_present,
            events.drop_last(),
            log,
            timestamp,
        );
        assert(s.notices(events) =~= Seq::<NoticeModel>::empty());
    }
}

/// How the removal of the environment went has no part in how the session
/// ended: a removal that failed is reported, and the result is that of the
/// build. The entry that closes the log says the same as the result.
pub proof fn lemma_teardown_never_masks_the_result(m: SessionModel, reason: Seq<char>)
    requires
        m.phase == Phase::Teardown,
    ensures
        m.step(EventModel::TornDown(Err(reason))).0 == m.step(EventModel::TornDown(Ok(()))).0,
        m.step(EventModel::TornDown(Err(reason))).0.result() == Some(
            match m.failure {
                Some(e) => Err::<(), SessionErrorModel>(e),
                None => Ok::<(), SessionErrorModel>(()),
            },
        ),
        m.step(EventModel::TornDown(Err(reason))).1.logs.last() == completion_message(
            m.failure is None,
        ),
        m.step(EventModel::TornDown(Ok(()))).1.logs.last() == completion_message(
            m.failure is None,
        ),
{
}

/// A failure stays: once a session is known to have failed, no later step
/// makes it succeed.
pub proof fn lemma_session_failure_is_final(m: SessionModel, event: EventModel)
    requires
        m.failure is Some,
        m.phase == Phase::Teardown || m.phase == Phase::Finished,
    ensures
        m.step(event).0.failure == m.failure,
{
}

// ---------------------------------------------------------------------------
// A whole session
// ---------------------------------------------------------------------------

impl SessionModel {
    /// The session log after the steps over `events`, all at one time.
    pub open spec fn log_after(self, log: LoggerModel, events: Seq<EventModel>, timestamp: u64) -> LoggerModel
        decreases events.len(),
    {
        if events.len() == 0 {
            log
        } else {
            self.log_after(log, events.drop_last(), timestamp).logged_all(
                timestamp,
                self.run(events.drop_last()).step(events.last()).1.logs,
            )
        }
    }

    /// What the steps over `events` had to tell the user, in order.
    pub open spec fn notices(self, events: Seq<EventModel>) -> Seq<NoticeModel>
        decreases events.len(),
    {
        if events.len() == 0 {
            Seq::empty()
        } else {
            self.notices(events.drop_last()) + self.run(events.drop_last()).step(
                events.last(),
            ).1.notices
        }
    }
}

/// The snapshot of a build's configuration for the log, in the order in
/// which it is logged.
pub open spec fn config_snapshot(
    image: Seq<char>,
    project_path: Seq<char>,
    targets: Seq<Seq<char>>,
    rust_channel: Seq<char>,
    rust_version: Seq<char>,
    nixpkgs_url: Seq<char>,
    build_id: Seq<char>,
) -> Seq<(Seq<char>, Seq<char>)> {
    seq![
        ("Docker Image"@, image),
        ("Project Path"@, project_path),
        ("Targets"@, joined(targets, ", "@)),
        ("Rust Channel"@, rust_channel),
        ("Rust Version"@, rust_version),
        ("nixpkgs URL"@, nixpkgs_url),
        ("Build ID"@, build_id),
    ]
}

pub open spec fn generating_message() -> Seq<char> {
    "Generating flake.nix file"@
}

/// Begins the log of a build: the snapshot of its configuration, and the
/// notice that its description is about to be generated.
pub fn log_build_start(
    logger: &mut BuildLogger,
    timestamp: u64,
    image: &str,
    project_path: &str,
    targets: &Vec<String>,
    rust_channel: &str,
    rust_version: &str,
    nixpkgs_url: &str,
)
    ensures
        final(logger)@ == old(logger)@.logged(
            timestamp,
            crate::logging::config_message(
                config_snapshot(
                    image@,
                    project_path@,
                    targets.deep_view(),
                    rust_channel@,
                    rust_version@,
                    nixpkgs_url@,
                    old(logger)@.build_id,
                ),
            ),
        ).logged(timestamp, generating_message()),
{
    let mut config: Vec<(String, String)> = Vec::new();
    config.push((String::from_str("Docker Image"), String::from_str(image)));
    config.push((String::from_str("Project Path"), String::from_str(project_path)));
    config.push((String::from_str("Targets"), join(targets, ", ")));
    config.push((String::from_str("Rust Channel"), String::from_str(rust_channel)));
    config.push((String::from_str("Rust Version"), String::from_str(rust_version)));
    config.push((String::from_str("nixpkgs URL"), String::from_str(nixpkgs_url)));
    config.push((String::from_str("Build ID"), String::from_str(logger.build_id())));
    assert(config.deep_view() =~= config_snapshot(
        image@,
        project_path@,
        targets.deep_view(),
        rust_channel@,
        rust_version@,
        nixpkgs_url@,
        logger@.build_id,
    ));
    logger.log_build_config(timestamp, &config);
    logger.log(timestamp, "Generating flake.nix file");
}

/// Decides what becomes of the description that was generated into
/// `generated_path`, given the content of the copy at `existing_path`, if
/// there is one, and logs the decision: that the copy in place is used,
/// where it says the same, or the notice of the change, which names both
/// files.
pub fn install_descriptor(
    logger: &mut BuildLogger,
    timestamp: u64,
    generated_path: &str,
    existing_path: &str,
    existing: &Option<String>,
    generated_content: &str,
) -> (r: Install)
    ensures
        r == install_of(drift_of(existing.deep_view(), generated_content@)),
        final(logger)@ == old(logger)@.logged(
            timestamp,
            install_message(generated_path@, existing_path@, r),
        ),
{
    let (install, message) = reconcile_descriptor(
        generated_path,
        existing_path,
        existing,
        generated_content,
    );
    logger.log(timestamp, message.as_str());
    install
}

/// Whether the lock file of the build description is to be held against
/// what it was before: right after the step that generated it anew.
pub fn lock_was_generated(before: Phase, after: Phase) -> (r: bool)
    ensures
        r == (before == Phase::FlakeLock && after == Phase::LockPermissions),
{
    before == Phase::FlakeLock && after == Phase::LockPermissions
}

/// The command that generates the lock file of the build description.
pub fn generate_flake_lock() -> (r: String)
    ensures
        r@ == flake_lock_command(),
{
    String::from_str(
        "cd .repx && nix --extra-experimental-features 'nix-command flakes' flake lock",
    )
}

/// A copy of `event`.
fn clone_event(event: &Event) -> (r: Event)
    ensures
        r.deep_view() == event.deep_view(),
{
    match event {
        Event::Provisioned(Ok(info)) => Event::Provisioned(
            Ok(ContainerInfo { id: info.id.clone(), name: info.name.clone() }),
        ),
        Event::Provisioned(Err(failure)) => Event::Provisioned(
            Err(
                ProvisionFailure {
                    reason: failure.reason.clone(),
                    container_id: match &failure.container_id {
                        Some(id) => Some(id.clone()),
                        None => None,
                    },
                },
            ),
        ),
        Event::Command(Ok(output)) => Event::Command(Ok(output.clone())),
        Event::Command(Err(e)) => Event::Command(Err(crate::driver::clone_error(e))),
        Event::TornDown(Ok(u)) => Event::TornDown(Ok(())),
        Event::TornDown(Err(reason)) => Event::TornDown(Err(reason.clone())),
    }
}

/// Runs a whole session over `events`: what the session asks for goes as
/// they say, one after the other. `generation` is the failure of the
/// generation of the build's description, if it failed; the session is then
/// over before the first event. Everything is logged at `timestamp`.
/// Returns the session as it stands after the last event, and what there
/// is to tell the user.
pub fn build_with_nix(
    generation: Option<DescriptorError>,
    targets: Vec<String>,
    fallback: Option<String>,
    cargo_lock_present: bool,
    events: &Vec<Event>,
    logger: &mut BuildLogger,
    timestamp: u64,
) -> (r: (Session, Vec<Notice>))
    ensures
        r.0@ == SessionModel::started(
            generation.deep_view(),
            targets.deep_view(),
            fallback.deep_view(),
            cargo_lock_present,
        ).run(events.deep_view()),
        final(logger)@ == SessionModel::started(
            generation.deep_view(),
            targets.deep_view(),
            fallback.deep_view(),
            cargo_lock_present,
        ).log_after(
            old(logger)@.logged(timestamp, opening_message(generation.deep_view())),
            events.deep_view(),
            timestamp,
        ),
        r.1.deep_view() == SessionModel::started(
            generation.deep_view(),
            targets.deep_view(),
            fallback.deep_view(),
            cargo_lock_present,
        ).notices(events.deep_view()),
        generation is Some ==> {
            &&& r.0@.result() == Some(
                Err::<(), SessionErrorModel>(
                    SessionErrorModel::Descriptor(generation.deep_view()->0),
                ),
            )
            &&& r.0@.next_action() == ActionModel::Finish
            &&& !r.0@.provisioned
            &&& r.1.deep_view() == Seq::<NoticeModel>::empty()
            &&& final(logger)@ == old(logger)@.logged(timestamp, completion_message(false))
        },
{
    proof {
        if generation is Some {
            lemma_failed_generation_asks_for_nothing(
                generation.deep_view()->0,
                targets.deep_view(),
                fallback.deep_view(),
                cargo_lock_present,
                events.deep_view(),
                logger@.logged(timestamp, completion_message(false)),
                timestamp,
            );
        }
    }
    let mut session = Session::start(
        generation,
        targets,
        fallback,
        cargo_lock_present,
        logger,
        timestamp,
    );
    let ghost start = session@;
    let ghost log = logger@;
    let mut notices: Vec<Notice> = Vec::new();
    let mut i: usize = 0;
    assert(events.deep_view().take(0) =~= Seq::<EventModel>::empty());
    assert(notices.deep_view() =~= Seq::<NoticeModel>::empty());
    while i < events.len()
        invariant
            i <= events.len(),
            session@ == start.run(events.deep_view().take(i as int)),
            logger@ == start.log_after(log, events.deep_view().take(i as int), timestamp),
            notices.deep_view() == start.notices(events.deep_view().take(i as int)),
        decreases events.len() - i,
    {
        let ghost now = events.deep_view().take(i + 1);
        assert(now.drop_last() =~= events.deep_view().take(i as int));
        assert(now.last() == events@[i as int].deep_view());
        let ghost before = notices.deep_view();
        let mut said = session.handle(clone_event(&events[i]), logger, timestamp);
        let ghost more = said.deep_view();
        notices.append(&mut said);
        assert(notices.deep_view() =~= before + more);
        i += 1;
    }
    assert(events.deep_view().take(events.len() as int) =~= events.deep_view());
    (session, notices)
}

} // verus!
