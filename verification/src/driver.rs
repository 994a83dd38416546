//! The build of the requested targets, one after the other.
//!
//! The driver runs nothing itself. It names the command to run next, takes
//! in how that command ended, and moves on: to the next step of the target,
//! to the next target, or to the end. Whoever holds the environment runs the
//! commands; every decision is taken here.

use crate::executor::{CommandError, CommandErrorModel};
use crate::logging::{command_entry, command_message};
use crate::targets::{is_recognized, is_windows_msvc, recognizes};
use crate::report::{Level, Report, ReportModel};
use crate::text::{
    decimal, lemma_deep_view_push, push_decimal, same_text, text2, text4, text5, trim, trimmed,
};
use vstd::prelude::*;
use vstd::string::*;

verus! {

// ---------------------------------------------------------------------------
// Commands and messages
// ---------------------------------------------------------------------------

/// Creates the root of the output tree.
pub open spec fn prepare_command() -> Seq<char> {
    "mkdir -p ./target/repro-build"@
}

/// The head of the primary build command: the engine's build call, with the
/// sandbox switched off for a target that cannot be built inside it.
pub open spec fn primary_head(target: Seq<char>) -> Seq<char> {
    "nix --extra-experimental-features 'nix-command flakes' build "@ + (if is_windows_msvc(
        target,
    ) {
        "--option sandbox false"@
    } else {
        ""@
    })
}

/// A build command: its head, the descriptor's output for the target, and
/// the target's output link.
pub open spec fn build_command(head: Seq<char>, target: Seq<char>) -> Seq<char> {
    head + " ./.repx#"@ + target + " --out-link ./result-"@ + target
}

/// Prints the descriptor, for the diagnosis of a failed build.
pub open spec fn diagnose_command() -> Seq<char> {
    "cat .repx/flake.nix"@
}

/// Prints `true` where the target's output link is there and leads
/// somewhere, `false` where it does not.
pub open spec fn verify_command(target: Seq<char>) -> Seq<char> {
    "if [ -L ./result-"@ + target + " ] && [ -e ./result-"@ + target
        + " ]; then echo \"true\"; else echo \"false\"; fi"@
}

/// Creates the target's directory in the output tree.
pub open spec fn mkdir_command(target: Seq<char>) -> Seq<char> {
    "mkdir -p ./target/repro-build/"@ + target
}

/// Copies the artifacts through an archive stream.
pub open spec fn archive_command(target: Seq<char>) -> Seq<char> {
    "tar -C ./result-"@ + target + " -cf - . | tar -C ./target/repro-build/"@ + target + " -xf -"@
}

/// Copies the artifacts file by file.
pub open spec fn copy_command(target: Seq<char>) -> Seq<char> {
    "cp -r ./result-"@ + target + "/. ./target/repro-build/"@ + target + "/"@
}

/// Removes the target's output link.
pub open spec fn unlink_command(target: Seq<char>) -> Seq<char> {
    "rm -rf ./result-"@ + target
}

/// Whether the output of the verify command says that the link is live.
pub open spec fn link_is_live(output: Seq<char>) -> bool {
    trimmed(output) == "true"@
}

pub open spec fn starting_message(count: nat) -> Seq<char> {
    "Starting build process for "@ + decimal(count) + " target(s)..."@
}

pub open spec fn building_message(target: Seq<char>) -> Seq<char> {
    "Building for target: "@ + target
}

pub open spec fn best_effort_message(target: Seq<char>) -> Seq<char> {
    "Target "@ + target + " is not in the lookup table; building it with default flags"@
}

pub open spec fn build_failed_message(target: Seq<char>, reason: Seq<char>) -> Seq<char> {
    "Build failed for target "@ + target + ": "@ + reason
}

pub open spec fn fallback_failed_message(target: Seq<char>, reason: Seq<char>) -> Seq<char> {
    "Fallback build failed for target "@ + target + ": "@ + reason
}

pub open spec fn descriptor_heading() -> Seq<char> {
    "Flake content for debugging:"@
}

pub open spec fn no_output_message(target: Seq<char>) -> Seq<char> {
    "Build produced no output for target: "@ + target
}

pub open spec fn mkdir_failed_message(reason: Seq<char>) -> Seq<char> {
    "Failed to create target directory: "@ + reason
}

pub open spec fn copy_failed_message(reason: Seq<char>) -> Seq<char> {
    "Failed to copy build artifacts: "@ + reason
}

pub open spec fn copy_given_up_message() -> Seq<char> {
    "Warning: Could not copy build artifacts, but build was successful"@
}

pub open spec fn copied_message() -> Seq<char> {
    "Successfully copied build artifacts"@
}

pub open spec fn copied_plainly_message() -> Seq<char> {
    "Successfully copied using fallback method"@
}

pub open spec fn unlink_failed_message(reason: Seq<char>) -> Seq<char> {
    "Failed to clean up symlink: "@ + reason
}

pub open spec fn success_message(target: Seq<char>) -> Seq<char> {
    "Build successful for target: "@ + target
}

pub open spec fn all_passed_message() -> Seq<char> {
    "All builds completed successfully!"@
}

pub open spec fn some_failed_message() -> Seq<char> {
    "Some builds failed or produced no output"@
}

// ---------------------------------------------------------------------------
// The state
// ---------------------------------------------------------------------------

/// Where the driver stands.
#[derive(Clone, Copy, PartialEq, Eq, Structural, Debug)]
pub enum Stage {
    /// The root of the output tree is being created.
    Prepare,
    /// The primary build command of the current target runs.
    Build,
    /// The alternate build command runs, after the primary one failed.
    Fallback,
    /// The descriptor is being fetched, after the build failed.
    Diagnose,
    /// The output link is being checked.
    Verify,
    /// The target's output directory is being created.
    MakeDir,
    /// The artifacts are being copied through an archive stream.
    Archive,
    /// The artifacts are being copied file by file.
    Copy,
    /// The output link is being removed.
    Unlink,
    /// Nothing is left to do.
    Done,
}

/// How the build of one target ended.
#[derive(Clone, Copy, PartialEq, Eq, Structural, Debug)]
pub enum TargetStatus {
    /// The build command succeeded and its output link is live.
    Succeeded,
    /// No build command succeeded.
    BuildFailed,
    /// A build command succeeded, but left no live output link.
    NoArtifact,
}

/// Where the build of one target stands.
#[derive(Clone, Copy, PartialEq, Eq, Structural, Debug)]
pub enum TargetState {
    /// Its turn has not come.
    Pending,
    /// It is being built with the primary build command.
    Running,
    /// It is being built with the alternate build command, after the
    /// primary one failed.
    RunningFallback,
    /// It is through, and its output link was live.
    Succeeded,
    /// It is through, and was not built or left no live output link.
    Failed,
}

/// One target and how its build ended.
pub struct TargetOutcome {
    pub target: String,
    pub status: TargetStatus,
    /// Whether the artifacts were copied into the output tree.
    pub staged: bool,
    /// Whether the alternate build command was tried.
    pub fell_back: bool,
}

/// What a `TargetOutcome` is, to a contract.
pub struct TargetOutcomeModel {
    pub target: Seq<char>,
    pub status: TargetStatus,
    pub staged: bool,
    pub fell_back: bool,
}

impl DeepView for TargetOutcome {
    type V = TargetOutcomeModel;

    open spec fn deep_view(&self) -> TargetOutcomeModel {
        TargetOutcomeModel {
            target: self.target@,
            status: self.status,
            staged: self.staged,
            fell_back: self.fell_back,
        }
    }
}

/// Why the build as a whole failed.
pub enum DriverError {
    /// The output tree could not be created: no target was attempted.
    Preparation(CommandError),
    /// Every target was attempted, and these failed.
    Aggregate { failed: Vec<String> },
}

/// What a `DriverError` is, to a contract.
pub enum DriverErrorModel {
    Preparation(CommandErrorModel),
    Aggregate { failed: Seq<Seq<char>> },
}

impl DeepView for DriverError {
    type V = DriverErrorModel;

    open spec fn deep_view(&self) -> DriverErrorModel {
        match self {
            DriverError::Preparation(e) => DriverErrorModel::Preparation(e.deep_view()),
            DriverError::Aggregate { failed } => DriverErrorModel::Aggregate {
                failed: failed.deep_view(),
            },
        }
    }
}

impl DriverErrorModel {
    /// The failure in one line.
    pub open spec fn message(self) -> Seq<char> {
        match self {
            DriverErrorModel::Preparation(e) => e.message(),
            DriverErrorModel::Aggregate { failed } => "Not all builds were successful"@,
        }
    }
}

impl DriverError {
    /// The failure in one line.
    pub fn message(&self) -> (r: String)
        ensures
            r@ == self.deep_view().message(),
    {
        match self {
            DriverError::Preparation(e) => e.message(),
            DriverError::Aggregate { failed } => String::from_str("Not all builds were successful"),
        }
    }
}

/// How a command ended, to a contract.
pub open spec fn event_model(event: Result<String, CommandError>) -> Result<
    Seq<char>,
    CommandErrorModel,
> {
    match event {
        Ok(output) => Ok(output@),
        Err(e) => Err(e.deep_view()),
    }
}

/// The targets among `done` that did not succeed, in order.
pub open spec fn failed_targets(done: Seq<TargetOutcomeModel>) -> Seq<Seq<char>>
    decreases done.len(),
{
    if done.len() == 0 {
        Seq::empty()
    } else if done.last().status != TargetStatus::Succeeded {
        failed_targets(done.drop_last()).push(done.last().target)
    } else {
        failed_targets(done.drop_last())
    }
}

/// The names of the targets of `done`, in order.
pub open spec fn names_of(done: Seq<TargetOutcomeModel>) -> Seq<Seq<char>> {
    done.map_values(|o: TargetOutcomeModel| o.target)
}

/// What a driver is, to a contract.
pub struct DriverModel {
    /// The head of the alternate build command, where one is configured.
    pub fallback: Option<Seq<char>>,
    pub stage: Stage,
    /// The target that is being built; empty before the first and after the
    /// last.
    pub current: Seq<char>,
    /// Whether the artifacts of the current target were copied.
    pub staged: bool,
    /// Whether the alternate build command was tried for the current
    /// target.
    pub fell_back: bool,
    /// The targets that are through, in order.
    pub done: Seq<TargetOutcomeModel>,
    /// The targets that are still to come, in order.
    pub queue: Seq<Seq<char>>,
    /// The failure that ended the build before any target.
    pub fatal: Option<CommandErrorModel>,
}

impl DriverModel {
    /// The driver before anything has run.
    pub open spec fn new(targets: Seq<Seq<char>>, fallback: Option<Seq<char>>) -> Self {
        DriverModel {
            fallback,
            stage: Stage::Prepare,
            current: Seq::empty(),
            staged: false,
            fell_back: false,
            done: Seq::empty(),
            queue: targets,
            fatal: None,
        }
    }

    /// Whether a target is being built.
    pub open spec fn in_target(self) -> bool {
        self.stage != Stage::Prepare && self.stage != Stage::Done
    }

    /// Every target of the build, in the order given: those that are
    /// through, the one that is being built, those that are to come.
    pub open spec fn targets(self) -> Seq<Seq<char>> {
        names_of(self.done) + (if self.in_target() {
            seq![self.current]
        } else {
            Seq::empty()
        }) + self.queue
    }

    /// Where the build of the target at position `i` of `targets()` stands.
    pub open spec fn state_at(self, i: int) -> TargetState
        recommends
            0 <= i < self.targets().len(),
    {
        if i < self.done.len() {
            if self.done[i].status == TargetStatus::Succeeded {
                TargetState::Succeeded
            } else {
                TargetState::Failed
            }
        } else if i == self.done.len() && self.in_target() {
            if self.fell_back {
                TargetState::RunningFallback
            } else {
                TargetState::Running
            }
        } else {
            TargetState::Pending
        }
    }

    /// Whether every target that is through succeeded.
    pub open spec fn all_passed(self) -> bool {
        forall|i: int| 0 <= i < self.done.len() ==> (#[trigger] self.done[i]).status
            == TargetStatus::Succeeded
    }

    /// The command to run next; none once the driver is done.
    pub open spec fn pending_command(self) -> Option<Seq<char>> {
        match self.stage {
            Stage::Prepare => Some(prepare_command()),
            Stage::Build => Some(build_command(primary_head(self.current), self.current)),
            Stage::Fallback => match self.fallback {
                Some(head) => Some(build_command(head, self.current)),
                None => Some(build_command(primary_head(self.current), self.current)),
            },
            Stage::Diagnose => Some(diagnose_command()),
            Stage::Verify => Some(verify_command(self.current)),
            Stage::MakeDir => Some(mkdir_command(self.current)),
            Stage::Archive => Some(archive_command(self.current)),
            Stage::Copy => Some(copy_command(self.current)),
            Stage::Unlink => Some(unlink_command(self.current)),
            Stage::Done => None,
        }
    }

    /// The driver at another stage of the same target.
    pub open spec fn at(self, stage: Stage) -> Self {
        DriverModel { stage, ..self }
    }

    /// The driver once the current target is through with `status`.
    pub open spec fn closed(self, status: TargetStatus) -> Self {
        DriverModel {
            done: self.done.push(
                TargetOutcomeModel {
                    target: self.current,
                    status,
                    staged: self.staged,
                    fell_back: self.fell_back,
                },
            ),
            ..self
        }
    }

    /// Turns to the next target of the queue, or to the end where the queue
    /// is empty.
    pub open spec fn begin_next(self, report: ReportModel) -> (DriverModel, ReportModel) {
        if self.queue.len() > 0 {
            let target = self.queue[0];
            let said = report.say(Level::Info, building_message(target));
            (
                DriverModel {
                    stage: Stage::Build,
                    current: target,
                    staged: false,
                    fell_back: false,
                    queue: self.queue.remove(0),
                    ..self
                },
                if is_recognized(target) {
                    said
                } else {
                    said.log(best_effort_message(target))
                },
            )
        } else {
            (
                DriverModel {
                    stage: Stage::Done,
                    current: Seq::empty(),
                    staged: false,
                    fell_back: false,
                    ..self
                },
                if self.all_passed() {
                    report.say(Level::Success, all_passed_message())
                } else {
                    report.say(Level::Warning, some_failed_message())
                },
            )
        }
    }

    /// One step: the driver after the pending command ended as `event`
    /// says, and what there is to report.
    pub open spec fn step(self, event: Result<Seq<char>, CommandErrorModel>) -> (
        DriverModel,
        ReportModel,
    ) {
        let command = match self.pending_command() {
            Some(c) => c,
            None => Seq::empty(),
        };
        let none = ReportModel::empty();
        match self.stage {
            Stage::Prepare => match event {
                Ok(output) => self.begin_next(
                    none.log(command_message(command, output)).say(
                        Level::Info,
                        starting_message(self.queue.len()),
                    ),
                ),
                Err(e) => (DriverModel { stage: Stage::Done, fatal: Some(e), ..self }, none),
            },
            Stage::Build => match event {
                Ok(output) => (self.at(Stage::Verify), none.log(command_message(command, output))),
                Err(e) => (
                    if self.fallback is Some {
                        DriverModel { stage: Stage::Fallback, fell_back: true, ..self }
                    } else {
                        self.at(Stage::Diagnose)
                    },
                    none.say(Level::Error, build_failed_message(self.current, e.message())),
                ),
            },
            Stage::Fallback => match event {
                Ok(output) => (self.at(Stage::Verify), none.log(command_message(command, output))),
                Err(e) => (
                    self.at(Stage::Diagnose),
                    none.say(Level::Error, fallback_failed_message(self.current, e.message())),
                ),
            },
            Stage::Diagnose => match event {
                Ok(output) => self.closed(TargetStatus::BuildFailed).begin_next(
                    none.log(descriptor_heading()).log(output),
                ),
                Err(e) => self.closed(TargetStatus::BuildFailed).begin_next(none),
            },
            Stage::Verify => match event {
                Ok(output) => if link_is_live(output) {
                    (self.at(Stage::MakeDir), none.log(command_message(command, output)))
                } else {
                    self.closed(TargetStatus::NoArtifact).begin_next(
                        none.log(command_message(command, output)).say(
                            Level::Warning,
                            no_output_message(self.current),
                        ),
                    )
                },
                Err(e) => self.closed(TargetStatus::NoArtifact).begin_next(
                    none.say(Level::Warning, no_output_message(self.current)),
                ),
            },
            Stage::MakeDir => match event {
                Ok(output) => (self.at(Stage::Archive), none.log(command_message(command, output))),
                Err(e) => (
                    self.at(Stage::Unlink),
                    none.say(Level::Warning, mkdir_failed_message(e.message())),
                ),
            },
            Stage::Archive => match event {
                Ok(output) => (
                    DriverModel { stage: Stage::Unlink, staged: true, ..self },
                    none.log(command_message(command, output)).notify(
                        Level::Success,
                        copied_message(),
                    ),
                ),
                Err(e) => (
                    self.at(Stage::Copy),
                    none.say(Level::Warning, copy_failed_message(e.message())),
                ),
            },
            Stage::Copy => match event {
                Ok(output) => (
                    DriverModel { stage: Stage::Unlink, staged: true, ..self },
                    none.log(command_message(command, output)).notify(
                        Level::Success,
                        copied_plainly_message(),
                    ),
                ),
                Err(e) => (
                    self.at(Stage::Unlink),
                    none.say(Level::Warning, copy_given_up_message()),
                ),
            },
            Stage::Unlink => self.closed(TargetStatus::Succeeded).begin_next(
                (match event {
                    Ok(output) => none.log(command_message(command, output)),
                    Err(e) => none.say(Level::Warning, unlink_failed_message(e.message())),
                }).say(Level::Success, success_message(self.current)),
            ),
            Stage::Done => (self, none),
        }
    }

    /// How the build ended; nothing before it has.
    pub open spec fn result(self) -> Option<Result<(), DriverErrorModel>> {
        if self.stage != Stage::Done {
            None
        } else {
            match self.fatal {
                Some(e) => Some(Err(DriverErrorModel::Preparation(e))),
                None => if self.all_passed() {
                    Some(Ok(()))
                } else {
                    Some(Err(DriverErrorModel::Aggregate { failed: failed_targets(self.done) }))
                },
            }
        }
    }
}

/// Drives the build of a list of targets.
pub struct BuildDriver {
    fallback: Option<String>,
    stage: Stage,
    current: String,
    staged: bool,
    fell_back: bool,
    done: Vec<TargetOutcome>,
    queue: Vec<String>,
    fatal: Option<CommandError>,
}

impl View for BuildDriver {
    type V = DriverModel;

    closed spec fn view(&self) -> DriverModel {
        DriverModel {
            fallback: self.fallback.deep_view(),
            stage: self.stage,
            current: self.current@,
            staged: self.staged,
            fell_back: self.fell_back,
            done: self.done.deep_view(),
            queue: self.queue.deep_view(),
            fatal: self.fatal.deep_view(),
        }
    }
}

impl BuildDriver {
    /// A driver for `targets`, in the order given. With `fallback`, the head
    /// of an alternate build command, a target whose primary build fails is
    /// tried once more with that command; without it, never.
    pub fn new(targets: Vec<String>, fallback: Option<String>) -> (r: BuildDriver)
        ensures
            r@ == DriverModel::new(targets.deep_view(), fallback.deep_view()),
    {
        let done: Vec<TargetOutcome> = Vec::new();
        assert(done.deep_view() =~= Seq::<TargetOutcomeModel>::empty());
        BuildDriver {
            fallback,
            stage: Stage::Prepare,
            current: String::new(),
            staged: false,
            fell_back: false,
            done,
            queue: targets,
            fatal: None,
        }
    }

    /// Where the driver stands.
    pub fn stage(&self) -> (r: Stage)
        ensures
            r == self@.stage,
    {
        self.stage
    }

    /// Whether nothing is left to do.
    pub fn is_done(&self) -> (r: bool)
        ensures
            r == (self@.stage == Stage::Done),
    {
        self.stage == Stage::Done
    }

    /// Where the build of the target at position `i` stands; nothing where
    /// the build has no such target.
    pub fn target_state(&self, i: usize) -> (r: Option<TargetState>)
        ensures
            r == (if i < self@.targets().len() {
                Some(self@.state_at(i as int))
            } else {
                None
            }),
    {
        proof {
            assert(names_of(self@.done).len() == self@.done.len());
        }
        let current = self.stage != Stage::Prepare && self.stage != Stage::Done;
        if i < self.done.len() {
            if self.done[i].status == TargetStatus::Succeeded {
                Some(TargetState::Succeeded)
            } else {
                Some(TargetState::Failed)
            }
        } else if i == self.done.len() && current {
            if self.fell_back {
                Some(TargetState::RunningFallback)
            } else {
                Some(TargetState::Running)
            }
        } else {
            let after = i - self.done.len();
            let waiting = if current {
                after - 1
            } else {
                after
            };
            if waiting < self.queue.len() {
                Some(TargetState::Pending)
            } else {
                None
            }
        }
    }

    /// The targets that are still to come, in order.
    pub fn remaining(&self) -> (r: &Vec<String>)
        ensures
            r.deep_view() == self@.queue,
    {
        &self.queue
    }

    /// The targets that are through, and how each ended.
    pub fn outcomes(&self) -> (r: &Vec<TargetOutcome>)
        ensures
            r.deep_view() == self@.done,
    {
        &self.done
    }

    fn primary_head_text(&self) -> (r: String)
        ensures
            r@ == primary_head(self@.current),
    {
        let mut r = String::from_str(
            "nix --extra-experimental-features 'nix-command flakes' build ",
        );
        if same_text(self.current.as_str(), "x86_64-pc-windows-msvc") {
            r.append("--option sandbox false");
        } else {
            r.append("");
        }
        r
    }

    fn build_command_text(&self, head: &str) -> (r: String)
        ensures
            r@ == build_command(head@, self@.current),
    {
        let t = self.current.as_str();
        text4(head, " ./.repx#", t, " --out-link ./result-")
            .concat(t)
    }

    /// The command to run next; none once the driver is done.
    pub fn pending_command(&self) -> (r: Option<String>)
        ensures
            r.deep_view() == self@.pending_command(),
    {
        let t = self.current.as_str();
        match self.stage {
            Stage::Prepare => Some(String::from_str("mkdir -p ./target/repro-build")),
            Stage::Build => {
                let head = self.primary_head_text();
                Some(self.build_command_text(head.as_str()))
            },
            Stage::Fallback => match &self.fallback {
                Some(head) => Some(self.build_command_text(head.as_str())),
                None => {
                    let head = self.primary_head_text();
                    Some(self.build_command_text(head.as_str()))
                },
            },
            Stage::Diagnose => Some(String::from_str("cat .repx/flake.nix")),
            Stage::Verify => Some(
                text5(
                    "if [ -L ./result-",
                    t,
                    " ] && [ -e ./result-",
                    t,
                    " ]; then echo \"true\"; else echo \"false\"; fi",
                ),
            ),
            Stage::MakeDir => Some(text2("mkdir -p ./target/repro-build/", t)),
            Stage::Archive => Some(
                text5("tar -C ./result-", t, " -cf - . | tar -C ./target/repro-build/", t, " -xf -"),
            ),
            Stage::Copy => Some(text5("cp -r ./result-", t, "/. ./target/repro-build/", t, "/")),
            Stage::Unlink => Some(text2("rm -rf ./result-", t)),
            Stage::Done => None,
        }
    }

    fn all_passed(&self) -> (r: bool)
        ensures
            r == self@.all_passed(),
    {
        let mut i: usize = 0;
        while i < self.done.len()
            invariant
                i <= self.done.len(),
                forall|j: int|
                    0 <= j < i ==> (#[trigger] self.done.deep_view()[j]).status
                        == TargetStatus::Succeeded,
            decreases self.done.len() - i,
        {
            if self.done[i].status != TargetStatus::Succeeded {
                assert(self.done.deep_view()[i as int].status != TargetStatus::Succeeded);
                return false;
            }
            i += 1;
        }
        true
    }

    fn close(&mut self, status: TargetStatus)
        ensures
            final(self)@ == old(self)@.closed(status),
    {
        let ghost before = self.done.deep_view();
        let outcome = TargetOutcome {
            target: self.current.clone(),
            status,
            staged: self.staged,
            fell_back: self.fell_back,
        };
        self.done.push(outcome);
        assert(self.done.deep_view() =~= before.push(outcome.deep_view()));
    }

    fn begin_next(&mut self, report: &mut Report)
        ensures
            (final(self)@, final(report).deep_view()) == old(self)@.begin_next(
                old(report).deep_view(),
            ),
    {
        if self.queue.len() > 0 {
            let ghost before = self.queue.deep_view();
            let target = self.queue.remove(0);
            assert(self.queue.deep_view() =~= before.remove(0));
            assert(target@ == before[0]);
            report.say(Level::Info, text2("Building for target: ", target.as_str()));
            if !recognizes(target.as_str()) {
                report.log(
                    text2("Target ", target.as_str()).concat(
                        " is not in the lookup table; building it with default flags",
                    ),
                );
            }
            self.stage = Stage::Build;
            self.current = target;
            self.staged = false;
            self.fell_back = false;
        } else {
            if self.all_passed() {
                report.say(Level::Success, String::from_str("All builds completed successfully!"));
            } else {
                report.say(
                    Level::Warning,
                    String::from_str("Some builds failed or produced no output"),
                );
            }
            self.stage = Stage::Done;
            self.current = String::new();
            self.staged = false;
            self.fell_back = false;
        }
    }

    /// Takes in how the pending command ended, moves on, and returns what
    /// there is to report. Once the driver is done, nothing happens.
    pub fn advance(&mut self, event: Result<String, CommandError>) -> (r: Report)
        ensures
            (final(self)@, r.deep_view()) == old(self)@.step(event_model(event)),
    {
        let mut report = Report::new();
        let command = match self.pending_command() {
            Some(c) => c,
            None => String::new(),
        };
        let cmd = command.as_str();
        let t = self.current.clone();
        let target = t.as_str();
        match self.stage {
            Stage::Prepare => match event {
                Ok(output) => {
                    report.log(command_entry(cmd, output.as_str()));
                    let mut m = String::from_str("Starting build process for ");
                    let count: u64 = self.queue.len() as u64;
                    push_decimal(&mut m, count);
                    m.append(" target(s)...");
                    report.say(Level::Info, m);
                    self.begin_next(&mut report);
                },
                Err(e) => {
                    self.stage = Stage::Done;
                    self.fatal = Some(e);
                },
            },
            Stage::Build => match event {
                Ok(output) => {
                    report.log(command_entry(cmd, output.as_str()));
                    self.stage = Stage::Verify;
                },
                Err(e) => {
                    report.say(
                        Level::Error,
                        text4("Build failed for target ", target, ": ", e.message().as_str()),
                    );
                    if self.fallback.is_some() {
                        self.stage = Stage::Fallback;
                        self.fell_back = true;
                    } else {
                        self.stage = Stage::Diagnose;
                    }
                },
            },
            Stage::Fallback => match event {
                Ok(output) => {
                    report.log(command_entry(cmd, output.as_str()));
                    self.stage = Stage::Verify;
                },
                Err(e) => {
                    report.say(
                        Level::Error,
                        text4(
                            "Fallback build failed for target ",
                            target,
                            ": ",
                            e.message().as_str(),
                        ),
                    );
                    self.stage = Stage::Diagnose;
                },
            },
            Stage::Diagnose => {
                match event {
                    Ok(output) => {
                        report.log(String::from_str("Flake content for debugging:"));
                        report.log(output);
                    },
                    Err(e) => {},
                }
                self.close(TargetStatus::BuildFailed);
                self.begin_next(&mut report);
            },
            Stage::Verify => match event {
                Ok(output) => {
                    report.log(command_entry(cmd, output.as_str()));
                    let answer = trim(output.as_str());
                    if same_text(answer.as_str(), "true") {
                        self.stage = Stage::MakeDir;
                    } else {
                        report.say(
                            Level::Warning,
                            text2("Build produced no output for target: ", target),
                        );
                        self.close(TargetStatus::NoArtifact);
                        self.begin_next(&mut report);
                    }
                },
                Err(e) => {
                    report.say(
                        Level::Warning,
                        text2("Build produced no output for target: ", target),
                    );
                    self.close(TargetStatus::NoArtifact);
                    self.begin_next(&mut report);
                },
            },
            Stage::MakeDir => match event {
                Ok(output) => {
                    report.log(command_entry(cmd, output.as_str()));
                    self.stage = Stage::Archive;
                },
                Err(e) => {
                    report.say(
                        Level::Warning,
                        text2("Failed to create target directory: ", e.message().as_str()),
                    );
                    self.stage = Stage::Unlink;
                },
            },
            Stage::Archive => match event {
                Ok(output) => {
                    report.log(command_entry(cmd, output.as_str()));
                    report.notify(
                        Level::Success,
                        String::from_str("Successfully copied build artifacts"),
                    );
                    self.staged = true;
                    self.stage = Stage::Unlink;
                },
                Err(e) => {
                    report.say(
                        Level::Warning,
                        text2("Failed to copy build artifacts: ", e.message().as_str()),
                    );
                    self.stage = Stage::Copy;
                },
            },
            Stage::Copy => match event {
                Ok(output) => {
                    report.log(command_entry(cmd, output.as_str()));
                    report.notify(
                        Level::Success,
                        String::from_str("Successfully copied using fallback method"),
                    );
                    self.staged = true;
                    self.stage = Stage::Unlink;
                },
                Err(e) => {
                    report.say(
                        Level::Warning,
                        String::from_str(
                            "Warning: Could not copy build artifacts, but build was successful",
                        ),
                    );
                    self.stage = Stage::Unlink;
                },
            },
            Stage::Unlink => {
                match event {
                    Ok(output) => {
                        report.log(command_entry(cmd, output.as_str()));
                    },
                    Err(e) => {
                        report.say(
                            Level::Warning,
                            text2("Failed to clean up symlink: ", e.message().as_str()),
                        );
                    },
                }
                report.say(Level::Success, text2("Build successful for target: ", target));
                self.close(TargetStatus::Succeeded);
                self.begin_next(&mut report);
            },
            Stage::Done => {},
        }
        report
    }

    fn failed(&self) -> (r: Vec<String>)
        ensures
            r.deep_view() == failed_targets(self@.done),
    {
        let mut out: Vec<String> = Vec::new();
        let mut i: usize = 0;
        assert(out.deep_view() =~= Seq::<Seq<char>>::empty());
        assert(self.done.deep_view().take(0) =~= Seq::<TargetOutcomeModel>::empty());
        while i < self.done.len()
            invariant
                i <= self.done.len(),
                out.deep_view() == failed_targets(self.done.deep_view().take(i as int)),
            decreases self.done.len() - i,
        {
            let ghost now = self.done.deep_view().take(i + 1);
            assert(now.drop_last() =~= self.done.deep_view().take(i as int));
            assert(now.last() == self.done@[i as int].deep_view());
            if self.done[i].status != TargetStatus::Succeeded {
                let name = self.done[i].target.clone();
                let ghost before = out;
                out.push(name);
                proof {
                    lemma_deep_view_push(before, out, name);
                }
            }
            i += 1;
        }
        assert(self.done.deep_view().take(self.done.len() as int) =~= self.done.deep_view());
        out
    }

    /// How the build ended; nothing before it has. The build succeeded
    /// where every target did; else the failure names the targets that did
    /// not.
    pub fn result(&self) -> (r: Option<Result<(), DriverError>>)
        ensures
            match r {
                None => self@.result() is None,
                Some(Ok(u)) => self@.result() == Some(Ok::<(), DriverErrorModel>(())),
                Some(Err(e)) => self@.result() == Some(
                    Err::<(), DriverErrorModel>(e.deep_view()),
                ),
            },
    {
        if self.stage != Stage::Done {
            return None;
        }
        match &self.fatal {
            Some(e) => Some(Err(DriverError::Preparation(clone_error(e)))),
            None => {
                if self.all_passed() {
                    Some(Ok(()))
                } else {
                    Some(Err(DriverError::Aggregate { failed: self.failed() }))
                }
            },
        }
    }
}

/// A copy of `e`.
pub fn clone_error(e: &CommandError) -> (r: CommandError)
    ensures
        r.deep_view() == e.deep_view(),
{
    match e {
        CommandError::Exit { exit_code, command } => CommandError::Exit {
            exit_code: *exit_code,
            command: command.clone(),
        },
        CommandError::Aborted { command, reason } => CommandError::Aborted {
            command: command.clone(),
            reason: reason.clone(),
        },
    }
}

// ---------------------------------------------------------------------------
// What holds of every build
// ---------------------------------------------------------------------------

impl DriverModel {
    /// The driver after the commands it asked for ended as `events` say, one
    /// after the other.
    pub open spec fn run(self, events: Seq<Result<Seq<char>, CommandErrorModel>>) -> DriverModel
        decreases events.len(),
    {
        if events.len() == 0 {
            self
        } else {
            self.run(events.drop_last()).step(events.last()).0
        }
    }

    /// What every driver that started fresh satisfies: it is done only with
    /// an empty queue or on a failed preparation, no target is through
    /// before the preparation is, nor after it failed, and the build of a
    /// target begins with nothing copied and nothing tried again.
    pub open spec fn settled(self) -> bool {
        &&& self.stage == Stage::Done && self.fatal is None ==> self.queue.len() == 0
        &&& self.fatal is Some ==> self.stage == Stage::Done && self.done.len() == 0
        &&& self.stage == Stage::Prepare ==> self.done.len() == 0
        &&& self.stage == Stage::Build ==> !self.staged && !self.fell_back
    }

    /// Two drivers stand at the same place: same step of the same target,
    /// same targets to come, same alternate command. What became of earlier
    /// targets is left aside.
    pub open spec fn same_position(self, other: DriverModel) -> bool {
        &&& self.stage == other.stage
        &&& self.current == other.current
        &&& self.staged == other.staged
        &&& self.fell_back == other.fell_back
        &&& self.queue == other.queue
        &&& self.fallback == other.fallback
    }

    /// A bound on the steps that are left until the driver is done: seven
    /// for each target to come, and as many for the current target as its
    /// longest way from the stage it is at.
    pub open spec fn steps_left(self) -> nat {
        match self.stage {
            Stage::Done => 0,
            Stage::Prepare => 1 + 7 * self.queue.len(),
            Stage::Build => 7 + 7 * self.queue.len(),
            Stage::Fallback => 6 + 7 * self.queue.len(),
            Stage::Verify => 5 + 7 * self.queue.len(),
            Stage::MakeDir => 4 + 7 * self.queue.len(),
            Stage::Archive => 3 + 7 * self.queue.len(),
            Stage::Copy => 2 + 7 * self.queue.len(),
            Stage::Unlink => 1 + 7 * self.queue.len(),
            Stage::Diagnose => 1 + 7 * self.queue.len(),
        }
    }

    /// What a step adds to the targets that are through.
    pub open spec fn newly_done(self, after: DriverModel) -> Seq<TargetOutcomeModel> {
        after.done.skip(self.done.len() as int)
    }
}

/// A step never drops, adds or reorders a target.
pub proof fn lemma_step_keeps_the_targets(
    m: DriverModel,
    event: Result<Seq<char>, CommandErrorModel>,
)
    ensures
        m.step(event).0.targets() == m.targets(),
        m.step(event).0.fallback == m.fallback,
        m.settled() ==> m.step(event).0.settled(),
{
    let after = m.step(event).0;
    let outcome = |status: TargetStatus|
        TargetOutcomeModel {
            target: m.current,
            status,
            staged: m.staged,
            fell_back: m.fell_back,
        };
    assert forall|status: TargetStatus|
        names_of(m.done.push(#[trigger] outcome(status))) == names_of(m.done).push(
            m.current,
        ) by {
        assert(names_of(m.done.push(outcome(status))) =~= names_of(m.done).push(m.current));
    }
    if m.queue.len() > 0 {
        assert(seq![m.queue[0]] + m.queue.remove(0) =~= m.queue);
    }
    assert(after.targets() =~= m.targets());
}

/// However the commands end, the targets stay what they were, and a driver
/// that started fresh stays settled.
pub proof fn lemma_run_keeps_the_targets(
    m: DriverModel,
    events: Seq<Result<Seq<char>, CommandErrorModel>>,
)
    ensures
        m.run(events).targets() == m.targets(),
        m.run(events).fallback == m.fallback,
        m.settled() ==> m.run(events).settled(),
    decreases events.len(),
{
    if events.len() > 0 {
        lemma_run_keeps_the_targets(m, events.drop_last());
        lemma_step_keeps_the_targets(m.run(events.drop_last()), events.last());
    }
}

/// How far the build of a target has come, by its state.
pub open spec fn rank_of(state: TargetState) -> int {
    match state {
        TargetState::Pending => 0,
        TargetState::Running => 1,
        TargetState::RunningFallback => 2,
        TargetState::Succeeded => 3,
        TargetState::Failed => 3,
    }
}

/// The build of a target only moves forward: from pending to running, from
/// there to the alternate command where one is configured, and at last to
/// success or failure, where it stays. The alternate command is tried at
/// most once, and only where one is configured.
pub proof fn lemma_target_states_move_forward(
    m: DriverModel,
    event: Result<Seq<char>, CommandErrorModel>,
    i: int,
)
    requires
        0 <= i,
    ensures
        rank_of(m.state_at(i)) <= rank_of(m.step(event).0.state_at(i)),
        rank_of(m.state_at(i)) == 3 ==> m.step(event).0.state_at(i) == m.state_at(i),
        m.state_at(i) == TargetState::Pending ==> m.step(event).0.state_at(i)
            == TargetState::Pending || m.step(event).0.state_at(i) == TargetState::Running,
        m.step(event).0.state_at(i) == TargetState::RunningFallback && m.state_at(i)
            != TargetState::RunningFallback ==> m.fallback is Some && m.stage == Stage::Build,
{
    let after = m.step(event).0;
    if i < m.done.len() {
        assert(after.done[i] == m.done[i]);
    }
}

/// Until the driver is done it asks for a command, and every step brings it
/// closer to the end: no command can make it stand still or go back.
pub proof fn lemma_step_makes_progress(m: DriverModel, event: Result<Seq<char>, CommandErrorModel>)
    requires
        m.stage != Stage::Done,
    ensures
        m.pending_command() is Some,
        m.step(event).0.steps_left() < m.steps_left(),
{
    if m.queue.len() > 0 {
        assert(m.queue.remove(0).len() == m.queue.len() - 1);
    }
}

/// The build comes to its end: after at most one command for the
/// preparation and seven for each target the driver is done, however the
/// commands end.
pub proof fn lemma_build_comes_to_an_end(
    m: DriverModel,
    events: Seq<Result<Seq<char>, CommandErrorModel>>,
)
    ensures
        m.run(events).steps_left() + events.len() <= m.steps_left() || m.run(events).stage
            == Stage::Done,
        events.len() >= m.steps_left() ==> m.run(events).stage == Stage::Done,
    decreases events.len(),
{
    if events.len() > 0 {
        let before = m.run(events.drop_last());
        lemma_build_comes_to_an_end(m, events.drop_last());
        if before.stage != Stage::Done {
            lemma_step_makes_progress(before, events.last());
        }
    }
}

/// Every target is attempted, whatever became of the targets before it:
/// once a build that could prepare its output tree is done, the targets that
/// are through are the targets that were asked for, in the order given. The
/// build then succeeded if and only if each of them did.
pub proof fn lemma_every_target_is_attempted(
    targets: Seq<Seq<char>>,
    fallback: Option<Seq<char>>,
    events: Seq<Result<Seq<char>, CommandErrorModel>>,
)
    requires
        DriverModel::new(targets, fallback).run(events).stage == Stage::Done,
        DriverModel::new(targets, fallback).run(events).fatal is None,
    ensures
        names_of(DriverModel::new(targets, fallback).run(events).done) == targets,
        DriverModel::new(targets, fallback).run(events).result() == Some(
            Ok::<(), DriverErrorModel>(()),
        ) <==> DriverModel::new(targets, fallback).run(events).all_passed(),
{
    let start = DriverModel::new(targets, fallback);
    let end = start.run(events);
    lemma_run_keeps_the_targets(start, events);
    assert(start.targets() =~= targets);
    assert(end.targets() =~= names_of(end.done));
}

/// The build fails exactly where a target failed: the failure of a finished
/// build names no target if and only if every target succeeded.
pub proof fn lemma_failed_targets(done: Seq<TargetOutcomeModel>)
    ensures
        failed_targets(done).len() == 0 <==> forall|i: int|
            0 <= i < done.len() ==> (#[trigger] done[i]).status == TargetStatus::Succeeded,
    decreases done.len(),
{
    if done.len() > 0 {
        lemma_failed_targets(done.drop_last());
        if failed_targets(done).len() == 0 {
            assert forall|i: int| 0 <= i < done.len() implies (#[trigger] done[i]).status
                == TargetStatus::Succeeded by {
                if i < done.len() - 1 {
                    assert(done.drop_last()[i] == done[i]);
                }
            }
        } else if done.last().status == TargetStatus::Succeeded {
            let k = choose|k: int|
                0 <= k < done.len() - 1 && (#[trigger] done.drop_last()[k]).status
                    != TargetStatus::Succeeded;
            assert(done[k] == done.drop_last()[k]);
        }
    }
}

/// What became of earlier targets has no part in how a target is built: two
/// drivers at the same place ask for the same command, take the same step on
/// the same event, and record the same outcome.
pub proof fn lemma_targets_are_isolated(
    a: DriverModel,
    b: DriverModel,
    event: Result<Seq<char>, CommandErrorModel>,
)
    requires
        a.same_position(b),
        a.stage != Stage::Done,
    ensures
        a.pending_command() == b.pending_command(),
        a.step(event).0.same_position(b.step(event).0),
        a.newly_done(a.step(event).0) == b.newly_done(b.step(event).0),
{
    let a1 = a.step(event).0;
    let b1 = b.step(event).0;
    assert(a.newly_done(a1) =~= b.newly_done(b1));
}

/// A build command that succeeded without leaving a live output link fails
/// its target as a build command that did not succeed does: the target is
/// through without success, whether or not its artifacts could be looked
/// at, and the driver turns to the same next target.
pub proof fn lemma_dead_link_fails_the_target(
    m: DriverModel,
    output: Seq<char>,
    diagnosis: Result<Seq<char>, CommandErrorModel>,
)
    requires
        !link_is_live(output),
    ensures
        ({
            let dead = m.at(Stage::Verify).step(Ok(output)).0;
            let failed = m.at(Stage::Diagnose).step(diagnosis).0;
            &&& dead.same_position(failed)
            &&& dead.done == m.done.push(
                TargetOutcomeModel {
                    target: m.current,
                    status: TargetStatus::NoArtifact,
                    staged: m.staged,
                    fell_back: m.fell_back,
                },
            )
            &&& failed.done == m.done.push(
                TargetOutcomeModel {
                    target: m.current,
                    status: TargetStatus::BuildFailed,
                    staged: m.staged,
                    fell_back: m.fell_back,
                },
            )
            &&& !dead.all_passed()
            &&& !failed.all_passed()
            &&& dead.result() != Some(Ok::<(), DriverErrorModel>(()))
            &&& failed.result() != Some(Ok::<(), DriverErrorModel>(()))
        }),
{
    let dead = m.at(Stage::Verify).step(Ok(output)).0;
    let failed = m.at(Stage::Diagnose).step(diagnosis).0;
    assert(dead.done.last().status != TargetStatus::Succeeded);
    assert(failed.done.last().status != TargetStatus::Succeeded);
    assert(dead.done[dead.done.len() - 1].status != TargetStatus::Succeeded);
    assert(failed.done[failed.done.len() - 1].status != TargetStatus::Succeeded);
}

impl DriverModel {
    /// Two drivers are alike but for the target at position `k`: they stand
    /// at the same place, the same targets are through with the same
    /// outcomes, except the target at `k`, which is through in both
    /// without success.
    pub open spec fn alike_but_for(self, other: DriverModel, k: int) -> bool {
        &&& self.same_position(other)
        &&& self.fatal == other.fatal
        &&& self.done.len() == other.done.len()
        &&& 0 <= k < self.done.len()
        &&& forall|i: int|
            0 <= i < self.done.len() && i != k ==> (#[trigger] self.done[i]) == other.done[i]
        &&& self.done[k].target == other.done[k].target
        &&& self.done[k].status != TargetStatus::Succeeded
        &&& other.done[k].status != TargetStatus::Succeeded
    }

    /// How the commands end for a target whose build fails for good: the
    /// primary build fails, the alternate build fails where one is
    /// configured, and the descriptor is fetched.
    pub open spec fn failed_build(
        self,
        failure: CommandErrorModel,
        alternate_failure: CommandErrorModel,
        diagnosis: Result<Seq<char>, CommandErrorModel>,
    ) -> Seq<Result<Seq<char>, CommandErrorModel>> {
        let none = Seq::<Result<Seq<char>, CommandErrorModel>>::empty();
        if self.fallback is Some {
            none.push(Err(failure)).push(Err(alternate_failure)).push(diagnosis)
        } else {
            none.push(Err(failure)).push(diagnosis)
        }
    }

    /// How the commands end for a target whose build succeeds without
    /// leaving a live output link.
    pub open spec fn dead_link(built: Seq<char>, answer: Seq<char>) -> Seq<
        Result<Seq<char>, CommandErrorModel>,
    > {
        Seq::<Result<Seq<char>, CommandErrorModel>>::empty().push(Ok(built)).push(Ok(answer))
    }
}

/// Running over one sequence of events and then another is running over
/// both in a row.
pub proof fn lemma_run_in_two_parts(
    m: DriverModel,
    first: Seq<Result<Seq<char>, CommandErrorModel>>,
    second: Seq<Result<Seq<char>, CommandErrorModel>>,
)
    ensures
        m.run(first + second) == m.run(first).run(second),
    decreases second.len(),
{
    if second.len() == 0 {
        assert(first + second =~= first);
    } else {
        lemma_run_in_two_parts(m, first, second.drop_last());
        assert((first + second).drop_last() =~= first + second.drop_last());
        assert((first + second).last() == second.last());
    }
}

/// Two drivers that are alike but for one failed target take the same
/// step on the same event: they ask for the same command, report the same,
/// and are alike but for that target afterwards.
pub proof fn lemma_step_keeps_alike(
    a: DriverModel,
    b: DriverModel,
    k: int,
    event: Result<Seq<char>, CommandErrorModel>,
)
    requires
        a.alike_but_for(b, k),
    ensures
        a.pending_command() == b.pending_command(),
        a.step(event).1 == b.step(event).1,
        a.step(event).0.alike_but_for(b.step(event).0, k),
{
    assert(!a.all_passed()) by {
        assert(a.done[k].status != TargetStatus::Succeeded);
    }
    assert(!b.all_passed()) by {
        assert(b.done[k].status != TargetStatus::Succeeded);
    }
    let a1 = a.step(event).0;
    let b1 = b.step(event).0;
    assert forall|i: int| 0 <= i < a1.done.len() && i != k implies (#[trigger] a1.done[i])
        == b1.done[i] by {
        if i < a.done.len() {
            assert(a1.done[i] == a.done[i]);
            assert(b1.done[i] == b.done[i]);
        }
    }
    assert(a1.done[k] == a.done[k]);
    assert(b1.done[k] == b.done[k]);
    let closed_a = a.closed(TargetStatus::Succeeded);
    let closed_b = b.closed(TargetStatus::Succeeded);
    assert(!closed_a.all_passed()) by {
        assert(closed_a.done[k] == a.done[k]);
    }
    assert(!closed_b.all_passed()) by {
        assert(closed_b.done[k] == b.done[k]);
    }
    let failed_a = a.closed(TargetStatus::BuildFailed);
    let failed_b = b.closed(TargetStatus::BuildFailed);
    assert(!failed_a.all_passed()) by {
        assert(failed_a.done[k] == a.done[k]);
    }
    assert(!failed_b.all_passed()) by {
        assert(failed_b.done[k] == b.done[k]);
    }
    let dead_a = a.closed(TargetStatus::NoArtifact);
    let dead_b = b.closed(TargetStatus::NoArtifact);
    assert(!dead_a.all_passed()) by {
        assert(dead_a.done[k] == a.done[k]);
    }
    assert(!dead_b.all_passed()) by {
        assert(dead_b.done[k] == b.done[k]);
    }
}

/// Two drivers that are alike but for one failed target stay so over every
/// run, and report the same at every step.
pub proof fn lemma_run_keeps_alike(
    a: DriverModel,
    b: DriverModel,
    k: int,
    events: Seq<Result<Seq<char>, CommandErrorModel>>,
)
    requires
        a.alike_but_for(b, k),
    ensures
        a.run(events).alike_but_for(b.run(events), k),
        a.reports(events) == b.reports(events),
        a.run(events).pending_command() == b.run(events).pending_command(),
        !a.run(events).all_passed(),
        !b.run(events).all_passed(),
        a.run(events).result() != Some(Ok::<(), DriverErrorModel>(())),
        b.run(events).result() != Some(Ok::<(), DriverErrorModel>(())),
        a.run(events).result() is Some <==> b.run(events).result() is Some,
    decreases events.len(),
{
    if events.len() > 0 {
        lemma_run_keeps_alike(a, b, k, events.drop_last());
        lemma_step_keeps_alike(
            a.run(events.drop_last()),
            b.run(events.drop_last()),
            k,
            events.last(),
        );
    }
    let a1 = a.run(events);
    let b1 = b.run(events);
    assert(a1.done[k].status != TargetStatus::Succeeded);
    assert(b1.done[k].status != TargetStatus::Succeeded);
}

/// Running over a sequence of events and one more is running over the
/// sequence and taking one more step.
pub proof fn lemma_run_and_one_more(
    m: DriverModel,
    events: Seq<Result<Seq<char>, CommandErrorModel>>,
    event: Result<Seq<char>, CommandErrorModel>,
)
    ensures
        m.run(events.push(event)) == m.run(events).step(event).0,
        m.run(Seq::empty()) == m,
{
    assert(events.push(event).drop_last() =~= events);
}

/// A build that succeeds without leaving a live output link: the target is
/// through after the build and the check of the link, without success and
/// with nothing copied.
pub proof fn lemma_dead_link_way(m: DriverModel, built: Seq<char>, answer: Seq<char>)
    requires
        m.stage == Stage::Build,
        !link_is_live(answer),
    ensures
        m.step(Ok(built)).0.stage == Stage::Verify,
        m.run(DriverModel::dead_link(built, answer)) == m.step(Ok(built)).0.step(Ok(answer)).0,
        m.run(DriverModel::dead_link(built, answer)).done == m.done.push(
            TargetOutcomeModel {
                target: m.current,
                status: TargetStatus::NoArtifact,
                staged: m.staged,
                fell_back: m.fell_back,
            },
        ),
{
    let none = Seq::<Result<Seq<char>, CommandErrorModel>>::empty();
    lemma_run_and_one_more(m, none, Ok(built));
    lemma_run_and_one_more(m, none.push(Ok(built)), Ok(answer));
}

/// A build that fails for good: the target is through after the build, the
/// alternate build where one is configured, and the fetching of the
/// descriptor, without success and with nothing copied.
pub proof fn lemma_failed_build_way(
    m: DriverModel,
    failure: CommandErrorModel,
    alternate_failure: CommandErrorModel,
    diagnosis: Result<Seq<char>, CommandErrorModel>,
)
    requires
        m.stage == Stage::Build,
    ensures
        m.step(Err(failure)).0.stage == (if m.fallback is Some {
            Stage::Fallback
        } else {
            Stage::Diagnose
        }),
        m.fallback is Some ==> m.step(Err(failure)).0.step(Err(alternate_failure)).0.stage
            == Stage::Diagnose,
        m.run(m.failed_build(failure, alternate_failure, diagnosis)).done == m.done.push(
            TargetOutcomeModel {
                target: m.current,
                status: TargetStatus::BuildFailed,
                staged: m.staged,
                fell_back: m.fell_back || m.fallback is Some,
            },
        ),
        m.run(m.failed_build(failure, alternate_failure, diagnosis)).same_position(
            m.at(Stage::Diagnose).step(diagnosis).0,
        ),
        m.run(m.failed_build(failure, alternate_failure, diagnosis)).fatal == m.fatal,
{
    let none = Seq::<Result<Seq<char>, CommandErrorModel>>::empty();
    lemma_run_and_one_more(m, none, Err(failure));
    if m.fallback is Some {
        lemma_run_and_one_more(m, none.push(Err(failure)), Err(alternate_failure));
        lemma_run_and_one_more(
            m,
            none.push(Err(failure)).push(Err(alternate_failure)),
            diagnosis,
        );
    } else {
        lemma_run_and_one_more(m, none.push(Err(failure)), diagnosis);
    }
}

/// A build that succeeds without leaving a live output link is a failed
/// build, over whole runs. Take two runs of the same build that differ in
/// one target only: in the one its build succeeds and its output link is
/// dead, in the other its build fails. Then in both runs the target is
/// through after its build and the check of the link, or the fetching of
/// the descriptor, so that no directory is made and nothing is copied for
/// it; it is through without success; and from there on both runs ask for
/// the same commands, report the same, record the same outcomes for every
/// other target, and neither succeeds.
pub proof fn lemma_dead_link_is_a_failed_build(
    targets: Seq<Seq<char>>,
    fallback: Option<Seq<char>>,
    before: Seq<Result<Seq<char>, CommandErrorModel>>,
    built: Seq<char>,
    answer: Seq<char>,
    failure: CommandErrorModel,
    alternate_failure: CommandErrorModel,
    diagnosis: Result<Seq<char>, CommandErrorModel>,
    after: Seq<Result<Seq<char>, CommandErrorModel>>,
)
    requires
        DriverModel::new(targets, fallback).run(before).stage == Stage::Build,
        !link_is_live(answer),
    ensures
        ({
            let start = DriverModel::new(targets, fallback);
            let m = start.run(before);
            let k = m.done.len() as int;
            let dead_way = DriverModel::dead_link(built, answer);
            let failed_way = m.failed_build(failure, alternate_failure, diagnosis);
            let dead = start.run(before + dead_way + after);
            let failed = start.run(before + failed_way + after);
            &&& m.run(dead_way).done == m.done.push(
                TargetOutcomeModel {
                    target: m.current,
                    status: TargetStatus::NoArtifact,
                    staged: false,
                    fell_back: false,
                },
            )
            &&& m.run(failed_way).done == m.done.push(
                TargetOutcomeModel {
                    target: m.current,
                    status: TargetStatus::BuildFailed,
                    staged: false,
                    fell_back: fallback is Some,
                },
            )
            &&& dead.alike_but_for(failed, k)
            &&& m.run(dead_way).reports(after) == m.run(failed_way).reports(after)
            &&& dead.pending_command() == failed.pending_command()
            &&& dead.result() != Some(Ok::<(), DriverErrorModel>(()))
            &&& failed.result() != Some(Ok::<(), DriverErrorModel>(()))
            &&& dead.result() is Some <==> failed.result() is Some
        }),
{
    let start = DriverModel::new(targets, fallback);
    let m = start.run(before);
    let k = m.done.len() as int;
    let dead_way = DriverModel::dead_link(built, answer);
    let failed_way = m.failed_build(failure, alternate_failure, diagnosis);
    lemma_run_keeps_the_targets(start, before);
    lemma_dead_link_way(m, built, answer);
    lemma_failed_build_way(m, failure, alternate_failure, diagnosis);
    lemma_dead_link_fails_the_target(m, answer, diagnosis);
    let d = m.run(dead_way);
    let f = m.run(failed_way);
    assert(d.same_position(f));
    assert(d.fatal == f.fatal) by {
        lemma_step_keeps_fatal(m, Ok(built));
        lemma_step_keeps_fatal(m.step(Ok(built)).0, Ok(answer));
    }
    assert forall|i: int| 0 <= i < d.done.len() && i != k implies (#[trigger] d.done[i])
        == f.done[i] by {
        assert(d.done[i] == m.done[i]);
        assert(f.done[i] == m.done[i]);
    }
    assert(d.alike_but_for(f, k));
    lemma_run_keeps_alike(d, f, k, after);
    lemma_run_in_two_parts(start, before, dead_way);
    lemma_run_in_two_parts(start, before + dead_way, after);
    lemma_run_in_two_parts(start, before, failed_way);
    lemma_run_in_two_parts(start, before + failed_way, after);
}

/// Only a failed preparation ends a build for good: a step from any other
/// stage leaves that failure as it was.
pub proof fn lemma_step_keeps_fatal(m: DriverModel, event: Result<Seq<char>, CommandErrorModel>)
    requires
        m.stage != Stage::Prepare,
    ensures
        m.step(event).0.fatal == m.fatal,
{
}

/// A failure stays: once a target that is through did not succeed, no later
/// step makes the build succeed.
pub proof fn lemma_failure_is_final(m: DriverModel, event: Result<Seq<char>, CommandErrorModel>)
    requires
        !m.all_passed(),
    ensures
        !m.step(event).0.all_passed(),
        m.step(event).0.result() != Some(Ok::<(), DriverErrorModel>(())),
{
    let after = m.step(event).0;
    let k = choose|k: int|
        0 <= k < m.done.len() && (#[trigger] m.done[k]).status != TargetStatus::Succeeded;
    assert(after.done[k] == m.done[k]);
}

// ---------------------------------------------------------------------------
// A whole build
// ---------------------------------------------------------------------------

/// How each of `outcomes` ended, to a contract.
pub open spec fn events_model(outcomes: Seq<Result<String, CommandError>>) -> Seq<
    Result<Seq<char>, CommandErrorModel>,
> {
    outcomes.map_values(|o: Result<String, CommandError>| event_model(o))
}

impl DriverModel {
    /// What the steps over `events` reported, step by step.
    pub open spec fn reports(self, events: Seq<Result<Seq<char>, CommandErrorModel>>) -> Seq<
        ReportModel,
    >
        decreases events.len(),
    {
        if events.len() == 0 {
            Seq::empty()
        } else {
            self.reports(events.drop_last()).push(
                self.run(events.drop_last()).step(events.last()).1,
            )
        }
    }
}

/// A copy of `outcome`.
fn clone_outcome(outcome: &Result<String, CommandError>) -> (r: Result<String, CommandError>)
    ensures
        event_model(r) == event_model(*outcome),
{
    match outcome {
        Ok(output) => Ok(output.clone()),
        Err(e) => Err(clone_error(e)),
    }
}

/// Builds `targets`, in the order given, where the commands that the
/// driver asks for end as `outcomes` say, one after the other. Returns the
/// driver as it stands after the last of them, and what each step
/// reported.
pub fn execute_nix_build(
    targets: Vec<String>,
    fallback: Option<String>,
    outcomes: &Vec<Result<String, CommandError>>,
) -> (r: (BuildDriver, Vec<Report>))
    ensures
        r.0@ == DriverModel::new(targets.deep_view(), fallback.deep_view()).run(
            events_model(outcomes@),
        ),
        r.1.deep_view() == DriverModel::new(targets.deep_view(), fallback.deep_view()).reports(
            events_model(outcomes@),
        ),
{
    let mut driver = BuildDriver::new(targets, fallback);
    let ghost start = driver@;
    let ghost events = events_model(outcomes@);
    let mut reports: Vec<Report> = Vec::new();
    let mut i: usize = 0;
    assert(events.take(0) =~= Seq::<Result<Seq<char>, CommandErrorModel>>::empty());
    assert(reports.deep_view() =~= Seq::<ReportModel>::empty());
    while i < outcomes.len()
        invariant
            i <= outcomes.len(),
            events == events_model(outcomes@),
            driver@ == start.run(events.take(i as int)),
            reports.deep_view() == start.reports(events.take(i as int)),
        decreases outcomes.len() - i,
    {
        let ghost now = events.take(i + 1);
        assert(now.drop_last() =~= events.take(i as int));
        assert(now.last() == event_model(outcomes@[i as int]));
        let ghost before = reports.deep_view();
        let report = driver.advance(clone_outcome(&outcomes[i]));
        reports.push(report);
        assert(reports.deep_view() =~= before.push(report.deep_view()));
        i += 1;
    }
    assert(events.take(outcomes.len() as int) =~= events);
    (driver, reports)
}

} // verus!
