use repx::driver::DriverError;
use repx::environment::ContainerInfo;
use repx::executor::CommandError;
use repx::logging::BuildLogger;
use repx::report::Level;
use repx::descriptor::DescriptorError;
use repx::descriptor::Install;
use repx::session::{
    build_with_nix, generate_flake_lock, install_descriptor, lock_was_generated,
    log_build_start, Action, Event, Phase, ProvisionFailure, Session, SessionError,
};

fn ok(output: &str) -> Event {
    Event::Command(Ok(output.to_string()))
}

fn exit(code: i64, command: &str) -> Event {
    Event::Command(Err(CommandError::Exit { exit_code: code, command: command.to_string() }))
}

fn provisioned(id: &str) -> Event {
    Event::Provisioned(Ok(ContainerInfo { id: id.to_string(), name: "repx-1".to_string() }))
}

fn names(list: &[&str]) -> Vec<String> {
    list.iter().map(|s| s.to_string()).collect()
}

fn run_command(a: Action) -> String {
    match a {
        Action::Run(c) => c,
        _ => panic!("a command was expected"),
    }
}

fn count_teardowns(session: &mut Session, events: Vec<Event>, logger: &mut BuildLogger) -> usize {
    let mut teardowns = 0;
    for e in events {
        if matches!(session.next_action(), Action::Teardown(_)) {
            teardowns += 1;
        }
        session.handle(e, logger, 1);
    }
    teardowns
}

const LOCK: &str = "cd .repx && nix --extra-experimental-features 'nix-command flakes' flake lock";

#[test]
fn the_lock_command() {
    assert_eq!(generate_flake_lock(), LOCK);
}

#[test]
fn a_session_that_builds_its_target() {
    let mut logger = BuildLogger::with_id("dir", "id", 0, false);
    logger.flush();
    let mut s = Session::open(names(&["x86_64-linux-gnu"]), None, true, &mut logger, 5);
    assert_eq!(logger.flush(), "[5] Setting up Docker container\n");
    assert_eq!(s.phase(), Phase::Provision);
    assert!(matches!(s.next_action(), Action::Provision));
    assert!(s.result().is_none());

    let said = s.handle(provisioned("c0ffee"), &mut logger, 6);
    assert!(said.is_empty());
    assert_eq!(
        logger.flush(),
        "[6] Created container with ID: c0ffee\n[6] Configuring git safe directory in container\n"
    );
    assert_eq!(s.phase(), Phase::GitSafeDir);
    assert_eq!(run_command(s.next_action()), "git config --global --add safe.directory /app");

    s.handle(ok(""), &mut logger, 7);
    assert_eq!(s.phase(), Phase::FlakeLock);
    let rule = "-".repeat(80);
    assert_eq!(
        logger.flush(),
        format!(
            "[7] Command: git config --global --add safe.directory /app\nOutput:\n\n{}\n\n[7] Generating flake.lock file\n",
            rule
        )
    );
    assert_eq!(run_command(s.next_action()), LOCK);

    let said = s.handle(ok("locked"), &mut logger, 8);
    assert_eq!(said.len(), 1);
    assert_eq!(said[0].level, Level::Success);
    assert_eq!(said[0].text, "Generated/updated flake.lock");
    assert_eq!(
        logger.flush(),
        format!("[8] Command: nix flake lock\nOutput:\nlocked\n{}\n\n", rule)
    );
    assert_eq!(s.phase(), Phase::LockPermissions);
    assert_eq!(run_command(s.next_action()), "chmod a+rw .repx/flake.lock");

    let said = s.handle(ok(""), &mut logger, 8);
    assert!(said.is_empty());
    assert_eq!(
        logger.flush(),
        format!(
            "[8] Command: chmod a+rw .repx/flake.lock\nOutput:\n\n{}\n\n[8] Starting build for targets: x86_64-linux-gnu\n",
            rule
        )
    );
    assert_eq!(s.phase(), Phase::Targets);
    assert_eq!(run_command(s.next_action()), "mkdir -p ./target/repro-build");

    for e in [ok(""), ok("built"), ok("true\n"), ok(""), ok("")] {
        s.handle(e, &mut logger, 9);
        assert_eq!(s.phase(), Phase::Targets);
    }
    assert_eq!(run_command(s.next_action()), "rm -rf ./result-x86_64-linux-gnu");
    logger.flush();
    s.handle(ok(""), &mut logger, 10);
    assert_eq!(s.phase(), Phase::Teardown);
    assert!(logger.flush().ends_with(
        "[10] Build successful for target: x86_64-linux-gnu\n[10] All builds completed successfully!\n[10] Cleaning up container\n"
    ));
    match s.next_action() {
        Action::Teardown(id) => assert_eq!(id, "c0ffee"),
        _ => panic!("a teardown was expected"),
    }
    assert!(s.result().is_none());

    let said = s.handle(Event::TornDown(Ok(())), &mut logger, 11);
    assert_eq!(said.len(), 1);
    assert_eq!(said[0].text, "Container removed successfully");
    assert_eq!(
        logger.flush(),
        "[11] \n=== Build Complete ===\nStatus: SUCCESS\n=====================\n\n"
    );
    assert!(s.is_finished());
    assert!(matches!(s.next_action(), Action::Finish));
    assert!(matches!(s.result(), Some(Ok(()))));
}

#[test]
fn a_project_without_lock_file_gets_one_first() {
    let mut logger = BuildLogger::with_id("dir", "id", 0, false);
    let mut s = Session::open(names(&["x86_64-linux-gnu"]), None, false, &mut logger, 1);
    s.handle(provisioned("c1"), &mut logger, 1);
    logger.flush();
    let said = s.handle(ok(""), &mut logger, 2);
    assert_eq!(said.len(), 1);
    assert_eq!(said[0].level, Level::Warning);
    assert_eq!(said[0].text, "Cargo.lock not found, generating it...");
    assert_eq!(s.phase(), Phase::CargoLock);
    assert_eq!(run_command(s.next_action()), "cargo generate-lockfile");
    assert!(logger.flush().ends_with("[2] Cargo.lock not found, generating it...\n"));
    s.handle(ok("done"), &mut logger, 3);
    assert_eq!(s.phase(), Phase::FlakeLock);
    let rule = "-".repeat(80);
    assert_eq!(
        logger.flush(),
        format!(
            "[3] Command: cargo generate-lockfile\nOutput:\ndone\n{}\n\n[3] Generating flake.lock file\n",
            rule
        )
    );
}

#[test]
fn a_failed_git_setup_is_only_a_warning() {
    let mut logger = BuildLogger::with_id("dir", "id", 0, false);
    let mut s = Session::open(names(&["x86_64-linux-gnu"]), None, true, &mut logger, 1);
    s.handle(provisioned("c1"), &mut logger, 1);
    logger.flush();
    let said = s.handle(exit(128, "git"), &mut logger, 2);
    assert_eq!(said.len(), 1);
    assert_eq!(said[0].level, Level::Warning);
    assert_eq!(
        said[0].text,
        "Failed to set git safe.directory in container. Build might proceed if git history isn't needed for local flake inputs."
    );
    assert_eq!(
        logger.flush(),
        "[2] Warning: Failed to set git safe.directory: Command failed with exit code 128. This might cause issues if your flake relies on git history from the source directory.\n[2] Generating flake.lock file\n"
    );
    assert_eq!(s.phase(), Phase::FlakeLock);
}

#[test]
fn an_environment_that_cannot_be_made_ends_the_session_without_teardown() {
    let mut logger = BuildLogger::with_id("dir", "id", 0, false);
    let mut s = Session::open(names(&["x86_64-linux-gnu"]), None, true, &mut logger, 1);
    logger.flush();
    let failure = ProvisionFailure { reason: "no such image".to_string(), container_id: None };
    let teardowns = count_teardowns(&mut s, vec![Event::Provisioned(Err(failure))], &mut logger);
    assert_eq!(teardowns, 0);
    assert!(s.is_finished());
    assert!(matches!(s.next_action(), Action::Finish));
    assert_eq!(
        logger.flush(),
        "[1] \n=== Build Complete ===\nStatus: FAILURE\n=====================\n\n"
    );
    match s.result() {
        Some(Err(SessionError::Provisioning(reason))) => assert_eq!(reason, "no such image"),
        _ => panic!("a provisioning failure was expected"),
    }
    assert_eq!(s.result().unwrap().err().unwrap().message(), "no such image");
}

#[test]
fn a_failed_lock_generation_still_removes_the_environment() {
    let mut logger = BuildLogger::with_id("dir", "id", 0, false);
    let mut s = Session::open(names(&["x86_64-linux-gnu"]), None, true, &mut logger, 1);
    let events = vec![provisioned("c1"), ok(""), exit(1, LOCK), Event::TornDown(Ok(()))];
    let teardowns = count_teardowns(&mut s, events, &mut logger);
    assert_eq!(teardowns, 1);
    assert!(s.is_finished());
    let log = logger.flush();
    assert!(log.contains("[1] Cleaning up container\n"));
    assert!(log.ends_with("Status: FAILURE\n=====================\n\n"));
    match s.result() {
        Some(Err(SessionError::Command(CommandError::Exit { exit_code, command }))) => {
            assert_eq!(exit_code, 1);
            assert_eq!(command, LOCK);
        }
        _ => panic!("a command failure was expected"),
    }
}

#[test]
fn a_failed_project_lock_generation_still_removes_the_environment() {
    let mut logger = BuildLogger::with_id("dir", "id", 0, false);
    let mut s = Session::open(names(&["x86_64-linux-gnu"]), None, false, &mut logger, 1);
    let events = vec![provisioned("c1"), ok(""), exit(101, "cargo generate-lockfile")];
    let teardowns = count_teardowns(&mut s, events, &mut logger);
    assert_eq!(teardowns, 0);
    assert_eq!(s.phase(), Phase::Teardown);
    let teardowns = count_teardowns(&mut s, vec![Event::TornDown(Ok(()))], &mut logger);
    assert_eq!(teardowns, 1);
    assert!(matches!(s.result(), Some(Err(SessionError::Command(_)))));
}

#[test]
fn the_environment_is_removed_once_when_targets_fail() {
    let mut logger = BuildLogger::with_id("dir", "id", 0, false);
    let mut s = Session::open(
        names(&["aarch64-linux-gnu", "x86_64-linux-gnu"]),
        None,
        true,
        &mut logger,
        1,
    );
    let events = vec![
        provisioned("c1"),
        ok(""),
        ok("locked"),
        ok(""),
        ok(""),
        exit(1, "build A"),
        ok("flake text"),
        ok("built"),
        ok("true"),
        ok(""),
        ok(""),
        ok(""),
        Event::TornDown(Ok(())),
    ];
    let teardowns = count_teardowns(&mut s, events, &mut logger);
    assert_eq!(teardowns, 1);
    assert!(s.is_finished());
    let log = logger.flush();
    assert!(log.contains("[1] Build failed for target aarch64-linux-gnu: Command failed with exit code 1\n"));
    assert!(log.contains("[1] Flake content for debugging:\n[1] flake text\n"));
    assert!(log.contains("[1] Build successful for target: x86_64-linux-gnu\n"));
    assert!(log.ends_with("Status: FAILURE\n=====================\n\n"));
    match s.result() {
        Some(Err(SessionError::Build(DriverError::Aggregate { failed }))) => {
            assert_eq!(failed, vec!["aarch64-linux-gnu"]);
        }
        _ => panic!("an aggregate failure was expected"),
    }
    assert_eq!(s.driver().outcomes().len(), 2);
    assert!(s.driver().outcomes()[1].staged);
}

#[test]
fn a_failed_preparation_still_removes_the_environment() {
    let mut logger = BuildLogger::with_id("dir", "id", 0, false);
    let mut s = Session::open(names(&["x86_64-linux-gnu"]), None, true, &mut logger, 1);
    let events = vec![
        provisioned("c1"),
        ok(""),
        ok("locked"),
        ok(""),
        exit(1, "mkdir -p ./target/repro-build"),
        Event::TornDown(Ok(())),
    ];
    let teardowns = count_teardowns(&mut s, events, &mut logger);
    assert_eq!(teardowns, 1);
    assert!(matches!(
        s.result(),
        Some(Err(SessionError::Build(DriverError::Preparation(_))))
    ));
}

#[test]
fn a_failed_teardown_does_not_mask_the_result() {
    for build_fails in [false, true] {
        let mut logger = BuildLogger::with_id("dir", "id", 0, false);
        let mut s = Session::open(names(&["x86_64-linux-gnu"]), None, true, &mut logger, 1);
        let build = if build_fails { exit(1, "build") } else { ok("built") };
        let mut events = vec![provisioned("c1"), ok(""), ok("locked"), ok(""), ok(""), build];
        if build_fails {
            events.push(ok("flake"));
        } else {
            events.extend(vec![ok("true"), ok(""), ok(""), ok("")]);
        }
        for e in events {
            s.handle(e, &mut logger, 1);
        }
        assert_eq!(s.phase(), Phase::Teardown);
        logger.flush();
        let said = s.handle(Event::TornDown(Err("daemon gone".to_string())), &mut logger, 2);
        assert_eq!(said.len(), 1);
        assert_eq!(said[0].level, Level::Warning);
        assert_eq!(said[0].text, "Failed to remove container: daemon gone");
        let status = if build_fails { "FAILURE" } else { "SUCCESS" };
        assert_eq!(
            logger.flush(),
            format!(
                "[2] Failed to remove container: daemon gone\n[2] \n=== Build Complete ===\nStatus: {}\n=====================\n\n",
                status
            )
        );
        assert!(s.is_finished());
        assert_eq!(matches!(s.result(), Some(Ok(()))), !build_fails);
    }
}

#[test]
fn an_event_that_answers_nothing_changes_nothing() {
    let mut logger = BuildLogger::with_id("dir", "id", 0, false);
    let mut s = Session::open(names(&["x86_64-linux-gnu"]), None, true, &mut logger, 1);
    logger.flush();
    assert!(s.handle(ok("stray"), &mut logger, 2).is_empty());
    assert!(s.handle(Event::TornDown(Ok(())), &mut logger, 2).is_empty());
    assert_eq!(s.phase(), Phase::Provision);
    s.handle(provisioned("c1"), &mut logger, 2);
    logger.flush();
    assert!(s.handle(provisioned("c2"), &mut logger, 3).is_empty());
    assert!(s.handle(Event::TornDown(Ok(())), &mut logger, 3).is_empty());
    assert_eq!(s.phase(), Phase::GitSafeDir);
    assert_eq!(logger.flush(), "");
}

#[test]
fn a_whole_session_at_once() {
    let mut logger = BuildLogger::with_id("dir", "id", 0, false);
    let events = vec![
        provisioned("c1"),
        ok(""),
        ok("locked"),
        ok(""),
        ok(""),
        ok("built"),
        ok("true"),
        ok(""),
        ok(""),
        ok(""),
        Event::TornDown(Ok(())),
    ];
    let (s, said) =
        build_with_nix(None, names(&["x86_64-linux-musl"]), None, true, &events, &mut logger, 3);
    assert!(s.is_finished());
    assert!(matches!(s.result(), Some(Ok(()))));
    let texts: Vec<String> = said.into_iter().map(|n| n.text).collect();
    assert_eq!(
        texts,
        vec![
            "Generated/updated flake.lock",
            "Starting build process for 1 target(s)...",
            "Building for target: x86_64-linux-musl",
            "Successfully copied build artifacts",
            "Build successful for target: x86_64-linux-musl",
            "All builds completed successfully!",
            "Container removed successfully",
        ]
    );
    let log = logger.flush();
    assert!(log.starts_with("[3] Setting up Docker container\n[3] Created container with ID: c1\n"));
    assert!(log.ends_with("Status: SUCCESS\n=====================\n\n"));
    assert_eq!(log.matches("Cleaning up container").count(), 1);
}

#[test]
fn a_lock_file_that_cannot_be_opened_is_only_a_warning() {
    let mut logger = BuildLogger::with_id("dir", "id", 0, false);
    let mut s = Session::open(names(&["x86_64-linux-gnu"]), None, true, &mut logger, 1);
    for e in [provisioned("c1"), ok(""), ok("locked")] {
        s.handle(e, &mut logger, 1);
    }
    assert_eq!(s.phase(), Phase::LockPermissions);
    logger.flush();
    let said = s.handle(exit(1, "chmod"), &mut logger, 2);
    assert_eq!(said.len(), 1);
    assert_eq!(said[0].level, Level::Warning);
    assert_eq!(
        said[0].text,
        "Failed to relax the permissions of flake.lock: Command failed with exit code 1"
    );
    assert_eq!(
        logger.flush(),
        "[2] Failed to relax the permissions of flake.lock: Command failed with exit code 1\n[2] Starting build for targets: x86_64-linux-gnu\n"
    );
    assert_eq!(s.phase(), Phase::Targets);
}

#[test]
fn a_session_is_over_after_a_bounded_number_of_events() {
    for targets in 0..4usize {
        let list: Vec<String> = (0..targets).map(|i| format!("t{}", i)).collect();
        let mut logger = BuildLogger::with_id("dir", "id", 0, false);
        let mut s = Session::open(list, Some("alt".to_string()), false, &mut logger, 1);
        let mut events = 0;
        loop {
            let event = match s.next_action() {
                Action::Provision => provisioned("c1"),
                Action::Run(c) if c.starts_with("nix ") || c.starts_with("alt ") => {
                    if c.starts_with("nix ") {
                        exit(1, &c)
                    } else {
                        ok("built")
                    }
                }
                Action::Run(c) if c.starts_with("tar ") => exit(2, &c),
                Action::Run(c) if c.starts_with("if ") => ok("true"),
                Action::Run(_) => ok(""),
                Action::Teardown(_) => Event::TornDown(Ok(())),
                Action::Finish => break,
            };
            s.handle(event, &mut logger, 1);
            events += 1;
            assert!(events <= 7 + 7 * targets);
        }
        assert!(s.is_finished());
        assert_eq!(events, 7 + 7 * targets);
        assert!(matches!(s.result(), Some(Ok(()))));
    }
}

#[test]
fn a_container_that_was_made_but_not_started_is_removed() {
    let mut logger = BuildLogger::with_id("dir", "id", 0, false);
    let mut s = Session::open(names(&["x86_64-linux-gnu"]), None, true, &mut logger, 1);
    logger.flush();
    let failure = ProvisionFailure {
        reason: "cannot start".to_string(),
        container_id: Some("half".to_string()),
    };
    let teardowns = count_teardowns(&mut s, vec![Event::Provisioned(Err(failure))], &mut logger);
    assert_eq!(teardowns, 0);
    assert_eq!(s.phase(), Phase::Teardown);
    assert_eq!(logger.flush(), "[1] Cleaning up container\n");
    match s.next_action() {
        Action::Teardown(id) => assert_eq!(id, "half"),
        _ => panic!("a teardown was expected"),
    }
    let teardowns = count_teardowns(&mut s, vec![Event::TornDown(Ok(()))], &mut logger);
    assert_eq!(teardowns, 1);
    assert!(s.is_finished());
    assert!(logger.flush().ends_with("Status: FAILURE\n=====================\n\n"));
    match s.result() {
        Some(Err(SessionError::Provisioning(reason))) => assert_eq!(reason, "cannot start"),
        _ => panic!("a provisioning failure was expected"),
    }
}

#[test]
fn after_a_failed_generation_nothing_is_asked_for() {
    let mut logger = BuildLogger::with_id("dir", "id", 0, false);
    let mut s = Session::start(
        Some(DescriptorError::Metadata),
        names(&["x86_64-linux-gnu"]),
        None,
        true,
        &mut logger,
        4,
    );
    assert_eq!(
        logger.flush(),
        "[4] \n=== Build Complete ===\nStatus: FAILURE\n=====================\n\n"
    );
    assert!(s.is_finished());
    assert!(matches!(s.next_action(), Action::Finish));
    match s.result() {
        Some(Err(e)) => {
            assert_eq!(e.message(), "Could not find package in metadata");
            assert!(matches!(e, SessionError::Descriptor(DescriptorError::Metadata)));
        }
        _ => panic!("a failed session was expected"),
    }
    let events = vec![provisioned("c1"), ok("out"), Event::TornDown(Ok(()))];
    assert_eq!(count_teardowns(&mut s, events, &mut logger), 0);
    assert!(matches!(s.next_action(), Action::Finish));
    assert_eq!(logger.flush(), "");

    let mut logger = BuildLogger::with_id("dir", "id", 0, false);
    let (s, said) = build_with_nix(
        Some(DescriptorError::Template("bad".to_string())),
        names(&["x86_64-linux-gnu"]),
        None,
        true,
        &vec![provisioned("c1")],
        &mut logger,
        5,
    );
    assert!(said.is_empty());
    assert_eq!(s.result().unwrap().err().unwrap().message(), "bad");
    assert_eq!(s.driver().outcomes().len(), 0);
}

#[test]
fn a_session_that_starts_after_a_generation_begins_with_its_environment() {
    let mut logger = BuildLogger::with_id("dir", "id", 0, false);
    let s = Session::start(None, names(&["x86_64-linux-gnu"]), None, true, &mut logger, 4);
    assert_eq!(logger.flush(), "[4] Setting up Docker container\n");
    assert!(matches!(s.next_action(), Action::Provision));
}

#[test]
fn the_log_of_a_build_begins_with_its_configuration() {
    let mut logger = BuildLogger::with_id("dir", "the-id", 0, false);
    log_build_start(
        &mut logger,
        9,
        "nixos/nix:latest",
        "/work/demo",
        &names(&["x86_64-linux-gnu", "aarch64-linux-gnu"]),
        "stable",
        "latest",
        "github:NixOS/nixpkgs/nixos-unstable",
    );
    assert_eq!(
        logger.flush(),
        "[9] Build Configuration:\n  Docker Image: nixos/nix:latest\n  Project Path: /work/demo\n  Targets: x86_64-linux-gnu, aarch64-linux-gnu\n  Rust Channel: stable\n  Rust Version: latest\n  nixpkgs URL: github:NixOS/nixpkgs/nixos-unstable\n  Build ID: the-id\n\n[9] Generating flake.nix file\n"
    );
}

#[test]
fn the_decision_on_the_description_is_logged() {
    let mut logger = BuildLogger::with_id("dir", "id", 0, false);
    let kept = install_descriptor(
        &mut logger,
        3,
        "/p/.repx/flake.nix.new",
        "/p/.repx/flake.nix",
        &Some("{ }\r\n".to_string()),
        "{ }\n",
    );
    assert_eq!(kept, Install::Discard);
    assert_eq!(logger.flush(), "[3] Using existing flake.nix at /p/.repx/flake.nix\n");

    for existing in [Some("{ old }\n".to_string()), None] {
        let replaced = install_descriptor(
            &mut logger,
            4,
            "/p/.repx/flake.nix.new",
            "/p/.repx/flake.nix",
            &existing,
            "{ new }\n",
        );
        assert_eq!(replaced, Install::Replace);
        assert_eq!(
            logger.flush(),
            "[4] Updated flake.nix at /p/.repx/flake.nix from /p/.repx/flake.nix.new\n"
        );
    }
}

#[test]
fn the_lock_file_is_compared_right_after_it_was_generated() {
    assert!(lock_was_generated(Phase::FlakeLock, Phase::LockPermissions));
    assert!(!lock_was_generated(Phase::FlakeLock, Phase::Teardown));
    assert!(!lock_was_generated(Phase::FlakeLock, Phase::FlakeLock));
    assert!(!lock_was_generated(Phase::CargoLock, Phase::FlakeLock));
    assert!(!lock_was_generated(Phase::LockPermissions, Phase::Targets));
}
