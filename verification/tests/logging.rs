use repx::logging::BuildLogger;

#[test]
fn a_new_logger_names_its_file_after_its_identifier() {
    let logger = BuildLogger::new("/work/.repx", 1700000000, false);
    let id = logger.build_id().to_string();
    assert_eq!(id.len(), 36);
    let bytes = id.as_bytes();
    assert_eq!(bytes[8], b'-');
    assert_eq!(bytes[13], b'-');
    assert_eq!(bytes[18], b'-');
    assert_eq!(bytes[23], b'-');
    assert!(id.chars().all(|c| c == '-' || c.is_ascii_hexdigit()));
    assert_eq!(logger.log_file(), format!("/work/.repx/logs/build-{}.log", id));
    assert_eq!(
        logger.header(),
        format!(
            "=== repx Log ===\nBuild ID: {}\nTimestamp: 1700000000\n=====================\n\n",
            id
        )
    );
}

#[test]
fn two_loggers_have_two_identifiers() {
    let a = BuildLogger::new("/work/.repx", 1, false);
    let b = BuildLogger::new("/work/.repx", 1, false);
    assert_ne!(a.build_id(), b.build_id());
    assert_ne!(a.log_file(), b.log_file());
}

#[test]
fn with_id_is_exact() {
    let logger = BuildLogger::with_id("dir", "abc", 42, false);
    assert_eq!(logger.build_id(), "abc");
    assert_eq!(logger.log_file(), "dir/logs/build-abc.log");
    assert_eq!(
        logger.header(),
        "=== repx Log ===\nBuild ID: abc\nTimestamp: 42\n=====================\n\n"
    );
    assert_eq!(BuildLogger::logs_dir("dir", false), "dir/logs");
}

#[test]
fn log_stamps_and_ends_the_entry() {
    let mut logger = BuildLogger::with_id("dir", "abc", 42, false);
    logger.log(1700000001, "Generating flake.nix file");
    assert_eq!(logger.flush(), "[1700000001] Generating flake.nix file\n");
}

#[test]
fn log_command_pairs_command_and_output() {
    let mut logger = BuildLogger::with_id("dir", "abc", 42, false);
    logger.log_command(7, "echo hi", "hi\n");
    let rule = "-".repeat(80);
    assert_eq!(
        logger.flush(),
        format!("[7] Command: echo hi\nOutput:\nhi\n\n{}\n\n", rule)
    );
}

#[test]
fn log_build_config_lists_the_pairs_in_order() {
    let mut logger = BuildLogger::with_id("dir", "abc", 42, false);
    let config = vec![
        ("Docker Image".to_string(), "nixos/nix:latest".to_string()),
        ("Targets".to_string(), "x86_64-linux-gnu, aarch64-linux-gnu".to_string()),
    ];
    logger.log_build_config(9, &config);
    assert_eq!(
        logger.flush(),
        "[9] Build Configuration:\n  Docker Image: nixos/nix:latest\n  Targets: x86_64-linux-gnu, aarch64-linux-gnu\n\n"
    );
    logger.log_build_config(10, &Vec::new());
    assert_eq!(logger.flush(), "[10] Build Configuration:\n\n");
}

#[test]
fn log_build_completion_marks_the_end() {
    let mut logger = BuildLogger::with_id("dir", "abc", 42, false);
    logger.log_build_completion(5, true);
    assert_eq!(
        logger.flush(),
        "[5] \n=== Build Complete ===\nStatus: SUCCESS\n=====================\n\n"
    );
    logger.log_build_completion(6, false);
    assert_eq!(
        logger.flush(),
        "[6] \n=== Build Complete ===\nStatus: FAILURE\n=====================\n\n"
    );
}

#[test]
fn flush_hands_out_every_entry_once_in_call_order() {
    let mut logger = BuildLogger::with_id("dir", "abc", 42, false);
    let mut file = logger.header().to_string();
    logger.log(1, "one");
    logger.log_command(2, "cmd", "out");
    file.push_str(&logger.flush());
    logger.log_build_config(3, &vec![("k".to_string(), "v".to_string())]);
    file.push_str(&logger.flush());
    file.push_str(&logger.flush());
    logger.log_build_completion(4, true);
    logger.log(5, "last");
    file.push_str(&logger.flush());
    assert_eq!(logger.flush(), "");

    let rule = "-".repeat(80);
    let expected = format!(
        "=== repx Log ===\nBuild ID: abc\nTimestamp: 42\n=====================\n\n\
         [1] one\n\
         [2] Command: cmd\nOutput:\nout\n{}\n\n\
         [3] Build Configuration:\n  k: v\n\n\
         [4] \n=== Build Complete ===\nStatus: SUCCESS\n=====================\n\n\
         [5] last\n",
        rule
    );
    assert_eq!(file, expected);
    for entry in ["[1] one\n", "[2] Command: cmd", "[3] Build", "Status: SUCCESS", "[5] last\n"] {
        assert_eq!(file.matches(entry).count(), 1, "{:?}", entry);
    }
}

#[test]
fn log_all_logs_each_message() {
    let mut logger = BuildLogger::with_id("dir", "abc", 42, false);
    logger.log_all(8, &vec!["a".to_string(), "b".to_string()]);
    assert_eq!(logger.flush(), "[8] a\n[8] b\n");
    logger.log_all(8, &Vec::new());
    assert_eq!(logger.flush(), "");
}

#[test]
fn the_log_file_lies_where_a_joined_path_lies() {
    for dir in ["", "dir", "dir/", "/", "/abs/dir", "a/b/", "./."] {
        let logger = BuildLogger::with_id(dir, "abc", 1, false);
        let expected = std::path::Path::new(dir).join("logs").join("build-abc.log");
        assert_eq!(logger.log_file(), expected.display().to_string());
        assert_eq!(
            BuildLogger::logs_dir(dir, false),
            std::path::Path::new(dir).join("logs").display().to_string()
        );
    }
    assert_eq!(BuildLogger::with_id("", "abc", 1, false).log_file(), "logs/build-abc.log");
    assert_eq!(BuildLogger::with_id("dir/", "abc", 1, false).log_file(), "dir/logs/build-abc.log");
    assert_eq!(
        BuildLogger::with_id("C:\\work", "abc", 1, true).log_file(),
        "C:\\work\\logs\\build-abc.log"
    );
}
