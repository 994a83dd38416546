use repx::executor::{
    display_command_of, execute_command, Chunk, CommandError, CommandMonitor, StatusKind,
    StreamEnd,
};

fn chunk(text: &str, at: u64) -> Chunk {
    Chunk { text: text.to_string(), at }
}

#[test]
fn a_short_command_is_shown_as_it_is() {
    assert_eq!(display_command_of("echo hi"), "echo hi");
    assert_eq!(display_command_of(""), "");
    let seventy = "x".repeat(70);
    assert_eq!(display_command_of(&seventy), seventy);
}

#[test]
fn a_long_command_is_cut_to_67_characters_and_dots() {
    let long = "y".repeat(71);
    let shown = display_command_of(&long);
    assert_eq!(shown, format!("{}...", "y".repeat(67)));
    assert_eq!(shown.chars().count(), 70);
}

#[test]
fn only_the_first_line_of_a_command_is_shown() {
    assert_eq!(display_command_of("first\nsecond\nthird"), "first");
    assert_eq!(display_command_of("first\r\nsecond"), "first");
    assert_eq!(display_command_of("\nsecond"), "");
    let long = format!("{}\nrest", "z".repeat(80));
    assert_eq!(display_command_of(&long), format!("{}...", "z".repeat(67)));
}

#[test]
fn a_long_command_with_wide_characters_is_cut_by_characters() {
    let long = "é".repeat(75);
    assert_eq!(display_command_of(&long), format!("{}...", "é".repeat(67)));
}

#[test]
fn output_of_a_successful_command_is_every_chunk_in_order() {
    let mut m = CommandMonitor::start("nix build", 0);
    let chunks = ["evaluating derivation\n", "copying path '/nix/store/a'\n", "", "done", "\r\n"];
    for (i, c) in chunks.iter().enumerate() {
        m.on_chunk(c, i as u64);
    }
    assert_eq!(m.finish(StreamEnd::Complete, Some(0)).ok().unwrap(), chunks.concat());
}

#[test]
fn without_an_exit_status_the_output_is_returned() {
    let mut m = CommandMonitor::start("nix build", 0);
    m.on_chunk("a", 1);
    m.on_chunk("b", 2);
    assert_eq!(m.finish(StreamEnd::Complete, None).ok().unwrap(), "ab");
    let empty = CommandMonitor::start("true", 0);
    assert_eq!(empty.finish(StreamEnd::Complete, Some(0)).ok().unwrap(), "");
}

#[test]
fn a_failed_command_carries_its_exit_code_and_command() {
    let mut m = CommandMonitor::start("nix build .#x\nsecond line", 0);
    m.on_chunk("error: boom\n", 1);
    match m.finish(StreamEnd::Complete, Some(101)) {
        Err(CommandError::Exit { exit_code, command }) => {
            assert_eq!(exit_code, 101);
            assert_eq!(command, "nix build .#x\nsecond line");
        }
        _ => panic!("a failure was expected"),
    }
    let m = CommandMonitor::start("false", 0);
    match m.finish(StreamEnd::Complete, Some(-1)) {
        Err(e) => {
            assert_eq!(e.message(), "Command failed with exit code -1");
            assert_eq!(e.command(), "false");
        }
        Ok(_) => panic!("a failure was expected"),
    }
}

#[test]
fn the_message_of_an_exit_names_the_code() {
    let e = CommandError::Exit { exit_code: 2, command: "x".to_string() };
    assert_eq!(e.message(), "Command failed with exit code 2");
    let e = CommandError::not_started("nix build");
    assert_eq!(e.message(), "Failed to start command execution");
    assert_eq!(e.command(), "nix build");
}

#[test]
fn nothing_is_drawn_before_the_interval_has_passed() {
    let mut m = CommandMonitor::start("nix build", 1000);
    assert!(m.on_chunk("building foo\n", 1000).is_none());
    assert!(m.on_chunk("building bar\n", 1499).is_none());
    let line = m.on_chunk("building baz\n", 1500).unwrap();
    assert_eq!(line.kind, StatusKind::Building);
    assert_eq!(line.text, "building baz");
    assert!(m.on_chunk("building qux\n", 1999).is_none());
    assert!(m.on_chunk("building qux\n", 2000).is_some());
}

#[test]
fn a_clock_that_goes_back_draws_nothing() {
    let mut m = CommandMonitor::start("nix build", 1000);
    assert!(m.on_chunk("building foo\n", 10).is_none());
}

#[test]
fn the_same_progress_line_is_not_drawn_twice() {
    let mut m = CommandMonitor::start("nix build", 0);
    assert!(m.on_chunk("fetching a\n", 500).is_some());
    assert!(m.on_chunk("  fetching a  \r\n", 1000).is_none());
    let line = m.on_chunk("fetching b\n", 1000).unwrap();
    assert_eq!(line.text, "fetching b");
    assert_eq!(line.kind, StatusKind::Other);
}

#[test]
fn the_last_line_of_a_chunk_is_the_progress_line() {
    let mut m = CommandMonitor::start("nix build", 0);
    let line = m.on_chunk("downloading x\nwarning: something  \n", 600).unwrap();
    assert_eq!(line.text, "warning: something");
    assert_eq!(line.kind, StatusKind::Warning);
    let line = m.on_chunk("building y\nerror: z\n", 1200).unwrap();
    assert_eq!(line.text, "error: z");
    assert_eq!(line.kind, StatusKind::Error);
    assert!(m.on_chunk("building y\n   \n", 1800).is_none());
    assert!(m.on_chunk("plain text\n", 5000).is_none());
}

#[test]
fn a_long_progress_line_is_cut_to_the_room_there_is() {
    let mut m = CommandMonitor::start("short", 0);
    let long = format!("building {}", "p".repeat(100));
    let line = m.on_chunk(&long, 500).unwrap();
    assert_eq!(line.text.chars().count(), 60);
    assert_eq!(line.text, format!("{}...", long.chars().take(57).collect::<String>()));

    let mut m = CommandMonitor::start(&"c".repeat(31), 0);
    let line = m.on_chunk(&long, 500).unwrap();
    assert_eq!(line.text.chars().count(), 40);
    assert_eq!(line.text, format!("{}...", long.chars().take(37).collect::<String>()));

    let mut m = CommandMonitor::start(&"c".repeat(30), 0);
    let sixty = format!("building {}", "q".repeat(51));
    assert_eq!(m.on_chunk(&sixty, 500).unwrap().text, sixty);
}

#[test]
fn copy_notices_are_counted_and_drawn_in_bursts() {
    let mut m = CommandMonitor::start("nix build", 0);
    for i in 0..9 {
        assert!(m.on_chunk("copying path '/nix/store/x'\n", 600 + i).is_none());
    }
    assert_eq!(m.copied(), 9);
    let line = m.on_chunk("copying path '/nix/store/y' building\n", 700).unwrap();
    assert_eq!(line.kind, StatusKind::Copied);
    assert_eq!(line.text, "(copied 10 paths)");
    for i in 0..20 {
        assert!(m.on_chunk("copying path\n", 701 + i).is_none());
    }
    let line = m.on_chunk("copying path\n", 1200).unwrap();
    assert_eq!(line.text, "(copied 31 paths)");
    assert!(m.on_chunk("copying path\n", 5000).is_none());
    assert_eq!(m.copied(), 32);
}

#[test]
fn a_copy_notice_is_never_drawn_as_progress() {
    let mut m = CommandMonitor::start("nix build", 0);
    assert!(m.on_chunk("copying path: error building\n", 10_000).is_none());
    assert_eq!(m.finish(StreamEnd::Complete, Some(0)).ok().unwrap(), "copying path: error building\n");
}

#[test]
fn a_whole_successful_command() {
    let stream = vec![
        chunk("evaluating\n", 100),
        chunk("building a\n", 600),
        chunk("copying path\n", 700),
        chunk("building b\n", 1100),
        chunk("done\n", 1200),
    ];
    let run = execute_command("nix build", 0, &stream, StreamEnd::Complete, Some(0));
    assert_eq!(
        run.result.ok().unwrap(),
        "evaluating\nbuilding a\ncopying path\nbuilding b\ndone\n"
    );
    let drawn: Vec<(StatusKind, String)> =
        run.drawn.into_iter().map(|l| (l.kind, l.text)).collect();
    assert_eq!(
        drawn,
        vec![
            (StatusKind::Building, "building a".to_string()),
            (StatusKind::Building, "building b".to_string())
        ]
    );
    assert!(run.diagnosis.lines.is_empty());
    assert_eq!(run.diagnosis.more, 0);
}

#[test]
fn a_whole_failed_command() {
    let stream = vec![chunk("building a\n", 100), chunk("error: no such attribute\n", 200)];
    let run = execute_command("nix build .#nothing", 0, &stream, StreamEnd::Complete, Some(1));
    match run.result {
        Err(CommandError::Exit { exit_code, command }) => {
            assert_eq!(exit_code, 1);
            assert_eq!(command, "nix build .#nothing");
        }
        _ => panic!("a failure was expected"),
    }
    assert!(run.drawn.is_empty());
    assert_eq!(run.diagnosis.lines, vec!["error: no such attribute"]);
    assert_eq!(run.diagnosis.more, 0);
}

#[test]
fn a_whole_command_without_output() {
    let run = execute_command("true", 5, &Vec::new(), StreamEnd::Complete, None);
    assert_eq!(run.result.ok().unwrap(), "");
    assert!(run.drawn.is_empty());
}

#[test]
fn the_diagnosis_lists_the_marked_lines_of_the_output() {
    let mut m = CommandMonitor::start("make", 0);
    m.on_chunk("error:\n", 0);
    m.on_chunk("failed\n", 0);
    let d = m.diagnosis();
    assert_eq!(d.lines, vec!["error:", "failed"]);
    assert_eq!(d.more, 0);
    assert!(m.finish(StreamEnd::Complete, Some(1)).is_err());
}

#[test]
fn the_diagnosis_shows_the_first_five_marked_lines() {
    let mut m = CommandMonitor::start("nix build", 0);
    m.on_chunk("fine\n", 0);
    for i in 0..7 {
        m.on_chunk(&format!("  error: number {}\nnot this one\n", i), 0);
    }
    m.on_chunk("the build failed\n", 0);
    let d = m.diagnosis();
    assert_eq!(
        d.lines,
        vec![
            "  error: number 0",
            "  error: number 1",
            "  error: number 2",
            "  error: number 3",
            "  error: number 4"
        ]
    );
    assert_eq!(d.more, 3);
}

#[test]
fn a_marked_line_may_come_in_two_chunks() {
    let mut m = CommandMonitor::start("make", 0);
    m.on_chunk("step one\nthe second step fai", 0);
    m.on_chunk("led here\r\nstep three", 0);
    m.on_chunk(" is an err", 0);
    m.on_chunk("or", 0);
    let d = m.diagnosis();
    assert_eq!(d.lines, vec!["the second step failed here", "step three is an error"]);
    let output = m.output();
    for line in &d.lines {
        assert!(output.contains(line.as_str()));
    }
}

#[test]
fn without_marks_the_diagnosis_is_empty() {
    let mut m = CommandMonitor::start("make", 0);
    m.on_chunk("all good\n", 0);
    let d = m.diagnosis();
    assert!(d.lines.is_empty());
    assert_eq!(d.more, 0);
    let m = CommandMonitor::start("make", 0);
    assert!(m.diagnosis().lines.is_empty());
}

#[test]
fn a_stream_that_broke_never_gives_a_part_as_the_output() {
    for exit_code in [None, Some(0), Some(3)] {
        let mut m = CommandMonitor::start("nix build", 0);
        m.on_chunk("half of the out", 1);
        match m.finish(StreamEnd::Broken("connection reset".to_string()), exit_code) {
            Err(CommandError::Aborted { command, reason }) => {
                assert_eq!(command, "nix build");
                assert_eq!(reason, "connection reset");
            }
            _ => panic!("an aborted command was expected"),
        }
    }
    let stream = vec![chunk("a", 1), chunk("b", 2)];
    let run = execute_command(
        "nix build",
        0,
        &stream,
        StreamEnd::Broken("connection reset".to_string()),
        Some(0),
    );
    assert_eq!(run.result.err().unwrap().message(), "connection reset");
}
