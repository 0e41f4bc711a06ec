use nixos_installer::clone::{clone_repo, extract_percent, CloneState, LineSplitter, ProcessExit};

fn feed_all(splitter: &mut LineSplitter, bytes: &[u8]) -> Vec<String> {
    let mut out = Vec::new();
    for b in bytes {
        if let Some(line) = splitter.feed(*b) {
            out.push(line);
        }
    }
    out
}

#[test]
fn clone_progress_follows_the_lines_and_completes_on_success() {
    let mut state = CloneState::new();
    assert_eq!(state.percent, 0);
    assert!(!state.done);
    state.begin("https://example.org/dots.git");
    assert_eq!(state.log, vec!["Cloning https://example.org/dots.git..."]);
    assert_eq!(state.phase, "Starting clone...");

    state.record_line("Receiving objects:  42% (123/456)".to_string());
    assert_eq!(state.percent, 42);
    assert_eq!(state.phase, "Receiving objects:  42% (123/456)");
    assert!(!state.done);

    state.record_line("Receiving objects: 100% (456/456), done.".to_string());
    assert_eq!(state.percent, 100);
    assert!(!state.done);
    assert!(state.error.is_none());

    state.finish(&ProcessExit::Success);
    assert!(state.done);
    assert_eq!(state.percent, 100);
    assert_eq!(state.phase, "Clone complete!");
    assert!(state.error.is_none());
    assert_eq!(
        state.log,
        vec![
            "Cloning https://example.org/dots.git...",
            "Receiving objects:  42% (123/456)",
            "Receiving objects: 100% (456/456), done.",
            "Clone completed successfully.",
        ]
    );
}

#[test]
fn a_failed_clone_sets_the_error_and_is_not_done() {
    let mut state = CloneState::new();
    state.record_line("Receiving objects:  10% (1/10)".to_string());
    state.finish(&ProcessExit::Failed(Some(128)));
    assert!(!state.done);
    assert_eq!(state.percent, 10);
    assert_eq!(state.error.as_deref(), Some("git clone failed with exit code Some(128)"));
    assert_eq!(state.log.last().unwrap(), "git clone failed with exit code Some(128)");

    let mut state = CloneState::new();
    state.finish(&ProcessExit::Failed(None));
    assert_eq!(state.error.as_deref(), Some("git clone failed with exit code None"));

    let mut state = CloneState::new();
    state.finish(&ProcessExit::Failed(Some(-1)));
    assert_eq!(state.error.as_deref(), Some("git clone failed with exit code Some(-1)"));

    let mut state = CloneState::new();
    state.finish(&ProcessExit::Failed(Some(i32::MIN)));
    assert_eq!(state.error.as_deref(), Some("git clone failed with exit code Some(-2147483648)"));

    let mut state = CloneState::new();
    state.finish(&ProcessExit::WaitFailed("interrupted".to_string()));
    assert_eq!(state.error.as_deref(), Some("Failed to wait for git clone: interrupted"));
    assert!(!state.done);

    let mut state = CloneState::new();
    state.finish(&ProcessExit::SpawnFailed("No such file or directory".to_string()));
    assert_eq!(state.error.as_deref(), Some("Failed to run git clone: No such file or directory"));
    assert_eq!(state.log, vec!["Failed to run git clone: No such file or directory"]);
    assert!(!state.done);
}

#[test]
fn the_percentage_is_read_before_the_first_percent_sign() {
    assert_eq!(extract_percent("Receiving objects:  42% (123/456)"), Some(42));
    assert_eq!(extract_percent("Resolving deltas:  80% (12/15)"), Some(80));
    assert_eq!(extract_percent("Enumerating objects: 100, done."), None);
    assert_eq!(extract_percent("100%"), Some(100));
    assert_eq!(extract_percent("0%"), Some(0));
    assert_eq!(extract_percent("007%"), Some(7));
    assert_eq!(extract_percent("255%"), Some(255));
    assert_eq!(extract_percent("256%"), None);
    assert_eq!(extract_percent("%"), None);
    assert_eq!(extract_percent(" %"), None);
    assert_eq!(extract_percent("a%12%"), None);
    assert_eq!(extract_percent("12%34%"), Some(12));
    assert_eq!(extract_percent("1.2 MiB/s 5%"), Some(5));
    assert_eq!(extract_percent("rate 1.25% of 50%"), Some(25));
    assert_eq!(extract_percent("x12 %"), None);
    assert_eq!(extract_percent(""), None);
}

#[test]
fn a_line_without_a_percentage_keeps_the_old_one() {
    let mut state = CloneState::new();
    state.record_line("Receiving objects:  42% (123/456)".to_string());
    state.record_line("remote: Counting objects, done.".to_string());
    assert_eq!(state.percent, 42);
    assert_eq!(state.phase, "remote: Counting objects, done.");
    assert_eq!(state.log.len(), 2);
    state.record_tail("fatal: early EOF".to_string());
    assert_eq!(state.phase, "remote: Counting objects, done.");
    assert_eq!(state.percent, 42);
    assert_eq!(state.log.len(), 3);
    assert_eq!(state.log[2], "fatal: early EOF");
}

#[test]
fn the_splitter_ends_lines_at_carriage_returns_and_line_feeds() {
    let mut splitter = LineSplitter::new();
    let lines = feed_all(
        &mut splitter,
        b"Cloning into 'x'...\nReceiving objects:  1% (1/100)\rReceiving objects:  2% (2/100)\r\n\n  \r done",
    );
    assert_eq!(
        lines,
        vec![
            "Cloning into 'x'...",
            "Receiving objects:  1% (1/100)",
            "Receiving objects:  2% (2/100)",
        ]
    );
    assert_eq!(splitter.pending, vec![' ', 'd', 'o', 'n', 'e']);
    assert_eq!(splitter.finish(), Some("done".to_string()));
    assert!(splitter.pending.is_empty());
    assert_eq!(splitter.finish(), None);
}

#[test]
fn the_splitter_reads_bytes_as_characters_by_their_code() {
    let mut splitter = LineSplitter::new();
    assert_eq!(splitter.feed(0xe9), None);
    assert_eq!(splitter.feed(b'!'), None);
    assert_eq!(splitter.feed(b'\n'), Some("\u{e9}!".to_string()));
    assert_eq!(splitter.feed(0xa0), None);
    assert_eq!(splitter.feed(b'\r'), None);
    assert_eq!(splitter.finish(), None);
}

#[test]
fn the_stream_of_a_clone_updates_the_state_line_by_line() {
    let mut splitter = LineSplitter::new();
    let mut state = CloneState::new();
    state.begin("u");
    let mut seen = Vec::new();
    for b in b"Receiving objects:  42% (123/456)\rReceiving objects: 100% (456/456), done.\nlast" {
        if let Some(line) = splitter.feed(*b) {
            state.record_line(line);
            seen.push(state.percent);
        }
    }
    if let Some(line) = splitter.finish() {
        state.record_tail(line);
    }
    assert_eq!(seen, vec![42, 100]);
    assert!(!state.done);
    assert_eq!(state.log.last().unwrap(), "last");
    state.finish(&ProcessExit::Success);
    assert!(state.done);
}

#[test]
fn the_record_of_a_whole_clone() {
    let output = b"Cloning into 'x'...\nReceiving objects:  42% (123/456)\rReceiving objects: 100% (456/456), done.\nResolving deltas:  50% (1/2)\rtail ".to_vec();
    let state = clone_repo("https://example.org/dots.git", &output, &ProcessExit::Success);
    assert!(state.done);
    assert!(state.error.is_none());
    assert_eq!(state.percent, 100);
    assert_eq!(state.phase, "Clone complete!");
    assert_eq!(
        state.log,
        vec![
            "Cloning https://example.org/dots.git...",
            "Cloning into 'x'...",
            "Receiving objects:  42% (123/456)",
            "Receiving objects: 100% (456/456), done.",
            "Resolving deltas:  50% (1/2)",
            "tail",
            "Clone completed successfully.",
        ]
    );

    let state = clone_repo("u", &output, &ProcessExit::Failed(Some(128)));
    assert!(!state.done);
    assert_eq!(state.percent, 50);
    assert_eq!(state.phase, "Resolving deltas:  50% (1/2)");
    assert_eq!(state.error.as_deref(), Some("git clone failed with exit code Some(128)"));
    assert_eq!(state.log.len(), 7);

    let state = clone_repo("u", &Vec::new(), &ProcessExit::SpawnFailed("no git".to_string()));
    assert!(!state.done);
    assert_eq!(state.percent, 0);
    assert_eq!(state.phase, "Starting clone...");
    assert_eq!(state.log, vec!["Cloning u...", "Failed to run git clone: no git"]);
}
