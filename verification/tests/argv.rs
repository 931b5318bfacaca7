use std::path::PathBuf;

use zj_radar_pipe::argv::{self_limiting_pipe_argv, PROCESS_LABEL, SELF_LIMITING_SEND};
use zj_radar_pipe::search::{Request, ShSearch};
use zj_radar_pipe::shell::Shell;

const STATUS_PIPE_NAME: &str = "status";

/// The shell of a host that has it in one of the usual directories.
fn usual_shell() -> Shell {
    let dirs = vec![PathBuf::from("/bin"), PathBuf::from("/usr/bin")];
    let mut search = ShSearch::start(Some(dirs));
    loop {
        search = match search.request() {
            Request::Probe(path) => {
                let is_file = path.is_file();
                search.probed(is_file)
            }
            Request::ReadRoots => search.roots_read(vec![None, None, None], None),
            Request::Done(sh) => return sh.clone(),
        };
    }
}

#[test]
fn argv_carries_payload_and_deadline_as_positionals() {
    let sh = usual_shell();
    let argv = self_limiting_pipe_argv(&sh, STATUS_PIPE_NAME, r#"{"v":1,"msg":"a b; $(rm)"}"#, 5);
    assert!(argv[0] == "sh" || argv[0].ends_with("sh.exe"));
    assert_eq!(argv[1], "-c");
    // The payload rides verbatim as a positional parameter, and is never part of the script.
    assert_eq!(argv[4], "5");
    assert_eq!(argv[5], STATUS_PIPE_NAME);
    assert_eq!(argv[6], r#"{"v":1,"msg":"a b; $(rm)"}"#);
    assert!(!argv[2].contains("rm"), "script must not embed the payload");
}

#[test]
fn script_arms_a_watchdog_and_disarms_it_after_a_normal_send() {
    // The deadline has to ride inside the spawned subtree, not in the process that spawns it.
    assert!(SELF_LIMITING_SEND.contains("sleep \"$1\""));
    assert!(SELF_LIMITING_SEND.contains("kill \"$p\""));
    assert!(SELF_LIMITING_SEND.contains("wait \"$p\""));
    assert!(SELF_LIMITING_SEND.contains("kill \"$w\""));
}

#[test]
fn argv_is_laid_out_in_full() {
    let argv = self_limiting_pipe_argv(&Shell::bare(), "radar", "{}", 10203);
    assert_eq!(
        argv,
        vec![
            "sh",
            "-c",
            "zellij pipe --name \"$2\" -- \"$3\" >/dev/null 2>&1 & p=$!; ( sleep \"$1\"; kill \"$p\" ) >/dev/null 2>&1 & w=$!; wait \"$p\" 2>/dev/null; s=$?; kill \"$w\" 2>/dev/null; exit \"$s\"",
            "zj-radar-pipe",
            "10203",
            "radar",
            "{}",
        ]
    );
    assert_eq!(PROCESS_LABEL, "zj-radar-pipe");
}

#[test]
fn another_payload_changes_the_last_entry_alone() {
    let one = self_limiting_pipe_argv(&Shell::bare(), "radar", "one", 5);
    let other = self_limiting_pipe_argv(&Shell::bare(), "radar", "\"; exit 7; \u{e9}\n", 5);
    assert_eq!(one.len(), 7);
    assert_eq!(one[..6], other[..6]);
    assert_eq!(one[6], "one");
    assert_eq!(other[6], "\"; exit 7; \u{e9}\n");
}

#[test]
fn empty_payload_and_pipe_name_are_carried() {
    let argv = self_limiting_pipe_argv(&Shell::bare(), "", "", 0);
    assert_eq!(argv[4], "0");
    assert_eq!(argv[5], "");
    assert_eq!(argv[6], "");
}

#[test]
fn script_is_the_same_for_every_send() {
    let one = self_limiting_pipe_argv(&Shell::bare(), "a", "x", 1);
    let other = self_limiting_pipe_argv(&Shell::bare(), "b", "y", 2);
    assert_eq!(one[2], SELF_LIMITING_SEND);
    assert_eq!(other[2], SELF_LIMITING_SEND);
}

#[test]
fn different_sends_have_different_argvs() {
    let base = self_limiting_pipe_argv(&Shell::bare(), "a", "x", 1);
    assert_ne!(base, self_limiting_pipe_argv(&Shell::bare(), "b", "x", 1));
    assert_ne!(base, self_limiting_pipe_argv(&Shell::bare(), "a", "y", 1));
    assert_ne!(base, self_limiting_pipe_argv(&Shell::bare(), "a", "x", 11));
}

#[test]
fn script_quotes_every_parameter_and_variable() {
    let script: Vec<char> = SELF_LIMITING_SEND.chars().collect();
    let mut seen = 0;
    for i in 0..script.len() - 2 {
        if script[i] == '$' && script[i + 1].is_alphanumeric() {
            assert_eq!(script[i - 1], '"');
            assert_eq!(script[i + 2], '"');
            seen += 1;
        }
    }
    assert_eq!(seen, 7);
}
