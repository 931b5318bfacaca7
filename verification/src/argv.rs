//! The argument vector of one self-limiting send.
use vstd::prelude::*;

use crate::decimal;
use crate::shell;
use crate::shell::Shell;

verus! {

/// The script of a send, for a POSIX shell. Its parameters are the deadline in seconds, the name of
/// the pipe and the payload. They are read as positional parameters and are never part of the text,
/// so no payload can break out of the command.
///
/// The client runs in the background, and so does a watchdog that sleeps until the deadline and then
/// kills the client; both belong to the spawned subtree, so a blocked client is reaped whatever
/// happens to the process that spawned it. When the client is gone, the watchdog is disarmed, and the
/// script exits with the status of the client: a caller that records what it has delivered can go by
/// it.
///
/// What is accepted:
/// - The kill of an expired watchdog could hit a recycled process id. Disarming it narrows that window
///   to microseconds.
/// - Disarming kills the subshell alone. Its `sleep` stays behind until the deadline and exits without
///   doing anything.
/// - The kill is one SIGTERM to the direct child. That is enough for `zellij pipe`, which is a single
///   process that does not trap the signal.
/// - Where the watchdog cannot be forked, the client runs without a bound.
pub const SELF_LIMITING_SEND: &'static str = "zellij pipe --name \"$2\" -- \"$3\" >/dev/null 2>&1 & p=$!; \
    ( sleep \"$1\"; kill \"$p\" ) >/dev/null 2>&1 & w=$!; \
    wait \"$p\" 2>/dev/null; s=$?; kill \"$w\" 2>/dev/null; exit \"$s\"";

/// The name under which the shell of a send shows up in process listings.
pub const PROCESS_LABEL: &'static str = "zj-radar-pipe";

/// The argument vector of one send: the shell, its `-c` and the script, then the label as `$0`, the
/// deadline as `$1`, the name of the pipe as `$2` and the payload as `$3`.
pub open spec fn send_argv(
    sh: Seq<char>,
    pipe_name: Seq<char>,
    payload: Seq<char>,
    timeout_secs: nat,
) -> Seq<Seq<char>> {
    seq![
        sh,
        "-c"@,
        SELF_LIMITING_SEND@,
        PROCESS_LABEL@,
        decimal::decimal(timeout_secs),
        pipe_name,
        payload,
    ]
}

/// What the strings of a sequence hold.
pub open spec fn texts(strings: Seq<String>) -> Seq<Seq<char>> {
    strings.map_values(|s: String| s@)
}

/// The positional parameter `$n` of the script that an argument vector runs.
pub open spec fn positional(argv: Seq<Seq<char>>, n: int) -> Seq<char> {
    argv[3 + n]
}

/// The argument vector of one self-limiting send of `payload` to the pipe `pipe_name`: the subtree
/// that it spawns ends within `timeout_secs`, plus what scheduling adds, even if the process that
/// spawned it dies first. The contract fixes every entry of the vector; what a shell makes of the
/// script, and when, rests on the shell and the host, and is not part of it.
pub fn self_limiting_pipe_argv(
    sh: &Shell,
    pipe_name: &str,
    payload: &str,
    timeout_secs: u64,
) -> (argv: Vec<String>)
    ensures
        argv@.len() == 7,
        texts(argv@) == send_argv(sh@, pipe_name@, payload@, timeout_secs as nat),
        shell::names_a_shell(texts(argv@)[0]),
        argv@[0]@ == sh@,
        argv@[1]@ == "-c"@,
        argv@[2]@ == SELF_LIMITING_SEND@,
        argv@[3]@ == "zj-radar-pipe"@,
        argv@[4]@ == decimal::decimal(timeout_secs as nat),
        argv@[5]@ == pipe_name@,
        argv@[6]@ == payload@,
{
    let argv = vec![
        sh.argv0(),
        "-c".to_string(),
        SELF_LIMITING_SEND.to_string(),
        PROCESS_LABEL.to_string(),
        decimal::decimal_text(timeout_secs),
        pipe_name.to_string(),
        payload.to_string(),
    ];
    assert(texts(argv@) =~= send_argv(sh@, pipe_name@, payload@, timeout_secs as nat));
    assert(texts(argv@)[0] == sh@);
    argv
}

/// The payload is the parameter `$3`, verbatim, and no other entry depends on it: a send of another
/// payload differs in that entry alone.
pub proof fn payload_is_carried_verbatim_and_alone(
    sh: Seq<char>,
    pipe_name: Seq<char>,
    payload: Seq<char>,
    other: Seq<char>,
    timeout_secs: nat,
)
    ensures
        positional(send_argv(sh, pipe_name, payload, timeout_secs), 3) == payload,
        send_argv(sh, pipe_name, other, timeout_secs) == send_argv(
            sh,
            pipe_name,
            payload,
            timeout_secs,
        ).update(6, other),
{
    assert(send_argv(sh, pipe_name, other, timeout_secs) =~= send_argv(
        sh,
        pipe_name,
        payload,
        timeout_secs,
    ).update(6, other));
}

/// All sends run the same script, whatever they send, where to, by when and in which shell.
pub proof fn script_is_fixed(
    sh: Seq<char>,
    pipe_name: Seq<char>,
    payload: Seq<char>,
    timeout_secs: nat,
)
    ensures
        send_argv(sh, pipe_name, payload, timeout_secs)[1] == "-c"@,
        send_argv(sh, pipe_name, payload, timeout_secs)[2] == SELF_LIMITING_SEND@,
{
}

/// The deadline is the parameter `$1`, as a number of whole seconds: a string of decimal digits that
/// reads back as the deadline.
pub proof fn deadline_is_carried_in_decimal(
    sh: Seq<char>,
    pipe_name: Seq<char>,
    payload: Seq<char>,
    timeout_secs: nat,
)
    ensures
        ({
            let text = positional(send_argv(sh, pipe_name, payload, timeout_secs), 1);
            &&& text.len() > 0
            &&& forall|i: int| 0 <= i < text.len() ==> '0' <= #[trigger] text[i] <= '9'
            &&& decimal::decimal_value(text) == timeout_secs
        }),
{
    decimal::decimal_reads_back(timeout_secs);
    decimal::decimal_is_plain_digits(timeout_secs);
}

/// Sends that differ in their shell, their pipe, their payload or their deadline differ in their
/// argument vectors.
pub proof fn argv_determines_the_send(
    a: (Seq<char>, Seq<char>, Seq<char>, nat),
    b: (Seq<char>, Seq<char>, Seq<char>, nat),
)
    requires
        send_argv(a.0, a.1, a.2, a.3) == send_argv(b.0, b.1, b.2, b.3),
    ensures
        a == b,
{
    let argv = send_argv(a.0, a.1, a.2, a.3);
    assert(argv[0] == a.0 && argv[0] == b.0);
    assert(argv[5] == a.1 && argv[5] == b.1);
    assert(argv[6] == a.2 && argv[6] == b.2);
    assert(argv[4] == decimal::decimal(a.3) && argv[4] == decimal::decimal(b.3));
    decimal::decimal_reads_back(a.3);
    decimal::decimal_reads_back(b.3);
}

/// The vector is started by the shell that was given, whichever it is, unchanged: no other part of the
/// send has a say in what is spawned.
pub proof fn given_shell_is_what_is_spawned(
    sh: Seq<char>,
    pipe_name: Seq<char>,
    payload: Seq<char>,
    timeout_secs: nat,
)
    ensures
        send_argv(sh, pipe_name, payload, timeout_secs)[0] == sh,
        send_argv(sh, pipe_name, payload, timeout_secs).len() == 7,
{
}

/// A send in another shell differs in the first entry alone.
pub proof fn another_shell_changes_the_first_entry_alone(
    sh: Seq<char>,
    other: Seq<char>,
    pipe_name: Seq<char>,
    payload: Seq<char>,
    timeout_secs: nat,
)
    ensures
        send_argv(other, pipe_name, payload, timeout_secs) == send_argv(
            sh,
            pipe_name,
            payload,
            timeout_secs,
        ).update(0, other),
{
    assert(send_argv(other, pipe_name, payload, timeout_secs) =~= send_argv(
        sh,
        pipe_name,
        payload,
        timeout_secs,
    ).update(0, other));
}

/// The name of the pipe is the parameter `$2`, verbatim, whatever the deadline, and no other entry
/// depends on it: a send to another pipe differs in that entry alone.
pub proof fn pipe_name_is_carried_verbatim_and_alone(
    sh: Seq<char>,
    pipe_name: Seq<char>,
    other: Seq<char>,
    payload: Seq<char>,
    timeout_secs: nat,
)
    ensures
        positional(send_argv(sh, pipe_name, payload, timeout_secs), 2) == pipe_name,
        send_argv(sh, pipe_name, payload, timeout_secs)[5] == pipe_name,
        send_argv(sh, other, payload, timeout_secs) == send_argv(
            sh,
            pipe_name,
            payload,
            timeout_secs,
        ).update(5, other),
{
    assert(send_argv(sh, other, payload, timeout_secs) =~= send_argv(
        sh,
        pipe_name,
        payload,
        timeout_secs,
    ).update(5, other));
}

/// A send with another deadline differs in the entry of the deadline alone, and that entry holds the
/// deadline and nothing else.
pub proof fn another_deadline_changes_its_entry_alone(
    sh: Seq<char>,
    pipe_name: Seq<char>,
    payload: Seq<char>,
    timeout_secs: nat,
    other: nat,
)
    ensures
        send_argv(sh, pipe_name, payload, timeout_secs)[4] == decimal::decimal(timeout_secs),
        send_argv(sh, pipe_name, payload, other) == send_argv(
            sh,
            pipe_name,
            payload,
            timeout_secs,
        ).update(4, decimal::decimal(other)),
{
    assert(send_argv(sh, pipe_name, payload, other) =~= send_argv(
        sh,
        pipe_name,
        payload,
        timeout_secs,
    ).update(4, decimal::decimal(other)));
}

/// The shell is told to run a command string, which is the next entry; the entry behind that is its
/// `$0`, the label of the process; and the positional parameters follow, in the last three entries.
pub proof fn parameters_follow_the_script(
    sh: Seq<char>,
    pipe_name: Seq<char>,
    payload: Seq<char>,
    timeout_secs: nat,
)
    ensures
        ({
            let argv = send_argv(sh, pipe_name, payload, timeout_secs);
            &&& argv[1] == "-c"@
            &&& argv[3] == "zj-radar-pipe"@
            &&& positional(argv, 0) == argv[3]
            &&& positional(argv, 1) == argv[4]
            &&& positional(argv, 2) == argv[5]
            &&& positional(argv, 3) == argv[6]
            &&& argv[6] == payload
        }),
{
}

/// The texts of strings are what the strings hold, one for one.
pub proof fn texts_are_one_for_one(strings: Seq<String>, i: int)
    requires
        0 <= i < strings.len(),
    ensures
        texts(strings).len() == strings.len(),
        texts(strings)[i] == strings[i]@,
{
}

} // verus!
