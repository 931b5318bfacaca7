use zj_radar_pipe::limits::{
    DEFAULT_PIPE_TIMEOUT_SECS, MAX_STDIN_BYTES, RUNNING_PIPE_TIMEOUT_SECS, RUNNING_QUIET_MAX_SECS,
};

#[test]
fn limits_have_their_values() {
    assert_eq!(DEFAULT_PIPE_TIMEOUT_SECS, 5);
    assert_eq!(RUNNING_PIPE_TIMEOUT_SECS, 2);
    assert_eq!(RUNNING_QUIET_MAX_SECS, 15);
    assert_eq!(MAX_STDIN_BYTES, 8388608);
}

#[test]
fn heartbeat_deadline_is_the_shorter_one() {
    assert!(RUNNING_PIPE_TIMEOUT_SECS < DEFAULT_PIPE_TIMEOUT_SECS);
}
