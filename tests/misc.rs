use pcli2_mcp::banner::{center_text, gradient_line, lerp};
use pcli2_mcp::process::{
    accept_chunk, command_outcome, read_failure, render_command_line, timeout_failure,
};
use pcli2_mcp::AppState;

#[test]
fn test_app_state_clone() {
    let state = AppState {
        server_name: "test-server".to_string(),
        server_version: "1.0.0".to_string(),
    };
    let cloned_state = state.clone();
    assert_eq!(state.server_name, cloned_state.server_name);
    assert_eq!(state.server_version, cloned_state.server_version);
}

#[test]
fn test_lerp() {
    assert_eq!(lerp(0, 100, 0, 1), 0);
    assert_eq!(lerp(0, 100, 1, 1), 100);
    assert_eq!(lerp(0, 100, 1, 2), 50);
    assert_eq!(lerp(50, 150, 1, 2), 100);
    assert_eq!(lerp(10, 20, 3, 10), 13);
}

#[test]
fn test_gradient_line() {
    let input = "test";
    let result = gradient_line(input);
    assert!(result.contains("\x1b[38;2;"));
    assert!(result.ends_with("\x1b[0m"));
}

#[test]
fn gradient_runs_from_start_to_end_colour() {
    assert_eq!(
        gradient_line("ab"),
        "\x1b[38;2;36;144;255ma\x1b[38;2;255;120;48mb\x1b[0m"
    );
    assert_eq!(gradient_line("x"), "\x1b[38;2;36;144;255mx\x1b[0m");
    assert_eq!(gradient_line(""), "\x1b[0m");
}

#[test]
fn centring() {
    assert_eq!(center_text("ab", 6), "  ab  ");
    assert_eq!(center_text("abc", 6), " abc  ");
    assert_eq!(center_text("toolong", 3), "toolong");
}

#[test]
fn rendered_command_line() {
    let args = vec!["tenant".to_string(), "use".to_string(), "--name".to_string(), "my tenant".to_string()];
    assert_eq!(render_command_line(&args), "tenant use --name 'my tenant'");
    assert_eq!(render_command_line(&vec![]), "");
}

#[test]
fn output_is_bounded() {
    let mut buf = vec![1u8, 2];
    assert!(accept_chunk(&mut buf, &[3, 4], 4, "stdout").is_ok());
    assert_eq!(buf, vec![1, 2, 3, 4]);
    let err = accept_chunk(&mut buf, &[5], 4, "stderr").unwrap_err();
    assert_eq!(err, "pcli2 stderr exceeded maximum output size of 4 bytes");
    assert_eq!(buf, vec![1, 2, 3, 4]);
}

#[test]
fn finished_run_outcomes() {
    assert_eq!(
        command_outcome("pcli2 tenant list", true, "exit status: 0", b"tenant list ok\n", b"").unwrap(),
        "tenant list ok"
    );
    assert_eq!(
        command_outcome("pcli2 oops", false, "exit status: 1", b"", b"unknown args\n").unwrap_err(),
        "pcli2 oops failed (code exit status: 1):\n\nunknown args"
    );
    assert_eq!(
        command_outcome("l", true, "s", b"caf\xc3\xa9 \xff  \n", b"").unwrap(),
        "caf\u{e9} \u{fffd}"
    );
}

#[test]
fn failure_messages() {
    assert_eq!(read_failure("stdout", "broken pipe"), "Failed to read pcli2 stdout: broken pipe");
    assert_eq!(timeout_failure("pcli2 tenant list"), "pcli2 tenant list failed: timed out after 1800s");
}

#[test]
fn draining_chunks_keeps_the_bound() {
    let chunks: Vec<Vec<u8>> = vec![vec![1, 2, 3], vec![], vec![4, 5], vec![6]];
    let mut buf = Vec::new();
    for c in &chunks {
        accept_chunk(&mut buf, c, 6, "stdout").unwrap();
    }
    assert_eq!(buf, vec![1, 2, 3, 4, 5, 6]);
    let mut small = Vec::new();
    let mut failure = None;
    for c in &chunks {
        if let Err(e) = accept_chunk(&mut small, c, 5, "stdout") {
            failure = Some(e);
            break;
        }
    }
    assert_eq!(failure.unwrap(), "pcli2 stdout exceeded maximum output size of 5 bytes");
    assert_eq!(small, vec![1, 2, 3, 4, 5]);
}
