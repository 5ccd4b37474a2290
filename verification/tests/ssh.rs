use qemu_test_runner::ssh::{cap_output, SshAction, SEND_MODE};
use qemu_test_runner::{prepare_dir, IoFailure, IoKind, Output};

#[test]
fn file_transfer() {
    let output = Output::sent(Ok(()));
    assert!(output.success());
    let stdout = output.stdout().expect("stdout should exist");
    assert!(stdout.is_empty());
    assert!(output.stderr().expect("stderr should exist").is_empty());
    assert!(matches!(output, Output::Finished { exit_code: 0, .. }));
}

#[test]
fn a_failed_transfer_is_an_error() {
    let failure = IoFailure {
        kind: IoKind::NotFound,
        message: "no such file".into(),
    };
    let output = Output::sent(Err(failure));
    assert!(!output.success());
    assert!(output.stdout().is_none());
    assert!(output.stderr().is_none());
    assert!(matches!(
        output,
        Output::Error { error: IoFailure { kind: IoKind::NotFound, message } } if message == "no such file"
    ));
}

#[test]
fn files_are_sent_with_all_permissions() {
    assert_eq!(SEND_MODE, 0o777);
}

#[test]
fn output_limit_zero_gives_empty_streams() {
    let output = Output::finished(0, b"some output".to_vec(), b"some errors".to_vec(), Some(0));
    assert_eq!(output.stdout(), Some(&b""[..]));
    assert_eq!(output.stderr(), Some(&b""[..]));
    assert!(output.success());
}

#[test]
fn output_is_cut_at_the_limit() {
    let output = Output::finished(2, b"0123456789".to_vec(), b"abc".to_vec(), Some(4));
    assert_eq!(output.stdout(), Some(&b"0123"[..]));
    assert_eq!(output.stderr(), Some(&b"abc"[..]));
    assert!(!output.success());
    assert!(matches!(output, Output::Finished { exit_code: 2, .. }));
}

#[test]
fn output_without_limit_is_kept() {
    let output = Output::finished(0, b"0123456789".to_vec(), b"abc".to_vec(), None);
    assert_eq!(output.stdout(), Some(&b"0123456789"[..]));
    assert_eq!(output.stderr(), Some(&b"abc"[..]));
}

#[test]
fn cap() {
    assert_eq!(cap_output(b"abc".to_vec(), Some(3)), b"abc");
    assert_eq!(cap_output(b"abc".to_vec(), Some(2)), b"ab");
    assert_eq!(cap_output(b"abc".to_vec(), Some(u64::MAX)), b"abc");
    assert_eq!(cap_output(Vec::new(), Some(0)), b"");
    assert_eq!(cap_output(b"abc".to_vec(), None), b"abc");
}

#[test]
fn success_is_exit_code_zero() {
    let finished = |exit_code: i32| Output::Finished {
        exit_code,
        stdout: vec![],
        stderr: vec![],
    };
    assert!(finished(0).success());
    assert!(!finished(1).success());
    assert!(!finished(-1).success());
    assert!(!Output::Timeout.success());
    assert!(Output::Timeout.stdout().is_none());
    assert!(Output::Timeout.stderr().is_none());
}

#[test]
fn actions_are_copied_whole() {
    let action = SshAction::Send {
        from: "a".into(),
        to: "b".into(),
    };
    assert!(matches!(action.clone(), SshAction::Send { from, to } if from == "a" && to == "b"));
    let action = SshAction::Exec { cmd: "ls -l".into() };
    assert!(matches!(action.clone(), SshAction::Exec { cmd } if cmd == "ls -l"));
}

#[test]
fn an_existing_directory_is_ready() {
    let exists = IoFailure {
        kind: IoKind::AlreadyExists,
        message: "File exists (os error 17)".into(),
    };
    assert!(prepare_dir(Err(exists)).is_ok());
    assert!(prepare_dir(Ok(())).is_ok());
    let denied = IoFailure {
        kind: IoKind::Other,
        message: "Permission denied (os error 13)".into(),
    };
    let error = prepare_dir(Err(denied)).unwrap_err();
    assert_eq!(error.kind, IoKind::Other);
    assert_eq!(error.message, "Permission denied (os error 13)");
}
