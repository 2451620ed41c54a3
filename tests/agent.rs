use vsock_exec::exec::{
    command_from_bytes, stdin_script, ExecError, ExecutionResult, ExitStatus, BUF_SIZE,
};
use vsock_exec::listen::{ListenAddress, DEFAULT_PORT};
use vsock_exec::portal::{
    portal_call, portal_call0, portal_call1, portal_call2, portal_call3, portal_call4,
    portal_call5, PORTAL_MAGIC,
};
use vsock_exec::shell::{ends_with_sh, resolve_shell, ShellError, ShellSpec, FALLBACK_SHELL};

#[test]
fn portal_call3_carries_identifier_and_arguments() {
    let q = portal_call3(0x1234, 10, 20, 30);
    assert_eq!(q.sentinel, PORTAL_MAGIC);
    assert_eq!(q.sentinel, 0xc1d1e1f1);
    assert_eq!(q.user_magic, 0x1234);
    assert_eq!(q.argc, 3);
    assert_eq!(q.args, vec![10, 20, 30]);
}

#[test]
fn portal_calls_of_each_arity() {
    assert_eq!(portal_call0(1).args, Vec::<u64>::new());
    assert_eq!(portal_call0(1).argc, 0);
    assert_eq!(portal_call1(1, 5).args, vec![5]);
    assert_eq!(portal_call2(1, 5, 6).args, vec![5, 6]);
    assert_eq!(portal_call4(1, 5, 6, 7, 8).args, vec![5, 6, 7, 8]);
    let q = portal_call5(9, 5, 6, 7, 8, 9);
    assert_eq!(q.argc, 5);
    assert_eq!(q.user_magic, 9);
    assert_eq!(q.args, vec![5, 6, 7, 8, 9]);
}

#[test]
fn portal_call_takes_leading_arguments() {
    let q = portal_call(7, 2, &[1, 2, 3]).unwrap();
    assert_eq!(q.argc, 2);
    assert_eq!(q.args, vec![1, 2]);
}

#[test]
fn portal_call_rejects_bad_counts() {
    assert!(portal_call(7, 6, &[1, 2, 3, 4, 5, 6]).is_none());
    assert!(portal_call(7, -1, &[]).is_none());
    assert!(portal_call(7, 3, &[1, 2]).is_none());
}

#[test]
fn override_wins_over_link_and_fallback() {
    let r = resolve_shell(Some("/bin/bash".to_string()), Some("/bin/dash".to_string()));
    assert_eq!(r, "/bin/bash");
    let r = resolve_shell(None, Some("/bin/dash".to_string()));
    assert_eq!(r, "/bin/dash");
    let r = resolve_shell(None, None);
    assert_eq!(r, FALLBACK_SHELL);
    assert_eq!(r, "/bin/busybox");
}

#[test]
fn multi_call_binary_gets_sh_applet() {
    let s = ShellSpec::resolve("/bin/busybox").unwrap();
    assert_eq!(s.program, "/bin/busybox");
    assert_eq!(s.args, vec!["sh".to_string()]);
    let s = ShellSpec::resolve("/bin/busybox -x").unwrap();
    assert_eq!(s.args, vec!["sh".to_string(), "-x".to_string()]);
}

#[test]
fn shell_named_sh_gets_no_applet() {
    let s = ShellSpec::resolve("/bin/sh").unwrap();
    assert_eq!(s.program, "/bin/sh");
    assert!(s.args.is_empty());
    let s = ShellSpec::resolve("'/usr/bin/my bash' -e").unwrap();
    assert_eq!(s.program, "/usr/bin/my bash");
    assert_eq!(s.args, vec!["-e".to_string()]);
}

#[test]
fn shell_line_errors() {
    assert_eq!(ShellSpec::resolve("'/bin/sh").unwrap_err(), ShellError::Unbalanced);
    assert_eq!(ShellSpec::resolve("").unwrap_err(), ShellError::Empty);
    assert_eq!(ShellSpec::resolve("   ").unwrap_err(), ShellError::Empty);
    assert!(ShellSpec::from_words(vec![]).is_none());
}

#[test]
fn ends_with_sh_cases() {
    assert!(ends_with_sh("/bin/sh"));
    assert!(ends_with_sh("zsh"));
    assert!(!ends_with_sh("/bin/busybox"));
    assert!(!ends_with_sh("h"));
    assert!(!ends_with_sh(""));
}

#[test]
fn command_is_decoded_and_trimmed() {
    assert_eq!(command_from_bytes(b"  echo hello \n"), "echo hello");
    assert_eq!(command_from_bytes(b""), "");
    assert_eq!(command_from_bytes(&[b'a', 0xff, b'b']), "a\u{FFFD}b");
}

#[test]
fn oversized_command_is_truncated() {
    let mut big = vec![b'x'; BUF_SIZE + 100];
    big[BUF_SIZE + 50] = b'y';
    let c = command_from_bytes(&big);
    assert_eq!(c.len(), 65536);
    assert!(!c.contains('y'));
}

#[test]
fn script_ends_with_exit_status_line() {
    assert_eq!(stdin_script("echo hello"), "echo hello\nexit $?\n");
    assert_eq!(stdin_script("exit 7"), "exit 7\nexit $?\n");
}

#[test]
fn echo_hello_result() {
    let r = ExecutionResult::from_outcome(
        ExitStatus::Code(0),
        Some("hello\n".to_string()),
        Some(String::new()),
    )
    .unwrap();
    assert_eq!(r.stdout, "hello\n");
    assert_eq!(r.stderr, "");
    assert_eq!(r.exit_code, 0);
}

#[test]
fn exit_seven_result() {
    let r = ExecutionResult::from_outcome(ExitStatus::Code(7), Some(String::new()), Some(String::new()))
        .unwrap();
    assert_eq!(r.exit_code, 7);
    assert_eq!(r.stdout, "");
    assert_eq!(r.stderr, "");
}

#[test]
fn deadline_keeps_partial_fields() {
    let r = ExecutionResult::from_outcome(ExitStatus::Pending, None, None).unwrap();
    assert_eq!(r.exit_code, 0);
    assert_eq!(r.stdout, "");
    assert_eq!(r.stderr, "");
    let r = ExecutionResult::from_outcome(ExitStatus::Pending, Some("part".to_string()), None)
        .unwrap();
    assert_eq!(r.stdout, "part");
}

#[test]
fn missing_exit_code_is_an_error() {
    let r = ExecutionResult::from_outcome(ExitStatus::NoCode, Some("x".to_string()), None);
    assert_eq!(r.unwrap_err(), ExecError::NoExitCode);
}

#[test]
fn listen_address_cid() {
    let a = ListenAddress::with_defaults();
    assert_eq!(a.port, DEFAULT_PORT);
    assert_eq!(a.port, 12341234);
    assert_eq!(a.bind_cid(), 0xFFFF_FFFF);
    let a = ListenAddress::new(Some(3), 99, Some("/bin/sh".to_string()));
    assert_eq!(a.bind_cid(), 3);
    assert_eq!(a.port, 99);
    assert_eq!(a.shell.as_deref(), Some("/bin/sh"));
}
