use solc::backend::{version_command, Backend};
use solc::error::{CompilerError, ExitStatus, ProcessOutput, ProcessRun};
use solc::probe::{
    is_solc_available, is_solcjs_available, solc_version, solcjs_version, version_from_run,
};

fn exited(code: Option<i32>, stdout: &[u8]) -> ProcessRun {
    ProcessRun::Exited(ProcessOutput {
        status: ExitStatus { code, signal: None },
        stdout: stdout.to_vec(),
        stderr: Vec::new(),
    })
}

#[test]
fn version_is_last_non_empty_line_for_each_backend() {
    let banner = b"\nfoo\nv0.8.1+commit\n";
    assert_eq!(solc_version(exited(Some(0), banner)), Ok("v0.8.1+commit".to_string()));
    assert_eq!(solcjs_version(exited(Some(0), banner)), Ok("v0.8.1+commit".to_string()));
}

#[test]
fn version_without_trailing_newline() {
    let run = exited(Some(0), b"solc, the solidity compiler\nVersion: 0.4.24");
    assert_eq!(solc_version(run), Ok("Version: 0.4.24".to_string()));
}

#[test]
fn version_skips_blank_and_carriage_return_lines() {
    let run = exited(Some(0), b"first\r\nsecond\r\n\r\n\n");
    assert_eq!(solc_version(run), Ok("second".to_string()));
}

#[test]
fn version_keeps_non_ascii_text() {
    let run = exited(Some(0), "héllo\nversión 1\n".as_bytes());
    assert_eq!(solcjs_version(run), Ok("versión 1".to_string()));
}

#[test]
fn trailing_carriage_return_without_line_feed_stays() {
    assert_eq!(solc_version(exited(Some(0), b"x\r")), Ok("x\r".to_string()));
    assert_eq!(solc_version(exited(Some(0), b"\r")), Ok("\r".to_string()));
    assert_eq!(solc_version(exited(Some(0), b"x\r\n")), Ok("x".to_string()));
    assert_eq!(solc_version(exited(Some(0), b"x\r\n\r")), Ok("\r".to_string()));
}

#[test]
fn silent_probe_is_output_empty() {
    assert_eq!(
        solc_version(exited(Some(0), b"")),
        Err(CompilerError::OutputEmpty { command: "solc --version".to_string() })
    );
    assert_eq!(
        solcjs_version(exited(Some(0), b"")),
        Err(CompilerError::OutputEmpty { command: "solcjs --version".to_string() })
    );
}

#[test]
fn blank_lines_only_is_output_empty() {
    assert_eq!(
        solc_version(exited(Some(0), b"\n\r\n\n")),
        Err(CompilerError::OutputEmpty { command: "solc --version".to_string() })
    );
}

#[test]
fn probe_exit_status_one_is_not_success() {
    assert_eq!(
        solc_version(exited(Some(1), b"0.8.1\n")),
        Err(CompilerError::ExitStatusNotSuccess {
            command: "solc --version".to_string(),
            status: ExitStatus { code: Some(1), signal: None },
        })
    );
}

#[test]
fn probe_killed_by_signal_is_not_success() {
    let run = ProcessRun::Exited(ProcessOutput {
        status: ExitStatus { code: None, signal: Some(9) },
        stdout: b"0.8.1\n".to_vec(),
        stderr: Vec::new(),
    });
    assert_eq!(
        solcjs_version(run),
        Err(CompilerError::ExitStatusNotSuccess {
            command: "solcjs --version".to_string(),
            status: ExitStatus { code: None, signal: Some(9) },
        })
    );
}

#[test]
fn probe_output_not_utf8() {
    assert_eq!(
        solc_version(exited(Some(0), b"ok\n\xff\xfe\n")),
        Err(CompilerError::OutputNotUtf8 { command: "solc --version".to_string() })
    );
}

#[test]
fn probe_spawn_failure() {
    assert_eq!(
        version_from_run(Backend::Solcjs, ProcessRun::SpawnFailed),
        Err(CompilerError::ProcessSpawnFailed { command: "solcjs --version".to_string() })
    );
}

#[test]
fn availability_follows_probe() {
    assert!(is_solc_available(exited(Some(0), b"0.8.1\n")));
    assert!(!is_solc_available(exited(Some(0), b"")));
    assert!(is_solcjs_available(exited(Some(0), b"0.8.1\n")));
    assert!(!is_solcjs_available(ProcessRun::SpawnFailed));
}

#[test]
fn version_command_shape() {
    let inv = version_command(Backend::Solcjs);
    assert_eq!(inv.program, "solcjs");
    assert_eq!(inv.args, vec!["--version".to_string()]);
    assert_eq!(inv.input, None);
    assert_eq!(inv.command(), "solcjs --version");
}
