use solc::backend::{file_command, standard_json_command, version_command, Backend};
use solc::error::{CompilerError, ExitStatus, ProcessOutput, ProcessRun};
use solc::files::{is_solidity_file, solidity_file_paths};
use solc::session::{common_standard_json, compile, solc_compile, solcjs_compile, standard_json, Action};

fn exited(code: Option<i32>, stdout: &[u8]) -> ProcessRun {
    ProcessRun::Exited(ProcessOutput {
        status: ExitStatus { code, signal: None },
        stdout: stdout.to_vec(),
        stderr: Vec::new(),
    })
}

fn ok_probe() -> ProcessRun {
    exited(Some(0), b"0.8.1+commit\n")
}

fn strings(v: &[&str]) -> Vec<String> {
    v.iter().map(|s| s.to_string()).collect()
}

#[test]
fn solidity_file_names() {
    assert!(is_solidity_file("a.sol"));
    assert!(is_solidity_file("contracts/a.b.sol"));
    assert!(!is_solidity_file(".sol"));
    assert!(!is_solidity_file("dir/.sol"));
    assert!(!is_solidity_file("a.SOL"));
    assert!(!is_solidity_file("a.sol.txt"));
    assert!(!is_solidity_file("sol"));
}

#[test]
fn solidity_paths_keep_order() {
    let entries = strings(&["d/b.sol", "d/c.txt", "d/a.sol", "d/README"]);
    assert_eq!(solidity_file_paths(&entries), strings(&["d/b.sol", "d/a.sol"]));
}

#[test]
fn both_backends_available_picks_solc() {
    let (mut s, a) = standard_json("{}");
    assert_eq!(a, Action::Run(version_command(Backend::Solc)));
    let a = s.step(ok_probe());
    assert_eq!(a, Action::Run(standard_json_command(Backend::Solc, "{}")));
}

#[test]
fn falls_back_to_solcjs() {
    let (mut s, _) = standard_json("{}");
    let a = s.step(ProcessRun::SpawnFailed);
    assert_eq!(a, Action::Run(version_command(Backend::Solcjs)));
    let a = s.step(ok_probe());
    assert_eq!(a, Action::Run(standard_json_command(Backend::Solcjs, "{}")));
}

#[test]
fn no_backend_is_no_compiler_found() {
    let (mut s, _) = compile(&strings(&["a.sol"]), "out");
    let a = s.step(exited(Some(1), b""));
    assert_eq!(a, Action::Run(version_command(Backend::Solcjs)));
    let a = s.step(ProcessRun::SpawnFailed);
    assert_eq!(a, Action::Fail(CompilerError::NoCompilerFound));
    assert!(s.is_finished());
}

#[test]
fn echo_round_trip() {
    let request = "{\"language\":\"Solidity\",\"sources\":{\"é.sol\":{}}}";
    let (mut s, a) = common_standard_json(Backend::Solc, request);
    assert_eq!(a, Action::Run(standard_json_command(Backend::Solc, request)));
    let a = s.step(exited(Some(0), request.as_bytes()));
    assert_eq!(a, Action::Respond(request.to_string()));
    assert!(s.is_finished());
}

#[test]
fn standard_json_exit_status_one() {
    let (mut s, _) = common_standard_json(Backend::Solcjs, "{}");
    let a = s.step(exited(Some(1), b"{}"));
    assert_eq!(
        a,
        Action::Fail(CompilerError::ExitStatusNotSuccess {
            command: "solcjs --standard-json".to_string(),
            status: ExitStatus { code: Some(1), signal: None },
        })
    );
}

#[test]
fn standard_json_output_not_utf8() {
    let (mut s, _) = common_standard_json(Backend::Solc, "{}");
    let a = s.step(exited(Some(0), b"\xc3"));
    assert_eq!(
        a,
        Action::Fail(CompilerError::OutputNotUtf8 { command: "solc --standard-json".to_string() })
    );
}

#[test]
fn standard_json_stdin_failures() {
    let (mut s, _) = common_standard_json(Backend::Solc, "{}");
    assert_eq!(
        s.step(ProcessRun::StdinOpenFailed),
        Action::Fail(CompilerError::StdinOpenFailed { command: "solc --standard-json".to_string() })
    );
    let (mut s, _) = common_standard_json(Backend::Solc, "{}");
    assert_eq!(
        s.step(ProcessRun::StdinWriteFailed),
        Action::Fail(CompilerError::StdinWriteFailed { command: "solc --standard-json".to_string() })
    );
}

#[test]
fn directory_compiles_only_solidity_files() {
    let (mut s, _) = compile(&strings(&["a.sol", "b.sol", "c.txt"]), "out");
    let a = s.step(ok_probe());
    assert_eq!(a, Action::Run(file_command(Backend::Solc, "a.sol", "out")));
    let a = s.step(exited(Some(0), b""));
    assert_eq!(a, Action::Run(file_command(Backend::Solc, "b.sol", "out")));
    let a = s.step(exited(Some(0), b""));
    assert_eq!(a, Action::Compiled);
    assert!(s.is_finished());
}

#[test]
fn directory_compile_stops_at_first_failure() {
    let (mut s, _) = compile(&strings(&["a.sol", "b.sol", "c.sol", "d.txt"]), "out");
    s.step(ok_probe());
    let a = s.step(exited(Some(0), b""));
    assert_eq!(a, Action::Run(file_command(Backend::Solc, "b.sol", "out")));
    let a = s.step(exited(Some(1), b"error"));
    assert_eq!(
        a,
        Action::Fail(CompilerError::ExitStatusNotSuccess {
            command: "solc --bin --abi --overwrite --optimize --output-dir out b.sol".to_string(),
            status: ExitStatus { code: Some(1), signal: None },
        })
    );
    assert!(s.is_finished());
}

#[test]
fn empty_directory_is_compiled() {
    let (mut s, _) = compile(&strings(&["notes.md"]), "out");
    assert_eq!(s.step(ok_probe()), Action::Compiled);
}

#[test]
fn file_command_shape() {
    let inv = file_command(Backend::Solcjs, "src/a.sol", "build");
    assert_eq!(inv.program, "solcjs");
    assert_eq!(
        inv.args,
        strings(&["--bin", "--abi", "--overwrite", "--optimize", "--output-dir", "build", "src/a.sol"])
    );
    assert_eq!(inv.command(), "solcjs --bin --abi --overwrite --optimize --output-dir build src/a.sol");
}

#[test]
fn single_file_compile_outcomes() {
    let out = ProcessOutput {
        status: ExitStatus { code: Some(0), signal: None },
        stdout: Vec::new(),
        stderr: b"Warning: unused".to_vec(),
    };
    assert_eq!(solc_compile("a.sol", "out", ProcessRun::Exited(out.clone())), Ok(out));
    assert_eq!(
        solcjs_compile("a.sol", "out", exited(Some(1), b"")),
        Err(CompilerError::ExitStatusNotSuccess {
            command: "solcjs --bin --abi --overwrite --optimize --output-dir out a.sol".to_string(),
            status: ExitStatus { code: Some(1), signal: None },
        })
    );
    assert_eq!(
        solc_compile("a.sol", "out", ProcessRun::SpawnFailed),
        Err(CompilerError::ProcessSpawnFailed {
            command: "solc --bin --abi --overwrite --optimize --output-dir out a.sol".to_string(),
        })
    );
}
