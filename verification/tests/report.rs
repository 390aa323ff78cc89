use formica::config::{InitError, InitErrorKind, RefreshWarning};
use formica::registry::{JobRunnerError, JobRunnerErrorKind};
use formica::report::{forced_termination_exit_code, join, Stream};
use formica::script::ExecutionOutput;

const FIRST_TIME: &str =
    "If this is your first time, I recommend you run one of the starter tools, e.g.: setup_git";
const SCAFFOLD: &str =
    "This will setup a scaffold/skeleton jobs configuration ready to populate with new jobs!";

fn error(kind: InitErrorKind) -> InitError {
    InitError { kind }
}

fn ended(code: Option<i32>) -> ExecutionOutput {
    ExecutionOutput {
        code,
        status: match code {
            Some(code) => format!("exit status: {}", code),
            None => "signal: 15 (SIGTERM)".to_string(),
        },
        stdout: b"fetching\ndone".to_vec(),
        stderr: b"warning: slow".to_vec(),
    }
}

fn names(list: &[&str]) -> Vec<String> {
    list.iter().map(|name| name.to_string()).collect()
}

fn text(lines: &[&str]) -> Vec<Vec<u8>> {
    lines.iter().map(|line| line.as_bytes().to_vec()).collect()
}

#[test]
fn parts_are_joined_with_the_separator_between_them() {
    assert_eq!(join(&names(&["a", "b", "c"]), ", "), "a, b, c");
    assert_eq!(join(&names(&["only"]), ", "), "only");
    assert_eq!(join(&names(&[]), ", "), "");
    assert_eq!(join(&names(&["", ""]), "-"), "-");
    assert_eq!(join(&names(&["x", "y"]), ""), "xy");
}

#[test]
fn missing_init_script_exits_with_data_error() {
    let error = error(InitErrorKind::NoInitScriptFound);
    assert_eq!(error.exit_code(), 65);
    assert_eq!(error.exit_code(), exitcode::DATAERR);
    let report = error.report();
    assert_eq!(report.exit_code, 65);
    assert_eq!(report.stream, Stream::StandardError);
    assert_eq!(
        report.lines,
        text(&[
            "No job initialization script (starting with 'config_init') was found!",
            FIRST_TIME,
            SCAFFOLD
        ])
    );
}

#[test]
fn ambiguous_init_script_exits_with_configuration_error() {
    let error =
        error(InitErrorKind::TooManyInitScriptsFound(names(&["config_init.sh", "config_init.bat"])));
    assert_eq!(error.exit_code(), 78);
    assert_eq!(error.exit_code(), exitcode::CONFIG);
    let report = error.report();
    assert_eq!(report.exit_code, 78);
    assert_eq!(report.stream, Stream::StandardError);
    assert_eq!(
        report.lines,
        text(&["More than one 'config_init' script was found in the current directory: \n * config_init.sh\n *config_init.bat"])
    );
}

#[test]
fn failed_init_script_hands_on_its_exit_code() {
    let error = error(InitErrorKind::InitScriptExecutionError(ended(Some(3))));
    assert_eq!(error.exit_code(), 3);
    let report = error.report();
    assert_eq!(report.exit_code, 3);
    assert_eq!(report.stream, Stream::StandardOutput);
    assert_eq!(
        report.lines,
        text(&[
            "The execution terminated with status exit status: 3",
            "The execution terminated with output:\n fetching\ndone",
            "The execution terminated with error output:\n warning: slow"
        ])
    );
}

#[test]
fn output_of_a_failed_script_is_handed_on_byte_for_byte() {
    let mut output = ended(Some(1));
    output.stdout = vec![0xff, 0x00, b'a', 0xc3];
    output.stderr = Vec::new();
    let report = error(InitErrorKind::InitScriptExecutionError(output)).report();
    let mut first = b"The execution terminated with output:\n ".to_vec();
    first.extend_from_slice(&[0xff, 0x00, b'a', 0xc3]);
    assert_eq!(report.lines[1], first);
    assert_eq!(report.lines[2], b"The execution terminated with error output:\n ".to_vec());
    assert_eq!(report.lines.len(), 3);
}

#[test]
fn script_without_exit_code_exits_with_software_error() {
    let init = error(InitErrorKind::InitScriptExecutionError(ended(None)));
    assert_eq!(init.exit_code(), 70);
    assert_eq!(init.exit_code(), exitcode::SOFTWARE);
    assert_eq!(init.report().exit_code, 70);
    let update = error(InitErrorKind::UpdateScriptExecutionError(ended(None)));
    assert_eq!(update.exit_code(), 70);
    assert_eq!(
        update.report().lines[0],
        b"The execution of the update script terminated with status signal: 15 (SIGTERM)".to_vec()
    );
}

#[test]
fn script_that_could_not_be_started_exits_with_software_error() {
    let init = error(InitErrorKind::InitScriptNotStarted("config_init.sh: denied".to_string()));
    assert_eq!(init.exit_code(), 70);
    let report = init.report();
    assert_eq!(report.exit_code, 70);
    assert_eq!(report.stream, Stream::StandardError);
    assert_eq!(
        report.lines,
        text(&["The 'config_init' script could not be started: config_init.sh: denied"])
    );
    let update = error(InitErrorKind::UpdateScriptNotStarted("update.sh: denied".to_string()));
    assert_eq!(update.exit_code(), 70);
    let report = update.report();
    assert_eq!(report.stream, Stream::StandardError);
    assert_eq!(report.lines, text(&["The 'update' script could not be started: update.sh: denied"]));
}

#[test]
fn directory_that_could_not_be_listed_exits_with_input_output_error() {
    let init = error(InitErrorKind::WorkingDirectoryNotListed("/srv/ci: denied".to_string()));
    assert_eq!(init.exit_code(), 74);
    assert_eq!(init.exit_code(), exitcode::IOERR);
    let report = init.report();
    assert_eq!(report.exit_code, 74);
    assert_eq!(report.stream, Stream::StandardError);
    assert_eq!(report.lines, text(&["The current directory could not be listed: /srv/ci: denied"]));
    let update = error(InitErrorKind::ConfigDirectoryNotListed("formica_conf: gone".to_string()));
    assert_eq!(update.exit_code(), 74);
    let report = update.report();
    assert_eq!(report.exit_code, 74);
    assert_eq!(
        report.lines,
        text(&["The configuration directory could not be listed: formica_conf: gone"])
    );
}

#[test]
fn missing_update_script_exits_with_data_error() {
    let error = error(InitErrorKind::NoUpdateScriptInsideConfig);
    assert_eq!(error.exit_code(), 65);
    let report = error.report();
    assert_eq!(report.exit_code, 65);
    assert_eq!(report.stream, Stream::StandardError);
    assert_eq!(
        report.lines,
        text(&[
            "No job update script (starting with 'update') was found in the configuration directory!",
            FIRST_TIME,
            SCAFFOLD
        ])
    );
}

#[test]
fn ambiguous_update_script_names_every_duplicate() {
    let error =
        error(InitErrorKind::TooManyUpdateScriptsFound(names(&["update_a", "update_b", "update_c"])));
    assert_eq!(error.exit_code(), 78);
    let report = error.report();
    assert_eq!(report.exit_code, 78);
    assert_eq!(report.stream, Stream::StandardError);
    assert_eq!(
        report.lines,
        text(&["More than one 'update' script was found in the configuration directory: \n * update_a\n *update_b\n *update_c"])
    );
}

#[test]
fn failed_update_script_hands_on_its_exit_code() {
    let error = error(InitErrorKind::UpdateScriptExecutionError(ended(Some(42))));
    assert_eq!(error.exit_code(), 42);
    let report = error.report();
    assert_eq!(report.exit_code, 42);
    assert_eq!(report.stream, Stream::StandardOutput);
    assert_eq!(
        report.lines,
        text(&[
            "The execution of the update script terminated with status exit status: 42",
            "The execution terminated with output:\n fetching\ndone",
            "The execution terminated with error output:\n warning: slow"
        ])
    );
}

#[test]
fn configuration_without_jobs_exits_with_no_input() {
    let error = JobRunnerError { kind: JobRunnerErrorKind::NoJobsFound };
    assert_eq!(error.exit_code(), 66);
    assert_eq!(error.exit_code(), exitcode::NOINPUT);
    let report = error.report();
    assert_eq!(report.exit_code, 66);
    assert_eq!(report.stream, Stream::StandardError);
    assert_eq!(
        report.lines,
        text(&[
            "No job (a directory with a script starting with 'agent_init') was found in the configuration directory!",
            FIRST_TIME,
            SCAFFOLD
        ])
    );
}

#[test]
fn forced_termination_exits_with_temporary_failure() {
    assert_eq!(forced_termination_exit_code(), 75);
    assert_eq!(forced_termination_exit_code(), exitcode::TEMPFAIL);
}

#[test]
fn causes_of_exit_have_codes_of_their_own() {
    let codes = [
        error(InitErrorKind::NoInitScriptFound).exit_code(),
        error(InitErrorKind::TooManyInitScriptsFound(names(&["a", "b"]))).exit_code(),
        error(InitErrorKind::InitScriptExecutionError(ended(None))).exit_code(),
        error(InitErrorKind::WorkingDirectoryNotListed(String::new())).exit_code(),
        JobRunnerError { kind: JobRunnerErrorKind::NoJobsFound }.exit_code(),
        forced_termination_exit_code(),
    ];
    for (i, one) in codes.iter().enumerate() {
        assert_ne!(*one, 0);
        for other in codes.iter().skip(i + 1) {
            assert_ne!(one, other);
        }
    }
}

#[test]
fn refresh_warnings_say_what_happened() {
    assert_eq!(
        RefreshWarning::UpdateScriptDisappeared.report(),
        text(&["Update script has disappeared!"])
    );
    assert_eq!(
        RefreshWarning::TooManyUpdateScripts(names(&["update.sh", "update.old"])).report(),
        text(&["Unexpectedly, more than one update script found: \n * update.sh\n *update.old"])
    );
    assert_eq!(
        RefreshWarning::ConfigDirectoryNotListed("formica_conf: gone".to_string()).report(),
        text(&["The configuration directory could not be listed: formica_conf: gone"])
    );
    assert_eq!(
        RefreshWarning::UpdateScriptNotStarted("update.sh: denied".to_string()).report(),
        text(&["The 'update' script could not be started: update.sh: denied"])
    );
}

#[test]
fn refresh_warning_hands_on_the_output_of_the_failed_script() {
    let mut output = ended(Some(2));
    output.stderr = vec![b'e', 0xfe];
    let lines = RefreshWarning::UpdateScriptFailed(output).report();
    let mut last = b"The execution terminated with error output:\n ".to_vec();
    last.extend_from_slice(&[b'e', 0xfe]);
    assert_eq!(
        lines,
        vec![
            b"The execution of the update script terminated with status exit status: 2".to_vec(),
            b"The execution terminated with output:\n fetching\ndone".to_vec(),
            last
        ]
    );
}
