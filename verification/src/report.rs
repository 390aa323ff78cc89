//! What the operator is told when startup fails or a refresh goes wrong, and
//! the exit code that goes with a failure. A report is made of lines of
//! bytes: text is written in UTF-8, and what a script has written is handed
//! on byte for byte.

use vstd::prelude::*;
use vstd::utf8::encode_utf8;
use crate::config::{
    InitError, InitErrorKind, InitFailure, RefreshNote, RefreshWarning, CONFIG_INIT_PREFIX, UPDATE,
};
use crate::exit::{
    ambiguous_script, ambiguous_script_code, forced_termination, forced_termination_code,
    missing_script, missing_script_code, no_jobs, no_jobs_code, script_failure,
    script_failure_code, unreadable_directory, unreadable_directory_code,
};
use crate::registry::{JobRunnerError, JobRunnerErrorKind, AGENT_INIT};
use crate::script::{names_of, ExecutionOutput};

verus! {

/// The stream a report is written to.
#[derive(Clone, Copy, Debug, PartialEq, Eq, Structural)]
pub enum Stream {
    StandardOutput,
    StandardError,
}

/// A fatal error as the operator sees it.
#[derive(Debug)]
pub struct FailureReport {
    /// The code the process exits with.
    pub exit_code: i32,
    /// Where the lines are written.
    pub stream: Stream,
    /// What is written, one entry per line.
    pub lines: Vec<Vec<u8>>,
}

/// A failure report over the bytes of its lines.
pub struct FailureNotice {
    pub exit_code: i32,
    pub stream: Stream,
    pub lines: Seq<Seq<u8>>,
}

/// The bytes of a list of lines.
pub open spec fn lines_of(lines: Seq<Vec<u8>>) -> Seq<Seq<u8>> {
    lines.map_values(|line: Vec<u8>| line@)
}

impl View for FailureReport {
    type V = FailureNotice;

    open spec fn view(&self) -> FailureNotice {
        FailureNotice {
            exit_code: self.exit_code,
            stream: self.stream,
            lines: lines_of(self.lines@),
        }
    }
}

/// The parts in order, with the separator between each two of them.
pub open spec fn joined(parts: Seq<Seq<char>>, separator: Seq<char>) -> Seq<char>
    decreases parts.len(),
{
    if parts.len() == 0 {
        Seq::empty()
    } else if parts.len() == 1 {
        parts[0]
    } else {
        joined(parts.drop_last(), separator) + separator + parts.last()
    }
}

/// The exit code of a script that ended without success: its own exit code
/// where it has one.
pub open spec fn handed_on(code: Option<i32>) -> i32 {
    match code {
        Some(code) => code,
        None => script_failure_code(),
    }
}

/// The exit code that a startup error leads to.
pub open spec fn init_exit_code(failure: InitFailure) -> i32 {
    match failure {
        InitFailure::NoInitScriptFound => missing_script_code(),
        InitFailure::TooManyInitScriptsFound(_) => ambiguous_script_code(),
        InitFailure::InitScriptExecutionError(output) => handed_on(output.code),
        InitFailure::WorkingDirectoryNotListed(_) => unreadable_directory_code(),
        InitFailure::InitScriptNotStarted(_) => script_failure_code(),
        InitFailure::NoUpdateScriptInsideConfig => missing_script_code(),
        InitFailure::TooManyUpdateScriptsFound(_) => ambiguous_script_code(),
        InitFailure::UpdateScriptExecutionError(output) => handed_on(output.code),
        InitFailure::ConfigDirectoryNotListed(_) => unreadable_directory_code(),
        InitFailure::UpdateScriptNotStarted(_) => script_failure_code(),
    }
}

/// The advice that follows the report of a missing artifact.
pub open spec fn remedy() -> Seq<Seq<u8>> {
    seq![
        encode_utf8(
            "If this is your first time, I recommend you run one of the starter tools, e.g.: setup_git"@,
        ),
        encode_utf8(
            "This will setup a scaffold/skeleton jobs configuration ready to populate with new jobs!"@,
        ),
    ]
}

/// The lines that hand on what a script has written, after the line that
/// reports its status: each is a heading followed by the bytes as they were
/// written.
pub open spec fn captured(stdout: Seq<u8>, stderr: Seq<u8>) -> Seq<Seq<u8>> {
    seq![
        encode_utf8("The execution terminated with output:\n "@) + stdout,
        encode_utf8("The execution terminated with error output:\n "@) + stderr,
    ]
}

/// The line that names every duplicate of a script.
pub open spec fn duplicates(names: Seq<Seq<char>>) -> Seq<char> {
    " * "@ + joined(names, "\n *"@)
}

/// The lines that tell the operator of a startup error.
pub open spec fn init_lines(failure: InitFailure) -> Seq<Seq<u8>> {
    match failure {
        InitFailure::NoInitScriptFound => seq![
            encode_utf8(
                "No job initialization script (starting with '"@ + CONFIG_INIT_PREFIX@
                    + "') was found!"@,
            ),
        ] + remedy(),
        InitFailure::TooManyInitScriptsFound(names) => seq![
            encode_utf8(
                "More than one '"@ + CONFIG_INIT_PREFIX@
                    + "' script was found in the current directory: \n"@ + duplicates(names),
            ),
        ],
        InitFailure::InitScriptExecutionError(output) => seq![
            encode_utf8("The execution terminated with status "@ + output.status),
        ] + captured(output.stdout, output.stderr),
        InitFailure::WorkingDirectoryNotListed(reason) => seq![
            encode_utf8("The current directory could not be listed: "@ + reason),
        ],
        InitFailure::InitScriptNotStarted(reason) => seq![
            encode_utf8(
                "The '"@ + CONFIG_INIT_PREFIX@ + "' script could not be started: "@ + reason,
            ),
        ],
        InitFailure::NoUpdateScriptInsideConfig => seq![
            encode_utf8(
                "No job update script (starting with '"@ + UPDATE@
                    + "') was found in the configuration directory!"@,
            ),
        ] + remedy(),
        InitFailure::TooManyUpdateScriptsFound(names) => seq![
            encode_utf8(
                "More than one '"@ + UPDATE@
                    + "' script was found in the configuration directory: \n"@ + duplicates(
                    names,
                ),
            ),
        ],
        InitFailure::UpdateScriptExecutionError(output) => seq![
            encode_utf8(
                "The execution of the update script terminated with status "@ + output.status,
            ),
        ] + captured(output.stdout, output.stderr),
        InitFailure::ConfigDirectoryNotListed(reason) => seq![
            encode_utf8("The configuration directory could not be listed: "@ + reason),
        ],
        InitFailure::UpdateScriptNotStarted(reason) => seq![
            encode_utf8("The '"@ + UPDATE@ + "' script could not be started: "@ + reason),
        ],
    }
}

/// The stream for the report of a startup error: the report of a script
/// that ran and failed goes to standard output, everything else to standard
/// error.
pub open spec fn init_stream(failure: InitFailure) -> Stream {
    match failure {
        InitFailure::InitScriptExecutionError(_) => Stream::StandardOutput,
        InitFailure::UpdateScriptExecutionError(_) => Stream::StandardOutput,
        _ => Stream::StandardError,
    }
}

/// The lines that tell the operator that the configuration holds no job.
pub open spec fn no_jobs_lines() -> Seq<Seq<u8>> {
    seq![
        encode_utf8(
            "No job (a directory with a script starting with '"@ + AGENT_INIT@
                + "') was found in the configuration directory!"@,
        ),
    ] + remedy()
}

/// The lines that warn of a periodic refresh that went wrong. The first
/// line says what happened; what a failed script has written follows byte
/// for byte.
pub open spec fn refresh_lines(note: RefreshNote) -> Seq<Seq<u8>> {
    match note {
        RefreshNote::UpdateScriptDisappeared => seq![
            encode_utf8("Update script has disappeared!"@),
        ],
        RefreshNote::TooManyUpdateScripts(names) => seq![
            encode_utf8("Unexpectedly, more than one update script found: \n"@ + duplicates(names)),
        ],
        RefreshNote::UpdateScriptFailed(output) => seq![
            encode_utf8(
                "The execution of the update script terminated with status "@ + output.status,
            ),
        ] + captured(output.stdout, output.stderr),
        RefreshNote::ConfigDirectoryNotListed(reason) => seq![
            encode_utf8("The configuration directory could not be listed: "@ + reason),
        ],
        RefreshNote::UpdateScriptNotStarted(reason) => seq![
            encode_utf8("The '"@ + UPDATE@ + "' script could not be started: "@ + reason),
        ],
    }
}

/// Puts the parts together, with the separator between each two of them.
pub fn join(parts: &Vec<String>, separator: &str) -> (text: String)
    ensures
        text@ == joined(names_of(parts@), separator@),
{
    let mut text = String::new();
    let mut i: usize = 0;
    while i < parts.len()
        invariant
            i <= parts@.len(),
            text@ == joined(names_of(parts@.take(i as int)), separator@),
        decreases parts@.len() - i,
    {
        assert(names_of(parts@.take(i + 1)).drop_last() == names_of(parts@.take(i as int)));
        if i > 0 {
            text.append(separator);
        }
        text.append(parts[i].as_str());
        i = i + 1;
    }
    assert(parts@.take(i as int) == parts@);
    text
}

/// A text of three parts.
fn phrase(before: &str, middle: &str, after: &str) -> (text: String)
    ensures
        text@ == before@ + middle@ + after@,
{
    let mut text = String::from_str(before);
    text.append(middle);
    text.append(after);
    text
}

/// The one line of a report that is a text.
fn single(line: &str) -> (lines: Vec<Vec<u8>>)
    ensures
        lines_of(lines@) == seq![encode_utf8(line@)],
{
    let mut lines: Vec<Vec<u8>> = Vec::new();
    let bytes = line.as_bytes_vec();
    lines.push(bytes);
    lines
}

fn remedy_lines(lines: &mut Vec<Vec<u8>>)
    ensures
        lines_of(final(lines)@) == lines_of(old(lines)@) + remedy(),
{
    let first =
        "If this is your first time, I recommend you run one of the starter tools, e.g.: setup_git".as_bytes_vec();
    let second =
        "This will setup a scaffold/skeleton jobs configuration ready to populate with new jobs!".as_bytes_vec();
    lines.push(first);
    lines.push(second);
}

/// A heading followed by bytes as they are.
fn headed(heading: &str, bytes: &Vec<u8>) -> (line: Vec<u8>)
    ensures
        line@ == encode_utf8(heading@) + bytes@,
{
    let mut line = heading.as_bytes_vec();
    let ghost start = line@;
    let mut i: usize = 0;
    while i < bytes.len()
        invariant
            i <= bytes@.len(),
            line@ == start + bytes@.take(i as int),
        decreases bytes@.len() - i,
    {
        line.push(bytes[i]);
        i = i + 1;
    }
    line
}

fn captured_lines(lines: &mut Vec<Vec<u8>>, output: &ExecutionOutput)
    ensures
        lines_of(final(lines)@) == lines_of(old(lines)@) + captured(output.stdout@, output.stderr@),
{
    let out = headed("The execution terminated with output:\n ", &output.stdout);
    let err = headed("The execution terminated with error output:\n ", &output.stderr);
    lines.push(out);
    lines.push(err);
}

/// The line that names every duplicate of a script, after its heading.
fn duplicate_line(heading: String, duplicate_scripts: &Vec<String>) -> (lines: Vec<Vec<u8>>)
    ensures
        lines_of(lines@) == seq![encode_utf8(heading@ + duplicates(names_of(duplicate_scripts@)))],
{
    let duplicate_string_list = join(duplicate_scripts, "\n *");
    let mut line = heading;
    line.append(" * ");
    line.append(duplicate_string_list.as_str());
    assert(line@ == heading@ + duplicates(names_of(duplicate_scripts@)));
    single(line.as_str())
}

fn exit_code_of(output: &ExecutionOutput) -> (code: i32)
    ensures
        code == handed_on(output.code),
{
    match output.code {
        Some(code) => code,
        None => script_failure(),
    }
}

impl InitError {
    /// The code the process exits with on this error.
    pub fn exit_code(&self) -> (code: i32)
        ensures
            code == init_exit_code(self@),
    {
        match &self.kind {
            InitErrorKind::NoInitScriptFound => missing_script(),
            InitErrorKind::TooManyInitScriptsFound(_) => ambiguous_script(),
            InitErrorKind::InitScriptExecutionError(bad_execution) => exit_code_of(bad_execution),
            InitErrorKind::WorkingDirectoryNotListed(_) => unreadable_directory(),
            InitErrorKind::InitScriptNotStarted(_) => script_failure(),
            InitErrorKind::NoUpdateScriptInsideConfig => missing_script(),
            InitErrorKind::TooManyUpdateScriptsFound(_) => ambiguous_script(),
            InitErrorKind::UpdateScriptExecutionError(bad_execution) => exit_code_of(
                bad_execution,
            ),
            InitErrorKind::ConfigDirectoryNotListed(_) => unreadable_directory(),
            InitErrorKind::UpdateScriptNotStarted(_) => script_failure(),
        }
    }

    /// What the operator is told of this error, and the exit code that goes
    /// with it.
    pub fn report(&self) -> (report: FailureReport)
        ensures
            report@ == (FailureNotice {
                exit_code: init_exit_code(self@),
                stream: init_stream(self@),
                lines: init_lines(self@),
            }),
    {
        let exit_code = self.exit_code();
        match &self.kind {
            InitErrorKind::NoInitScriptFound => {
                let line = phrase(
                    "No job initialization script (starting with '",
                    CONFIG_INIT_PREFIX,
                    "') was found!",
                );
                let mut lines = single(line.as_str());
                remedy_lines(&mut lines);
                FailureReport { exit_code, stream: Stream::StandardError, lines }
            },
            InitErrorKind::TooManyInitScriptsFound(duplicate_scripts) => {
                let heading = phrase(
                    "More than one '",
                    CONFIG_INIT_PREFIX,
                    "' script was found in the current directory: \n",
                );
                let lines = duplicate_line(heading, duplicate_scripts);
                FailureReport { exit_code, stream: Stream::StandardError, lines }
            },
            InitErrorKind::InitScriptExecutionError(bad_execution) => {
                let mut line = String::from_str("The execution terminated with status ");
                line.append(bad_execution.status.as_str());
                let mut lines = single(line.as_str());
                captured_lines(&mut lines, bad_execution);
                FailureReport { exit_code, stream: Stream::StandardOutput, lines }
            },
            InitErrorKind::WorkingDirectoryNotListed(reason) => {
                let mut line = String::from_str("The current directory could not be listed: ");
                line.append(reason.as_str());
                FailureReport {
                    exit_code,
                    stream: Stream::StandardError,
                    lines: single(line.as_str()),
                }
            },
            InitErrorKind::InitScriptNotStarted(reason) => {
                let mut line = phrase("The '", CONFIG_INIT_PREFIX, "' script could not be started: ");
                line.append(reason.as_str());
                FailureReport {
                    exit_code,
                    stream: Stream::StandardError,
                    lines: single(line.as_str()),
                }
            },
            InitErrorKind::NoUpdateScriptInsideConfig => {
                let line = phrase(
                    "No job update script (starting with '",
                    UPDATE,
                    "') was found in the configuration directory!",
                );
                let mut lines = single(line.as_str());
                remedy_lines(&mut lines);
                FailureReport { exit_code, stream: Stream::StandardError, lines }
            },
            InitErrorKind::TooManyUpdateScriptsFound(duplicate_scripts) => {
                let heading = phrase(
                    "More than one '",
                    UPDATE,
                    "' script was found in the configuration directory: \n",
                );
                let lines = duplicate_line(heading, duplicate_scripts);
                FailureReport { exit_code, stream: Stream::StandardError, lines }
            },
            InitErrorKind::UpdateScriptExecutionError(bad_execution) => {
                let mut line = String::from_str(
                    "The execution of the update script terminated with status ",
                );
                line.append(bad_execution.status.as_str());
                let mut lines = single(line.as_str());
                captured_lines(&mut lines, bad_execution);
                FailureReport { exit_code, stream: Stream::StandardOutput, lines }
            },
            InitErrorKind::ConfigDirectoryNotListed(reason) => {
                let mut line = String::from_str(
                    "The configuration directory could not be listed: ",
                );
                line.append(reason.as_str());
                FailureReport {
                    exit_code,
                    stream: Stream::StandardError,
                    lines: single(line.as_str()),
                }
            },
            InitErrorKind::UpdateScriptNotStarted(reason) => {
                let mut line = phrase("The '", UPDATE, "' script could not be started: ");
                line.append(reason.as_str());
                FailureReport {
                    exit_code,
                    stream: Stream::StandardError,
                    lines: single(line.as_str()),
                }
            },
        }
    }
}

impl RefreshWarning {
    /// The lines that warn of this refresh.
    pub fn report(&self) -> (lines: Vec<Vec<u8>>)
        ensures
            lines_of(lines@) == refresh_lines(self@),
    {
        match self {
            RefreshWarning::UpdateScriptDisappeared => single("Update script has disappeared!"),
            RefreshWarning::TooManyUpdateScripts(duplicate_scripts) => duplicate_line(
                String::from_str("Unexpectedly, more than one update script found: \n"),
                duplicate_scripts,
            ),
            RefreshWarning::UpdateScriptFailed(bad_execution) => {
                let mut line = String::from_str(
                    "The execution of the update script terminated with status ",
                );
                line.append(bad_execution.status.as_str());
                let mut lines = single(line.as_str());
                captured_lines(&mut lines, bad_execution);
                lines
            },
            RefreshWarning::ConfigDirectoryNotListed(reason) => {
                let mut line = String::from_str(
                    "The configuration directory could not be listed: ",
                );
                line.append(reason.as_str());
                single(line.as_str())
            },
            RefreshWarning::UpdateScriptNotStarted(reason) => {
                let mut line = phrase("The '", UPDATE, "' script could not be started: ");
                line.append(reason.as_str());
                single(line.as_str())
            },
        }
    }
}

impl JobRunnerError {
    /// The code the process exits with on this error.
    pub fn exit_code(&self) -> (code: i32)
        ensures
            code == no_jobs_code(),
    {
        match self.kind {
            JobRunnerErrorKind::NoJobsFound => no_jobs(),
        }
    }

    /// What the operator is told of this error, and the exit code that goes
    /// with it.
    pub fn report(&self) -> (report: FailureReport)
        ensures
            report@ == (FailureNotice {
                exit_code: no_jobs_code(),
                stream: Stream::StandardError,
                lines: no_jobs_lines(),
            }),
    {
        let line = phrase(
            "No job (a directory with a script starting with '",
            AGENT_INIT,
            "') was found in the configuration directory!",
        );
        let mut lines = single(line.as_str());
        remedy_lines(&mut lines);
        FailureReport { exit_code: self.exit_code(), stream: Stream::StandardError, lines }
    }
}

/// The code the process exits with when the operator has forced it to
/// terminate.
pub fn forced_termination_exit_code() -> (code: i32)
    ensures
        code == forced_termination_code(),
{
    forced_termination()
}

/// The operator can tell the causes of an exit apart: a missing script, an
/// ambiguous script, a script that failed without a code of its own, a
/// directory that could not be listed, a configuration without jobs and a
/// forced termination each have an exit code of their own, and none of them
/// is the code of success.
pub proof fn lemma_exit_codes_are_distinct()
    ensures
        missing_script_code() != ambiguous_script_code(),
        missing_script_code() != script_failure_code(),
        missing_script_code() != no_jobs_code(),
        missing_script_code() != unreadable_directory_code(),
        missing_script_code() != forced_termination_code(),
        ambiguous_script_code() != script_failure_code(),
        ambiguous_script_code() != no_jobs_code(),
        ambiguous_script_code() != unreadable_directory_code(),
        ambiguous_script_code() != forced_termination_code(),
        script_failure_code() != no_jobs_code(),
        script_failure_code() != unreadable_directory_code(),
        script_failure_code() != forced_termination_code(),
        no_jobs_code() != unreadable_directory_code(),
        no_jobs_code() != forced_termination_code(),
        unreadable_directory_code() != forced_termination_code(),
        missing_script_code() != 0,
        ambiguous_script_code() != 0,
        script_failure_code() != 0,
        no_jobs_code() != 0,
        unreadable_directory_code() != 0,
        forced_termination_code() != 0,
{
}

} // verus!
