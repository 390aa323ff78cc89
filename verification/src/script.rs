//! Script resolution: finding the one script in a directory listing whose
//! name starts with a given prefix.

use vstd::prelude::*;
use crate::text::has_prefix;

verus! {

/// One immediate entry of a directory, as far as resolution reads it.
#[derive(Clone, Debug)]
pub struct FileEntry {
    /// The entry's name, without any directory part.
    pub name: String,
    /// Whether the entry is a regular file.
    pub is_file: bool,
}

/// Why no script could be resolved.
#[derive(Debug)]
pub struct ScriptError {
    pub kind: ScriptErrorKind,
}

/// The ways in which resolving a script, or starting the script that was
/// resolved, fails.
#[derive(Debug)]
pub enum ScriptErrorKind {
    /// No regular file of the listing starts with the prefix.
    NoScriptFound,
    /// More than one does; all of them are named, in listing order.
    TooManyScriptsFound(Vec<String>),
    /// The directory could not be listed; the reason is kept.
    DirectoryNotListed(String),
    /// The script was resolved and could not be started; the reason is kept.
    ScriptNotStarted(String),
}

/// What a script error says, over the characters of what it carries.
pub enum ScriptFailure {
    NoScriptFound,
    TooManyScriptsFound(Seq<Seq<char>>),
    DirectoryNotListed(Seq<char>),
    ScriptNotStarted(Seq<char>),
}

/// The character sequences of a list of names.
pub open spec fn names_of(names: Seq<String>) -> Seq<Seq<char>> {
    names.map_values(|name: String| name@)
}

impl View for ScriptErrorKind {
    type V = ScriptFailure;

    open spec fn view(&self) -> ScriptFailure {
        match self {
            ScriptErrorKind::NoScriptFound => ScriptFailure::NoScriptFound,
            ScriptErrorKind::TooManyScriptsFound(names) => ScriptFailure::TooManyScriptsFound(
                names_of(names@),
            ),
            ScriptErrorKind::DirectoryNotListed(reason) => ScriptFailure::DirectoryNotListed(
                reason@,
            ),
            ScriptErrorKind::ScriptNotStarted(reason) => ScriptFailure::ScriptNotStarted(reason@),
        }
    }
}

impl View for ScriptError {
    type V = ScriptFailure;

    open spec fn view(&self) -> ScriptFailure {
        self.kind@
    }
}

/// The name of `entry` if it is a candidate for `prefix`: a regular file
/// whose name starts with it.
pub open spec fn candidate_name(entry: FileEntry, prefix: Seq<char>) -> Option<Seq<char>> {
    if entry.is_file && prefix.is_prefix_of(entry.name@) {
        Some(entry.name@)
    } else {
        None
    }
}

/// The names of all candidates for `prefix` in a listing, in listing order.
pub open spec fn candidates(entries: Seq<FileEntry>, prefix: Seq<char>) -> Seq<Seq<char>> {
    entries.filter_map(|entry: FileEntry| candidate_name(entry, prefix))
}

/// What resolving `prefix` in a listing yields: the single candidate, or the
/// reason why there is none to pick.
pub open spec fn resolution(entries: Seq<FileEntry>, prefix: Seq<char>) -> Result<
    Seq<char>,
    ScriptFailure,
> {
    let found = candidates(entries, prefix);
    if found.len() == 0 {
        Err(ScriptFailure::NoScriptFound)
    } else if found.len() == 1 {
        Ok(found[0])
    } else {
        Err(ScriptFailure::TooManyScriptsFound(found))
    }
}

/// What came of listing a directory, over characters: its immediate
/// entries, or the reason why it could not be listed.
pub open spec fn listed(listing: Result<Vec<FileEntry>, String>) -> Result<
    Seq<FileEntry>,
    Seq<char>,
> {
    match listing {
        Ok(entries) => Ok(entries@),
        Err(reason) => Err(reason@),
    }
}

/// What resolving `prefix` yields in a directory of which the listing may
/// have failed: the resolution in the entries where there are entries, and
/// otherwise, whatever the prefix, the error that the directory could not be
/// listed.
pub open spec fn resolution_in(listing: Result<Seq<FileEntry>, Seq<char>>, prefix: Seq<char>) -> Result<
    Seq<char>,
    ScriptFailure,
> {
    match listing {
        Ok(entries) => resolution(entries, prefix),
        Err(reason) => Err(ScriptFailure::DirectoryNotListed(reason)),
    }
}

/// The outcome of `find_script` over the characters of the names it carries.
pub open spec fn resolved(result: Result<String, ScriptError>) -> Result<Seq<char>, ScriptFailure> {
    match result {
        Ok(name) => Ok(name@),
        Err(error) => Err(error@),
    }
}

/// Resolves the script whose name starts with `script_name` in a directory.
/// `listing` is what came of listing the directory: its immediate entries,
/// or the reason why it could not be listed. A directory that could not be
/// listed never yields a script.
pub fn find_script(listing: &Result<Vec<FileEntry>, String>, script_name: &str) -> (result: Result<
    String,
    ScriptError,
>)
    ensures
        resolved(result) == resolution_in(listed(*listing), script_name@),
{
    match listing {
        Ok(entries) => find_among(entries, script_name),
        Err(reason) => Err(
            ScriptError { kind: ScriptErrorKind::DirectoryNotListed(reason.clone()) },
        ),
    }
}

/// Resolves the script whose name starts with `script_name` among the
/// immediate entries of a directory.
fn find_among(entries: &Vec<FileEntry>, script_name: &str) -> (result: Result<String, ScriptError>)
    ensures
        resolved(result) == resolution(entries@, script_name@),
{
    let ghost pick = |entry: FileEntry| candidate_name(entry, script_name@);
    let mut scripts: Vec<String> = Vec::new();
    let mut i: usize = 0;
    while i < entries.len()
        invariant
            i <= entries@.len(),
            pick == |entry: FileEntry| candidate_name(entry, script_name@),
            names_of(scripts@) == entries@.take(i as int).filter_map(pick),
        decreases entries@.len() - i,
    {
        let entry = &entries[i];
        proof {
            entries@.lemma_filter_map_take_succ(pick, i as int);
        }
        if entry.is_file && has_prefix(entry.name.as_str(), script_name) {
            let name = entry.name.clone();
            scripts.push(name);
        }
        i = i + 1;
    }
    assert(entries@.take(i as int) == entries@);
    if scripts.len() == 0 {
        return Err(ScriptError { kind: ScriptErrorKind::NoScriptFound });
    }
    if scripts.len() > 1 {
        return Err(ScriptError { kind: ScriptErrorKind::TooManyScriptsFound(scripts) });
    }
    let name = scripts.remove(0);
    Ok(name)
}

/// The candidates of a listing without its entry at `at`: the same names,
/// but for the one that the removed entry gave, if it gave one.
proof fn lemma_candidates_without(entries: Seq<FileEntry>, prefix: Seq<char>, at: int)
    requires
        0 <= at < entries.len(),
    ensures
        candidates(entries, prefix).to_multiset() == match candidate_name(entries[at], prefix) {
            Some(name) => candidates(entries.remove(at), prefix).to_multiset().insert(name),
            None => candidates(entries.remove(at), prefix).to_multiset(),
        },
    decreases entries.len(),
{
    let shorter = entries.drop_last();
    if at == entries.len() - 1 {
        match candidate_name(entries[at], prefix) {
            Some(name) => {
                assert(candidates(entries, prefix) == candidates(shorter, prefix).push(name));
                vstd::seq_lib::to_multiset_build(candidates(shorter, prefix), name);
            },
            None => {},
        }
    } else {
        let rest = entries.remove(at);
        assert(rest.drop_last() == shorter.remove(at));
        lemma_candidates_without(shorter, prefix, at);
        match candidate_name(entries.last(), prefix) {
            Some(last) => {
                assert(candidates(entries, prefix) == candidates(shorter, prefix).push(last));
                assert(candidates(rest, prefix) == candidates(shorter.remove(at), prefix).push(
                    last,
                ));
                vstd::seq_lib::to_multiset_build(candidates(shorter, prefix), last);
                vstd::seq_lib::to_multiset_build(candidates(shorter.remove(at), prefix), last);
            },
            None => {},
        }
    }
}

/// Two listings that hold the same entries, in whatever order, have the
/// same candidates, in whatever order.
pub proof fn lemma_candidates_ignore_order(
    first: Seq<FileEntry>,
    second: Seq<FileEntry>,
    prefix: Seq<char>,
)
    requires
        first.to_multiset() == second.to_multiset(),
    ensures
        candidates(first, prefix).to_multiset() == candidates(second, prefix).to_multiset(),
    decreases first.len(),
{
    vstd::seq_lib::to_multiset_len(first);
    vstd::seq_lib::to_multiset_len(second);
    if first.len() > 0 {
        let at = first.len() - 1;
        let entry = first[at];
        vstd::seq_lib::to_multiset_contains(first, entry);
        vstd::seq_lib::to_multiset_contains(second, entry);
        let other = choose|other: int| 0 <= other < second.len() && second[other] == entry;
        vstd::seq_lib::to_multiset_remove(first, at);
        vstd::seq_lib::to_multiset_remove(second, other);
        lemma_candidates_ignore_order(first.remove(at), second.remove(other), prefix);
        lemma_candidates_without(first, prefix, at);
        lemma_candidates_without(second, prefix, other);
    }
}

/// Resolution does not depend on the order of the listing. Of two listings
/// that hold the same entries, either both have no script, or both have the
/// same single script, or both are ambiguous and name the same scripts, each
/// as often as the other.
pub proof fn lemma_resolution_ignores_order(
    first: Seq<FileEntry>,
    second: Seq<FileEntry>,
    prefix: Seq<char>,
)
    requires
        first.to_multiset() == second.to_multiset(),
    ensures
        match resolution(first, prefix) {
            Ok(name) => resolution(second, prefix) == Ok::<Seq<char>, ScriptFailure>(name),
            Err(ScriptFailure::TooManyScriptsFound(names)) => resolution(second, prefix)
                matches Err(ScriptFailure::TooManyScriptsFound(others)) && names.to_multiset()
                == others.to_multiset(),
            Err(failure) => failure == ScriptFailure::NoScriptFound && resolution(second, prefix)
                == Err::<Seq<char>, ScriptFailure>(ScriptFailure::NoScriptFound),
        },
{
    let one = candidates(first, prefix);
    let other = candidates(second, prefix);
    lemma_candidates_ignore_order(first, second, prefix);
    vstd::seq_lib::to_multiset_len(one);
    vstd::seq_lib::to_multiset_len(other);
    if one.len() == 1 {
        vstd::seq_lib::to_multiset_contains(one, one[0]);
        vstd::seq_lib::to_multiset_contains(other, one[0]);
    }
}

/// What a script left behind when it ended.
#[derive(Clone, Debug)]
pub struct ExecutionOutput {
    /// The exit code; none where the process was ended by a signal.
    pub code: Option<i32>,
    /// How the platform describes the way the process ended.
    pub status: String,
    /// Every byte the script wrote to its standard output.
    pub stdout: Vec<u8>,
    /// Every byte the script wrote to its standard error.
    pub stderr: Vec<u8>,
}

/// An execution output over the characters of its status and the bytes of
/// what was written.
pub struct ExecutionRecord {
    pub code: Option<i32>,
    pub status: Seq<char>,
    pub stdout: Seq<u8>,
    pub stderr: Seq<u8>,
}

impl View for ExecutionOutput {
    type V = ExecutionRecord;

    open spec fn view(&self) -> ExecutionRecord {
        ExecutionRecord {
            code: self.code,
            status: self.status@,
            stdout: self.stdout@,
            stderr: self.stderr@,
        }
    }
}

impl ExecutionOutput {
    /// A script has succeeded exactly when it exited with code 0.
    pub open spec fn succeeded(&self) -> bool {
        self.code == Some(0i32)
    }

    /// Whether the script has succeeded.
    pub fn success(&self) -> (ok: bool)
        ensures
            ok == self.succeeded(),
    {
        match self.code {
            Some(code) => code == 0,
            None => false,
        }
    }
}

/// The family of operating system a script is run on; it decides the shell.
#[derive(Clone, Copy, Debug, PartialEq, Eq, Structural)]
pub enum Platform {
    Windows,
    Unix,
}

/// How the three standard streams of a started script are treated.
#[derive(Clone, Copy, Debug, PartialEq, Eq, Structural)]
pub enum Streams {
    /// The script runs to its end; its output and exit status are collected.
    Captured,
    /// The script keeps running; standard input, output and error are pipes
    /// held by whoever started it.
    Piped,
}

/// A process to start: the shell, its arguments and its working directory.
#[derive(Clone, Debug)]
pub struct Invocation {
    pub program: String,
    pub arguments: Vec<String>,
    pub working_directory: String,
    pub streams: Streams,
}

/// The shell that runs scripts on `platform`.
pub open spec fn shell_of(platform: Platform) -> Seq<char> {
    match platform {
        Platform::Windows => "cmd"@,
        Platform::Unix => "sh"@,
    }
}

/// The flag that makes the shell of `platform` run the command that follows.
pub open spec fn command_flag_of(platform: Platform) -> Seq<char> {
    match platform {
        Platform::Windows => "/C"@,
        Platform::Unix => "-c"@,
    }
}

impl Invocation {
    /// The invocation runs `absolute_script` through the shell of `platform`
    /// with `script_path` as working directory.
    pub open spec fn runs(
        &self,
        script_path: Seq<char>,
        absolute_script: Seq<char>,
        platform: Platform,
    ) -> bool {
        &&& self.program@ == shell_of(platform)
        &&& names_of(self.arguments@) == seq![command_flag_of(platform), absolute_script]
        &&& self.working_directory@ == script_path
    }
}

/// Prepares the process that runs a script. `script_path` is the directory
/// that holds the script and becomes the working directory;
/// `absolute_script` is the script's absolute path, so that the change of
/// working directory cannot break it.
pub fn prepare_process(script_path: &str, absolute_script: &str, platform: Platform) -> (process:
    Invocation)
    ensures
        process.runs(script_path@, absolute_script@, platform),
        process.streams == Streams::Captured,
{
    let (shell, flag) = match platform {
        Platform::Windows => ("cmd", "/C"),
        Platform::Unix => ("sh", "-c"),
    };
    let mut arguments: Vec<String> = Vec::new();
    arguments.push(flag.to_owned());
    arguments.push(absolute_script.to_owned());
    assert(names_of(arguments@) == seq![command_flag_of(platform), absolute_script@]);
    Invocation {
        program: shell.to_owned(),
        arguments,
        working_directory: script_path.to_owned(),
        streams: Streams::Captured,
    }
}

/// The invocation that runs a script to its end and collects exit status,
/// standard output and standard error.
pub fn execute_script(script_path: &str, absolute_script: &str, platform: Platform) -> (process:
    Invocation)
    ensures
        process.runs(script_path@, absolute_script@, platform),
        process.streams == Streams::Captured,
{
    prepare_process(script_path, absolute_script, platform)
}

/// The invocation that starts a script as a supervised worker, with
/// standard input, output and error piped to the supervisor.
pub fn spawn_worker_script(script_path: &str, absolute_script: &str, platform: Platform) -> (process:
    Invocation)
    ensures
        process.runs(script_path@, absolute_script@, platform),
        process.streams == Streams::Piped,
{
    let mut process = prepare_process(script_path, absolute_script, platform);
    process.streams = Streams::Piped;
    process
}

} // verus!
