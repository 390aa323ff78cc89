use formica::script::{
    execute_script, find_script, prepare_process, spawn_worker_script, ExecutionOutput, FileEntry,
    Platform, ScriptErrorKind, Streams,
};
use formica::text::{chars_of, has_prefix, has_substring};

fn file(name: &str) -> FileEntry {
    FileEntry { name: name.to_string(), is_file: true }
}

fn directory(name: &str) -> FileEntry {
    FileEntry { name: name.to_string(), is_file: false }
}

fn output(code: Option<i32>) -> ExecutionOutput {
    ExecutionOutput { code, status: String::new(), stdout: Vec::new(), stderr: Vec::new() }
}

fn listed(entries: Vec<FileEntry>) -> Result<Vec<FileEntry>, String> {
    Ok(entries)
}

#[test]
fn unique_script_is_returned() {
    let entries = listed(vec![file("readme.md"), file("update.sh"), file("other")]);
    let found = find_script(&entries, "update");
    assert_eq!(found.unwrap(), "update.sh");
}

#[test]
fn empty_listing_has_no_script() {
    let entries = listed(Vec::new());
    let found = find_script(&entries, "update");
    assert!(matches!(found.unwrap_err().kind, ScriptErrorKind::NoScriptFound));
}

#[test]
fn listing_without_candidate_has_no_script() {
    let entries = listed(vec![file("readme.md"), file("my_update.sh"), file("updat")]);
    let found = find_script(&entries, "update");
    assert!(matches!(found.unwrap_err().kind, ScriptErrorKind::NoScriptFound));
}

#[test]
fn two_candidates_are_ambiguous_and_both_named() {
    let entries = listed(vec![file("update.sh"), file("notes"), file("update.bat")]);
    let found = find_script(&entries, "update");
    match found.unwrap_err().kind {
        ScriptErrorKind::TooManyScriptsFound(names) => {
            assert_eq!(names, vec!["update.sh".to_string(), "update.bat".to_string()]);
        }
        other => panic!("unexpected error {:?}", other),
    }
}

#[test]
fn three_candidates_are_named_in_listing_order() {
    let entries = listed(vec![file("config_init_c"), file("config_init_a"), file("config_init_b")]);
    let found = find_script(&entries, "config_init");
    match found.unwrap_err().kind {
        ScriptErrorKind::TooManyScriptsFound(names) => {
            assert_eq!(
                names,
                vec![
                    "config_init_c".to_string(),
                    "config_init_a".to_string(),
                    "config_init_b".to_string()
                ]
            );
        }
        other => panic!("unexpected error {:?}", other),
    }
}

#[test]
fn ambiguity_does_not_depend_on_listing_order() {
    let one = listed(vec![file("update.sh"), file("update.bat")]);
    let other = listed(vec![file("update.bat"), file("update.sh")]);
    let mut first = match find_script(&one, "update").unwrap_err().kind {
        ScriptErrorKind::TooManyScriptsFound(names) => names,
        other => panic!("unexpected error {:?}", other),
    };
    let mut second = match find_script(&other, "update").unwrap_err().kind {
        ScriptErrorKind::TooManyScriptsFound(names) => names,
        other => panic!("unexpected error {:?}", other),
    };
    first.sort();
    second.sort();
    assert_eq!(first, second);
}

#[test]
fn directory_that_could_not_be_listed_has_an_error_of_its_own() {
    let listing: Result<Vec<FileEntry>, String> = Err("formica_conf: permission denied".to_string());
    for prefix in ["update", "config_init", ""] {
        match find_script(&listing, prefix).unwrap_err().kind {
            ScriptErrorKind::DirectoryNotListed(reason) => {
                assert_eq!(reason, "formica_conf: permission denied");
            }
            other => panic!("unexpected error {:?}", other),
        }
    }
}

#[test]
fn directories_are_no_candidates() {
    let entries = listed(vec![directory("update.d"), file("update.sh")]);
    let found = find_script(&entries, "update");
    assert_eq!(found.unwrap(), "update.sh");
    let only_directory = listed(vec![directory("update")]);
    let found = find_script(&only_directory, "update");
    assert!(matches!(found.unwrap_err().kind, ScriptErrorKind::NoScriptFound));
}

#[test]
fn name_equal_to_prefix_is_a_candidate() {
    let entries = listed(vec![file("update")]);
    assert_eq!(find_script(&entries, "update").unwrap(), "update");
}

#[test]
fn resolution_reads_the_listing_it_is_given() {
    let mut entries = vec![file("update.sh")];
    assert_eq!(find_script(&listed(entries.clone()), "update").unwrap(), "update.sh");
    entries.push(file("update.py"));
    assert!(matches!(
        find_script(&listed(entries.clone()), "update").unwrap_err().kind,
        ScriptErrorKind::TooManyScriptsFound(_)
    ));
    entries.clear();
    assert!(matches!(
        find_script(&listed(entries), "update").unwrap_err().kind,
        ScriptErrorKind::NoScriptFound
    ));
}

#[test]
fn prefix_test_compares_characters_from_the_start() {
    assert!(has_prefix("agent_init.sh", "agent_init"));
    assert!(has_prefix("agent_init", "agent_init"));
    assert!(has_prefix("anything", ""));
    assert!(has_prefix("", ""));
    assert!(!has_prefix("agent", "agent_init"));
    assert!(!has_prefix("my_agent_init", "agent_init"));
    assert!(!has_prefix("Agent_init", "agent_init"));
    assert!(has_prefix("über.sh", "üb"));
    assert!(!has_prefix("uber.sh", "üb"));
}

#[test]
fn substring_test_finds_a_run_anywhere() {
    assert!(has_substring("build-ab", "build-a"));
    assert!(has_substring("build-ab", "ld-"));
    assert!(has_substring("build-ab", "ab"));
    assert!(has_substring("build-ab", "build-ab"));
    assert!(has_substring("build-ab", ""));
    assert!(has_substring("", ""));
    assert!(!has_substring("build-a", "build-ab"));
    assert!(!has_substring("build-a", "bulid"));
    assert!(!has_substring("", "a"));
    assert!(has_substring("aab", "ab"));
    assert!(has_substring("grüße", "üß"));
}

#[test]
fn characters_are_listed_in_order() {
    assert_eq!(chars_of("aé\n"), vec!['a', 'é', '\n']);
    assert_eq!(chars_of(""), Vec::<char>::new());
}

#[test]
fn success_is_exit_code_zero() {
    assert!(output(Some(0)).success());
    assert!(!output(Some(1)).success());
    assert!(!output(Some(-1)).success());
    assert!(!output(None).success());
}

#[test]
fn unix_scripts_run_through_sh() {
    let process = prepare_process("formica_conf", "/srv/ci/formica_conf/update.sh", Platform::Unix);
    assert_eq!(process.program, "sh");
    assert_eq!(
        process.arguments,
        vec!["-c".to_string(), "/srv/ci/formica_conf/update.sh".to_string()]
    );
    assert_eq!(process.working_directory, "formica_conf");
    assert_eq!(process.streams, Streams::Captured);
}

#[test]
fn windows_scripts_run_through_cmd() {
    let process = prepare_process("conf", "C:\\ci\\conf\\update.bat", Platform::Windows);
    assert_eq!(process.program, "cmd");
    assert_eq!(process.arguments, vec!["/C".to_string(), "C:\\ci\\conf\\update.bat".to_string()]);
    assert_eq!(process.working_directory, "conf");
}

#[test]
fn executed_scripts_have_their_streams_captured() {
    let process = execute_script("/tmp/work", "/tmp/work/config_init.sh", Platform::Unix);
    assert_eq!(process.streams, Streams::Captured);
    assert_eq!(process.program, "sh");
    assert_eq!(process.arguments, vec!["-c".to_string(), "/tmp/work/config_init.sh".to_string()]);
    assert_eq!(process.working_directory, "/tmp/work");
}

#[test]
fn workers_have_their_streams_piped() {
    let process = spawn_worker_script("jobs/build", "/srv/jobs/build/agent_init.sh", Platform::Unix);
    assert_eq!(process.streams, Streams::Piped);
    assert_eq!(process.program, "sh");
    assert_eq!(
        process.arguments,
        vec!["-c".to_string(), "/srv/jobs/build/agent_init.sh".to_string()]
    );
    assert_eq!(process.working_directory, "jobs/build");
    let process = spawn_worker_script("jobs", "C:\\jobs\\agent_init.bat", Platform::Windows);
    assert_eq!(process.streams, Streams::Piped);
    assert_eq!(process.program, "cmd");
}
