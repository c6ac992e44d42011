use std::path::PathBuf;
use stream_runner::command::{set_current_dir, ProcessDescription};

fn listing() -> ProcessDescription {
    ProcessDescription {
        program: "ls".to_string(),
        args: vec!["-l".to_string()],
        current_dir: None,
    }
}

#[test]
fn a_directory_is_used_as_it_is() {
    let mut cmd = listing();
    set_current_dir(&mut cmd, Some(PathBuf::from("/var/log")), true);
    assert_eq!(cmd.current_dir, Some(PathBuf::from("/var/log")));
    assert_eq!(cmd.program, "ls");
    assert_eq!(cmd.args, vec!["-l".to_string()]);
}

#[test]
fn a_file_stands_for_the_directory_that_holds_it() {
    let mut cmd = listing();
    set_current_dir(&mut cmd, Some(PathBuf::from("/var/log/syslog")), false);
    assert_eq!(cmd.current_dir, Some(PathBuf::from("/var/log")));
}

#[test]
fn a_single_relative_name_leaves_the_empty_path() {
    let mut cmd = listing();
    set_current_dir(&mut cmd, Some(PathBuf::from("notes.txt")), false);
    assert_eq!(cmd.current_dir, Some(PathBuf::from("")));
}

#[test]
fn a_path_without_a_parent_stays() {
    let mut cmd = listing();
    set_current_dir(&mut cmd, Some(PathBuf::from("/")), false);
    assert_eq!(cmd.current_dir, Some(PathBuf::from("/")));
}

#[test]
fn without_an_override_the_directory_is_left_alone() {
    let mut cmd = listing();
    set_current_dir(&mut cmd, None, false);
    assert_eq!(cmd.current_dir, None);
    cmd.current_dir = Some(PathBuf::from("/tmp"));
    set_current_dir(&mut cmd, None, true);
    assert_eq!(cmd.current_dir, Some(PathBuf::from("/tmp")));
    assert_eq!(cmd, ProcessDescription {
        program: "ls".to_string(),
        args: vec!["-l".to_string()],
        current_dir: Some(PathBuf::from("/tmp")),
    });
}
