use std::path::PathBuf;
use stream_runner::filer::{entry_label, handle_message, read_dir_entries, DisplayPath};

fn shown(path: &str, is_dir: bool) -> Result<String, String> {
    Ok(DisplayPath::new(PathBuf::from(path), false).into_string(is_dir, "/", "").unwrap())
}

fn strings(items: &[&str]) -> Vec<String> {
    items.iter().map(|s| s.to_string()).collect()
}

#[test]
fn test_dir() {
    let entries =
        vec![shown("/work/b.txt", false), shown("/work/A", true), shown("/work/c.log", false)];
    let listed = read_dir_entries(entries, None).unwrap();
    println!("entry: {:?}", listed);
    assert_eq!(listed, strings(&["A/", "b.txt", "c.log"]));
}

#[test]
fn the_limit_is_applied_before_the_sort() {
    let entries: Vec<Result<String, String>> =
        vec![Ok("z".to_string()), Ok("m".to_string()), Ok("a".to_string())];
    assert_eq!(read_dir_entries(entries, Some(2)), Ok(strings(&["m", "z"])));
}

#[test]
fn a_limit_beyond_the_entries_takes_them_all() {
    let entries: Vec<Result<String, String>> = vec![Ok("b".to_string()), Ok("a".to_string())];
    assert_eq!(read_dir_entries(entries, Some(10)), Ok(strings(&["a", "b"])));
}

#[test]
fn a_limit_of_none_lists_nothing() {
    let entries: Vec<Result<String, String>> = vec![Ok("b".to_string()), Err("bad".to_string())];
    assert_eq!(read_dir_entries(entries, Some(0)), Ok(Vec::<String>::new()));
}

#[test]
fn an_empty_directory_lists_nothing() {
    let entries: Vec<Result<String, String>> = Vec::new();
    assert_eq!(read_dir_entries(entries, None), Ok(Vec::<String>::new()));
}

#[test]
fn the_first_failure_among_the_taken_entries_fails_the_listing() {
    let entries: Vec<Result<String, String>> = vec![
        Ok("b".to_string()),
        Err("first".to_string()),
        Ok("a".to_string()),
        Err("second".to_string()),
    ];
    assert_eq!(read_dir_entries(entries, None), Err("first".to_string()));
}

#[test]
fn a_failure_beyond_the_limit_is_not_seen() {
    let entries: Vec<Result<String, String>> =
        vec![Ok("b".to_string()), Ok("a".to_string()), Err("late".to_string())];
    assert_eq!(read_dir_entries(entries, Some(2)), Ok(strings(&["a", "b"])));
}

#[test]
fn entries_are_ordered_by_code_point() {
    let entries: Vec<Result<String, String>> = vec![
        Ok("b".to_string()),
        Ok("ab".to_string()),
        Ok("\u{e9}".to_string()),
        Ok("a".to_string()),
        Ok("B".to_string()),
        Ok("".to_string()),
        Ok("a".to_string()),
    ];
    assert_eq!(
        read_dir_entries(entries, None),
        Ok(strings(&["", "B", "a", "a", "ab", "b", "\u{e9}"]))
    );
}

#[test]
fn a_directory_has_the_separator_after_its_name() {
    let dir = DisplayPath::new(PathBuf::from("/srv/data"), false);
    assert_eq!(dir.into_string(true, "/", "* "), Some("data/".to_string()));
    let file = DisplayPath::new(PathBuf::from("/srv/data"), false);
    assert_eq!(file.into_string(false, "/", "* "), Some("data".to_string()));
}

#[test]
fn the_icon_goes_before_the_name_where_icons_are_enabled() {
    let file = DisplayPath::new(PathBuf::from("notes/todo.md"), true);
    assert_eq!(file.into_string(false, "/", "# "), Some("# todo.md".to_string()));
    let dir = DisplayPath::new(PathBuf::from("notes"), true);
    assert_eq!(dir.into_string(true, "\\", "> "), Some("> notes\\".to_string()));
}

#[test]
fn a_path_without_a_file_name_has_no_text() {
    assert_eq!(DisplayPath::new(PathBuf::from("/"), false).into_string(true, "/", ""), None);
    assert_eq!(DisplayPath::new(PathBuf::from("a/.."), true).into_string(true, "/", "x"), None);
    assert_eq!(DisplayPath::new(PathBuf::from(""), false).to_file_name_str(), None);
}

#[test]
fn the_file_name_is_the_last_component() {
    let p = DisplayPath::new(PathBuf::from("/usr/share/dict/words"), false);
    assert_eq!(p.to_file_name_str(), Some("words".to_string()));
    let q = DisplayPath::new(PathBuf::from("relative/dir/"), false);
    assert_eq!(q.to_file_name_str(), Some("dir".to_string()));
}

#[test]
fn labels_are_put_together_from_their_parts() {
    assert_eq!(entry_label("A".to_string(), true, "/", false, "i "), "A/");
    assert_eq!(entry_label("A".to_string(), true, "/", true, "i "), "i A/");
    assert_eq!(entry_label("b.txt".to_string(), false, "/", true, ""), "b.txt");
    assert_eq!(entry_label("".to_string(), false, "/", false, "i "), "");
}

#[test]
fn a_listing_is_answered_with_its_entries_and_their_number() {
    let v = handle_message(12, "/work", Ok(strings(&["A/", "b.txt", "c.log"])));
    assert_eq!(
        serde_json::to_string(&v).unwrap(),
        r#"{"id":12,"provider_id":"filer","result":{"dir":"/work","entries":["A/","b.txt","c.log"],"total":3}}"#
    );
}

#[test]
fn a_failed_listing_is_answered_with_its_message() {
    let v = handle_message(13, "/gone", Err("No such file or directory".to_string()));
    assert_eq!(
        serde_json::to_string(&v).unwrap(),
        r#"{"error":{"dir":"/gone","message":"No such file or directory"},"id":13,"provider_id":"filer"}"#
    );
}
