use active_window::process::{fields_match, find_process_by_name, str_eq, ProcessEntry};

fn entry(pid: u64, cmdline: Option<&str>, comm: Option<&str>, exe: Option<&str>) -> ProcessEntry {
    let exe_name = exe.map(|p| p.rsplit('/').next().unwrap_or("").to_string());
    ProcessEntry {
        pid,
        cmdline: cmdline.map(|s| s.to_string()),
        comm: comm.map(|s| s.to_string()),
        exe_path: exe.map(|s| s.to_string()),
        exe_name,
    }
}

#[test]
fn command_line_substring_matches() {
    let table = vec![
        entry(1, Some("/sbin/init\0splash"), Some("init\n"), Some("/sbin/init")),
        entry(77, Some("/usr/bin/python3\0/opt/editor-app/main.py"), Some("python3\n"), None),
    ];
    assert_eq!(find_process_by_name("editor-app", &table), Some(77));
}

#[test]
fn command_name_matches_after_trim() {
    let table = vec![
        entry(5, None, Some("other\n"), None),
        entry(9, Some("something else"), Some("  editor\n"), None),
    ];
    assert_eq!(find_process_by_name("editor", &table), Some(9));
}

#[test]
fn command_name_match_is_case_sensitive() {
    let table = vec![entry(9, None, Some("Editor\n"), None)];
    assert_eq!(find_process_by_name("editor", &table), None);
}

#[test]
fn executable_name_matches() {
    let table = vec![entry(12, None, None, Some("/usr/lib/firefox/firefox"))];
    assert_eq!(find_process_by_name("firefox", &table), Some(12));
}

#[test]
fn no_process_matches() {
    let table = vec![
        entry(1, Some("/sbin/init"), Some("init\n"), Some("/sbin/init")),
        entry(2, None, None, None),
    ];
    assert_eq!(find_process_by_name("editor", &table), None);
}

#[test]
fn first_matching_process_wins() {
    let table = vec![
        entry(3, Some("run editor"), None, None),
        entry(4, None, Some("editor"), None),
    ];
    assert_eq!(find_process_by_name("editor", &table), Some(3));
}

#[test]
fn empty_app_id_matches_nothing() {
    let table = vec![entry(3, Some("anything"), Some(""), Some(""))];
    assert_eq!(find_process_by_name("", &table), None);
}

#[test]
fn empty_table_matches_nothing() {
    assert_eq!(find_process_by_name("editor", &Vec::new()), None);
}

#[test]
fn fields_match_rules() {
    assert!(fields_match("ed", &Some("xeditor".to_string()), None, &None));
    assert!(!fields_match("ed", &Some("xEDitor".to_string()), Some("e d"), &Some("edit".to_string())));
    assert!(fields_match("ed", &None, Some("ed"), &None));
    assert!(fields_match("ed", &None, None, &Some("ed".to_string())));
    assert!(!fields_match("", &Some("ed".to_string()), Some(""), &Some("".to_string())));
}

#[test]
fn string_equality() {
    assert!(str_eq("abc", "abc"));
    assert!(!str_eq("abc", "abd"));
    assert!(!str_eq("abc", "ab"));
    assert!(str_eq("", ""));
}
