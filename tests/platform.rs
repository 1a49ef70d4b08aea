use active_window::platform::{LinuxPlatformApi, WindowPosition, WINDOW_ID_PREFIX};
use active_window::process::ProcessEntry;
use active_window::toplevel::{watch_events, QueryOutcome, StateFlag, ToplevelSnapshot, WatchEvent};

fn zero() -> WindowPosition {
    WindowPosition { x: 0, y: 0, width: 0, height: 0 }
}

fn editor_table() -> Vec<ProcessEntry> {
    vec![
        ProcessEntry {
            pid: 1,
            cmdline: Some("/sbin/init".to_string()),
            comm: Some("init\n".to_string()),
            exe_path: Some("/sbin/init".to_string()),
            exe_name: Some("init".to_string()),
        },
        ProcessEntry {
            pid: 4242,
            cmdline: None,
            comm: Some("editor\n".to_string()),
            exe_path: Some("/usr/bin/editor".to_string()),
            exe_name: Some("editor".to_string()),
        },
    ]
}

#[test]
fn position_is_zero_rectangle() {
    let api = LinuxPlatformApi {};
    assert_eq!(api.get_position(), Ok(zero()));
}

#[test]
fn editor_window_is_resolved() {
    let events = vec![
        WatchEvent::Other,
        WatchEvent::Done {
            title: "Editor".to_string(),
            app_id: "editor".to_string(),
            state: Some(vec![StateFlag::Activated]),
        },
    ];
    let outcome = watch_events(&events);
    let api = LinuxPlatformApi {};
    let w = api.get_active_window(outcome, &editor_table()).ok().unwrap();
    assert_eq!(w.process_id, 4242);
    assert_eq!(w.window_id, "wayland-toplevel-editor");
    assert_eq!(w.app_name, "editor");
    assert_eq!(w.title, "Editor");
    assert_eq!(w.position, zero());
    assert_eq!(w.process_path, "/usr/bin/editor");
}

#[test]
fn unresolved_owner_gives_zero_pid_and_empty_path() {
    let outcome = QueryOutcome::Found(ToplevelSnapshot {
        title: "Chat".to_string(),
        app_id: "org.example.Chat".to_string(),
    });
    let api = LinuxPlatformApi {};
    let w = api.get_active_window(outcome, &editor_table()).ok().unwrap();
    assert_eq!(w.process_id, 0);
    assert_eq!(w.process_path, "");
    assert_eq!(w.window_id, format!("{}org.example.Chat", WINDOW_ID_PREFIX));
    assert_eq!(w.title, "Chat");
}

#[test]
fn unreadable_exe_gives_empty_path() {
    let table = vec![ProcessEntry {
        pid: 31,
        cmdline: Some("chat --x".to_string()),
        comm: None,
        exe_path: None,
        exe_name: None,
    }];
    let outcome = QueryOutcome::Found(ToplevelSnapshot {
        title: String::new(),
        app_id: "chat".to_string(),
    });
    let w = LinuxPlatformApi {}.get_active_window(outcome, &table).ok().unwrap();
    assert_eq!(w.process_id, 31);
    assert_eq!(w.process_path, "");
    assert_eq!(w.title, "");
}

#[test]
fn nothing_found_fails_the_query() {
    let api = LinuxPlatformApi {};
    assert!(api.get_active_window(QueryOutcome::NotFound, &editor_table()).is_err());
}
