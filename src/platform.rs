//! The answer to "which window is in front, and which process owns it".

use vstd::prelude::*;
use vstd::string::StringExecFns;

use crate::process::{
    entry_matches, find_entry, is_first_match, no_match, ProcessEntry,
};
use crate::toplevel::{QueryOutcome, ToplevelSnapshot};

verus! {

/// What a window id is made of, before the application id.
pub const WINDOW_ID_PREFIX: &'static str = "wayland-toplevel-";

/// A window's rectangle. The compositor gives no geometry, so it is always zero.
#[derive(Clone, Copy, Debug, PartialEq, Eq, Structural)]
pub struct WindowPosition {
    pub x: i64,
    pub y: i64,
    pub width: i64,
    pub height: i64,
}

/// The rectangle with every field zero.
pub open spec fn zero_rect() -> WindowPosition {
    WindowPosition { x: 0, y: 0, width: 0, height: 0 }
}

/// The answer of a successful query.
pub struct ActiveWindow {
    /// The owning process, or 0 when it could not be found.
    pub process_id: u64,
    pub window_id: String,
    /// The application id that the compositor reported.
    pub app_name: String,
    pub title: String,
    pub position: WindowPosition,
    /// The executable of the owning process, or empty.
    pub process_path: String,
}

/// The executable path recorded for a found process: empty for pid 0 or where
/// it could not be read.
pub open spec fn path_of(e: ProcessEntry) -> Seq<char> {
    if e.pid != 0 && e.exe_path is Some {
        e.exe_path->0@
    } else {
        Seq::empty()
    }
}

/// The record assembled for the activated toplevel `s` and the process table
/// `table`: its process id and path come from the first matching entry, or are
/// 0 and empty.
pub open spec fn record_matches(w: ActiveWindow, s: ToplevelSnapshot, table: Seq<ProcessEntry>) -> bool {
    &&& w.window_id@ == WINDOW_ID_PREFIX@ + s.app_id@
    &&& w.app_name@ == s.app_id@
    &&& w.title@ == s.title@
    &&& w.position == zero_rect()
    &&& no_match(s.app_id@, table) ==> w.process_id == 0 && w.process_path@ == Seq::<char>::empty()
    &&& forall|i: int|
        #[trigger] is_first_match(s.app_id@, table, i) ==> w.process_id == table[i].pid
            && w.process_path@ == path_of(table[i])
}

/// The query for the foreground window on a Wayland compositor.
pub struct LinuxPlatformApi {}

impl LinuxPlatformApi {
    /// The position of the foreground window: geometry is not available here, so
    /// this is the zero rectangle, always.
    pub fn get_position(&self) -> (r: Result<WindowPosition, ()>)
        ensures
            r == Ok::<WindowPosition, ()>(zero_rect()),
    {
        Ok(WindowPosition { x: 0, y: 0, width: 0, height: 0 })
    }

    /// The answer for what the watcher reported, with the owner taken from a
    /// snapshot of the process table. Nothing found by the watcher is a failure;
    /// a missing owner is not.
    pub fn get_active_window(&self, outcome: QueryOutcome, table: &Vec<ProcessEntry>) -> (r: Result<ActiveWindow, ()>)
        ensures
            outcome is NotFound ==> r is Err,
            outcome is Found ==> r is Ok && record_matches(r->Ok_0, outcome->Found_0, table@),
    {
        match outcome {
            QueryOutcome::NotFound => Err(()),
            QueryOutcome::Found(s) => Ok(active_window_of(s, table)),
        }
    }
}

/// Assembles the record for the activated toplevel `s`.
pub fn active_window_of(s: ToplevelSnapshot, table: &Vec<ProcessEntry>) -> (w: ActiveWindow)
    ensures
        record_matches(w, s, table@),
{
    let ghost snap = s;
    let (process_id, process_path) = match find_entry(s.app_id.as_str(), table) {
        Some(i) => {
            let pid = table[i].pid;
            let path = if pid != 0 {
                match &table[i].exe_path {
                    Some(p) => p.clone(),
                    None => String::new(),
                }
            } else {
                String::new()
            };
            proof {
                assert forall|k: int| #[trigger] is_first_match(snap.app_id@, table@, k) implies k == i by {
                    if k < i {
                        assert(!entry_matches(snap.app_id@, table@[k]));
                    } else if k > i {
                        assert(!entry_matches(snap.app_id@, table@[i as int]));
                    }
                }
            }
            (pid, path)
        },
        None => (0u64, String::new()),
    };
    let prefix = String::from_str(WINDOW_ID_PREFIX);
    let window_id = prefix.concat(s.app_id.as_str());
    let app_name = s.app_id;
    ActiveWindow {
        process_id,
        window_id,
        app_name,
        title: s.title,
        position: WindowPosition { x: 0, y: 0, width: 0, height: 0 },
        process_path,
    }
}

} // verus!
