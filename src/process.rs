//! Picks, from a snapshot of the process table, the process that owns an
//! application id.

use vstd::prelude::*;

verus! {

/// What could be read of one process. A field that could not be read (the
/// process ended, or permission was denied) is `None`.
pub struct ProcessEntry {
    pub pid: u64,
    /// The raw command line.
    pub cmdline: Option<String>,
    /// The short command name, untrimmed.
    pub comm: Option<String>,
    /// The resolved path of the executable.
    pub exe_path: Option<String>,
    /// The last component of `exe_path`.
    pub exe_name: Option<String>,
}

/// What `str::trim` makes of a string.
pub uninterp spec fn trim_of(s: Seq<char>) -> Seq<char>;

/// `p` occurs in `s` as a run of consecutive characters.
pub open spec fn contains_seq(s: Seq<char>, p: Seq<char>) -> bool {
    exists|i: int| 0 <= i && i + p.len() <= s.len() && #[trigger] s.subrange(i, i + p.len()) == p
}

/// The characters of an optional string.
pub open spec fn opt_view(o: Option<String>) -> Option<Seq<char>> {
    match o {
        Some(s) => Some(s@),
        None => None,
    }
}

/// The matching rules on what was read of a process, with the command name
/// already trimmed: a non-empty `app_id` matches when the command line holds it,
/// or the command name or the executable's file name is exactly it.
pub open spec fn fields_match_spec(
    app_id: Seq<char>,
    cmdline: Option<Seq<char>>,
    trimmed_comm: Option<Seq<char>>,
    exe_name: Option<Seq<char>>,
) -> bool {
    &&& app_id.len() > 0
    &&& {
        ||| cmdline is Some && contains_seq(cmdline->0, app_id)
        ||| trimmed_comm == Some(app_id)
        ||| exe_name == Some(app_id)
    }
}

/// Whether a process table entry matches `app_id`.
pub open spec fn entry_matches(app_id: Seq<char>, e: ProcessEntry) -> bool {
    fields_match_spec(
        app_id,
        opt_view(e.cmdline),
        match e.comm {
            Some(c) => Some(trim_of(c@)),
            None => None,
        },
        opt_view(e.exe_name),
    )
}

/// Entry `i` is the first of the table that matches `app_id`.
pub open spec fn is_first_match(app_id: Seq<char>, table: Seq<ProcessEntry>, i: int) -> bool {
    &&& 0 <= i < table.len()
    &&& entry_matches(app_id, table[i])
    &&& forall|j: int| 0 <= j < i ==> !entry_matches(app_id, #[trigger] table[j])
}

/// No entry of the table matches `app_id`.
pub open spec fn no_match(app_id: Seq<char>, table: Seq<ProcessEntry>) -> bool {
    forall|j: int| 0 <= j < table.len() ==> !entry_matches(app_id, #[trigger] table[j])
}

/// Relies on `str::trim`: the string without its leading and trailing white space.
#[verifier::external_body]
fn trim_text(s: &str) -> (r: &str)
    ensures
        r@ == trim_of(s@),
        s@.len() == 0 ==> r@.len() == 0,
{
    s.trim()
}

/// Relies on `str::contains` with a `&str` pattern: true exactly when the pattern
/// matches a sub-slice of the string.
#[verifier::external_body]
fn text_contains(s: &str, p: &str) -> (r: bool)
    ensures
        r == contains_seq(s@, p@),
{
    s.contains(p)
}

/// The matching rules, on a command name that has already been trimmed.
pub fn fields_match(
    app_id: &str,
    cmdline: &Option<String>,
    trimmed_comm: Option<&str>,
    exe_name: &Option<String>,
) -> (r: bool)
    ensures
        r == fields_match_spec(
            app_id@,
            opt_view(*cmdline),
            match trimmed_comm {
                Some(c) => Some(c@),
                None => None,
            },
            opt_view(*exe_name),
        ),
{
    if app_id.unicode_len() == 0 {
        return false;
    }
    if let Some(c) = cmdline {
        if text_contains(c.as_str(), app_id) {
            return true;
        }
    }
    if let Some(c) = trimmed_comm {
        if str_eq(c, app_id) {
            return true;
        }
    }
    if let Some(n) = exe_name {
        if str_eq(n.as_str(), app_id) {
            return true;
        }
    }
    false
}

/// Whether two strings hold the same characters.
pub fn str_eq(a: &str, b: &str) -> (r: bool)
    ensures
        r == (a@ == b@),
{
    let n = a.unicode_len();
    if n != b.unicode_len() {
        return false;
    }
    let mut i: usize = 0;
    while i < n
        invariant
            n == a@.len() == b@.len(),
            i <= n,
            forall|j: int| 0 <= j < i ==> a@[j] == b@[j],
        decreases n - i,
    {
        if a.get_char(i) != b.get_char(i) {
            return false;
        }
        i = i + 1;
    }
    assert(a@ =~= b@);
    true
}

/// Whether a process table entry matches `app_id`.
pub fn entry_matches_app(app_id: &str, e: &ProcessEntry) -> (r: bool)
    ensures
        r == entry_matches(app_id@, *e),
{
    let trimmed = match &e.comm {
        Some(c) => Some(trim_text(c.as_str())),
        None => None,
    };
    fields_match(app_id, &e.cmdline, trimmed, &e.exe_name)
}

/// The position of the first entry of the table that matches `app_id`.
pub fn find_entry(app_id: &str, table: &Vec<ProcessEntry>) -> (r: Option<usize>)
    ensures
        match r {
            Some(i) => is_first_match(app_id@, table@, i as int),
            None => no_match(app_id@, table@),
        },
{
    let mut i: usize = 0;
    while i < table.len()
        invariant
            i <= table@.len(),
            forall|j: int| 0 <= j < i ==> !entry_matches(app_id@, #[trigger] table@[j]),
        decreases table.len() - i,
    {
        if entry_matches_app(app_id, &table[i]) {
            return Some(i);
        }
        i = i + 1;
    }
    None
}

/// The id of the first process of the table that matches `app_id`, if any.
pub fn find_process_by_name(app_id: &str, table: &Vec<ProcessEntry>) -> (r: Option<u64>)
    ensures
        match r {
            Some(pid) => exists|i: int|
                is_first_match(app_id@, table@, i) && #[trigger] table@[i].pid == pid,
            None => no_match(app_id@, table@),
        },
{
    match find_entry(app_id, table) {
        Some(i) => Some(table[i].pid),
        None => None,
    }
}

} // verus!
