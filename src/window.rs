//! Finding the player's top-level window that belongs to a given process.
use vstd::prelude::*;
use crate::text::range_is;

verus! {

/// The window class of the player's top-level windows.
pub const PLAYER_WINDOW_CLASS: &'static str = "mpv";

/// A top-level window as the desktop session lists it: its class name and
/// the identifier of the process that created it.
pub struct WindowInfo {
    pub class_name: String,
    pub pid: u32,
}

/// A window of class `class_name` made by process `pid` is the one to
/// activate for the process `target_pid`.
pub open spec fn is_target(class_name: Seq<char>, pid: u32, target_pid: u32) -> bool {
    class_name == PLAYER_WINDOW_CLASS@ && pid == target_pid
}

/// The position of the first window in `windows` that is the target for
/// `target_pid`, if any.
pub open spec fn first_target(windows: Seq<WindowInfo>, target_pid: u32, i: int) -> bool {
    0 <= i < windows.len() && is_target(windows[i].class_name@, windows[i].pid, target_pid) && (
    forall|j: int|
        0 <= j < i ==> !is_target(
            #[trigger] windows[j].class_name@,
            windows[j].pid,
            target_pid,
        ))
}

/// Whether a window of class `class_name` made by process `window_pid` is
/// the player window of process `target_pid`.
pub fn is_target_window(class_name: &str, window_pid: u32, target_pid: u32) -> (r: bool)
    ensures
        r == is_target(class_name@, window_pid, target_pid),
{
    if window_pid != target_pid {
        return false;
    }
    let n = class_name.unicode_len();
    assert(class_name@.subrange(0, n as int) =~= class_name@);
    range_is(class_name, 0, n, PLAYER_WINDOW_CLASS)
}

/// The state of a search through the top-level windows, handed window by
/// window to the enumeration: the process sought and the handle of the
/// window found so far.
pub struct WindowSearch<H> {
    pub target_pid: u32,
    pub found: Option<H>,
}

impl<H> WindowSearch<H> {
    /// A search for the window of process `target_pid`, with nothing found.
    pub fn new(target_pid: u32) -> (r: Self)
        ensures
            r.target_pid == target_pid,
            r.found is None,
    {
        WindowSearch { target_pid, found: None }
    }

    /// Looks at one window. When it is the target, records `handle` and
    /// returns `false`: the enumeration stops there. Otherwise the search is
    /// unchanged and the result is `true`.
    pub fn offer(&mut self, class_name: &str, window_pid: u32, handle: H) -> (go_on: bool)
        ensures
            final(self).target_pid == old(self).target_pid,
            go_on == !is_target(class_name@, window_pid, old(self).target_pid),
            !go_on ==> final(self).found == Some(handle),
            go_on ==> final(self).found == old(self).found,
    {
        if is_target_window(class_name, window_pid, self.target_pid) {
            self.found = Some(handle);
            false
        } else {
            true
        }
    }
}

/// The position of the first window in `windows` that belongs to process
/// `target_pid` and has the player's class; `None` when there is none.
pub fn find_target_window(windows: &Vec<WindowInfo>, target_pid: u32) -> (r: Option<usize>)
    ensures
        match r {
            Some(i) => first_target(windows@, target_pid, i as int),
            None => forall|j: int|
                0 <= j < windows@.len() ==> !is_target(
                    #[trigger] windows@[j].class_name@,
                    windows@[j].pid,
                    target_pid,
                ),
        },
{
    let mut search: WindowSearch<usize> = WindowSearch::new(target_pid);
    let mut i: usize = 0;
    while i < windows.len()
        invariant
            i <= windows@.len(),
            search.target_pid == target_pid,
            search.found is None,
            forall|j: int|
                0 <= j < i ==> !is_target(
                    #[trigger] windows@[j].class_name@,
                    windows@[j].pid,
                    target_pid,
                ),
        decreases windows@.len() - i,
    {
        let w = &windows[i];
        if !search.offer(w.class_name.as_str(), w.pid, i) {
            return search.found;
        }
        i = i + 1;
    }
    None
}

} // verus!
