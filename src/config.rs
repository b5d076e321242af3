//! The configuration text: `key = value` lines naming the channel address
//! (`Socket_Path`) and the load mode (`Loadfile_Flag`).
use vstd::prelude::*;
use vstd::string::*;
use crate::codec::command_stream;
use crate::text::{first_index, trim, lemma_first_index_bounds, trim_range, find_char, range_is};

verus! {

/// The channel address used when the configuration names none.
pub const DEFAULT_SOCKET_PATH: &'static str = "\\\\.\\pipe\\umpv";

/// The load mode used when the configuration names none.
pub const DEFAULT_LOADFILE_FLAG: &'static str = "replace";

/// The key that names the channel address.
pub const SOCKET_PATH_KEY: &'static str = "Socket_Path";

/// The key that names the load mode.
pub const LOADFILE_FLAG_KEY: &'static str = "Loadfile_Flag";

/// The lines of a text: the pieces between its newlines.
pub open spec fn split_lines(t: Seq<char>) -> Seq<Seq<char>>
    decreases t.len(),
{
    let k = first_index(t, '\n');
    if 0 <= k < t.len() {
        seq![t.take(k)] + split_lines(t.skip(k + 1))
    } else {
        seq![t]
    }
}

/// The key and value that a line sets, if any. Blank lines and lines that
/// open with `[` set nothing; any other line is split at its first `=`, and
/// both sides are trimmed. A line without `=` sets nothing.
pub open spec fn line_entry(line: Seq<char>) -> Option<(Seq<char>, Seq<char>)> {
    let p = first_index(line, '=');
    if trim(line).len() == 0 || (line.len() > 0 && line[0] == '[') || p >= line.len() {
        None
    } else {
        Some((trim(line.take(p)), trim(line.skip(p + 1))))
    }
}

/// The value that the last line setting `key` gives it.
pub open spec fn last_setting(lines: Seq<Seq<char>>, key: Seq<char>) -> Option<Seq<char>>
    decreases lines.len(),
{
    if lines.len() == 0 {
        None
    } else {
        match line_entry(lines.last()) {
            Some((k, v)) => if k == key {
                Some(v)
            } else {
                last_setting(lines.drop_last(), key)
            },
            None => last_setting(lines.drop_last(), key),
        }
    }
}

/// The value of `key` in the configuration text `txt`, or `default`.
pub open spec fn setting_or(txt: Seq<char>, key: Seq<char>, default: Seq<char>) -> Seq<char> {
    match last_setting(split_lines(txt), key) {
        Some(v) => v,
        None => default,
    }
}

/// The channel address that the configuration text `txt` gives.
pub open spec fn conf_socket_path(txt: Seq<char>) -> Seq<char> {
    setting_or(txt, SOCKET_PATH_KEY@, DEFAULT_SOCKET_PATH@)
}

/// The load mode that the configuration text `txt` gives.
pub open spec fn conf_loadfile_flag(txt: Seq<char>) -> Seq<char> {
    setting_or(txt, LOADFILE_FLAG_KEY@, DEFAULT_LOADFILE_FLAG@)
}

/// The view of an optional string.
pub open spec fn opt_view(o: Option<String>) -> Option<Seq<char>> {
    match o {
        Some(s) => Some(s@),
        None => None,
    }
}

/// When the configuration sets no load mode, every command carries the mode
/// `replace`.
pub proof fn lemma_unset_mode_is_replace(txt: Seq<char>, files: Seq<Seq<char>>)
    requires
        last_setting(split_lines(txt), LOADFILE_FLAG_KEY@) is None,
    ensures
        conf_loadfile_flag(txt) == "replace"@,
        command_stream(files, conf_loadfile_flag(txt)) == command_stream(files, "replace"@),
{
}

/// The bounds of the key and of the value that the line `lo..hi` of `t` sets.
fn line_entry_bounds(t: &str, lo: usize, hi: usize) -> (r: Option<(usize, usize, usize, usize)>)
    requires
        lo <= hi <= t@.len(),
    ensures
        match line_entry(t@.subrange(lo as int, hi as int)) {
            None => r is None,
            Some((k, v)) => r matches Some((a, b, c, d)) && lo <= a <= b <= hi && lo <= c <= d
                <= hi && t@.subrange(a as int, b as int) == k && t@.subrange(c as int, d as int)
                == v,
        },
{
    let ghost line = t@.subrange(lo as int, hi as int);
    let (a, b) = trim_range(t, lo, hi);
    if a == b {
        return None;
    }
    if lo < hi && t.get_char(lo) == '[' {
        return None;
    }
    let p = find_char(t, lo, hi, '=');
    proof {
        lemma_first_index_bounds(line, '=');
    }
    if p >= hi {
        return None;
    }
    let (ka, kb) = trim_range(t, lo, p);
    let (va, vb) = trim_range(t, p + 1, hi);
    proof {
        assert(line.take(p - lo) =~= t@.subrange(lo as int, p as int));
        assert(line.skip(p - lo + 1) =~= t@.subrange(p + 1, hi as int));
    }
    Some((ka, kb, va, vb))
}

/// The channel address and the load mode that the configuration text `txt`
/// gives, each falling back to its default.
pub fn parse_conf(txt: &str) -> (r: (String, String))
    ensures
        r.0@ == conf_socket_path(txt@),
        r.1@ == conf_loadfile_flag(txt@),
{
    let n = txt.unicode_len();
    let mut socket: Option<String> = None;
    let mut flag: Option<String> = None;
    let mut start: usize = 0;
    let ghost mut done: Seq<Seq<char>> = Seq::empty();
    proof {
        assert(txt@.subrange(0, n as int) =~= txt@);
        assert(done + split_lines(txt@) =~= split_lines(txt@));
    }
    loop
        invariant_except_break
            split_lines(txt@) == done + split_lines(txt@.subrange(start as int, n as int)),
        invariant
            n == txt@.len(),
            start <= n,
            opt_view(socket) == last_setting(done, SOCKET_PATH_KEY@),
            opt_view(flag) == last_setting(done, LOADFILE_FLAG_KEY@),
        ensures
            split_lines(txt@) == done,
        decreases n - start,
    {
        let ghost rest = txt@.subrange(start as int, n as int);
        let end = find_char(txt, start, n, '\n');
        let ghost line = txt@.subrange(start as int, end as int);
        proof {
            lemma_first_index_bounds(rest, '\n');
            assert(rest.take(end - start) =~= line);
        }
        match line_entry_bounds(txt, start, end) {
            Some((a, b, c, d)) => {
                if range_is(txt, a, b, SOCKET_PATH_KEY) {
                    socket = Some(String::from_str(txt.substring_char(c, d)));
                }
                if range_is(txt, a, b, LOADFILE_FLAG_KEY) {
                    flag = Some(String::from_str(txt.substring_char(c, d)));
                }
            },
            None => {},
        }
        proof {
            assert(done.push(line).drop_last() =~= done);
            done = done.push(line);
        }
        if end >= n {
            assert(rest.take(end - start) =~= rest);
            assert(split_lines(txt@) =~= done);
            break;
        }
        proof {
            assert(rest.skip(end - start + 1) =~= txt@.subrange(end + 1, n as int));
            assert(split_lines(txt@) =~= done + split_lines(txt@.subrange(end + 1, n as int)));
        }
        start = end + 1;
    }
    let s = match socket {
        Some(v) => v,
        None => String::from_str(DEFAULT_SOCKET_PATH),
    };
    let f = match flag {
        Some(v) => v,
        None => String::from_str(DEFAULT_LOADFILE_FLAG),
    };
    (s, f)
}

} // verus!
