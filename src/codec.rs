//! The line protocol spoken to a running player: one `raw loadfile` command
//! per reference, with the reference quoted and escaped.
use vstd::prelude::*;
use vstd::string::*;

verus! {

/// What one character of a reference becomes inside the quotes.
pub open spec fn escape_char(c: char) -> Seq<char> {
    if c == '\\' {
        seq!['\\', '\\']
    } else if c == '"' {
        seq!['\\', '"']
    } else if c == '\n' {
        seq!['\\', 'n']
    } else {
        seq![c]
    }
}

/// A reference with backslashes doubled, double quotes preceded by a
/// backslash and newlines written as backslash-n.
pub open spec fn escaped(s: Seq<char>) -> Seq<char>
    decreases s.len(),
{
    if s.len() == 0 {
        Seq::empty()
    } else {
        escape_char(s[0]) + escaped(s.drop_first())
    }
}

/// Reading escaped text back, left to right: a backslash takes the next
/// character with it (`n` standing for a newline).
pub open spec fn unescaped(t: Seq<char>) -> Seq<char>
    decreases t.len(),
{
    if t.len() == 0 {
        Seq::empty()
    } else if t[0] == '\\' && t.len() >= 2 {
        seq![if t[1] == 'n' { '\n' } else { t[1] }] + unescaped(t.subrange(2, t.len() as int))
    } else {
        seq![t[0]] + unescaped(t.drop_first())
    }
}

/// Text that is safe between double quotes: every backslash starts one of
/// the three escapes, and no double quote or newline stands on its own.
pub open spec fn is_escaped_text(t: Seq<char>) -> bool
    decreases t.len(),
{
    if t.len() == 0 {
        true
    } else if t[0] == '\\' {
        t.len() >= 2 && (t[1] == '\\' || t[1] == '"' || t[1] == 'n') && is_escaped_text(
            t.subrange(2, t.len() as int),
        )
    } else {
        t[0] != '"' && t[0] != '\n' && is_escaped_text(t.drop_first())
    }
}

/// The command that asks the player to load `reference` with load mode `mode`.
pub open spec fn command_line(reference: Seq<char>, mode: Seq<char>) -> Seq<char> {
    "raw loadfile \""@ + escaped(reference) + "\" \""@ + mode + "\"\n"@
}

/// The commands for `files`, in their order, one after the other.
pub open spec fn command_stream(files: Seq<Seq<char>>, mode: Seq<char>) -> Seq<char>
    decreases files.len(),
{
    if files.len() == 0 {
        Seq::empty()
    } else {
        command_stream(files.drop_last(), mode) + command_line(files.last(), mode)
    }
}

/// The views of a list of strings.
pub open spec fn views(v: Seq<String>) -> Seq<Seq<char>> {
    v.map_values(|s: String| s@)
}

proof fn lemma_escaped_push(s: Seq<char>, c: char)
    ensures
        escaped(s.push(c)) == escaped(s) + escape_char(c),
    decreases s.len(),
{
    if s.len() == 0 {
        assert(s.push(c).drop_first() =~= Seq::<char>::empty());
        assert(escaped(s.push(c).drop_first()) == Seq::<char>::empty());
        assert(escaped(s.push(c)) =~= escape_char(c));
    } else {
        assert(s.push(c).drop_first() =~= s.drop_first().push(c));
        lemma_escaped_push(s.drop_first(), c);
        assert(escaped(s.push(c)) =~= escaped(s) + escape_char(c));
    }
}

/// Escaping can be undone: the escaped form of any reference is safe between
/// quotes, and reading it back gives the reference.
pub proof fn lemma_escape_round_trip(s: Seq<char>)
    ensures
        is_escaped_text(escaped(s)),
        unescaped(escaped(s)) == s,
        !escaped(s).contains('\n'),
    decreases s.len(),
{
    if s.len() > 0 {
        let rest = s.drop_first();
        lemma_escape_round_trip(rest);
        let t = escaped(s);
        let c = s[0];
        assert(t == escape_char(c) + escaped(rest));
        if c == '\\' || c == '"' || c == '\n' {
            assert(t.subrange(2, t.len() as int) =~= escaped(rest));
        } else {
            assert(t.drop_first() =~= escaped(rest));
        }
        assert(unescaped(t) =~= s);
        if t.contains('\n') {
            let k = choose|k: int| 0 <= k < t.len() && t[k] == '\n';
            if k >= escape_char(c).len() {
                assert(escaped(rest)[k - escape_char(c).len()] == '\n');
            }
        }
    }
}

/// A command line is a single line whatever the reference holds: its only
/// newline is its last character, and the text between its first pair of
/// quotes is safe escaped text that reads back as the reference.
pub proof fn lemma_command_line_framing(reference: Seq<char>, mode: Seq<char>)
    requires
        !mode.contains('\n'),
    ensures
        ({
            let line = command_line(reference, mode);
            let head = "raw loadfile \""@;
            let body = line.subrange(head.len() as int, (head.len() + escaped(reference).len()) as int);
            &&& line.last() == '\n'
            &&& forall|i: int| 0 <= i < line.len() - 1 ==> line[i] != '\n'
            &&& body == escaped(reference)
            &&& line[(head.len() + body.len()) as int] == '"'
            &&& is_escaped_text(body)
            &&& unescaped(body) == reference
        }),
{
    reveal_strlit("raw loadfile \"");
    reveal_strlit("\" \"");
    reveal_strlit("\"\n");
    lemma_escape_round_trip(reference);
    let line = command_line(reference, mode);
    let head = "raw loadfile \""@;
    let e = escaped(reference);
    assert(line.subrange(head.len() as int, (head.len() + e.len()) as int) =~= e);
    assert forall|i: int| 0 <= i < line.len() - 1 implies line[i] != '\n' by {
        let a = head.len() as int;
        let b = a + e.len();
        let c = b + 3;
        if a <= i < b {
            assert(line[i] == e[i - a]);
        } else if c <= i < c + mode.len() {
            assert(line[i] == mode[i - c]);
        }
    }
}

/// The escaped form of `s`.
pub fn escape_mpv_string(s: &str) -> (r: String)
    ensures
        r@ == escaped(s@),
{
    let n = s.unicode_len();
    let mut out = String::new();
    let mut i: usize = 0;
    proof {
        assert(s@.take(0) =~= Seq::<char>::empty());
    }
    while i < n
        invariant
            n == s@.len(),
            i <= n,
            out@ == escaped(s@.take(i as int)),
        decreases n - i,
    {
        let c = s.get_char(i);
        proof {
            assert(s@.take(i as int + 1) =~= s@.take(i as int).push(c));
            lemma_escaped_push(s@.take(i as int), c);
        }
        if c == '\\' {
            out.append("\\\\");
            proof { reveal_strlit("\\\\"); }
        } else if c == '"' {
            out.append("\\\"");
            proof { reveal_strlit("\\\""); }
        } else if c == '\n' {
            out.append("\\n");
            proof { reveal_strlit("\\n"); }
        } else {
            out.append(s.substring_char(i, i + 1));
        }
        assert(out@ =~= escaped(s@.take(i as int + 1)));
        i = i + 1;
    }
    assert(s@.take(n as int) =~= s@);
    out
}

/// The command line that loads `file` with load mode `loadfile_flag`.
pub fn encode_command(file: &str, loadfile_flag: &str) -> (r: String)
    ensures
        r@ == command_line(file@, loadfile_flag@),
{
    let mut out = String::new();
    out.append("raw loadfile \"");
    let e = escape_mpv_string(file);
    out.append(e.as_str());
    out.append("\" \"");
    out.append(loadfile_flag);
    out.append("\"\n");
    out
}

/// The command stream for `files`: one command per file, in their order.
pub fn encode_commands(files: &Vec<String>, loadfile_flag: &str) -> (r: String)
    ensures
        r@ == command_stream(views(files@), loadfile_flag@),
{
    let mut out = String::new();
    let mut i: usize = 0;
    proof {
        assert(views(files@).take(0) =~= Seq::<Seq<char>>::empty());
    }
    while i < files.len()
        invariant
            i <= files@.len(),
            out@ == command_stream(views(files@).take(i as int), loadfile_flag@),
        decreases files@.len() - i,
    {
        let line = encode_command(files[i].as_str(), loadfile_flag);
        out.append(line.as_str());
        proof {
            let v = views(files@);
            assert(v.take(i as int + 1).drop_last() =~= v.take(i as int));
        }
        i = i + 1;
    }
    assert(views(files@).take(files@.len() as int) =~= views(files@));
    out
}

} // verus!
