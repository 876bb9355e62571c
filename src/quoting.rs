//! Packing an argument list into one string for a POSIX shell's `-c`.
use vstd::prelude::*;

verus! {

/// Characters that stay literal inside a shell word without an escape.
/// `$` is counted among them on purpose: the strings built here never
/// mean to expand a parameter.
pub open spec fn is_plain(c: char) -> bool {
    c == '_' || c == '-' || c == '$' || ('a' <= c && c <= 'z') || ('A' <= c && c <= 'Z')
        || ('0' <= c && c <= '9')
}

/// The form of one character in a quoted word: a plain character as it
/// stands, a newline between single quotes (a shell removes a backslash
/// before a newline), any other character after a backslash.
pub open spec fn escape_char(c: char) -> Seq<char> {
    if is_plain(c) {
        seq![c]
    } else if c == '\n' {
        seq!['\'', '\n', '\'']
    } else {
        seq!['\\', c]
    }
}

/// One argument with each character in its escaped form.
pub open spec fn escape_word(a: Seq<char>) -> Seq<char>
    decreases a.len(),
{
    if a.len() == 0 {
        seq![]
    } else {
        escape_word(a.drop_last()) + escape_char(a.last())
    }
}

/// The escaped arguments, separated by single spaces.
pub open spec fn escape_words(args: Seq<Seq<char>>) -> Seq<char>
    decreases args.len(),
{
    if args.len() == 0 {
        seq![]
    } else if args.len() == 1 {
        escape_word(args[0])
    } else {
        escape_words(args.drop_last()) + seq![' '] + escape_word(args.last())
    }
}

fn is_plain_char(c: char) -> (r: bool)
    ensures
        r == is_plain(c),
{
    c == '_' || c == '-' || c == '$' || ('a' <= c && c <= 'z') || ('A' <= c && c <= 'Z')
        || ('0' <= c && c <= '9')
}

/// Escapes one argument so that a shell reads it back as one literal word.
pub fn shell_escape_arg(s: &str) -> (r: String)
    ensures
        r@ == escape_word(s@),
{
    let n = s.unicode_len();
    let mut out = String::new();
    let mut i: usize = 0;
    while i < n
        invariant
            n == s@.len(),
            i <= n,
            out@ == escape_word(s@.subrange(0, i as int)),
        decreases n - i,
    {
        let c = s.get_char(i);
        if c == '\n' {
            out.push('\'');
            out.push(c);
            out.push('\'');
        } else {
            if !is_plain_char(c) {
                out.push('\\');
            }
            out.push(c);
        }
        proof {
            let p = s@.subrange(0, i + 1);
            assert(p.drop_last() == s@.subrange(0, i as int));
            assert(p.last() == c);
        }
        i = i + 1;
    }
    assert(s@.subrange(0, n as int) == s@);
    out
}


/// The contents of a list of strings.
pub open spec fn string_views(v: Seq<String>) -> Seq<Seq<char>> {
    v.map_values(|s: String| s@)
}

/// Escapes each argument and joins them with single spaces: the result is
/// meant to be the one argument of a shell's `-c`.
pub fn shell_escape(cmd: &Vec<String>) -> (r: String)
    ensures
        r@ == escape_words(string_views(cmd@)),
{
    let ghost args = string_views(cmd@);
    let mut out = String::new();
    let mut i: usize = 0;
    while i < cmd.len()
        invariant
            args == string_views(cmd@),
            i <= cmd.len(),
            out@ == escape_words(args.subrange(0, i as int)),
        decreases cmd.len() - i,
    {
        let word = shell_escape_arg(cmd[i].as_str());
        if i > 0 {
            out.push(' ');
        }
        out.append(word.as_str());
        proof {
            let p = args.subrange(0, i + 1);
            assert(p.drop_last() == args.subrange(0, i as int));
            assert(p.last() == cmd@[i as int]@);
        }
        i = i + 1;
    }
    assert(args.subrange(0, cmd.len() as int) == args);
    out
}

/// Characters that end a word when they stand unescaped.
pub open spec fn is_blank(c: char) -> bool {
    c == ' ' || c == '\t' || c == '\n'
}

/// The word being read, with one more character at its end.
pub open spec fn extend(cur: Option<Seq<char>>, c: char) -> Option<Seq<char>> {
    match cur {
        Some(w) => Some(w.push(c)),
        None => Some(seq![c]),
    }
}

/// The word being read, if any, as a list of zero or one words.
pub open spec fn close(cur: Option<Seq<char>>) -> Seq<Seq<char>> {
    match cur {
        Some(w) => seq![w],
        None => seq![],
    }
}

/// How a POSIX shell splits `s` into words, given the word it is in the
/// middle of and whether it is between single quotes. Between single
/// quotes every character is literal up to the closing quote. Outside them
/// a backslash makes the next character literal, a backslash before a
/// newline is removed with it, a single quote opens a quoted part (and
/// with it a word, if none was open), an unescaped blank ends the word, and
/// every other character is taken as it stands. That last rule holds of
/// the plain characters alone: this models the strings that
/// `escape_words` builds, which hold no other character unescaped, and
/// takes `$` literally, as the quoting here assumes.
pub open spec fn scan_words(s: Seq<char>, cur: Option<Seq<char>>, quoted: bool) -> Seq<Seq<char>>
    decreases s.len(),
{
    if s.len() == 0 {
        close(cur)
    } else if quoted {
        if s[0] == '\'' {
            scan_words(s.drop_first(), cur, false)
        } else {
            scan_words(s.drop_first(), extend(cur, s[0]), true)
        }
    } else if s[0] == '\\' && s.len() >= 2 {
        if s[1] == '\n' {
            scan_words(s.subrange(2, s.len() as int), cur, false)
        } else {
            scan_words(s.subrange(2, s.len() as int), extend(cur, s[1]), false)
        }
    } else if s[0] == '\'' {
        scan_words(s.drop_first(), Some(cur.unwrap_or(seq![])), true)
    } else if is_blank(s[0]) {
        close(cur) + scan_words(s.drop_first(), None, false)
    } else {
        scan_words(s.drop_first(), extend(cur, s[0]), false)
    }
}

/// The words that a POSIX shell reads from `s` outside quotes, given the
/// word it is in the middle of.
pub open spec fn read_words(s: Seq<char>, cur: Option<Seq<char>>) -> Seq<Seq<char>> {
    scan_words(s, cur, false)
}

/// The words that a POSIX shell reads from `s`.
pub open spec fn shell_words(s: Seq<char>) -> Seq<Seq<char>> {
    read_words(s, None)
}

/// An argument that a shell can get back from its escaped form: a word
/// made of no characters leaves nothing for the shell to read.
pub open spec fn is_quotable(a: Seq<char>) -> bool {
    a.len() > 0
}

proof fn lemma_read_escaped_char(c: char, rest: Seq<char>, cur: Option<Seq<char>>)
    ensures
        read_words(escape_char(c) + rest, cur) == read_words(rest, extend(cur, c)),
{
    let s = escape_char(c) + rest;
    if is_plain(c) {
        assert(s.drop_first() == rest);
    } else if c == '\n' {
        let w = cur.unwrap_or(seq![]);
        let s1 = s.drop_first();
        let s2 = s1.drop_first();
        assert(s2.drop_first() == rest);
        assert(s[0] == '\'' && s1[0] == '\n' && s2[0] == '\'');
        assert(scan_words(s, cur, false) == scan_words(s1, Some(w), true));
        assert(scan_words(s1, Some(w), true) == scan_words(s2, extend(Some(w), c), true));
        assert(scan_words(s2, extend(Some(w), c), true) == scan_words(
            rest,
            extend(Some(w), c),
            false,
        ));
        assert(extend(Some(w), c) == extend(cur, c)) by {
            if cur is None {
                assert(seq![].push(c) == seq![c]);
            }
        }
    } else {
        assert(s.subrange(2, s.len() as int) == rest);
    }
}

proof fn lemma_read_escaped_word(a: Seq<char>, rest: Seq<char>, cur: Option<Seq<char>>)
    requires
        a.len() > 0 || cur is Some,
    ensures
        read_words(escape_word(a) + rest, cur) == read_words(
            rest,
            Some(cur.unwrap_or(seq![]) + a),
        ),
    decreases a.len(),
{
    let w = cur.unwrap_or(seq![]);
    if a.len() == 0 {
        assert(escape_word(a) + rest == rest);
        assert(w + a == w);
    } else {
        let front = a.drop_last();
        let c = a.last();
        let tail = escape_char(c) + rest;
        assert(escape_word(a) + rest == escape_word(front) + tail);
        let mid = if front.len() == 0 && cur is None {
            None
        } else {
            Some(w + front)
        };
        if front.len() == 0 && cur is None {
            assert(escape_word(front) + tail == tail);
        } else {
            lemma_read_escaped_word(front, tail, cur);
        }
        lemma_read_escaped_char(c, rest, mid);
        assert(w + a == (w + front).push(c));
        if front.len() == 0 && cur is None {
            assert(a == seq![c]);
        }
    }
}

proof fn lemma_read_escaped_words(args: Seq<Seq<char>>, rest: Seq<char>)
    requires
        args.len() > 0,
        forall|k: int| 0 <= k < args.len() ==> is_quotable(#[trigger] args[k]),
    ensures
        read_words(escape_words(args) + rest, None) == args.drop_last() + read_words(
            rest,
            Some(args.last()),
        ),
    decreases args.len(),
{
    if args.len() == 1 {
        lemma_read_escaped_word(args[0], rest, None);
        assert(seq![] + args[0] == args[0]);
        assert(args.drop_last() + read_words(rest, Some(args.last())) == read_words(
            rest,
            Some(args.last()),
        ));
    } else {
        let front = args.drop_last();
        let x = args.last();
        assert(is_quotable(args[args.len() - 1]));
        let after = escape_word(x) + rest;
        let tail = seq![' '] + after;
        assert(escape_words(args) + rest == escape_words(front) + tail);
        assert(forall|k: int| 0 <= k < front.len() ==> front[k] == args[k]);
        lemma_read_escaped_words(front, tail);
        assert(tail.drop_first() == after);
        lemma_read_escaped_word(x, rest, None);
        assert(seq![] + x == x);
        assert(front.drop_last() + seq![front.last()] == front);
        assert(front.drop_last() + (seq![front.last()] + read_words(rest, Some(x))) == front
            + read_words(rest, Some(x)));
    }
}

/// A shell splits the escaped and joined arguments back into exactly the
/// arguments it was given, whatever characters they hold (blanks, quotes,
/// backslashes and newlines included), so long as none is empty; `$` is
/// read literally, as the quoting assumes.
pub proof fn lemma_escape_round_trip(args: Seq<Seq<char>>)
    requires
        forall|k: int| 0 <= k < args.len() ==> is_quotable(#[trigger] args[k]),
    ensures
        shell_words(escape_words(args)) == args,
{
    if args.len() > 0 {
        lemma_read_escaped_words(args, seq![]);
        assert(escape_words(args) + seq![] == escape_words(args));
        assert(args.drop_last() + seq![args.last()] == args);
    }
}

/// An argument made of plain characters alone is left as it is.
pub proof fn lemma_plain_word_unchanged(a: Seq<char>)
    requires
        forall|i: int| 0 <= i < a.len() ==> is_plain(#[trigger] a[i]),
    ensures
        escape_word(a) == a,
    decreases a.len(),
{
    if a.len() > 0 {
        lemma_plain_word_unchanged(a.drop_last());
        assert(a.drop_last().push(a.last()) == a);
    }
}

} // verus!
