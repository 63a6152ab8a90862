//! Lines of input and their terminators.
//!
//! A line read hands over the characters up to and including the next
//! `'\n'`, or up to the end of the input where no `'\n'` is left. The
//! terminator is that `'\n'`, together with a `'\r'` that stands directly
//! before it.

use vstd::prelude::*;
use vstd::string::*;

verus! {

/// `s` is not empty and its last character is `c`.
pub open spec fn ends_with(s: Seq<char>, c: char) -> bool {
    s.len() > 0 && s.last() == c
}

/// `c` occurs somewhere in `s`.
pub open spec fn has_char(s: Seq<char>, c: char) -> bool {
    exists|i: int| 0 <= i < s.len() && #[trigger] s[i] == c
}

/// `s` is what one line read can hand over: no `'\n'` stands anywhere but
/// in the last place.
pub open spec fn is_raw_line(s: Seq<char>) -> bool {
    forall|i: int| 0 <= i < s.len() - 1 ==> #[trigger] s[i] != '\n'
}

/// `s` without its terminator: one trailing `'\n'` is taken away, and with
/// it one `'\r'` that stood directly before it. A text that does not end in
/// `'\n'` is left as it is, whatever else it ends in.
pub open spec fn stripped(s: Seq<char>) -> Seq<char> {
    if ends_with(s, '\n') {
        let body = s.drop_last();
        if ends_with(body, '\r') {
            body.drop_last()
        } else {
            body
        }
    } else {
        s
    }
}

/// Strips the terminator from a line.
pub fn strip_terminator(line: &str) -> (out: &str)
    ensures
        out@ == stripped(line@),
{
    let n: usize = line.unicode_len();
    if n == 0 || line.get_char(n - 1) != '\n' {
        line
    } else if n >= 2 && line.get_char(n - 2) == '\r' {
        let out = line.substring_char(0, n - 2);
        assert(out@ =~= line@.drop_last().drop_last());
        out
    } else {
        let out = line.substring_char(0, n - 1);
        assert(out@ =~= line@.drop_last());
        out
    }
}

/// Stripping takes characters from the end only, and at most two of them:
/// what stands before the terminator is kept as it is, a `'\r'` or `'\n'`
/// in it too.
pub proof fn lemma_stripped_is_prefix(s: Seq<char>)
    ensures
        s.len() - 2 <= stripped(s).len() <= s.len(),
        stripped(s) == s.subrange(0, stripped(s).len() as int),
        stripped(s).len() < s.len() <==> ends_with(s, '\n'),
        stripped(s).len() == s.len() - 2 <==> ends_with(s, '\n') && ends_with(s.drop_last(), '\r'),
{
    assert(stripped(s) =~= s.subrange(0, stripped(s).len() as int));
}

/// What is left of a line after stripping holds no `'\n'`.
pub proof fn lemma_stripped_line_has_no_newline(raw: Seq<char>)
    requires
        is_raw_line(raw),
    ensures
        !has_char(stripped(raw), '\n'),
{
    lemma_stripped_is_prefix(raw);
    let rest = stripped(raw);
    assert forall|i: int| 0 <= i < rest.len() implies rest[i] != '\n' by {
        assert(rest[i] == raw[i]);
    }
}

/// A line that ends in `'\n'` alone is handed back without it: for every
/// `l` that does not itself end in `'\r'`, stripping `l` followed by `'\n'`
/// gives `l`. (Where `l` ends in `'\r'`, that `'\r'` stands directly before
/// the `'\n'` and leaves with it.)
pub proof fn lemma_newline_is_stripped(l: Seq<char>)
    requires
        !ends_with(l, '\r'),
    ensures
        stripped(l + seq!['\n']) == l,
{
    let raw = l + seq!['\n'];
    assert(raw.drop_last() =~= l);
}

/// A line that ends in `'\r'` and `'\n'` is handed back without either:
/// for every `l`, stripping `l` followed by `'\r'` and `'\n'` gives `l`.
pub proof fn lemma_carriage_return_newline_is_stripped(l: Seq<char>)
    ensures
        stripped(l + seq!['\r', '\n']) == l,
{
    let raw = l + seq!['\r', '\n'];
    assert(raw.drop_last() =~= l.push('\r'));
    assert(raw.drop_last().drop_last() =~= l);
}

/// What was cut short by the end of the input is handed back as it is: a
/// text that does not end in `'\n'` is its own stripped form, a trailing
/// `'\r'` included.
pub proof fn lemma_unterminated_is_unchanged(l: Seq<char>)
    requires
        !ends_with(l, '\n'),
    ensures
        stripped(l) == l,
{
}

/// The forms of a line: a text without `'\n'` is a line as it stands, cut
/// short by the end of the input, and it is a line with `'\n'` behind it,
/// or with `'\r'` and `'\n'`.
pub proof fn lemma_forms_of_a_line(l: Seq<char>)
    requires
        !has_char(l, '\n'),
    ensures
        is_raw_line(l),
        is_raw_line(l + seq!['\n']),
        is_raw_line(l + seq!['\r', '\n']),
{
    let a = l + seq!['\n'];
    let b = l + seq!['\r', '\n'];
    assert forall|i: int| 0 <= i < a.len() - 1 implies #[trigger] a[i] != '\n' by {
        assert(a[i] == l[i]);
    }
    assert forall|i: int| 0 <= i < b.len() - 1 implies #[trigger] b[i] != '\n' by {
        if i < l.len() {
            assert(b[i] == l[i]);
        }
    }
}

} // verus!
