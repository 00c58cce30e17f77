//! Splitting text into lines the way `str::lines` does: a line ends at
//! `\n`, a `\r` right before that `\n` is not part of the line, and a final
//! line ending is optional.
use vstd::prelude::*;

verus! {

/// Index of the first `\n` in `s`, or `s.len()` where there is none.
pub open spec fn newline_pos(s: Seq<char>) -> nat
    decreases s.len(),
{
    if s.len() == 0 {
        0
    } else if s[0] == '\n' {
        0
    } else {
        1 + newline_pos(s.drop_first())
    }
}

/// `l` without one `\r` at its end.
pub open spec fn strip_cr(l: Seq<char>) -> Seq<char> {
    if l.len() > 0 && l.last() == '\r' {
        l.drop_last()
    } else {
        l
    }
}

/// Only a final `\r` is removed: a line ending in any other character
/// stays as it is, one ending in `\r` loses just that `\r`, and the empty
/// line stays empty.
pub proof fn lemma_strip_cr_only_final_cr(l: Seq<char>, c: char)
    ensures
        c != '\r' ==> strip_cr(l.push(c)) == l.push(c),
        strip_cr(l.push('\r')) == l,
        strip_cr(Seq::<char>::empty()) == Seq::<char>::empty(),
{
    assert(l.push('\r').drop_last() =~= l);
}

/// The lines of `s`: each `\n`-terminated piece without its `\r\n` or `\n`,
/// then the rest after the last `\n`, if it is not empty, as it stands.
#[verifier::opaque]
pub open spec fn text_lines(s: Seq<char>) -> Seq<Seq<char>>
    decreases s.len(),
{
    if s.len() == 0 {
        seq![]
    } else {
        let k = newline_pos(s);
        if k >= s.len() {
            seq![s]
        } else {
            seq![strip_cr(s.take(k as int))] + text_lines(s.skip((k + 1) as int))
        }
    }
}

/// Where the first `k` characters hold no `\n` and `k` is the end or a `\n`,
/// the first `\n` stands at `k`.
pub proof fn lemma_newline_pos(t: Seq<char>, k: int)
    requires
        0 <= k <= t.len(),
        forall|j: int| 0 <= j < k ==> t[j] != '\n',
        k < t.len() ==> t[k] == '\n',
    ensures
        newline_pos(t) == k,
    decreases k,
{
    if k > 0 {
        assert(t[0] != '\n');
        let r = t.drop_first();
        assert forall|j: int| 0 <= j < k - 1 implies r[j] != '\n' by {
            assert(r[j] == t[j + 1]);
        }
        if k - 1 < r.len() {
            assert(r[k - 1] == t[k]);
        }
        lemma_newline_pos(r, k - 1);
    }
}

/// Splits `s` into its lines.
pub fn split_lines(s: &str) -> (lines: Vec<&str>)
    ensures
        lines@.map_values(|l: &str| l@) == text_lines(s@),
{
    reveal(text_lines);
    let n = s.unicode_len();
    let mut lines: Vec<&str> = Vec::new();
    let mut start: usize = 0;
    let mut i: usize = 0;
    assert(s@.skip(0) =~= s@);
    while i < n
        invariant
            n == s@.len(),
            start <= i <= n,
            forall|j: int| start <= j < i ==> s@[j] != '\n',
            text_lines(s@) =~= lines@.map_values(|l: &str| l@) + text_lines(s@.skip(start as int)),
        decreases n - i,
    {
        let c = s.get_char(i);
        if c == '\n' {
            let ghost t = s@.skip(start as int);
            proof {
                reveal(text_lines);
                assert forall|j: int| 0 <= j < i - start implies t[j] != '\n' by {
                    assert(t[j] == s@[start + j]);
                }
                assert(t[i - start] == s@[i as int]);
                lemma_newline_pos(t, i - start);
            }
            let mut end: usize = i;
            if i > start {
                let p = s.get_char(i - 1);
                if p == '\r' {
                    end = i - 1;
                }
            }
            let line = s.substring_char(start, end);
            proof {
                assert(t.take(i - start) =~= s@.subrange(start as int, i as int));
                assert(line@ =~= strip_cr(t.take(i - start)));
                assert(t.skip(i - start + 1) =~= s@.skip(i + 1));
            }
            lines.push(line);
            start = i + 1;
        }
        i = i + 1;
    }
    let ghost t = s@.skip(start as int);
    if start < n {
        proof {
            reveal(text_lines);
            assert forall|j: int| 0 <= j < t.len() implies t[j] != '\n' by {
                assert(t[j] == s@[start + j]);
            }
            lemma_newline_pos(t, t.len() as int);
        }
        let line = s.substring_char(start, n);
        assert(line@ =~= t);
        lines.push(line);
    } else {
        assert(t.len() == 0);
    }
    lines
}

/// A line with no `\n` followed by a `\n` is the first line, without a
/// `\r` at its end.
pub proof fn lemma_lines_cons(a: Seq<char>, rest: Seq<char>)
    requires
        forall|i: int| 0 <= i < a.len() ==> a[i] != '\n',
    ensures
        text_lines(a + seq!['\n'] + rest) == seq![strip_cr(a)] + text_lines(rest),
{
    reveal(text_lines);
    let s = a + seq!['\n'] + rest;
    assert forall|j: int| 0 <= j < a.len() implies s[j] != '\n' by {
        assert(s[j] == a[j]);
    }
    assert(s[a.len() as int] == '\n');
    lemma_newline_pos(s, a.len() as int);
    assert(s.take(a.len() as int) =~= a);
    assert(s.skip((a.len() + 1) as int) =~= rest);
}

/// Text with no `\n` that is not empty is one line.
pub proof fn lemma_lines_single(a: Seq<char>)
    requires
        a.len() > 0,
        forall|i: int| 0 <= i < a.len() ==> a[i] != '\n',
    ensures
        text_lines(a) == seq![a],
{
    reveal(text_lines);
    lemma_newline_pos(a, a.len() as int);
}

/// A line that ends in `\r\n` reads as the same line ending in `\n`.
pub proof fn lemma_crlf_reads_as_lf(a: Seq<char>, rest: Seq<char>)
    requires
        forall|i: int| 0 <= i < a.len() ==> a[i] != '\n',
        strip_cr(a) == a,
    ensures
        text_lines(a + seq!['\r'] + seq!['\n'] + rest) == text_lines(a + seq!['\n'] + rest),
{
    let b = a + seq!['\r'];
    assert forall|i: int| 0 <= i < b.len() implies b[i] != '\n' by {
        if i < a.len() {
            assert(b[i] == a[i]);
        }
    }
    lemma_lines_cons(b, rest);
    lemma_lines_cons(a, rest);
    assert(b.drop_last() =~= a);
}

} // verus!
