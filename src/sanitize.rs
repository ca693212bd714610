//! Recovering a file name from transcribed speech: the spoken word "dot"
//! becomes ".", spacing is normalised and spaces around dots go away.
use vstd::prelude::*;
use crate::words::{is_space, is_space_char, join_from, join_spaced, same_text, scan, split_words, texts, words};

verus! {

/// `s` with each occurrence of `pat`, taken from the left without overlap,
/// replaced by `rep`.
pub open spec fn replaced(s: Seq<char>, pat: Seq<char>, rep: Seq<char>) -> Seq<char>
    decreases s.len(),
{
    if pat.len() == 0 || s.len() < pat.len() {
        s
    } else if s.subrange(0, pat.len() as int) == pat {
        rep + replaced(s.skip(pat.len() as int), pat, rep)
    } else {
        seq![s[0]] + replaced(s.skip(1), pat, rep)
    }
}

/// `s` without its leading whitespace.
pub open spec fn trim_start(s: Seq<char>) -> Seq<char>
    decreases s.len(),
{
    if s.len() > 0 && is_space(s[0]) {
        trim_start(s.skip(1))
    } else {
        s
    }
}

/// `s` without its trailing whitespace.
pub open spec fn trim_end(s: Seq<char>) -> Seq<char>
    decreases s.len(),
{
    if s.len() > 0 && is_space(s.last()) {
        trim_end(s.drop_last())
    } else {
        s
    }
}

/// `s` without whitespace at either end.
pub open spec fn trimmed(s: Seq<char>) -> Seq<char> {
    trim_end(trim_start(s))
}

/// The file name that the transcribed text `s` stands for.
pub open spec fn sanitized(s: Seq<char>) -> Seq<char> {
    let spoken = replaced(s, "dot"@, "."@);
    let spaced = join_spaced(words(spoken));
    trimmed(replaced(replaced(spaced, " ."@, "."@), ". "@, "."@))
}

/// `s` with each occurrence of `pat` replaced by `rep`, left to right.
pub fn replace_all(s: &str, pat: &str, rep: &str) -> (r: String)
    requires
        pat@.len() > 0,
    ensures
        r@ == replaced(s@, pat@, rep@),
{
    let n = s.unicode_len();
    let m = pat.unicode_len();
    let mut out = String::new();
    let mut i: usize = 0;
    assert(s@.skip(0) =~= s@);
    assert(out@ + replaced(s@, pat@, rep@) =~= replaced(s@, pat@, rep@));
    while i < n
        invariant
            n == s@.len(),
            m == pat@.len(),
            m > 0,
            i <= n,
            out@ + replaced(s@.skip(i as int), pat@, rep@) == replaced(s@, pat@, rep@),
        decreases n - i,
    {
        let ghost rest = s@.skip(i as int);
        if n - i < m {
            out.append(s.substring_char(i, n));
            proof {
                assert(s@.subrange(i as int, n as int) =~= rest);
                assert(s@.skip(n as int) =~= Seq::<char>::empty());
            }
            i = n;
        } else if same_text(s.substring_char(i, i + m), pat) {
            out.append(rep);
            proof {
                assert(rest.subrange(0, m as int) =~= s@.subrange(i as int, i + m));
                assert(rest.skip(m as int) =~= s@.skip(i + m));
                assert(out@ + replaced(s@.skip(i + m), pat@, rep@) =~= (out@.subrange(
                    0,
                    out@.len() - rep@.len(),
                ) + (rep@ + replaced(rest.skip(m as int), pat@, rep@))));
            }
            i = i + m;
        } else {
            out.append(s.substring_char(i, i + 1));
            proof {
                assert(rest.subrange(0, m as int) =~= s@.subrange(i as int, i + m));
                assert(rest.skip(1) =~= s@.skip(i + 1));
                assert(s@.subrange(i as int, i + 1) =~= seq![rest[0]]);
                assert(out@ + replaced(s@.skip(i + 1), pat@, rep@) =~= (out@.subrange(
                    0,
                    out@.len() - 1,
                ) + (seq![rest[0]] + replaced(rest.skip(1), pat@, rep@))));
            }
            i = i + 1;
        }
    }
    proof {
        assert(s@.skip(n as int) =~= Seq::<char>::empty());
        assert(out@ =~= out@ + Seq::<char>::empty());
    }
    out
}

/// `s` without whitespace at either end.
pub fn trim(s: &str) -> (r: String)
    ensures
        r@ == trimmed(s@),
{
    let n = s.unicode_len();
    let mut a: usize = 0;
    assert(s@.skip(0) =~= s@);
    while a < n && is_space_char(s.get_char(a))
        invariant
            n == s@.len(),
            a <= n,
            trim_start(s@) == trim_start(s@.skip(a as int)),
        decreases n - a,
    {
        assert(s@.skip(a as int).skip(1) =~= s@.skip(a + 1));
        a = a + 1;
    }
    let mut b: usize = n;
    while b > a && is_space_char(s.get_char(b - 1))
        invariant
            n == s@.len(),
            a <= b <= n,
            trim_start(s@) == s@.skip(a as int),
            trim_end(s@.skip(a as int)) == trim_end(s@.subrange(a as int, b as int)),
        decreases b - a,
    {
        assert(s@.subrange(a as int, b as int).drop_last() =~= s@.subrange(a as int, b - 1));
        b = b - 1;
    }
    proof {
        if a == n {
            assert(s@.skip(a as int) =~= Seq::<char>::empty());
        }
        assert(s@.skip(a as int) =~= s@.subrange(a as int, n as int));
    }
    String::from_str(s.substring_char(a, b))
}

/// `s` without whitespace at its end.
pub fn trim_end_text(s: &str) -> (r: String)
    ensures
        r@ == trim_end(s@),
{
    let n = s.unicode_len();
    let mut b: usize = n;
    assert(s@.subrange(0, n as int) =~= s@);
    while b > 0 && is_space_char(s.get_char(b - 1))
        invariant
            n == s@.len(),
            b <= n,
            trim_end(s@) == trim_end(s@.subrange(0, b as int)),
        decreases b,
    {
        assert(s@.subrange(0, b as int).drop_last() =~= s@.subrange(0, b - 1));
        b = b - 1;
    }
    String::from_str(s.substring_char(0, b))
}

/// The length of the first line of `s`, without its line break.
pub open spec fn line_len(s: Seq<char>) -> nat
    decreases s.len(),
{
    if s.len() == 0 || s[0] == '\n' {
        0
    } else {
        1 + line_len(s.skip(1))
    }
}

/// `s` with the whitespace at the end of each line removed; line breaks stay.
pub open spec fn lines_trimmed(s: Seq<char>) -> Seq<char>
    decreases s.len(),
{
    let k = line_len(s);
    if k >= s.len() {
        trim_end(s)
    } else {
        trim_end(s.subrange(0, k as int)) + seq!['\n'] + lines_trimmed(s.skip(k as int + 1))
    }
}

/// A first line that runs to the first line break at `k`, or to the end.
proof fn lemma_line_len(s: Seq<char>, k: int)
    requires
        0 <= k <= s.len(),
        forall|j: int| 0 <= j < k ==> s[j] != '\n',
        k < s.len() ==> s[k] == '\n',
    ensures
        line_len(s) == k,
    decreases k,
{
    if k > 0 {
        lemma_line_len(s.skip(1), k - 1);
    }
}

/// `s` with the whitespace at the end of each line removed.
pub fn trim_line_ends(s: &str) -> (r: String)
    ensures
        r@ == lines_trimmed(s@),
{
    let n = s.unicode_len();
    let mut out = String::new();
    let mut start: usize = 0;
    let mut i: usize = 0;
    assert(s@.skip(0) =~= s@);
    assert(out@ + lines_trimmed(s@) =~= lines_trimmed(s@));
    while i < n
        invariant
            n == s@.len(),
            start <= i <= n,
            forall|j: int| start <= j < i ==> s@[j] != '\n',
            out@ + lines_trimmed(s@.skip(start as int)) == lines_trimmed(s@),
        decreases n - i,
    {
        if s.get_char(i) == '\n' {
            let ghost t = s@.skip(start as int);
            proof {
                lemma_line_len(t, i - start);
                assert(t.subrange(0, i - start) =~= s@.subrange(start as int, i as int));
                assert(t.skip(i - start + 1) =~= s@.skip(i + 1));
            }
            let line = trim_end_text(s.substring_char(start, i));
            let ghost before = out@;
            out.append(line.as_str());
            out.append("\n");
            proof {
                reveal_strlit("\n");
                assert(out@ + lines_trimmed(s@.skip(i + 1)) =~= before + lines_trimmed(t));
            }
            start = i + 1;
        }
        i = i + 1;
    }
    let ghost t = s@.skip(start as int);
    proof {
        lemma_line_len(t, n - start);
        assert(t =~= s@.subrange(start as int, n as int));
    }
    let last = trim_end_text(s.substring_char(start, n));
    out.append(last.as_str());
    out
}

/// The file name that a transcribed argument stands for: each "dot" becomes
/// ".", runs of whitespace become one space, a space next to a "." goes, and
/// the ends are trimmed.
pub fn clean_filename(arg: &str) -> (r: String)
    ensures
        r@ == sanitized(arg@),
{
    proof {
        reveal_strlit("dot");
        reveal_strlit(" .");
        reveal_strlit(". ");
    }
    let spoken = replace_all(arg, "dot", ".");
    let ws = split_words(spoken.as_str());
    let spaced = join_from(&ws, 0);
    proof {
        assert(texts(ws@).subrange(0, ws@.len() as int) =~= texts(ws@));
    }
    let before = replace_all(spaced.as_str(), " .", ".");
    let after = replace_all(before.as_str(), ". ", ".");
    trim(after.as_str())
}

/// `pat` occurs somewhere in `s`.
pub open spec fn occurs(s: Seq<char>, pat: Seq<char>) -> bool {
    exists|i: int| 0 <= i && i + pat.len() <= s.len() && #[trigger] s.subrange(i, i + pat.len()) == pat
}

/// `s` is spaced as the sanitizer leaves it: its only whitespace is single
/// spaces, each between two other characters.
pub open spec fn single_spaced(s: Seq<char>) -> bool {
    forall|i: int|
        0 <= i < s.len() && #[trigger] is_space(s[i]) ==> s[i] == ' ' && 0 < i < s.len() - 1 && !is_space(
            s[i - 1],
        ) && !is_space(s[i + 1])
}

/// `s` is a name that the sanitizer would leave as it is: no "dot", no
/// space beside a ".", and single inner spaces only.
pub open spec fn clean_name(s: Seq<char>) -> bool {
    &&& !occurs(s, "dot"@)
    &&& !occurs(s, " ."@)
    &&& !occurs(s, ". "@)
    &&& single_spaced(s)
}

/// Replacing a pattern that does not occur changes nothing.
proof fn lemma_replace_absent(s: Seq<char>, pat: Seq<char>, rep: Seq<char>)
    requires
        pat.len() > 0,
        !occurs(s, pat),
    ensures
        replaced(s, pat, rep) == s,
    decreases s.len(),
{
    if s.len() >= pat.len() {
        assert(s.subrange(0, pat.len() as int) != pat) by {
            if s.subrange(0, pat.len() as int) == pat {
                assert(s.subrange(0int, 0int + pat.len()) == pat);
                assert(occurs(s, pat));
            }
        }
        let t = s.skip(1);
        assert(!occurs(t, pat)) by {
            if occurs(t, pat) {
                let i = choose|i: int| 0 <= i && i + pat.len() <= t.len() && #[trigger] t.subrange(i, i + pat.len()) == pat;
                assert(s.subrange(i + 1, i + 1 + pat.len()) =~= t.subrange(i, i + pat.len()));
            }
        }
        lemma_replace_absent(t, pat, rep);
        assert(seq![s[0]] + t =~= s);
    }
}

/// What scanning a single-spaced text has seen so far, joined back, is the
/// text read so far.
proof fn lemma_scan_single_spaced(s: Seq<char>, n: nat)
    requires
        single_spaced(s),
        n <= s.len(),
    ensures
        ({
            let (done, open) = scan(s, n);
            if n > 0 && is_space(s[n - 1]) {
                open.len() == 0 && done.len() > 0 && join_spaced(done) + seq![' '] == s.subrange(0, n as int)
            } else if done.len() == 0 {
                open == s.subrange(0, n as int)
            } else {
                join_spaced(done) + seq![' '] + open == s.subrange(0, n as int) && (n > 0 ==> open.len() > 0)
            }
        }),
    decreases n,
{
    if n > 0 {
        let m = (n - 1) as nat;
        lemma_scan_single_spaced(s, m);
        let (done, open) = scan(s, m);
        let c = s[m as int];
        assert(s.subrange(0, n as int) =~= s.subrange(0, m as int).push(c));
        if is_space(c) {
            assert(m > 0 && !is_space(s[m - 1]));
            let nd = done.push(open);
            assert(nd.drop_last() =~= done);
            if done.len() == 0 {
                assert(join_spaced(nd) == open);
            }
            assert(join_spaced(nd) + seq![' '] =~= s.subrange(0, n as int));
        } else {
            if m > 0 && is_space(s[m - 1]) {
                assert(join_spaced(done) + seq![' '] + open.push(c) =~= s.subrange(0, n as int));
            } else if done.len() == 0 {
                assert(open.push(c) =~= s.subrange(0, n as int));
            } else {
                assert(join_spaced(done) + seq![' '] + open.push(c) =~= s.subrange(0, n as int));
            }
        }
    } else {
        assert(s.subrange(0, 0) =~= Seq::<char>::empty());
    }
}

/// Splitting a single-spaced text into words and joining them again gives
/// the text back.
proof fn lemma_rejoin_single_spaced(s: Seq<char>)
    requires
        single_spaced(s),
    ensures
        join_spaced(words(s)) == s,
{
    lemma_scan_single_spaced(s, s.len());
    assert(s.subrange(0, s.len() as int) =~= s);
    let (done, open) = scan(s, s.len());
    if s.len() > 0 {
        assert(!is_space(s[s.len() - 1]));
    }
    if open.len() > 0 {
        let nd = done.push(open);
        assert(nd.drop_last() =~= done);
    }
}

/// Trimming a single-spaced text changes nothing.
proof fn lemma_trim_single_spaced(s: Seq<char>)
    requires
        single_spaced(s),
    ensures
        trimmed(s) == s,
{
    if s.len() > 0 {
        assert(!is_space(s[0]));
        assert(!is_space(s.last()));
    }
}

/// A name that is already clean comes through the sanitizer unchanged.
pub proof fn clean_name_is_kept(s: Seq<char>)
    requires
        clean_name(s),
    ensures
        sanitized(s) == s,
{
    reveal_strlit("dot");
    reveal_strlit(".");
    reveal_strlit(" .");
    reveal_strlit(". ");
    lemma_replace_absent(s, "dot"@, "."@);
    lemma_rejoin_single_spaced(s);
    lemma_replace_absent(s, " ."@, "."@);
    lemma_replace_absent(s, ". "@, "."@);
    lemma_trim_single_spaced(s);
}

/// The only whitespace in `s` is the plain space.
pub open spec fn plain_spaces(s: Seq<char>) -> bool {
    forall|i: int| 0 <= i < s.len() && #[trigger] is_space(s[i]) ==> s[i] == ' '
}

/// No two characters in a row of `s` are `a` then `b`.
pub open spec fn no_pair(s: Seq<char>, a: char, b: char) -> bool {
    forall|i: int| 0 <= i < s.len() - 1 ==> !(#[trigger] s[i] == a && s[i + 1] == b)
}

/// No three characters in a row of `s` spell "dot".
pub open spec fn no_dot_word(s: Seq<char>) -> bool {
    forall|i: int| 0 <= i < s.len() - 2 ==> !(#[trigger] s[i] == 'd' && s[i + 1] == 'o' && s[i + 2] == 't')
}

/// `s` neither starts nor ends with a space.
pub open spec fn no_edge_space(s: Seq<char>) -> bool {
    s.len() > 0 ==> s[0] != ' ' && s.last() != ' '
}

/// The first character after replacing "dot" by ".": a "." where a "dot"
/// starts, else the first character itself, followed by the rest replaced.
proof fn lemma_dot_head(t: Seq<char>)
    requires
        t.len() > 0,
    ensures
        replaced(t, "dot"@, "."@).len() > 0,
        replaced(t, "dot"@, "."@)[0] != '.' ==> replaced(t, "dot"@, "."@) == seq![t[0]] + replaced(
            t.skip(1),
            "dot"@,
            "."@,
        ),
{
    reveal_strlit("dot");
    reveal_strlit(".");
    if t.len() < 3 {
        lemma_short_replace(t.skip(1), "dot"@, "."@);
        assert(seq![t[0]] + t.skip(1) =~= t);
    }
}

/// A text shorter than the pattern is left as it is.
proof fn lemma_short_replace(t: Seq<char>, pat: Seq<char>, rep: Seq<char>)
    requires
        t.len() < pat.len(),
    ensures
        replaced(t, pat, rep) == t,
{
}

/// Replacing "dot" by "." leaves no "dot".
proof fn lemma_no_dot_after_replace(t: Seq<char>)
    ensures
        no_dot_word(replaced(t, "dot"@, "."@)),
    decreases t.len(),
{
    reveal_strlit("dot");
    reveal_strlit(".");
    let r = replaced(t, "dot"@, "."@);
    if t.len() >= 3 {
        if t.subrange(0, 3) == "dot"@ {
            lemma_no_dot_after_replace(t.skip(3));
            let rest = replaced(t.skip(3), "dot"@, "."@);
            assert(r == seq!['.'] + rest);
            assert forall|i: int| 0 <= i < r.len() - 2 implies !(#[trigger] r[i] == 'd' && r[i + 1] == 'o'
                && r[i + 2] == 't') by {
                if i > 0 {
                    assert(r[i] == rest[i - 1]);
                }
            }
        } else {
            lemma_no_dot_after_replace(t.skip(1));
            let rest = replaced(t.skip(1), "dot"@, "."@);
            assert(r == seq![t[0]] + rest);
            assert forall|i: int| 0 <= i < r.len() - 2 implies !(#[trigger] r[i] == 'd' && r[i + 1] == 'o'
                && r[i + 2] == 't') by {
                if i > 0 {
                    assert(r[i] == rest[i - 1]);
                } else if r[0] == 'd' && r[1] == 'o' && r[2] == 't' {
                    lemma_dot_head(t.skip(1));
                    assert(rest[0] == 'o');
                    assert(rest == seq![t[1]] + replaced(t.skip(1).skip(1), "dot"@, "."@));
                    assert(t.skip(1).skip(1) =~= t.skip(2));
                    lemma_dot_head(t.skip(2));
                    assert(t.subrange(0, 3) =~= "dot"@);
                }
            }
        }
    }
}

/// Every word of `ws` is non-empty, holds no whitespace and no "dot".
pub open spec fn plain_words(ws: Seq<Seq<char>>) -> bool {
    forall|j: int|
        0 <= j < ws.len() ==> (#[trigger] ws[j]).len() > 0 && no_dot_word(ws[j]) && forall|i: int|
            0 <= i < ws[j].len() ==> !is_space(#[trigger] ws[j][i])
}

/// Part of a text without "dot" has none either.
proof fn lemma_no_dot_sub(s: Seq<char>, a: int, b: int)
    requires
        0 <= a <= b <= s.len(),
        no_dot_word(s),
    ensures
        no_dot_word(s.subrange(a, b)),
{
    let t = s.subrange(a, b);
    assert forall|i: int| 0 <= i < t.len() - 2 implies !(#[trigger] t[i] == 'd' && t[i + 1] == 'o' && t[i
        + 2] == 't') by {
        assert(t[i] == s[a + i] && t[i + 1] == s[a + i + 1] && t[i + 2] == s[a + i + 2]);
    }
}

/// While scanning a text without "dot", the open word is the end of what
/// was read, and every finished word is plain.
proof fn lemma_scan_plain(s: Seq<char>, n: nat)
    requires
        n <= s.len(),
        no_dot_word(s),
    ensures
        scan(s, n).1.len() <= n,
        scan(s, n).1 == s.subrange(n - scan(s, n).1.len(), n as int),
        forall|i: int| 0 <= i < scan(s, n).1.len() ==> !is_space(#[trigger] scan(s, n).1[i]),
        plain_words(scan(s, n).0),
    decreases n,
{
    if n > 0 {
        let m = (n - 1) as nat;
        lemma_scan_plain(s, m);
        let (done, open) = scan(s, m);
        let c = s[m as int];
        if is_space(c) {
            if open.len() > 0 {
                lemma_no_dot_sub(s, m - open.len(), m as int);
                let nd = done.push(open);
                assert forall|j: int| 0 <= j < nd.len() implies (#[trigger] nd[j]).len() > 0 && no_dot_word(
                    nd[j],
                ) && forall|i: int| 0 <= i < nd[j].len() ==> !is_space(#[trigger] nd[j][i]) by {
                    if j < done.len() {
                        assert(nd[j] == done[j]);
                    } else {
                        assert(nd[j] == open);
                    }
                }
            }
            assert(s.subrange(n as int, n as int) =~= Seq::<char>::empty());
        } else {
            let no = open.push(c);
            assert(no =~= s.subrange(n - no.len(), n as int));
            assert forall|i: int| 0 <= i < no.len() implies !is_space(#[trigger] no[i]) by {
                if i < open.len() {
                    assert(no[i] == open[i]);
                }
            }
        }
    } else {
        assert(s.subrange(0, 0) =~= Seq::<char>::empty());
    }
}

/// Plain words joined by single spaces give single-spaced text without
/// "dot".
proof fn lemma_join_plain(ws: Seq<Seq<char>>)
    requires
        plain_words(ws),
    ensures
        ws.len() > 0 ==> join_spaced(ws).len() > 0,
        plain_spaces(join_spaced(ws)),
        no_pair(join_spaced(ws), ' ', ' '),
        no_edge_space(join_spaced(ws)),
        no_dot_word(join_spaced(ws)),
    decreases ws.len(),
{
    if ws.len() == 1 {
        let w = ws[0];
        assert(join_spaced(ws) == w);
        assert(w.len() > 0 && !is_space(w[0]) && !is_space(w.last()));
    } else if ws.len() > 1 {
        let x = join_spaced(ws.drop_last());
        let y = ws.last();
        assert(plain_words(ws.drop_last())) by {
            assert forall|j: int| 0 <= j < ws.drop_last().len() implies (#[trigger] ws.drop_last()[j]).len()
                > 0 && no_dot_word(ws.drop_last()[j]) && forall|i: int|
                0 <= i < ws.drop_last()[j].len() ==> !is_space(#[trigger] ws.drop_last()[j][i]) by {
                assert(ws.drop_last()[j] == ws[j]);
            }
        }
        lemma_join_plain(ws.drop_last());
        assert(y == ws[ws.len() - 1]);
        let r = join_spaced(ws);
        assert(r == x + seq![' '] + y);
        let k = x.len() as int;
        assert(r[k] == ' ');
        assert forall|i: int| 0 <= i < r.len() implies (i < k ==> r[i] == x[i]) && (i > k ==> r[i] == y[i - k - 1]) by {}
        assert(!is_space(y[0]) && !is_space(y.last()));
        assert(!is_space(r[k + 1]));
        assert(r.last() == y.last());
        assert forall|i: int| 0 <= i < r.len() && #[trigger] is_space(r[i]) implies r[i] == ' ' by {
            if i < k {
                assert(r[i] == x[i]);
            } else if i > k {
                assert(r[i] == y[i - k - 1]);
            }
        }
        assert forall|i: int| 0 <= i < r.len() - 1 implies !(#[trigger] r[i] == ' ' && r[i + 1] == ' ') by {
            if i < k - 1 {
                assert(r[i] == x[i] && r[i + 1] == x[i + 1]);
            } else if i == k - 1 {
                assert(r[i] == x.last());
            } else if i > k {
                assert(r[i] == y[i - k - 1] && r[i + 1] == y[i - k]);
                assert(!is_space(y[i - k]));
            }
        }
        assert forall|i: int| 0 <= i < r.len() - 2 implies !(#[trigger] r[i] == 'd' && r[i + 1] == 'o' && r[i
            + 2] == 't') by {
            if i + 2 < k {
                assert(r[i] == x[i] && r[i + 1] == x[i + 1] && r[i + 2] == x[i + 2]);
            } else if i > k {
                assert(r[i] == y[i - k - 1] && r[i + 1] == y[i - k] && r[i + 2] == y[i - k + 1]);
            }
        }
    }
}

/// Splitting text without "dot" into words and joining them gives
/// single-spaced text without "dot".
proof fn lemma_collapse_plain(s: Seq<char>)
    requires
        no_dot_word(s),
    ensures
        plain_spaces(join_spaced(words(s))),
        no_pair(join_spaced(words(s)), ' ', ' '),
        no_edge_space(join_spaced(words(s))),
        no_dot_word(join_spaced(words(s))),
{
    lemma_scan_plain(s, s.len());
    let (done, open) = scan(s, s.len());
    if open.len() > 0 {
        lemma_no_dot_sub(s, s.len() - open.len(), s.len() as int);
        let nd = done.push(open);
        assert forall|j: int| 0 <= j < nd.len() implies (#[trigger] nd[j]).len() > 0 && no_dot_word(nd[j])
            && forall|i: int| 0 <= i < nd[j].len() ==> !is_space(#[trigger] nd[j][i]) by {
            if j < done.len() {
                assert(nd[j] == done[j]);
            } else {
                assert(nd[j] == open);
            }
        }
        lemma_join_plain(nd);
    } else {
        lemma_join_plain(done);
    }
}

/// What holds of every character, pair or triple of `t` holds of its tail.
proof fn lemma_local_tail(t: Seq<char>, k: int)
    requires
        0 <= k <= t.len(),
    ensures
        plain_spaces(t) ==> plain_spaces(t.skip(k)),
        no_pair(t, ' ', ' ') ==> no_pair(t.skip(k), ' ', ' '),
        no_pair(t, ' ', '.') ==> no_pair(t.skip(k), ' ', '.'),
        no_dot_word(t) ==> no_dot_word(t.skip(k)),
{
    let u = t.skip(k);
    assert forall|i: int| 0 <= i < u.len() implies #[trigger] u[i] == t[i + k] by {}
    if plain_spaces(t) {
        assert forall|i: int| 0 <= i < u.len() && #[trigger] is_space(u[i]) implies u[i] == ' ' by {
            assert(u[i] == t[i + k]);
        }
    }
    if no_pair(t, ' ', ' ') {
        assert forall|i: int| 0 <= i < u.len() - 1 implies !(#[trigger] u[i] == ' ' && u[i + 1] == ' ') by {
            assert(u[i] == t[i + k] && u[i + 1] == t[i + k + 1]);
        }
    }
    if no_pair(t, ' ', '.') {
        assert forall|i: int| 0 <= i < u.len() - 1 implies !(#[trigger] u[i] == ' ' && u[i + 1] == '.') by {
            assert(u[i] == t[i + k] && u[i + 1] == t[i + k + 1]);
        }
    }
    if no_dot_word(t) {
        assert forall|i: int| 0 <= i < u.len() - 2 implies !(#[trigger] u[i] == 'd' && u[i + 1] == 'o' && u[i
            + 2] == 't') by {
            assert(u[i] == t[i + k] && u[i + 1] == t[i + k + 1] && u[i + 2] == t[i + k + 2]);
        }
    }
}

/// How replacing " ." by "." starts.
proof fn lemma_space_dot_head(t: Seq<char>)
    requires
        t.len() > 0,
    ensures
        replaced(t, " ."@, "."@).len() > 0,
        t.len() >= 2 && t[0] == ' ' && t[1] == '.' ==> replaced(t, " ."@, "."@) == seq!['.'] + replaced(
            t.skip(2),
            " ."@,
            "."@,
        ),
        !(t.len() >= 2 && t[0] == ' ' && t[1] == '.') ==> replaced(t, " ."@, "."@) == seq![t[0]]
            + replaced(t.skip(1), " ."@, "."@),
{
    reveal_strlit(" .");
    reveal_strlit(".");
    if t.len() < 2 {
        lemma_short_replace(t.skip(1), " ."@, "."@);
        assert(seq![t[0]] + t.skip(1) =~= t);
    } else if t[0] == ' ' && t[1] == '.' {
        assert(t.subrange(0, 2) =~= " ."@);
    } else {
        assert(t.subrange(0, 2) != " ."@) by {
            if t.subrange(0, 2) == " ."@ {
                assert(t.subrange(0, 2)[0] == ' ' && t.subrange(0, 2)[1] == '.');
            }
        }
    }
}

/// Replacing " ." by "." keeps the last character.
proof fn lemma_space_dot_last(t: Seq<char>)
    requires
        t.len() > 0,
    ensures
        replaced(t, " ."@, "."@).len() > 0,
        replaced(t, " ."@, "."@).last() == t.last(),
    decreases t.len(),
{
    reveal_strlit(" .");
    lemma_space_dot_head(t);
    if t.len() >= 2 && t[0] == ' ' && t[1] == '.' {
        if t.len() > 2 {
            lemma_space_dot_last(t.skip(2));
        } else {
            assert(t.skip(2).len() == 0);
            lemma_short_replace(t.skip(2), " ."@, "."@);
        }
    } else if t.len() >= 2 {
        lemma_space_dot_last(t.skip(1));
    } else {
        lemma_short_replace(t.skip(1), " ."@, "."@);
    }
}

/// Replacing " ." by "." in single-spaced text without "dot" leaves no
/// space before a ".", and keeps the rest as it was.
proof fn lemma_space_dot_props(t: Seq<char>)
    requires
        plain_spaces(t),
        no_pair(t, ' ', ' '),
        no_dot_word(t),
    ensures
        plain_spaces(replaced(t, " ."@, "."@)),
        no_pair(replaced(t, " ."@, "."@), ' ', ' '),
        no_pair(replaced(t, " ."@, "."@), ' ', '.'),
        no_dot_word(replaced(t, " ."@, "."@)),
    decreases t.len(),
{
    reveal_strlit(" .");
    let r = replaced(t, " ."@, "."@);
    if t.len() == 0 {
        lemma_short_replace(t, " ."@, "."@);
    } else {
        lemma_space_dot_head(t);
        let k: int = if t.len() >= 2 && t[0] == ' ' && t[1] == '.' {
            2
        } else {
            1
        };
        let u = t.skip(k);
        lemma_local_tail(t, k);
        lemma_space_dot_props(u);
        let rest = replaced(u, " ."@, "."@);
        assert(r.len() == rest.len() + 1);
        assert forall|i: int| 0 < i < r.len() implies #[trigger] r[i] == rest[i - 1] by {}
        if k == 1 && rest.len() > 0 {
            lemma_space_dot_head(u);
        }
        assert forall|i: int| 0 <= i < r.len() && #[trigger] is_space(r[i]) implies r[i] == ' ' by {
            if i > 0 {
                assert(r[i] == rest[i - 1]);
            }
        }
        assert forall|i: int| 0 <= i < r.len() - 1 implies !(#[trigger] r[i] == ' ' && r[i + 1] == ' ') by {
            if i > 0 {
                assert(r[i] == rest[i - 1] && r[i + 1] == rest[i]);
            } else {
                assert(r[1] == rest[0]);
            }
        }
        assert forall|i: int| 0 <= i < r.len() - 1 implies !(#[trigger] r[i] == ' ' && r[i + 1] == '.') by {
            if i > 0 {
                assert(r[i] == rest[i - 1] && r[i + 1] == rest[i]);
            } else {
                assert(r[1] == rest[0]);
                if k == 1 && t.len() >= 3 && t[1] == ' ' && t[2] == '.' {
                    assert(t[0] == ' ' ==> !(t[0] == ' ' && t[1] == ' '));
                }
            }
        }
        assert forall|i: int| 0 <= i < r.len() - 2 implies !(#[trigger] r[i] == 'd' && r[i + 1] == 'o' && r[i
            + 2] == 't') by {
            if i > 0 {
                assert(r[i] == rest[i - 1] && r[i + 1] == rest[i] && r[i + 2] == rest[i + 1]);
            } else if k == 1 && r[0] == 'd' && r[1] == 'o' && r[2] == 't' {
                assert(rest[0] == 'o' && rest[1] == 't');
                assert(rest == seq![u[0]] + replaced(u.skip(1), " ."@, "."@));
                assert(u.skip(1) =~= t.skip(2));
                lemma_space_dot_head(t.skip(2));
                assert(replaced(t.skip(2), " ."@, "."@)[0] == 't');
                assert(t[2] == 't');
                assert(t[0] == 'd' && t[1] == 'o' && t[2] == 't');
            }
        }
    }
}

/// How replacing ". " by "." starts: always with the first character.
proof fn lemma_dot_space_head(t: Seq<char>)
    requires
        t.len() > 0,
    ensures
        replaced(t, ". "@, "."@).len() > 0,
        t.len() >= 2 && t[0] == '.' && t[1] == ' ' ==> replaced(t, ". "@, "."@) == seq!['.'] + replaced(
            t.skip(2),
            ". "@,
            "."@,
        ),
        !(t.len() >= 2 && t[0] == '.' && t[1] == ' ') ==> replaced(t, ". "@, "."@) == seq![t[0]]
            + replaced(t.skip(1), ". "@, "."@),
        replaced(t, ". "@, "."@)[0] == t[0],
{
    reveal_strlit(". ");
    reveal_strlit(".");
    if t.len() < 2 {
        lemma_short_replace(t.skip(1), ". "@, "."@);
        assert(seq![t[0]] + t.skip(1) =~= t);
    } else if t[0] == '.' && t[1] == ' ' {
        assert(t.subrange(0, 2) =~= ". "@);
    } else {
        assert(t.subrange(0, 2) != ". "@) by {
            if t.subrange(0, 2) == ". "@ {
                assert(t.subrange(0, 2)[0] == '.' && t.subrange(0, 2)[1] == ' ');
            }
        }
    }
}

/// Replacing ". " by "." keeps a last character that is not a space.
proof fn lemma_dot_space_last(t: Seq<char>)
    requires
        t.len() > 0,
        t.last() != ' ',
    ensures
        replaced(t, ". "@, "."@).len() > 0,
        replaced(t, ". "@, "."@).last() == t.last(),
    decreases t.len(),
{
    reveal_strlit(". ");
    lemma_dot_space_head(t);
    if t.len() >= 2 && t[0] == '.' && t[1] == ' ' {
        lemma_dot_space_last(t.skip(2));
    } else if t.len() >= 2 {
        lemma_dot_space_last(t.skip(1));
    } else {
        lemma_short_replace(t.skip(1), ". "@, "."@);
    }
}

/// Replacing ". " by "." in single-spaced text without "dot" and without a
/// space before a "." leaves no space next to a ".", and keeps the rest.
proof fn lemma_dot_space_props(t: Seq<char>)
    requires
        plain_spaces(t),
        no_pair(t, ' ', ' '),
        no_pair(t, ' ', '.'),
        no_dot_word(t),
    ensures
        plain_spaces(replaced(t, ". "@, "."@)),
        no_pair(replaced(t, ". "@, "."@), ' ', ' '),
        no_pair(replaced(t, ". "@, "."@), ' ', '.'),
        no_pair(replaced(t, ". "@, "."@), '.', ' '),
        no_dot_word(replaced(t, ". "@, "."@)),
    decreases t.len(),
{
    reveal_strlit(". ");
    let r = replaced(t, ". "@, "."@);
    if t.len() == 0 {
        lemma_short_replace(t, ". "@, "."@);
    } else {
        lemma_dot_space_head(t);
        let k: int = if t.len() >= 2 && t[0] == '.' && t[1] == ' ' {
            2
        } else {
            1
        };
        let u = t.skip(k);
        lemma_local_tail(t, k);
        lemma_dot_space_props(u);
        let rest = replaced(u, ". "@, "."@);
        assert(r.len() == rest.len() + 1);
        assert forall|i: int| 0 < i < r.len() implies #[trigger] r[i] == rest[i - 1] by {}
        if rest.len() > 0 {
            lemma_dot_space_head(u);
            assert(r[1] == u[0]);
            assert(u[0] == t[k]);
        }
        assert forall|i: int| 0 <= i < r.len() && #[trigger] is_space(r[i]) implies r[i] == ' ' by {
            if i > 0 {
                assert(r[i] == rest[i - 1]);
            }
        }
        assert forall|i: int| 0 <= i < r.len() - 1 implies !(#[trigger] r[i] == ' ' && r[i + 1] == ' ') by {
            if i > 0 {
                assert(r[i] == rest[i - 1] && r[i + 1] == rest[i]);
            }
        }
        assert forall|i: int| 0 <= i < r.len() - 1 implies !(#[trigger] r[i] == ' ' && r[i + 1] == '.') by {
            if i > 0 {
                assert(r[i] == rest[i - 1] && r[i + 1] == rest[i]);
            }
        }
        assert forall|i: int| 0 <= i < r.len() - 1 implies !(#[trigger] r[i] == '.' && r[i + 1] == ' ') by {
            if i > 0 {
                assert(r[i] == rest[i - 1] && r[i + 1] == rest[i]);
            } else if k == 2 {
                assert(!(t[1] == ' ' && t[2] == ' '));
            }
        }
        assert forall|i: int| 0 <= i < r.len() - 2 implies !(#[trigger] r[i] == 'd' && r[i + 1] == 'o' && r[i
            + 2] == 't') by {
            if i > 0 {
                assert(r[i] == rest[i - 1] && r[i + 1] == rest[i] && r[i + 2] == rest[i + 1]);
            } else if k == 1 && r[0] == 'd' && r[1] == 'o' && r[2] == 't' {
                assert(rest[0] == 'o' && rest[1] == 't');
                assert(u[0] == 'o');
                assert(rest == seq![u[0]] + replaced(u.skip(1), ". "@, "."@));
                assert(u.skip(1) =~= t.skip(2));
                lemma_dot_space_head(t.skip(2));
                assert(t[2] == 't');
                assert(t[0] == 'd' && t[1] == 'o' && t[2] == 't');
            }
        }
    }
}

/// A text with none of `a` followed by `b` has no occurrence of that pair.
proof fn lemma_pair_absent(s: Seq<char>, a: char, b: char)
    requires
        no_pair(s, a, b),
    ensures
        !occurs(s, seq![a, b]),
{
    let p = seq![a, b];
    if occurs(s, p) {
        let i = choose|i: int| 0 <= i && i + p.len() <= s.len() && #[trigger] s.subrange(i, i + p.len()) == p;
        assert(s.subrange(i, i + 2)[0] == s[i] && s.subrange(i, i + 2)[1] == s[i + 1]);
    }
}

/// Everything that the sanitizer hands back is a clean name.
pub proof fn sanitized_is_clean(x: Seq<char>)
    ensures
        clean_name(sanitized(x)),
{
    reveal_strlit("dot");
    reveal_strlit(".");
    reveal_strlit(" .");
    reveal_strlit(". ");
    let a = replaced(x, "dot"@, "."@);
    lemma_no_dot_after_replace(x);
    let b = join_spaced(words(a));
    lemma_collapse_plain(a);
    let c = replaced(b, " ."@, "."@);
    lemma_space_dot_props(b);
    let d = replaced(c, ". "@, "."@);
    lemma_dot_space_props(c);
    if b.len() > 0 {
        lemma_space_dot_head(b);
        lemma_space_dot_last(b);
        assert(c[0] != ' ');
        lemma_dot_space_head(c);
        lemma_dot_space_last(c);
    } else {
        lemma_short_replace(b, " ."@, "."@);
        lemma_short_replace(c, ". "@, "."@);
    }
    assert(single_spaced(d)) by {
        assert forall|i: int| 0 <= i < d.len() && #[trigger] is_space(d[i]) implies d[i] == ' ' && 0 < i < d.len()
            - 1 && !is_space(d[i - 1]) && !is_space(d[i + 1]) by {
            assert(d[i] == ' ');
            assert(i != 0);
            assert(i != d.len() - 1);
            if is_space(d[i - 1]) {
                assert(d[i - 1] == ' ');
                assert(!(d[i - 1] == ' ' && d[(i - 1) + 1] == ' '));
            }
            if is_space(d[i + 1]) {
                assert(d[i + 1] == ' ');
            }
        }
    }
    lemma_trim_single_spaced(d);
    assert(!occurs(d, "dot"@)) by {
        if occurs(d, "dot"@) {
            let i = choose|i: int| 0 <= i && i + "dot"@.len() <= d.len() && #[trigger] d.subrange(i, i + "dot"@.len()) == "dot"@;
            assert(d.subrange(i, i + 3)[0] == d[i] && d.subrange(i, i + 3)[1] == d[i + 1] && d.subrange(i, i + 3)[2] == d[i + 2]);
        }
    }
    lemma_pair_absent(d, ' ', '.');
    lemma_pair_absent(d, '.', ' ');
    assert(seq![' ', '.'] =~= " ."@);
    assert(seq!['.', ' '] =~= ". "@);
}

/// Sanitizing a name twice gives what sanitizing it once gives.
pub proof fn sanitize_idempotent(x: Seq<char>)
    ensures
        sanitized(sanitized(x)) == sanitized(x),
{
    sanitized_is_clean(x);
    clean_name_is_kept(sanitized(x));
}

} // verus!
