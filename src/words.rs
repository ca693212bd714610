//! Splitting text into whitespace-separated words and joining them again.
use vstd::prelude::*;

verus! {

/// The characters that `char::is_whitespace` accepts (Unicode `White_Space`).
pub open spec fn is_space(c: char) -> bool {
    let u = c as u32;
    (0x09 <= u <= 0x0d) || u == 0x20 || u == 0x85 || u == 0xa0 || u == 0x1680 || (0x2000 <= u
        <= 0x200a) || u == 0x2028 || u == 0x2029 || u == 0x202f || u == 0x205f || u == 0x3000
}

/// Whether `c` is whitespace.
pub fn is_space_char(c: char) -> (r: bool)
    ensures
        r == is_space(c),
{
    let u = c as u32;
    (0x09 <= u && u <= 0x0d) || u == 0x20 || u == 0x85 || u == 0xa0 || u == 0x1680 || (0x2000
        <= u && u <= 0x200a) || u == 0x2028 || u == 0x2029 || u == 0x202f || u == 0x205f || u
        == 0x3000
}

/// Whether `a` and `b` hold the same characters.
pub fn same_text(a: &str, b: &str) -> (r: bool)
    ensures
        r == (a@ == b@),
{
    let n = a.unicode_len();
    if n != b.unicode_len() {
        return false;
    }
    let mut i: usize = 0;
    while i < n
        invariant
            n == a@.len() == b@.len(),
            i <= n,
            a@.subrange(0, i as int) == b@.subrange(0, i as int),
        decreases n - i,
    {
        if a.get_char(i) != b.get_char(i) {
            assert(a@[i as int] != b@[i as int]);
            return false;
        }
        assert(a@.subrange(0, i + 1) =~= a@.subrange(0, i as int).push(a@[i as int]));
        assert(b@.subrange(0, i + 1) =~= b@.subrange(0, i as int).push(b@[i as int]));
        i = i + 1;
    }
    assert(a@ =~= a@.subrange(0, n as int));
    assert(b@ =~= b@.subrange(0, n as int));
    true
}

/// Scanning the first `n` characters of `s`: the words completed so far and
/// the word that is still open (empty between words).
pub open spec fn scan(s: Seq<char>, n: nat) -> (Seq<Seq<char>>, Seq<char>)
    decreases n,
{
    if n == 0 || n > s.len() {
        (Seq::empty(), Seq::empty())
    } else {
        let (done, open) = scan(s, (n - 1) as nat);
        let c = s[n - 1];
        if is_space(c) {
            if open.len() > 0 {
                (done.push(open), Seq::empty())
            } else {
                (done, Seq::empty())
            }
        } else {
            (done, open.push(c))
        }
    }
}

/// The maximal runs of non-whitespace characters of `s`, in order.
pub open spec fn words(s: Seq<char>) -> Seq<Seq<char>> {
    let (done, open) = scan(s, s.len());
    if open.len() > 0 {
        done.push(open)
    } else {
        done
    }
}

/// The words `ws` with a single space between each two.
pub open spec fn join_spaced(ws: Seq<Seq<char>>) -> Seq<char>
    decreases ws.len(),
{
    if ws.len() == 0 {
        Seq::empty()
    } else if ws.len() == 1 {
        ws[0]
    } else {
        join_spaced(ws.drop_last()) + seq![' '] + ws.last()
    }
}

/// What a vector of strings holds, as character sequences.
pub open spec fn texts(v: Seq<String>) -> Seq<Seq<char>> {
    v.map_values(|x: String| x@)
}

/// The words of `s`.
pub fn split_words(s: &str) -> (r: Vec<String>)
    ensures
        texts(r@) == words(s@),
{
    let n = s.unicode_len();
    let mut out: Vec<String> = Vec::new();
    let mut start: usize = 0;
    let mut in_word = false;
    let mut i: usize = 0;
    while i < n
        invariant
            n == s@.len(),
            i <= n,
            start <= i,
            texts(out@) == scan(s@, i as nat).0,
            in_word ==> scan(s@, i as nat).1 == s@.subrange(start as int, i as int),
            in_word ==> start < i,
            !in_word ==> scan(s@, i as nat).1.len() == 0,
        decreases n - i,
    {
        let c = s.get_char(i);
        if is_space_char(c) {
            if in_word {
                let w = String::from_str(s.substring_char(start, i));
                out.push(w);
                assert(texts(out@) =~= scan(s@, i as nat).0.push(s@.subrange(start as int, i as int)));
            }
            in_word = false;
        } else {
            if !in_word {
                start = i;
                in_word = true;
            }
            assert(s@.subrange(start as int, i + 1) =~= s@.subrange(start as int, i as int).push(c));
        }
        i = i + 1;
    }
    if in_word {
        let w = String::from_str(s.substring_char(start, n));
        out.push(w);
        assert(texts(out@) =~= scan(s@, n as nat).0.push(s@.subrange(start as int, n as int)));
    }
    assert(texts(out@) =~= words(s@));
    out
}

/// The words `ws[from..]` with a single space between each two.
pub fn join_from(ws: &Vec<String>, from: usize) -> (r: String)
    requires
        from <= ws@.len(),
    ensures
        r@ == join_spaced(texts(ws@).subrange(from as int, ws@.len() as int)),
{
    let mut out = String::new();
    let mut k: usize = from;
    while k < ws.len()
        invariant
            from <= k <= ws@.len(),
            out@ == join_spaced(texts(ws@).subrange(from as int, k as int)),
        decreases ws@.len() - k,
    {
        let ghost prev = texts(ws@).subrange(from as int, k as int);
        let ghost next = texts(ws@).subrange(from as int, k + 1);
        assert(next.drop_last() =~= prev);
        if k > from {
            out.append(" ");
        }
        out.append(ws[k].as_str());
        proof {
            reveal_strlit(" ");
            if k == from {
                assert(out@ =~= next[0]);
            } else {
                assert(out@ =~= join_spaced(prev) + seq![' '] + next.last());
            }
        }
        k = k + 1;
    }
    out
}

/// Scanning text without whitespace keeps everything read so far open.
proof fn lemma_scan_one_word(s: Seq<char>, n: nat)
    requires
        n <= s.len(),
        forall|i: int| 0 <= i < s.len() ==> !is_space(#[trigger] s[i]),
    ensures
        scan(s, n).0.len() == 0,
        scan(s, n).1 == s.subrange(0, n as int),
    decreases n,
{
    if n > 0 {
        lemma_scan_one_word(s, (n - 1) as nat);
        assert(s.subrange(0, n as int) =~= s.subrange(0, n - 1).push(s[n - 1]));
    } else {
        assert(s.subrange(0, 0) =~= Seq::<char>::empty());
    }
}

/// Non-empty text without whitespace is a single word.
pub proof fn lemma_one_word(s: Seq<char>)
    requires
        s.len() > 0,
        forall|i: int| 0 <= i < s.len() ==> !is_space(#[trigger] s[i]),
    ensures
        words(s) == seq![s],
{
    lemma_scan_one_word(s, s.len());
    assert(s.subrange(0, s.len() as int) =~= s);
    assert(words(s) =~= seq![s]);
}

} // verus!
