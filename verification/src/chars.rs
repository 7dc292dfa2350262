use vstd::prelude::*;
use vstd::string::StrSliceExecFns;

verus! {

/// Relies on `String::push`: appends the given character to the end of the
/// string.
pub assume_specification[ String::push ](s: &mut String, ch: char)
    ensures
        final(s)@ == old(s)@.push(ch),
;

/// The characters of `s`, in order, as a vector.
pub fn chars_of(s: &str) -> (r: Vec<char>)
    ensures
        r@ == s@,
{
    let n = s.unicode_len();
    let mut r: Vec<char> = Vec::new();
    let mut i: usize = 0;
    while i < n
        invariant
            i <= n,
            n == s@.len(),
            r@ == s@.take(i as int),
        decreases n - i,
    {
        let c = s.get_char(i);
        r.push(c);
        proof {
            assert(r@ =~= s@.take(i + 1));
        }
        i = i + 1;
    }
    proof {
        assert(s@.take(n as int) =~= s@);
    }
    r
}

/// The string holding exactly the characters of `v`, in order.
pub fn string_from_chars(v: &Vec<char>) -> (r: String)
    ensures
        r@ == v@,
{
    let mut r = String::new();
    let mut i: usize = 0;
    let n = v.len();
    while i < n
        invariant
            i <= n,
            n == v@.len(),
            r@ == v@.take(i as int),
        decreases n - i,
    {
        r.push(v[i]);
        proof {
            assert(r@ =~= v@.take(i + 1));
        }
        i = i + 1;
    }
    proof {
        assert(v@.take(n as int) =~= v@);
    }
    r
}

/// The view of an optional string.
pub open spec fn opt_view(o: Option<String>) -> Option<Seq<char>> {
    match o {
        Some(s) => Some(s@),
        None => None,
    }
}

/// The Unicode whitespace characters, exactly the set `str::trim` removes.
pub open spec fn is_space_char(c: char) -> bool {
    ||| c == ' '
    ||| c == '\t'
    ||| c == '\n'
    ||| c == '\r'
    ||| c == '\u{b}'
    ||| c == '\u{c}'
    ||| c == '\u{85}'
    ||| c == '\u{a0}'
    ||| c == '\u{1680}'
    ||| ((c as u32) >= 0x2000 && (c as u32) <= 0x200a)
    ||| c == '\u{2028}'
    ||| c == '\u{2029}'
    ||| c == '\u{202f}'
    ||| c == '\u{205f}'
    ||| c == '\u{3000}'
}

/// Whether `c` is Unicode whitespace.
pub fn is_space(c: char) -> (r: bool)
    ensures
        r == is_space_char(c),
{
    c == ' ' || c == '\t' || c == '\n' || c == '\r' || c == '\u{b}' || c == '\u{c}' || c == '\u{85}'
        || c == '\u{a0}' || c == '\u{1680}' || ((c as u32) >= 0x2000 && (c as u32) <= 0x200a) || c
        == '\u{2028}' || c == '\u{2029}' || c == '\u{202f}' || c == '\u{205f}' || c == '\u{3000}'
}

/// `s` with its leading whitespace removed.
pub open spec fn trim_front(s: Seq<char>) -> Seq<char>
    decreases s.len(),
{
    if s.len() > 0 && is_space_char(s[0]) {
        trim_front(s.drop_first())
    } else {
        s
    }
}

/// `s` with its trailing whitespace removed.
pub open spec fn trim_back(s: Seq<char>) -> Seq<char>
    decreases s.len(),
{
    if s.len() > 0 && is_space_char(s.last()) {
        trim_back(s.drop_last())
    } else {
        s
    }
}

/// `s` with whitespace removed from both ends: what `str::trim` leaves.
pub open spec fn trim_spec(s: Seq<char>) -> Seq<char> {
    trim_back(trim_front(s))
}

/// Skipping the leading whitespace is exactly `trim_front`.
proof fn lemma_trim_front_skip(s: Seq<char>, i: int)
    requires
        0 <= i <= s.len(),
        forall|j: int| 0 <= j < i ==> is_space_char(s[j]),
        i < s.len() ==> !is_space_char(s[i]),
    ensures
        trim_front(s) == s.skip(i),
    decreases i,
{
    if i == 0 {
        assert(s.skip(0) =~= s);
    } else {
        lemma_trim_front_skip(s.drop_first(), i - 1);
        assert(s.drop_first().skip(i - 1) =~= s.skip(i));
    }
}

/// Taking everything up to the trailing whitespace is exactly `trim_back`.
proof fn lemma_trim_back_take(s: Seq<char>, k: int)
    requires
        0 <= k <= s.len(),
        forall|j: int| k <= j < s.len() ==> is_space_char(s[j]),
        k > 0 ==> !is_space_char(s[k - 1]),
    ensures
        trim_back(s) == s.take(k),
    decreases s.len() - k,
{
    if k == s.len() {
        assert(s.take(k) =~= s);
    } else {
        lemma_trim_back_take(s.drop_last(), k);
        assert(s.drop_last().take(k) =~= s.take(k));
    }
}

/// A copy of `v[from..to]`.
pub fn copy_range(v: &Vec<char>, from: usize, to: usize) -> (r: Vec<char>)
    requires
        from <= to <= v@.len(),
    ensures
        r@ == v@.subrange(from as int, to as int),
{
    let mut r: Vec<char> = Vec::new();
    let mut i: usize = from;
    while i < to
        invariant
            from <= i <= to <= v@.len(),
            r@ == v@.subrange(from as int, i as int),
        decreases to - i,
    {
        r.push(v[i]);
        proof {
            assert(r@ =~= v@.subrange(from as int, i + 1));
        }
        i = i + 1;
    }
    r
}

/// A copy of `v` with whitespace removed from both ends.
pub fn trim_chars(v: &Vec<char>) -> (r: Vec<char>)
    ensures
        r@ == trim_spec(v@),
{
    let n = v.len();
    let mut lo: usize = 0;
    while lo < n && is_space(v[lo])
        invariant
            lo <= n,
            n == v@.len(),
            forall|j: int| 0 <= j < lo ==> is_space_char(v@[j]),
        decreases n - lo,
    {
        lo = lo + 1;
    }
    proof {
        lemma_trim_front_skip(v@, lo as int);
    }
    let mut hi: usize = n;
    while hi > lo && is_space(v[hi - 1])
        invariant
            lo <= hi <= n,
            n == v@.len(),
            forall|j: int| hi <= j < n ==> is_space_char(v@[j]),
        decreases hi,
    {
        hi = hi - 1;
    }
    proof {
        let t = v@.skip(lo as int);
        assert forall|j: int| (hi - lo) <= j < t.len() implies is_space_char(t[j]) by {
            assert(t[j] == v@[j + lo]);
        }
        if hi > lo {
            assert(t[hi - lo - 1] == v@[hi - 1]);
        }
        lemma_trim_back_take(t, hi - lo);
        assert(t.take(hi - lo) =~= v@.subrange(lo as int, hi as int));
    }
    copy_range(v, lo, hi)
}

/// Character-for-character string equality.
pub fn str_eq(a: &str, b: &str) -> (r: bool)
    ensures
        r == (a@ == b@),
{
    let n = a.unicode_len();
    if n != b.unicode_len() {
        proof {
            assert(a@ != b@) by {
                assert(a@.len() != b@.len());
            }
        }
        return false;
    }
    let mut i: usize = 0;
    while i < n
        invariant
            i <= n,
            n == a@.len(),
            n == b@.len(),
            forall|j: int| 0 <= j < i ==> a@[j] == b@[j],
        decreases n - i,
    {
        if a.get_char(i) != b.get_char(i) {
            return false;
        }
        i = i + 1;
    }
    proof {
        assert(a@ =~= b@);
    }
    true
}

/// The pieces of `s` between occurrences of `sep`, in order. An empty `s`
/// yields one empty piece, and `n` separators always yield `n + 1` pieces,
/// as `str::split` does.
pub open spec fn split_on(s: Seq<char>, sep: char) -> Seq<Seq<char>>
    decreases s.len(),
{
    if s.len() == 0 {
        seq![Seq::empty()]
    } else if s[0] == sep {
        seq![Seq::<char>::empty()] + split_on(s.drop_first(), sep)
    } else {
        let rest = split_on(s.drop_first(), sep);
        seq![seq![s[0]] + rest[0]] + rest.drop_first()
    }
}

/// A split always yields at least one piece.
pub proof fn lemma_split_on_len(s: Seq<char>, sep: char)
    ensures
        split_on(s, sep).len() >= 1,
    decreases s.len(),
{
    if s.len() > 0 {
        lemma_split_on_len(s.drop_first(), sep);
    }
}

/// A separator-free text splits into exactly itself.
proof fn lemma_split_no_sep(t: Seq<char>, sep: char)
    requires
        forall|j: int| 0 <= j < t.len() ==> t[j] != sep,
    ensures
        split_on(t, sep) == seq![t],
    decreases t.len(),
{
    if t.len() == 0 {
        assert(Seq::<char>::empty() =~= t);
    } else {
        lemma_split_no_sep(t.drop_first(), sep);
        lemma_split_on_len(t.drop_first(), sep);
        assert(seq![t[0]] + t.drop_first() =~= t);
        assert(seq![seq![t[0]] + split_on(t.drop_first(), sep)[0]] + split_on(
            t.drop_first(),
            sep,
        ).drop_first() =~~= seq![t]);
    }
}

/// Splitting peels off the first piece: a separator-free prefix `t`, a
/// separator, and the rest `u`.
proof fn lemma_split_with_sep(t: Seq<char>, u: Seq<char>, sep: char)
    requires
        forall|j: int| 0 <= j < t.len() ==> t[j] != sep,
    ensures
        split_on(t + seq![sep] + u, sep) == seq![t] + split_on(u, sep),
    decreases t.len(),
{
    let s = t + seq![sep] + u;
    if t.len() == 0 {
        assert(s[0] == sep);
        assert(s.drop_first() =~= u);
        assert(seq![Seq::<char>::empty()] + split_on(u, sep) =~~= seq![t] + split_on(u, sep));
    } else {
        lemma_split_with_sep(t.drop_first(), u, sep);
        assert(s.drop_first() =~= t.drop_first() + seq![sep] + u);
        let rest = split_on(s.drop_first(), sep);
        lemma_split_on_len(u, sep);
        assert(rest == seq![t.drop_first()] + split_on(u, sep));
        assert(rest[0] == t.drop_first());
        assert(seq![t[0]] + rest[0] =~= t);
        assert(rest.drop_first() =~= split_on(u, sep));
        assert(seq![seq![t[0]] + rest[0]] + rest.drop_first() =~~= seq![t] + split_on(u, sep));
    }
}

/// The views of a vector of character vectors.
pub open spec fn views_of(v: Seq<Vec<char>>) -> Seq<Seq<char>> {
    v.map_values(|x: Vec<char>| x@)
}

/// Splits `v` on every occurrence of `sep`: exactly `split_on`.
pub fn split_chars(v: &Vec<char>, sep: char) -> (r: Vec<Vec<char>>)
    ensures
        views_of(r@) == split_on(v@, sep),
{
    let n = v.len();
    let mut out: Vec<Vec<char>> = Vec::new();
    let mut tok_start: usize = 0;
    let mut i: usize = 0;
    proof {
        assert(v@.skip(0) =~= v@);
        assert(views_of(out@) =~= Seq::<Seq<char>>::empty());
        assert(views_of(out@) + split_on(v@, sep) =~~= split_on(v@, sep));
    }
    while i < n
        invariant
            tok_start <= i <= n,
            n == v@.len(),
            forall|j: int| tok_start <= j < i ==> v@[j] != sep,
            split_on(v@, sep) == views_of(out@) + split_on(v@.skip(tok_start as int), sep),
        decreases n - i,
    {
        if v[i] == sep {
            let tok = copy_range(v, tok_start, i);
            out.push(tok);
            proof {
                let cur = v@.subrange(tok_start as int, i as int);
                assert forall|j: int| 0 <= j < cur.len() implies cur[j] != sep by {
                    assert(cur[j] == v@[tok_start + j]);
                }
                assert(v@.skip(tok_start as int) =~= cur + seq![sep] + v@.skip(i + 1));
                lemma_split_with_sep(cur, v@.skip(i + 1), sep);
                assert(views_of(out@) =~~= views_of(out@.drop_last()) + seq![cur]);
                assert(views_of(out@) + split_on(v@.skip(i + 1), sep) =~~= (views_of(
                    out@.drop_last(),
                ) + (seq![cur] + split_on(v@.skip(i + 1), sep))));
            }
            tok_start = i + 1;
        }
        i = i + 1;
    }
    let tok = copy_range(v, tok_start, n);
    out.push(tok);
    proof {
        let cur = v@.subrange(tok_start as int, n as int);
        assert forall|j: int| 0 <= j < cur.len() implies cur[j] != sep by {
            assert(cur[j] == v@[tok_start + j]);
        }
        assert(cur =~= v@.skip(tok_start as int));
        lemma_split_no_sep(cur, sep);
        assert(views_of(out@) =~~= views_of(out@.drop_last()) + seq![cur]);
        assert(views_of(out@) =~~= views_of(out@.drop_last()) + split_on(
            v@.skip(tok_start as int),
            sep,
        ));
    }
    out
}

/// The text before and after the first occurrence of `sep`, or nothing when
/// `sep` does not occur: what `str::split_once` yields.
pub open spec fn split_first_on(s: Seq<char>, sep: char) -> Option<(Seq<char>, Seq<char>)>
    decreases s.len(),
{
    if s.len() == 0 {
        None
    } else if s[0] == sep {
        Some((Seq::empty(), s.drop_first()))
    } else {
        match split_first_on(s.drop_first(), sep) {
            None => None,
            Some(p) => Some((seq![s[0]] + p.0, p.1)),
        }
    }
}

/// When `sep` first occurs at `k`, the split is the text up to `k` and the
/// text after it.
proof fn lemma_split_first_at(s: Seq<char>, sep: char, k: int)
    requires
        0 <= k < s.len(),
        s[k] == sep,
        forall|j: int| 0 <= j < k ==> s[j] != sep,
    ensures
        split_first_on(s, sep) == Some((s.take(k), s.skip(k + 1))),
    decreases k,
{
    if k == 0 {
        assert(s.take(0) =~= Seq::<char>::empty());
    } else {
        lemma_split_first_at(s.drop_first(), sep, k - 1);
        assert(seq![s[0]] + s.drop_first().take(k - 1) =~= s.take(k));
        assert(s.drop_first().skip(k) =~= s.skip(k + 1));
    }
}

/// Without an occurrence of `sep` there is no split.
proof fn lemma_split_first_none(s: Seq<char>, sep: char)
    requires
        forall|j: int| 0 <= j < s.len() ==> s[j] != sep,
    ensures
        split_first_on(s, sep) is None,
    decreases s.len(),
{
    if s.len() > 0 {
        lemma_split_first_none(s.drop_first(), sep);
    }
}

/// Splits `v` at the first occurrence of `sep`: exactly `split_first_on`.
pub fn split_first_chars(v: &Vec<char>, sep: char) -> (r: Option<(Vec<char>, Vec<char>)>)
    ensures
        match (r, split_first_on(v@, sep)) {
            (Some(p), Some(q)) => p.0@ == q.0 && p.1@ == q.1,
            (None, None) => true,
            _ => false,
        },
{
    let n = v.len();
    let mut i: usize = 0;
    while i < n
        invariant
            i <= n,
            n == v@.len(),
            forall|j: int| 0 <= j < i ==> v@[j] != sep,
        decreases n - i,
    {
        if v[i] == sep {
            proof {
                lemma_split_first_at(v@, sep, i as int);
            }
            let before = copy_range(v, 0, i);
            let after = copy_range(v, i + 1, n);
            proof {
                assert(v@.subrange(0, i as int) =~= v@.take(i as int));
                assert(v@.subrange(i + 1, n as int) =~= v@.skip(i + 1));
            }
            return Some((before, after));
        }
        i = i + 1;
    }
    proof {
        lemma_split_first_none(v@, sep);
    }
    None
}

} // verus!
