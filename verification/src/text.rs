//! Sequences of characters: occurrence of a pattern, prefixes, trimming,
//! joining and literal replacement, with executable counterparts on `&str`.
//!
//! Every contract in this crate that speaks of text speaks of `Seq<char>`,
//! the view of `str` and `String`.

use vstd::prelude::*;

verus! {

/// `pat` occurs in `s` starting at index `i`.
pub open spec fn occurs_at(s: Seq<char>, pat: Seq<char>, i: int) -> bool {
    &&& 0 <= i
    &&& i + pat.len() <= s.len()
    &&& s.subrange(i, i + pat.len()) == pat
}

/// `pat` occurs somewhere in `s`.
pub open spec fn contains(s: Seq<char>, pat: Seq<char>) -> bool {
    exists|i: int| occurs_at(s, pat, i)
}

/// `s` begins with `prefix`.
pub open spec fn starts_with(s: Seq<char>, prefix: Seq<char>) -> bool {
    occurs_at(s, prefix, 0)
}

/// `s` with every occurrence of `pat` replaced by `to`, scanning from the
/// left and resuming after each replaced occurrence. An empty pattern is
/// taken to occur nowhere: with it the result is `s`.
pub open spec fn replaced(s: Seq<char>, pat: Seq<char>, to: Seq<char>) -> Seq<char>
    decreases s.len(),
{
    if s.len() == 0 || pat.len() == 0 {
        s
    } else if occurs_at(s, pat, 0) {
        to + replaced(s.subrange(pat.len() as int, s.len() as int), pat, to)
    } else {
        seq![s[0]] + replaced(s.subrange(1, s.len() as int), pat, to)
    }
}

/// The parts in order, with `sep` between each two neighbours.
pub open spec fn joined(parts: Seq<Seq<char>>, sep: Seq<char>) -> Seq<char>
    decreases parts.len(),
{
    if parts.len() == 0 {
        Seq::empty()
    } else if parts.len() == 1 {
        parts[0]
    } else {
        joined(parts.drop_last(), sep) + sep + parts.last()
    }
}

/// Whether `c` is white space in the sense of Unicode: whether it has the
/// property White_Space. These are the tab, the line feed, the vertical tab,
/// the form feed and the carriage return, the space, the next-line control,
/// the no-break space, the Ogham space mark, the spaces of fixed width from
/// the en quad to the hair space, the line and the paragraph separator, the
/// narrow no-break space, the medium mathematical space and the ideographic
/// space.
pub open spec fn is_white_space(c: char) -> bool {
    let n = c as u32;
    ||| 0x09 <= n <= 0x0D
    ||| n == 0x20
    ||| n == 0x85
    ||| n == 0xA0
    ||| n == 0x1680
    ||| 0x2000 <= n <= 0x200A
    ||| n == 0x2028
    ||| n == 0x2029
    ||| n == 0x202F
    ||| n == 0x205F
    ||| n == 0x3000
}

/// `char::is_whitespace` tells whether a character has the Unicode property
/// White_Space: whether it is one of the characters that
/// [`is_white_space`] lists.
pub assume_specification[ char::is_whitespace ](c: char) -> (b: bool)
    ensures
        b == is_white_space(c),
;

/// How many characters of white space `s` begins with.
pub open spec fn leading_white(s: Seq<char>) -> nat
    decreases s.len(),
{
    if s.len() > 0 && is_white_space(s[0]) {
        1 + leading_white(s.drop_first())
    } else {
        0
    }
}

/// How many characters of white space `s` ends with.
pub open spec fn trailing_white(s: Seq<char>) -> nat
    decreases s.len(),
{
    if s.len() > 0 && is_white_space(s.last()) {
        1 + trailing_white(s.drop_last())
    } else {
        0
    }
}

/// `s` without the white space at its two ends.
pub open spec fn trimmed(s: Seq<char>) -> Seq<char> {
    if leading_white(s) == s.len() {
        Seq::empty()
    } else {
        s.subrange(leading_white(s) as int, s.len() - trailing_white(s))
    }
}

/// `String::push` appends one character at the end and changes nothing else.
#[verifier::external_body]
fn push_char(s: &mut String, c: char)
    ensures
        final(s)@ == old(s)@.push(c),
{
    s.push(c);
}

/// The characters of `s`, in order.
pub fn to_chars(s: &str) -> (v: Vec<char>)
    ensures
        v@ == s@,
{
    let mut v: Vec<char> = Vec::new();
    for c in it: s.chars()
        invariant
            it.seq() == s@,
            v@ == s@.subrange(0, it.index() as int),
    {
        v.push(c);
    }
    v
}

/// The text made of the characters `v[from..to]`.
pub(crate) fn from_chars(v: &Vec<char>, from: usize, to: usize) -> (s: String)
    requires
        from <= to <= v.len(),
    ensures
        s@ == v@.subrange(from as int, to as int),
{
    let mut s = String::new();
    let mut i: usize = from;
    while i < to
        invariant
            from <= i <= to <= v.len(),
            s@ == v@.subrange(from as int, i as int),
        decreases to - i,
    {
        push_char(&mut s, v[i]);
        i = i + 1;
    }
    s
}

/// Whether `pat` occurs in `s` at index `i`.
pub fn matches_at(s: &Vec<char>, pat: &Vec<char>, i: usize) -> (b: bool)
    ensures
        b == occurs_at(s@, pat@, i as int),
{
    if i > s.len() || pat.len() > s.len() - i {
        return false;
    }
    let mut k: usize = 0;
    while k < pat.len()
        invariant
            i + pat.len() <= s.len(),
            k <= pat.len(),
            s@.subrange(i as int, i + k) == pat@.subrange(0, k as int),
        decreases pat.len() - k,
    {
        if s[i + k] != pat[k] {
            assert(s@.subrange(i as int, i + pat.len())[k as int] != pat@[k as int]);
            return false;
        }
        assert(s@.subrange(i as int, i + k + 1) == s@.subrange(i as int, i + k).push(s@[i + k]));
        assert(pat@.subrange(0, k + 1) == pat@.subrange(0, k as int).push(pat@[k as int]));
        k = k + 1;
    }
    assert(pat@.subrange(0, pat.len() as int) == pat@);
    true
}

/// Whether `pat` occurs in `s`.
pub fn contains_chars(s: &Vec<char>, pat: &Vec<char>) -> (b: bool)
    ensures
        b == contains(s@, pat@),
{
    let mut i: usize = 0;
    while i < s.len()
        invariant
            i <= s.len(),
            forall|j: int| 0 <= j < i ==> !occurs_at(s@, pat@, j),
        decreases s.len() - i,
    {
        if matches_at(s, pat, i) {
            return true;
        }
        i = i + 1;
    }
    matches_at(s, pat, i)
}

/// Whether `pat` occurs in `s`.
pub fn str_contains(s: &str, pat: &str) -> (b: bool)
    ensures
        b == contains(s@, pat@),
{
    let chars = to_chars(s);
    let p = to_chars(pat);
    contains_chars(&chars, &p)
}

/// Whether `s` begins with `prefix`.
pub fn str_starts_with(s: &str, prefix: &str) -> (b: bool)
    ensures
        b == starts_with(s@, prefix@),
{
    let chars = to_chars(s);
    let p = to_chars(prefix);
    matches_at(&chars, &p, 0)
}

/// Whether the two texts hold the same characters.
pub fn str_eq(a: &str, b: &str) -> (same: bool)
    ensures
        same == (a@ == b@),
{
    let x = to_chars(a);
    let y = to_chars(b);
    if x.len() != y.len() {
        return false;
    }
    let same = matches_at(&x, &y, 0);
    assert(x@.subrange(0, x.len() as int) == x@);
    same
}

/// A copy of `s` without the white space at its two ends.
pub fn trim(s: &str) -> (t: String)
    ensures
        t@ == trimmed(s@),
{
    let chars = to_chars(s);
    let n = chars.len();
    let mut a: usize = 0;
    assert(chars@.subrange(0, n as int) == chars@);
    while a < n && chars[a].is_whitespace()
        invariant
            n == chars.len(),
            a <= n,
            leading_white(chars@) == a + leading_white(chars@.subrange(a as int, n as int)),
        decreases n - a,
    {
        assert(chars@.subrange(a as int, n as int).drop_first() == chars@.subrange(
            a + 1,
            n as int,
        ));
        a = a + 1;
    }
    assert(leading_white(chars@) == a) by {
        if a == n {
            assert(chars@.subrange(a as int, n as int).len() == 0);
        }
    }
    if a == n {
        return String::new();
    }
    let mut b: usize = n;
    while b > a && chars[b - 1].is_whitespace()
        invariant
            n == chars.len(),
            a < b <= n,
            !is_white_space(chars@[a as int]),
            trailing_white(chars@) == (n - b) + trailing_white(chars@.subrange(0, b as int)),
        decreases b,
    {
        assert(chars@.subrange(0, b as int).drop_last() == chars@.subrange(0, b - 1));
        b = b - 1;
    }
    assert(trailing_white(chars@) == n - b);
    from_chars(&chars, a, b)
}

/// `s` with every occurrence of `pat` replaced by `to`; `s` itself where
/// `pat` is empty.
pub fn replace_all(s: &str, pat: &str, to: &str) -> (out: String)
    ensures
        out@ == replaced(s@, pat@, to@),
{
    let chars = to_chars(s);
    let p = to_chars(pat);
    let n = chars.len();
    if p.len() == 0 {
        return from_chars(&chars, 0, n);
    }
    let mut out = String::new();
    let mut i: usize = 0;
    assert(chars@.subrange(0, n as int) == chars@);
    while i < n
        invariant
            n == chars.len(),
            i <= n,
            p@ == pat@,
            p@.len() > 0,
            out@ + replaced(chars@.subrange(i as int, n as int), p@, to@) == replaced(
                chars@,
                p@,
                to@,
            ),
        decreases n - i,
    {
        let ghost rest = chars@.subrange(i as int, n as int);
        if matches_at(&chars, &p, i) {
            assert(rest.subrange(0, p@.len() as int) == chars@.subrange(i as int, i + p@.len()));
            assert(occurs_at(rest, p@, 0));
            assert(rest.subrange(p@.len() as int, rest.len() as int) == chars@.subrange(
                i + p@.len(),
                n as int,
            ));
            let ghost before = out@;
            out.append(to);
            assert(out@ + replaced(chars@.subrange(i + p@.len(), n as int), p@, to@) == before
                + (to@ + replaced(chars@.subrange(i + p@.len(), n as int), p@, to@)));
            i = i + p.len();
        } else {
            assert(!occurs_at(rest, p@, 0)) by {
                if occurs_at(rest, p@, 0) {
                    assert(rest.subrange(0, p@.len() as int) == chars@.subrange(
                        i as int,
                        i + p@.len(),
                    ));
                }
            }
            assert(rest.subrange(1, rest.len() as int) == chars@.subrange(i + 1, n as int));
            assert(rest[0] == chars@[i as int]);
            let ghost before = out@;
            push_char(&mut out, chars[i]);
            assert(out@ + replaced(chars@.subrange(i + 1, n as int), p@, to@) == before + (
            seq![chars@[i as int]] + replaced(chars@.subrange(i + 1, n as int), p@, to@)));
            i = i + 1;
        }
    }
    out
}

/// The texts of `parts` in order, with `sep` between each two neighbours.
pub fn join(parts: &[&str], sep: &str) -> (out: String)
    ensures
        out@ == joined(parts@.map_values(|p: &str| p@), sep@),
{
    let ghost views = parts@.map_values(|p: &str| p@);
    let mut out = String::new();
    let mut i: usize = 0;
    while i < parts.len()
        invariant
            i <= parts.len(),
            views == parts@.map_values(|p: &str| p@),
            out@ == joined(views.subrange(0, i as int), sep@),
        decreases parts.len() - i,
    {
        let ghost done = views.subrange(0, i as int);
        let ghost next = views.subrange(0, i + 1);
        assert(next.drop_last() == done);
        assert(next.last() == parts@[i as int]@);
        if i > 0 {
            out.append(sep);
        }
        out.append(parts[i]);
        assert(out@ == joined(next, sep@)) by {
            if i == 0 {
                assert(done.len() == 0);
                assert(out@ == Seq::<char>::empty() + parts@[0]@);
            }
        }
        i = i + 1;
    }
    assert(views.subrange(0, parts.len() as int) == views);
    out
}

/// A part of a text holds no pattern that the text does not hold.
pub proof fn lemma_subrange_keeps_free(s: Seq<char>, from: int, to: int, pat: Seq<char>)
    requires
        0 <= from <= to <= s.len(),
        !contains(s, pat),
    ensures
        !contains(s.subrange(from, to), pat),
{
    let part = s.subrange(from, to);
    if contains(part, pat) {
        let i = choose|i: int| occurs_at(part, pat, i);
        assert(part.subrange(i, i + pat.len()) == s.subrange(from + i, from + i + pat.len()));
        assert(occurs_at(s, pat, from + i));
    }
}

/// The white space that a text begins with: it ends at the first character
/// that is none.
pub proof fn lemma_leading_white(s: Seq<char>)
    ensures
        leading_white(s) <= s.len(),
        forall|i: int| 0 <= i < leading_white(s) ==> is_white_space(s[i]),
        leading_white(s) < s.len() ==> !is_white_space(s[leading_white(s) as int]),
    decreases s.len(),
{
    if s.len() > 0 && is_white_space(s[0]) {
        let rest = s.drop_first();
        lemma_leading_white(rest);
        assert forall|i: int| 0 <= i < leading_white(s) implies is_white_space(s[i]) by {
            if i > 0 {
                assert(s[i] == rest[i - 1]);
            }
        }
        if leading_white(s) < s.len() {
            assert(s[leading_white(s) as int] == rest[leading_white(rest) as int]);
        }
    }
}

/// The white space that a text ends with: all of its last characters.
pub proof fn lemma_trailing_white(s: Seq<char>)
    ensures
        trailing_white(s) <= s.len(),
        forall|i: int| s.len() - trailing_white(s) <= i < s.len() ==> is_white_space(s[i]),
    decreases s.len(),
{
    if s.len() > 0 && is_white_space(s.last()) {
        let rest = s.drop_last();
        lemma_trailing_white(rest);
        assert forall|i: int| s.len() - trailing_white(s) <= i < s.len() implies is_white_space(
            s[i],
        ) by {
            if i < s.len() - 1 {
                assert(s[i] == rest[i]);
            }
        }
    }
}

/// A trimmed text is a part of the text: it holds no pattern that the text
/// does not hold.
pub proof fn lemma_trimmed_keeps_free(s: Seq<char>, pat: Seq<char>)
    ensures
        !contains(s, pat) ==> !contains(trimmed(s), pat),
{
    lemma_leading_white(s);
    lemma_trailing_white(s);
    if !contains(s, pat) {
        if leading_white(s) == s.len() {
            if contains(trimmed(s), pat) {
                assert(pat.len() == 0);
                assert(s.subrange(0, 0) == pat);
                assert(occurs_at(s, pat, 0));
            }
        } else {
            lemma_subrange_keeps_free(
                s,
                leading_white(s) as int,
                s.len() - trailing_white(s),
                pat,
            );
        }
    }
}

/// Where the pattern does not occur, nothing is replaced.
pub proof fn lemma_replaced_without_pattern(s: Seq<char>, pat: Seq<char>, to: Seq<char>)
    requires
        !contains(s, pat),
    ensures
        replaced(s, pat, to) == s,
    decreases s.len(),
{
    if s.len() > 0 && pat.len() > 0 {
        assert(!occurs_at(s, pat, 0));
        let rest = s.subrange(1, s.len() as int);
        lemma_subrange_keeps_free(s, 1, s.len() as int, pat);
        lemma_replaced_without_pattern(rest, pat, to);
        assert(seq![s[0]] + rest == s);
    }
}

/// If what has been replaced in `u` begins with `w`, and `w` holds nowhere
/// the character that the replacement begins with, then `u` begins with `w`
/// too: nothing was replaced that far.
pub proof fn lemma_replaced_prefix(u: Seq<char>, pat: Seq<char>, to: Seq<char>, w: Seq<char>)
    requires
        pat.len() > 0,
        to.len() > 0,
        forall|k: int| 0 <= k < w.len() ==> w[k] != to[0],
        starts_with(replaced(u, pat, to), w),
    ensures
        starts_with(u, w),
    decreases w.len(),
{
    let r = replaced(u, pat, to);
    if w.len() == 0 {
        assert(u.subrange(0, 0) == w);
    } else {
        assert(r.subrange(0, w.len() as int)[0] == w[0]);
        if u.len() == 0 {
        } else if occurs_at(u, pat, 0) {
            assert(r[0] == to[0]);
        } else {
            let u1 = u.subrange(1, u.len() as int);
            let r1 = replaced(u1, pat, to);
            let w1 = w.subrange(1, w.len() as int);
            assert(r == seq![u[0]] + r1);
            assert(r1.subrange(0, w1.len() as int) == r.subrange(0, w.len() as int).subrange(
                1,
                w.len() as int,
            ));
            lemma_replaced_prefix(u1, pat, to, w1);
            assert(u1.subrange(0, w1.len() as int) == w1);
            assert(u.subrange(0, w.len() as int) == seq![u[0]] + u1.subrange(0, w1.len() as int));
            assert(seq![w[0]] + w1 == w);
        }
    }
}

/// After replacement the pattern is gone, provided that the replacement is
/// not empty, that it holds nowhere the character with which the pattern
/// begins, and that the pattern holds the character with which the
/// replacement begins at most in its first place.
pub proof fn lemma_replaced_holds_no_pattern(s: Seq<char>, pat: Seq<char>, to: Seq<char>)
    requires
        pat.len() > 0,
        to.len() > 0,
        forall|k: int| 0 <= k < to.len() ==> to[k] != pat[0],
        forall|k: int| 1 <= k < pat.len() ==> pat[k] != to[0],
    ensures
        !contains(replaced(s, pat, to), pat),
    decreases s.len(),
{
    let r = replaced(s, pat, to);
    assert forall|j: int| !occurs_at(r, pat, j) by {
        if occurs_at(r, pat, j) {
            let found = r.subrange(j, j + pat.len());
            assert(found[0] == pat[0]);
            if s.len() == 0 {
            } else if occurs_at(s, pat, 0) {
                let s2 = s.subrange(pat.len() as int, s.len() as int);
                let r2 = replaced(s2, pat, to);
                lemma_replaced_holds_no_pattern(s2, pat, to);
                assert(r == to + r2);
                if j < to.len() {
                    assert(r[j] == to[j]);
                } else {
                    assert(r2.subrange(j - to.len(), j - to.len() + pat.len()) == found);
                    assert(occurs_at(r2, pat, j - to.len()));
                }
            } else {
                let s1 = s.subrange(1, s.len() as int);
                let r1 = replaced(s1, pat, to);
                lemma_replaced_holds_no_pattern(s1, pat, to);
                assert(r == seq![s[0]] + r1);
                if j >= 1 {
                    assert(r1.subrange(j - 1, j - 1 + pat.len()) == found);
                    assert(occurs_at(r1, pat, j - 1));
                } else {
                    let w = pat.subrange(1, pat.len() as int);
                    assert(r1.subrange(0, w.len() as int) == found.subrange(1, pat.len() as int));
                    assert(starts_with(r1, w));
                    lemma_replaced_prefix(s1, pat, to, w);
                    assert(s1.subrange(0, w.len() as int) == w);
                    assert(s.subrange(0, pat.len() as int) == seq![s[0]] + s1.subrange(
                        0,
                        w.len() as int,
                    ));
                    assert(seq![pat[0]] + w == pat);
                    assert(occurs_at(s, pat, 0));
                }
            }
        }
    }
}

/// The texts of `parts` in order, with `sep` between each two neighbours.
pub fn join_strings(parts: &Vec<String>, sep: &str) -> (out: String)
    ensures
        out@ == joined(parts@.map_values(|p: String| p@), sep@),
{
    let ghost views = parts@.map_values(|p: String| p@);
    let mut out = String::new();
    let mut i: usize = 0;
    while i < parts.len()
        invariant
            i <= parts.len(),
            views == parts@.map_values(|p: String| p@),
            out@ == joined(views.subrange(0, i as int), sep@),
        decreases parts.len() - i,
    {
        let ghost done = views.subrange(0, i as int);
        let ghost next = views.subrange(0, i + 1);
        assert(next.drop_last() == done);
        assert(next.last() == parts@[i as int]@);
        if i > 0 {
            out.append(sep);
        }
        out.append(parts[i].as_str());
        assert(out@ == joined(next, sep@)) by {
            if i == 0 {
                assert(done.len() == 0);
                assert(out@ == Seq::<char>::empty() + parts@[0]@);
            }
        }
        i = i + 1;
    }
    assert(views.subrange(0, parts.len() as int) == views);
    out
}

} // verus!
