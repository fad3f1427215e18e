//! Character-level rules: white space, trimming, prefixes and lines.
//!
//! Every string is read as the sequence of its characters (its view), and the
//! results are stated over such sequences.

use vstd::prelude::*;
use vstd::string::StrSliceExecFns;

verus! {

/// Whether `c` is Unicode white space.
pub open spec fn is_space(c: char) -> bool {
    let n = c as u32;
    ||| 0x09 <= n <= 0x0d
    ||| n == 0x20
    ||| n == 0x85
    ||| n == 0xa0
    ||| n == 0x1680
    ||| 0x2000 <= n <= 0x200a
    ||| n == 0x2028
    ||| n == 0x2029
    ||| n == 0x202f
    ||| n == 0x205f
    ||| n == 0x3000
}

/// How many white-space characters `s` begins with.
pub open spec fn leading_spaces(s: Seq<char>) -> nat
    decreases s.len(),
{
    if s.len() > 0 && is_space(s.first()) {
        1 + leading_spaces(s.drop_first())
    } else {
        0
    }
}

/// How many white-space characters `s` ends with.
pub open spec fn trailing_spaces(s: Seq<char>) -> nat
    decreases s.len(),
{
    if s.len() > 0 && is_space(s.last()) {
        1 + trailing_spaces(s.drop_last())
    } else {
        0
    }
}

/// `s` without the white space it begins with.
pub open spec fn trimmed_start(s: Seq<char>) -> Seq<char> {
    s.skip(leading_spaces(s) as int)
}

/// `s` without the white space it begins and ends with.
pub open spec fn trimmed(s: Seq<char>) -> Seq<char> {
    let t = trimmed_start(s);
    t.take(t.len() - trailing_spaces(t))
}

/// Whether `s` holds nothing but white space.
pub open spec fn blank(s: Seq<char>) -> bool {
    forall|k: int| 0 <= k < s.len() ==> is_space(#[trigger] s[k])
}

/// The leading white space of `s` is a run of white space that ends at the
/// first other character, or at the end of `s`.
pub proof fn lemma_leading_spaces(s: Seq<char>)
    ensures
        leading_spaces(s) <= s.len(),
        forall|k: int| 0 <= k < leading_spaces(s) ==> is_space(#[trigger] s[k]),
        leading_spaces(s) < s.len() ==> !is_space(s[leading_spaces(s) as int]),
    decreases s.len(),
{
    if s.len() > 0 && is_space(s.first()) {
        let rest = s.drop_first();
        lemma_leading_spaces(rest);
        assert forall|k: int| 0 <= k < leading_spaces(s) implies is_space(#[trigger] s[k]) by {
            if k > 0 {
                assert(s[k] == rest[k - 1]);
            }
        }
        if leading_spaces(s) < s.len() {
            assert(s[leading_spaces(s) as int] == rest[leading_spaces(rest) as int]);
        }
    }
}

/// The trailing white space of `s` is a run of white space that begins after
/// the last other character, or at the start of `s`.
pub proof fn lemma_trailing_spaces(s: Seq<char>)
    ensures
        trailing_spaces(s) <= s.len(),
        forall|k: int| s.len() - trailing_spaces(s) <= k < s.len() ==> is_space(#[trigger] s[k]),
        trailing_spaces(s) < s.len() ==> !is_space(s[s.len() - trailing_spaces(s) - 1]),
    decreases s.len(),
{
    if s.len() > 0 && is_space(s.last()) {
        let front = s.drop_last();
        lemma_trailing_spaces(front);
        assert forall|k: int| s.len() - trailing_spaces(s) <= k < s.len() implies is_space(
            #[trigger] s[k],
        ) by {
            if k < s.len() - 1 {
                assert(s[k] == front[k]);
            }
        }
        if trailing_spaces(s) < s.len() {
            assert(s[s.len() - trailing_spaces(s) - 1] == front[front.len() - trailing_spaces(
                front,
            ) - 1]);
        }
    }
}

/// A run of white space at the start of `s`, ended by another character or by
/// the end of `s`, is all the white space that `s` begins with.
pub proof fn lemma_leading_spaces_unique(s: Seq<char>, n: int)
    requires
        0 <= n <= s.len(),
        forall|k: int| 0 <= k < n ==> is_space(#[trigger] s[k]),
        n < s.len() ==> !is_space(s[n]),
    ensures
        leading_spaces(s) == n,
{
    lemma_leading_spaces(s);
    let m = leading_spaces(s) as int;
    if m < n {
        assert(is_space(s[m]));
    } else if n < m {
        assert(is_space(s[n]));
    }
}

/// A run of white space at the end of `s`, begun after another character or
/// at the start of `s`, is all the white space that `s` ends with.
pub proof fn lemma_trailing_spaces_unique(s: Seq<char>, n: int)
    requires
        0 <= n <= s.len(),
        forall|k: int| s.len() - n <= k < s.len() ==> is_space(#[trigger] s[k]),
        n < s.len() ==> !is_space(s[s.len() - n - 1]),
    ensures
        trailing_spaces(s) == n,
{
    lemma_trailing_spaces(s);
    let m = trailing_spaces(s) as int;
    if m < n {
        assert(is_space(s[s.len() - m - 1]));
    } else if n < m {
        assert(is_space(s[s.len() - n - 1]));
    }
}

/// What trimming leaves: a stretch of `s` with white space alone on either
/// side of it, which neither begins nor ends with white space.
pub proof fn lemma_trimmed(s: Seq<char>)
    ensures
        ({
            let lo = leading_spaces(s) as int;
            let hi = lo + trimmed(s).len();
            &&& 0 <= lo <= hi <= s.len()
            &&& trimmed(s) == s.subrange(lo, hi)
            &&& blank(s.take(lo))
            &&& blank(s.skip(hi))
            &&& trimmed(s).len() > 0 ==> !is_space(trimmed(s).first()) && !is_space(
                trimmed(s).last(),
            )
        }),
{
    let lo = leading_spaces(s) as int;
    lemma_leading_spaces(s);
    let t = trimmed_start(s);
    lemma_trailing_spaces(t);
    let hi = lo + trimmed(s).len();
    assert(trimmed(s) =~= s.subrange(lo, hi));
    assert forall|k: int| 0 <= k < s.skip(hi).len() implies is_space(#[trigger] s.skip(hi)[k]) by {
        assert(s.skip(hi)[k] == t[hi - lo + k]);
    }
    if trimmed(s).len() > 0 {
        assert(trimmed(s).first() == s[lo]);
        assert(trimmed(s).last() == t[t.len() - trailing_spaces(t) - 1]);
    }
}

/// Trimming leaves nothing exactly of the strings that hold white space alone.
pub proof fn lemma_trimmed_empty_iff_blank(s: Seq<char>)
    ensures
        trimmed(s).len() == 0 <==> blank(s),
{
    lemma_trimmed(s);
    let lo = leading_spaces(s) as int;
    let hi = lo + trimmed(s).len();
    if trimmed(s).len() == 0 {
        assert forall|k: int| 0 <= k < s.len() implies is_space(#[trigger] s[k]) by {
            if k < lo {
                assert(s[k] == s.take(lo)[k]);
            } else {
                assert(s[k] == s.skip(hi)[k - hi]);
            }
        }
    } else {
        assert(trimmed(s).first() == s[lo]);
    }
}

/// Trimming takes off white space on both sides and leaves what stands
/// between, where that neither begins nor ends with white space.
pub proof fn lemma_trimmed_core(before: Seq<char>, core: Seq<char>, after: Seq<char>)
    requires
        blank(before),
        blank(after),
        core.len() > 0,
        !is_space(core.first()),
        !is_space(core.last()),
    ensures
        trimmed(before + core + after) == core,
{
    let s = before + core + after;
    assert forall|k: int| 0 <= k < before.len() implies is_space(#[trigger] s[k]) by {
        assert(s[k] == before[k]);
    }
    assert(s[before.len() as int] == core.first());
    lemma_leading_spaces_unique(s, before.len() as int);
    let t = trimmed_start(s);
    assert(t =~= core + after);
    assert forall|k: int| t.len() - after.len() <= k < t.len() implies is_space(
        #[trigger] t[k],
    ) by {
        assert(t[k] == after[k - core.len()]);
    }
    assert(t[t.len() - after.len() - 1] == core.last());
    lemma_trailing_spaces_unique(t, after.len() as int);
    assert(trimmed(s) =~= core);
}

/// How many characters of `s` stand before its first line feed, or how many
/// it has where it holds none.
pub open spec fn line_length(s: Seq<char>) -> nat
    decreases s.len(),
{
    if s.len() > 0 && s.first() != '\n' {
        1 + line_length(s.drop_first())
    } else {
        0
    }
}

/// The first line of `s`, without the line feed, or the carriage return and
/// line feed, that ends it. An empty text has no line; a carriage return
/// that no line feed follows belongs to the line.
pub open spec fn first_line_of(s: Seq<char>) -> Option<Seq<char>> {
    let line = s.take(line_length(s) as int);
    if s.len() == 0 {
        None
    } else if line.len() < s.len() && line.len() > 0 && line.last() == '\r' {
        Some(line.drop_last())
    } else {
        Some(line)
    }
}

/// Decides [`is_space`].
pub fn is_whitespace(c: char) -> (r: bool)
    ensures
        r == is_space(c),
{
    let n: u32 = c as u32;
    (0x09 <= n && n <= 0x0d) || n == 0x20 || n == 0x85 || n == 0xa0 || n == 0x1680 || (0x2000 <= n
        && n <= 0x200a) || n == 0x2028 || n == 0x2029 || n == 0x202f || n == 0x205f || n == 0x3000
}

/// The characters of `s`, in order.
pub fn chars_of(s: &str) -> (v: Vec<char>)
    ensures
        v@ == s@,
{
    let mut v: Vec<char> = Vec::new();
    for c in it: s.chars()
        invariant
            v@ == it.seq().take(it.index()),
    {
        v.push(c);
    }
    v
}

/// `s` without the white space around it.
pub fn trim(s: &str) -> (r: &str)
    ensures
        r@ == trimmed(s@),
{
    let v = chars_of(s);
    let n: usize = v.len();
    let mut lo: usize = 0;
    while lo < n && is_whitespace(v[lo])
        invariant
            lo <= n == v.len(),
            forall|k: int| 0 <= k < lo ==> is_space(#[trigger] v@[k]),
        decreases n - lo,
    {
        lo += 1;
    }
    let mut hi: usize = n;
    while lo < hi && is_whitespace(v[hi - 1])
        invariant
            lo <= hi <= n == v.len(),
            forall|k: int| hi <= k < n ==> is_space(#[trigger] v@[k]),
        decreases hi,
    {
        hi -= 1;
    }
    proof {
        lemma_leading_spaces_unique(v@, lo as int);
        let t = trimmed_start(v@);
        assert forall|k: int| t.len() - (n - hi) <= k < t.len() implies is_space(
            #[trigger] t[k],
        ) by {
            assert(t[k] == v@[lo + k]);
        }
        lemma_trailing_spaces_unique(t, n - hi);
        assert(trimmed(v@) =~= v@.subrange(lo as int, hi as int));
    }
    s.substring_char(lo, hi)
}

/// The first line of `s`, if it has one.
pub fn first_line(s: &str) -> (r: Option<&str>)
    ensures
        r is Some <==> first_line_of(s@) is Some,
        r is Some ==> r.unwrap()@ == first_line_of(s@).unwrap(),
{
    let v = chars_of(s);
    let n: usize = v.len();
    if n == 0 {
        return None;
    }
    let mut end: usize = 0;
    assert(v@.skip(0) =~= v@);
    while end < n && v[end] != '\n'
        invariant
            end <= n == v.len(),
            line_length(v@) == end + line_length(v@.skip(end as int)),
        decreases n - end,
    {
        assert(v@.skip(end as int).first() == v@[end as int]);
        assert(v@.skip(end as int).drop_first() =~= v@.skip(end + 1));
        end += 1;
    }
    assert(end < n ==> v@.skip(end as int).first() == v@[end as int]);
    if end < n && end > 0 && v[end - 1] == '\r' {
        assert(v@.take(end as int).drop_last() =~= v@.subrange(0, end - 1));
        Some(s.substring_char(0, end - 1))
    } else {
        assert(v@.take(end as int) =~= v@.subrange(0, end as int));
        Some(s.substring_char(0, end))
    }
}

/// Whether `s` is empty or holds white space alone.
pub fn is_blank(s: &str) -> (r: bool)
    ensures
        r == blank(s@),
{
    proof {
        lemma_trimmed_empty_iff_blank(s@);
    }
    trim(s).is_empty()
}

/// `s` without `prefix` at its start, where it starts with it.
pub fn strip_prefix<'a>(s: &'a str, prefix: &str) -> (r: Option<&'a str>)
    ensures
        r is Some <==> prefix@.is_prefix_of(s@),
        r is Some ==> r.unwrap()@ == s@.skip(prefix@.len() as int),
{
    let v = chars_of(s);
    let p = chars_of(prefix);
    if p.len() > v.len() {
        return None;
    }
    let mut k: usize = 0;
    while k < p.len()
        invariant
            k <= p.len() <= v.len(),
            v@ == s@,
            p@ == prefix@,
            v@.take(k as int) == p@.take(k as int),
        decreases p.len() - k,
    {
        if v[k] != p[k] {
            proof {
                if p@.is_prefix_of(v@) {
                    let head = v@.subrange(0, p@.len() as int);
                    assert(p@ == head);
                    assert(head[k as int] == v@[k as int]);
                    assert(false);
                }
            }
            return None;
        }
        proof {
            assert(v@.take(k + 1) =~= v@.take(k as int).push(v@[k as int]));
            assert(p@.take(k + 1) =~= p@.take(k as int).push(p@[k as int]));
        }
        k += 1;
    }
    proof {
        assert(p@.take(p@.len() as int) =~= p@);
        assert(v@.subrange(0, p@.len() as int) =~= v@.take(p@.len() as int));
    }
    Some(s.substring_char(p.len(), v.len()))
}

} // verus!
