use vstd::prelude::*;

verus! {

/// The characters with Unicode's White_Space property (PropList.txt).
pub open spec fn is_white_space(c: char) -> bool {
    let u = c as u32;
    (0x9 <= u && u <= 0xd) || u == 0x20 || u == 0x85 || u == 0xa0 || u == 0x1680 || (0x2000
        <= u && u <= 0x200a) || u == 0x2028 || u == 0x2029 || u == 0x202f || u == 0x205f || u
        == 0x3000
}

/// `s` without its leading white space.
pub open spec fn trim_start(s: Seq<char>) -> Seq<char>
    decreases s.len(),
{
    if s.len() > 0 && is_white_space(s[0]) {
        trim_start(s.drop_first())
    } else {
        s
    }
}

/// `s` without its trailing white space.
pub open spec fn trim_end(s: Seq<char>) -> Seq<char>
    decreases s.len(),
{
    if s.len() > 0 && is_white_space(s.last()) {
        trim_end(s.drop_last())
    } else {
        s
    }
}

/// The characters of an optional text.
pub open spec fn opt_chars(o: Option<&str>) -> Option<Seq<char>> {
    match o {
        Some(s) => Some(s@),
        None => None,
    }
}

/// `s` without leading and trailing white space.
pub open spec fn trim(s: Seq<char>) -> Seq<char> {
    trim_end(trim_start(s))
}

/// Every character of `s` is white space (so an empty `s` is blank too).
pub open spec fn all_white(s: Seq<char>) -> bool {
    forall|i: int| 0 <= i < s.len() ==> is_white_space(#[trigger] s[i])
}

/// Whether `c` is white space in Unicode's sense.
pub fn is_whitespace_char(c: char) -> (r: bool)
    ensures
        r == is_white_space(c),
{
    let u = c as u32;
    (0x9 <= u && u <= 0xd) || u == 0x20 || u == 0x85 || u == 0xa0 || u == 0x1680 || (0x2000
        <= u && u <= 0x200a) || u == 0x2028 || u == 0x2029 || u == 0x202f || u == 0x205f || u
        == 0x3000
}

/// Skipping `k` leading white-space characters, up to the first other one,
/// is what `trim_start` does.
pub proof fn lemma_trim_start_at(s: Seq<char>, k: int)
    requires
        0 <= k <= s.len(),
        forall|i: int| 0 <= i < k ==> is_white_space(#[trigger] s[i]),
        k < s.len() ==> !is_white_space(s[k]),
    ensures
        trim_start(s) == s.subrange(k, s.len() as int),
    decreases k,
{
    if k == 0 {
        assert(s.subrange(0, s.len() as int) =~= s);
    } else {
        let t = s.drop_first();
        assert forall|i: int| 0 <= i < k - 1 implies is_white_space(#[trigger] t[i]) by {
            assert(t[i] == s[i + 1]);
        }
        lemma_trim_start_at(t, k - 1);
        assert(t.subrange(k - 1, t.len() as int) =~= s.subrange(k, s.len() as int));
    }
}

/// Trimming the end keeps a first character that is not white space.
pub proof fn lemma_trim_end_keeps_first(s: Seq<char>)
    requires
        s.len() > 0,
        !is_white_space(s[0]),
    ensures
        trim_end(s).len() > 0,
        trim_end(s)[0] == s[0],
    decreases s.len(),
{
    if is_white_space(s.last()) {
        lemma_trim_end_keeps_first(s.drop_last());
    }
}

/// Where `k` leading characters are white space and the next is not (or
/// there is none), the trimmed text is empty exactly when `k` reaches the end,
/// and otherwise starts with that next character.
pub proof fn lemma_trim_first(s: Seq<char>, k: int)
    requires
        0 <= k <= s.len(),
        forall|i: int| 0 <= i < k ==> is_white_space(#[trigger] s[i]),
        k < s.len() ==> !is_white_space(s[k]),
    ensures
        (trim(s).len() == 0) == (k == s.len()),
        k < s.len() ==> trim(s)[0] == s[k],
{
    lemma_trim_start_at(s, k);
    let t = s.subrange(k, s.len() as int);
    if k < s.len() {
        lemma_trim_end_keeps_first(t);
    } else {
        assert(t.len() == 0);
    }
}

/// The number of leading white-space characters of `s`.
pub fn leading_white_count(s: &str) -> (k: usize)
    ensures
        k <= s@.len(),
        forall|i: int| 0 <= i < k ==> is_white_space(#[trigger] s@[i]),
        k < s@.len() ==> !is_white_space(s@[k as int]),
{
    let n = s.unicode_len();
    let mut k: usize = 0;
    while k < n
        invariant
            n == s@.len(),
            k <= n,
            forall|i: int| 0 <= i < k ==> is_white_space(#[trigger] s@[i]),
        decreases n - k,
    {
        if !is_whitespace_char(s.get_char(k)) {
            return k;
        }
        k = k + 1;
    }
    k
}

/// Whether `s` is empty once trimmed, that is, holds only white space.
pub fn is_blank(s: &str) -> (r: bool)
    ensures
        r == (trim(s@).len() == 0),
        r == all_white(s@),
{
    let k = leading_white_count(s);
    proof {
        lemma_trim_first(s@, k as int);
    }
    k == s.unicode_len()
}

/// The pieces of `s` between line feeds, in order; always at least one.
pub open spec fn split_lines(s: Seq<char>) -> Seq<Seq<char>>
    decreases s.len(),
{
    if s.len() == 0 {
        seq![Seq::empty()]
    } else {
        let p = split_lines(s.drop_last());
        if s.last() == '\n' {
            p.push(Seq::empty())
        } else {
            p.update(p.len() - 1, p.last().push(s.last()))
        }
    }
}

/// A line without one trailing carriage return.
pub open spec fn strip_cr(l: Seq<char>) -> Seq<char> {
    if l.len() > 0 && l.last() == '\r' {
        l.drop_last()
    } else {
        l
    }
}

/// The pieces of `text` between line feeds, in order.
pub fn lines_of(text: &str) -> (r: Vec<String>)
    ensures
        r@.map_values(|l: String| l@) == split_lines(text@),
{
    let n = text.unicode_len();
    let mut out: Vec<String> = Vec::new();
    let mut start: usize = 0;
    let mut i: usize = 0;
    assert(text@.subrange(0, 0) =~= Seq::<char>::empty());
    assert(split_lines(Seq::<char>::empty()) == seq![Seq::<char>::empty()]);
    assert(split_lines(text@.subrange(0, 0)) =~= out@.map_values(|l: String| l@).push(
        text@.subrange(0, 0),
    ));
    while i < n
        invariant
            n == text@.len(),
            start <= i <= n,
            split_lines(text@.subrange(0, i as int)) == out@.map_values(|l: String| l@).push(
                text@.subrange(start as int, i as int),
            ),
        decreases n - i,
    {
        let ch = text.get_char(i);
        let ghost done = out@.map_values(|l: String| l@);
        let ghost next = text@.subrange(0, i + 1);
        assert(next.drop_last() =~= text@.subrange(0, i as int));
        assert(next.last() == ch);
        if ch == '\n' {
            let line = String::from_str(text.substring_char(start, i));
            out.push(line);
            assert(out@.map_values(|l: String| l@) =~= done.push(
                text@.subrange(start as int, i as int),
            ));
            assert(text@.subrange(i + 1, i + 1) =~= Seq::<char>::empty());
            assert(split_lines(next) =~= out@.map_values(|l: String| l@).push(Seq::empty()));
            start = i + 1;
        } else {
            assert(text@.subrange(start as int, i + 1) =~= text@.subrange(
                start as int,
                i as int,
            ).push(ch));
            assert(split_lines(next) =~= done.push(text@.subrange(start as int, i + 1)));
        }
        i = i + 1;
    }
    let ghost done = out@.map_values(|l: String| l@);
    let last = String::from_str(text.substring_char(start, n));
    out.push(last);
    assert(text@.subrange(0, n as int) =~= text@);
    assert(out@.map_values(|l: String| l@) =~= done.push(text@.subrange(start as int, n as int)));
    out
}

/// Dropping the white-space characters from `m` on, back to the last other
/// one, is what `trim_end` does.
pub proof fn lemma_trim_end_at(s: Seq<char>, m: int)
    requires
        0 <= m <= s.len(),
        forall|i: int| m <= i < s.len() ==> is_white_space(#[trigger] s[i]),
        m > 0 ==> !is_white_space(s[m - 1]),
    ensures
        trim_end(s) == s.subrange(0, m),
    decreases s.len() - m,
{
    if m == s.len() {
        assert(s.subrange(0, m) =~= s);
    } else {
        let t = s.drop_last();
        lemma_trim_end_at(t, m);
        assert(t.subrange(0, m) =~= s.subrange(0, m));
    }
}

/// `s` without one trailing carriage return.
pub fn strip_cr_str(s: &str) -> (r: &str)
    ensures
        r@ == strip_cr(s@),
{
    let n = s.unicode_len();
    if n > 0 && s.get_char(n - 1) == '\r' {
        let r = s.substring_char(0, n - 1);
        assert(r@ =~= strip_cr(s@));
        r
    } else {
        s
    }
}

/// `s` without leading and trailing white space.
pub fn trim_text(s: &str) -> (r: String)
    ensures
        r@ == trim(s@),
{
    let k = leading_white_count(s);
    proof {
        lemma_trim_start_at(s@, k as int);
    }
    let rest = s.substring_char(k, s.unicode_len());
    let mut m: usize = rest.unicode_len();
    while m > 0 && is_whitespace_char(rest.get_char(m - 1))
        invariant
            m <= rest@.len(),
            forall|i: int| m <= i < rest@.len() ==> is_white_space(#[trigger] rest@[i]),
        decreases m,
    {
        m = m - 1;
    }
    proof {
        lemma_trim_end_at(rest@, m as int);
    }
    String::from_str(rest.substring_char(0, m))
}

} // verus!
