use vstd::prelude::*;

use crate::naming::{has_prefix, prefix_spec, starts_with_prefix};
use crate::text::{lines_of, split_lines, strip_cr};

verus! {

/// One live multiplexer session that carries the namespace prefix.
#[derive(Debug)]
pub struct Session {
    /// The session's name, prefix included.
    pub name: String,
    /// Whether a client is attached to it.
    pub attached: bool,
}

impl Session {
    /// The session's name carries the namespace prefix, as every session
    /// that a listing yields does.
    pub open spec fn is_managed(&self) -> bool {
        has_prefix(self.name@)
    }
}

impl View for Session {
    type V = (Seq<char>, bool);

    open spec fn view(&self) -> (Seq<char>, bool) {
        (self.name@, self.attached)
    }
}

/// The index of the first `:` of `l`, or its length where it holds none.
pub open spec fn first_colon(l: Seq<char>) -> int
    decreases l.len(),
{
    if l.len() == 0 {
        0
    } else if l[0] == ':' {
        0
    } else {
        1 + first_colon(l.drop_first())
    }
}

/// A listing line `<name>:<attached flag>` as a name and whether the flag is
/// exactly `1`; `None` for a line without the prefix or without a `:`.
pub open spec fn parse_entry(line: Seq<char>) -> Option<(Seq<char>, bool)> {
    let l = strip_cr(line);
    let c = first_colon(l);
    if has_prefix(l) && c < l.len() {
        Some((l.subrange(0, c), l.subrange(c + 1, l.len() as int) == "1"@))
    } else {
        None
    }
}

/// The managed sessions that a listing reports, in its order.
pub open spec fn managed_sessions(listing: Seq<char>) -> Seq<(Seq<char>, bool)> {
    split_lines(listing).filter_map(|l: Seq<char>| parse_entry(l))
}

proof fn lemma_first_colon_at(l: Seq<char>, k: int)
    requires
        0 <= k <= l.len(),
        forall|i: int| 0 <= i < k ==> #[trigger] l[i] != ':',
        k < l.len() ==> l[k] == ':',
    ensures
        first_colon(l) == k,
    decreases k,
{
    if k > 0 {
        let t = l.drop_first();
        assert forall|i: int| 0 <= i < k - 1 implies #[trigger] t[i] != ':' by {
            assert(t[i] == l[i + 1]);
        }
        lemma_first_colon_at(t, k - 1);
    }
}

/// Parses one listing line; see `parse_entry`.
pub fn parse_session_line(line: &str) -> (r: Option<Session>)
    ensures
        r is Some <==> parse_entry(line@) is Some,
        r is Some ==> parse_entry(line@) == Some(r->0@),
        r is Some ==> r->0.is_managed(),
{
    proof {
        reveal_strlit("1");
        reveal_strlit("ccx-");
    }
    let n0 = line.unicode_len();
    let l = if n0 > 0 && line.get_char(n0 - 1) == '\r' {
        line.substring_char(0, n0 - 1)
    } else {
        line
    };
    assert(l@ =~= strip_cr(line@));
    if !starts_with_prefix(l) {
        return None;
    }
    let n = l.unicode_len();
    let mut c: usize = 0;
    while c < n && l.get_char(c) != ':'
        invariant
            n == l@.len(),
            c <= n,
            forall|i: int| 0 <= i < c ==> #[trigger] l@[i] != ':',
        decreases n - c,
    {
        c = c + 1;
    }
    proof {
        lemma_first_colon_at(l@, c as int);
    }
    if c == n {
        return None;
    }
    let name = String::from_str(l.substring_char(0, c));
    let flag = l.substring_char(c + 1, n);
    let attached = flag.unicode_len() == 1 && flag.get_char(0) == '1';
    assert(attached == (flag@ == "1"@)) by {
        if flag@.len() == 1 && flag@[0] == '1' {
            assert(flag@ =~= "1"@);
        }
    }
    proof {
        // the prefix holds no colon, so the name keeps all of it
        assert(prefix_spec() =~= seq!['c', 'c', 'x', '-']);
        assert(l@.subrange(0, 4) == prefix_spec());
        assert(l@[0] == 'c' && l@[1] == 'c' && l@[2] == 'x' && l@[3] == '-') by {
            assert(l@[0] == l@.subrange(0, 4)[0]);
            assert(l@[1] == l@.subrange(0, 4)[1]);
            assert(l@[2] == l@.subrange(0, 4)[2]);
            assert(l@[3] == l@.subrange(0, 4)[3]);
        }
        assert(c >= 4);
        assert(name@.subrange(0, 4) =~= prefix_spec());
    }
    Some(Session { name, attached })
}

/// The managed sessions of a listing with one `<name>:<attached flag>` line
/// per session, in the listing's order. Lines whose name lacks the namespace
/// prefix, and lines without a `:`, are left out.
pub fn parse_session_list(listing: &str) -> (r: Vec<Session>)
    ensures
        r@.map_values(|s: Session| s@) == managed_sessions(listing@),
        forall|i: int| 0 <= i < r@.len() ==> (#[trigger] r@[i]).is_managed(),
{
    let lines = lines_of(listing);
    let ghost pieces = split_lines(listing@);
    let ghost f = |l: Seq<char>| parse_entry(l);
    let mut out: Vec<Session> = Vec::new();
    let mut i: usize = 0;
    while i < lines.len()
        invariant
            lines@.map_values(|l: String| l@) == pieces,
            i <= lines@.len(),
            out@.map_values(|s: Session| s@) == pieces.subrange(0, i as int).filter_map(f),
            f == (|l: Seq<char>| parse_entry(l)),
            forall|j: int| 0 <= j < out@.len() ==> has_prefix(#[trigger] out@[j].name@),
        decreases lines@.len() - i,
    {
        let entry = parse_session_line(lines[i].as_str());
        assert(pieces.subrange(0, i + 1).drop_last() =~= pieces.subrange(0, i as int));
        assert(pieces[i as int] == lines@[i as int]@);
        match entry {
            Some(s) => {
                out.push(s);
            },
            None => {},
        }
        assert(out@.map_values(|s: Session| s@) =~= pieces.subrange(0, i + 1).filter_map(f));
        i = i + 1;
    }
    assert(pieces.subrange(0, i as int) =~= pieces);
    out
}

} // verus!
