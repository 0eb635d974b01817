use vstd::prelude::*;

use crate::directory::Session;

verus! {

/// Width of the session column of the listing table.
pub const NAME_WIDTH: usize = 20;

/// Width of the attached column of the listing table.
pub const ATTACHED_WIDTH: usize = 10;

/// The notice shown where no managed session exists.
pub const NO_SESSIONS: &'static str = "No active ccx sessions";

/// Lexicographic order of names, by code point.
pub open spec fn name_le(a: Seq<char>, b: Seq<char>) -> bool
    decreases a.len(),
{
    if a.len() == 0 {
        true
    } else if b.len() == 0 {
        false
    } else if (a[0] as u32) != (b[0] as u32) {
        (a[0] as u32) < (b[0] as u32)
    } else {
        name_le(a.drop_first(), b.drop_first())
    }
}

/// Each session's name is at most the next one's.
pub open spec fn sorted_by_name(s: Seq<Session>) -> bool {
    forall|i: int| 0 <= i < s.len() - 1 ==> name_le(#[trigger] s[i].name@, s[i + 1].name@)
}

/// Of two names, one is at most the other.
pub proof fn lemma_name_le_total(a: Seq<char>, b: Seq<char>)
    ensures
        name_le(a, b) || name_le(b, a),
    decreases a.len(),
{
    if a.len() > 0 && b.len() > 0 && (a[0] as u32) == (b[0] as u32) {
        lemma_name_le_total(a.drop_first(), b.drop_first());
    }
}

proof fn lemma_name_le_skip(a: Seq<char>, b: Seq<char>, k: int)
    requires
        0 <= k <= a.len(),
        k <= b.len(),
        forall|i: int| 0 <= i < k ==> (#[trigger] a[i] as u32) == (b[i] as u32),
    ensures
        name_le(a, b) == name_le(a.subrange(k, a.len() as int), b.subrange(k, b.len() as int)),
    decreases k,
{
    if k == 0 {
        assert(a.subrange(0, a.len() as int) =~= a);
        assert(b.subrange(0, b.len() as int) =~= b);
    } else {
        let a1 = a.drop_first();
        let b1 = b.drop_first();
        assert forall|i: int| 0 <= i < k - 1 implies (#[trigger] a1[i] as u32) == (b1[i] as u32) by {
            assert(a1[i] == a[i + 1] && b1[i] == b[i + 1]);
        }
        lemma_name_le_skip(a1, b1, k - 1);
        assert(a1.subrange(k - 1, a1.len() as int) =~= a.subrange(k, a.len() as int));
        assert(b1.subrange(k - 1, b1.len() as int) =~= b.subrange(k, b.len() as int));
    }
}

/// Whether name `a` is at most name `b`.
pub fn name_at_most(a: &str, b: &str) -> (r: bool)
    ensures
        r == name_le(a@, b@),
{
    let la = a.unicode_len();
    let lb = b.unicode_len();
    let mut k: usize = 0;
    while k < la && k < lb && (a.get_char(k) as u32) == (b.get_char(k) as u32)
        invariant
            la == a@.len(),
            lb == b@.len(),
            k <= la && k <= lb,
            forall|i: int| 0 <= i < k ==> (#[trigger] a@[i] as u32) == (b@[i] as u32),
        decreases la - k,
    {
        k = k + 1;
    }
    proof {
        lemma_name_le_skip(a@, b@, k as int);
    }
    let ghost ra = a@.subrange(k as int, la as int);
    let ghost rb = b@.subrange(k as int, lb as int);
    if k == la {
        assert(ra.len() == 0);
        true
    } else if k == lb {
        assert(rb.len() == 0);
        false
    } else {
        assert(ra[0] == a@[k as int] && rb[0] == b@[k as int]);
        (a.get_char(k) as u32) < (b.get_char(k) as u32)
    }
}

/// The sessions ordered by name; sessions of equal name keep their order.
pub fn sort_by_name(sessions: Vec<Session>) -> (r: Vec<Session>)
    ensures
        sorted_by_name(r@),
        r@.to_multiset() == sessions@.to_multiset(),
{
    broadcast use vstd::seq_lib::group_to_multiset_ensures;

    let mut rest = sessions;
    let mut out: Vec<Session> = Vec::new();
    while rest.len() > 0
        invariant
            sorted_by_name(out@),
            out@.to_multiset().add(rest@.to_multiset()) == sessions@.to_multiset(),
        decreases rest@.len(),
    {
        let ghost before = rest@;
        let x = rest.pop().unwrap();
        assert(before == rest@.push(x));
        proof {
            rest@.to_multiset_ensures();
        }
        let mut p: usize = 0;
        while p < out.len() && name_at_most(out[p].name.as_str(), x.name.as_str())
            invariant
                p <= out@.len(),
                forall|j: int| 0 <= j < p ==> name_le(#[trigger] out@[j].name@, x.name@),
            decreases out@.len() - p,
        {
            p = p + 1;
        }
        if p < out.len() {
            proof {
                lemma_name_le_total(out@[p as int].name@, x.name@);
            }
        }
        let ghost prev = out@;
        out.insert(p, x);
        assert(out@.remove(p as int) =~= prev);
        assert(out@[p as int] == x);
        assert(out@.contains(x));
        proof {
            out@.to_multiset_ensures();
            prev.to_multiset_ensures();
            rest@.to_multiset_ensures();
        }
        assert(out@.to_multiset().count(x) > 0);
        assert(prev.to_multiset() =~= out@.to_multiset().remove(x));
        assert(out@.to_multiset() =~= prev.to_multiset().insert(x));
        assert(sorted_by_name(out@)) by {
            assert forall|i: int| 0 <= i < out@.len() - 1 implies name_le(
                #[trigger] out@[i].name@,
                out@[i + 1].name@,
            ) by {
                if i < p - 1 {
                    assert(out@[i] == prev[i] && out@[i + 1] == prev[i + 1]);
                } else if i == p - 1 {
                    assert(out@[i] == prev[i] && out@[i + 1] == x);
                } else if i == p {
                    assert(out@[i] == x && out@[i + 1] == prev[i]);
                } else {
                    assert(out@[i] == prev[i - 1] && out@[i + 1] == prev[i]);
                }
            }
        }
    }
    out
}

/// `s` filled on the right with `fill` up to `w` characters.
pub open spec fn padded(s: Seq<char>, w: nat, fill: char) -> Seq<char> {
    if s.len() >= w {
        s
    } else {
        s + Seq::new((w - s.len()) as nat, |i: int| fill)
    }
}

/// `s` filled on the right with `fill` up to `w` characters.
pub fn pad_right(s: &str, w: usize, fill: &str) -> (r: String)
    requires
        fill@.len() == 1,
    ensures
        r@ == padded(s@, w as nat, fill@[0]),
{
    let mut out = String::from_str(s);
    let mut n = s.unicode_len();
    while n < w
        invariant
            fill@.len() == 1,
            n >= s@.len(),
            n > s@.len() ==> n <= w,
            out@ == s@ + Seq::new((n - s@.len()) as nat, |i: int| fill@[0]),
        decreases w - n,
    {
        out.append(fill);
        n = n + 1;
        assert(out@ =~= s@ + Seq::new((n - s@.len()) as nat, |i: int| fill@[0]));
    }
    proof {
        if n == s@.len() {
            assert(out@ =~= s@);
        }
    }
    out
}

/// A row of the listing table.
pub open spec fn table_row(name: Seq<char>, attached: Seq<char>) -> Seq<char> {
    padded(name, NAME_WIDTH as nat, ' ') + " "@ + padded(attached, ATTACHED_WIDTH as nat, ' ')
}

/// How a session's attached flag is shown.
pub open spec fn attached_label(attached: bool) -> Seq<char> {
    if attached {
        "yes"@
    } else {
        "no"@
    }
}

/// The listing table for sessions in the given order: a header, a rule, and
/// one row per session; a single notice where there are none.
pub open spec fn table_lines(s: Seq<Session>) -> Seq<Seq<char>> {
    if s.len() == 0 {
        seq!["No active ccx sessions"@]
    } else {
        seq![
            table_row("SESSION"@, "ATTACHED"@),
            padded(Seq::empty(), NAME_WIDTH as nat, '-') + " "@ + padded(
                Seq::empty(),
                ATTACHED_WIDTH as nat,
                '-',
            ),
        ] + Seq::new(s.len(), |i: int| table_row(s[i].name@, attached_label(s[i].attached)))
    }
}

/// The listing table of the sessions, ordered by name.
pub fn list_table(sessions: Vec<Session>) -> (r: Vec<String>)
    ensures
        exists|s: Seq<Session>|
            sorted_by_name(s) && s.to_multiset() == sessions@.to_multiset() && r@.map_values(
                |l: String| l@,
            ) == #[trigger] table_lines(s),
{
    proof {
        reveal_strlit(" ");
        reveal_strlit("-");
    }
    let sorted = sort_by_name(sessions);
    let mut out: Vec<String> = Vec::new();
    if sorted.len() == 0 {
        out.push(String::from_str(NO_SESSIONS));
        assert(out@.map_values(|l: String| l@) =~= table_lines(sorted@));
        return out;
    }
    let header = pad_right("SESSION", NAME_WIDTH, " ").concat(" ").concat(
        pad_right("ATTACHED", ATTACHED_WIDTH, " ").as_str(),
    );
    out.push(header);
    let rule = pad_right("", NAME_WIDTH, "-").concat(" ").concat(
        pad_right("", ATTACHED_WIDTH, "-").as_str(),
    );
    proof {
        reveal_strlit("");
    }
    out.push(rule);
    let ghost head = out@.map_values(|l: String| l@);
    let ghost rows = Seq::new(
        sorted@.len(),
        |i: int| table_row(sorted@[i].name@, attached_label(sorted@[i].attached)),
    );
    assert(head =~= table_lines(sorted@).subrange(0, 2));
    let mut i: usize = 0;
    while i < sorted.len()
        invariant
            i <= sorted@.len(),
            rows == Seq::new(
                sorted@.len(),
                |i: int| table_row(sorted@[i].name@, attached_label(sorted@[i].attached)),
            ),
            out@.map_values(|l: String| l@) == head + rows.subrange(0, i as int),
        decreases sorted@.len() - i,
    {
        proof {
            reveal_strlit(" ");
        }
        let flag = if sorted[i].attached {
            "yes"
        } else {
            "no"
        };
        let row = pad_right(sorted[i].name.as_str(), NAME_WIDTH, " ").concat(" ").concat(
            pad_right(flag, ATTACHED_WIDTH, " ").as_str(),
        );
        assert(row@ == rows[i as int]);
        let ghost prev = out@;
        out.push(row);
        assert(out@.map_values(|l: String| l@) =~= prev.map_values(|l: String| l@).push(row@));
        assert(rows.subrange(0, i + 1) =~= rows.subrange(0, i as int).push(rows[i as int]));
        i = i + 1;
    }
    assert(out@.map_values(|l: String| l@) =~= table_lines(sorted@));
    out
}

} // verus!
