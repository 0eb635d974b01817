use vstd::prelude::*;

verus! {

/// The namespace prefix that marks a multiplexer session as managed here.
pub const SESSION_PREFIX: &'static str = "ccx-";

/// The lowercase hexadecimal digits, by value.
pub const HEX_DIGITS: &'static str = "0123456789abcdef";

/// The prefix as characters.
pub open spec fn prefix_spec() -> Seq<char> {
    "ccx-"@
}

/// The lowercase hexadecimal digit of value `d` (`0 <= d < 16`).
pub open spec fn hex_digit(d: int) -> char {
    "0123456789abcdef"@[d]
}

/// The `k`-th four-bit group of `id`, counted from the least significant.
pub open spec fn nibble(id: u32, k: int) -> u32 {
    (id >> ((4 * k) as u32)) & 0xf
}

/// `id` as eight lowercase hexadecimal digits, most significant first.
pub open spec fn hex8(id: u32) -> Seq<char> {
    Seq::new(8, |i: int| hex_digit(nibble(id, 7 - i) as int))
}

/// The session name derived from `id`.
pub open spec fn session_name_of(id: u32) -> Seq<char> {
    prefix_spec() + hex8(id)
}

/// Whether `s` carries the namespace prefix.
pub open spec fn has_prefix(s: Seq<char>) -> bool {
    s.len() >= prefix_spec().len() && s.subrange(0, prefix_spec().len() as int) == prefix_spec()
}

/// The identifier mixed from a timestamp and a process id.
pub open spec fn mixed_id(nanos: u32, pid: u32) -> u32 {
    ((nanos as int + pid as int) % 0x1_0000_0000) as u32
}

/// Mixes the low 32 bits of a nanosecond timestamp with the process id,
/// wrapping on overflow.
fn rand_id(nanos: u32, pid: u32) -> (r: u32)
    ensures
        r == mixed_id(nanos, pid),
{
    nanos.wrapping_add(pid)
}

/// The name `<prefix><8 lowercase hex digits of id>`.
pub fn session_name_from_id(id: u32) -> (r: String)
    ensures
        r@ == session_name_of(id),
        r@.len() == 12,
        has_prefix(r@),
{
    proof {
        reveal_strlit("ccx-");
        reveal_strlit("0123456789abcdef");
    }
    let mut out = String::from_str(SESSION_PREFIX);
    let mut j: usize = 0;
    while j < 8
        invariant
            j <= 8,
            out@ == prefix_spec() + hex8(id).subrange(0, j as int),
            HEX_DIGITS@ == "0123456789abcdef"@,
            HEX_DIGITS@.len() == 16,
        decreases 8 - j,
    {
        let k: u32 = 7 - j as u32;
        let d: u32 = (id >> (4 * k)) & 0xf;
        assert(d < 16) by (bit_vector)
            requires
                d == (id >> (4 * k)) & 0xf,
        ;
        assert(d == nibble(id, 7 - j));
        let digit = HEX_DIGITS.substring_char(d as usize, d as usize + 1);
        out.append(digit);
        assert(hex8(id).subrange(0, j + 1) =~= hex8(id).subrange(0, j as int).push(
            hex_digit(d as int),
        ));
        assert(digit@ =~= seq![hex_digit(d as int)]);
        j = j + 1;
    }
    assert(hex8(id).subrange(0, 8) =~= hex8(id));
    assert((prefix_spec() + hex8(id)).subrange(0, 4) =~= prefix_spec());
    out
}

/// A fresh session name from the low 32 bits of a nanosecond timestamp and
/// the calling process's id: `<prefix><8 lowercase hex digits>`.
pub fn generate_session_name(nanos: u32, pid: u32) -> (r: String)
    ensures
        r@ == session_name_of(mixed_id(nanos, pid)),
        has_prefix(r@),
{
    let id = rand_id(nanos, pid);
    session_name_from_id(id)
}

/// Distinct identifiers give distinct session names.
pub proof fn lemma_session_name_injective(a: u32, b: u32)
    requires
        a != b,
    ensures
        session_name_of(a) != session_name_of(b),
{
    reveal_strlit("0123456789abcdef");
    reveal_strlit("ccx-");
    assert(!((a >> 0) & 0xf == (b >> 0) & 0xf && (a >> 4) & 0xf == (b >> 4) & 0xf && (a >> 8)
        & 0xf == (b >> 8) & 0xf && (a >> 12) & 0xf == (b >> 12) & 0xf && (a >> 16) & 0xf == (b
        >> 16) & 0xf && (a >> 20) & 0xf == (b >> 20) & 0xf && (a >> 24) & 0xf == (b >> 24) & 0xf
        && (a >> 28) & 0xf == (b >> 28) & 0xf)) by (bit_vector)
        requires
            a != b,
    ;
    let k: int = choose|k: int| 0 <= k < 8 && nibble(a, k) != nibble(b, k);
    assert(0 <= k < 8 && nibble(a, k) != nibble(b, k)) by {
        assert(nibble(a, 0) == (a >> 0) & 0xf);
        assert(nibble(a, 1) == (a >> 4) & 0xf);
        assert(nibble(a, 2) == (a >> 8) & 0xf);
        assert(nibble(a, 3) == (a >> 12) & 0xf);
        assert(nibble(a, 4) == (a >> 16) & 0xf);
        assert(nibble(a, 5) == (a >> 20) & 0xf);
        assert(nibble(a, 6) == (a >> 24) & 0xf);
        assert(nibble(a, 7) == (a >> 28) & 0xf);
        assert(nibble(b, 0) == (b >> 0) & 0xf);
        assert(nibble(b, 1) == (b >> 4) & 0xf);
        assert(nibble(b, 2) == (b >> 8) & 0xf);
        assert(nibble(b, 3) == (b >> 12) & 0xf);
        assert(nibble(b, 4) == (b >> 16) & 0xf);
        assert(nibble(b, 5) == (b >> 20) & 0xf);
        assert(nibble(b, 6) == (b >> 24) & 0xf);
        assert(nibble(b, 7) == (b >> 28) & 0xf);
    }
    let x = nibble(a, k);
    let y = nibble(b, k);
    assert(x < 16 && y < 16) by {
        let s = (4 * k) as u32;
        assert((a >> s) & 0xf < 16 && (b >> s) & 0xf < 16) by (bit_vector);
    }
    assert(hex_digit(x as int) != hex_digit(y as int));
    assert(session_name_of(a)[4 + 7 - k] == hex_digit(x as int));
    assert(session_name_of(b)[4 + 7 - k] == hex_digit(y as int));
}

/// Whether `s` starts with the namespace prefix.
pub fn starts_with_prefix(s: &str) -> (r: bool)
    ensures
        r == has_prefix(s@),
{
    proof {
        reveal_strlit("ccx-");
    }
    let n = s.unicode_len();
    let p = SESSION_PREFIX;
    let m = p.unicode_len();
    if n < m {
        return false;
    }
    let mut j: usize = 0;
    while j < m
        invariant
            m == prefix_spec().len(),
            p@ == prefix_spec(),
            m <= n == s@.len(),
            j <= m,
            forall|i: int| 0 <= i < j ==> s@[i] == prefix_spec()[i],
        decreases m - j,
    {
        if s.get_char(j) != p.get_char(j) {
            return false;
        }
        j = j + 1;
    }
    assert(s@.subrange(0, m as int) =~= prefix_spec());
    true
}

} // verus!
