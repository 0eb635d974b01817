use vstd::prelude::*;

use crate::status::{parse_status_from_title, status_label, status_of_title, SessionStatus};
use crate::text::{all_white, opt_chars, is_blank, lines_of, split_lines, strip_cr, strip_cr_str};

verus! {

/// A line as shown: without a trailing carriage return; `None` where it is
/// blank.
pub open spec fn shown_line(l: Seq<char>) -> Option<Seq<char>> {
    if all_white(strip_cr(l)) {
        None
    } else {
        Some(strip_cr(l))
    }
}

/// The non-blank lines of `text`, in order.
pub open spec fn nonblank_lines(text: Seq<char>) -> Seq<Seq<char>> {
    split_lines(text).filter_map(|l: Seq<char>| shown_line(l))
}

/// The last `n` items of `s`, or all of them where there are fewer.
pub open spec fn last_n<A>(s: Seq<A>, n: nat) -> Seq<A> {
    if s.len() <= n {
        s
    } else {
        s.subrange(s.len() - n, s.len() as int)
    }
}

/// The last `n` non-blank lines of captured pane content, in order.
pub fn recent_output(content: &str, n: usize) -> (r: Vec<String>)
    ensures
        r@.map_values(|l: String| l@) == last_n(nonblank_lines(content@), n as nat),
{
    let lines = lines_of(content);
    let ghost pieces = split_lines(content@);
    let ghost f = |l: Seq<char>| shown_line(l);
    let mut kept: Vec<String> = Vec::new();
    let mut i: usize = 0;
    while i < lines.len()
        invariant
            lines@.map_values(|l: String| l@) == pieces,
            i <= lines@.len(),
            kept@.map_values(|l: String| l@) == pieces.subrange(0, i as int).filter_map(f),
            f == (|l: Seq<char>| shown_line(l)),
        decreases lines@.len() - i,
    {
        let line = strip_cr_str(lines[i].as_str());
        assert(pieces.subrange(0, i + 1).drop_last() =~= pieces.subrange(0, i as int));
        assert(pieces[i as int] == lines@[i as int]@);
        if !is_blank(line) {
            kept.push(String::from_str(line));
        }
        assert(kept@.map_values(|l: String| l@) =~= pieces.subrange(0, i + 1).filter_map(f));
        i = i + 1;
    }
    assert(pieces.subrange(0, i as int) =~= pieces);
    let ghost all = kept@.map_values(|l: String| l@);
    let start: usize = if kept.len() <= n {
        0
    } else {
        kept.len() - n
    };
    let mut out: Vec<String> = Vec::new();
    let mut j: usize = start;
    while j < kept.len()
        invariant
            all == kept@.map_values(|l: String| l@),
            start <= j <= kept@.len(),
            out@.map_values(|l: String| l@) == all.subrange(start as int, j as int),
        decreases kept@.len() - j,
    {
        let line = String::from_str(kept[j].as_str());
        assert(line@ == all[j as int]);
        let ghost prev = out@;
        out.push(line);
        assert(out@ == prev.push(line));
        assert(out@.map_values(|l: String| l@) =~= prev.map_values(|l: String| l@).push(line@));
        assert(out@.map_values(|l: String| l@) =~= all.subrange(start as int, j + 1));
        j = j + 1;
    }
    assert(out@.map_values(|l: String| l@) =~= last_n(all, n as nat));
    out
}

/// `path` with a leading `home` replaced by `~`.
pub open spec fn shortened(path: Seq<char>, home: Option<Seq<char>>) -> Seq<char> {
    match home {
        Some(h) => if h.is_prefix_of(path) {
            seq!['~'] + path.subrange(h.len() as int, path.len() as int)
        } else {
            path
        },
        None => path,
    }
}

/// Whether `p` is a prefix of `s`.
pub fn is_prefix(p: &str, s: &str) -> (r: bool)
    ensures
        r == p@.is_prefix_of(s@),
{
    let m = p.unicode_len();
    let n = s.unicode_len();
    if m > n {
        return false;
    }
    let mut j: usize = 0;
    while j < m
        invariant
            m == p@.len(),
            n == s@.len(),
            m <= n,
            j <= m,
            forall|i: int| 0 <= i < j ==> p@[i] == s@[i],
        decreases m - j,
    {
        if p.get_char(j) != s.get_char(j) {
            return false;
        }
        j = j + 1;
    }
    true
}

/// Shortens a path for display: a leading home directory becomes `~`.
pub fn shorten_path(path: &str, home: Option<&str>) -> (r: String)
    ensures
        r@ == shortened(path@, opt_chars(home)),
{
    proof {
        reveal_strlit("~");
    }
    match home {
        Some(h) => {
            if is_prefix(h, path) {
                let rest = path.substring_char(h.unicode_len(), path.unicode_len());
                let r = String::from_str("~").concat(rest);
                assert(r@ =~= seq!['~'] + path@.subrange(h@.len() as int, path@.len() as int));
                r
            } else {
                String::from_str(path)
            }
        },
        None => String::from_str(path),
    }
}

/// The line that shows one session in the status overview:
/// `<name>[ *<status>*][ [<title>]][ <directory>]`, the status only where it
/// is known, the title only where it is not empty, the working directory
/// (shortened) only where it could be read.
pub open spec fn overview_line(
    name: Seq<char>,
    title: Seq<char>,
    cwd: Option<Seq<char>>,
    home: Option<Seq<char>>,
) -> Seq<char> {
    let st = status_of_title(title);
    let status_part = if st == SessionStatus::Unknown {
        Seq::empty()
    } else {
        " *"@ + status_label(st) + "*"@
    };
    let title_part = if title.len() == 0 {
        Seq::empty()
    } else {
        " ["@ + title + "]"@
    };
    let cwd_part = match cwd {
        Some(p) => " "@ + shortened(p, home),
        None => Seq::empty(),
    };
    name + status_part + title_part + cwd_part
}

/// Renders one session of the status overview; see `overview_line`.
pub fn status_line(name: &str, title: &str, cwd: Option<&str>, home: Option<&str>) -> (r: String)
    ensures
        r@ == overview_line(name@, title@, opt_chars(cwd), opt_chars(home)),
{
    let status = parse_status_from_title(title);
    let mut out = String::from_str(name);
    let ghost status_part;
    if status != SessionStatus::Unknown {
        let label = status.to_string();
        out.append(" *");
        out.append(label.as_str());
        out.append("*");
        proof {
            status_part = " *"@ + status_label(status) + "*"@;
        }
    } else {
        proof {
            status_part = Seq::empty();
        }
    }
    assert(out@ =~= name@ + status_part);
    let ghost title_part;
    if title.unicode_len() > 0 {
        out.append(" [");
        out.append(title);
        out.append("]");
        proof {
            title_part = " ["@ + title@ + "]"@;
        }
    } else {
        proof {
            title_part = Seq::empty();
        }
    }
    assert(out@ =~= name@ + status_part + title_part);
    match cwd {
        Some(p) => {
            let short = shorten_path(p, home);
            out.append(" ");
            out.append(short.as_str());
        },
        None => {},
    }
    assert(out@ =~= overview_line(name@, title@, opt_chars(cwd), opt_chars(home)));
    out
}

} // verus!
