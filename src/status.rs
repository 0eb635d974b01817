use vstd::prelude::*;

use crate::text::{lemma_trim_first, leading_white_count, trim};

verus! {

/// The glyph that a finished session shows first in its title: U+2733,
/// eight-spoked asterisk.
pub const DONE_GLYPH: char = '\u{2733}';

/// Status of a session, read from the first character of its pane title.
#[derive(Debug, Clone, Copy, PartialEq, Eq, Structural)]
pub enum SessionStatus {
    /// Working: the title starts with a braille spinner frame.
    InProgress,
    /// Finished: the title starts with the done glyph.
    Done,
    /// Anything else.
    Unknown,
}

/// The braille-pattern code points that a spinner uses: U+2801..=U+28FF,
/// that is the block without its blank cell U+2800.
pub open spec fn is_spinner_frame(c: char) -> bool {
    0x2801 <= (c as u32) && (c as u32) <= 0x28ff
}

/// Status signalled by a title's first character.
pub open spec fn status_of_char(c: char) -> SessionStatus {
    if c == DONE_GLYPH {
        SessionStatus::Done
    } else if is_spinner_frame(c) {
        SessionStatus::InProgress
    } else {
        SessionStatus::Unknown
    }
}

/// Status of a title: that of the first character once it is trimmed, and
/// `Unknown` where nothing is left.
pub open spec fn status_of_title(title: Seq<char>) -> SessionStatus {
    let t = trim(title);
    if t.len() == 0 {
        SessionStatus::Unknown
    } else {
        status_of_char(t[0])
    }
}

/// The label under which a status is shown.
pub open spec fn status_label(s: SessionStatus) -> Seq<char> {
    match s {
        SessionStatus::InProgress => "in-progress"@,
        SessionStatus::Done => "done"@,
        SessionStatus::Unknown => "unknown"@,
    }
}

impl SessionStatus {
    /// The status as shown to a user: `in-progress`, `done` or `unknown`.
    pub fn to_string(&self) -> (r: String)
        ensures
            r@ == status_label(*self),
    {
        match self {
            SessionStatus::InProgress => String::from_str("in-progress"),
            SessionStatus::Done => String::from_str("done"),
            SessionStatus::Unknown => String::from_str("unknown"),
        }
    }
}

/// Whether `c` is a braille spinner frame (U+2801..=U+28FF).
pub fn is_braille_spinner(c: char) -> (r: bool)
    ensures
        r == is_spinner_frame(c),
{
    let code = c as u32;
    0x2801 <= code && code <= 0x28ff
}

/// Classifies a pane title. Only the first character of the trimmed title
/// counts: the done glyph gives `Done`, a spinner frame `InProgress`, anything
/// else, and an empty or blank title, `Unknown`.
pub fn parse_status_from_title(title: &str) -> (r: SessionStatus)
    ensures
        r == status_of_title(title@),
        trim(title@).len() == 0 ==> r == SessionStatus::Unknown,
        trim(title@).len() > 0 && trim(title@)[0] == DONE_GLYPH ==> r == SessionStatus::Done,
        trim(title@).len() > 0 && is_spinner_frame(trim(title@)[0]) ==> r
            == SessionStatus::InProgress,
        trim(title@).len() > 0 && ((trim(title@)[0] as u32) == 0x2800 || ('a' <= trim(title@)[0]
            && trim(title@)[0] <= 'z') || ('A' <= trim(title@)[0] && trim(title@)[0] <= 'Z'))
            ==> r == SessionStatus::Unknown,
{
    let k = leading_white_count(title);
    proof {
        lemma_trim_first(title@, k as int);
    }
    if k == title.unicode_len() {
        return SessionStatus::Unknown;
    }
    let first = title.get_char(k);
    if first == DONE_GLYPH {
        SessionStatus::Done
    } else if is_braille_spinner(first) {
        SessionStatus::InProgress
    } else {
        SessionStatus::Unknown
    }
}

} // verus!
