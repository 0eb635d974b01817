use vstd::prelude::*;

use crate::display::{last_n, nonblank_lines, recent_output};
use crate::status::{parse_status_from_title, status_label, status_of_title, SessionStatus};

verus! {

/// How many non-blank lines of pane content a watch frame shows.
pub const WATCH_LINES: usize = 15;

/// How many lines back a watch captures pane content.
pub const WATCH_CAPTURE_LINES: i32 = 20;

/// State of a watch: still polling, or ended because the session finished or
/// disappeared.
#[derive(Debug, Clone, Copy, PartialEq, Eq, Structural)]
pub enum WatchState {
    Polling,
    Done,
    Vanished,
}

/// The state after one tick, given whether the session still exists and its
/// current title.
pub open spec fn next_watch_state(exists: bool, title: Seq<char>) -> WatchState {
    if !exists {
        WatchState::Vanished
    } else if status_of_title(title) == SessionStatus::Done {
        WatchState::Done
    } else {
        WatchState::Polling
    }
}

/// One tick of a watch: `Vanished` where the session no longer exists (the
/// title is then not looked at), `Done` where its title says so, else
/// `Polling`, and the caller sleeps before the next tick.
pub fn watch_tick(exists: bool, title: &str) -> (r: WatchState)
    ensures
        r == next_watch_state(exists, title@),
        !exists ==> r == WatchState::Vanished,
{
    if !exists {
        WatchState::Vanished
    } else if parse_status_from_title(title) == SessionStatus::Done {
        WatchState::Done
    } else {
        WatchState::Polling
    }
}

/// The lines of one watch frame: a header with the session and its status,
/// a blank line, and the last non-blank lines of the captured content where
/// it could be read.
pub open spec fn frame_lines(session: Seq<char>, title: Seq<char>, capture: Option<Seq<char>>) -> Seq<
    Seq<char>,
> {
    let head = seq![
        "Session: "@ + session,
        "Status: "@ + status_label(status_of_title(title)),
        Seq::<char>::empty(),
    ];
    match capture {
        Some(c) => head + last_n(nonblank_lines(c), WATCH_LINES as nat),
        None => head,
    }
}

/// Renders one watch frame; see `frame_lines`.
pub fn watch_frame(session: &str, title: &str, capture: Option<&str>) -> (r: Vec<String>)
    ensures
        r@.map_values(|l: String| l@) == frame_lines(
            session@,
            title@,
            crate::text::opt_chars(capture),
        ),
{
    let status = parse_status_from_title(title);
    let mut out: Vec<String> = Vec::new();
    out.push(String::from_str("Session: ").concat(session));
    out.push(String::from_str("Status: ").concat(status.to_string().as_str()));
    out.push(String::new());
    let ghost head = out@.map_values(|l: String| l@);
    assert(head =~= seq![
        "Session: "@ + session@,
        "Status: "@ + status_label(status_of_title(title@)),
        Seq::<char>::empty(),
    ]);
    match capture {
        Some(c) => {
            let recent = recent_output(c, WATCH_LINES);
            let ghost tail = recent@.map_values(|l: String| l@);
            let mut i: usize = 0;
            while i < recent.len()
                invariant
                    i <= recent@.len(),
                    tail == recent@.map_values(|l: String| l@),
                    out@.map_values(|l: String| l@) == head + tail.subrange(0, i as int),
                decreases recent@.len() - i,
            {
                let line = String::from_str(recent[i].as_str());
                let ghost prev = out@;
                out.push(line);
                assert(out@.map_values(|l: String| l@) =~= prev.map_values(|l: String| l@).push(
                    line@,
                ));
                assert(tail.subrange(0, i + 1) =~= tail.subrange(0, i as int).push(tail[i as int]));
                i = i + 1;
            }
            assert(tail.subrange(0, i as int) =~= tail);
        },
        None => {
            assert(head + Seq::<Seq<char>>::empty() =~= head);
        },
    }
    out
}

} // verus!
