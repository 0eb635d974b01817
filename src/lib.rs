//! Lifecycle control and status inference for agent sessions hosted in a
//! terminal multiplexer.
//!
//! Everything here is pure logic over plain values: the multiplexer itself is
//! driven by the program around the library, which runs the invocations that
//! the library builds and hands the answers back in.
mod commands;
mod directory;
mod display;
mod gateway;
mod naming;
mod status;
mod table;
mod text;
mod watch;

pub use commands::{
    cmd_attach, cmd_send, cmd_start, cmd_stop, require_session, SessionError, StartPlan,
};
pub use directory::{parse_session_line, parse_session_list, Session};
pub use display::{is_prefix, recent_output, shorten_path, status_line};
pub use gateway::{agent_command, decimal_string, TmuxOp};
pub use naming::{
    generate_session_name, session_name_from_id, starts_with_prefix, SESSION_PREFIX,
};
pub use status::{is_braille_spinner, parse_status_from_title, SessionStatus, DONE_GLYPH};
pub use table::{list_table, name_at_most, pad_right, sort_by_name, NO_SESSIONS};
pub use text::{is_blank, is_whitespace_char, lines_of, trim_text};
pub use watch::{watch_frame, watch_tick, WatchState, WATCH_CAPTURE_LINES, WATCH_LINES};
