use ccx::{watch_frame, watch_tick, WatchState};

#[test]
fn watch_ends_vanished_when_session_disappears() {
    // first tick: still there and working; second: gone
    assert_eq!(watch_tick(true, "⠙ compiling"), WatchState::Polling);
    assert_eq!(watch_tick(false, ""), WatchState::Vanished);
    assert_eq!(watch_tick(false, "✳ done"), WatchState::Vanished);
}

#[test]
fn watch_ends_done_on_done_title() {
    assert_eq!(watch_tick(true, "✳ Build finished"), WatchState::Done);
    assert_eq!(watch_tick(true, ""), WatchState::Polling);
}

#[test]
fn watch_frame_layout() {
    let frame = watch_frame("ccx-1", "⠙ x", Some("l1\n\nl2\n"));
    assert_eq!(
        frame,
        vec!["Session: ccx-1", "Status: in-progress", "", "l1", "l2"]
    );
    let content: String = (0..30).map(|i| format!("line{}\n", i)).collect();
    let frame = watch_frame("ccx-1", "", Some(&content));
    assert_eq!(frame.len(), 3 + 15);
    assert_eq!(frame[3], "line15");
    assert_eq!(frame[17], "line29");
    assert_eq!(
        watch_frame("ccx-1", "✳", None),
        vec!["Session: ccx-1", "Status: done", ""]
    );
}
