use simplay::events::{
    fallback_sleep_ms, fallback_step, fallback_wait_ms, on_end_file, tracker_superseded,
    FallbackStep,
};
use simplay::state::{PlaybackError, State};
use simplay::track::Song;

fn song(id: &str, duration: Option<u32>) -> Song {
    Song {
        id: id.to_string(),
        title: format!("Title {}", id),
        artist: "Artist".to_string(),
        album: "Album".to_string(),
        duration,
        track: None,
        disc: None,
    }
}

fn ids(state: &State) -> Option<String> {
    state.current_song().map(|s| s.id)
}

#[test]
fn load_then_status_shows_first_track() {
    let mut st = State::new(500);
    let first = st.load(vec![song("1", None), song("2", Some(200))], false, false).unwrap();
    assert_eq!(first.id, "1");
    let status = st.status();
    let current = status.song.expect("a current track");
    assert_eq!(current.id, "1");
    assert_eq!(current.title, "Title 1");
    assert!(!status.paused);
    assert_eq!(status.index, 0);
    assert_eq!(status.queue_len, 2);
    assert_eq!(fallback_wait_ms(&first), None);
}

#[test]
fn load_of_empty_queue_is_refused() {
    let mut st = State::new(500);
    assert_eq!(st.load(Vec::new(), true, true).unwrap_err(), PlaybackError::NoSongs);
    assert_eq!(PlaybackError::NoSongs.message(), "No songs to play");
    assert_eq!(st.status().queue_len, 0);
    assert!(st.status().song.is_none());
}

#[test]
fn single_track_repeat_wraps_to_itself() {
    let mut st = State::new(500);
    st.load(vec![song("7", Some(100))], true, false).unwrap();
    for _ in 0..2 {
        let next = st.advance(true, None).unwrap().unwrap();
        assert_eq!(next.id, "7");
        assert_eq!(st.status().index, 0);
        assert_eq!(ids(&st), Some("7".to_string()));
    }
}

#[test]
fn advancing_without_repeat_runs_out() {
    let mut st = State::new(500);
    st.load(vec![song("a", None), song("b", None), song("c", None)], false, false).unwrap();
    assert_eq!(st.advance(true, None).unwrap().unwrap().id, "b");
    assert_eq!(st.advance(true, None).unwrap().unwrap().id, "c");
    let before = st.status();
    assert_eq!(st.advance(true, None).unwrap_err(), PlaybackError::EndOfQueue);
    assert_eq!(st.status(), before);
    assert_eq!(PlaybackError::EndOfQueue.message(), "End of queue");
}

#[test]
fn advance_on_empty_queue_fails() {
    let mut st = State::new(500);
    assert_eq!(st.advance(true, None).unwrap_err(), PlaybackError::EmptyQueue);
    assert_eq!(PlaybackError::EmptyQueue.message(), "Queue is empty");
}

#[test]
fn repeat_with_shuffle_wraps_keeping_tracks() {
    let mut st = State::new(500);
    let q: Vec<Song> = (0..6).map(|i| song(&i.to_string(), None)).collect();
    st.load(q, true, true).unwrap();
    for _ in 0..5 {
        st.advance(false, None).unwrap();
    }
    assert_eq!(st.status().index, 5);
    let next = st.advance(false, None).unwrap().unwrap();
    assert_eq!(st.status().index, 0);
    assert_eq!(ids(&st), Some(next.id.clone()));
    assert_eq!(st.status().queue_len, 6);
    let mut seen: Vec<String> = Vec::new();
    for _ in 0..6 {
        seen.push(ids(&st).unwrap());
        let _ = st.advance(false, None);
    }
    seen.sort();
    assert_eq!(seen, vec!["0", "1", "2", "3", "4", "5"]);
}

#[test]
fn repeat_without_shuffle_keeps_order() {
    let mut st = State::new(500);
    st.load(vec![song("a", None), song("b", None)], true, false).unwrap();
    st.advance(true, None).unwrap();
    assert_eq!(st.advance(true, None).unwrap().unwrap().id, "a");
    assert_eq!(st.advance(true, None).unwrap().unwrap().id, "b");
}

#[test]
fn retreat_at_start_fails_and_changes_nothing() {
    let mut st = State::new(500);
    st.load(vec![song("a", None), song("b", None)], false, false).unwrap();
    let before = st.status();
    assert_eq!(st.retreat(true).unwrap_err(), PlaybackError::AtStart);
    assert_eq!(st.status(), before);
    assert!(!st.consume_suppression());
    assert_eq!(PlaybackError::AtStart.message(), "At start of queue");
}

#[test]
fn retreat_moves_back() {
    let mut st = State::new(500);
    st.load(vec![song("a", None), song("b", None)], false, false).unwrap();
    st.advance(false, None).unwrap();
    assert_eq!(st.retreat(true).unwrap().id, "a");
    assert_eq!(st.status().index, 0);
    assert!(st.consume_suppression());
}

#[test]
fn notice_after_manual_advance_is_swallowed() {
    let mut st = State::new(500);
    st.load(vec![song("a", None), song("b", None), song("c", None)], false, false).unwrap();
    st.advance(true, None).unwrap();
    let before = st.status();
    let out = on_end_file(&mut st, Some("eof"));
    assert!(out.scrobble.is_none());
    assert!(out.advance.is_none());
    assert_eq!(st.status(), before);
    assert!(!st.consume_suppression());
}

#[test]
fn natural_end_reports_and_advances() {
    let mut st = State::new(500);
    st.load(vec![song("a", None), song("b", None)], false, false).unwrap();
    let out = on_end_file(&mut st, Some("eof"));
    assert_eq!(out.scrobble, Some("a".to_string()));
    assert_eq!(out.advance.unwrap().unwrap().unwrap().id, "b");
    assert_eq!(st.status().index, 1);
}

#[test]
fn notice_reasons_decide_the_advance() {
    let mut st = State::new(500);
    st.load(vec![song("a", None), song("b", None), song("c", None)], false, false).unwrap();
    let out = on_end_file(&mut st, Some("redirect"));
    assert!(out.advance.is_none());
    assert!(out.scrobble.is_none());
    assert_eq!(st.status().index, 0);
    let out = on_end_file(&mut st, Some("stop"));
    assert!(out.scrobble.is_none());
    assert!(out.advance.is_some());
    assert_eq!(st.status().index, 1);
    let out = on_end_file(&mut st, None);
    assert!(out.advance.is_some());
    assert_eq!(st.status().index, 2);
    let out = on_end_file(&mut st, Some("error"));
    assert_eq!(out.advance.unwrap().unwrap_err(), PlaybackError::EndOfQueue);
}

#[test]
fn stale_fallback_is_a_no_op() {
    let mut st = State::new(500);
    st.load(vec![song("A", Some(180)), song("B", Some(200))], false, false).unwrap();
    st.advance(true, None).unwrap();
    assert!(tracker_superseded(&st, "A"));
    let before = st.status();
    assert_eq!(st.advance(false, Some("A")).unwrap(), None);
    assert_eq!(st.status(), before);
    assert!(!tracker_superseded(&st, "B"));
}

#[test]
fn paused_playback_supersedes_the_tracker() {
    let mut st = State::new(500);
    st.load(vec![song("A", Some(180))], false, false).unwrap();
    st.set_paused(true);
    assert!(st.is_paused());
    assert!(tracker_superseded(&st, "A"));
}

#[test]
fn fallback_timing() {
    assert_eq!(fallback_wait_ms(&song("x", Some(180))), Some(180_000));
    assert_eq!(fallback_sleep_ms(180_000, 500), 180_500);
    assert_eq!(fallback_sleep_ms(u64::MAX - 1, 500), u64::MAX);
    assert_eq!(fallback_step(180, Some(100_000)), FallbackStep::Recheck(80_000));
    assert_eq!(fallback_step(180, Some(179_800)), FallbackStep::Advance);
    assert_eq!(fallback_step(180, Some(179_749)), FallbackStep::Recheck(251));
    assert_eq!(fallback_step(180, None), FallbackStep::Advance);
    assert_eq!(fallback_step(1, Some(5_000)), FallbackStep::Advance);
}

#[test]
fn grace_period_is_kept() {
    let st = State::new(750);
    assert_eq!(st.end_grace_ms(), 750);
    assert!(st.is_valid());
}
