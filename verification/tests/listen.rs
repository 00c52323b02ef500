use hyprnote::listen::{
    current_line_len, memo_view, substring_by_char_range, Focus, LifecycleEvent, ListenBatchEvent,
    ListenKey, ListenView, MemoAction, ProgressEvent, SessionErrorEvent, SessionState,
    TranscriptDelta, Word,
};

fn word(id: &str) -> Word {
    Word { id: id.to_string(), text: id.to_string() }
}

#[test]
fn notepad_width_is_clamped() {
    let mut v = ListenView::new();
    assert_eq!(v.notepad_width_percent(), 67);
    for _ in 0..20 {
        v.handle_key(ListenKey::CtrlRight);
    }
    assert_eq!(v.notepad_width_percent(), 80);
    for _ in 0..40 {
        v.handle_key(ListenKey::CtrlLeft);
    }
    assert_eq!(v.notepad_width_percent(), 45);
}

#[test]
fn focus_and_keys() {
    let mut v = ListenView::new();
    assert!(v.transcript_focused());
    assert_eq!(v.handle_key(ListenKey::Char('m')), MemoAction::Nothing);
    assert!(v.memo_focused());
    assert_eq!(v.handle_key(ListenKey::Char('x')), MemoAction::Input);
    assert_eq!(v.handle_key(ListenKey::CtrlU), MemoAction::Clear);
    v.handle_key(ListenKey::Esc);
    assert_eq!(v.focus, Focus::Transcript);
    v.handle_key(ListenKey::Tab);
    v.handle_key(ListenKey::Tab);
    assert_eq!(v.focus, Focus::Transcript);
    v.handle_key(ListenKey::Char('q'));
    assert!(v.should_quit);
}

#[test]
fn scrolling_stays_within_the_transcript() {
    let mut v = ListenView::new();
    v.update_transcript_max_scroll(2);
    v.handle_key(ListenKey::Down);
    v.handle_key(ListenKey::Char('j'));
    v.handle_key(ListenKey::Down);
    assert_eq!(v.scroll_offset, 2);
    v.update_transcript_max_scroll(1);
    assert_eq!(v.scroll_offset, 1);
    v.handle_key(ListenKey::Up);
    v.handle_key(ListenKey::Char('k'));
    assert_eq!(v.scroll_offset, 0);
}

#[test]
fn level_history_is_capped() {
    let mut v = ListenView::new();
    for i in 0..100u16 {
        v.record_levels(i, 2 * i);
    }
    assert_eq!(v.mic_history.len(), 64);
    assert_eq!(v.mic_history[0], 36);
    assert_eq!(*v.speaker_history.last().unwrap(), 198);
    assert_eq!(v.mic_level, 99);
}

#[test]
fn status_lines() {
    let mut v = ListenView::new();
    assert_eq!(v.status, "Starting...");
    v.handle_progress(ProgressEvent::AudioReady { device: Some("MacBook Mic".to_string()) });
    assert_eq!(v.status, "Audio ready (MacBook Mic)");
    v.handle_progress(ProgressEvent::Connected { adapter: "deepgram".to_string() });
    assert_eq!(v.status, "Connected via deepgram");
    v.handle_lifecycle(LifecycleEvent::Active { error: Some("slow".to_string()) });
    assert_eq!(v.status, "Active (degraded)");
    assert_eq!(v.state, SessionState::Active);
    v.handle_lifecycle(LifecycleEvent::Inactive { error: Some("eof".to_string()) });
    assert_eq!(v.status, "Stopped: eof");
    v.handle_error(SessionErrorEvent::ConnectionError { error: "reset".to_string() });
    assert_eq!(v.errors, vec!["Connection: reset".to_string()]);
}

#[test]
fn transcript_deltas_replace_words() {
    let mut v = ListenView::new();
    assert!(v.can_accept_audio_drop());
    v.apply_transcript_delta(TranscriptDelta {
        replaced_ids: Vec::new(),
        new_words: vec![word("a"), word("b")],
        partials: vec![word("p")],
    });
    v.apply_transcript_delta(TranscriptDelta {
        replaced_ids: vec!["a".to_string()],
        new_words: vec![word("c")],
        partials: Vec::new(),
    });
    let ids: Vec<&str> = v.words.iter().map(|w| w.id.as_str()).collect();
    assert_eq!(ids, vec!["b", "c"]);
    assert!(v.partials.is_empty());
    assert!(!v.can_accept_audio_drop());
}

#[test]
fn batch_events() {
    let mut v = ListenView::new();
    v.accept_audio_drop("/tmp/a.wav");
    assert!(v.batch_running);
    assert_eq!(v.status, "Transcribing dropped audio: /tmp/a.wav");
    v.handle_batch_event(ListenBatchEvent::Streamed { delta: None, percent: 42, done: false });
    assert_eq!(v.status, "Transcribing dropped audio... 42%");
    v.handle_batch_event(ListenBatchEvent::Failed { error: "boom".to_string() });
    assert!(!v.batch_running);
    assert_eq!(v.status, "Dropped audio transcription failed: boom");
    assert_eq!(v.errors.last().unwrap(), "Batch: boom");
    v.reject_dropped_path("/tmp/dir");
    assert_eq!(v.errors.last().unwrap(), "Dropped path is not a file: /tmp/dir");
}

#[test]
fn memo_view_scrolls_to_the_cursor() {
    let lines = vec!["hello world".to_string(), "second".to_string(), "third line".to_string()];
    let view = memo_view(&lines, 2, 9, 2, 5);
    assert_eq!(view.lines, vec!["d".to_string(), " line".to_string()]);
    assert_eq!(view.cursor_row, 1);
    assert_eq!(view.cursor_col, 4);
    let empty = memo_view(&lines, 0, 0, 0, 5);
    assert!(empty.lines.is_empty());
    let clamped = memo_view(&lines, 10, 100, 5, 80);
    assert_eq!(clamped.lines.len(), 3);
    assert_eq!(clamped.cursor_row, 2);
    assert_eq!(clamped.cursor_col, 10);
}

#[test]
fn char_ranges() {
    assert_eq!(substring_by_char_range("héllo", 1, 3), "él");
    assert_eq!(substring_by_char_range("abc", 2, 10), "c");
    assert_eq!(substring_by_char_range("abc", 3, 1), "");
    assert_eq!(current_line_len(&vec!["日本".to_string()], 0), 2);
    assert_eq!(current_line_len(&vec![], 3), 0);
}
