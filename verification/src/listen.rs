//! The live transcription screen: its layout, focus, level meters, transcript and the
//! status line each listener event leaves.
use vstd::prelude::*;
use vstd::string::*;
use crate::text::chars_of;

verus! {

/// Level readings kept for the meters.
pub const AUDIO_HISTORY_CAP: usize = 64;

/// Narrowest and widest the notepad may be, in percent of the screen.
pub const MIN_NOTEPAD_WIDTH_PERCENT: u16 = 45;

pub const MAX_NOTEPAD_WIDTH_PERCENT: u16 = 80;

/// Width of the notepad when the screen opens.
pub const INITIAL_NOTEPAD_WIDTH_PERCENT: u16 = 67;

/// Which pane takes the keys.
#[derive(Clone, Copy, Debug, PartialEq, Eq, Structural)]
pub enum Focus {
    Transcript,
    Memo,
}

/// Where the listening session stands.
#[derive(Clone, Copy, Debug, PartialEq, Eq, Structural)]
pub enum SessionState {
    Inactive,
    Active,
    Finalizing,
}

/// A word of the transcript.
pub struct Word {
    pub id: String,
    pub text: String,
}

/// A change to the transcript: words replaced, words added, and the words still partial.
pub struct TranscriptDelta {
    pub replaced_ids: Vec<String>,
    pub new_words: Vec<Word>,
    pub partials: Vec<Word>,
}

/// The part of the notepad that fits in the pane, with the cursor's place in it.
pub struct MemoView {
    pub lines: Vec<String>,
    pub cursor_row: u16,
    pub cursor_col: u16,
}

/// A key press on the listen screen.
#[derive(Clone, Copy, Debug, PartialEq, Eq, Structural)]
pub enum ListenKey {
    CtrlC,
    CtrlLeft,
    CtrlRight,
    CtrlU,
    Tab,
    Esc,
    Up,
    Down,
    Char(char),
    Other,
}

/// What the notepad's text area is to do with a key.
#[derive(Clone, Copy, Debug, PartialEq, Eq, Structural)]
pub enum MemoAction {
    Nothing,
    Clear,
    Input,
}

pub enum LifecycleEvent {
    Active { error: Option<String> },
    Inactive { error: Option<String> },
    Finalizing,
}

pub enum ProgressEvent {
    AudioInitializing,
    AudioReady { device: Option<String> },
    Connecting,
    Connected { adapter: String },
}

pub enum SessionErrorEvent {
    AudioError { error: String },
    ConnectionError { error: String },
}

/// The listen screen's state.
pub struct ListenView {
    pub should_quit: bool,
    pub state: SessionState,
    pub status: String,
    pub degraded: Option<String>,
    pub errors: Vec<String>,
    pub mic_level: u16,
    pub speaker_level: u16,
    pub mic_history: Vec<u64>,
    pub speaker_history: Vec<u64>,
    pub mic_muted: bool,
    pub words: Vec<Word>,
    pub partials: Vec<Word>,
    pub scroll_offset: u16,
    pub focus: Focus,
    pub notepad_width_percent: u16,
    pub transcript_max_scroll: u16,
    pub batch_running: bool,
}

/// `history` after recording `v`: the oldest reading goes once the cap is reached.
pub open spec fn pushed_history(history: Seq<u64>, v: u64) -> Seq<u64> {
    if history.len() >= AUDIO_HISTORY_CAP {
        history.drop_first().push(v)
    } else {
        history.push(v)
    }
}

/// The notepad width after widening it by `delta` percent, kept between 45 and 80.
pub open spec fn adjusted_width(width: u16, delta: int) -> u16 {
    let next = width + delta;
    if next < MIN_NOTEPAD_WIDTH_PERCENT {
        MIN_NOTEPAD_WIDTH_PERCENT
    } else if next > MAX_NOTEPAD_WIDTH_PERCENT {
        MAX_NOTEPAD_WIDTH_PERCENT
    } else {
        next as u16
    }
}

pub open spec fn toggled(f: Focus) -> Focus {
    match f {
        Focus::Memo => Focus::Transcript,
        Focus::Transcript => Focus::Memo,
    }
}

impl ListenView {
    /// The meters keep at most the last 64 readings, the notepad's width stays between
    /// 45% and 80%, and the transcript is never scrolled past its end.
    pub open spec fn wf(&self) -> bool {
        &&& self.mic_history@.len() <= AUDIO_HISTORY_CAP
        &&& self.speaker_history@.len() <= AUDIO_HISTORY_CAP
        &&& MIN_NOTEPAD_WIDTH_PERCENT <= self.notepad_width_percent <= MAX_NOTEPAD_WIDTH_PERCENT
        &&& self.scroll_offset <= self.transcript_max_scroll
    }

    pub fn new() -> (r: Self)
        ensures
            r.wf(),
            !r.should_quit,
            r.state == SessionState::Inactive,
            r.status@ == "Starting..."@,
            r.degraded is None,
            r.errors@.len() == 0,
            r.mic_history@.len() == 0 && r.speaker_history@.len() == 0,
            r.words@.len() == 0 && r.partials@.len() == 0,
            r.scroll_offset == 0 && r.transcript_max_scroll == 0,
            r.focus == Focus::Transcript,
            r.notepad_width_percent == INITIAL_NOTEPAD_WIDTH_PERCENT,
            !r.batch_running,
            !r.mic_muted,
    {
        ListenView {
            should_quit: false,
            state: SessionState::Inactive,
            status: String::from_str("Starting..."),
            degraded: None,
            errors: Vec::new(),
            mic_level: 0,
            speaker_level: 0,
            mic_history: Vec::new(),
            speaker_history: Vec::new(),
            mic_muted: false,
            words: Vec::new(),
            partials: Vec::new(),
            scroll_offset: 0,
            focus: Focus::Transcript,
            notepad_width_percent: INITIAL_NOTEPAD_WIDTH_PERCENT,
            transcript_max_scroll: 0,
            batch_running: false,
        }
    }

    pub fn memo_focused(&self) -> (r: bool)
        ensures
            r == (self.focus == Focus::Memo),
    {
        self.focus == Focus::Memo
    }

    pub fn transcript_focused(&self) -> (r: bool)
        ensures
            r == (self.focus == Focus::Transcript),
    {
        self.focus == Focus::Transcript
    }

    pub fn notepad_width_percent(&self) -> (r: u16)
        ensures
            r == self.notepad_width_percent,
    {
        self.notepad_width_percent
    }

    /// A dropped audio file is taken only while nothing has been transcribed or is being
    /// transcribed, with the transcript focused.
    pub fn can_accept_audio_drop(&self) -> (r: bool)
        ensures
            r == (self.focus == Focus::Transcript && self.state == SessionState::Inactive
                && !self.batch_running && self.words@.len() == 0 && self.partials@.len() == 0),
    {
        self.transcript_focused() && self.state == SessionState::Inactive && !self.batch_running
            && self.words.len() == 0 && self.partials.len() == 0
    }

    /// Widens (or, with a negative `delta`, narrows) the notepad, within 45% to 80%.
    pub fn adjust_notepad_width(&mut self, delta: i16)
        requires
            old(self).wf(),
        ensures
            final(self).wf(),
            final(self).notepad_width_percent == adjusted_width(old(self).notepad_width_percent, delta as int),
            final(self).focus == old(self).focus,
            final(self).scroll_offset == old(self).scroll_offset,
    {
        let next: i32 = self.notepad_width_percent as i32 + delta as i32;
        self.notepad_width_percent = if next < MIN_NOTEPAD_WIDTH_PERCENT as i32 {
            MIN_NOTEPAD_WIDTH_PERCENT
        } else if next > MAX_NOTEPAD_WIDTH_PERCENT as i32 {
            MAX_NOTEPAD_WIDTH_PERCENT
        } else {
            next as u16
        };
    }

    /// Passes the keys between the transcript and the notepad.
    pub fn toggle_focus(&mut self)
        ensures
            final(self).focus == toggled(old(self).focus),
            final(self).notepad_width_percent == old(self).notepad_width_percent,
            final(self).scroll_offset == old(self).scroll_offset,
            final(self).transcript_max_scroll == old(self).transcript_max_scroll,
            final(self).mic_history == old(self).mic_history,
            final(self).speaker_history == old(self).speaker_history,
    {
        self.focus = match self.focus {
            Focus::Memo => Focus::Transcript,
            Focus::Transcript => Focus::Memo,
        };
    }

    /// Handles a key; says what the notepad's text area is to do with it.
    pub fn handle_key(&mut self, key: ListenKey) -> (r: MemoAction)
        requires
            old(self).wf(),
        ensures
            final(self).wf(),
            key == ListenKey::CtrlC ==> final(self).should_quit && r == MemoAction::Nothing,
            key == ListenKey::CtrlLeft ==> final(self).notepad_width_percent == adjusted_width(
                old(self).notepad_width_percent,
                -2,
            ) && r == MemoAction::Nothing,
            key == ListenKey::CtrlRight ==> final(self).notepad_width_percent == adjusted_width(
                old(self).notepad_width_percent,
                2,
            ) && r == MemoAction::Nothing,
            key == ListenKey::Tab ==> final(self).focus == toggled(old(self).focus) && r
                == MemoAction::Nothing,
            old(self).focus == Focus::Memo && key == ListenKey::Esc ==> final(self).focus
                == Focus::Transcript && r == MemoAction::Nothing,
            old(self).focus == Focus::Memo && key == ListenKey::CtrlU ==> r == MemoAction::Clear,
            old(self).focus == Focus::Memo && !(key == ListenKey::CtrlC || key == ListenKey::CtrlLeft
                || key == ListenKey::CtrlRight || key == ListenKey::Tab || key == ListenKey::Esc || key
                == ListenKey::CtrlU) ==> r == MemoAction::Input && final(self).focus == Focus::Memo,
            old(self).focus == Focus::Transcript ==> r != MemoAction::Input && r != MemoAction::Clear,
            old(self).focus == Focus::Transcript && key == ListenKey::Char('q') ==> final(self).should_quit,
            old(self).focus == Focus::Transcript && key == ListenKey::Char('m') ==> final(self).focus
                == Focus::Memo,
            old(self).focus == Focus::Transcript && (key == ListenKey::Char('j') || key == ListenKey::Down)
                ==> final(self).scroll_offset == if old(self).scroll_offset < old(self).transcript_max_scroll {
                old(self).scroll_offset + 1
            } else {
                old(self).transcript_max_scroll as int
            },
            old(self).focus == Focus::Transcript && (key == ListenKey::Char('k') || key == ListenKey::Up)
                ==> final(self).scroll_offset == if old(self).scroll_offset > 0 {
                old(self).scroll_offset - 1
            } else {
                0
            },
    {
        match key {
            ListenKey::CtrlC => {
                self.should_quit = true;
                return MemoAction::Nothing;
            },
            ListenKey::CtrlLeft => {
                self.adjust_notepad_width(-2);
                return MemoAction::Nothing;
            },
            ListenKey::CtrlRight => {
                self.adjust_notepad_width(2);
                return MemoAction::Nothing;
            },
            ListenKey::Tab => {
                self.toggle_focus();
                return MemoAction::Nothing;
            },
            _ => {},
        }
        if self.memo_focused() {
            match key {
                ListenKey::Esc => {
                    self.focus = Focus::Transcript;
                    MemoAction::Nothing
                },
                ListenKey::CtrlU => MemoAction::Clear,
                _ => MemoAction::Input,
            }
        } else {
            match key {
                ListenKey::Char('q') => {
                    self.should_quit = true;
                },
                ListenKey::Char('m') => {
                    self.focus = Focus::Memo;
                },
                ListenKey::Char('j') | ListenKey::Down => {
                    let next = if self.scroll_offset < u16::MAX {
                        self.scroll_offset + 1
                    } else {
                        u16::MAX
                    };
                    self.scroll_offset = if next < self.transcript_max_scroll {
                        next
                    } else {
                        self.transcript_max_scroll
                    };
                },
                ListenKey::Char('k') | ListenKey::Up => {
                    self.scroll_offset = if self.scroll_offset > 0 {
                        self.scroll_offset - 1
                    } else {
                        0
                    };
                },
                _ => {},
            }
            MemoAction::Nothing
        }
    }

    /// Records the transcript's new scroll limit, pulling the view back within it.
    pub fn update_transcript_max_scroll(&mut self, max_scroll: u16)
        requires
            old(self).wf(),
        ensures
            final(self).wf(),
            final(self).transcript_max_scroll == max_scroll,
            final(self).scroll_offset == if old(self).scroll_offset < max_scroll {
                old(self).scroll_offset
            } else {
                max_scroll
            },
    {
        self.transcript_max_scroll = max_scroll;
        if self.scroll_offset > max_scroll {
            self.scroll_offset = max_scroll;
        }
    }

    /// Records the microphone and speaker levels.
    pub fn record_levels(&mut self, mic: u16, speaker: u16)
        requires
            old(self).wf(),
        ensures
            final(self).wf(),
            final(self).mic_level == mic,
            final(self).speaker_level == speaker,
            final(self).mic_history@ == pushed_history(old(self).mic_history@, mic as u64),
            final(self).speaker_history@ == pushed_history(old(self).speaker_history@, speaker as u64),
            final(self).notepad_width_percent == old(self).notepad_width_percent,
            final(self).scroll_offset == old(self).scroll_offset,
    {
        self.mic_level = mic;
        self.speaker_level = speaker;
        push_capped(&mut self.mic_history, mic as u64);
        push_capped(&mut self.speaker_history, speaker as u64);
    }

    pub fn set_mic_muted(&mut self, value: bool)
        requires
            old(self).wf(),
        ensures
            final(self).wf(),
            final(self).mic_muted == value,
    {
        self.mic_muted = value;
    }

    /// Takes a lifecycle change of the session.
    pub fn handle_lifecycle(&mut self, event: LifecycleEvent)
        requires
            old(self).wf(),
        ensures
            final(self).wf(),
            match event {
                LifecycleEvent::Active { error } => {
                    &&& final(self).state == SessionState::Active
                    &&& final(self).degraded == error
                    &&& final(self).status@ == if error is Some {
                        "Active (degraded)"@
                    } else {
                        "Listening"@
                    }
                },
                LifecycleEvent::Inactive { error } => {
                    &&& final(self).state == SessionState::Inactive
                    &&& final(self).status@ == match error {
                        Some(e) => "Stopped: "@ + e@,
                        None => "Stopped"@,
                    }
                },
                LifecycleEvent::Finalizing => final(self).state == SessionState::Finalizing
                    && final(self).status@ == "Finalizing..."@,
            },
    {
        match event {
            LifecycleEvent::Active { error } => {
                self.state = SessionState::Active;
                let degraded = error.is_some();
                self.degraded = error;
                if degraded {
                    self.status = String::from_str("Active (degraded)");
                } else {
                    self.status = String::from_str("Listening");
                }
            },
            LifecycleEvent::Inactive { error } => {
                self.state = SessionState::Inactive;
                match error {
                    Some(e) => {
                        let mut s = String::from_str("Stopped: ");
                        s.append(e.as_str());
                        self.status = s;
                    },
                    None => {
                        self.status = String::from_str("Stopped");
                    },
                }
            },
            LifecycleEvent::Finalizing => {
                self.state = SessionState::Finalizing;
                self.status = String::from_str("Finalizing...");
            },
        }
    }

    /// Takes a progress report of the session.
    pub fn handle_progress(&mut self, event: ProgressEvent)
        requires
            old(self).wf(),
        ensures
            final(self).wf(),
            final(self).state == old(self).state,
            final(self).status@ == match event {
                ProgressEvent::AudioInitializing => "Initializing audio..."@,
                ProgressEvent::AudioReady { device } => match device {
                    Some(d) => "Audio ready ("@ + d@ + ")"@,
                    None => "Audio ready"@,
                },
                ProgressEvent::Connecting => "Connecting..."@,
                ProgressEvent::Connected { adapter } => "Connected via "@ + adapter@,
            },
    {
        match event {
            ProgressEvent::AudioInitializing => {
                self.status = String::from_str("Initializing audio...");
            },
            ProgressEvent::AudioReady { device } => match device {
                Some(d) => {
                    let mut s = String::from_str("Audio ready (");
                    s.append(d.as_str());
                    s.append(")");
                    self.status = s;
                },
                None => {
                    self.status = String::from_str("Audio ready");
                },
            },
            ProgressEvent::Connecting => {
                self.status = String::from_str("Connecting...");
            },
            ProgressEvent::Connected { adapter } => {
                let mut s = String::from_str("Connected via ");
                s.append(adapter.as_str());
                self.status = s;
            },
        }
    }

    /// Records a session error in the error list.
    pub fn handle_error(&mut self, event: SessionErrorEvent)
        requires
            old(self).wf(),
        ensures
            final(self).wf(),
            final(self).status == old(self).status,
            final(self).errors@.len() == old(self).errors@.len() + 1,
            forall|i: int| 0 <= i < old(self).errors@.len() ==> final(self).errors@[i] == old(self).errors@[i],
            final(self).errors@.last()@ == match event {
                SessionErrorEvent::AudioError { error } => "Audio: "@ + error@,
                SessionErrorEvent::ConnectionError { error } => "Connection: "@ + error@,
            },
    {
        let msg = match event {
            SessionErrorEvent::AudioError { error } => {
                let mut s = String::from_str("Audio: ");
                s.append(error.as_str());
                s
            },
            SessionErrorEvent::ConnectionError { error } => {
                let mut s = String::from_str("Connection: ");
                s.append(error.as_str());
                s
            },
        };
        self.errors.push(msg);
    }

    /// Applies a transcript change: replaced words go, new words follow the kept ones,
    /// and the partial words are replaced.
    pub fn apply_transcript_delta(&mut self, delta: TranscriptDelta)
        requires
            old(self).wf(),
        ensures
            final(self).wf(),
            word_ids(final(self).words@) == kept_ids(old(self).words@, ids_of(delta.replaced_ids@))
                + word_ids(delta.new_words@),
            word_ids(final(self).partials@) == word_ids(delta.partials@),
            final(self).batch_running == old(self).batch_running,
            final(self).status == old(self).status,
            final(self).errors == old(self).errors,
            final(self).state == old(self).state,
            final(self).focus == old(self).focus,
            final(self).should_quit == old(self).should_quit,
            final(self).scroll_offset == old(self).scroll_offset,
            final(self).notepad_width_percent == old(self).notepad_width_percent,
    {
        let TranscriptDelta { replaced_ids, new_words, partials } = delta;
        let ghost rids = ids_of(replaced_ids@);
        let mut kept: Vec<Word> = Vec::new();
        let mut pending: Vec<Word> = Vec::new();
        std::mem::swap(&mut pending, &mut self.words);
        let ghost all = pending@;
        let total = pending.len();
        let mut k: usize = 0;
        assert(all.skip(0) =~= all);
        assert(all.take(0) =~= Seq::<Word>::empty());
        while pending.len() > 0
            invariant
                k <= all.len(),
                all.len() == total,
                pending@ == all.skip(k as int),
                rids == ids_of(replaced_ids@),
                all == old(self).words@,
                word_ids(kept@) == kept_ids(all.take(k as int), rids),
            decreases pending@.len(),
        {
            let w = pending.remove(0);
            assert(w == all[k as int]);
            assert(pending@ =~= all.skip(k + 1));
            assert(all.take(k + 1).drop_last() =~= all.take(k as int));
            assert(all.take(k + 1).last() == w);
            let ghost before = kept@;
            if !contains_id(&replaced_ids, w.id.as_str()) {
                kept.push(w);
                assert(word_ids(kept@) =~= word_ids(before).push(kept@.last().id@));
            }
            k = k + 1;
        }
        assert(all.take(k as int) =~= all);
        let ghost kept_before = kept@;
        let ghost added = new_words@;
        let mut new_words = new_words;
        kept.append(&mut new_words);
        assert(word_ids(kept@) =~= word_ids(kept_before) + word_ids(added));
        self.words = kept;
        self.partials = partials;
    }
}

/// The first `n` characters from `start` of a line (fewer where the line ends).
pub open spec fn clip_line(line: Seq<char>, start: int, n: int) -> Seq<char> {
    if start >= line.len() || n <= 0 {
        Seq::empty()
    } else if start + n > line.len() {
        line.subrange(start, line.len() as int)
    } else {
        line.subrange(start, start + n)
    }
}

pub open spec fn min_int(a: int, b: int) -> int {
    if a < b {
        a
    } else {
        b
    }
}

/// `(x + 1).saturating_sub(m)`.
pub open spec fn first_shown(x: int, m: int) -> int {
    if x + 1 > m {
        x + 1 - m
    } else {
        0
    }
}

/// The notepad cursor's row, kept within the text, and column, kept within its line.
pub open spec fn clamped_cursor(lines: Seq<Seq<char>>, row: int, col: int) -> (int, int) {
    let r = min_int(row, if lines.len() > 0 { lines.len() - 1 } else { 0 });
    let line_len = if r < lines.len() { lines[r].len() as int } else { 0 };
    (r, min_int(col, line_len))
}

/// The lines a `max_rows` by `max_cols` pane shows of the notepad, scrolled so that the
/// cursor is in view, with the cursor's place in the pane.
pub open spec fn memo_view_spec(
    lines: Seq<Seq<char>>,
    row: int,
    col: int,
    max_rows: int,
    max_cols: int,
) -> (Seq<Seq<char>>, int, int) {
    if max_rows == 0 || max_cols == 0 {
        (Seq::empty(), 0, 0)
    } else {
        let (r, c) = clamped_cursor(lines, row, col);
        let row_start = first_shown(r, max_rows);
        let col_start = first_shown(c, max_cols);
        let row_end = min_int(row_start + max_rows, lines.len() as int);
        (
            lines.subrange(row_start, row_end).map_values(
                |l: Seq<char>| clip_line(l, col_start, max_cols),
            ),
            r - row_start,
            c - col_start,
        )
    }
}

pub open spec fn lines_view(lines: Seq<String>) -> Seq<Seq<char>> {
    lines.map_values(|l: String| l@)
}

/// What the notepad pane shows: `lines` is the notepad's text and (`cursor_row`,
/// `cursor_col`) its cursor.
pub fn memo_view(
    lines: &Vec<String>,
    cursor_row: usize,
    cursor_col: usize,
    max_rows: usize,
    max_cols: usize,
) -> (r: MemoView)
    ensures
        ({
            let (shown, row, col) = memo_view_spec(
                lines_view(lines@),
                cursor_row as int,
                cursor_col as int,
                max_rows as int,
                max_cols as int,
            );
            &&& lines_view(r.lines@) == shown
            &&& r.cursor_row == row as u16
            &&& r.cursor_col == col as u16
        }),
{
    let ghost lv = lines_view(lines@);
    if max_rows == 0 || max_cols == 0 {
        return MemoView { lines: Vec::new(), cursor_row: 0, cursor_col: 0 };
    }
    let n = lines.len();
    let last = if n > 0 {
        n - 1
    } else {
        0
    };
    let row = if cursor_row < last {
        cursor_row
    } else {
        last
    };
    let line_len = current_line_len(lines, row);
    let col = if cursor_col < line_len {
        cursor_col
    } else {
        line_len
    };
    let row_start = if row >= max_rows {
        row - max_rows + 1
    } else {
        0
    };
    let col_start = if col >= max_cols {
        col - max_cols + 1
    } else {
        0
    };
    let row_end = if max_rows >= n - row_start {
        n
    } else {
        row_start + max_rows
    };
    let ghost shown = lv.subrange(row_start as int, row_end as int).map_values(
        |l: Seq<char>| clip_line(l, col_start as int, max_cols as int),
    );
    let mut out: Vec<String> = Vec::new();
    let mut i: usize = row_start;
    while i < row_end
        invariant
            row_start <= i <= row_end <= lines@.len(),
            lv == lines_view(lines@),
            max_cols > 0,
            lines_view(out@) == lv.subrange(row_start as int, i as int).map_values(
                |l: Seq<char>| clip_line(l, col_start as int, max_cols as int),
            ),
        decreases row_end - i,
    {
        let line = lines[i].as_str();
        let count = line.unicode_len();
        let end = if col_start >= count || max_cols >= count - col_start {
            count
        } else {
            col_start + max_cols
        };
        let piece = substring_by_char_range(line, col_start, end);
        let ghost before = out@;
        out.push(piece);
        proof {
            assert(piece@ == clip_line(lv[i as int], col_start as int, max_cols as int));
            assert(lv.subrange(row_start as int, i + 1) =~= lv.subrange(row_start as int, i as int).push(
                lv[i as int],
            ));
            assert(lines_view(out@) =~= lines_view(before).push(piece@));
        }
        i = i + 1;
    }
    let cursor_row = #[verifier::truncate] ((row - row_start) as u16);
    let cursor_col = #[verifier::truncate] ((col - col_start) as u16);
    MemoView { lines: out, cursor_row, cursor_col }
}

/// A batch transcription event, as the listen screen takes it.
pub enum ListenBatchEvent {
    Started,
    Completed,
    Streamed { delta: Option<TranscriptDelta>, percent: u64, done: bool },
    Response { delta: TranscriptDelta },
    Failed { error: String },
}

impl ListenView {
    /// Takes a batch transcription event of a dropped audio file. For a streamed
    /// response, `percent` is its progress in whole percent and `done` whether it is
    /// complete.
    pub fn handle_batch_event(&mut self, event: ListenBatchEvent)
        requires
            old(self).wf(),
        ensures
            final(self).wf(),
            event is Started ==> final(self).batch_running && final(self).status@
                == "Transcribing dropped audio..."@,
            event is Completed ==> !final(self).batch_running && final(self).status@
                == "Dropped audio transcription completed"@,
            event is Streamed ==> if event->done {
                !final(self).batch_running && final(self).status@
                    == "Dropped audio transcription completed"@
            } else {
                final(self).batch_running == old(self).batch_running && final(self).status@
                    == "Transcribing dropped audio... "@ + crate::github::decimal(event->percent as nat) + "%"@
            },
            event is Response ==> !final(self).batch_running
                && final(self).status@ == "Dropped audio transcription completed"@
                && word_ids(final(self).partials@) == word_ids(event->Response_delta.partials@),
            event is Failed ==> {
                &&& !final(self).batch_running
                &&& final(self).status@ == "Dropped audio transcription failed: "@ + event->error@
                &&& final(self).errors@.len() == old(self).errors@.len() + 1
                &&& final(self).errors@.drop_last() == old(self).errors@
                &&& final(self).errors@.last()@ == "Batch: "@ + event->error@
            },
            !(event is Failed) ==> final(self).errors == old(self).errors,
    {
        match event {
            ListenBatchEvent::Started => {
                self.batch_running = true;
                self.status = String::from_str("Transcribing dropped audio...");
            },
            ListenBatchEvent::Completed => {
                self.batch_running = false;
                self.status = String::from_str("Dropped audio transcription completed");
            },
            ListenBatchEvent::Streamed { delta, percent, done } => {
                match delta {
                    Some(d) => self.apply_transcript_delta(d),
                    None => {},
                }
                let mut s = String::from_str("Transcribing dropped audio... ");
                let digits = crate::github::decimal_string(percent);
                s.append(digits.as_str());
                s.append("%");
                self.status = s;
                if done {
                    self.batch_running = false;
                    self.status = String::from_str("Dropped audio transcription completed");
                }
            },
            ListenBatchEvent::Response { delta } => {
                self.apply_transcript_delta(delta);
                self.batch_running = false;
                self.status = String::from_str("Dropped audio transcription completed");
            },
            ListenBatchEvent::Failed { error } => {
                self.batch_running = false;
                let mut e = String::from_str("Batch: ");
                e.append(error.as_str());
                self.errors.push(e);
                let mut s = String::from_str("Dropped audio transcription failed: ");
                s.append(error.as_str());
                self.status = s;
            },
        }
    }

    /// Starts transcribing a dropped audio file, shown by `path`.
    pub fn accept_audio_drop(&mut self, path: &str)
        requires
            old(self).wf(),
        ensures
            final(self).wf(),
            final(self).batch_running,
            final(self).status@ == "Transcribing dropped audio: "@ + path@,
    {
        self.batch_running = true;
        let mut s = String::from_str("Transcribing dropped audio: ");
        s.append(path);
        self.status = s;
    }

    /// Records that a dropped path is no file.
    pub fn reject_dropped_path(&mut self, path: &str)
        requires
            old(self).wf(),
        ensures
            final(self).wf(),
            final(self).errors@.len() == old(self).errors@.len() + 1,
            final(self).errors@.drop_last() == old(self).errors@,
            final(self).errors@.last()@ == "Dropped path is not a file: "@ + path@,
            final(self).batch_running == old(self).batch_running,
            final(self).status == old(self).status,
    {
        let mut s = String::from_str("Dropped path is not a file: ");
        s.append(path);
        self.errors.push(s);
    }
}

/// However the notepad is widened or narrowed, its width stays between 45% and 80%,
/// and a step back undoes a step that did not hit a bound.
pub proof fn law_notepad_width_bounded(width: u16, delta: int)
    ensures
        MIN_NOTEPAD_WIDTH_PERCENT <= adjusted_width(width, delta) <= MAX_NOTEPAD_WIDTH_PERCENT,
        MIN_NOTEPAD_WIDTH_PERCENT <= width <= MAX_NOTEPAD_WIDTH_PERCENT && MIN_NOTEPAD_WIDTH_PERCENT
            <= width + delta <= MAX_NOTEPAD_WIDTH_PERCENT ==> adjusted_width(
            adjusted_width(width, delta),
            -delta,
        ) == width,
{
}

/// Passing the focus twice gives it back.
pub proof fn law_toggle_focus_twice(f: Focus)
    ensures
        toggled(toggled(f)) == f,
        toggled(f) != f,
{
}

/// A meter keeps at most 64 readings; the newest is last, and the others are the
/// newest of those before, in order.
pub proof fn law_history_capped(history: Seq<u64>, v: u64)
    requires
        history.len() <= AUDIO_HISTORY_CAP,
    ensures
        pushed_history(history, v).len() <= AUDIO_HISTORY_CAP,
        pushed_history(history, v).last() == v,
        pushed_history(history, v).drop_last() == if history.len() >= AUDIO_HISTORY_CAP {
            history.drop_first()
        } else {
            history
        },
{
    if history.len() >= AUDIO_HISTORY_CAP {
        assert(history.drop_first().push(v).drop_last() =~= history.drop_first());
    } else {
        assert(history.push(v).drop_last() =~= history);
    }
}

pub open spec fn ids_of(ids: Seq<String>) -> Seq<Seq<char>> {
    ids.map_values(|s: String| s@)
}

pub open spec fn word_ids(words: Seq<Word>) -> Seq<Seq<char>> {
    words.map_values(|w: Word| w.id@)
}

/// The ids of the words kept, in order: those not replaced.
pub open spec fn kept_ids(words: Seq<Word>, replaced: Seq<Seq<char>>) -> Seq<Seq<char>>
    decreases words.len(),
{
    if words.len() == 0 {
        Seq::empty()
    } else {
        kept_ids(words.drop_last(), replaced) + if replaced.contains(words.last().id@) {
            Seq::empty()
        } else {
            seq![words.last().id@]
        }
    }
}

fn contains_id(ids: &Vec<String>, id: &str) -> (r: bool)
    ensures
        r == ids_of(ids@).contains(id@),
{
    let mut i: usize = 0;
    while i < ids.len()
        invariant
            i <= ids@.len(),
            forall|j: int| 0 <= j < i ==> (#[trigger] ids@[j])@ != id@,
        decreases ids@.len() - i,
    {
        if crate::text::str_eq(ids[i].as_str(), id) {
            assert(ids_of(ids@)[i as int] == id@);
            return true;
        }
        i = i + 1;
    }
    assert(!ids_of(ids@).contains(id@)) by {
        if ids_of(ids@).contains(id@) {
            let j = choose|j: int| 0 <= j < ids_of(ids@).len() && ids_of(ids@)[j] == id@;
            assert(ids@[j]@ == id@);
        }
    }
    false
}

/// Appends `v`, dropping the oldest reading once 64 are kept.
fn push_capped(history: &mut Vec<u64>, v: u64)
    requires
        old(history)@.len() <= AUDIO_HISTORY_CAP,
    ensures
        final(history)@ == pushed_history(old(history)@, v),
        final(history)@.len() <= AUDIO_HISTORY_CAP,
{
    if history.len() >= AUDIO_HISTORY_CAP {
        history.remove(0);
    }
    history.push(v);
}

/// The characters `start..end` of `s` (clipped to its length); empty when `start >= end`.
pub fn substring_by_char_range(s: &str, start: usize, end: usize) -> (r: String)
    ensures
        r@ == if start >= end || start >= s@.len() {
            Seq::<char>::empty()
        } else if end > s@.len() {
            s@.subrange(start as int, s@.len() as int)
        } else {
            s@.subrange(start as int, end as int)
        },
{
    if start >= end {
        return String::new();
    }
    let n = s.unicode_len();
    let a = if start < n {
        start
    } else {
        n
    };
    let b = if end < n {
        end
    } else {
        n
    };
    if a >= b {
        return String::new();
    }
    String::from_str(s.substring_char(a, b))
}

/// Characters in line `row`, or 0 when there is no such line.
pub fn current_line_len(lines: &Vec<String>, row: usize) -> (r: usize)
    ensures
        r == if row < lines@.len() {
            lines@[row as int]@.len()
        } else {
            0
        },
{
    if row < lines.len() {
        lines[row].as_str().unicode_len()
    } else {
        0
    }
}

} // verus!
