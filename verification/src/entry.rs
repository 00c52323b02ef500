//! The entry screen: the command line typed at start-up, its popup, and what each
//! key, paste or command asks the screen to do.
use vstd::prelude::*;
use vstd::string::*;
use crate::clock::now_millis;
use crate::commands::{ALL_COMMANDS, Command, disabled_reason_spec, lookup, lookup_spec, name_spec, opt_view};
use crate::model::ModelCommands;
use crate::palette::{is_popup_listing, popup_query, Palette};
use crate::text::{
    ascii_lower_seq, chars_of, string_of, to_ascii_lowercase, trim, trim_seq,
    trim_start_char, trim_start_char_seq,
};

verus! {

/// What the entry screen hands over to when it closes.
pub enum EntryCommand {
    Listen,
    Chat { session_id: Option<String> },
    View { session_id: String },
}

/// The outcome of the entry screen.
pub enum EntryAction {
    Launch(EntryCommand),
    Model(ModelCommands),
    Quit,
}

/// What a provider connection is used for.
#[derive(Clone, Copy, Debug, PartialEq, Eq, Structural)]
pub enum ConnectionType {
    Stt,
    Llm,
    Calendar,
}

/// The dialog shown over the entry screen, if any.
#[derive(Clone, Copy, Debug, PartialEq, Eq, Structural)]
pub enum Overlay {
    Closed,
    Connect,
    Sessions,
    Models,
    Timeline,
}

/// What choosing a session in the sessions dialog leads to.
#[derive(Clone, Copy, Debug, PartialEq, Eq, Structural)]
pub enum SessionsIntent {
    View,
    ChatResume,
}

/// Work the entry screen asks its runner to do.
pub enum Effect {
    Launch(EntryCommand),
    LoadSessions,
    LoadModels,
    LoadTimelineContacts,
    LoadTimelineEntries(String),
    SaveConnect {
        connection_types: Vec<ConnectionType>,
        provider_id: String,
        base_url: Option<String>,
        api_key: Option<String>,
    },
    CheckCalendarPermission,
    RequestCalendarPermission,
    ResetCalendarPermission,
    LoadCalendars,
    SaveCalendars { provider: String, calendar_ids: Vec<String> },
    OpenAuth,
    OpenBug,
    OpenHello,
    OpenDesktop,
    RunModel(ModelCommands),
    Exit,
}

/// Work asked for by the connect dialog.
pub enum ConnectEffect {
    Save {
        connection_types: Vec<ConnectionType>,
        provider_id: String,
        base_url: Option<String>,
        api_key: Option<String>,
    },
    Exit,
    CheckCalendarPermission,
    RequestCalendarPermission,
    ResetCalendarPermission,
    LoadCalendars,
    SaveCalendars { provider: String, calendar_ids: Vec<String> },
}

/// Work asked for by the sessions dialog.
pub enum SessionsEffect {
    Select(String),
    Exit,
}

/// Work asked for by the timeline dialog.
pub enum TimelineEffect {
    LoadTimeline(String),
    ViewSession(String),
    Exit,
}

/// Work asked for by the models dialog.
pub enum ModelsEffect {
    Exit,
}

/// A key press as the entry screen sees it. Keys it does not handle itself go to the
/// line editor; `Edited` carries whether the editor consumed the key and its text then.
pub enum KeyInput {
    CtrlC,
    Esc,
    Up,
    Down,
    Tab,
    Enter,
    Edited { consumed: bool, text: String },
}

/// Tips shown while a provider is missing.
pub const TIPS_UNCONFIGURED: [&'static str; 1] = ["Run /connect to set up a provider"];

/// Tips shown once both providers are configured.
pub const TIPS_READY: [&'static str; 1] = ["Type /listen to start a live transcription session"];

pub open spec fn tip_spec(unconfigured: bool) -> Seq<char> {
    if unconfigured {
        "Run /connect to set up a provider"@
    } else {
        "Type /listen to start a live transcription session"@
    }
}

/// The tip of the day: one of the tips for the current configuration, picked by the clock.
pub fn pick_tip(stt_provider: &Option<String>, llm_provider: &Option<String>) -> (r: &'static str)
    ensures
        r@ == tip_spec(stt_provider is None || llm_provider is None),
{
    let unconfigured = stt_provider.is_none() || llm_provider.is_none();
    let tips: [&'static str; 1] = if unconfigured {
        TIPS_UNCONFIGURED
    } else {
        TIPS_READY
    };
    let index: usize = match now_millis() {
        Some(m) => (m % 1) as usize,
        None => 0,
    };
    tips[index]
}

/// `Unknown command: ` followed by the command as typed, trimmed.
pub open spec fn unknown_command_message(command: Seq<char>) -> Seq<char> {
    "Unknown command: "@ + trim_seq(command)
}

/// The command text with surrounding space and leading slashes removed, lower-cased.
pub open spec fn normalize_command(command: Seq<char>) -> Seq<char> {
    ascii_lower_seq(trim_start_char_seq(trim_seq(command), '/'))
}

/// Pasted text with `\r\n` and lone `\r` line ends turned into `\n`.
pub open spec fn normalize_newlines_spec(s: Seq<char>) -> Seq<char>
    decreases s.len(),
{
    if s.len() == 0 {
        s
    } else if s[0] == '\r' && s.len() >= 2 && s[1] == '\n' {
        seq!['\n'] + normalize_newlines_spec(s.skip(2))
    } else if s[0] == '\r' {
        seq!['\n'] + normalize_newlines_spec(s.skip(1))
    } else {
        seq![s[0]] + normalize_newlines_spec(s.skip(1))
    }
}

proof fn lemma_normalize_step(s: Seq<char>, i: int)
    requires
        0 <= i <= s.len(),
    ensures
        i < s.len() && s[i] == '\r' && i + 1 < s.len() && s[i + 1] == '\n' ==> normalize_newlines_spec(
            s.skip(i),
        ) == seq!['\n'] + normalize_newlines_spec(s.skip(i + 2)),
        i < s.len() && s[i] == '\r' && !(i + 1 < s.len() && s[i + 1] == '\n') ==> normalize_newlines_spec(
            s.skip(i),
        ) == seq!['\n'] + normalize_newlines_spec(s.skip(i + 1)),
        i < s.len() && s[i] != '\r' ==> normalize_newlines_spec(s.skip(i)) == seq![s[i]]
            + normalize_newlines_spec(s.skip(i + 1)),
{
    if i < s.len() {
        let t = s.skip(i);
        assert(t[0] == s[i]);
        assert(t.skip(1) =~= s.skip(i + 1));
        if i + 1 < s.len() {
            assert(t[1] == s[i + 1]);
            assert(t.skip(2) =~= s.skip(i + 2));
        }
    }
}

/// `str::replace("\r\n", "\n")` followed by `replace('\r', "\n")`.
pub fn normalize_newlines(s: &str) -> (r: String)
    ensures
        r@ == normalize_newlines_spec(s@),
{
    let v = chars_of(s);
    let n = v.len();
    let mut out: Vec<char> = Vec::new();
    let mut i: usize = 0;
    assert(v@.skip(0) =~= v@);
    while i < n
        invariant
            n == v@.len(),
            v@ == s@,
            i <= n,
            out@ + normalize_newlines_spec(v@.skip(i as int)) == normalize_newlines_spec(v@),
        decreases n - i,
    {
        proof {
            lemma_normalize_step(v@, i as int);
        }
        if v[i] == '\r' {
            out.push('\n');
            if i + 1 < n && v[i + 1] == '\n' {
                i = i + 2;
            } else {
                i = i + 1;
            }
        } else {
            out.push(v[i]);
            i = i + 1;
        }
        assert(out@ + normalize_newlines_spec(v@.skip(i as int)) =~= normalize_newlines_spec(v@))
            by {
            assert(out@.drop_last() + (seq![out@.last()] + normalize_newlines_spec(
                v@.skip(i as int),
            )) =~= out@ + normalize_newlines_spec(v@.skip(i as int)));
        }
    }
    assert(v@.skip(n as int) =~= Seq::<char>::empty());
    assert(out@ =~= normalize_newlines_spec(v@));
    string_of(&out)
}

/// The entry screen's state.
pub struct EntryApp {
    pub input: String,
    pub palette: Palette,
    pub status_message: Option<String>,
    pub tip: &'static str,
    pub stt_provider: Option<String>,
    pub llm_provider: Option<String>,
    pub overlay: Overlay,
    pub sessions_intent: SessionsIntent,
}

impl EntryApp {
    /// The popup's selection is in range.
    pub open spec fn wf(&self) -> bool {
        self.palette.wf()
    }

    /// `self` is `old` with the input cleared, the overlay closed and no status.
    pub open spec fn is_reset_of(&self, old: &Self) -> bool {
        &&& self.overlay == Overlay::Closed
        &&& self.input@.len() == 0
        &&& self.status_message is None
        &&& !self.palette.popup_visible
        &&& self.palette.filtered_commands@.len() == 0
        &&& self.palette.selected_index == 0
        &&& self.tip == old.tip
        &&& self.stt_provider == old.stt_provider
        &&& self.llm_provider == old.llm_provider
        &&& self.sessions_intent == old.sessions_intent
    }

    pub fn new(
        status_message: Option<String>,
        stt_provider: Option<String>,
        llm_provider: Option<String>,
    ) -> (r: Self)
        ensures
            r.wf(),
            r.input@.len() == 0,
            !r.palette.popup_visible,
            r.palette.filtered_commands@.len() == 0,
            r.palette.selected_index == 0,
            r.status_message == status_message,
            r.tip@ == tip_spec(stt_provider is None || llm_provider is None),
            r.stt_provider == stt_provider,
            r.llm_provider == llm_provider,
            r.overlay == Overlay::Closed,
            r.sessions_intent == SessionsIntent::View,
    {
        let tip = pick_tip(&stt_provider, &llm_provider);
        let r = EntryApp {
            input: String::new(),
            palette: Palette::new(),
            status_message,
            tip,
            stt_provider,
            llm_provider,
            overlay: Overlay::Closed,
            sessions_intent: SessionsIntent::View,
        };
        r
    }

    /// The typed text, trimmed, without leading slashes, lower-cased.
    pub fn query(&self) -> (r: String)
        ensures
            r@ == normalize_command(self.input@),
    {
        let t = trim(self.input.as_str());
        let u = trim_start_char(t.as_str(), '/');
        to_ascii_lowercase(u.as_str())
    }

    pub fn has_overlay(&self) -> (r: bool)
        ensures
            r == (self.overlay != Overlay::Closed),
    {
        self.overlay != Overlay::Closed
    }

    /// Whether the configured providers leave `cmd` unusable.
    pub fn is_command_disabled(&self, cmd: Command) -> (r: bool)
        ensures
            r == disabled_reason_spec(cmd, opt_view(self.stt_provider), opt_view(self.llm_provider)) is Some,
    {
        cmd.disabled_reason(&self.stt_provider, &self.llm_provider).is_some()
    }

    /// Shows `message` in the status line, clearing the input.
    pub fn show_status_message(&mut self, message: String)
        requires
            old(self).wf(),
        ensures
            final(self).wf(),
            final(self).status_message == Some(message),
            final(self).input@.len() == 0,
            !final(self).palette.popup_visible,
            final(self).palette.filtered_commands@.len() == 0,
            final(self).palette.selected_index == 0,
            final(self).overlay == old(self).overlay,
            final(self).tip == old(self).tip,
            final(self).stt_provider == old(self).stt_provider,
            final(self).llm_provider == old(self).llm_provider,
            final(self).sessions_intent == old(self).sessions_intent,
    {
        self.status_message = Some(message);
        self.input = String::new();
        self.palette.recompute(self.input.as_str());
    }

    /// Records providers saved through the connect dialog.
    pub fn connect_saved(&mut self, connection_types: &Vec<ConnectionType>, provider_id: String)
        requires
            old(self).wf(),
        ensures
            final(self).wf(),
            final(self).stt_provider == if connection_types@.contains(ConnectionType::Stt) {
                Some(provider_id)
            } else {
                old(self).stt_provider
            },
            final(self).llm_provider == if connection_types@.contains(ConnectionType::Llm) {
                Some(provider_id)
            } else {
                old(self).llm_provider
            },
            final(self).tip@ == tip_spec(
                final(self).stt_provider is None || final(self).llm_provider is None,
            ),
            final(self).status_message matches Some(m) && m@ == "Provider configured"@,
            final(self).input == old(self).input,
            final(self).palette == old(self).palette,
            final(self).overlay == old(self).overlay,
            final(self).sessions_intent == old(self).sessions_intent,
    {
        let mut k: usize = 0;
        while k < connection_types.len()
            invariant
                k <= connection_types@.len(),
                self.wf(),
                self.input == old(self).input,
                self.palette == old(self).palette,
                self.overlay == old(self).overlay,
                self.sessions_intent == old(self).sessions_intent,
                self.stt_provider == if connection_types@.take(k as int).contains(ConnectionType::Stt) {
                    Some(provider_id)
                } else {
                    old(self).stt_provider
                },
                self.llm_provider == if connection_types@.take(k as int).contains(ConnectionType::Llm) {
                    Some(provider_id)
                } else {
                    old(self).llm_provider
                },
            decreases connection_types@.len() - k,
        {
            let ghost before = connection_types@.take(k as int);
            let ct = connection_types[k];
            assert(connection_types@.take(k + 1) =~= before.push(ct));
            match ct {
                ConnectionType::Stt => {
                    self.stt_provider = Some(provider_id.clone());
                },
                ConnectionType::Llm => {
                    self.llm_provider = Some(provider_id.clone());
                },
                ConnectionType::Calendar => {},
            }
            proof {
                assert(before.push(ct)[before.len() as int] == ct);
                assert(before.push(ct).contains(ct));
                assert forall|t: ConnectionType| t != ct implies (before.push(ct).contains(t)
                    == before.contains(t)) by {
                    if before.push(ct).contains(t) {
                        let w = choose|w: int| 0 <= w < before.push(ct).len() && before.push(ct)[w] == t;
                        assert(before[w] == t);
                    }
                    if before.contains(t) {
                        let w = choose|w: int| 0 <= w < before.len() && before[w] == t;
                        assert(before.push(ct)[w] == t);
                    }
                }
            }
            k = k + 1;
        }
        assert(connection_types@.take(connection_types@.len() as int) =~= connection_types@);
        self.tip = pick_tip(&self.stt_provider, &self.llm_provider);
        self.status_message = Some(String::from_str("Provider configured"));
    }

    /// Closes any overlay and clears the input and the status line.
    pub fn reset_input(&mut self)
        requires
            old(self).wf(),
        ensures
            final(self).wf(),
            final(self).is_reset_of(old(self)),
    {
        self.overlay = Overlay::Closed;
        self.input = String::new();
        self.status_message = None;
        self.palette.recompute(self.input.as_str());
    }

    /// Replaces the input with `value` (the popup is not recomputed).
    fn set_input_text(&mut self, value: &str)
        requires
            old(self).wf(),
        ensures
            final(self).wf(),
            final(self).input@ == value@,
            final(self).palette == old(self).palette,
            final(self).status_message == old(self).status_message,
            final(self).overlay == old(self).overlay,
            final(self).tip == old(self).tip,
            final(self).stt_provider == old(self).stt_provider,
            final(self).llm_provider == old(self).llm_provider,
            final(self).sessions_intent == old(self).sessions_intent,
    {
        self.input = String::from_str(value);
    }

    /// Takes the line editor's text after it changed.
    pub fn input_edited(&mut self, text: String)
        requires
            old(self).wf(),
        ensures
            final(self).wf(),
            final(self).input@ == text@,
            final(self).status_message is None,
            final(self).palette.popup_visible == (trim_seq(text@).len() > 0),
            trim_seq(text@).len() == 0 ==> final(self).palette.filtered_commands@.len() == 0
                && final(self).palette.selected_index == 0,
            trim_seq(text@).len() > 0 ==> is_popup_listing(popup_query(text@), final(self).palette.filtered_commands@)
                && final(self).palette.selected_index < final(self).palette.filtered_commands@.len(),
            final(self).overlay == old(self).overlay,
            final(self).tip == old(self).tip,
            final(self).stt_provider == old(self).stt_provider,
            final(self).llm_provider == old(self).llm_provider,
            final(self).sessions_intent == old(self).sessions_intent,
    {
        self.input = text;
        self.status_message = None;
        self.palette.recompute(self.input.as_str());
    }

    /// A key press while no overlay is open.
    pub fn handle_key(&mut self, key: KeyInput) -> (r: Vec<Effect>)
        requires
            old(self).wf(),
            old(self).overlay == Overlay::Closed,
        ensures
            final(self).wf(),
            final(self).stt_provider == old(self).stt_provider,
            final(self).llm_provider == old(self).llm_provider,
            key is CtrlC ==> r@.len() == 1 && r@[0] is Exit && *final(self) == *old(self),
            key is Esc ==> r@.len() == 0 && final(self).is_reset_of(old(self)),
            key is Up && old(self).palette.popup_visible ==> {
                &&& r@.len() == 0
                &&& final(self).palette.selected_index == if old(self).palette.selected_index > 0 {
                    old(self).palette.selected_index - 1
                } else {
                    0
                }
                &&& final(self).palette.filtered_commands@ == old(self).palette.filtered_commands@
                &&& final(self).input == old(self).input
            },
            key is Down && old(self).palette.popup_visible ==> {
                &&& r@.len() == 0
                &&& final(self).palette.selected_index == if old(self).palette.selected_index + 1
                    < old(self).palette.filtered_commands@.len() {
                    old(self).palette.selected_index + 1
                } else if old(self).palette.filtered_commands@.len() > 0 {
                    old(self).palette.filtered_commands@.len() - 1
                } else {
                    0
                }
                &&& final(self).palette.filtered_commands@ == old(self).palette.filtered_commands@
                &&& final(self).input == old(self).input
            },
            (key is Up || key is Down) && !old(self).palette.popup_visible ==> r@.len() == 0
                && *final(self) == *old(self),
            key matches KeyInput::Edited { consumed, text } && !consumed ==> (r@.len() == 0
                && *final(self) == *old(self)),
            key matches KeyInput::Edited { consumed, text } ==> (consumed ==> {
                &&& r@.len() == 0
                &&& final(self).input@ == text@
                &&& final(self).status_message is None
                &&& final(self).palette.popup_visible == (trim_seq(text@).len() > 0)
            }),
            key is Tab && old(self).palette.popup_visible ==> r@.len() == 0 && match selected_name(
                old(self).palette,
            ) {
                Some(n) => final(self).input@ == n && final(self).palette.popup_visible == (trim_seq(
                    n,
                ).len() > 0) && final(self).status_message == old(self).status_message,
                None => *final(self) == *old(self),
            },
            key is Enter ==> exists|mid: EntryApp|
                with_input(*old(self), mid, enter_text(*old(self))) && #[trigger] submit_outcome(
                    mid,
                    trim_seq(enter_text(*old(self))),
                    *final(self),
                    r@,
                ),
    {
        match key {
            KeyInput::CtrlC => {
                return vec![Effect::Exit];
            },
            KeyInput::Esc => {
                self.reset_input();
                return Vec::new();
            },
            KeyInput::Up => {
                if self.palette.popup_visible {
                    self.palette.select_previous();
                    return Vec::new();
                }
                Vec::new()
            },
            KeyInput::Down => {
                if self.palette.popup_visible {
                    self.palette.select_next();
                    return Vec::new();
                }
                Vec::new()
            },
            KeyInput::Tab => {
                if self.palette.popup_visible {
                    match self.palette.selected_command_name() {
                        Some(cmd) => {
                            self.set_input_text(cmd);
                            self.palette.recompute(self.input.as_str());
                        },
                        None => {},
                    }
                }
                Vec::new()
            },
            KeyInput::Enter => {
                if self.palette.popup_visible {
                    match self.palette.selected_command_name() {
                        Some(cmd) => {
                            self.set_input_text(cmd);
                        },
                        None => {},
                    }
                }
                let ghost mid = *self;
                let command = trim(self.input.as_str());
                let r = self.submit_command(command.as_str());
                assert(with_input(*old(self), mid, enter_text(*old(self))));
                assert(submit_outcome(mid, trim_seq(enter_text(*old(self))), *self, r@));
                r
            },
            KeyInput::Edited { consumed, text } => {
                if consumed {
                    self.input_edited(text);
                }
                Vec::new()
            },
        }
    }

    /// Runs the command typed as `command`.
    pub fn submit_command(&mut self, command: &str) -> (r: Vec<Effect>)
        requires
            old(self).wf(),
        ensures
            final(self).wf(),
            final(self).stt_provider == old(self).stt_provider,
            final(self).llm_provider == old(self).llm_provider,
            submit_outcome(*old(self), command@, *final(self), r@),
    {
        let t = trim(command);
        let u = trim_start_char(t.as_str(), '/');
        let normalized = to_ascii_lowercase(u.as_str());
        if normalized.as_str().unicode_len() == 0 {
            return Vec::new();
        }
        match lookup(normalized.as_str()) {
            None => {
                let mut m = String::from_str("Unknown command: ");
                m.append(t.as_str());
                self.status_message = Some(m);
                Vec::new()
            },
            Some((cmd, rest)) => {
                if self.is_command_disabled(cmd) {
                    return Vec::new();
                }
                self.dispatch_command(cmd, rest)
            },
        }
    }

    /// Carries out a recognised command with its argument text.
    pub fn dispatch_command(&mut self, cmd: Command, rest: &str) -> (r: Vec<Effect>)
        requires
            old(self).wf(),
        ensures
            final(self).wf(),
            dispatched(*old(self), cmd, rest@, *final(self), r@),
    {
        match cmd {
            Command::Listen => vec![Effect::Launch(EntryCommand::Listen)],
            Command::Chat => vec![Effect::Launch(EntryCommand::Chat { session_id: None })],
            Command::ChatResume => {
                self.reset_input();
                self.sessions_intent = SessionsIntent::ChatResume;
                self.overlay = Overlay::Sessions;
                vec![Effect::LoadSessions]
            },
            Command::Sessions => {
                self.reset_input();
                self.sessions_intent = SessionsIntent::View;
                self.overlay = Overlay::Sessions;
                vec![Effect::LoadSessions]
            },
            Command::Timeline => {
                self.reset_input();
                self.overlay = Overlay::Timeline;
                vec![Effect::LoadTimelineContacts]
            },
            Command::Connect => {
                self.reset_input();
                self.overlay = Overlay::Connect;
                Vec::new()
            },
            Command::Auth => {
                self.reset_input();
                vec![Effect::OpenAuth]
            },
            Command::Bug => {
                self.reset_input();
                vec![Effect::OpenBug]
            },
            Command::Hello => {
                self.reset_input();
                vec![Effect::OpenHello]
            },
            Command::Desktop => {
                self.reset_input();
                vec![Effect::OpenDesktop]
            },
            Command::Models => {
                self.reset_input();
                self.overlay = Overlay::Models;
                vec![Effect::LoadModels]
            },
            Command::ModelsDownload => {
                if rest.unicode_len() == 0 {
                    self.reset_input();
                    self.status_message = Some(String::from_str("Usage: /models download <name>"));
                    Vec::new()
                } else {
                    vec![Effect::RunModel(ModelCommands::Download { name: String::from_str(rest) })]
                }
            },
            Command::ModelsDelete => {
                if rest.unicode_len() == 0 {
                    self.reset_input();
                    self.status_message = Some(String::from_str("Usage: /models delete <name>"));
                    Vec::new()
                } else {
                    vec![Effect::RunModel(ModelCommands::Delete { name: String::from_str(rest) })]
                }
            },
            Command::ModelsPaths => vec![Effect::RunModel(ModelCommands::Paths)],
            Command::Exit => vec![Effect::Exit],
        }
    }

    /// Turns the connect dialog's requests into the screen's effects, in order; saving or
    /// leaving the dialog closes it.
    pub fn translate_connect_effects(&mut self, effects: Vec<ConnectEffect>) -> (r: Vec<Effect>)
        requires
            old(self).wf(),
        ensures
            final(self).wf(),
            r@ == forward_connect_seq(effects@),
            (exists|i: int| 0 <= i < effects@.len() && #[trigger] closes_connect(effects@[i]))
                ==> final(self).is_reset_of(old(self)),
            !(exists|i: int| 0 <= i < effects@.len() && #[trigger] closes_connect(effects@[i]))
                ==> *final(self) == *old(self),
    {
        let ghost all = effects@;
        let mut pending = effects;
        let total = pending.len();
        assert(all.len() == total);
        let mut result: Vec<Effect> = Vec::new();
        let mut k: usize = 0;
        let ghost mut closed = false;
        assert(all.skip(0) =~= all);
        assert(all.take(0) =~= Seq::<ConnectEffect>::empty());
        while pending.len() > 0
            invariant
                self.wf(),
                k <= all.len(),
                pending@ == all.skip(k as int),
                all.len() <= usize::MAX,
                result@ == forward_connect_seq(all.take(k as int)),
                closed == (exists|i: int| 0 <= i < k && #[trigger] closes_connect(all[i])),
                closed ==> self.is_reset_of(old(self)),
                !closed ==> *self == *old(self),
            decreases pending@.len(),
        {
            let e = pending.remove(0);
            assert(e == all[k as int]);
            assert(pending@ =~= all.skip(k + 1));
            assert(all.take(k + 1).drop_last() =~= all.take(k as int));
            assert(all.take(k + 1).last() == e);
            let ghost was_closed = closed;
            match e {
                ConnectEffect::Save { connection_types, provider_id, base_url, api_key } => {
                    self.reset_input();
                    result.push(Effect::SaveConnect { connection_types, provider_id, base_url, api_key });
                    proof {
                        closed = true;
                    }
                },
                ConnectEffect::Exit => {
                    self.reset_input();
                    proof {
                        closed = true;
                    }
                },
                ConnectEffect::CheckCalendarPermission => {
                    result.push(Effect::CheckCalendarPermission);
                },
                ConnectEffect::RequestCalendarPermission => {
                    result.push(Effect::RequestCalendarPermission);
                },
                ConnectEffect::ResetCalendarPermission => {
                    result.push(Effect::ResetCalendarPermission);
                },
                ConnectEffect::LoadCalendars => {
                    result.push(Effect::LoadCalendars);
                },
                ConnectEffect::SaveCalendars { provider, calendar_ids } => {
                    result.push(Effect::SaveCalendars { provider, calendar_ids });
                },
            }
            proof {
                if closes_connect(all[k as int]) {
                    assert(closed);
                }
                assert(closed == (exists|i: int| 0 <= i < k + 1 && #[trigger] closes_connect(all[i]))) by {
                    if exists|i: int| 0 <= i < k + 1 && #[trigger] closes_connect(all[i]) {
                        let w = choose|i: int| 0 <= i < k + 1 && #[trigger] closes_connect(all[i]);
                        if w < k {
                            assert(was_closed);
                        }
                    }
                }
            }
            k = k + 1;
        }
        assert(all.take(k as int) =~= all);
        result
    }

    /// Turns the sessions dialog's requests into the screen's effects: a chosen session
    /// is viewed or resumed in chat, as the dialog was opened for.
    pub fn translate_sessions_effects(&mut self, effects: Vec<SessionsEffect>) -> (r: Vec<Effect>)
        requires
            old(self).wf(),
        ensures
            final(self).wf(),
            r@.len() == select_count(effects@),
            forall|i: int| 0 <= i < r@.len() ==> launches_session(#[trigger] r@[i], old(self).sessions_intent),
            forall|i: int| 0 <= i < r@.len() ==> session_of_launch(#[trigger] r@[i]) == selected_ids(effects@)[i],
            effects@.len() > 0 ==> final(self).is_reset_of(old(self)),
            effects@.len() == 0 ==> *final(self) == *old(self),
    {
        let ghost all = effects@;
        let mut pending = effects;
        let total = pending.len();
        assert(all.len() == total);
        let mut result: Vec<Effect> = Vec::new();
        let mut k: usize = 0;
        assert(all.skip(0) =~= all);
        assert(all.take(0) =~= Seq::<SessionsEffect>::empty());
        while pending.len() > 0
            invariant
                self.wf(),
                k <= all.len(),
                pending@ == all.skip(k as int),
                all.len() <= usize::MAX,
                self.sessions_intent == old(self).sessions_intent,
                result@.len() == select_count(all.take(k as int)),
                forall|i: int| 0 <= i < result@.len() ==> launches_session(#[trigger] result@[i], old(self).sessions_intent),
                forall|i: int| 0 <= i < result@.len() ==> session_of_launch(#[trigger] result@[i]) == selected_ids(all.take(k as int))[i],
                k > 0 ==> self.is_reset_of(old(self)),
                k == 0 ==> *self == *old(self),
            decreases pending@.len(),
        {
            let e = pending.remove(0);
            assert(e == all[k as int]);
            assert(pending@ =~= all.skip(k + 1));
            assert(all.take(k + 1).drop_last() =~= all.take(k as int));
            assert(all.take(k + 1).last() == e);
            let ghost prev = result@;
            match e {
                SessionsEffect::Select(id) => {
                    let ghost idv = id@;
                    let cmd = match self.sessions_intent {
                        SessionsIntent::View => EntryCommand::View { session_id: id },
                        SessionsIntent::ChatResume => EntryCommand::Chat { session_id: Some(id) },
                    };
                    self.reset_input();
                    result.push(Effect::Launch(cmd));
                    assert(selected_ids(all.take(k + 1)) =~= selected_ids(all.take(k as int)).push(idv));
                    assert forall|i: int| 0 <= i < result@.len() implies session_of_launch(#[trigger] result@[i])
                        == selected_ids(all.take(k + 1))[i] by {
                        if i < prev.len() {
                            assert(result@[i] == prev[i]);
                        }
                    }
                },
                SessionsEffect::Exit => {
                    self.reset_input();
                    assert(selected_ids(all.take(k + 1)) =~= selected_ids(all.take(k as int)));
                },
            }
            k = k + 1;
        }
        assert(all.take(k as int) =~= all);
        result
    }

    /// Turns the timeline dialog's requests into the screen's effects; viewing a session
    /// or leaving closes the dialog.
    pub fn translate_timeline_effects(&mut self, effects: Vec<TimelineEffect>) -> (r: Vec<Effect>)
        requires
            old(self).wf(),
        ensures
            final(self).wf(),
            r@ == forward_timeline_seq(effects@),
            (exists|i: int| 0 <= i < effects@.len() && !(#[trigger] effects@[i] is LoadTimeline))
                ==> final(self).is_reset_of(old(self)),
            !(exists|i: int| 0 <= i < effects@.len() && !(#[trigger] effects@[i] is LoadTimeline))
                ==> *final(self) == *old(self),
    {
        let ghost all = effects@;
        let mut pending = effects;
        let total = pending.len();
        assert(all.len() == total);
        let mut result: Vec<Effect> = Vec::new();
        let mut k: usize = 0;
        let ghost mut closed = false;
        assert(all.skip(0) =~= all);
        assert(all.take(0) =~= Seq::<TimelineEffect>::empty());
        while pending.len() > 0
            invariant
                self.wf(),
                k <= all.len(),
                pending@ == all.skip(k as int),
                all.len() <= usize::MAX,
                result@ == forward_timeline_seq(all.take(k as int)),
                closed == (exists|i: int| 0 <= i < k && !(#[trigger] all[i] is LoadTimeline)),
                closed ==> self.is_reset_of(old(self)),
                !closed ==> *self == *old(self),
            decreases pending@.len(),
        {
            let e = pending.remove(0);
            assert(e == all[k as int]);
            assert(pending@ =~= all.skip(k + 1));
            assert(all.take(k + 1).drop_last() =~= all.take(k as int));
            assert(all.take(k + 1).last() == e);
            let ghost was_closed = closed;
            match e {
                TimelineEffect::LoadTimeline(human_id) => {
                    result.push(Effect::LoadTimelineEntries(human_id));
                },
                TimelineEffect::ViewSession(session_id) => {
                    self.reset_input();
                    result.push(Effect::Launch(EntryCommand::View { session_id }));
                    proof {
                        closed = true;
                    }
                },
                TimelineEffect::Exit => {
                    self.reset_input();
                    proof {
                        closed = true;
                    }
                },
            }
            proof {
                if !(all[k as int] is LoadTimeline) {
                    assert(closed);
                }
                assert(closed == (exists|i: int| 0 <= i < k + 1 && !(#[trigger] all[i] is LoadTimeline))) by {
                    if exists|i: int| 0 <= i < k + 1 && !(#[trigger] all[i] is LoadTimeline) {
                        let w = choose|i: int| 0 <= i < k + 1 && !(#[trigger] all[i] is LoadTimeline);
                        if w < k {
                            assert(was_closed);
                        }
                    }
                }
            }
            k = k + 1;
        }
        assert(all.take(k as int) =~= all);
        result
    }

    /// The models dialog only asks to be closed; nothing is forwarded.
    pub fn translate_models_effects(&mut self, effects: Vec<ModelsEffect>) -> (r: Vec<Effect>)
        requires
            old(self).wf(),
        ensures
            final(self).wf(),
            r@.len() == 0,
            effects@.len() > 0 ==> final(self).is_reset_of(old(self)),
            effects@.len() == 0 ==> *final(self) == *old(self),
    {
        let mut k: usize = 0;
        while k < effects.len()
            invariant
                self.wf(),
                k <= effects@.len(),
                k > 0 ==> self.is_reset_of(old(self)),
                k == 0 ==> *self == *old(self),
            decreases effects@.len() - k,
        {
            match &effects[k] {
                ModelsEffect::Exit => {
                    self.reset_input();
                },
            }
            k = k + 1;
        }
        Vec::new()
    }
}

/// Whether a connect-dialog request closes the dialog.
pub open spec fn closes_connect(e: ConnectEffect) -> bool {
    e is Save || e is Exit
}

/// The screen effect a connect-dialog request is forwarded as, if any.
pub open spec fn forward_connect(e: ConnectEffect) -> Option<Effect> {
    match e {
        ConnectEffect::Save { connection_types, provider_id, base_url, api_key } => Some(
            Effect::SaveConnect { connection_types, provider_id, base_url, api_key },
        ),
        ConnectEffect::Exit => None,
        ConnectEffect::CheckCalendarPermission => Some(Effect::CheckCalendarPermission),
        ConnectEffect::RequestCalendarPermission => Some(Effect::RequestCalendarPermission),
        ConnectEffect::ResetCalendarPermission => Some(Effect::ResetCalendarPermission),
        ConnectEffect::LoadCalendars => Some(Effect::LoadCalendars),
        ConnectEffect::SaveCalendars { provider, calendar_ids } => Some(
            Effect::SaveCalendars { provider, calendar_ids },
        ),
    }
}

pub open spec fn forward_connect_seq(s: Seq<ConnectEffect>) -> Seq<Effect>
    decreases s.len(),
{
    if s.len() == 0 {
        Seq::empty()
    } else {
        forward_connect_seq(s.drop_last()) + match forward_connect(s.last()) {
            Some(e) => seq![e],
            None => Seq::empty(),
        }
    }
}

pub open spec fn forward_timeline(e: TimelineEffect) -> Option<Effect> {
    match e {
        TimelineEffect::LoadTimeline(h) => Some(Effect::LoadTimelineEntries(h)),
        TimelineEffect::ViewSession(s) => Some(Effect::Launch(EntryCommand::View { session_id: s })),
        TimelineEffect::Exit => None,
    }
}

pub open spec fn forward_timeline_seq(s: Seq<TimelineEffect>) -> Seq<Effect>
    decreases s.len(),
{
    if s.len() == 0 {
        Seq::empty()
    } else {
        forward_timeline_seq(s.drop_last()) + match forward_timeline(s.last()) {
            Some(e) => seq![e],
            None => Seq::empty(),
        }
    }
}

/// The session ids chosen, in order.
pub open spec fn selected_ids(s: Seq<SessionsEffect>) -> Seq<Seq<char>>
    decreases s.len(),
{
    if s.len() == 0 {
        Seq::empty()
    } else {
        selected_ids(s.drop_last()) + match s.last() {
            SessionsEffect::Select(id) => seq![id@],
            SessionsEffect::Exit => Seq::empty(),
        }
    }
}

pub open spec fn select_count(s: Seq<SessionsEffect>) -> nat {
    selected_ids(s).len()
}

/// Whether `e` launches a session in the way `intent` asks for.
pub open spec fn launches_session(e: Effect, intent: SessionsIntent) -> bool {
    match intent {
        SessionsIntent::View => e matches Effect::Launch(EntryCommand::View { .. }),
        SessionsIntent::ChatResume => e matches Effect::Launch(EntryCommand::Chat { session_id })
            && session_id is Some,
    }
}

/// The session a launch effect opens.
pub open spec fn session_of_launch(e: Effect) -> Seq<char> {
    match e {
        Effect::Launch(EntryCommand::View { session_id }) => session_id@,
        Effect::Launch(EntryCommand::Chat { session_id: Some(id) }) => id@,
        _ => Seq::empty(),
    }
}

/// One step of running the effects: either the screen closes with an outcome, or the
/// effect is work for the runner.
pub enum EffectStep {
    Close(EntryAction),
    Perform(Effect),
}

/// Whether an effect closes the entry screen, and with which outcome.
pub fn effect_step(effect: Effect) -> (r: EffectStep)
    ensures
        match effect {
            Effect::Launch(c) => r == EffectStep::Close(EntryAction::Launch(c)),
            Effect::RunModel(m) => r == EffectStep::Close(EntryAction::Model(m)),
            Effect::Exit => r == EffectStep::Close(EntryAction::Quit),
            _ => r == EffectStep::Perform(effect),
        },
{
    match effect {
        Effect::Launch(c) => EffectStep::Close(EntryAction::Launch(c)),
        Effect::RunModel(m) => EffectStep::Close(EntryAction::Model(m)),
        Effect::Exit => EffectStep::Close(EntryAction::Quit),
        other => EffectStep::Perform(other),
    }
}

/// Whether an effect closes the entry screen.
pub open spec fn closes_screen(e: Effect) -> bool {
    e is Launch || e is RunModel || e is Exit
}

/// The outcome with which a closing effect closes the entry screen.
pub open spec fn close_action(e: Effect) -> EntryAction {
    match e {
        Effect::Launch(c) => EntryAction::Launch(c),
        Effect::RunModel(m) => EntryAction::Model(m),
        _ => EntryAction::Quit,
    }
}

/// Runs through `effects` in order, as the entry screen applies them: the effects
/// before the first one that closes the screen are handed back, in order, to be
/// performed; that one gives the outcome, and the effects after it are never reached.
/// With no closing effect, all of them are performed and the screen goes on.
pub fn split_effects(effects: Vec<Effect>) -> (r: (Vec<Effect>, Option<EntryAction>))
    ensures
        r.0@ == effects@.take(r.0@.len() as int),
        forall|i: int| 0 <= i < r.0@.len() ==> !closes_screen(#[trigger] effects@[i]),
        match r.1 {
            Some(a) => r.0@.len() < effects@.len()
                && closes_screen(effects@[r.0@.len() as int])
                && a == close_action(effects@[r.0@.len() as int]),
            None => r.0@.len() == effects@.len(),
        },
{
    let ghost orig = effects@;
    let mut rest = effects;
    let mut done: Vec<Effect> = Vec::new();
    while rest.len() > 0
        invariant
            orig == effects@,
            orig == done@ + rest@,
            forall|i: int| 0 <= i < done@.len() ==> !closes_screen(#[trigger] done@[i]),
        decreases rest.len(),
    {
        let ghost before = rest@;
        let e = rest.remove(0);
        assert(orig[done@.len() as int] == e) by {
            assert(before[0] == e);
        }
        match effect_step(e) {
            EffectStep::Close(a) => {
                assert(orig.take(done@.len() as int) =~= done@);
                assert forall|i: int| 0 <= i < done@.len() implies !closes_screen(#[trigger] orig[i]) by {
                    assert(orig[i] == done@[i]);
                }
                return (done, Some(a));
            },
            EffectStep::Perform(p) => {
                done.push(p);
                assert(orig == done@ + rest@) by {
                    assert(orig =~= done@ + rest@);
                }
            },
        }
    }
    assert(orig.take(done@.len() as int) =~= done@);
    assert forall|i: int| 0 <= i < done@.len() implies !closes_screen(#[trigger] orig[i]) by {
        assert(orig[i] == done@[i]);
    }
    (done, None)
}

/// The connection under which calendars chosen for `provider` are saved: `cal:` and the provider.
pub fn calendar_connection_id(provider: &str) -> (r: String)
    ensures
        r@ == "cal:"@ + provider@,
{
    let mut s = String::from_str("cal:");
    s.append(provider);
    s
}

/// A page the entry screen opens in the browser.
#[derive(Clone, Copy, Debug, PartialEq, Eq, Structural)]
pub enum BrowserPage {
    Auth,
    Bug,
    Hello,
}

pub open spec fn browser_opened_message(page: BrowserPage) -> Seq<char> {
    match page {
        BrowserPage::Auth => "Opened auth page in browser"@,
        BrowserPage::Bug => "Opened bug report page in browser"@,
        BrowserPage::Hello => "Opened char.com in browser"@,
    }
}

/// The status line after trying to open `page`: a confirmation, or the error's text.
pub fn browser_status_message(page: BrowserPage, outcome: Result<(), String>) -> (r: String)
    ensures
        match outcome {
            Ok(()) => r@ == browser_opened_message(page),
            Err(e) => r@ == e@,
        },
{
    match outcome {
        Ok(()) => match page {
            BrowserPage::Auth => String::from_str("Opened auth page in browser"),
            BrowserPage::Bug => String::from_str("Opened bug report page in browser"),
            BrowserPage::Hello => String::from_str("Opened char.com in browser"),
        },
        Err(e) => e,
    }
}

/// Whether `before` turned into `after` with effects `r` by submitting the typed
/// `command`: nothing for blank input; `Unknown command: ...` in the status line for an
/// unknown one; nothing for a command the providers disable; else what the command does.
pub open spec fn submit_outcome(before: EntryApp, command: Seq<char>, after: EntryApp, r: Seq<Effect>) -> bool {
    if normalize_command(command).len() == 0 {
        r.len() == 0 && after == before
    } else {
        match lookup_spec(normalize_command(command)) {
            None => {
                &&& r.len() == 0
                &&& after.status_message matches Some(m) && m@ == unknown_command_message(command)
                &&& after.input == before.input
                &&& after.palette == before.palette
                &&& after.overlay == before.overlay
                &&& after.tip == before.tip
                &&& after.sessions_intent == before.sessions_intent
                &&& after.stt_provider == before.stt_provider
                &&& after.llm_provider == before.llm_provider
            },
            Some((cmd, rest)) => if disabled_reason_spec(
                cmd,
                opt_view(before.stt_provider),
                opt_view(before.llm_provider),
            ) is Some {
                r.len() == 0 && after == before
            } else {
                dispatched(before, cmd, rest, after, r)
            },
        }
    }
}

/// The name of the command selected in the popup, if the selection names one.
pub open spec fn selected_name(p: Palette) -> Option<Seq<char>> {
    if p.selected_index < p.filtered_commands@.len() && p.filtered_commands@[p.selected_index as int] < 14 {
        Some(name_spec(ALL_COMMANDS@[p.filtered_commands@[p.selected_index as int] as int]))
    } else {
        None
    }
}

/// The text Enter submits from: the selected command's name while the popup shows one,
/// else the input.
pub open spec fn enter_text(app: EntryApp) -> Seq<char> {
    if app.palette.popup_visible && selected_name(app.palette) is Some {
        selected_name(app.palette)->0
    } else {
        app.input@
    }
}

/// `mid` is `before` with its input replaced by `text`.
pub open spec fn with_input(before: EntryApp, mid: EntryApp, text: Seq<char>) -> bool {
    &&& mid.input@ == text
    &&& mid.palette == before.palette
    &&& mid.status_message == before.status_message
    &&& mid.overlay == before.overlay
    &&& mid.tip == before.tip
    &&& mid.stt_provider == before.stt_provider
    &&& mid.llm_provider == before.llm_provider
    &&& mid.sessions_intent == before.sessions_intent
}

/// Whether `before` turned into `after` with effects `r` by running `cmd` with argument `rest`.
pub open spec fn dispatched(
    before: EntryApp,
    cmd: Command,
    rest: Seq<char>,
    after: EntryApp,
    r: Seq<Effect>,
) -> bool {
    match cmd {
        Command::Listen => r.len() == 1 && (r[0] matches Effect::Launch(EntryCommand::Listen))
            && after == before,
        Command::Chat => r.len() == 1 && (r[0] matches Effect::Launch(
            EntryCommand::Chat { session_id },
        ) && session_id is None) && after == before,
        Command::ChatResume => r.len() == 1 && r[0] is LoadSessions && after.is_reset_of_except_overlay(
            &before,
            Overlay::Sessions,
            SessionsIntent::ChatResume,
        ),
        Command::Sessions => r.len() == 1 && r[0] is LoadSessions && after.is_reset_of_except_overlay(
            &before,
            Overlay::Sessions,
            SessionsIntent::View,
        ),
        Command::Timeline => r.len() == 1 && r[0] is LoadTimelineContacts
            && after.is_reset_of_except_overlay(&before, Overlay::Timeline, before.sessions_intent),
        Command::Connect => r.len() == 0 && after.is_reset_of_except_overlay(
            &before,
            Overlay::Connect,
            before.sessions_intent,
        ),
        Command::Auth => r.len() == 1 && r[0] is OpenAuth && after.is_reset_of(&before),
        Command::Bug => r.len() == 1 && r[0] is OpenBug && after.is_reset_of(&before),
        Command::Hello => r.len() == 1 && r[0] is OpenHello && after.is_reset_of(&before),
        Command::Desktop => r.len() == 1 && r[0] is OpenDesktop && after.is_reset_of(&before),
        Command::Models => r.len() == 1 && r[0] is LoadModels && after.is_reset_of_except_overlay(
            &before,
            Overlay::Models,
            before.sessions_intent,
        ),
        Command::ModelsDownload => if rest.len() == 0 {
            r.len() == 0 && after.is_reset_with_status(&before, "Usage: /models download <name>"@)
        } else {
            r.len() == 1 && (r[0] matches Effect::RunModel(ModelCommands::Download { name })
                && name@ == rest) && after == before
        },
        Command::ModelsDelete => if rest.len() == 0 {
            r.len() == 0 && after.is_reset_with_status(&before, "Usage: /models delete <name>"@)
        } else {
            r.len() == 1 && (r[0] matches Effect::RunModel(ModelCommands::Delete { name })
                && name@ == rest) && after == before
        },
        Command::ModelsPaths => r.len() == 1 && (r[0] matches Effect::RunModel(ModelCommands::Paths))
            && after == before,
        Command::Exit => r.len() == 1 && r[0] is Exit && after == before,
    }
}

impl EntryApp {
    pub open spec fn is_reset_of_except_overlay(
        &self,
        old: &Self,
        overlay: Overlay,
        intent: SessionsIntent,
    ) -> bool {
        &&& self.overlay == overlay
        &&& self.sessions_intent == intent
        &&& self.input@.len() == 0
        &&& self.status_message is None
        &&& !self.palette.popup_visible
        &&& self.palette.filtered_commands@.len() == 0
        &&& self.palette.selected_index == 0
        &&& self.tip == old.tip
        &&& self.stt_provider == old.stt_provider
        &&& self.llm_provider == old.llm_provider
    }

    pub open spec fn is_reset_with_status(&self, old: &Self, status: Seq<char>) -> bool {
        &&& self.overlay == Overlay::Closed
        &&& self.input@.len() == 0
        &&& self.status_message matches Some(m) && m@ == status
        &&& !self.palette.popup_visible
        &&& self.palette.filtered_commands@.len() == 0
        &&& self.palette.selected_index == 0
        &&& self.tip == old.tip
        &&& self.stt_provider == old.stt_provider
        &&& self.llm_provider == old.llm_provider
        &&& self.sessions_intent == old.sessions_intent
    }
}


/// The command an effect is the work of, for the commands whose work is one effect of
/// their own.
pub open spec fn command_opened_by(e: Effect) -> Option<Command> {
    match e {
        Effect::OpenAuth => Some(Command::Auth),
        Effect::OpenBug => Some(Command::Bug),
        Effect::OpenHello => Some(Command::Hello),
        Effect::OpenDesktop => Some(Command::Desktop),
        Effect::Launch(EntryCommand::Listen) => Some(Command::Listen),
        Effect::Launch(EntryCommand::Chat { session_id: None }) => Some(Command::Chat),
        Effect::LoadTimelineContacts => Some(Command::Timeline),
        Effect::LoadModels => Some(Command::Models),
        Effect::RunModel(ModelCommands::Paths) => Some(Command::ModelsPaths),
        Effect::Exit => Some(Command::Exit),
        _ => None,
    }
}

/// The commands whose work is one effect of their own.
pub open spec fn is_open_command(cmd: Command) -> bool {
    cmd == Command::Auth || cmd == Command::Bug || cmd == Command::Hello || cmd == Command::Desktop
        || cmd == Command::Listen || cmd == Command::Chat || cmd == Command::Timeline
        || cmd == Command::Models || cmd == Command::ModelsPaths || cmd == Command::Exit
}

/// Each command whose work is one effect of its own (`/auth`, `/bug`, `/hello` and
/// `/desktop` open their own destination; `/listen`, `/chat`, `/timeline`, `/models`,
/// `/models paths` and `/exit`) gives exactly that effect.
pub proof fn law_open_commands_open_their_own(before: EntryApp, cmd: Command, rest: Seq<char>, after: EntryApp, r: Seq<Effect>)
    requires
        is_open_command(cmd),
        dispatched(before, cmd, rest, after, r),
    ensures
        r.len() == 1,
        command_opened_by(r[0]) == Some(cmd),
{
}

/// Two different such commands never give the same effect.
pub proof fn law_open_commands_differ(
    b1: EntryApp, c1: Command, rest1: Seq<char>, a1: EntryApp, r1: Seq<Effect>,
    b2: EntryApp, c2: Command, rest2: Seq<char>, a2: EntryApp, r2: Seq<Effect>,
)
    requires
        is_open_command(c1),
        is_open_command(c2),
        c1 != c2,
        dispatched(b1, c1, rest1, a1, r1),
        dispatched(b2, c2, rest2, a2, r2),
    ensures
        r1[0] != r2[0],
{
    law_open_commands_open_their_own(b1, c1, rest1, a1, r1);
    law_open_commands_open_their_own(b2, c2, rest2, a2, r2);
}

} // verus!
