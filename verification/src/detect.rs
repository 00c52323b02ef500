//! Microphone-use and Zoom mute detection: the decisions taken on each observation.
use vstd::prelude::*;
use vstd::string::*;
use crate::clock::now_millis;
use crate::text::str_eq;

verus! {

/// Bundle identifier of the Zoom desktop client.
pub const ZOOM_BUNDLE_ID: &'static str = "us.zoom.xos";

/// Mic changes closer together than this are ignored.
pub const DEBOUNCE_MS: u128 = 500;

/// How often the Zoom watcher polls.
pub const ZOOM_POLL_INTERVAL_MS: u64 = 1000;

#[derive(Debug)]
pub struct InstalledApp {
    pub id: String,
    pub name: String,
}

impl Clone for InstalledApp {
    fn clone(&self) -> (r: Self)
        ensures
            r == *self,
    {
        InstalledApp { id: self.id.clone(), name: self.name.clone() }
    }
}

pub enum DetectEvent {
    MicStarted(Vec<InstalledApp>),
    MicStopped(Vec<InstalledApp>),
    ZoomMuteStateChanged { value: bool },
}

#[derive(Debug)]
pub enum DetectError {
    AudioProcessState(String),
}

/// Debounced microphone state and the apps seen using it.
pub struct DetectorState {
    pub last_state: bool,
    pub last_change_ms: u128,
    pub debounce_ms: u128,
    pub active_apps: Vec<InstalledApp>,
}

/// Milliseconds from `from` to `to`, zero when `to` is earlier (as `Instant::duration_since`).
pub open spec fn elapsed_ms(from: u128, to: u128) -> int {
    if to >= from {
        to - from
    } else {
        0
    }
}

/// Whether a change to `new_state` at `now` is taken: it must differ from the last
/// state taken, and come at least `debounce` ms after the last change taken.
pub open spec fn passes_debounce(last: bool, last_change: u128, debounce: u128, new_state: bool, now: u128) -> bool {
    new_state != last && elapsed_ms(last_change, now) >= debounce
}

/// Mic changes are debounced: after a change is taken at `t1`, no change is taken
/// before `t1 + debounce`, and the same state is never taken twice in a row.
pub proof fn law_mic_debounce(last: bool, last_change: u128, debounce: u128, s1: bool, t1: u128, s2: bool, t2: u128)
    requires
        passes_debounce(last, last_change, debounce, s1, t1),
        t1 <= t2 < t1 + debounce,
    ensures
        !passes_debounce(s1, t1, debounce, s2, t2),
        !passes_debounce(s1, t1, debounce, s1, t2),
{
}

impl DetectorState {
    pub fn new_at(now_ms: u128) -> (r: Self)
        ensures
            !r.last_state,
            r.last_change_ms == now_ms,
            r.debounce_ms == DEBOUNCE_MS,
            r.active_apps@.len() == 0,
    {
        DetectorState {
            last_state: false,
            last_change_ms: now_ms,
            debounce_ms: DEBOUNCE_MS,
            active_apps: Vec::new(),
        }
    }

    /// A fresh state whose last change is now.
    pub fn new() -> (r: Self)
        ensures
            !r.last_state,
            r.debounce_ms == DEBOUNCE_MS,
            r.active_apps@.len() == 0,
    {
        let now = match now_millis() {
            Some(m) => m,
            None => 0,
        };
        Self::new_at(now)
    }

    /// Whether a change to `new_state` at `now_ms` passes the debounce; when it does,
    /// it is recorded.
    pub fn should_trigger(&mut self, new_state: bool, now_ms: u128) -> (r: bool)
        ensures
            r == passes_debounce(
                old(self).last_state,
                old(self).last_change_ms,
                old(self).debounce_ms,
                new_state,
                now_ms,
            ),
            r ==> final(self).last_state == new_state && final(self).last_change_ms == now_ms,
            !r ==> final(self).last_state == old(self).last_state && final(self).last_change_ms
                == old(self).last_change_ms,
            final(self).debounce_ms == old(self).debounce_ms,
            final(self).active_apps@ == old(self).active_apps@,
    {
        if new_state == self.last_state {
            return false;
        }
        let elapsed = if now_ms >= self.last_change_ms {
            now_ms - self.last_change_ms
        } else {
            0
        };
        if elapsed < self.debounce_ms {
            return false;
        }
        self.last_state = new_state;
        self.last_change_ms = now_ms;
        true
    }
}

/// The microphone detector: debounced state plus whether app polling runs.
pub struct MicDetector {
    pub state: DetectorState,
    pub polling_active: bool,
}

impl MicDetector {
    pub fn new_at(now_ms: u128) -> (r: Self)
        ensures
            !r.state.last_state,
            r.state.last_change_ms == now_ms,
            r.state.debounce_ms == DEBOUNCE_MS,
            r.state.active_apps@.len() == 0,
            !r.polling_active,
    {
        MicDetector { state: DetectorState::new_at(now_ms), polling_active: false }
    }

    pub fn new() -> (r: Self)
        ensures
            !r.state.last_state,
            r.state.debounce_ms == DEBOUNCE_MS,
            r.state.active_apps@.len() == 0,
            !r.polling_active,
    {
        let now = match now_millis() {
            Some(m) => m,
            None => 0,
        };
        Self::new_at(now)
    }

    /// Records the microphone state found at start-up, with the apps then using it.
    /// Emits nothing.
    pub fn seed_running_state_with_snapshot(
        &mut self,
        mic_in_use: bool,
        app_snapshot: Result<Vec<InstalledApp>, DetectError>,
    )
        ensures
            final(self).state.last_state == mic_in_use,
            final(self).state.last_change_ms == old(self).state.last_change_ms,
            final(self).state.debounce_ms == old(self).state.debounce_ms,
            final(self).polling_active == (mic_in_use || old(self).polling_active),
            final(self).state.active_apps@ == match app_snapshot {
                Ok(apps) => if mic_in_use {
                    apps@
                } else {
                    old(self).state.active_apps@
                },
                Err(_) => old(self).state.active_apps@,
            },
    {
        self.state.last_state = mic_in_use;
        if !mic_in_use {
            return;
        }
        self.polling_active = true;
        match app_snapshot {
            Ok(apps) => {
                self.state.active_apps = apps;
            },
            Err(_) => {},
        }
    }

    /// Handles a change of the microphone's running state observed at `now_ms` with
    /// the apps then using it; returns the event to emit, if any.
    pub fn handle_mic_change_with_snapshot(
        &mut self,
        mic_in_use: bool,
        app_snapshot: Result<Vec<InstalledApp>, DetectError>,
        now_ms: u128,
    ) -> (event: Option<DetectEvent>)
        ensures
            ({
                let triggered = passes_debounce(
                    old(self).state.last_state,
                    old(self).state.last_change_ms,
                    old(self).state.debounce_ms,
                    mic_in_use,
                    now_ms,
                );
                &&& final(self).state.debounce_ms == old(self).state.debounce_ms
                &&& !triggered ==> {
                    &&& event is None
                    &&& final(self).state.last_state == old(self).state.last_state
                    &&& final(self).state.last_change_ms == old(self).state.last_change_ms
                    &&& final(self).state.active_apps@ == old(self).state.active_apps@
                    &&& final(self).polling_active == old(self).polling_active
                }
                &&& triggered ==> {
                    &&& final(self).state.last_state == mic_in_use
                    &&& final(self).state.last_change_ms == now_ms
                    &&& final(self).polling_active == mic_in_use
                    &&& mic_in_use ==> match app_snapshot {
                        Ok(apps) => {
                            &&& final(self).state.active_apps@ == apps@
                            &&& if apps@.len() == 0 {
                                event is None
                            } else {
                                event matches Some(DetectEvent::MicStarted(e)) && e@ == apps@
                            }
                        },
                        Err(_) => {
                            &&& event is None
                            &&& final(self).state.active_apps@ == old(self).state.active_apps@
                        },
                    }
                    &&& !mic_in_use ==> {
                        &&& final(self).state.active_apps@.len() == 0
                        &&& event matches Some(DetectEvent::MicStopped(e)) && e@ == old(
                            self,
                        ).state.active_apps@
                    }
                }
            }),
    {
        if !self.state.should_trigger(mic_in_use, now_ms) {
            return None;
        }
        if mic_in_use {
            self.polling_active = true;
            match app_snapshot {
                Ok(apps) => {
                    let empty = apps.len() == 0;
                    let kept = apps.clone();
                    assert(kept@ =~= apps@) by {
                        assert forall|i: int| 0 <= i < apps@.len() implies kept@[i] == apps@[i] by {
                            assert(cloned::<InstalledApp>(apps[i], kept[i]));
                        }
                    }
                    self.state.active_apps = kept;
                    if empty {
                        return None;
                    }
                    Some(DetectEvent::MicStarted(apps))
                },
                Err(_) => None,
            }
        } else {
            self.polling_active = false;
            let mut stopped: Vec<InstalledApp> = Vec::new();
            std::mem::swap(&mut stopped, &mut self.state.active_apps);
            Some(DetectEvent::MicStopped(stopped))
        }
    }
}

/// What the Zoom watcher remembers between polls.
pub struct WatcherState {
    pub last_mute_state: Option<bool>,
    pub last_check_ms: u128,
    pub poll_interval_ms: u64,
}

impl WatcherState {
    pub fn new_at(now_ms: u128) -> (r: Self)
        ensures
            r.last_mute_state is None,
            r.last_check_ms == now_ms,
            r.poll_interval_ms == ZOOM_POLL_INTERVAL_MS,
    {
        WatcherState {
            last_mute_state: None,
            last_check_ms: now_ms,
            poll_interval_ms: ZOOM_POLL_INTERVAL_MS,
        }
    }

    pub fn new() -> (r: Self)
        ensures
            r.last_mute_state is None,
            r.poll_interval_ms == ZOOM_POLL_INTERVAL_MS,
    {
        let now = match now_millis() {
            Some(m) => m,
            None => 0,
        };
        Self::new_at(now)
    }
}

/// Whether Zoom uses the microphone, or `None` when that could not be found out.
pub open spec fn usage_view(u: Result<bool, DetectError>) -> Option<bool> {
    match u {
        Ok(b) => Some(b),
        Err(_) => None,
    }
}

/// The mute state a Zoom event reports, if the event is one.
pub open spec fn mute_event(e: Option<DetectEvent>) -> Option<bool> {
    match e {
        Some(DetectEvent::ZoomMuteStateChanged { value }) => Some(value),
        _ => None,
    }
}

/// The remembered mute state after one poll, and the change reported: forgotten when
/// Zoom stops using the microphone, kept when the check fails or the menu shows
/// nothing, and reported only when it changes.
pub open spec fn reconcile_spec(last: Option<bool>, usage: Option<bool>, mute: Option<bool>) -> (
    Option<bool>,
    Option<bool>,
) {
    match usage {
        Some(false) => (None, None),
        None => (last, None),
        Some(true) => match mute {
            None => (last, None),
            Some(m) => if last == Some(m) {
                (last, None)
            } else {
                (Some(m), Some(m))
            },
        },
    }
}

/// A mute state is reported once: the same poll seen again reports nothing, and a
/// failed check in between changes nothing either.
pub proof fn law_zoom_mute_reported_once(last: Option<bool>, usage: Option<bool>, mute: Option<bool>)
    ensures
        reconcile_spec(reconcile_spec(last, usage, mute).0, usage, mute).1 is None,
        reconcile_spec(reconcile_spec(last, None, mute).0, usage, mute) == reconcile_spec(last, usage, mute),
        reconcile_spec(last, usage, mute).1 matches Some(m) ==> reconcile_spec(last, usage, mute).0 == Some(m),
{
}

/// Updates the remembered Zoom mute state from one poll: whether Zoom uses the
/// microphone, and the mute state its menu shows. Returns the change to report.
pub fn reconcile_zoom_mute_state(
    state: &mut WatcherState,
    mic_usage: Result<bool, DetectError>,
    mute_state: Option<bool>,
) -> (event: Option<DetectEvent>)
    ensures
        final(state).last_check_ms == old(state).last_check_ms,
        final(state).poll_interval_ms == old(state).poll_interval_ms,
        event is None || event matches Some(DetectEvent::ZoomMuteStateChanged { .. }),
        (final(state).last_mute_state, mute_event(event)) == reconcile_spec(
            old(state).last_mute_state,
            usage_view(mic_usage),
            mute_state,
        ),
{
    match mic_usage {
        Ok(false) => {
            if state.last_mute_state.is_some() {
                state.last_mute_state = None;
            }
            None
        },
        Err(_) => None,
        Ok(true) => {
            let muted = match mute_state {
                Some(m) => m,
                None => {
                    return None;
                },
            };
            if state.last_mute_state == Some(muted) {
                return None;
            }
            state.last_mute_state = Some(muted);
            Some(DetectEvent::ZoomMuteStateChanged { value: muted })
        },
    }
}

pub open spec fn is_zoom_app(app: InstalledApp) -> bool {
    app.id@ == ZOOM_BUNDLE_ID@
}

pub open spec fn has_zoom_app(apps: Seq<InstalledApp>) -> bool {
    exists|i: int| 0 <= i < apps.len() && is_zoom_app(#[trigger] apps[i])
}

/// Whether Zoom's bundle identifier is among `apps`.
pub fn contains_zoom_app(apps: &Vec<InstalledApp>) -> (r: bool)
    ensures
        r == has_zoom_app(apps@),
{
    let mut k: usize = 0;
    while k < apps.len()
        invariant
            k <= apps@.len(),
            forall|j: int| 0 <= j < k ==> !is_zoom_app(#[trigger] apps@[j]),
        decreases apps@.len() - k,
    {
        if str_eq(apps[k].id.as_str(), ZOOM_BUNDLE_ID) {
            assert(is_zoom_app(apps@[k as int]));
            return true;
        }
        k = k + 1;
    }
    false
}

/// Whether Zoom is among the apps using the microphone.
pub fn is_zoom_using_mic_from(
    app_snapshot: Result<Vec<InstalledApp>, DetectError>,
) -> (r: Result<bool, DetectError>)
    ensures
        match app_snapshot {
            Ok(apps) => r == Ok::<bool, DetectError>(has_zoom_app(apps@)),
            Err(_) => r is Err,
        },
{
    match app_snapshot {
        Ok(apps) => Ok(contains_zoom_app(&apps)),
        Err(e) => Err(e),
    }
}

/// The mute state a Zoom menu item title shows: "Mute" offers muting (not muted),
/// "Unmute" offers unmuting (muted).
pub open spec fn title_mute_state(t: Seq<char>) -> Option<bool> {
    if t == "Mute Audio"@ || t == "Mute audio"@ {
        Some(false)
    } else if t == "Unmute Audio"@ || t == "Unmute audio"@ {
        Some(true)
    } else {
        None
    }
}

pub open spec fn menu_mute_state(titles: Seq<Option<Seq<char>>>) -> Option<bool>
    decreases titles.len(),
{
    if titles.len() == 0 {
        None
    } else {
        match titles[0] {
            Some(t) => match title_mute_state(t) {
                Some(m) => Some(m),
                None => menu_mute_state(titles.drop_first()),
            },
            None => menu_mute_state(titles.drop_first()),
        }
    }
}

pub open spec fn titles_view(titles: Seq<Option<String>>) -> Seq<Option<Seq<char>>> {
    titles.map_values(|t: Option<String>| match t {
        Some(s) => Some(s@),
        None => None,
    })
}

/// The mute state shown by the first recognized item of Zoom's meeting menu.
pub fn mute_state_from_menu_titles(titles: &Vec<Option<String>>) -> (r: Option<bool>)
    ensures
        r == menu_mute_state(titles_view(titles@)),
{
    let ghost tv = titles_view(titles@);
    assert(tv.skip(0) =~= tv);
    let mut k: usize = 0;
    while k < titles.len()
        invariant
            k <= titles@.len(),
            tv == titles_view(titles@),
            menu_mute_state(tv) == menu_mute_state(tv.skip(k as int)),
        decreases titles@.len() - k,
    {
        assert(tv.skip(k as int).drop_first() =~= tv.skip(k + 1));
        match &titles[k] {
            Some(t) => {
                let s = t.as_str();
                if str_eq(s, "Mute Audio") || str_eq(s, "Mute audio") {
                    return Some(false);
                }
                if str_eq(s, "Unmute Audio") || str_eq(s, "Unmute audio") {
                    return Some(true);
                }
            },
            None => {},
        }
        k = k + 1;
    }
    None
}


/// The menu item offers to mute the microphone: the microphone is live.
pub open spec fn offers_mute(t: Seq<char>) -> bool {
    t == "Mute Audio"@ || t == "Mute audio"@
}

/// The menu item offers to unmute the microphone: the user is muted.
pub open spec fn offers_unmute(t: Seq<char>) -> bool {
    t == "Unmute Audio"@ || t == "Unmute audio"@
}

/// Zoom's mute state is read off the first menu item that offers to mute or to unmute:
/// an offer to mute means the user is not muted (`Some(false)`), an offer to unmute
/// means the user is muted (`Some(true)`); items before it are passed over.
pub proof fn law_mute_state_from_first_offer(titles: Seq<Option<Seq<char>>>, k: int, t: Seq<char>)
    requires
        0 <= k < titles.len(),
        titles[k] == Some(t),
        offers_mute(t) || offers_unmute(t),
        forall|j: int| 0 <= j < k ==> match #[trigger] titles[j] {
            Some(u) => !offers_mute(u) && !offers_unmute(u),
            None => true,
        },
    ensures
        menu_mute_state(titles) == Some(offers_unmute(t)),
        offers_mute(t) ==> menu_mute_state(titles) == Some(false),
        offers_unmute(t) ==> menu_mute_state(titles) == Some(true),
    decreases k,
{
    reveal_strlit("Mute Audio");
    reveal_strlit("Mute audio");
    reveal_strlit("Unmute Audio");
    reveal_strlit("Unmute audio");
    if k == 0 {
        if offers_unmute(t) {
            assert(t.len() == 12);
            assert(!offers_mute(t));
        }
    } else {
        let rest = titles.drop_first();
        assert forall|j: int| 0 <= j < k - 1 implies match #[trigger] rest[j] {
            Some(u) => !offers_mute(u) && !offers_unmute(u),
            None => true,
        } by {
            assert(rest[j] == titles[j + 1]);
        }
        law_mute_state_from_first_offer(rest, k - 1, t);
        match titles[0] {
            Some(u) => {
                assert(!offers_mute(u) && !offers_unmute(u));
            },
            None => {},
        }
    }
}

/// Without any item that offers to mute or to unmute, the mute state is unknown.
pub proof fn law_mute_state_unknown_without_offer(titles: Seq<Option<Seq<char>>>)
    requires
        forall|j: int| 0 <= j < titles.len() ==> match #[trigger] titles[j] {
            Some(u) => !offers_mute(u) && !offers_unmute(u),
            None => true,
        },
    ensures
        menu_mute_state(titles) is None,
    decreases titles.len(),
{
    if titles.len() > 0 {
        let rest = titles.drop_first();
        assert forall|j: int| 0 <= j < rest.len() implies match #[trigger] rest[j] {
            Some(u) => !offers_mute(u) && !offers_unmute(u),
            None => true,
        } by {
            assert(rest[j] == titles[j + 1]);
        }
        law_mute_state_unknown_without_offer(rest);
        match titles[0] {
            Some(u) => {
                assert(!offers_mute(u) && !offers_unmute(u));
            },
            None => {},
        }
    }
}

} // verus!
