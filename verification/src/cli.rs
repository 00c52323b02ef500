//! Options shared by every command of the command line, and the small choices the
//! audio commands make from them.
use vstd::prelude::*;
use vstd::string::*;
use crate::text::str_eq;

verus! {

/// How a listing is written.
#[derive(Clone, Copy, Debug, PartialEq, Eq, Structural)]
pub enum OutputFormat {
    Pretty,
    Text,
    Json,
}

/// Options every command takes.
pub struct GlobalArgs {
    pub base_url: Option<String>,
    pub api_key: Option<String>,
    pub model: Option<String>,
    pub language: String,
    pub no_color: bool,
    pub base: Option<String>,
}

/// What a transcription command takes from the global options.
pub struct SttOverrides<P> {
    pub provider: Option<P>,
    pub base_url: Option<String>,
    pub api_key: Option<String>,
    pub model: Option<String>,
    pub language: String,
}

pub open spec fn opt_seq(o: Option<String>) -> Option<Seq<char>> {
    match o {
        Some(s) => Some(s@),
        None => None,
    }
}

fn clone_opt(o: &Option<String>) -> (r: Option<String>)
    ensures
        opt_seq(r) == opt_seq(*o),
{
    match o {
        Some(s) => Some(s.clone()),
        None => None,
    }
}

/// The speech-to-text choices of a command: its provider, and the global base URL,
/// API key, model and language.
pub fn stt_overrides<P>(global: &GlobalArgs, provider: Option<P>) -> (r: SttOverrides<P>)
    ensures
        r.provider == provider,
        opt_seq(r.base_url) == opt_seq(global.base_url),
        opt_seq(r.api_key) == opt_seq(global.api_key),
        opt_seq(r.model) == opt_seq(global.model),
        r.language@ == global.language@,
{
    SttOverrides {
        provider,
        base_url: clone_opt(&global.base_url),
        api_key: clone_opt(&global.api_key),
        model: clone_opt(&global.model),
        language: global.language.clone(),
    }
}

/// What `url::Url::parse` makes of a text: the URL's scheme, or the parse error's text.
pub uninterp spec fn url_parse_outcome(input: Seq<char>) -> Result<Seq<char>, Seq<char>>;

/// `url::Url::parse`, giving the parsed URL's scheme (`Url::scheme`) or the error's
/// text. The outcome is named by `url_parse_outcome`; which texts parse is not stated.
#[verifier::external_body]
fn url_scheme(input: &str) -> (r: Result<String, String>)
    ensures
        match r {
            Ok(s) => url_parse_outcome(input@) == Ok::<Seq<char>, Seq<char>>(s@),
            Err(e) => url_parse_outcome(input@) == Err::<Seq<char>, Seq<char>>(e@),
        },
{
    match url::Url::parse(input) {
        Ok(u) => Ok(u.scheme().to_string()),
        Err(e) => Err(e.to_string()),
    }
}

pub open spec fn base_url_check(value: Seq<char>, outcome: Result<Seq<char>, Seq<char>>) -> Result<
    Seq<char>,
    Seq<char>,
> {
    match outcome {
        Err(e) => Err("invalid URL '"@ + value + "': "@ + e),
        Ok(scheme) => if scheme == "http"@ || scheme == "https"@ {
            Ok(value)
        } else {
            Err("invalid URL '"@ + value + "': scheme must be http or https"@)
        },
    }
}

pub open spec fn result_view(r: Result<String, String>) -> Result<Seq<char>, Seq<char>> {
    match r {
        Ok(s) => Ok(s@),
        Err(e) => Err(e@),
    }
}

/// Decides on a `--base-url` value from what parsing it gave: accepted as written when
/// it is an http or https URL.
pub fn check_base_url(value: &str, parsed: Result<String, String>) -> (r: Result<String, String>)
    ensures
        result_view(r) == base_url_check(value@, result_view(parsed)),
{
    match parsed {
        Err(e) => {
            let mut m = String::from_str("invalid URL '");
            m.append(value);
            m.append("': ");
            m.append(e.as_str());
            Err(m)
        },
        Ok(scheme) => {
            if str_eq(scheme.as_str(), "http") || str_eq(scheme.as_str(), "https") {
                Ok(String::from_str(value))
            } else {
                let mut m = String::from_str("invalid URL '");
                m.append(value);
                m.append("': scheme must be http or https");
                Err(m)
            }
        },
    }
}

/// Reads a `--base-url` value: it must parse as a URL with scheme http or https.
pub fn parse_base_url(value: &str) -> (r: Result<String, String>)
    ensures
        result_view(r) == base_url_check(value@, url_parse_outcome(value@)),
{
    let parsed = url_scheme(value);
    check_base_url(value, parsed)
}

/// Where a transcription's audio comes from.
#[derive(Clone, Copy, Debug, PartialEq, Eq, Structural)]
pub enum AudioSource {
    Input,
    Output,
    RawDual,
    AecDual,
    Mock,
}

impl AudioSource {
    /// Whether both microphone and speaker are captured.
    pub fn is_dual(&self) -> (r: bool)
        ensures
            r == (*self == AudioSource::RawDual || *self == AudioSource::AecDual),
    {
        match self {
            AudioSource::RawDual | AudioSource::AecDual => true,
            _ => false,
        }
    }

    /// Whether echo cancellation is applied to the microphone.
    pub fn uses_aec(&self) -> (r: bool)
        ensures
            r == (*self == AudioSource::AecDual),
    {
        match self {
            AudioSource::AecDual => true,
            _ => false,
        }
    }

    /// Whether the audio is synthetic.
    pub fn is_mock(&self) -> (r: bool)
        ensures
            r == (*self == AudioSource::Mock),
    {
        match self {
            AudioSource::Mock => true,
            _ => false,
        }
    }

    /// The side a single-channel capture listens to: the microphone for the input and
    /// for synthetic audio, the speaker for the output; the dual sources are refused.
    pub fn single_capture_channel(&self) -> (r: Result<ChannelKind, OperationFailed>)
        ensures
            (*self == AudioSource::Input || *self == AudioSource::Mock) ==> r == Ok::<
                ChannelKind,
                OperationFailed,
            >(ChannelKind::Mic),
            *self == AudioSource::Output ==> r == Ok::<ChannelKind, OperationFailed>(
                ChannelKind::Speaker,
            ),
            (*self == AudioSource::RawDual || *self == AudioSource::AecDual) ==> (r matches Err(f)
                && f.operation@ == "create single audio stream"@ && f.reason@
                == "dual audio modes use create_dual_audio_stream"@),
    {
        match self {
            AudioSource::Input | AudioSource::Mock => Ok(ChannelKind::Mic),
            AudioSource::Output => Ok(ChannelKind::Speaker),
            AudioSource::RawDual | AudioSource::AecDual => Err(
                OperationFailed {
                    operation: "create single audio stream",
                    reason: String::from_str("dual audio modes use create_dual_audio_stream"),
                },
            ),
        }
    }
}

/// One side of the audio.
#[derive(Clone, Copy, Debug, PartialEq, Eq, Structural)]
pub enum ChannelKind {
    Mic,
    Speaker,
}

/// How a transcript is shown: one channel, or both side by side.
#[derive(Clone, Copy, Debug, PartialEq, Eq, Structural)]
pub enum DisplayMode {
    Single(ChannelKind),
    Dual,
}

/// What `record` captures.
#[derive(Clone, Copy, Debug, PartialEq, Eq, Structural)]
pub enum AudioMode {
    Input,
    Output,
    Dual,
}

pub open spec fn audio_mode_suffix(m: AudioMode) -> Seq<char> {
    match m {
        AudioMode::Input => "input"@,
        AudioMode::Output => "output"@,
        AudioMode::Dual => "dual"@,
    }
}

impl AudioMode {
    /// The word a recording's default file name ends with.
    pub fn suffix(&self) -> (r: &'static str)
        ensures
            r@ == audio_mode_suffix(*self),
    {
        match self {
            AudioMode::Input => "input",
            AudioMode::Output => "output",
            AudioMode::Dual => "dual",
        }
    }

    /// Channels of the recorded file: two for both sides, else one.
    pub fn channels(&self) -> (r: u16)
        ensures
            r == if *self == AudioMode::Dual {
                2u16
            } else {
                1u16
            },
    {
        match self {
            AudioMode::Input | AudioMode::Output => 1,
            AudioMode::Dual => 2,
        }
    }
}

/// The default name of a recording made at local time `timestamp`
/// (`YYYYmmdd_HHMMSS`): `recording_{timestamp}_{mode}.wav`.
pub fn recording_file_name(timestamp: &str, mode: AudioMode) -> (r: String)
    ensures
        r@ == "recording_"@ + timestamp@ + "_"@ + audio_mode_suffix(mode) + ".wav"@,
{
    let mut s = String::from_str("recording_");
    s.append(timestamp);
    s.append("_");
    s.append(mode.suffix());
    s.append(".wav");
    s
}

/// What opening the desktop app did.
#[derive(Clone, Copy, Debug, PartialEq, Eq, Structural)]
pub enum DesktopAction {
    OpenedApp,
    OpenedDownloadPage,
}

/// The page offered when the desktop app is not installed.
pub const DOWNLOAD_URL: &'static str = "https://char.com/download";

/// The links tried, in order, to bring the installed desktop app forward.
pub const DESKTOP_DEEPLINKS: [&'static str; 4] = [
    "hyprnote://focus",
    "hyprnote-nightly://focus",
    "hyprnote-staging://focus",
    "hypr://focus",
];

/// Data folders whose presence shows that the desktop app is installed.
pub const DESKTOP_DATA_FOLDERS: [&'static str; 5] = [
    "hyprnote",
    "com.hyprnote.dev",
    "com.hyprnote.staging",
    "com.hyprnote.nightly",
    "com.hyprnote.stable",
];

/// A failed operation and why it failed.
pub struct OperationFailed {
    pub operation: &'static str,
    pub reason: String,
}

/// The outcome of opening the desktop app: with no app installed, the download page
/// (`download` is what opening it gave); otherwise the first deep link that opened
/// (`opened_link`), if any did.
pub fn desktop_outcome(
    app_exists: bool,
    download: Result<(), String>,
    opened_link: Option<usize>,
) -> (r: Result<DesktopAction, OperationFailed>)
    ensures
        !app_exists ==> match download {
            Ok(()) => r == Ok::<DesktopAction, OperationFailed>(DesktopAction::OpenedDownloadPage),
            Err(e) => r matches Err(f) && f.operation@ == "open desktop app or download page"@
                && f.reason@ == e@ + "\nPlease visit: "@ + DOWNLOAD_URL@,
        },
        app_exists ==> match opened_link {
            Some(_) => r == Ok::<DesktopAction, OperationFailed>(DesktopAction::OpenedApp),
            None => r matches Err(f) && f.operation@ == "open desktop app"@ && f.reason@
                == "Desktop app appears to be installed, but no registered deeplink responded"@,
        },
{
    if !app_exists {
        return match download {
            Ok(()) => Ok(DesktopAction::OpenedDownloadPage),
            Err(e) => {
                let mut reason = e;
                reason.append("\nPlease visit: ");
                reason.append(DOWNLOAD_URL);
                Err(OperationFailed { operation: "open desktop app or download page", reason })
            },
        };
    }
    match opened_link {
        Some(_) => Ok(DesktopAction::OpenedApp),
        None => Err(
            OperationFailed {
                operation: "open desktop app",
                reason: String::from_str(
                    "Desktop app appears to be installed, but no registered deeplink responded",
                ),
            },
        ),
    }
}

/// The message shown after the desktop app or its download page opened.
pub fn desktop_action_message(action: DesktopAction) -> (r: &'static str)
    ensures
        action == DesktopAction::OpenedApp ==> r@ == "Opened desktop app"@,
        action == DesktopAction::OpenedDownloadPage ==> r@
            == "Desktop app not found. Opened download page"@,
{
    match action {
        DesktopAction::OpenedApp => "Opened desktop app",
        DesktopAction::OpenedDownloadPage => "Desktop app not found. Opened download page",
    }
}

} // verus!
