//! Batch transcription of a recorded file: the providers, how each is run, and the
//! messages shown when a provider fails.
use vstd::prelude::*;
use crate::cli::OperationFailed;
use vstd::string::*;
use crate::text::{chars_of, occurs_at, occurs_at_exec, str_eq, trim, trim_seq};
use crate::github::join;

verus! {

/// A speech-to-text service that transcribes whole files.
#[derive(Clone, Copy, Debug, PartialEq, Eq, Structural)]
pub enum BatchProvider {
    Argmax,
    Deepgram,
    Soniox,
    AssemblyAI,
    Fireworks,
    OpenAI,
    Gladia,
    ElevenLabs,
    DashScope,
    Mistral,
    Am,
    Cactus,
}

/// The provider's name, lower-case, as it is written and read back.
pub open spec fn batch_provider_name(p: BatchProvider) -> Seq<char> {
    match p {
        BatchProvider::Argmax => "argmax"@,
        BatchProvider::Deepgram => "deepgram"@,
        BatchProvider::Soniox => "soniox"@,
        BatchProvider::AssemblyAI => "assemblyai"@,
        BatchProvider::Fireworks => "fireworks"@,
        BatchProvider::OpenAI => "openai"@,
        BatchProvider::Gladia => "gladia"@,
        BatchProvider::ElevenLabs => "elevenlabs"@,
        BatchProvider::DashScope => "dashscope"@,
        BatchProvider::Mistral => "mistral"@,
        BatchProvider::Am => "am"@,
        BatchProvider::Cactus => "cactus"@,
    }
}

pub const ALL_BATCH_PROVIDERS: [BatchProvider; 12] = [
    BatchProvider::Argmax,
    BatchProvider::Deepgram,
    BatchProvider::Soniox,
    BatchProvider::AssemblyAI,
    BatchProvider::Fireworks,
    BatchProvider::OpenAI,
    BatchProvider::Gladia,
    BatchProvider::ElevenLabs,
    BatchProvider::DashScope,
    BatchProvider::Mistral,
    BatchProvider::Am,
    BatchProvider::Cactus,
];

impl BatchProvider {
    /// The provider's lower-case name.
    pub fn as_str(&self) -> (r: &'static str)
        ensures
            r@ == batch_provider_name(*self),
    {
        match self {
            BatchProvider::Argmax => "argmax",
            BatchProvider::Deepgram => "deepgram",
            BatchProvider::Soniox => "soniox",
            BatchProvider::AssemblyAI => "assemblyai",
            BatchProvider::Fireworks => "fireworks",
            BatchProvider::OpenAI => "openai",
            BatchProvider::Gladia => "gladia",
            BatchProvider::ElevenLabs => "elevenlabs",
            BatchProvider::DashScope => "dashscope",
            BatchProvider::Mistral => "mistral",
            BatchProvider::Am => "am",
            BatchProvider::Cactus => "cactus",
        }
    }

    /// The provider with the lower-case name `name`, if there is one.
    pub fn from_name(name: &str) -> (r: Option<BatchProvider>)
        ensures
            match r {
                Some(p) => batch_provider_name(p) == name@,
                None => forall|p: BatchProvider| batch_provider_name(p) != name@,
            },
    {
        let mut k: usize = 0;
        while k < 12
            invariant
                k <= 12,
                forall|j: int| 0 <= j < k ==> batch_provider_name(#[trigger] ALL_BATCH_PROVIDERS@[j]) != name@,
            decreases 12 - k,
        {
            let p = ALL_BATCH_PROVIDERS[k];
            if str_eq(p.as_str(), name) {
                return Some(p);
            }
            k = k + 1;
        }
        proof {
            assert forall|p: BatchProvider| batch_provider_name(p) != name@ by {
                let j: int = match p {
                    BatchProvider::Argmax => 0,
                    BatchProvider::Deepgram => 1,
                    BatchProvider::Soniox => 2,
                    BatchProvider::AssemblyAI => 3,
                    BatchProvider::Fireworks => 4,
                    BatchProvider::OpenAI => 5,
                    BatchProvider::Gladia => 6,
                    BatchProvider::ElevenLabs => 7,
                    BatchProvider::DashScope => 8,
                    BatchProvider::Mistral => 9,
                    BatchProvider::Am => 10,
                    BatchProvider::Cactus => 11,
                };
                assert(ALL_BATCH_PROVIDERS@[j] == p);
            }
        }
        None
    }
}

pub proof fn lemma_batch_names_distinct(a: BatchProvider, b: BatchProvider)
    requires
        a != b,
    ensures
        batch_provider_name(a) != batch_provider_name(b),
{
    reveal_strlit("argmax");
    reveal_strlit("deepgram");
    reveal_strlit("soniox");
    reveal_strlit("assemblyai");
    reveal_strlit("fireworks");
    reveal_strlit("openai");
    reveal_strlit("gladia");
    reveal_strlit("elevenlabs");
    reveal_strlit("dashscope");
    reveal_strlit("mistral");
    reveal_strlit("am");
    reveal_strlit("cactus");
    assert(batch_provider_name(a).len() != batch_provider_name(b).len() || batch_provider_name(a)
        != batch_provider_name(b) || a == b) by {
        if batch_provider_name(a).len() == batch_provider_name(b).len() {
            assert(batch_provider_name(a)[0] != batch_provider_name(b)[0] || batch_provider_name(a)[1]
                != batch_provider_name(b)[1] || a == b);
        }
    }
}

/// Reading back a provider's written name gives the provider: no two providers share a name.
pub proof fn law_batch_provider_name_round_trip(p: BatchProvider, q: BatchProvider)
    ensures
        batch_provider_name(p) == batch_provider_name(q) ==> p == q,
{
    if p != q {
        lemma_batch_names_distinct(p, q);
    }
}

/// The provider chosen on the command line (`--provider`).
#[derive(Clone, Copy, Debug, PartialEq, Eq, Structural)]
pub enum Provider {
    Argmax,
    Deepgram,
    Soniox,
    Assemblyai,
    Fireworks,
    Openai,
    Gladia,
    Elevenlabs,
    Dashscope,
    Mistral,
    Am,
    Cactus,
}

/// The value by which the command line names a provider.
pub open spec fn provider_value_name(p: Provider) -> Seq<char> {
    match p {
        Provider::Argmax => "argmax"@,
        Provider::Deepgram => "deepgram"@,
        Provider::Soniox => "soniox"@,
        Provider::Assemblyai => "assemblyai"@,
        Provider::Fireworks => "fireworks"@,
        Provider::Openai => "openai"@,
        Provider::Gladia => "gladia"@,
        Provider::Elevenlabs => "elevenlabs"@,
        Provider::Dashscope => "dashscope"@,
        Provider::Mistral => "mistral"@,
        Provider::Am => "am"@,
        Provider::Cactus => "cactus"@,
    }
}

pub open spec fn batch_provider_of(value: Provider) -> BatchProvider {
    match value {
        Provider::Argmax => BatchProvider::Argmax,
        Provider::Deepgram => BatchProvider::Deepgram,
        Provider::Soniox => BatchProvider::Soniox,
        Provider::Assemblyai => BatchProvider::AssemblyAI,
        Provider::Fireworks => BatchProvider::Fireworks,
        Provider::Openai => BatchProvider::OpenAI,
        Provider::Gladia => BatchProvider::Gladia,
        Provider::Elevenlabs => BatchProvider::ElevenLabs,
        Provider::Dashscope => BatchProvider::DashScope,
        Provider::Mistral => BatchProvider::Mistral,
        Provider::Am => BatchProvider::Am,
        Provider::Cactus => BatchProvider::Cactus,
    }
}

impl From<Provider> for BatchProvider {
    fn from(value: Provider) -> (r: BatchProvider) {
        match value {
            Provider::Argmax => BatchProvider::Argmax,
            Provider::Deepgram => BatchProvider::Deepgram,
            Provider::Soniox => BatchProvider::Soniox,
            Provider::Assemblyai => BatchProvider::AssemblyAI,
            Provider::Fireworks => BatchProvider::Fireworks,
            Provider::Openai => BatchProvider::OpenAI,
            Provider::Gladia => BatchProvider::Gladia,
            Provider::Elevenlabs => BatchProvider::ElevenLabs,
            Provider::Dashscope => BatchProvider::DashScope,
            Provider::Mistral => BatchProvider::Mistral,
            Provider::Am => BatchProvider::Am,
            Provider::Cactus => BatchProvider::Cactus,
        }
    }
}

impl vstd::std_specs::convert::FromSpecImpl<Provider> for BatchProvider {
    open spec fn obeys_from_spec() -> bool {
        true
    }

    open spec fn from_spec(v: Provider) -> BatchProvider {
        batch_provider_of(v)
    }
}

/// Converting the command-line choice keeps the provider's name, and distinct choices
/// stay distinct.
pub proof fn law_provider_conversion_keeps_name(p: Provider, q: Provider)
    ensures
        batch_provider_name(batch_provider_of(p)) == provider_value_name(p),
        p != q ==> batch_provider_of(p) != batch_provider_of(q),
{
}

/// How a batch transcription is run.
#[derive(Clone, Copy, Debug, PartialEq, Eq, Structural)]
pub enum BatchRunMode {
    Direct,
    Streamed,
}

/// How a provider is driven: over a local streaming session, by one request, or not at all.
pub enum BatchRoute {
    Streamed,
    Direct,
    Unsupported { message: &'static str },
}

/// The route a batch job for `provider` takes.
pub fn batch_route(provider: BatchProvider) -> (r: BatchRoute)
    ensures
        (provider == BatchProvider::Am || provider == BatchProvider::Cactus) <==> r is Streamed,
        provider == BatchProvider::DashScope <==> r is Unsupported,
        r matches BatchRoute::Unsupported { message } ==> message@
            == "DashScope does not support batch transcription"@,
{
    match provider {
        BatchProvider::Am | BatchProvider::Cactus => BatchRoute::Streamed,
        BatchProvider::DashScope => BatchRoute::Unsupported {
            message: "DashScope does not support batch transcription",
        },
        _ => BatchRoute::Direct,
    }
}

/// Whether `p` occurs in `s`.
pub open spec fn contains_spec(s: Seq<char>, p: Seq<char>) -> bool {
    exists|i: int| #[trigger] occurs_at(s, p, i)
}

/// `str::contains` with a string pattern.
pub fn contains_str(s: &str, p: &str) -> (r: bool)
    ensures
        r == contains_spec(s@, p@),
{
    let sv = chars_of(s);
    let pv = chars_of(p);
    let mut i: usize = 0;
    while i < sv.len()
        invariant
            sv@ == s@,
            pv@ == p@,
            i <= sv@.len(),
            forall|j: int| 0 <= j < i ==> !#[trigger] occurs_at(s@, p@, j),
        decreases sv@.len() - i,
    {
        if occurs_at_exec(&sv, &pv, i) {
            return true;
        }
        i = i + 1;
    }
    let last = occurs_at_exec(&sv, &pv, i);
    assert(!last ==> forall|j: int| !#[trigger] occurs_at(s@, p@, j)) by {
        assert forall|j: int| !last implies !#[trigger] occurs_at(s@, p@, j) by {
            if j > i {
                assert(j + p@.len() > s@.len());
            }
        }
    }
    last
}

/// `str::to_lowercase` of `s`: the Unicode lower-case mapping, character by character.
pub uninterp spec fn unicode_lowercase(s: Seq<char>) -> Seq<char>;

/// `str::to_lowercase`: the string mapped to lower case as Unicode defines it. Its
/// result is named by `unicode_lowercase`; what that mapping is, character by
/// character, is left unsaid here.
#[verifier::external_body]
fn to_lowercase(s: &str) -> (r: String)
    ensures
        r@ == unicode_lowercase(s@),
{
    s.to_lowercase()
}

/// The message shown for a provider error, chosen by words in its lower-cased text
/// `lower` (checked in this order); the error itself when none is found.
pub open spec fn friendly_error_spec(error: Seq<char>, lower: Seq<char>) -> Seq<char> {
    if contains_spec(lower, "401"@) || contains_spec(lower, "unauthorized"@) {
        "Authentication failed. Please check your API key in settings."@
    } else if contains_spec(lower, "403"@) || contains_spec(lower, "forbidden"@) {
        "Access denied. Your API key may not have permission for this operation."@
    } else if contains_spec(lower, "429"@) || contains_spec(lower, "rate limit"@) {
        "Rate limit exceeded. Please wait a moment and try again."@
    } else if contains_spec(lower, "timeout"@) {
        "Connection timed out. Please check your internet connection and try again."@
    } else if contains_spec(lower, "connection refused"@) || contains_spec(lower, "failed to connect"@)
        || contains_spec(lower, "network"@) {
        "Could not connect to the transcription service. Please check your internet connection."@
    } else if contains_spec(lower, "invalid audio"@) || contains_spec(lower, "unsupported format"@)
        || contains_spec(lower, "codec"@) {
        "The audio file format is not supported. Please try a different file."@
    } else if contains_spec(lower, "file not found"@) || contains_spec(lower, "no such file"@) {
        "Audio file not found. The recording may have been moved or deleted."@
    } else {
        error
    }
}

/// The message for a provider error, given the error's lower-cased text.
pub fn friendly_error_from_lowercase(error: &str, lower: &str) -> (r: String)
    ensures
        r@ == friendly_error_spec(error@, lower@),
{
    if contains_str(lower, "401") || contains_str(lower, "unauthorized") {
        return String::from_str("Authentication failed. Please check your API key in settings.");
    }
    if contains_str(lower, "403") || contains_str(lower, "forbidden") {
        return String::from_str(
            "Access denied. Your API key may not have permission for this operation.",
        );
    }
    if contains_str(lower, "429") || contains_str(lower, "rate limit") {
        return String::from_str("Rate limit exceeded. Please wait a moment and try again.");
    }
    if contains_str(lower, "timeout") {
        return String::from_str(
            "Connection timed out. Please check your internet connection and try again.",
        );
    }
    if contains_str(lower, "connection refused") || contains_str(lower, "failed to connect")
        || contains_str(lower, "network") {
        return String::from_str(
            "Could not connect to the transcription service. Please check your internet connection.",
        );
    }
    if contains_str(lower, "invalid audio") || contains_str(lower, "unsupported format")
        || contains_str(lower, "codec") {
        return String::from_str(
            "The audio file format is not supported. Please try a different file.",
        );
    }
    if contains_str(lower, "file not found") || contains_str(lower, "no such file") {
        return String::from_str(
            "Audio file not found. The recording may have been moved or deleted.",
        );
    }
    String::from_str(error)
}

/// The message shown for a provider error: a plain explanation when the error's text
/// names a known cause (whatever its case), else the error as it is.
pub fn format_user_friendly_error(error: &str) -> (r: String)
    ensures
        r@ == friendly_error_spec(error@, unicode_lowercase(error@)),
{
    let lower = to_lowercase(error);
    friendly_error_from_lowercase(error, lower.as_str())
}

/// Why a command's arguments were refused.
pub enum ArgumentError {
    NotFound { what: String },
    InvalidArgument { name: &'static str, value: String, reason: &'static str },
}

/// The check of `--input`: the path must exist and be a file (`exists` and `is_file`
/// are what the file system says of it; `shown` is how the path is written out).
pub fn validate_input_path(exists: bool, is_file: bool, shown: &str) -> (r: Result<(), ArgumentError>)
    ensures
        !exists ==> (r matches Err(ArgumentError::NotFound { what }) && what@ == "input file '"@
            + shown@ + "'"@),
        exists && !is_file ==> (r matches Err(ArgumentError::InvalidArgument { name, value, reason })
            && name@ == "--input"@ && value@ == shown@ && reason@ == "expected a file path"@),
        exists && is_file ==> r is Ok,
{
    if !exists {
        let mut what = String::from_str("input file '");
        what.append(shown);
        what.append("'");
        return Err(ArgumentError::NotFound { what });
    }
    if !is_file {
        return Err(
            ArgumentError::InvalidArgument {
                name: "--input",
                value: String::from_str(shown),
                reason: "expected a file path",
            },
        );
    }
    Ok(())
}

/// The transcript lines: each channel's first alternative, trimmed, leaving out those
/// missing or empty.
pub open spec fn transcript_lines(first: Seq<Option<String>>) -> Seq<Seq<char>>
    decreases first.len(),
{
    if first.len() == 0 {
        Seq::empty()
    } else {
        transcript_lines(first.drop_last()) + match first.last() {
            Some(t) => if trim_seq(t@).len() > 0 {
                seq![trim_seq(t@)]
            } else {
                Seq::empty()
            },
            None => Seq::empty(),
        }
    }
}

/// The text of a batch response: the channels' transcripts (`first`: each channel's
/// first alternative, if any), trimmed, non-empty ones joined by new lines.
pub fn extract_transcript(first: &Vec<Option<String>>) -> (r: String)
    ensures
        r@ == join(transcript_lines(first@), "\n"@),
{
    let mut s = String::new();
    let mut count: usize = 0;
    let mut i: usize = 0;
    while i < first.len()
        invariant
            i <= first@.len(),
            count == transcript_lines(first@.take(i as int)).len(),
            count <= i,
            s@ == join(transcript_lines(first@.take(i as int)), "\n"@),
        decreases first@.len() - i,
    {
        assert(first@.take(i + 1).drop_last() =~= first@.take(i as int));
        assert(first@.take(i + 1).last() == first@[i as int]);
        match &first[i] {
            Some(t) => {
                let line = trim(t.as_str());
                if line.as_str().unicode_len() > 0 {
                    if count > 0 {
                        s.append("\n");
                    }
                    s.append(line.as_str());
                    proof {
                        let prev = transcript_lines(first@.take(i as int));
                        let next = transcript_lines(first@.take(i + 1));
                        assert(next =~= prev.push(line@));
                        assert(next.drop_last() =~= prev);
                        if count == 0 {
                            assert(next =~= seq![line@]);
                        }
                    }
                    count = count + 1;
                }
            },
            None => {},
        }
        i = i + 1;
    }
    assert(first@.take(first@.len() as int) =~= first@);
    s
}

/// What a batch job reports while it runs, `R` being the provider's response and `C`
/// an error code.
pub enum BatchEvent<R, C> {
    BatchStarted { session_id: String },
    BatchResponse { session_id: String, response: R, mode: BatchRunMode },
    BatchCompleted { session_id: String },
    BatchFailed { session_id: String, code: C, error: String },
}

/// A finished batch job: the session, how it ran and the response, or the error's code
/// and message.
pub type BatchResult<R, C> = Result<(String, BatchRunMode, R), (C, String)>;

/// The events a batch job reports, in order: its start, then either the response and
/// its completion (under the session the output names) or the failure (under the
/// session the job was started for).
pub fn batch_events<R, C>(session_id: String, result: BatchResult<R, C>) -> (r: Vec<BatchEvent<R, C>>)
    ensures
        r@.len() == if result is Ok { 3int } else { 2int },
        r@[0] matches BatchEvent::BatchStarted { session_id: s } && s@ == session_id@,
        match result {
            Ok((out_session, mode, response)) => {
                &&& r@[1] matches BatchEvent::BatchResponse { session_id: s, response: resp, mode: m }
                    && s@ == out_session@ && resp == response && m == mode
                &&& r@[2] matches BatchEvent::BatchCompleted { session_id: s } && s@ == out_session@
            },
            Err((code, message)) => r@[1] matches BatchEvent::BatchFailed { session_id: s, code: c, error: e }
                && s@ == session_id@ && c == code && e@ == message@,
        },
{
    let mut events: Vec<BatchEvent<R, C>> = Vec::new();
    events.push(BatchEvent::BatchStarted { session_id: session_id.clone() });
    match result {
        Ok((out_session, mode, response)) => {
            events.push(BatchEvent::BatchResponse { session_id: out_session.clone(), response, mode });
            events.push(BatchEvent::BatchCompleted { session_id: out_session });
        },
        Err((code, message)) => {
            events.push(BatchEvent::BatchFailed { session_id, code, error: message });
        },
    }
    events
}

/// Why a batch job failed.
pub enum BatchFailure {
    AudioMetadataJoinFailed,
    AudioMetadataReadFailed { message: String },
    ProviderRequestFailed { message: String },
}

/// How reading the audio file's metadata went.
pub enum MetadataOutcome {
    /// The reading task could not be joined.
    JoinFailed,
    /// Reading failed with this error text.
    ReadFailed(String),
    /// The metadata was read.
    Read,
}

/// How a batch job goes on once the file's metadata is known: a metadata failure ends
/// it (a read error with its friendly message), DashScope is refused, and every other
/// provider is driven by its route.
pub fn batch_start(metadata: MetadataOutcome, provider: BatchProvider) -> (r: Result<BatchRoute, BatchFailure>)
    ensures
        metadata is JoinFailed ==> r matches Err(BatchFailure::AudioMetadataJoinFailed),
        metadata matches MetadataOutcome::ReadFailed(raw) ==> (r matches Err(
            BatchFailure::AudioMetadataReadFailed { message },
        ) && message@ == friendly_error_spec(raw@, unicode_lowercase(raw@))),
        metadata is Read ==> {
            &&& provider == BatchProvider::DashScope ==> (r matches Err(
                BatchFailure::ProviderRequestFailed { message },
            ) && message@ == "DashScope does not support batch transcription"@)
            &&& (provider == BatchProvider::Am || provider == BatchProvider::Cactus) ==> (r matches Ok(
                BatchRoute::Streamed,
            ))
            &&& (provider != BatchProvider::DashScope && provider != BatchProvider::Am && provider
                != BatchProvider::Cactus) ==> (r matches Ok(BatchRoute::Direct))
        },
{
    match metadata {
        MetadataOutcome::JoinFailed => Err(BatchFailure::AudioMetadataJoinFailed),
        MetadataOutcome::ReadFailed(raw) => Err(
            BatchFailure::AudioMetadataReadFailed { message: format_user_friendly_error(raw.as_str()) },
        ),
        MetadataOutcome::Read => match batch_route(provider) {
            BatchRoute::Unsupported { message } => Err(
                BatchFailure::ProviderRequestFailed { message: String::from_str(message) },
            ),
            route => Ok(route),
        },
    }
}

/// The failure of a provider's transcription request that failed with `raw_error`:
/// the friendly message for it.
pub fn provider_request_failure(raw_error: &str) -> (r: BatchFailure)
    ensures
        r matches BatchFailure::ProviderRequestFailed { message } && message@ == friendly_error_spec(
            raw_error@,
            unicode_lowercase(raw_error@),
        ),
{
    BatchFailure::ProviderRequestFailed { message: format_user_friendly_error(raw_error) }
}


/// The error code a batch job reports: a failure of its own is reported under that
/// failure's kind; any other error is `Unknown`.
#[derive(Clone, Copy, Debug, PartialEq, Eq, Structural)]
pub enum BatchFailureCode {
    AudioMetadataJoinFailed,
    AudioMetadataReadFailed,
    ProviderRequestFailed,
    Unknown,
}

/// Why a batch job ended without a response: one of its own failures, or any other
/// error.
pub enum BatchJobError {
    Failure(BatchFailure),
    Other,
}

pub open spec fn failure_code_spec(e: BatchJobError) -> BatchFailureCode {
    match e {
        BatchJobError::Failure(BatchFailure::AudioMetadataJoinFailed) => BatchFailureCode::AudioMetadataJoinFailed,
        BatchJobError::Failure(BatchFailure::AudioMetadataReadFailed { .. }) => BatchFailureCode::AudioMetadataReadFailed,
        BatchJobError::Failure(BatchFailure::ProviderRequestFailed { .. }) => BatchFailureCode::ProviderRequestFailed,
        BatchJobError::Other => BatchFailureCode::Unknown,
    }
}

/// The code a failed batch job reports for `error`.
pub fn batch_failure_code(error: &BatchJobError) -> (r: BatchFailureCode)
    ensures
        r == failure_code_spec(*error),
{
    match error {
        BatchJobError::Failure(BatchFailure::AudioMetadataJoinFailed) => BatchFailureCode::AudioMetadataJoinFailed,
        BatchJobError::Failure(BatchFailure::AudioMetadataReadFailed { .. }) => BatchFailureCode::AudioMetadataReadFailed,
        BatchJobError::Failure(BatchFailure::ProviderRequestFailed { .. }) => BatchFailureCode::ProviderRequestFailed,
        BatchJobError::Other => BatchFailureCode::Unknown,
    }
}

/// The events a batch job reports for its outcome, the error given with its text:
/// those of `batch_events`, a failure reported under `batch_failure_code`.
pub fn batch_run_events<R>(
    session_id: String,
    result: Result<(String, BatchRunMode, R), (BatchJobError, String)>,
) -> (r: Vec<BatchEvent<R, BatchFailureCode>>)
    ensures
        r@.len() == if result is Ok { 3int } else { 2int },
        r@[0] matches BatchEvent::BatchStarted { session_id: s } && s@ == session_id@,
        match result {
            Ok((out_session, mode, response)) => {
                &&& r@[1] matches BatchEvent::BatchResponse { session_id: s, response: resp, mode: m }
                    && s@ == out_session@ && resp == response && m == mode
                &&& r@[2] matches BatchEvent::BatchCompleted { session_id: s } && s@ == out_session@
            },
            Err((error, message)) => r@[1] matches BatchEvent::BatchFailed { session_id: s, code: c, error: e }
                && s@ == session_id@ && c == failure_code_spec(error) && e@ == message@,
        },
{
    let result = match result {
        Ok(out) => Ok(out),
        Err((error, message)) => Err((batch_failure_code(&error), message)),
    };
    batch_events(session_id, result)
}

/// What a batch job reports to the command waiting on it: `R` a final response, `S` a
/// streamed partial response, `C` an error code.
pub enum JobEvent<R, S, C> {
    Started,
    Completed,
    Streamed(S),
    Response(R),
    Failed(C, String),
}

/// What a waiting command keeps of a job's events: the last response, every streamed
/// partial response in order, and the last failure.
pub struct CollectedJob<R, S, C> {
    pub response: Option<R>,
    pub streamed: Vec<S>,
    pub failure: Option<(C, String)>,
}

pub open spec fn last_response<R, S, C>(events: Seq<JobEvent<R, S, C>>) -> Option<R>
    decreases events.len(),
{
    if events.len() == 0 {
        None
    } else {
        match events.last() {
            JobEvent::Response(r) => Some(r),
            _ => last_response(events.drop_last()),
        }
    }
}

pub open spec fn streamed_parts<R, S, C>(events: Seq<JobEvent<R, S, C>>) -> Seq<S>
    decreases events.len(),
{
    if events.len() == 0 {
        Seq::empty()
    } else {
        match events.last() {
            JobEvent::Streamed(p) => streamed_parts(events.drop_last()).push(p),
            _ => streamed_parts(events.drop_last()),
        }
    }
}

pub open spec fn last_failure<R, S, C>(events: Seq<JobEvent<R, S, C>>) -> Option<(C, Seq<char>)>
    decreases events.len(),
{
    if events.len() == 0 {
        None
    } else {
        match events.last() {
            JobEvent::Failed(c, e) => Some((c, e@)),
            _ => last_failure(events.drop_last()),
        }
    }
}

pub open spec fn failure_view<C>(f: Option<(C, String)>) -> Option<(C, Seq<char>)> {
    match f {
        Some((c, e)) => Some((c, e@)),
        None => None,
    }
}

/// Goes through a job's events in order, keeping the last response, the streamed parts
/// and the last failure.
pub fn collect_job_events<R, S, C>(events: Vec<JobEvent<R, S, C>>) -> (r: CollectedJob<R, S, C>)
    ensures
        r.response == last_response(events@),
        r.streamed@ == streamed_parts(events@),
        failure_view(r.failure) == last_failure(events@),
{
    let ghost all = events@;
    let mut rest = events;
    let mut response: Option<R> = None;
    let mut streamed: Vec<S> = Vec::new();
    let mut failure: Option<(C, String)> = None;
    let ghost mut seen: Seq<JobEvent<R, S, C>> = Seq::empty();
    while rest.len() > 0
        invariant
            all == seen + rest@,
            response == last_response(seen),
            streamed@ == streamed_parts(seen),
            failure_view(failure) == last_failure(seen),
        decreases rest.len(),
    {
        let ghost before = rest@;
        let e = rest.remove(0);
        proof {
            assert(before[0] == e);
            let next = seen.push(e);
            assert(next.drop_last() =~= seen);
            assert(all =~= next + rest@);
            seen = next;
        }
        match e {
            JobEvent::Response(r) => {
                response = Some(r);
            },
            JobEvent::Streamed(p) => {
                streamed.push(p);
            },
            JobEvent::Failed(c, msg) => {
                failure = Some((c, msg));
            },
            _ => {},
        }
    }
    assert(seen =~= all);
    CollectedJob { response, streamed, failure }
}

/// How a failed job is reported when it sent its own failure: the code's name, `: `,
/// and the message.
pub fn job_failure_text(code_name: &str, message: &str) -> (r: String)
    ensures
        r@ == code_name@ + ": "@ + message@,
{
    let mut t = String::from_str(code_name);
    t.append(": ");
    t.append(message);
    proof {
        reveal_strlit(": ");
    }
    t
}

/// The outcome of waiting on a batch job. When the job ended in an error, the batch
/// fails with the failure the job sent (`failure_text`) or else the job's own error;
/// otherwise the response is the job's final response, else `fallback`, and the batch
/// fails with "completed without a final response" when there is neither.
pub fn batch_job_outcome<R>(
    joined: Result<(), String>,
    failure_text: Option<String>,
    response: Option<R>,
    fallback: Option<R>,
) -> (r: Result<R, OperationFailed>)
    ensures
        match joined {
            Err(e) => r matches Err(f) && f.operation@ == "batch transcription"@ && f.reason@ == match failure_text {
                Some(t) => t@,
                None => e@,
            },
            Ok(()) => match (response, fallback) {
                (Some(x), _) => r == Ok::<R, OperationFailed>(x),
                (None, Some(x)) => r == Ok::<R, OperationFailed>(x),
                (None, None) => r matches Err(f) && f.operation@ == "batch transcription"@
                    && f.reason@ == "completed without a final response"@,
            },
        },
{
    match joined {
        Err(e) => {
            let reason = match failure_text {
                Some(t) => t,
                None => e,
            };
            Err(OperationFailed { operation: "batch transcription", reason })
        },
        Ok(()) => match response {
            Some(x) => Ok(x),
            None => match fallback {
                Some(x) => Ok(x),
                None => Err(
                    OperationFailed {
                        operation: "batch transcription",
                        reason: String::from_str("completed without a final response"),
                    },
                ),
            },
        },
    }
}

} // verus!
