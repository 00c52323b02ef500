//! The `model` command: its arguments and the decisions it takes about local models.
use vstd::prelude::*;
use vstd::string::*;
use crate::cli::OutputFormat;
use crate::text::{str_eq, starts_with_str};

verus! {

/// Which kind of local model a command is about.
#[derive(Clone, Copy, Debug, PartialEq, Eq, Structural)]
pub enum ModelKind {
    Stt,
    Llm,
}

pub enum CactusCommands {
    List { format: OutputFormat, json: bool },
    Download { name: String },
    Delete { name: String },
}

pub enum ModelCommands {
    Paths,
    Current,
    List { kind: Option<ModelKind>, supported: bool, format: OutputFormat, json: bool },
    Cactus { command: CactusCommands },
    Download { name: String },
    Delete { name: String },
}

/// Prefix that every Cactus model's command-line name carries.
pub const CACTUS_PREFIX: &'static str = "cactus-";

/// Whether a model of kind `model_kind` is listed under the `--kind` filter.
pub fn matches_kind(model_kind: ModelKind, kind: Option<ModelKind>) -> (r: bool)
    ensures
        r == match kind {
            None => true,
            Some(k) => k == model_kind,
        },
{
    match kind {
        None => true,
        Some(ModelKind::Stt) => model_kind == ModelKind::Stt,
        Some(ModelKind::Llm) => model_kind == ModelKind::Llm,
    }
}

/// An argument refused, with the reason shown to the user.
pub struct InvalidArgument {
    pub name: &'static str,
    pub value: &'static str,
    pub reason: &'static str,
}

/// Whether `--supported` can be honoured for the `--kind` given: only the STT list exists.
pub fn check_supported_kind(kind: Option<ModelKind>) -> (r: Result<(), InvalidArgument>)
    ensures
        r is Ok <==> kind == Some(ModelKind::Stt),
        r matches Err(e) ==> e.name@ == "--supported"@ && e.value@ == "true"@,
        kind == Some(ModelKind::Llm) ==> (r matches Err(e)
            && e.reason@ == "Only STT has a shared supported model list right now; use `--kind stt`."@),
        kind is None ==> (r matches Err(e)
            && e.reason@ == "Pass `--kind stt` (supported list is STT-only right now)."@),
{
    match kind {
        Some(ModelKind::Stt) => Ok(()),
        Some(ModelKind::Llm) => Err(
            InvalidArgument {
                name: "--supported",
                value: "true",
                reason: "Only STT has a shared supported model list right now; use `--kind stt`.",
            },
        ),
        None => Err(
            InvalidArgument {
                name: "--supported",
                value: "true",
                reason: "Pass `--kind stt` (supported list is STT-only right now).",
            },
        ),
    }
}

/// The configuration of a provider as the settings file records it.
pub struct ModelProviderConfig {
    pub base_url: Option<String>,
    pub has_api_key: bool,
}

pub open spec fn set_or_missing(b: bool) -> Seq<char> {
    if b {
        "set"@
    } else {
        "missing"@
    }
}

pub open spec fn provider_config_status_spec(config: Option<(bool, bool)>) -> Seq<char> {
    match config {
        None => "config=missing"@,
        Some((has_url, has_key)) => "config=base_url:"@ + set_or_missing(has_url) + " api_key:"@
            + set_or_missing(has_key),
    }
}

fn set_or_missing_str(b: bool) -> (r: &'static str)
    ensures
        r@ == set_or_missing(b),
{
    if b {
        "set"
    } else {
        "missing"
    }
}

/// How much of a provider's configuration is present, as `model current` prints it.
pub fn format_provider_config_status(config: Option<&ModelProviderConfig>) -> (r: String)
    ensures
        r@ == provider_config_status_spec(
            match config {
                None => None,
                Some(c) => Some((c.base_url is Some, c.has_api_key)),
            },
        ),
{
    match config {
        None => String::from_str("config=missing"),
        Some(c) => {
            let mut s = String::from_str("config=base_url:");
            s.append(set_or_missing_str(c.base_url.is_some()));
            s.append(" api_key:");
            s.append(set_or_missing_str(c.has_api_key));
            s
        },
    }
}

pub open spec fn kind_label(kind: ModelKind) -> Seq<char> {
    match kind {
        ModelKind::Stt => "stt"@,
        ModelKind::Llm => "llm"@,
    }
}

pub open spec fn or_unset(o: Option<&str>) -> Seq<char> {
    match o {
        Some(s) => s@,
        None => "unset"@,
    }
}

/// A line of `model current`: the kind, the chosen provider and model (`unset` when
/// there is none), and the provider's configuration status, separated by tabs.
pub fn current_model_line(kind: ModelKind, provider: Option<&str>, model: Option<&str>, status: &str) -> (r: String)
    ensures
        r@ == kind_label(kind) + "\tprovider="@ + or_unset(provider) + "\tmodel="@ + or_unset(model) + "\t"@
            + status@,
{
    let mut s = match kind {
        ModelKind::Stt => String::from_str("stt"),
        ModelKind::Llm => String::from_str("llm"),
    };
    s.append("\tprovider=");
    match provider {
        Some(p) => s.append(p),
        None => s.append("unset"),
    }
    s.append("\tmodel=");
    match model {
        Some(m) => s.append(m),
        None => s.append("unset"),
    }
    s.append("\t");
    s.append(status);
    s
}

/// Position of the first model (by command-line name) named exactly `name`.
pub fn find_model(cli_names: &Vec<String>, name: &str) -> (r: Option<usize>)
    ensures
        match r {
            Some(i) => i < cli_names@.len() && cli_names@[i as int]@ == name@
                && forall|j: int| 0 <= j < i ==> (#[trigger] cli_names@[j])@ != name@,
            None => forall|j: int| 0 <= j < cli_names@.len() ==> (#[trigger] cli_names@[j])@ != name@,
        },
{
    let mut i: usize = 0;
    while i < cli_names.len()
        invariant
            i <= cli_names@.len(),
            forall|j: int| 0 <= j < i ==> (#[trigger] cli_names@[j])@ != name@,
        decreases cli_names@.len() - i,
    {
        if str_eq(cli_names[i].as_str(), name) {
            return Some(i);
        }
        i = i + 1;
    }
    None
}

/// The current model choices of the desktop settings.
pub struct DesktopModelSettings {
    pub current_stt_provider: Option<String>,
    pub current_stt_model: Option<String>,
    pub current_llm_provider: Option<String>,
    pub current_llm_model: Option<String>,
}

pub open spec fn opt_seq(o: Option<String>) -> Option<Seq<char>> {
    match o {
        Some(s) => Some(s@),
        None => None,
    }
}

pub open spec fn is_current_model_spec(
    kind: ModelKind,
    settings_name: Option<Seq<char>>,
    stt_provider: Option<Seq<char>>,
    stt_model: Option<Seq<char>>,
    llm_model: Option<Seq<char>>,
) -> bool {
    match kind {
        ModelKind::Llm => llm_model == settings_name,
        ModelKind::Stt => stt_provider == Some("hyprnote"@) && stt_model != Some("cloud"@)
            && stt_model == settings_name,
    }
}

fn opt_str_eq(a: &Option<String>, b: Option<&str>) -> (r: bool)
    ensures
        r == (opt_seq(*a) == match b {
            Some(s) => Some(s@),
            None => None::<Seq<char>>,
        }),
{
    match (a, b) {
        (Some(x), Some(y)) => str_eq(x.as_str(), y),
        (None, None) => true,
        _ => false,
    }
}

/// Whether a model of `kind`, whose settings name is `settings_name`, is the one the
/// settings select: an LLM by its name; an STT model only under the local provider and
/// never for the cloud model.
pub fn is_current_model(
    kind: ModelKind,
    settings_name: Option<&str>,
    current: &DesktopModelSettings,
) -> (r: bool)
    ensures
        r == is_current_model_spec(
            kind,
            match settings_name {
                Some(s) => Some(s@),
                None => None,
            },
            opt_seq(current.current_stt_provider),
            opt_seq(current.current_stt_model),
            opt_seq(current.current_llm_model),
        ),
{
    match kind {
        ModelKind::Llm => opt_str_eq(&current.current_llm_model, settings_name),
        ModelKind::Stt => {
            opt_str_eq(&current.current_stt_provider, Some("hyprnote")) && !opt_str_eq(
                &current.current_stt_model,
                Some("cloud"),
            ) && opt_str_eq(&current.current_stt_model, settings_name)
        },
    }
}

pub open spec fn canonical_cactus_spec(name: Seq<char>) -> Seq<char> {
    if CACTUS_PREFIX@.is_prefix_of(name) {
        name
    } else {
        CACTUS_PREFIX@ + name
    }
}

/// The name a user gave for a Cactus model, with the `cactus-` prefix added when missing.
pub fn canonical_cactus_name(name: &str) -> (r: String)
    ensures
        r@ == canonical_cactus_spec(name@),
{
    if starts_with_str(name, CACTUS_PREFIX) {
        String::from_str(name)
    } else {
        let mut s = String::from_str(CACTUS_PREFIX);
        s.append(name);
        s
    }
}

pub open spec fn names_cactus_model(cli_name: Seq<char>, name: Seq<char>) -> bool {
    &&& CACTUS_PREFIX@.is_prefix_of(cli_name)
    &&& (cli_name == name || cli_name == canonical_cactus_spec(name))
}

/// Position of the first Cactus model (by command-line name) that `name` designates,
/// with or without its `cactus-` prefix.
pub fn find_cactus_model(cli_names: &Vec<String>, name: &str) -> (r: Option<usize>)
    ensures
        match r {
            Some(i) => i < cli_names@.len() && names_cactus_model(cli_names@[i as int]@, name@)
                && forall|j: int| 0 <= j < i ==> !names_cactus_model(#[trigger] cli_names@[j]@, name@),
            None => forall|j: int|
                0 <= j < cli_names@.len() ==> !names_cactus_model(#[trigger] cli_names@[j]@, name@),
        },
{
    let canonical = canonical_cactus_name(name);
    let mut i: usize = 0;
    while i < cli_names.len()
        invariant
            i <= cli_names@.len(),
            canonical@ == canonical_cactus_spec(name@),
            forall|j: int| 0 <= j < i ==> !names_cactus_model(#[trigger] cli_names@[j]@, name@),
        decreases cli_names@.len() - i,
    {
        let n = cli_names[i].as_str();
        if starts_with_str(n, CACTUS_PREFIX) && (str_eq(n, name) || str_eq(n, canonical.as_str())) {
            return Some(i);
        }
        i = i + 1;
    }
    None
}

/// What a model listing shows of a model's files.
pub open spec fn download_status_spec(downloaded: Option<bool>, has_url: bool) -> Seq<char> {
    match downloaded {
        Some(true) => "downloaded"@,
        Some(false) => if has_url {
            "not-downloaded"@
        } else {
            "unavailable"@
        },
        None => "error"@,
    }
}

/// The status column of a model row: `downloaded` is the download manager's answer,
/// `None` when it failed.
pub fn download_status(downloaded: Option<bool>, has_url: bool) -> (r: &'static str)
    ensures
        r@ == download_status_spec(downloaded, has_url),
{
    match downloaded {
        Some(true) => "downloaded",
        Some(false) => if has_url {
            "not-downloaded"
        } else {
            "unavailable"
        },
        None => "error",
    }
}

/// Where a download progress bar stands for a reported progress: `None` when the
/// download failed (a negative report), else the percentage capped at 100.
pub fn progress_position(progress: i8) -> (r: Option<u64>)
    ensures
        progress < 0 ==> r is None,
        progress >= 0 ==> r == Some(if progress > 100 { 100u64 } else { progress as u64 }),
{
    if progress < 0 {
        None
    } else {
        let p = progress as u64;
        Some(if p > 100 { 100 } else { p })
    }
}

/// A Cactus model is found by its name with or without the `cactus-` prefix alike.
pub proof fn law_cactus_name_prefix_optional(cli_name: Seq<char>, name: Seq<char>)
    ensures
        names_cactus_model(cli_name, name) == names_cactus_model(cli_name, canonical_cactus_spec(name)),
        canonical_cactus_spec(canonical_cactus_spec(name)) == canonical_cactus_spec(name),
{
    let p = CACTUS_PREFIX@;
    if !p.is_prefix_of(name) {
        let c = p + name;
        assert(p.is_prefix_of(c)) by {
            assert(c.subrange(0, p.len() as int) =~= p);
        }
        if p.is_prefix_of(cli_name) && cli_name == name {
            assert(false);
        }
    }
}

/// A row of a model listing.
pub struct ModelRow {
    pub active: bool,
    pub name: String,
    pub kind: String,
    pub status: String,
    pub display_name: String,
    pub description: String,
    pub install_path: String,
}

pub open spec fn model_row_line_spec(row: ModelRow) -> Seq<char> {
    (if row.active {
        "*"@
    } else {
        ""@
    }) + "\t"@ + row.name@ + "\t"@ + row.kind@ + "\t"@ + row.status@ + "\t"@ + row.display_name@ + if row.description@.len()
        == 0 {
        Seq::<char>::empty()
    } else {
        " ("@ + row.description@ + ")"@
    }
}

/// A model row as listed when the output is no terminal: tab-separated, the active
/// model starred, the description (when there is one) in brackets after the name.
pub fn model_row_line(row: &ModelRow) -> (r: String)
    ensures
        r@ == model_row_line_spec(*row),
{
    let mut s = String::from_str(if row.active {
        "*"
    } else {
        ""
    });
    s.append("\t");
    s.append(row.name.as_str());
    s.append("\t");
    s.append(row.kind.as_str());
    s.append("\t");
    s.append(row.status.as_str());
    s.append("\t");
    s.append(row.display_name.as_str());
    if row.description.as_str().unicode_len() > 0 {
        s.append(" (");
        s.append(row.description.as_str());
        s.append(")");
    }
    proof {
        reveal_strlit("");
        assert(""@ =~= Seq::<char>::empty());
    }
    s
}

} // verus!
