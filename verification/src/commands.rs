//! The slash commands of the interactive entry screen.
use vstd::prelude::*;
use vstd::string::*;
use crate::text::{chars_of, is_prefix_chars, leading_ws, skip_white_space, trim_start_seq};

verus! {

#[derive(Clone, Copy, PartialEq, Eq, Debug, Structural)]
pub enum Command {
    Listen,
    Chat,
    ChatResume,
    Sessions,
    Timeline,
    Connect,
    Auth,
    Bug,
    Hello,
    Desktop,
    Models,
    ModelsDownload,
    ModelsDelete,
    ModelsPaths,
    Exit,
}

/// The commands offered in the command popup (`/models delete` is typed, not offered).
pub const ALL_COMMANDS: [Command; 14] = [
    Command::Listen,
    Command::Chat,
    Command::ChatResume,
    Command::Sessions,
    Command::Timeline,
    Command::Connect,
    Command::Auth,
    Command::Bug,
    Command::Hello,
    Command::Desktop,
    Command::Models,
    Command::ModelsDownload,
    Command::ModelsPaths,
    Command::Exit,
];

/// Every command, in lookup order.
pub const ALL_VARIANTS: [Command; 15] = [
    Command::Listen,
    Command::Chat,
    Command::ChatResume,
    Command::Sessions,
    Command::Timeline,
    Command::Connect,
    Command::Auth,
    Command::Bug,
    Command::Hello,
    Command::Desktop,
    Command::Models,
    Command::ModelsDownload,
    Command::ModelsDelete,
    Command::ModelsPaths,
    Command::Exit,
];

/// The typed keyword of a command (its name without the leading `/`).
pub open spec fn keyword_spec(c: Command) -> Seq<char> {
    match c {
        Command::Listen => "listen"@,
        Command::Chat => "chat"@,
        Command::ChatResume => "chat resume"@,
        Command::Sessions => "sessions"@,
        Command::Timeline => "timeline"@,
        Command::Connect => "connect"@,
        Command::Auth => "auth"@,
        Command::Bug => "bug"@,
        Command::Hello => "hello"@,
        Command::Desktop => "desktop"@,
        Command::Models => "models"@,
        Command::ModelsDownload => "models download"@,
        Command::ModelsDelete => "models delete"@,
        Command::ModelsPaths => "models paths"@,
        Command::Exit => "exit"@,
    }
}

pub open spec fn name_spec(c: Command) -> Seq<char> {
    match c {
        Command::Listen => "/listen"@,
        Command::Chat => "/chat"@,
        Command::ChatResume => "/chat resume"@,
        Command::Sessions => "/sessions"@,
        Command::Timeline => "/timeline"@,
        Command::Connect => "/connect"@,
        Command::Auth => "/auth"@,
        Command::Bug => "/bug"@,
        Command::Hello => "/hello"@,
        Command::Desktop => "/desktop"@,
        Command::Models => "/models"@,
        Command::ModelsDownload => "/models download"@,
        Command::ModelsDelete => "/models delete"@,
        Command::ModelsPaths => "/models paths"@,
        Command::Exit => "/exit"@,
    }
}

pub open spec fn description_spec(c: Command) -> Seq<char> {
    match c {
        Command::Listen => "Start live transcription"@,
        Command::Chat => "Start a chat"@,
        Command::ChatResume => "Resume an existing chat"@,
        Command::Sessions => "Browse past sessions"@,
        Command::Timeline => "CRM timeline view"@,
        Command::Connect => "Connect provider"@,
        Command::Auth => "Open auth in browser"@,
        Command::Bug => "Report a bug on GitHub"@,
        Command::Hello => "Open char.com"@,
        Command::Desktop => "Open desktop app or download page"@,
        Command::Models => "List available models"@,
        Command::ModelsDownload => "Download a model"@,
        Command::ModelsDelete => "Delete a model"@,
        Command::ModelsPaths => "Show model storage paths"@,
        Command::Exit => "Exit"@,
    }
}

pub open spec fn group_spec(c: Command) -> Seq<char> {
    match c {
        Command::Listen | Command::Chat | Command::ChatResume | Command::Sessions
        | Command::Timeline => "Session"@,
        Command::Connect | Command::Auth => "Setup"@,
        Command::Bug | Command::Hello | Command::Desktop | Command::Exit => "App"@,
        Command::Models | Command::ModelsDownload | Command::ModelsDelete
        | Command::ModelsPaths => "Models"@,
    }
}

pub open spec fn aliases_spec(c: Command) -> Seq<Seq<char>> {
    match c {
        Command::Exit => seq!["quit"@],
        _ => Seq::empty(),
    }
}

pub open spec fn disabled_reason_spec(
    c: Command,
    stt: Option<Seq<char>>,
    llm: Option<Seq<char>>,
) -> Option<Seq<char>> {
    match c {
        Command::Listen => if stt is None {
            Some("no STT provider"@)
        } else {
            None
        },
        Command::Chat | Command::ChatResume => if llm is None {
            Some("no LLM provider"@)
        } else {
            None
        },
        _ => None,
    }
}

pub open spec fn opt_view(o: Option<String>) -> Option<Seq<char>> {
    match o {
        Some(s) => Some(s@),
        None => None,
    }
}

pub open spec fn opt_str_view(o: Option<&str>) -> Option<Seq<char>> {
    match o {
        Some(s) => Some(s@),
        None => None,
    }
}

impl Command {
    /// The command as typed, with its leading `/`.
    pub fn name(&self) -> (r: &'static str)
        ensures
            r@ == name_spec(*self),
    {
        match self {
            Command::Listen => "/listen",
            Command::Chat => "/chat",
            Command::ChatResume => "/chat resume",
            Command::Sessions => "/sessions",
            Command::Timeline => "/timeline",
            Command::Connect => "/connect",
            Command::Auth => "/auth",
            Command::Bug => "/bug",
            Command::Hello => "/hello",
            Command::Desktop => "/desktop",
            Command::Models => "/models",
            Command::ModelsDownload => "/models download",
            Command::ModelsDelete => "/models delete",
            Command::ModelsPaths => "/models paths",
            Command::Exit => "/exit",
        }
    }

    /// The name without its leading `/`.
    pub fn keyword(&self) -> (r: &'static str)
        ensures
            r@ == keyword_spec(*self),
    {
        match self {
            Command::Listen => "listen",
            Command::Chat => "chat",
            Command::ChatResume => "chat resume",
            Command::Sessions => "sessions",
            Command::Timeline => "timeline",
            Command::Connect => "connect",
            Command::Auth => "auth",
            Command::Bug => "bug",
            Command::Hello => "hello",
            Command::Desktop => "desktop",
            Command::Models => "models",
            Command::ModelsDownload => "models download",
            Command::ModelsDelete => "models delete",
            Command::ModelsPaths => "models paths",
            Command::Exit => "exit",
        }
    }

    pub fn description(&self) -> (r: &'static str)
        ensures
            r@ == description_spec(*self),
    {
        match self {
            Command::Listen => "Start live transcription",
            Command::Chat => "Start a chat",
            Command::ChatResume => "Resume an existing chat",
            Command::Sessions => "Browse past sessions",
            Command::Timeline => "CRM timeline view",
            Command::Connect => "Connect provider",
            Command::Auth => "Open auth in browser",
            Command::Bug => "Report a bug on GitHub",
            Command::Hello => "Open char.com",
            Command::Desktop => "Open desktop app or download page",
            Command::Models => "List available models",
            Command::ModelsDownload => "Download a model",
            Command::ModelsDelete => "Delete a model",
            Command::ModelsPaths => "Show model storage paths",
            Command::Exit => "Exit",
        }
    }

    pub fn group(&self) -> (r: &'static str)
        ensures
            r@ == group_spec(*self),
    {
        match self {
            Command::Listen | Command::Chat | Command::ChatResume | Command::Sessions
            | Command::Timeline => "Session",
            Command::Connect | Command::Auth => "Setup",
            Command::Bug | Command::Hello | Command::Desktop | Command::Exit => "App",
            Command::Models | Command::ModelsDownload | Command::ModelsDelete
            | Command::ModelsPaths => "Models",
        }
    }

    pub fn aliases(&self) -> (r: &'static [&'static str])
        ensures
            r@.map_values(|a: &str| a@) == aliases_spec(*self),
    {
        match self {
            Command::Exit => {
                let r: &'static [&'static str] = &["quit"];
                assert(r@.map_values(|a: &str| a@) =~= seq!["quit"@]);
                r
            },
            _ => {
                let r: &'static [&'static str] = &[];
                assert(r@.map_values(|a: &str| a@) =~= Seq::<Seq<char>>::empty());
                r
            },
        }
    }

    /// Why the command cannot run with the configured providers, if it cannot.
    pub fn disabled_reason(&self, stt: &Option<String>, llm: &Option<String>) -> (r: Option<
        &'static str,
    >)
        ensures
            opt_str_view(r) == disabled_reason_spec(*self, opt_view(*stt), opt_view(*llm)),
    {
        match self {
            Command::Listen => if stt.is_none() {
                Some("no STT provider")
            } else {
                None
            },
            Command::Chat | Command::ChatResume => if llm.is_none() {
                Some("no LLM provider")
            } else {
                None
            },
            _ => None,
        }
    }
}

/// The remainder after `word` when `input` starts with `word` followed by the end or a
/// space, with leading whitespace removed.
pub open spec fn match_rest(input: Seq<char>, word: Seq<char>) -> Option<Seq<char>> {
    if word.is_prefix_of(input) {
        let rest = input.skip(word.len() as int);
        if rest.len() == 0 || rest[0] == ' ' {
            Some(trim_start_seq(rest))
        } else {
            None
        }
    } else {
        None
    }
}

pub open spec fn lookup_by_keyword(input: Seq<char>, cmds: Seq<Command>) -> Option<(Command, Seq<char>)>
    decreases cmds.len(),
{
    if cmds.len() == 0 {
        None
    } else {
        match match_rest(input, keyword_spec(cmds[0])) {
            Some(rest) => Some((cmds[0], rest)),
            None => lookup_by_keyword(input, cmds.drop_first()),
        }
    }
}

pub open spec fn first_alias_rest(input: Seq<char>, aliases: Seq<Seq<char>>) -> Option<Seq<char>>
    decreases aliases.len(),
{
    if aliases.len() == 0 {
        None
    } else {
        match match_rest(input, aliases[0]) {
            Some(rest) => Some(rest),
            None => first_alias_rest(input, aliases.drop_first()),
        }
    }
}

pub open spec fn lookup_by_alias(input: Seq<char>, cmds: Seq<Command>) -> Option<(Command, Seq<char>)>
    decreases cmds.len(),
{
    if cmds.len() == 0 {
        None
    } else {
        match first_alias_rest(input, aliases_spec(cmds[0])) {
            Some(rest) => Some((cmds[0], rest)),
            None => lookup_by_alias(input, cmds.drop_first()),
        }
    }
}

/// The command that a (normalized) input names, and its argument text: keywords are
/// tried in command order first, then aliases.
pub open spec fn lookup_spec(input: Seq<char>) -> Option<(Command, Seq<char>)> {
    match lookup_by_keyword(input, ALL_VARIANTS@) {
        Some(r) => Some(r),
        None => lookup_by_alias(input, ALL_VARIANTS@),
    }
}

/// `match_rest` computed: the character offset at which the remainder starts.
fn match_rest_exec(input: &Vec<char>, word: &str) -> (r: Option<usize>)
    ensures
        match r {
            Some(start) => start <= input@.len() && match_rest(input@, word@) == Some(
                input@.skip(start as int),
            ),
            None => match_rest(input@, word@) is None,
        },
{
    let w = chars_of(word);
    if !is_prefix_chars(&w, input) {
        return None;
    }
    let n = w.len();
    if n < input.len() && input[n] != ' ' {
        assert(input@.skip(n as int)[0] == input@[n as int]);
        return None;
    }
    let start = skip_white_space(input, n);
    proof {
        let rest = input@.skip(n as int);
        assert(rest.skip(leading_ws(rest) as int) =~= input@.skip(start as int));
    }
    Some(start)
}

/// The command that `input` names and the text after it.
pub fn lookup(input: &str) -> (r: Option<(Command, &str)>)
    ensures
        match r {
            Some((c, rest)) => lookup_spec(input@) == Some((c, rest@)),
            None => lookup_spec(input@) is None,
        },
{
    let v = chars_of(input);
    let n = v.len();
    assert(ALL_VARIANTS@.skip(0) =~= ALL_VARIANTS@);
    let mut k: usize = 0;
    while k < 15
        invariant
            v@ == input@,
            n == v@.len(),
            k <= 15,
            lookup_by_keyword(input@, ALL_VARIANTS@) == lookup_by_keyword(
                input@,
                ALL_VARIANTS@.skip(k as int),
            ),
        decreases 15 - k,
    {
        let cmd = ALL_VARIANTS[k];
        assert(ALL_VARIANTS@.skip(k as int)[0] == cmd);
        assert(ALL_VARIANTS@.skip(k as int).drop_first() =~= ALL_VARIANTS@.skip(k + 1));
        match match_rest_exec(&v, cmd.keyword()) {
            Some(start) => {
                let rest = input.substring_char(start, n);
                assert(rest@ =~= input@.skip(start as int));
                return Some((cmd, rest));
            },
            None => {},
        }
        k = k + 1;
    }
    let mut k: usize = 0;
    while k < 15
        invariant
            v@ == input@,
            n == v@.len(),
            k <= 15,
            ALL_VARIANTS@.skip(0) == ALL_VARIANTS@,
            lookup_by_keyword(input@, ALL_VARIANTS@) is None,
            lookup_by_alias(input@, ALL_VARIANTS@) == lookup_by_alias(
                input@,
                ALL_VARIANTS@.skip(k as int),
            ),
        decreases 15 - k,
    {
        let cmd = ALL_VARIANTS[k];
        assert(ALL_VARIANTS@.skip(k as int)[0] == cmd);
        assert(ALL_VARIANTS@.skip(k as int).drop_first() =~= ALL_VARIANTS@.skip(k + 1));
        let aliases = cmd.aliases();
        let ghost views = aliases@.map_values(|a: &str| a@);
        assert(views.skip(0) =~= views);
        let mut j: usize = 0;
        while j < aliases.len()
            invariant
                v@ == input@,
                n == v@.len(),
                j <= aliases@.len(),
                views == aliases@.map_values(|a: &str| a@),
                views == aliases_spec(cmd),
                k < 15,
                ALL_VARIANTS@.skip(k as int)[0] == cmd,
                lookup_by_keyword(input@, ALL_VARIANTS@) is None,
                lookup_by_alias(input@, ALL_VARIANTS@) == lookup_by_alias(
                    input@,
                    ALL_VARIANTS@.skip(k as int),
                ),
                first_alias_rest(input@, views) == first_alias_rest(
                    input@,
                    views.skip(j as int),
                ),
            decreases aliases@.len() - j,
        {
            let alias = aliases[j];
            assert(views.skip(j as int)[0] == alias@);
            assert(views.skip(j as int).drop_first() =~= views.skip(j + 1));
            match match_rest_exec(&v, alias) {
                Some(start) => {
                    let rest = input.substring_char(start, n);
                    assert(rest@ =~= input@.skip(start as int));
                    return Some((cmd, rest));
                },
                None => {},
            }
            j = j + 1;
        }
        k = k + 1;
    }
    None
}

} // verus!
