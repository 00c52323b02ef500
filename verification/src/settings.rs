//! The speech-to-text settings: which provider and model are current, and how each
//! provider is reached.
use vstd::prelude::*;
use vstd::string::*;
use crate::text::{str_eq, trim, trim_seq};
use crate::json::{json_as_str, json_get, json_lookup, json_of, json_string, parse_json, JsonValue};

verus! {

/// How a provider is reached; empty values are kept as absent.
pub struct ProviderConfig {
    pub base_url: Option<String>,
    pub api_key: Option<String>,
}

pub type ConfigView = (Option<Seq<char>>, Option<Seq<char>>);

pub open spec fn opt_view(o: Option<String>) -> Option<Seq<char>> {
    match o {
        Some(s) => Some(s@),
        None => None,
    }
}

pub open spec fn config_view(c: ProviderConfig) -> ConfigView {
    (opt_view(c.base_url), opt_view(c.api_key))
}

/// The current speech-to-text choice and the configured providers, keyed by provider id.
pub struct Settings {
    pub current_stt_provider: Option<String>,
    pub current_stt_model: Option<String>,
    pub stt_providers: Vec<(String, ProviderConfig)>,
}

/// No provider id occurs twice.
pub open spec fn keys_distinct(v: Seq<(String, ProviderConfig)>) -> bool {
    forall|i: int, j: int| 0 <= i < j < v.len() ==> (#[trigger] v[i]).0@ != (#[trigger] v[j]).0@
}

pub open spec fn has_key(v: Seq<(String, ProviderConfig)>, k: Seq<char>) -> bool {
    exists|i: int| 0 <= i < v.len() && (#[trigger] v[i]).0@ == k
}

pub open spec fn key_index(v: Seq<(String, ProviderConfig)>, k: Seq<char>) -> int {
    choose|i: int| 0 <= i < v.len() && (#[trigger] v[i]).0@ == k
}

/// The providers as a map from provider id to configuration.
pub open spec fn provider_map(v: Seq<(String, ProviderConfig)>) -> Map<Seq<char>, ConfigView> {
    Map::new(|k: Seq<char>| has_key(v, k), |k: Seq<char>| config_view(v[key_index(v, k)].1))
}

impl Settings {
    pub open spec fn wf(&self) -> bool {
        keys_distinct(self.stt_providers@)
    }
}

/// A stored provider connection.
pub struct ConnectionRow {
    pub provider_id: String,
    pub base_url: String,
    pub api_key: String,
}

pub open spec fn nonempty_view(s: Seq<char>) -> Option<Seq<char>> {
    if s.len() == 0 {
        None
    } else {
        Some(s)
    }
}

/// Later connections of the same provider replace earlier ones.
pub open spec fn connections_map(conns: Seq<ConnectionRow>) -> Map<Seq<char>, ConfigView>
    decreases conns.len(),
{
    if conns.len() == 0 {
        Map::empty()
    } else {
        connections_map(conns.drop_last()).insert(
            conns.last().provider_id@,
            (nonempty_view(conns.last().base_url@), nonempty_view(conns.last().api_key@)),
        )
    }
}

fn nonempty(s: String) -> (r: Option<String>)
    ensures
        opt_view(r) == nonempty_view(s@),
{
    if s.as_str().unicode_len() == 0 {
        None
    } else {
        Some(s)
    }
}

/// Sets `key`'s configuration, replacing what was there.
pub fn insert_provider(map: &mut Vec<(String, ProviderConfig)>, key: String, config: ProviderConfig)
    requires
        keys_distinct(old(map)@),
    ensures
        keys_distinct(final(map)@),
        provider_map(final(map)@) == provider_map(old(map)@).insert(key@, config_view(config)),
{
    let ghost k = key@;
    let ghost c = config_view(config);
    let ghost before = map@;
    let mut i: usize = 0;
    while i < map.len()
        invariant
            map@ == before,
            before == old(map)@,
            keys_distinct(before),
            k == key@,
            c == config_view(config),
            i <= map@.len(),
            forall|j: int| 0 <= j < i ==> (#[trigger] map@[j]).0@ != k,
        decreases map@.len() - i,
    {
        if str_eq(map[i].0.as_str(), key.as_str()) {
            map.set(i, (key, config));
            proof {
                assert forall|a: int, b: int| 0 <= a < b < map@.len() implies (#[trigger] map@[a]).0@
                    != (#[trigger] map@[b]).0@ by {
                    assert(before[a].0@ != before[b].0@);
                }
                assert(provider_map(map@) =~= provider_map(before).insert(k, c)) by {
                    assert forall|x: Seq<char>| #[trigger] has_key(map@, x) == (has_key(before, x)
                        || x == k) by {
                        if has_key(before, x) {
                            let w = choose|w: int| 0 <= w < before.len() && (#[trigger] before[w]).0@ == x;
                            assert(map@[w].0@ == x);
                        }
                        if has_key(map@, x) {
                            let w = choose|w: int| 0 <= w < map@.len() && (#[trigger] map@[w]).0@ == x;
                            if w != i {
                                assert(before[w].0@ == x);
                            }
                        }
                        if x == k {
                            assert(map@[i as int].0@ == k);
                        }
                    }
                    assert forall|x: Seq<char>| has_key(map@, x) implies config_view(
                        map@[key_index(map@, x)].1,
                    ) == (#[trigger] provider_map(before).insert(k, c)[x]) by {
                        let w = key_index(map@, x);
                        if x == k {
                            assert(w == i);
                        } else {
                            let v = key_index(before, x);
                            assert(map@[w].0@ == x);
                            assert(before[w].0@ == x);
                            assert(w == v);
                        }
                    }
                }
            }
            return;
        }
        i = i + 1;
    }
    map.push((key, config));
    proof {
        let n = before.len() as int;
        assert(map@[n].0@ == k);
        assert forall|a: int, b: int| 0 <= a < b < map@.len() implies (#[trigger] map@[a]).0@
            != (#[trigger] map@[b]).0@ by {
            if b < n {
                assert(before[a].0@ != before[b].0@);
            }
        }
        assert(provider_map(map@) =~= provider_map(before).insert(k, c)) by {
            assert forall|x: Seq<char>| #[trigger] has_key(map@, x) == (has_key(before, x) || x == k) by {
                if has_key(before, x) {
                    let w = choose|w: int| 0 <= w < before.len() && (#[trigger] before[w]).0@ == x;
                    assert(map@[w].0@ == x);
                }
                if has_key(map@, x) {
                    let w = choose|w: int| 0 <= w < map@.len() && (#[trigger] map@[w]).0@ == x;
                    if w < n {
                        assert(before[w].0@ == x);
                    }
                }
            }
            assert forall|x: Seq<char>| has_key(map@, x) implies config_view(
                map@[key_index(map@, x)].1,
            ) == (#[trigger] provider_map(before).insert(k, c)[x]) by {
                let w = key_index(map@, x);
                if x == k {
                    assert(w == n);
                } else {
                    let v = key_index(before, x);
                    assert(before[w].0@ == x);
                    assert(w == v);
                }
            }
        }
    }
}

/// The providers of the stored connections: empty values become absent, and a
/// provider's later connection replaces an earlier one.
pub fn connections_to_provider_map(connections: Vec<ConnectionRow>) -> (r: Vec<(String, ProviderConfig)>)
    ensures
        keys_distinct(r@),
        provider_map(r@) == connections_map(connections@),
{
    let ghost all = connections@;
    let mut pending = connections;
    let total = pending.len();
    let mut out: Vec<(String, ProviderConfig)> = Vec::new();
    let mut k: usize = 0;
    assert(all.skip(0) =~= all);
    assert(provider_map(out@) =~= Map::<Seq<char>, ConfigView>::empty());
    assert(all.take(0) =~= Seq::<ConnectionRow>::empty());
    while pending.len() > 0
        invariant
            k <= all.len(),
            all.len() == total,
            pending@ == all.skip(k as int),
            keys_distinct(out@),
            provider_map(out@) == connections_map(all.take(k as int)),
        decreases pending@.len(),
    {
        let c = pending.remove(0);
        assert(c == all[k as int]);
        assert(pending@ =~= all.skip(k + 1));
        assert(all.take(k + 1).drop_last() =~= all.take(k as int));
        assert(all.take(k + 1).last() == c);
        let ConnectionRow { provider_id, base_url, api_key } = c;
        let config = ProviderConfig { base_url: nonempty(base_url), api_key: nonempty(api_key) };
        insert_provider(&mut out, provider_id, config);
        k = k + 1;
    }
    assert(all.take(k as int) =~= all);
    out
}

/// The value of the last setting named `key`, if any.
pub open spec fn setting_value(pairs: Seq<(String, String)>, key: Seq<char>) -> Option<Seq<char>>
    decreases pairs.len(),
{
    if pairs.len() == 0 {
        None
    } else if pairs.last().0@ == key {
        Some(pairs.last().1@)
    } else {
        setting_value(pairs.drop_last(), key)
    }
}

pub open spec fn nonempty_setting(pairs: Seq<(String, String)>, key: Seq<char>) -> Option<Seq<char>> {
    match setting_value(pairs, key) {
        Some(v) => nonempty_view(v),
        None => None,
    }
}

fn lookup_setting(pairs: &Vec<(String, String)>, key: &str) -> (r: Option<String>)
    ensures
        opt_view(r) == nonempty_setting(pairs@, key@),
{
    let mut i: usize = pairs.len();
    assert(pairs@.take(i as int) =~= pairs@);
    while i > 0
        invariant
            i <= pairs@.len(),
            setting_value(pairs@, key@) == setting_value(pairs@.take(i as int), key@),
        decreases i,
    {
        assert(pairs@.take(i as int).last() == pairs@[i - 1]);
        assert(pairs@.take(i as int).drop_last() =~= pairs@.take(i - 1));
        if str_eq(pairs[i - 1].0.as_str(), key) {
            return nonempty(pairs[i - 1].1.clone());
        }
        i = i - 1;
    }
    None
}

/// The settings read back from stored setting pairs and connections: none at all when
/// neither a current provider nor any provider connection is stored.
pub fn settings_from_parts(pairs: &Vec<(String, String)>, connections: Vec<ConnectionRow>) -> (r:
    Option<Settings>)
    ensures
        match r {
            None => nonempty_setting(pairs@, "current_stt_provider"@) is None
                && connections_map(connections@).dom().len() == 0,
            Some(s) => {
                &&& s.wf()
                &&& opt_view(s.current_stt_provider) == nonempty_setting(
                    pairs@,
                    "current_stt_provider"@,
                )
                &&& opt_view(s.current_stt_model) == nonempty_setting(pairs@, "current_stt_model"@)
                &&& provider_map(s.stt_providers@) == connections_map(connections@)
                &&& (s.current_stt_provider is Some || connections_map(connections@).dom().len() > 0)
            },
        },
{
    let current_stt_provider = lookup_setting(pairs, "current_stt_provider");
    let current_stt_model = lookup_setting(pairs, "current_stt_model");
    let stt_providers = connections_to_provider_map(connections);
    if current_stt_provider.is_none() && stt_providers.len() == 0 {
        proof {
            assert(provider_map(stt_providers@).dom() =~= Set::<Seq<char>>::empty());
        }
        return None;
    }
    proof {
        if stt_providers@.len() > 0 {
            assert(has_key(stt_providers@, stt_providers@[0].0@));
            assert(provider_map(stt_providers@).dom().contains(stt_providers@[0].0@));
            lemma_connections_map_finite(connections@);
        }
    }
    Some(Settings { current_stt_provider, current_stt_model, stt_providers })
}

proof fn lemma_connections_map_finite(conns: Seq<ConnectionRow>)
    ensures
        connections_map(conns).dom().finite(),
    decreases conns.len(),
{
    if conns.len() > 0 {
        lemma_connections_map_finite(conns.drop_last());
    }
}

/// A provider's configuration as the settings file gives it: values are trimmed, and
/// empty ones are absent.
pub fn provider_config_from_values(base_url: Option<&str>, api_key: Option<&str>) -> (r:
    ProviderConfig)
    ensures
        opt_view(r.base_url) == match base_url {
            Some(v) => nonempty_view(trim_seq(v@)),
            None => None,
        },
        opt_view(r.api_key) == match api_key {
            Some(v) => nonempty_view(trim_seq(v@)),
            None => None,
        },
{
    let base_url = match base_url {
        Some(v) => nonempty(trim(v)),
        None => None,
    };
    let api_key = match api_key {
        Some(v) => nonempty(trim(v)),
        None => None,
    };
    ProviderConfig { base_url, api_key }
}

/// Among stored connections of one provider, the last one is the one kept.
pub proof fn law_last_connection_wins(conns: Seq<ConnectionRow>, i: int)
    requires
        0 <= i < conns.len(),
        forall|j: int| i < j < conns.len() ==> (#[trigger] conns[j]).provider_id@ != conns[i].provider_id@,
    ensures
        connections_map(conns).dom().contains(conns[i].provider_id@),
        connections_map(conns)[conns[i].provider_id@] == (
            nonempty_view(conns[i].base_url@),
            nonempty_view(conns[i].api_key@),
        ),
    decreases conns.len(),
{
    if i < conns.len() - 1 {
        let init = conns.drop_last();
        assert forall|j: int| i < j < init.len() implies (#[trigger] init[j]).provider_id@
            != init[i].provider_id@ by {
            assert(init[j] == conns[j]);
        }
        law_last_connection_wins(init, i);
        assert(conns.last() == conns[conns.len() - 1]);
    }
}

/// A write to the settings database.
pub enum SettingsWrite {
    SetSetting { key: &'static str, value: String },
    UpsertConnection { kind: &'static str, provider_id: String, base_url: String, api_key: String },
}

pub open spec fn or_empty(o: Option<String>) -> Seq<char> {
    match o {
        Some(s) => s@,
        None => Seq::empty(),
    }
}

fn clone_or_empty(o: &Option<String>) -> (r: String)
    ensures
        r@ == or_empty(*o),
{
    match o {
        Some(s) => s.clone(),
        None => String::new(),
    }
}

/// Whether `w` stores provider `p`'s configuration as a speech-to-text connection
/// (absent values written empty).
pub open spec fn is_connection_write(w: SettingsWrite, p: (String, ProviderConfig)) -> bool {
    w matches SettingsWrite::UpsertConnection { kind, provider_id, base_url, api_key } && kind@
        == "stt"@ && provider_id@ == p.0@ && base_url@ == or_empty(p.1.base_url) && api_key@
        == or_empty(p.1.api_key)
}

/// The writes that move settings read from the old settings file into the database:
/// none once the database holds any setting or connection, or when the file gave
/// nothing; else the current provider, the current model (each when set), then every
/// provider's connection.
pub fn migration_writes(has_settings: bool, has_connections: bool, from_file: Option<&Settings>) -> (r:
    Vec<SettingsWrite>)
    ensures
        (has_settings || has_connections || from_file is None) ==> r@.len() == 0,
        !(has_settings || has_connections) ==> match from_file {
            None => r@.len() == 0,
            Some(s) => {
                let head = (if s.current_stt_provider is Some { 1int } else { 0 }) + (if s.current_stt_model is Some {
                    1int
                } else {
                    0
                });
                &&& r@.len() == head + s.stt_providers@.len()
                &&& s.current_stt_provider matches Some(v) ==> (r@[0] matches SettingsWrite::SetSetting {
                    key,
                    value,
                } && key@ == "current_stt_provider"@ && value@ == v@)
                &&& s.current_stt_model matches Some(v) ==> (r@[head - 1] matches SettingsWrite::SetSetting {
                    key,
                    value,
                } && key@ == "current_stt_model"@ && value@ == v@)
                &&& forall|k: int|
                    0 <= k < s.stt_providers@.len() ==> #[trigger] is_connection_write(
                        r@[head + k],
                        s.stt_providers@[k],
                    )
            },
        },
{
    let mut out: Vec<SettingsWrite> = Vec::new();
    if has_settings || has_connections {
        return out;
    }
    let s = match from_file {
        Some(s) => s,
        None => {
            return out;
        },
    };
    match &s.current_stt_provider {
        Some(v) => out.push(SettingsWrite::SetSetting { key: "current_stt_provider", value: v.clone() }),
        None => {},
    }
    match &s.current_stt_model {
        Some(v) => out.push(SettingsWrite::SetSetting { key: "current_stt_model", value: v.clone() }),
        None => {},
    }
    let head = out.len();
    let mut k: usize = 0;
    while k < s.stt_providers.len()
        invariant
            k <= s.stt_providers@.len(),
            head == (if s.current_stt_provider is Some { 1int } else { 0 }) + (if s.current_stt_model is Some {
                1int
            } else {
                0
            }),
            out@.len() == head + k,
            s.current_stt_provider matches Some(v) ==> (out@[0] matches SettingsWrite::SetSetting {
                key,
                value,
            } && key@ == "current_stt_provider"@ && value@ == v@),
            s.current_stt_model matches Some(v) ==> (out@[head - 1] matches SettingsWrite::SetSetting {
                key,
                value,
            } && key@ == "current_stt_model"@ && value@ == v@),
            forall|m: int| 0 <= m < k ==> #[trigger] is_connection_write(out@[head + m], s.stt_providers@[m]),
        decreases s.stt_providers@.len() - k,
    {
        let (id, config) = &s.stt_providers[k];
        let w = SettingsWrite::UpsertConnection {
            kind: "stt",
            provider_id: id.clone(),
            base_url: clone_or_empty(&config.base_url),
            api_key: clone_or_empty(&config.api_key),
        };
        out.push(w);
        k = k + 1;
    }
    out
}


/// What settings hold: the current provider, the current model, and each provider's
/// configuration by id.
pub type SettingsView = (Option<Seq<char>>, Option<Seq<char>>, Map<Seq<char>, ConfigView>);

pub open spec fn settings_view(s: Settings) -> SettingsView {
    (opt_view(s.current_stt_provider), opt_view(s.current_stt_model), provider_map(s.stt_providers@))
}

/// A provider's value in the settings file: a string, trimmed, absent when empty.
pub open spec fn json_config_value(v: Option<JsonValue>) -> Option<Seq<char>> {
    match json_string(v) {
        Some(s) => nonempty_view(trim_seq(s)),
        None => None,
    }
}

/// A provider's configuration object in the settings file.
pub open spec fn json_provider_config(cfg: Seq<(String, JsonValue)>) -> ConfigView {
    (json_config_value(json_get(cfg, "base_url"@)), json_config_value(json_get(cfg, "api_key"@)))
}

/// The providers of the file's `stt` object: each member whose value is an object, by
/// its name; other members are passed over.
pub open spec fn json_providers(entries: Seq<(String, JsonValue)>) -> Map<Seq<char>, ConfigView>
    decreases entries.len(),
{
    if entries.len() == 0 {
        Map::empty()
    } else {
        let rest = json_providers(entries.drop_last());
        match entries.last().1 {
            JsonValue::Object(cfg) => rest.insert(entries.last().0@, json_provider_config(cfg@)),
            _ => rest,
        }
    }
}

pub open spec fn json_stt_providers(v: Option<JsonValue>) -> Map<Seq<char>, ConfigView> {
    match v {
        Some(JsonValue::Object(entries)) => json_providers(entries@),
        _ => Map::empty(),
    }
}

/// The settings the old settings file gives: its `ai` object must be there; the current
/// provider and model are its string members of those names (as written), and the
/// providers come from its `stt` object.
pub open spec fn json_settings(v: JsonValue) -> Option<SettingsView> {
    match v {
        JsonValue::Object(top) => match json_get(top@, "ai"@) {
            Some(JsonValue::Object(ai)) => Some(
                (
                    json_string(json_get(ai@, "current_stt_provider"@)),
                    json_string(json_get(ai@, "current_stt_model"@)),
                    json_stt_providers(json_get(ai@, "stt"@)),
                ),
            ),
            _ => None,
        },
        _ => None,
    }
}

fn json_opt_string(v: Option<&JsonValue>) -> (r: Option<String>)
    ensures
        opt_view(r) == json_string(match v { Some(x) => Some(*x), None => None }),
{
    match json_as_str(v) {
        Some(s) => Some(String::from_str(s)),
        None => None,
    }
}

/// The providers of the file's `stt` object, as `parse_provider_map` reads them.
pub fn providers_from_json(v: Option<&JsonValue>) -> (r: Vec<(String, ProviderConfig)>)
    ensures
        keys_distinct(r@),
        provider_map(r@) == json_stt_providers(match v { Some(x) => Some(*x), None => None }),
{
    let mut out: Vec<(String, ProviderConfig)> = Vec::new();
    let entries = match v {
        Some(JsonValue::Object(entries)) => entries,
        _ => {
            assert(provider_map(out@) =~= Map::<Seq<char>, ConfigView>::empty());
            return out;
        },
    };
    assert(provider_map(out@) =~= Map::<Seq<char>, ConfigView>::empty());
    assert(entries@.take(0) =~= Seq::<(String, JsonValue)>::empty());
    let mut k: usize = 0;
    while k < entries.len()
        invariant
            k <= entries@.len(),
            keys_distinct(out@),
            provider_map(out@) == json_providers(entries@.take(k as int)),
        decreases entries@.len() - k,
    {
        assert(entries@.take(k + 1).drop_last() =~= entries@.take(k as int));
        assert(entries@.take(k + 1).last() == entries@[k as int]);
        let (id, value) = &entries[k];
        match value {
            JsonValue::Object(cfg) => {
                let base_url = json_as_str(json_lookup(cfg, "base_url"));
                let api_key = json_as_str(json_lookup(cfg, "api_key"));
                let config = provider_config_from_values(base_url, api_key);
                proof {
                    assert(config_view(config) == json_provider_config(cfg@));
                }
                insert_provider(&mut out, id.clone(), config);
            },
            _ => {},
        }
        k = k + 1;
    }
    assert(entries@.take(k as int) =~= entries@);
    out
}

/// The settings read from the old settings file's parsed contents, as
/// `load_settings_from_json` reads them; `None` without an `ai` object.
pub fn settings_from_json(v: &JsonValue) -> (r: Option<Settings>)
    ensures
        match r {
            Some(s) => s.wf() && json_settings(*v) == Some(settings_view(s)),
            None => json_settings(*v) is None,
        },
{
    let top = match v {
        JsonValue::Object(top) => top,
        _ => {
            return None;
        },
    };
    let ai = match json_lookup(top, "ai") {
        Some(JsonValue::Object(ai)) => ai,
        _ => {
            return None;
        },
    };
    let current_stt_provider = json_opt_string(json_lookup(ai, "current_stt_provider"));
    let current_stt_model = json_opt_string(json_lookup(ai, "current_stt_model"));
    let stt_providers = providers_from_json(json_lookup(ai, "stt"));
    Some(Settings { current_stt_provider, current_stt_model, stt_providers })
}

/// The settings read from the old settings file's text: `None` when it is not JSON or
/// has no `ai` object.
pub fn settings_from_json_text(content: &str) -> (r: Option<Settings>)
    ensures
        match json_of(content@) {
            None => r is None,
            Some(v) => match r {
                Some(s) => s.wf() && json_settings(v) == Some(settings_view(s)),
                None => json_settings(v) is None,
            },
        },
{
    match parse_json(content) {
        Some(v) => settings_from_json(&v),
        None => None,
    }
}

} // verus!
