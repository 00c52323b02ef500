//! Calendar synchronisation: which providers are connected, which stored calendars
//! a sync removes or refreshes, and the records it writes.
use vstd::prelude::*;
use vstd::string::*;
use crate::ids::{is_v4_uuid_text, new_uuid_v4_string};
use crate::text::str_eq;

verus! {

/// A calendar service.
#[derive(Clone, Copy, Debug, PartialEq, Eq, Structural)]
pub enum CalendarProviderType {
    Apple,
    Google,
    Outlook,
}

pub open spec fn provider_name(p: CalendarProviderType) -> Seq<char> {
    match p {
        CalendarProviderType::Apple => "apple"@,
        CalendarProviderType::Google => "google"@,
        CalendarProviderType::Outlook => "outlook"@,
    }
}

/// The name under which a provider's calendars are stored.
pub fn provider_to_str(provider: &CalendarProviderType) -> (r: &'static str)
    ensures
        r@ == provider_name(*provider),
{
    match provider {
        CalendarProviderType::Apple => "apple",
        CalendarProviderType::Google => "google",
        CalendarProviderType::Outlook => "outlook",
    }
}

/// The providers offered on a platform: Apple's calendar on macOS only.
pub fn available_providers(macos: bool) -> (r: Vec<CalendarProviderType>)
    ensures
        macos ==> r@ == seq![
            CalendarProviderType::Apple,
            CalendarProviderType::Google,
            CalendarProviderType::Outlook,
        ],
        !macos ==> r@ == seq![CalendarProviderType::Google, CalendarProviderType::Outlook],
{
    if macos {
        vec![CalendarProviderType::Apple, CalendarProviderType::Google, CalendarProviderType::Outlook]
    } else {
        vec![CalendarProviderType::Google, CalendarProviderType::Outlook]
    }
}

/// The connections a user has with one provider.
pub struct ProviderConnectionIds {
    pub provider: CalendarProviderType,
    pub connection_ids: Vec<String>,
}

pub open spec fn integration_provider(id: Seq<char>) -> Option<CalendarProviderType> {
    if id == "google-calendar"@ {
        Some(CalendarProviderType::Google)
    } else if id == "outlook-calendar"@ {
        Some(CalendarProviderType::Outlook)
    } else {
        None
    }
}

/// The calendar provider behind an integration of the connection service, if it is one.
pub fn provider_for_integration(integration_id: &str) -> (r: Option<CalendarProviderType>)
    ensures
        r == integration_provider(integration_id@),
{
    if str_eq(integration_id, "google-calendar") {
        Some(CalendarProviderType::Google)
    } else if str_eq(integration_id, "outlook-calendar") {
        Some(CalendarProviderType::Outlook)
    } else {
        None
    }
}

/// Whether an access token was given: the connection service is asked only then.
pub fn has_access_token(access_token: Option<&str>) -> (r: bool)
    ensures
        r == match access_token {
            Some(t) => t@.len() > 0,
            None => false,
        },
{
    match access_token {
        Some(t) => t.unicode_len() > 0,
        None => false,
    }
}

pub open spec fn pc_view(p: ProviderConnectionIds) -> (CalendarProviderType, Seq<Seq<char>>) {
    (p.provider, p.connection_ids@.map_values(|s: String| s@))
}

/// The calendar entries among the integrations the connection service listed.
pub open spec fn listed_connections(fetched: Seq<(String, Vec<String>)>) -> Seq<
    (CalendarProviderType, Seq<Seq<char>>),
>
    decreases fetched.len(),
{
    if fetched.len() == 0 {
        Seq::empty()
    } else {
        listed_connections(fetched.drop_last()) + match integration_provider(fetched.last().0@) {
            Some(p) => seq![(p, fetched.last().1@.map_values(|s: String| s@))],
            None => Seq::empty(),
        }
    }
}

/// The providers and connections to sync: Apple's calendar when it may be read
/// (`apple` is true only on macOS with access granted), then the calendar integrations
/// that the connection service listed, in its order (`fetched` is `None` when no
/// access token was given and the service was not asked).
pub fn connection_ids_from(
    apple: bool,
    fetched: Option<Vec<(String, Vec<String>)>>,
) -> (r: Vec<ProviderConnectionIds>)
    ensures
        r@.map_values(|p: ProviderConnectionIds| pc_view(p)) == (if apple {
            seq![(CalendarProviderType::Apple, seq!["apple"@])]
        } else {
            Seq::empty()
        }) + match fetched {
            Some(f) => listed_connections(f@),
            None => Seq::empty(),
        },
{
    let mut result: Vec<ProviderConnectionIds> = Vec::new();
    if apple {
        let ids = vec![String::from_str("apple")];
        assert(ids@.map_values(|s: String| s@) =~= seq!["apple"@]);
        result.push(ProviderConnectionIds { provider: CalendarProviderType::Apple, connection_ids: ids });
    }
    let ghost head = result@.map_values(|p: ProviderConnectionIds| pc_view(p));
    assert(head =~= if apple {
        seq![(CalendarProviderType::Apple, seq!["apple"@])]
    } else {
        Seq::empty()
    });
    match fetched {
        None => {
            assert(head + Seq::empty() =~= head);
        },
        Some(all) => {
            let ghost f = all@;
            let mut pending = all;
            let total = pending.len();
            let mut k: usize = 0;
            assert(f.skip(0) =~= f);
            assert(f.take(0) =~= Seq::<(String, Vec<String>)>::empty());
            while pending.len() > 0
                invariant
                    k <= f.len(),
                    f.len() == total,
                    pending@ == f.skip(k as int),
                    result@.map_values(|p: ProviderConnectionIds| pc_view(p)) == head
                        + listed_connections(f.take(k as int)),
                decreases pending@.len(),
            {
                let entry = pending.remove(0);
                assert(entry == f[k as int]);
                assert(pending@ =~= f.skip(k + 1));
                assert(f.take(k + 1).drop_last() =~= f.take(k as int));
                assert(f.take(k + 1).last() == entry);
                let (integration_id, connection_ids) = entry;
                let ghost before = result@;
                match provider_for_integration(integration_id.as_str()) {
                    Some(provider) => {
                        result.push(ProviderConnectionIds { provider, connection_ids });
                        assert(result@.map_values(|p: ProviderConnectionIds| pc_view(p))
                            =~= before.map_values(|p: ProviderConnectionIds| pc_view(p)).push(
                            pc_view(result@.last()),
                        ));
                    },
                    None => {},
                }
                proof {
                    assert(head + listed_connections(f.take(k + 1)) =~= head + listed_connections(
                        f.take(k as int),
                    ) + match integration_provider(f.take(k + 1).last().0@) {
                        Some(p) => seq![(p, f.take(k + 1).last().1@.map_values(|s: String| s@))],
                        None => Seq::empty(),
                    });
                }
                k = k + 1;
            }
            assert(f.take(k as int) =~= f);
        },
    }
    result
}

/// Whether `provider` has at least one connection in `all`.
pub fn is_provider_enabled(all: &Vec<ProviderConnectionIds>, provider: CalendarProviderType) -> (r:
    bool)
    ensures
        r == exists|i: int|
            0 <= i < all@.len() && (#[trigger] all@[i]).provider == provider
                && all@[i].connection_ids@.len() > 0,
{
    let mut i: usize = 0;
    while i < all.len()
        invariant
            i <= all@.len(),
            forall|j: int|
                0 <= j < i ==> !((#[trigger] all@[j]).provider == provider
                    && all@[j].connection_ids@.len() > 0),
        decreases all@.len() - i,
    {
        if all[i].provider == provider && all[i].connection_ids.len() > 0 {
            assert(all@[i as int].provider == provider);
            return true;
        }
        i = i + 1;
    }
    false
}

/// An error of the calendar providers.
pub enum CalendarError {
    UnsupportedOperation { operation: &'static str, provider: CalendarProviderType },
}

/// Opening the calendar app and creating events work with Apple's calendar only.
pub fn check_apple_only(operation: &'static str, provider: CalendarProviderType) -> (r: Result<
    (),
    CalendarError,
>)
    ensures
        provider == CalendarProviderType::Apple <==> r is Ok,
        r matches Err(CalendarError::UnsupportedOperation { operation: o, provider: p }) ==> o
            == operation && p == provider,
{
    match provider {
        CalendarProviderType::Apple => Ok(()),
        _ => Err(CalendarError::UnsupportedOperation { operation, provider }),
    }
}

/// Why a sync stopped.
pub enum SyncError {
    Storage(String),
    Provider(String),
}

impl SyncError {
    /// The error's text: `storage: ` or `provider: ` and the cause.
    pub fn message(&self) -> (r: String)
        ensures
            match self {
                SyncError::Storage(m) => r@ == "storage: "@ + m@,
                SyncError::Provider(m) => r@ == "provider: "@ + m@,
            },
    {
        match self {
            SyncError::Storage(m) => {
                let mut s = String::from_str("storage: ");
                s.append(m.as_str());
                s
            },
            SyncError::Provider(m) => {
                let mut s = String::from_str("provider: ");
                s.append(m.as_str());
                s
            },
        }
    }
}

/// A calendar as a provider lists it.
pub struct CalendarListItem {
    pub id: String,
    pub title: String,
    pub color: Option<String>,
    pub source: Option<String>,
}

/// A calendar as stored locally.
pub struct StoredCalendar {
    pub id: String,
    pub provider: String,
    pub connection_id: String,
    pub tracking_id: String,
    pub name: String,
    pub color: String,
    pub source: String,
    pub enabled: bool,
}

/// An event as stored locally.
pub struct StoredEvent {
    pub id: String,
    pub user_id: String,
    pub calendar_id: String,
    pub tracking_id: String,
    pub title: String,
    pub started_at: String,
    pub ended_at: String,
    pub location: String,
    pub meeting_link: String,
    pub description: String,
    pub note: String,
    pub recurrence_series_id: String,
    pub has_recurrence_rules: bool,
    pub is_all_day: bool,
    pub participants_json: String,
    pub raw_json: String,
    pub created_at: String,
}

/// An event to be written.
pub struct UpsertEvent {
    pub id: String,
    pub user_id: String,
    pub calendar_id: String,
    pub tracking_id: String,
    pub title: String,
    pub started_at: String,
    pub ended_at: String,
    pub location: String,
    pub meeting_link: String,
    pub description: String,
    pub note: String,
    pub recurrence_series_id: String,
    pub has_recurrence_rules: bool,
    pub is_all_day: bool,
    pub participants_json: String,
    pub raw_json: String,
}

/// A calendar to be written.
pub struct UpsertCalendar {
    pub id: String,
    pub provider: String,
    pub connection_id: String,
    pub tracking_id: String,
    pub name: String,
    pub color: String,
    pub source: String,
    pub enabled: bool,
}

/// Where calendars and events are kept; the application implements it over its database.
pub trait CalendarStorage {
    fn list_all_calendars_for_provider(&self, provider: &str) -> Result<Vec<StoredCalendar>, String>;

    fn list_enabled_calendars(&self, provider: &str, connection_id: &str) -> Result<
        Vec<StoredCalendar>,
        String,
    >;

    fn list_events_for_calendars(&self, calendar_ids: &Vec<String>, from: &str, to: &str) -> Result<
        Vec<StoredEvent>,
        String,
    >;

    fn upsert_event(&self, event: UpsertEvent) -> Result<(), String>;

    fn delete_event(&self, id: &str) -> Result<(), String>;

    fn upsert_calendar(&self, cal: UpsertCalendar) -> Result<(), String>;

    fn delete_calendar(&self, id: &str) -> Result<(), String>;

    fn delete_events_by_calendar(&self, calendar_id: &str) -> Result<(), String>;
}

/// A calendar a sync writes.
pub struct CalendarToUpsert {
    pub tracking_id: String,
    pub connection_id: String,
    pub name: String,
    pub color: String,
    pub source: String,
    pub provider: String,
}

/// What a calendar sync changes: calendars to write, and stored calendars to remove.
pub struct CalendarSyncPlan {
    pub to_upsert: Vec<CalendarToUpsert>,
    pub to_delete: Vec<String>,
}

/// Tracking id, connection, name, colour, source and provider.
pub type UpsertView = (Seq<char>, Seq<char>, Seq<char>, Seq<char>, Seq<char>, Seq<char>);

pub open spec fn to_upsert_view(c: CalendarToUpsert) -> UpsertView {
    (c.tracking_id@, c.connection_id@, c.name@, c.color@, c.source@, c.provider@)
}

/// Colour given to calendars that have none.
pub const DEFAULT_CALENDAR_COLOR: &'static str = "#888";

pub open spec fn upsert_of(conn: Seq<char>, c: CalendarListItem, provider: Seq<char>) -> UpsertView {
    (
        c.id@,
        conn,
        c.title@,
        match c.color {
            Some(s) => s@,
            None => "#888"@,
        },
        match c.source {
            Some(s) => s@,
            None => Seq::empty(),
        },
        provider,
    )
}

pub open spec fn upserts_of_connection(
    conn: Seq<char>,
    cals: Seq<CalendarListItem>,
    provider: Seq<char>,
) -> Seq<UpsertView> {
    cals.map_values(|c: CalendarListItem| upsert_of(conn, c, provider))
}

/// Every listed calendar, connection by connection, to be written under `provider`.
pub open spec fn planned_upserts(
    incoming: Seq<(String, Vec<CalendarListItem>)>,
    provider: Seq<char>,
) -> Seq<UpsertView>
    decreases incoming.len(),
{
    if incoming.len() == 0 {
        Seq::empty()
    } else {
        planned_upserts(incoming.drop_last(), provider) + upserts_of_connection(
            incoming.last().0@,
            incoming.last().1@,
            provider,
        )
    }
}

/// Whether some connection lists a calendar with tracking id `t`.
pub open spec fn incoming_has(incoming: Seq<(String, Vec<CalendarListItem>)>, t: Seq<char>) -> bool {
    exists|i: int, j: int|
        #![trigger incoming[i].1@[j]]
        0 <= i < incoming.len() && 0 <= j < incoming[i].1@.len() && incoming[i].1@[j].id@ == t
}

/// Whether a stored calendar goes: it is the provider's and no connection lists it any more.
pub open spec fn is_stale(
    e: StoredCalendar,
    incoming: Seq<(String, Vec<CalendarListItem>)>,
    provider: Seq<char>,
) -> bool {
    e.provider@ == provider && !incoming_has(incoming, e.tracking_id@)
}

/// The ids of the stale stored calendars, in stored order.
pub open spec fn stale_ids(
    existing: Seq<StoredCalendar>,
    incoming: Seq<(String, Vec<CalendarListItem>)>,
    provider: Seq<char>,
) -> Seq<Seq<char>>
    decreases existing.len(),
{
    if existing.len() == 0 {
        Seq::empty()
    } else {
        stale_ids(existing.drop_last(), incoming, provider) + if is_stale(
            existing.last(),
            incoming,
            provider,
        ) {
            seq![existing.last().id@]
        } else {
            Seq::empty()
        }
    }
}

fn clone_opt_or(o: &Option<String>, default: &str) -> (r: String)
    ensures
        r@ == match o {
            Some(s) => s@,
            None => default@,
        },
{
    match o {
        Some(s) => s.clone(),
        None => String::from_str(default),
    }
}

/// Whether a calendar with tracking id `t` is listed.
fn incoming_contains(incoming: &Vec<(String, Vec<CalendarListItem>)>, t: &str) -> (r: bool)
    ensures
        r == incoming_has(incoming@, t@),
{
    let mut i: usize = 0;
    while i < incoming.len()
        invariant
            i <= incoming@.len(),
            forall|a: int, b: int|
                #![trigger incoming@[a].1@[b]]
                0 <= a < i && 0 <= b < incoming@[a].1@.len() ==> incoming@[a].1@[b].id@ != t@,
        decreases incoming@.len() - i,
    {
        let cals = &incoming[i].1;
        let mut j: usize = 0;
        while j < cals.len()
            invariant
                i < incoming@.len(),
                *cals == incoming@[i as int].1,
                j <= cals@.len(),
                forall|a: int, b: int|
                    #![trigger incoming@[a].1@[b]]
                    0 <= a < i && 0 <= b < incoming@[a].1@.len() ==> incoming@[a].1@[b].id@ != t@,
                forall|b: int| 0 <= b < j ==> (#[trigger] cals@[b]).id@ != t@,
            decreases cals@.len() - j,
        {
            if str_eq(cals[j].id.as_str(), t) {
                assert(incoming@[i as int].1@[j as int].id@ == t@);
                return true;
            }
            j = j + 1;
        }
        assert forall|a: int, b: int|
            #![trigger incoming@[a].1@[b]]
            0 <= a < i + 1 && 0 <= b < incoming@[a].1@.len() implies incoming@[a].1@[b].id@ != t@ by {
            if a == i {
                assert(cals@[b] == incoming@[a].1@[b]);
            }
        }
        i = i + 1;
    }
    false
}

/// The calendar sync plan: every calendar the connections list is written under
/// `provider`, connection by connection in list order (colour `#888` and an empty source
/// where the provider gives none), and every stored calendar of `provider` that no
/// connection lists any more is removed.
pub fn compute_calendar_sync(
    incoming: &Vec<(String, Vec<CalendarListItem>)>,
    existing: &Vec<StoredCalendar>,
    provider: &str,
) -> (plan: CalendarSyncPlan)
    ensures
        plan.to_delete@.map_values(|s: String| s@) == stale_ids(existing@, incoming@, provider@),
        plan.to_upsert@.map_values(|c: CalendarToUpsert| to_upsert_view(c)) == planned_upserts(
            incoming@,
            provider@,
        ),
{
    let mut to_delete: Vec<String> = Vec::new();
    let mut i: usize = 0;
    while i < existing.len()
        invariant
            i <= existing@.len(),
            to_delete@.map_values(|s: String| s@) == stale_ids(
                existing@.take(i as int),
                incoming@,
                provider@,
            ),
        decreases existing@.len() - i,
    {
        let e = &existing[i];
        let ghost before = to_delete@;
        assert(existing@.take(i + 1).drop_last() =~= existing@.take(i as int));
        assert(existing@.take(i + 1).last() == *e);
        if str_eq(e.provider.as_str(), provider) && !incoming_contains(incoming, e.tracking_id.as_str()) {
            to_delete.push(e.id.clone());
            assert(to_delete@.map_values(|s: String| s@) =~= before.map_values(|s: String| s@).push(
                e.id@,
            ));
        } else {
            assert(stale_ids(existing@.take(i + 1), incoming@, provider@) =~= stale_ids(
                existing@.take(i as int),
                incoming@,
                provider@,
            ));
        }
        i = i + 1;
    }
    assert(existing@.take(existing@.len() as int) =~= existing@);
    let mut to_upsert: Vec<CalendarToUpsert> = Vec::new();
    let mut c: usize = 0;
    while c < incoming.len()
        invariant
            c <= incoming@.len(),
            to_upsert@.map_values(|u: CalendarToUpsert| to_upsert_view(u)) == planned_upserts(
                incoming@.take(c as int),
                provider@,
            ),
        decreases incoming@.len() - c,
    {
        let connection_id = &incoming[c].0;
        let cals = &incoming[c].1;
        let ghost base = to_upsert@.map_values(|u: CalendarToUpsert| to_upsert_view(u));
        let mut j: usize = 0;
        while j < cals.len()
            invariant
                c < incoming@.len(),
                *cals == incoming@[c as int].1,
                *connection_id == incoming@[c as int].0,
                j <= cals@.len(),
                base == planned_upserts(incoming@.take(c as int), provider@),
                to_upsert@.map_values(|u: CalendarToUpsert| to_upsert_view(u)) == base
                    + upserts_of_connection(connection_id@, cals@.take(j as int), provider@),
            decreases cals@.len() - j,
        {
            let cal = &cals[j];
            let ghost prev = to_upsert@;
            to_upsert.push(
                CalendarToUpsert {
                    tracking_id: cal.id.clone(),
                    connection_id: connection_id.clone(),
                    name: cal.title.clone(),
                    color: clone_opt_or(&cal.color, DEFAULT_CALENDAR_COLOR),
                    source: clone_opt_or(&cal.source, ""),
                    provider: String::from_str(provider),
                },
            );
            proof {
                reveal_strlit("#888");
                reveal_strlit("");
                assert(to_upsert_view(to_upsert@.last()) == upsert_of(connection_id@, *cal, provider@));
                assert(to_upsert@ =~= prev.push(to_upsert@.last()));
                assert(cals@.take(j + 1) =~= cals@.take(j as int).push(*cal));
                assert(to_upsert@.map_values(|u: CalendarToUpsert| to_upsert_view(u)) =~= prev.map_values(
                    |u: CalendarToUpsert| to_upsert_view(u),
                ).push(upsert_of(connection_id@, *cal, provider@)));
                assert(upserts_of_connection(connection_id@, cals@.take(j + 1), provider@)
                    =~= upserts_of_connection(connection_id@, cals@.take(j as int), provider@).push(
                    upsert_of(connection_id@, *cal, provider@),
                ));
            }
            j = j + 1;
        }
        proof {
            assert(cals@.take(cals@.len() as int) =~= cals@);
            assert(incoming@.take(c + 1).drop_last() =~= incoming@.take(c as int));
            assert(incoming@.take(c + 1).last() == incoming@[c as int]);
        }
        c = c + 1;
    }
    assert(incoming@.take(incoming@.len() as int) =~= incoming@);
    CalendarSyncPlan { to_upsert, to_delete }
}

/// Every planned calendar is one that some connection lists, under `provider`.
pub proof fn lemma_planned_upserts_listed(
    incoming: Seq<(String, Vec<CalendarListItem>)>,
    provider: Seq<char>,
    k: int,
)
    requires
        0 <= k < planned_upserts(incoming, provider).len(),
    ensures
        incoming_has(incoming, planned_upserts(incoming, provider)[k].0),
        planned_upserts(incoming, provider)[k].5 == provider,
    decreases incoming.len(),
{
    let init = incoming.drop_last();
    let n = planned_upserts(init, provider).len();
    if k < n {
        lemma_planned_upserts_listed(init, provider, k);
        let (i, j) = choose|i: int, j: int|
            #![trigger init[i].1@[j]]
            0 <= i < init.len() && 0 <= j < init[i].1@.len() && init[i].1@[j].id@
                == planned_upserts(init, provider)[k].0;
        assert(incoming[i] == init[i]);
        assert(incoming[i].1@[j].id@ == planned_upserts(incoming, provider)[k].0);
    } else {
        let i = incoming.len() - 1;
        let j = k - n;
        assert(incoming[i].1@[j].id@ == planned_upserts(incoming, provider)[k].0);
    }
}

/// `u` writes the calendar `item` listed by connection `conn`: under the calendar's
/// tracking id, its title as name, its colour (or the default grey) and its source (or
/// none), for `provider`.
pub open spec fn writes_listed(u: UpsertView, conn: Seq<char>, item: CalendarListItem, provider: Seq<char>) -> bool {
    &&& u.0 == item.id@
    &&& u.1 == conn
    &&& u.2 == item.title@
    &&& (item.color matches Some(col) ==> u.3 == col@)
    &&& (item.color is None ==> u.3 == "#888"@)
    &&& (item.source matches Some(src) ==> u.4 == src@)
    &&& (item.source is None ==> u.4.len() == 0)
    &&& u.5 == provider
}

/// Every calendar a sync plans to write is one that a connection listed, written under
/// that connection with the calendar's own title as its name (not its tracking id), its
/// colour and its source.
pub proof fn law_planned_upserts_carry_listing(
    incoming: Seq<(String, Vec<CalendarListItem>)>,
    provider: Seq<char>,
    k: int,
)
    requires
        0 <= k < planned_upserts(incoming, provider).len(),
    ensures
        exists|i: int, j: int|
            #![trigger incoming[i].1@[j]]
            0 <= i < incoming.len() && 0 <= j < incoming[i].1@.len() && writes_listed(
                planned_upserts(incoming, provider)[k],
                incoming[i].0@,
                incoming[i].1@[j],
                provider,
            ),
    decreases incoming.len(),
{
    let init = incoming.drop_last();
    let n = planned_upserts(init, provider).len();
    if k < n {
        law_planned_upserts_carry_listing(init, provider, k);
        let (i, j) = choose|i: int, j: int|
            #![trigger init[i].1@[j]]
            0 <= i < init.len() && 0 <= j < init[i].1@.len() && writes_listed(
                planned_upserts(init, provider)[k],
                init[i].0@,
                init[i].1@[j],
                provider,
            );
        assert(incoming[i] == init[i]);
        assert(planned_upserts(incoming, provider)[k] == planned_upserts(init, provider)[k]);
        assert(writes_listed(planned_upserts(incoming, provider)[k], incoming[i].0@, incoming[i].1@[j], provider));
    } else {
        let i = incoming.len() - 1;
        let j = k - n;
        assert(writes_listed(planned_upserts(incoming, provider)[k], incoming[i].0@, incoming[i].1@[j], provider));
    }
}

/// Number of calendars the connections list.
pub open spec fn listed_count(incoming: Seq<(String, Vec<CalendarListItem>)>) -> nat
    decreases incoming.len(),
{
    if incoming.len() == 0 {
        0
    } else {
        listed_count(incoming.drop_last()) + incoming.last().1@.len()
    }
}

/// A calendar sync never both removes a stored calendar and writes one with the same
/// tracking id; it writes exactly one calendar for each listed calendar, each under the
/// provider being synced; and what it removes belongs to that provider.
pub proof fn law_calendar_sync_plan(
    incoming: Seq<(String, Vec<CalendarListItem>)>,
    existing: Seq<StoredCalendar>,
    provider: Seq<char>,
)
    ensures
        forall|i: int, k: int|
            0 <= i < existing.len() && is_stale(#[trigger] existing[i], incoming, provider) && 0 <= k
                < planned_upserts(incoming, provider).len() ==> #[trigger] planned_upserts(
                incoming,
                provider,
            )[k].0 != existing[i].tracking_id@,
        planned_upserts(incoming, provider).len() == listed_count(incoming),
        forall|k: int|
            0 <= k < planned_upserts(incoming, provider).len() ==> (#[trigger] planned_upserts(
                incoming,
                provider,
            )[k]).5 == provider,
    decreases incoming.len(),
{
    assert forall|i: int, k: int|
        0 <= i < existing.len() && is_stale(#[trigger] existing[i], incoming, provider) && 0 <= k
            < planned_upserts(incoming, provider).len() implies #[trigger] planned_upserts(
        incoming,
        provider,
    )[k].0 != existing[i].tracking_id@ by {
        lemma_planned_upserts_listed(incoming, provider, k);
    }
    assert forall|k: int| 0 <= k < planned_upserts(incoming, provider).len() implies (
    #[trigger] planned_upserts(incoming, provider)[k]).5 == provider by {
        lemma_planned_upserts_listed(incoming, provider, k);
    }
    if incoming.len() > 0 {
        law_calendar_sync_plan(incoming.drop_last(), existing, provider);
    }
}

/// Index of the last stored calendar with tracking id `t` (the one a lookup table
/// built from the list in order keeps).
pub open spec fn last_with_tracking(existing: Seq<StoredCalendar>, t: Seq<char>) -> Option<int>
    decreases existing.len(),
{
    if existing.len() == 0 {
        None
    } else if existing.last().tracking_id@ == t {
        Some(existing.len() - 1)
    } else {
        last_with_tracking(existing.drop_last(), t)
    }
}

proof fn lemma_last_with_tracking_range(existing: Seq<StoredCalendar>, t: Seq<char>)
    ensures
        last_with_tracking(existing, t) matches Some(i) ==> 0 <= i < existing.len()
            && existing[i].tracking_id@ == t,
    decreases existing.len(),
{
    if existing.len() > 0 && existing.last().tracking_id@ != t {
        lemma_last_with_tracking_range(existing.drop_last(), t);
    }
}

/// The index `last_with_tracking` names.
fn find_last_with_tracking(existing: &Vec<StoredCalendar>, t: &str) -> (r: Option<usize>)
    ensures
        match r {
            Some(k) => last_with_tracking(existing@, t@) == Some(k as int),
            None => last_with_tracking(existing@, t@) is None,
        },
{
    let mut i: usize = existing.len();
    proof {
        assert(existing@.take(i as int) =~= existing@);
    }
    while i > 0
        invariant
            i <= existing@.len(),
            last_with_tracking(existing@, t@) == last_with_tracking(existing@.take(i as int), t@),
        decreases i,
    {
        let e = &existing[i - 1];
        assert(existing@.take(i as int).last() == *e);
        assert(existing@.take(i as int).drop_last() =~= existing@.take(i - 1));
        if str_eq(e.tracking_id.as_str(), t) {
            return Some(i - 1);
        }
        i = i - 1;
    }
    None
}

pub open spec fn upsert_calendar_matches(u: UpsertCalendar, cal: CalendarToUpsert) -> bool {
    &&& u.provider@ == cal.provider@
    &&& u.connection_id@ == cal.connection_id@
    &&& u.tracking_id@ == cal.tracking_id@
    &&& u.name@ == cal.name@
    &&& u.color@ == cal.color@
    &&& u.source@ == cal.source@
}

/// The record written for a planned calendar: it keeps the id and the enabled flag of
/// the stored calendar it tracks; a calendar not stored yet gets `fresh_id` and starts
/// disabled.
pub fn calendar_upsert_with_id(
    cal: &CalendarToUpsert,
    existing: &Vec<StoredCalendar>,
    fresh_id: String,
) -> (r: UpsertCalendar)
    ensures
        upsert_calendar_matches(r, *cal),
        match last_with_tracking(existing@, cal.tracking_id@) {
            Some(i) => r.id@ == existing@[i].id@ && r.enabled == existing@[i].enabled,
            None => r.id@ == fresh_id@ && !r.enabled,
        },
{
    proof {
        lemma_last_with_tracking_range(existing@, cal.tracking_id@);
    }
    let (id, enabled) = match find_last_with_tracking(existing, cal.tracking_id.as_str()) {
        Some(i) => (existing[i].id.clone(), existing[i].enabled),
        None => (fresh_id, false),
    };
    UpsertCalendar {
        id,
        provider: cal.provider.clone(),
        connection_id: cal.connection_id.clone(),
        tracking_id: cal.tracking_id.clone(),
        name: cal.name.clone(),
        color: cal.color.clone(),
        source: cal.source.clone(),
        enabled,
    }
}

/// The record written for a planned calendar, with a fresh random id for a calendar not
/// stored yet.
pub fn calendar_upsert(cal: &CalendarToUpsert, existing: &Vec<StoredCalendar>) -> (r: UpsertCalendar)
    ensures
        upsert_calendar_matches(r, *cal),
        match last_with_tracking(existing@, cal.tracking_id@) {
            Some(i) => r.id@ == existing@[i].id@ && r.enabled == existing@[i].enabled,
            None => is_v4_uuid_text(r.id@) && !r.enabled,
        },
{
    proof {
        lemma_last_with_tracking_range(existing@, cal.tracking_id@);
    }
    match find_last_with_tracking(existing, cal.tracking_id.as_str()) {
        Some(_) => calendar_upsert_with_id(cal, existing, String::new()),
        None => {
            let fresh = new_uuid_v4_string();
            calendar_upsert_with_id(cal, existing, fresh)
        },
    }
}

/// Ops `2m` and `2m + 1` remove the events of the `m`-th removed calendar, then the calendar.
pub open spec fn is_delete_pair(ops: Seq<CalendarOp>, ids: Seq<String>, m: int) -> bool {
    &&& ops[2 * m] matches CalendarOp::DeleteEventsByCalendar(id) && id@ == ids[m]@
    &&& ops[2 * m + 1] matches CalendarOp::DeleteCalendar(id) && id@ == ids[m]@
}

/// `op` writes the record for the planned calendar `cal`.
pub open spec fn is_upsert_for(op: CalendarOp, cal: CalendarToUpsert, existing: Seq<StoredCalendar>) -> bool {
    op matches CalendarOp::UpsertCalendar(u) && upsert_calendar_matches(u, cal) && match last_with_tracking(
        existing,
        cal.tracking_id@,
    ) {
        Some(i) => u.id@ == existing[i].id@ && u.enabled == existing[i].enabled,
        None => is_v4_uuid_text(u.id@) && !u.enabled,
    }
}

/// A write a calendar sync makes to storage.
pub enum CalendarOp {
    DeleteEventsByCalendar(String),
    DeleteCalendar(String),
    UpsertCalendar(UpsertCalendar),
}

/// The storage writes of a calendar sync, in the order they are made: for each
/// removed calendar its events and then the calendar itself; then each planned
/// calendar's record.
pub fn calendar_sync_ops(plan: &CalendarSyncPlan, existing: &Vec<StoredCalendar>) -> (r: Vec<
    CalendarOp,
>)
    ensures
        r@.len() == 2 * plan.to_delete@.len() + plan.to_upsert@.len(),
        forall|m: int| 0 <= m < plan.to_delete@.len() ==> #[trigger] is_delete_pair(r@, plan.to_delete@, m),
        forall|m: int|
            0 <= m < plan.to_upsert@.len() ==> #[trigger] is_upsert_for(
                r@[2 * plan.to_delete@.len() + m],
                plan.to_upsert@[m],
                existing@,
            ),
{
    let mut ops: Vec<CalendarOp> = Vec::new();
    let mut k: usize = 0;
    while k < plan.to_delete.len()
        invariant
            k <= plan.to_delete@.len(),
            ops@.len() == 2 * k,
            forall|m: int| 0 <= m < k ==> #[trigger] is_delete_pair(ops@, plan.to_delete@, m),
        decreases plan.to_delete@.len() - k,
    {
        let id = &plan.to_delete[k];
        let ghost before = ops@;
        ops.push(CalendarOp::DeleteEventsByCalendar(id.clone()));
        ops.push(CalendarOp::DeleteCalendar(id.clone()));
        assert forall|m: int| 0 <= m < k + 1 implies #[trigger] is_delete_pair(ops@, plan.to_delete@, m) by {
            if m < k {
                assert(is_delete_pair(before, plan.to_delete@, m));
                assert(ops@[2 * m] == before[2 * m]);
                assert(ops@[2 * m + 1] == before[2 * m + 1]);
            }
        }
        k = k + 1;
    }
    let d = ops.len();
    let mut j: usize = 0;
    while j < plan.to_upsert.len()
        invariant
            j <= plan.to_upsert@.len(),
            d == 2 * plan.to_delete@.len(),
            ops@.len() == d + j,
            forall|m: int| 0 <= m < plan.to_delete@.len() ==> #[trigger] is_delete_pair(ops@, plan.to_delete@, m),
            forall|m: int|
                0 <= m < j ==> #[trigger] is_upsert_for(ops@[d + m], plan.to_upsert@[m], existing@),
        decreases plan.to_upsert@.len() - j,
    {
        let u = calendar_upsert(&plan.to_upsert[j], existing);
        let ghost before = ops@;
        ops.push(CalendarOp::UpsertCalendar(u));
        assert forall|m: int| 0 <= m < plan.to_delete@.len() implies #[trigger] is_delete_pair(
            ops@,
            plan.to_delete@,
            m,
        ) by {
            assert(is_delete_pair(before, plan.to_delete@, m));
            assert(ops@[2 * m] == before[2 * m]);
            assert(ops@[2 * m + 1] == before[2 * m + 1]);
        }
        assert forall|m: int| 0 <= m < j + 1 implies #[trigger] is_upsert_for(
            ops@[d + m],
            plan.to_upsert@[m],
            existing@,
        ) by {
            if m < j {
                assert(ops@[d + m] == before[d + m]);
            }
        }
        j = j + 1;
    }
    ops
}

/// Brings the stored calendars of one provider in line with what its connections list
/// (`per_connection`: each connection whose calendars could be listed, with them): the
/// storage writes of `calendar_sync_ops`, in order, stopping at the first that fails.
pub fn sync_calendars_for_provider<S: CalendarStorage>(
    storage: &S,
    provider: &str,
    per_connection: &Vec<(String, Vec<CalendarListItem>)>,
) -> (r: Result<(), SyncError>)
    ensures
        r matches Err(e) ==> e is Storage,
{
    let existing = match storage.list_all_calendars_for_provider(provider) {
        Ok(v) => v,
        Err(e) => {
            return Err(SyncError::Storage(e));
        },
    };
    let plan = compute_calendar_sync(per_connection, &existing, provider);
    let ops = calendar_sync_ops(&plan, &existing);
    let count = ops.len();
    let mut pending = ops;
    let mut last: Option<Result<(), String>> = None;
    let mut done: usize = 0;
    loop
        invariant
            done <= count,
            pending@.len() == count - done,
            last matches Some(Ok(())) || last is None,
        decreases count - done,
    {
        match calendar_sync_step(count, done, last) {
            CalendarSyncStep::Done(result) => {
                return result;
            },
            CalendarSyncStep::Perform(_) => {
                let op = pending.remove(0);
                let outcome = match op {
                    CalendarOp::DeleteEventsByCalendar(id) => storage.delete_events_by_calendar(id.as_str()),
                    CalendarOp::DeleteCalendar(id) => storage.delete_calendar(id.as_str()),
                    CalendarOp::UpsertCalendar(u) => storage.upsert_calendar(u),
                };
                done = done + 1;
                match outcome {
                    Ok(()) => {
                        last = Some(Ok(()));
                    },
                    Err(e) => {
                        return match calendar_sync_step(count, done, Some(Err(e))) {
                            CalendarSyncStep::Done(result) => result,
                            CalendarSyncStep::Perform(_) => {
                                assert(false);
                                Ok(())
                            },
                        };
                    },
                }
            },
        }
    }
}

/// What applying a calendar sync's storage writes does next.
pub enum CalendarSyncStep {
    /// Make the write at this position.
    Perform(usize),
    /// Stop, with this outcome.
    Done(Result<(), SyncError>),
}

/// The next step of making `count` storage writes in order, `done` of them made, given
/// how the last one went (`None` before the first): a failed write ends the sync with
/// its error; otherwise the next write is made, and after the last one the sync succeeds.
pub fn calendar_sync_step(count: usize, done: usize, last: Option<Result<(), String>>) -> (r:
    CalendarSyncStep)
    requires
        done <= count,
    ensures
        match last {
            Some(Err(e)) => r matches CalendarSyncStep::Done(Err(SyncError::Storage(m))) && m@ == e@,
            _ => if done < count {
                r == CalendarSyncStep::Perform(done)
            } else {
                r matches CalendarSyncStep::Done(Ok(()))
            },
        },
{
    match last {
        Some(Err(e)) => CalendarSyncStep::Done(Err(SyncError::Storage(e))),
        _ => if done < count {
            CalendarSyncStep::Perform(done)
        } else {
            CalendarSyncStep::Done(Ok(()))
        },
    }
}

/// The local calendar an event is filed under: the enabled calendar with the event's
/// calendar tracking id (the last such), else `fallback`.
pub fn event_calendar_id(enabled: &Vec<StoredCalendar>, tracking_calendar: &str, fallback: &str) -> (r:
    String)
    ensures
        match last_with_tracking(enabled@, tracking_calendar@) {
            Some(i) => r@ == enabled@[i].id@,
            None => r@ == fallback@,
        },
{
    proof {
        lemma_last_with_tracking_range(enabled@, tracking_calendar@);
    }
    match find_last_with_tracking(enabled, tracking_calendar) {
        Some(i) => enabled[i].id.clone(),
        None => String::from_str(fallback),
    }
}

/// The ids of the enabled calendars whose events are read back.
pub fn calendar_ids(enabled: &Vec<StoredCalendar>) -> (r: Vec<String>)
    ensures
        r@.map_values(|s: String| s@) == enabled@.map_values(|c: StoredCalendar| c.id@),
{
    let mut out: Vec<String> = Vec::new();
    let mut i: usize = 0;
    while i < enabled.len()
        invariant
            i <= enabled@.len(),
            out@.map_values(|s: String| s@) == enabled@.take(i as int).map_values(
                |c: StoredCalendar| c.id@,
            ),
        decreases enabled@.len() - i,
    {
        let ghost before = out@;
        out.push(enabled[i].id.clone());
        assert(enabled@.take(i + 1) =~= enabled@.take(i as int).push(enabled@[i as int]));
        assert(out@.map_values(|s: String| s@) =~= before.map_values(|s: String| s@).push(
            enabled@[i as int].id@,
        ));
        assert(enabled@.take(i + 1).map_values(|c: StoredCalendar| c.id@) =~= enabled@.take(
            i as int,
        ).map_values(|c: StoredCalendar| c.id@).push(enabled@[i as int].id@));
        i = i + 1;
    }
    assert(enabled@.take(enabled@.len() as int) =~= enabled@);
    out
}

/// One day, in milliseconds.
pub const DAY_MILLIS: i64 = 86_400_000;

/// The span of time whose events are synced, in milliseconds since the epoch: from a
/// week before `now_ms` to thirty days after it.
pub fn event_sync_window(now_ms: i64) -> (r: (i64, i64))
    requires
        i64::MIN + 7 * DAY_MILLIS <= now_ms <= i64::MAX - 30 * DAY_MILLIS,
    ensures
        r.0 == now_ms - 7 * DAY_MILLIS,
        r.1 == now_ms + 30 * DAY_MILLIS,
{
    (now_ms - 7 * DAY_MILLIS, now_ms + 30 * DAY_MILLIS)
}

/// An event as a provider lists it, in the form the sync compares and writes.
pub struct IncomingEvent {
    pub tracking_id_event: String,
    pub tracking_id_calendar: String,
    pub title: String,
    pub started_at: String,
    pub ended_at: String,
    pub location: String,
    pub meeting_link: String,
    pub description: String,
    pub recurrence_series_id: String,
    pub has_recurrence_rules: bool,
    pub is_all_day: bool,
}

/// A stored event that changed at the provider, with its participants already written
/// as JSON.
pub struct EventUpdate {
    pub id: String,
    pub user_id: String,
    pub calendar_id: String,
    pub incoming: IncomingEvent,
    pub participants_json: String,
}

/// An event new at the provider, with its participants already written as JSON.
pub struct EventAdd {
    pub incoming: IncomingEvent,
    pub participants_json: String,
}

/// What an event sync changes: the stored events to remove, update and add.
pub struct EventSyncPlan {
    pub to_delete: Vec<String>,
    pub to_update: Vec<EventUpdate>,
    pub to_add: Vec<EventAdd>,
}

/// A write an event sync makes to storage.
pub enum EventOp {
    DeleteEvent(String),
    UpsertEvent(UpsertEvent),
}

/// The local calendar id of `tracking_calendar` among the enabled calendars (the last
/// with that tracking id), else `fallback`.
pub open spec fn local_calendar(enabled: Seq<StoredCalendar>, tracking_calendar: Seq<char>, fallback: Seq<char>) -> Seq<char> {
    match last_with_tracking(enabled, tracking_calendar) {
        Some(i) => enabled[i].id@,
        None => fallback,
    }
}

/// `op` removes the stored event `id`.
pub open spec fn is_delete_of(op: EventOp, id: String) -> bool {
    op matches EventOp::DeleteEvent(x) && x@ == id@
}

/// `e` carries the provider's fields of `inc`, the participants' JSON, an empty note and
/// no raw payload.
pub open spec fn carries_incoming(e: UpsertEvent, inc: IncomingEvent, participants_json: Seq<char>) -> bool {
    &&& e.tracking_id@ == inc.tracking_id_event@
    &&& e.title@ == inc.title@
    &&& e.started_at@ == inc.started_at@
    &&& e.ended_at@ == inc.ended_at@
    &&& e.location@ == inc.location@
    &&& e.meeting_link@ == inc.meeting_link@
    &&& e.description@ == inc.description@
    &&& e.note@ == Seq::<char>::empty()
    &&& e.recurrence_series_id@ == inc.recurrence_series_id@
    &&& e.has_recurrence_rules == inc.has_recurrence_rules
    &&& e.is_all_day == inc.is_all_day
    &&& e.participants_json@ == participants_json
    &&& e.raw_json@ == Seq::<char>::empty()
}

/// `op` writes the update `u`: under the stored event's id and user, filed under the
/// enabled calendar the provider names, else under the calendar it was stored in.
pub open spec fn is_update_for(op: EventOp, u: EventUpdate, enabled: Seq<StoredCalendar>) -> bool {
    op matches EventOp::UpsertEvent(e) && e.id@ == u.id@ && e.user_id@ == u.user_id@
        && e.calendar_id@ == local_calendar(enabled, u.incoming.tracking_id_calendar@, u.calendar_id@)
        && carries_incoming(e, u.incoming, u.participants_json@)
}

/// `op` writes the new event `a`: under a fresh random id and the syncing user, filed
/// under the enabled calendar the provider names, else under no calendar.
pub open spec fn is_add_for(op: EventOp, a: EventAdd, enabled: Seq<StoredCalendar>, user_id: Seq<char>) -> bool {
    op matches EventOp::UpsertEvent(e) && is_v4_uuid_text(e.id@) && e.user_id@ == user_id
        && e.calendar_id@ == local_calendar(enabled, a.incoming.tracking_id_calendar@, Seq::empty())
        && carries_incoming(e, a.incoming, a.participants_json@)
}

fn event_record(id: String, user_id: String, calendar_id: String, inc: &IncomingEvent, participants_json: &String) -> (r: UpsertEvent)
    ensures
        r.id@ == id@,
        r.user_id@ == user_id@,
        r.calendar_id@ == calendar_id@,
        carries_incoming(r, *inc, participants_json@),
{
    UpsertEvent {
        id,
        user_id,
        calendar_id,
        tracking_id: inc.tracking_id_event.clone(),
        title: inc.title.clone(),
        started_at: inc.started_at.clone(),
        ended_at: inc.ended_at.clone(),
        location: inc.location.clone(),
        meeting_link: inc.meeting_link.clone(),
        description: inc.description.clone(),
        note: String::new(),
        recurrence_series_id: inc.recurrence_series_id.clone(),
        has_recurrence_rules: inc.has_recurrence_rules,
        is_all_day: inc.is_all_day,
        participants_json: participants_json.clone(),
        raw_json: String::new(),
    }
}

/// The storage writes of an event sync, in the order they are made: each removed
/// event, then each updated event, then each new one.
pub fn event_sync_ops(plan: &EventSyncPlan, enabled: &Vec<StoredCalendar>, user_id: &str) -> (r: Vec<EventOp>)
    ensures
        r@.len() == plan.to_delete@.len() + plan.to_update@.len() + plan.to_add@.len(),
        forall|m: int| 0 <= m < plan.to_delete@.len() ==>
            #[trigger] is_delete_of(r@[m], plan.to_delete@[m]),
        forall|m: int| 0 <= m < plan.to_update@.len() ==>
            #[trigger] is_update_for(r@[plan.to_delete@.len() + m], plan.to_update@[m], enabled@),
        forall|m: int| 0 <= m < plan.to_add@.len() ==>
            #[trigger] is_add_for(r@[plan.to_delete@.len() + plan.to_update@.len() + m], plan.to_add@[m], enabled@, user_id@),
{
    let mut ops: Vec<EventOp> = Vec::new();
    let mut k: usize = 0;
    while k < plan.to_delete.len()
        invariant
            k <= plan.to_delete@.len(),
            ops@.len() == k,
            forall|m: int| 0 <= m < k ==>
                #[trigger] is_delete_of(ops@[m], plan.to_delete@[m]),
        decreases plan.to_delete@.len() - k,
    {
        ops.push(EventOp::DeleteEvent(plan.to_delete[k].clone()));
        k = k + 1;
    }
    let d = ops.len();
    let mut j: usize = 0;
    while j < plan.to_update.len()
        invariant
            j <= plan.to_update@.len(),
            d == plan.to_delete@.len(),
            ops@.len() == d + j,
            forall|m: int| 0 <= m < d ==>
                #[trigger] is_delete_of(ops@[m], plan.to_delete@[m]),
            forall|m: int| 0 <= m < j ==> #[trigger] is_update_for(ops@[d + m], plan.to_update@[m], enabled@),
        decreases plan.to_update@.len() - j,
    {
        let u = &plan.to_update[j];
        let calendar_id = event_calendar_id(enabled, u.incoming.tracking_id_calendar.as_str(), u.calendar_id.as_str());
        let e = event_record(u.id.clone(), u.user_id.clone(), calendar_id, &u.incoming, &u.participants_json);
        let ghost before = ops@;
        ops.push(EventOp::UpsertEvent(e));
        assert forall|m: int| 0 <= m < d implies
            #[trigger] is_delete_of(ops@[m], plan.to_delete@[m]) by {
            assert(ops@[m] == before[m]);
        }
        assert forall|m: int| 0 <= m < j + 1 implies #[trigger] is_update_for(ops@[d + m], plan.to_update@[m], enabled@) by {
            if m < j {
                assert(ops@[d + m] == before[d + m]);
            }
        }
        j = j + 1;
    }
    let du = ops.len();
    let mut a: usize = 0;
    while a < plan.to_add.len()
        invariant
            a <= plan.to_add@.len(),
            d == plan.to_delete@.len(),
            du == d + plan.to_update@.len(),
            ops@.len() == du + a,
            forall|m: int| 0 <= m < d ==>
                #[trigger] is_delete_of(ops@[m], plan.to_delete@[m]),
            forall|m: int| 0 <= m < plan.to_update@.len() ==> #[trigger] is_update_for(ops@[d + m], plan.to_update@[m], enabled@),
            forall|m: int| 0 <= m < a ==> #[trigger] is_add_for(ops@[du + m], plan.to_add@[m], enabled@, user_id@),
        decreases plan.to_add@.len() - a,
    {
        let add = &plan.to_add[a];
        let calendar_id = event_calendar_id(enabled, add.incoming.tracking_id_calendar.as_str(), "");
        proof {
            reveal_strlit("");
            assert(""@ =~= Seq::<char>::empty());
        }
        let fresh = new_uuid_v4_string();
        let e = event_record(fresh, String::from_str(user_id), calendar_id, &add.incoming, &add.participants_json);
        let ghost before = ops@;
        ops.push(EventOp::UpsertEvent(e));
        assert forall|m: int| 0 <= m < d implies
            #[trigger] is_delete_of(ops@[m], plan.to_delete@[m]) by {
            assert(ops@[m] == before[m]);
        }
        assert forall|m: int| 0 <= m < plan.to_update@.len() implies #[trigger] is_update_for(ops@[d + m], plan.to_update@[m], enabled@) by {
            assert(ops@[d + m] == before[d + m]);
        }
        assert forall|m: int| 0 <= m < a + 1 implies #[trigger] is_add_for(ops@[du + m], plan.to_add@[m], enabled@, user_id@) by {
            if m < a {
                assert(ops@[du + m] == before[du + m]);
            }
        }
        a = a + 1;
    }
    ops
}

/// The enabled calendars of one connection, which an event sync reads events for:
/// `None` when there are none, so the sync has nothing to do; a storage failure ends
/// the sync.
pub fn enabled_calendars_for<S: CalendarStorage>(storage: &S, provider: &str, connection_id: &str) -> (r: Result<
    Option<Vec<StoredCalendar>>,
    SyncError,
>)
    ensures
        r matches Err(e) ==> e is Storage,
        r matches Ok(Some(v)) ==> v@.len() > 0,
{
    match storage.list_enabled_calendars(provider, connection_id) {
        Err(e) => Err(SyncError::Storage(e)),
        Ok(v) => if v.len() == 0 {
            Ok(None)
        } else {
            Ok(Some(v))
        },
    }
}

/// Applies an event sync's plan to storage: the writes of `event_sync_ops`, in order,
/// stopping at the first that fails (chosen step by step by `calendar_sync_step`).
pub fn apply_event_sync<S: CalendarStorage>(
    storage: &S,
    plan: &EventSyncPlan,
    enabled: &Vec<StoredCalendar>,
    user_id: &str,
) -> (r: Result<(), SyncError>)
    ensures
        r matches Err(e) ==> e is Storage,
{
    let ops = event_sync_ops(plan, enabled, user_id);
    let count = ops.len();
    let mut pending = ops;
    let mut last: Option<Result<(), String>> = None;
    let mut done: usize = 0;
    loop
        invariant
            done <= count,
            pending@.len() == count - done,
            last matches Some(Ok(())) || last is None,
        decreases count - done,
    {
        match calendar_sync_step(count, done, last) {
            CalendarSyncStep::Done(result) => {
                return result;
            },
            CalendarSyncStep::Perform(_) => {
                let op = pending.remove(0);
                let outcome = match op {
                    EventOp::DeleteEvent(id) => storage.delete_event(id.as_str()),
                    EventOp::UpsertEvent(e) => storage.upsert_event(e),
                };
                done = done + 1;
                match outcome {
                    Ok(()) => {
                        last = Some(Ok(()));
                    },
                    Err(e) => {
                        return Err(SyncError::Storage(e));
                    },
                }
            },
        }
    }
}

/// A piece of work of a full sync.
#[derive(Clone, Copy, Debug, PartialEq, Eq, Structural)]
pub enum SyncTask {
    /// Sync the calendars of the provider at this position.
    Calendars(usize),
    /// Sync the events of this connection of the provider at this position.
    Events(usize, usize),
}

/// How many connections the providers before position `i` have.
pub open spec fn connections_before(counts: Seq<usize>, i: int) -> int
    decreases i,
{
    if i <= 0 {
        0
    } else {
        connections_before(counts, i - 1) + counts[i - 1]
    }
}

/// Where a full sync's task for connection `j` of provider `i` stands: after every
/// provider's calendar task and the connections of the providers before `i`.
pub open spec fn event_task_at(counts: Seq<usize>, i: int, j: int) -> int {
    counts.len() + connections_before(counts, i) + j
}

proof fn lemma_connections_before_mono(counts: Seq<usize>, i: int, k: int)
    requires
        0 <= i <= k <= counts.len(),
    ensures
        connections_before(counts, i) <= connections_before(counts, k),
    decreases k - i,
{
    if i < k {
        lemma_connections_before_mono(counts, i, k - 1);
    }
}

/// The work of a full sync over providers with `counts[i]` connections each, in the
/// order it is done: every provider's calendars first, in order; then every
/// connection's events, provider by provider. A task that fails does not stop the
/// ones after it.
pub fn run_sync_tasks(counts: &Vec<usize>) -> (r: Vec<SyncTask>)
    requires
        counts@.len() + connections_before(counts@, counts@.len() as int) <= usize::MAX,
    ensures
        r@.len() == counts@.len() + connections_before(counts@, counts@.len() as int),
        forall|i: int| 0 <= i < counts@.len() ==> #[trigger] r@[i] == SyncTask::Calendars(i as usize),
        forall|i: int, j: int|
            0 <= i < counts@.len() && 0 <= j < counts@[i] ==> #[trigger] r@[event_task_at(counts@, i, j)] == SyncTask::Events(i as usize, j as usize),
{
    let n = counts.len();
    let mut out: Vec<SyncTask> = Vec::new();
    let mut i: usize = 0;
    while i < n
        invariant
            n == counts@.len(),
            i <= n,
            out@.len() == i,
            forall|x: int| 0 <= x < i ==> #[trigger] out@[x] == SyncTask::Calendars(x as usize),
        decreases n - i,
    {
        out.push(SyncTask::Calendars(i));
        i = i + 1;
    }
    let mut p: usize = 0;
    while p < n
        invariant
            n == counts@.len(),
            p <= n,
            counts@.len() + connections_before(counts@, counts@.len() as int) <= usize::MAX,
            out@.len() == n + connections_before(counts@, p as int),
            forall|x: int| 0 <= x < n ==> #[trigger] out@[x] == SyncTask::Calendars(x as usize),
            forall|a: int, b: int|
                0 <= a < p && 0 <= b < counts@[a] ==> #[trigger] out@[event_task_at(counts@, a, b)] == SyncTask::Events(a as usize, b as usize),
        decreases n - p,
    {
        proof {
            lemma_connections_before_mono(counts@, p + 1, n as int);
        }
        let c = counts[p];
        let mut j: usize = 0;
        while j < c
            invariant
                n == counts@.len(),
                p < n,
                c == counts@[p as int],
                j <= c,
                n + connections_before(counts@, p + 1) <= usize::MAX,
                out@.len() == n + connections_before(counts@, p as int) + j,
                forall|x: int| 0 <= x < n ==> #[trigger] out@[x] == SyncTask::Calendars(x as usize),
                forall|a: int, b: int|
                    0 <= a < p && 0 <= b < counts@[a] ==> #[trigger] out@[event_task_at(counts@, a, b)] == SyncTask::Events(a as usize, b as usize),
                forall|b: int| 0 <= b < j ==> #[trigger] out@[event_task_at(counts@, p as int, b)] == SyncTask::Events(p, b as usize),
            decreases c - j,
        {
            let ghost before = out@;
            out.push(SyncTask::Events(p, j));
            proof {
                lemma_connections_before_mono(counts@, 0, p as int);
                assert forall|x: int| 0 <= x < n implies #[trigger] out@[x] == SyncTask::Calendars(x as usize) by {
                    assert(out@[x] == before[x]);
                }
                assert forall|a: int, b: int|
                    0 <= a < p && 0 <= b < counts@[a] implies #[trigger] out@[event_task_at(counts@, a, b)]
                        == SyncTask::Events(a as usize, b as usize) by {
                    lemma_connections_before_mono(counts@, a + 1, p as int);
                    assert(connections_before(counts@, a + 1) == connections_before(counts@, a) + counts@[a]);
                    lemma_connections_before_mono(counts@, 0, a);
                    assert(0 <= event_task_at(counts@, a, b) < before.len());
                    assert(out@[event_task_at(counts@, a, b)] == before[event_task_at(counts@, a, b)]);
                }
                assert forall|b: int| 0 <= b < j + 1 implies #[trigger] out@[event_task_at(counts@, p as int, b)]
                    == SyncTask::Events(p, b as usize) by {
                    if b < j {
                        assert(out@[event_task_at(counts@, p as int, b)] == before[event_task_at(counts@, p as int, b)]);
                    }
                }
            }
            j = j + 1;
        }
        proof {
            assert forall|a: int, b: int|
                0 <= a < p + 1 && 0 <= b < counts@[a] implies #[trigger] out@[event_task_at(counts@, a, b)]
                    == SyncTask::Events(a as usize, b as usize) by {
                if a == p {
                    assert(out@[event_task_at(counts@, p as int, b)] == SyncTask::Events(p, b as usize));
                }
            }
        }
        p = p + 1;
    }
    out
}

/// How a full sync starts from the listing of the user's connections: a failed listing
/// ends it with a provider error; otherwise its work is `run_sync_tasks` of the number
/// of connections of each provider, and the sync itself succeeds whatever those tasks
/// give.
pub fn run_sync_start(listing: Result<Vec<ProviderConnectionIds>, String>) -> (r: Result<Vec<usize>, SyncError>)
    ensures
        match listing {
            Err(e) => r matches Err(SyncError::Provider(m)) && m@ == e@,
            Ok(conns) => r matches Ok(counts) && counts@.len() == conns@.len()
                && forall|i: int| 0 <= i < conns@.len() ==> #[trigger] counts@[i] == conns@[i].connection_ids@.len(),
        },
{
    match listing {
        Err(e) => Err(SyncError::Provider(e)),
        Ok(conns) => {
            let mut counts: Vec<usize> = Vec::new();
            let mut i: usize = 0;
            while i < conns.len()
                invariant
                    i <= conns@.len(),
                    counts@.len() == i,
                    forall|x: int| 0 <= x < i ==> #[trigger] counts@[x] == conns@[x].connection_ids@.len(),
                decreases conns@.len() - i,
            {
                counts.push(conns[i].connection_ids.len());
                i = i + 1;
            }
            Ok(counts)
        },
    }
}

/// Settings of the background calendar sync.
pub struct CalendarSyncConfig {
    pub api_base_url: String,
    pub access_token: Option<String>,
    pub apple_authorized: bool,
    pub user_id: String,
}

} // verus!
