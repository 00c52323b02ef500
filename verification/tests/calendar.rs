use hyprnote::calendar::{
    available_providers, calendar_ids, calendar_sync_ops, calendar_upsert, calendar_upsert_with_id,
    check_apple_only, compute_calendar_sync, connection_ids_from, event_calendar_id, event_sync_ops,
    event_sync_window, has_access_token, EventAdd, EventOp, EventSyncPlan, EventUpdate, IncomingEvent,
    is_provider_enabled, provider_for_integration, provider_to_str, CalendarListItem, CalendarOp,
    CalendarProviderType, CalendarToUpsert, StoredCalendar, SyncError,
};
use hyprnote::calendar::{
    apply_event_sync, enabled_calendars_for, run_sync_start, run_sync_tasks, sync_calendars_for_provider,
    CalendarStorage, ProviderConnectionIds, StoredEvent, SyncTask, UpsertCalendar, UpsertEvent,
};
use std::cell::RefCell;
use hyprnote::nango::{calendar_provider_of, GitHub, GoogleCalendar, NangoIntegrationId, OutlookCalendar};

fn item(id: &str, title: &str, color: Option<&str>) -> CalendarListItem {
    CalendarListItem {
        id: id.to_string(),
        title: title.to_string(),
        color: color.map(|c| c.to_string()),
        source: None,
    }
}

fn stored(id: &str, provider: &str, tracking: &str, enabled: bool) -> StoredCalendar {
    StoredCalendar {
        id: id.to_string(),
        provider: provider.to_string(),
        connection_id: "c".to_string(),
        tracking_id: tracking.to_string(),
        name: "n".to_string(),
        color: "#fff".to_string(),
        source: "".to_string(),
        enabled,
    }
}

#[test]
fn sync_plan_removes_stale_and_writes_listed() {
    let incoming = vec![
        ("conn-1".to_string(), vec![item("t1", "Work", Some("#f00")), item("t2", "Home", None)]),
        ("conn-2".to_string(), vec![item("t3", "Team", None)]),
    ];
    let existing = vec![
        stored("a", "google", "t1", true),
        stored("b", "google", "gone", true),
        stored("c", "outlook", "gone", true),
    ];
    let plan = compute_calendar_sync(&incoming, &existing, "google");
    assert_eq!(plan.to_delete, vec!["b".to_string()]);
    assert_eq!(plan.to_upsert.len(), 3);
    assert_eq!(plan.to_upsert[0].tracking_id, "t1");
    assert_eq!(plan.to_upsert[0].color, "#f00");
    assert_eq!(plan.to_upsert[1].color, "#888");
    assert_eq!(plan.to_upsert[1].source, "");
    assert_eq!(plan.to_upsert[2].connection_id, "conn-2");
    assert_eq!(plan.to_upsert[2].provider, "google");

    let ops = calendar_sync_ops(&plan, &existing);
    assert_eq!(ops.len(), 5);
    assert!(matches!(&ops[0], CalendarOp::DeleteEventsByCalendar(id) if id == "b"));
    assert!(matches!(&ops[1], CalendarOp::DeleteCalendar(id) if id == "b"));
    match &ops[2] {
        CalendarOp::UpsertCalendar(u) => {
            assert_eq!(u.id, "a");
            assert!(u.enabled);
        }
        _ => panic!("expected an upsert"),
    }
    match &ops[3] {
        CalendarOp::UpsertCalendar(u) => {
            assert_eq!(u.id.len(), 36);
            assert_eq!(u.id.as_bytes()[14], b'4');
            assert!(matches!(u.id.as_bytes()[19], b'8' | b'9' | b'a' | b'b'));
            assert!(!u.enabled);
        }
        _ => panic!("expected an upsert"),
    }
}

#[test]
fn upsert_keeps_stored_identity() {
    let cal = CalendarToUpsert {
        tracking_id: "t1".to_string(),
        connection_id: "c".to_string(),
        name: "Work".to_string(),
        color: "#f00".to_string(),
        source: "".to_string(),
        provider: "google".to_string(),
    };
    let existing = vec![stored("old", "google", "t1", false), stored("new", "google", "t1", true)];
    let u = calendar_upsert_with_id(&cal, &existing, "fresh".to_string());
    assert_eq!(u.id, "new");
    assert!(u.enabled);
    let u = calendar_upsert_with_id(&cal, &Vec::new(), "fresh".to_string());
    assert_eq!(u.id, "fresh");
    assert!(!u.enabled);
    let a = calendar_upsert(&cal, &Vec::new());
    let b = calendar_upsert(&cal, &Vec::new());
    assert_ne!(a.id, b.id);
    assert_eq!(a.name, "Work");
}

#[test]
fn providers_and_connections() {
    assert_eq!(provider_to_str(&CalendarProviderType::Outlook), "outlook");
    assert_eq!(available_providers(true).len(), 3);
    assert_eq!(available_providers(false), vec![CalendarProviderType::Google, CalendarProviderType::Outlook]);
    assert_eq!(provider_for_integration("google-calendar"), Some(CalendarProviderType::Google));
    assert_eq!(provider_for_integration("github"), None);
    assert!(has_access_token(Some("tok")));
    assert!(!has_access_token(Some("")));
    assert!(!has_access_token(None));

    let fetched = vec![
        ("outlook-calendar".to_string(), vec!["o1".to_string()]),
        ("linear".to_string(), vec!["l1".to_string()]),
        ("google-calendar".to_string(), vec![]),
    ];
    let all = connection_ids_from(true, Some(fetched));
    assert_eq!(all.len(), 3);
    assert_eq!(all[0].provider, CalendarProviderType::Apple);
    assert_eq!(all[0].connection_ids, vec!["apple".to_string()]);
    assert_eq!(all[1].provider, CalendarProviderType::Outlook);
    assert_eq!(all[2].provider, CalendarProviderType::Google);
    assert!(is_provider_enabled(&all, CalendarProviderType::Outlook));
    assert!(!is_provider_enabled(&all, CalendarProviderType::Google));
    assert_eq!(connection_ids_from(false, None).len(), 0);

    assert!(check_apple_only("open_calendar", CalendarProviderType::Apple).is_ok());
    assert!(check_apple_only("open_calendar", CalendarProviderType::Google).is_err());
}

#[test]
fn event_calendar_and_errors() {
    let enabled = vec![stored("l1", "google", "t1", true), stored("l2", "google", "t2", true)];
    assert_eq!(event_calendar_id(&enabled, "t2", ""), "l2");
    assert_eq!(event_calendar_id(&enabled, "t9", "fallback"), "fallback");
    assert_eq!(calendar_ids(&enabled), vec!["l1".to_string(), "l2".to_string()]);
    assert_eq!(SyncError::Storage("disk".to_string()).message(), "storage: disk");
    assert_eq!(SyncError::Provider("x".to_string()).message(), "provider: x");
}

#[test]
fn nango_integrations() {
    assert_eq!(GoogleCalendar::ID, "google-calendar");
    assert_eq!(calendar_provider_of::<OutlookCalendar>(), Some(CalendarProviderType::Outlook));
    assert_eq!(calendar_provider_of::<GitHub>(), None);
}

fn incoming(tracking: &str, calendar: &str, title: &str) -> IncomingEvent {
    IncomingEvent {
        tracking_id_event: tracking.to_string(),
        tracking_id_calendar: calendar.to_string(),
        title: title.to_string(),
        started_at: "2024-01-01T10:00:00Z".to_string(),
        ended_at: "2024-01-01T11:00:00Z".to_string(),
        location: "Room".to_string(),
        meeting_link: "".to_string(),
        description: "d".to_string(),
        recurrence_series_id: "".to_string(),
        has_recurrence_rules: false,
        is_all_day: true,
    }
}

#[test]
fn event_sync_writes_deletes_then_updates_then_adds() {
    let enabled = vec![stored("local-1", "google", "g-1", true)];
    let plan = EventSyncPlan {
        to_delete: vec!["old".to_string()],
        to_update: vec![EventUpdate {
            id: "e-1".to_string(),
            user_id: "u-1".to_string(),
            calendar_id: "was".to_string(),
            incoming: incoming("t-1", "g-1", "Standup"),
            participants_json: "[]".to_string(),
        }],
        to_add: vec![
            EventAdd { incoming: incoming("t-2", "g-9", "Lunch"), participants_json: "".to_string() },
            EventAdd { incoming: incoming("t-3", "g-1", "Review"), participants_json: "".to_string() },
        ],
    };
    let ops = event_sync_ops(&plan, &enabled, "me");
    assert_eq!(ops.len(), 4);
    assert!(matches!(&ops[0], EventOp::DeleteEvent(id) if id == "old"));
    match &ops[1] {
        EventOp::UpsertEvent(e) => {
            assert_eq!(e.id, "e-1");
            assert_eq!(e.user_id, "u-1");
            assert_eq!(e.calendar_id, "local-1");
            assert_eq!(e.title, "Standup");
            assert_eq!(e.participants_json, "[]");
            assert_eq!(e.note, "");
            assert_eq!(e.raw_json, "");
            assert!(e.is_all_day);
        }
        _ => panic!("expected an upsert"),
    }
    match &ops[2] {
        EventOp::UpsertEvent(e) => {
            assert_eq!(e.id.len(), 36);
            assert_eq!(e.user_id, "me");
            assert_eq!(e.calendar_id, "");
            assert_eq!(e.tracking_id, "t-2");
        }
        _ => panic!("expected an upsert"),
    }
    match &ops[3] {
        EventOp::UpsertEvent(e) => assert_eq!(e.calendar_id, "local-1"),
        _ => panic!("expected an upsert"),
    }
    assert_eq!(event_sync_window(1_000_000_000_000), (1_000_000_000_000 - 604_800_000, 1_000_000_000_000 + 2_592_000_000));
}

struct RecordingStorage {
    calendars: Vec<StoredCalendar>,
    fail_on: Option<String>,
    log: RefCell<Vec<String>>,
}

impl RecordingStorage {
    fn record(&self, call: String) -> Result<(), String> {
        let failed = self.fail_on.as_deref() == Some(call.as_str());
        self.log.borrow_mut().push(call);
        if failed {
            Err("disk full".to_string())
        } else {
            Ok(())
        }
    }
}

impl CalendarStorage for RecordingStorage {
    fn list_all_calendars_for_provider(&self, _provider: &str) -> Result<Vec<StoredCalendar>, String> {
        Ok(self.calendars.iter().map(|c| stored(&c.id, &c.provider, &c.tracking_id, c.enabled)).collect())
    }
    fn list_enabled_calendars(&self, _provider: &str, _connection_id: &str) -> Result<Vec<StoredCalendar>, String> {
        Ok(self
            .calendars
            .iter()
            .filter(|c| c.enabled)
            .map(|c| stored(&c.id, &c.provider, &c.tracking_id, c.enabled))
            .collect())
    }
    fn list_events_for_calendars(&self, _ids: &Vec<String>, _from: &str, _to: &str) -> Result<Vec<StoredEvent>, String> {
        Ok(Vec::new())
    }
    fn upsert_event(&self, event: UpsertEvent) -> Result<(), String> {
        self.record(format!("upsert_event {}", event.tracking_id))
    }
    fn delete_event(&self, id: &str) -> Result<(), String> {
        self.record(format!("delete_event {id}"))
    }
    fn upsert_calendar(&self, cal: UpsertCalendar) -> Result<(), String> {
        self.record(format!("upsert_calendar {} {} {}", cal.tracking_id, cal.id, cal.enabled))
    }
    fn delete_calendar(&self, id: &str) -> Result<(), String> {
        self.record(format!("delete_calendar {id}"))
    }
    fn delete_events_by_calendar(&self, calendar_id: &str) -> Result<(), String> {
        self.record(format!("delete_events_by_calendar {calendar_id}"))
    }
}

#[test]
fn calendar_sync_deletes_first_then_writes_and_stops_at_a_failure() {
    let storage = RecordingStorage {
        calendars: vec![stored("old-id", "google", "gone", true), stored("kept-id", "google", "t-1", true)],
        fail_on: None,
        log: RefCell::new(Vec::new()),
    };
    let incoming = vec![("conn".to_string(), vec![item("t-1", "Work", None)])];
    assert!(sync_calendars_for_provider(&storage, "google", &incoming).is_ok());
    assert_eq!(
        *storage.log.borrow(),
        vec![
            "delete_events_by_calendar old-id".to_string(),
            "delete_calendar old-id".to_string(),
            "upsert_calendar t-1 kept-id true".to_string(),
        ]
    );

    let failing = RecordingStorage {
        calendars: vec![stored("old-id", "google", "gone", true)],
        fail_on: Some("delete_events_by_calendar old-id".to_string()),
        log: RefCell::new(Vec::new()),
    };
    match sync_calendars_for_provider(&failing, "google", &Vec::new()) {
        Err(SyncError::Storage(m)) => assert_eq!(m, "disk full"),
        _ => panic!("expected a storage error"),
    }
    assert_eq!(failing.log.borrow().len(), 1);
}

#[test]
fn event_sync_driver_skips_connections_without_enabled_calendars() {
    let none = RecordingStorage {
        calendars: vec![stored("a", "google", "t", false)],
        fail_on: None,
        log: RefCell::new(Vec::new()),
    };
    assert!(matches!(enabled_calendars_for(&none, "google", "c"), Ok(None)));
    let some = RecordingStorage {
        calendars: vec![stored("a", "google", "t", true)],
        fail_on: Some("upsert_event t-1".to_string()),
        log: RefCell::new(Vec::new()),
    };
    let enabled = match enabled_calendars_for(&some, "google", "c") {
        Ok(Some(v)) => v,
        _ => panic!("expected enabled calendars"),
    };
    let plan = EventSyncPlan {
        to_delete: vec!["e-old".to_string()],
        to_update: Vec::new(),
        to_add: vec![
            EventAdd { incoming: incoming("t-1", "t", "A"), participants_json: String::new() },
            EventAdd { incoming: incoming("t-2", "t", "B"), participants_json: String::new() },
        ],
    };
    assert!(matches!(apply_event_sync(&some, &plan, &enabled, "me"), Err(SyncError::Storage(_))));
    assert_eq!(
        *some.log.borrow(),
        vec!["delete_event e-old".to_string(), "upsert_event t-1".to_string()]
    );
}

#[test]
fn full_sync_does_calendars_before_events_and_fails_only_on_listing() {
    assert_eq!(
        run_sync_tasks(&vec![2, 0, 1]),
        vec![
            SyncTask::Calendars(0),
            SyncTask::Calendars(1),
            SyncTask::Calendars(2),
            SyncTask::Events(0, 0),
            SyncTask::Events(0, 1),
            SyncTask::Events(2, 0),
        ]
    );
    match run_sync_start(Err("offline".to_string())) {
        Err(SyncError::Provider(m)) => assert_eq!(m, "offline"),
        _ => panic!("expected a provider error"),
    }
    let listing = vec![ProviderConnectionIds {
        provider: CalendarProviderType::Google,
        connection_ids: vec!["a".to_string(), "b".to_string()],
    }];
    assert!(matches!(run_sync_start(Ok(listing)), Ok(v) if v == vec![2]));
}
