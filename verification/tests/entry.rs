use hyprnote::entry::{
    browser_status_message, calendar_connection_id, effect_step, split_effects, normalize_newlines, pick_tip,
    BrowserPage, ConnectEffect, ConnectionType, Effect, EffectStep, EntryAction, EntryApp,
    EntryCommand, KeyInput, Overlay, SessionsEffect, SessionsIntent, TimelineEffect,
};
use hyprnote::model::ModelCommands;

fn ready_app() -> EntryApp {
    EntryApp::new(None, Some("deepgram".to_string()), Some("openai".to_string()))
}

#[test]
fn connect_calendar_effects_are_forwarded() {
    let mut app = EntryApp::new(None, None, None);

    let effects = app.translate_connect_effects(vec![
        ConnectEffect::CheckCalendarPermission,
        ConnectEffect::LoadCalendars,
    ]);

    assert_eq!(effects.len(), 2);
    assert!(matches!(effects[0], Effect::CheckCalendarPermission));
    assert!(matches!(effects[1], Effect::LoadCalendars));
}

#[test]
fn connect_save_closes_the_dialog() {
    let mut app = ready_app();
    app.submit_command("/connect");
    assert_eq!(app.overlay, Overlay::Connect);
    let effects = app.translate_connect_effects(vec![
        ConnectEffect::Save {
            connection_types: vec![ConnectionType::Stt],
            provider_id: "deepgram".to_string(),
            base_url: None,
            api_key: Some("k".to_string()),
        },
        ConnectEffect::Exit,
    ]);
    assert_eq!(effects.len(), 1);
    match &effects[0] {
        Effect::SaveConnect { provider_id, api_key, .. } => {
            assert_eq!(provider_id, "deepgram");
            assert_eq!(api_key.as_deref(), Some("k"));
        }
        _ => panic!("expected SaveConnect"),
    }
    assert_eq!(app.overlay, Overlay::Closed);
}

#[test]
fn tips_depend_on_configuration() {
    assert_eq!(pick_tip(&None, &Some("x".to_string())), "Run /connect to set up a provider");
    assert_eq!(
        pick_tip(&Some("a".to_string()), &Some("b".to_string())),
        "Type /listen to start a live transcription session"
    );
    assert_eq!(ready_app().tip, "Type /listen to start a live transcription session");
}

#[test]
fn unknown_command_sets_status() {
    let mut app = ready_app();
    let effects = app.submit_command("  /frobnicate ");
    assert!(effects.is_empty());
    assert_eq!(app.status_message.as_deref(), Some("Unknown command: /frobnicate"));
    assert!(app.submit_command("   ").is_empty());
}

#[test]
fn commands_launch_or_open_dialogs() {
    let mut app = ready_app();
    let effects = app.submit_command("/LISTEN");
    assert!(matches!(effects[0], Effect::Launch(EntryCommand::Listen)));

    let effects = app.submit_command("/sessions");
    assert!(matches!(effects[0], Effect::LoadSessions));
    assert_eq!(app.overlay, Overlay::Sessions);
    assert_eq!(app.sessions_intent, SessionsIntent::View);

    let effects = app.submit_command("/models");
    assert!(matches!(effects[0], Effect::LoadModels));
    assert_eq!(app.overlay, Overlay::Models);

    let effects = app.dispatch_command(hyprnote::commands::Command::ModelsDownload, "tiny");
    match &effects[0] {
        Effect::RunModel(ModelCommands::Download { name }) => assert_eq!(name, "tiny"),
        _ => panic!("expected a download"),
    }
    let effects = app.dispatch_command(hyprnote::commands::Command::ModelsDelete, "");
    assert!(effects.is_empty());
    assert_eq!(app.status_message.as_deref(), Some("Usage: /models delete <name>"));

    let effects = app.submit_command("quit");
    assert!(matches!(effects[0], Effect::Exit));
}

#[test]
fn disabled_commands_do_nothing() {
    let mut app = EntryApp::new(None, None, None);
    assert!(app.submit_command("/listen").is_empty());
    assert!(app.submit_command("/chat").is_empty());
    assert_eq!(app.status_message, None);
}

#[test]
fn keys_drive_the_popup() {
    let mut app = ready_app();
    app.handle_key(KeyInput::Edited { consumed: true, text: "/mo".to_string() });
    assert!(app.palette.popup_visible);
    assert_eq!(app.input, "/mo");
    app.handle_key(KeyInput::Down);
    assert_eq!(app.palette.selected_index, 1);
    app.handle_key(KeyInput::Up);
    app.handle_key(KeyInput::Tab);
    assert_eq!(app.input, "/models");
    let effects = app.handle_key(KeyInput::Enter);
    assert!(matches!(effects[0], Effect::LoadModels));
    assert_eq!(app.overlay, Overlay::Models);

    let mut app = ready_app();
    app.handle_key(KeyInput::Edited { consumed: true, text: "abc".to_string() });
    app.handle_key(KeyInput::Esc);
    assert_eq!(app.input, "");
    assert!(!app.palette.popup_visible);
    let effects = app.handle_key(KeyInput::CtrlC);
    assert!(matches!(effects[0], Effect::Exit));
}

#[test]
fn sessions_choice_follows_intent() {
    let mut app = ready_app();
    app.submit_command("/chat resume");
    let mut app2 = ready_app();
    app2.dispatch_command(hyprnote::commands::Command::ChatResume, "");
    assert_eq!(app2.sessions_intent, SessionsIntent::ChatResume);
    let effects = app2.translate_sessions_effects(vec![SessionsEffect::Select("s1".to_string())]);
    match &effects[0] {
        Effect::Launch(EntryCommand::Chat { session_id }) => assert_eq!(session_id.as_deref(), Some("s1")),
        _ => panic!("expected a chat launch"),
    }
    assert_eq!(app2.overlay, Overlay::Closed);
    let _ = app;
}

#[test]
fn timeline_effects_are_translated() {
    let mut app = ready_app();
    app.submit_command("/timeline");
    let effects = app.translate_timeline_effects(vec![
        TimelineEffect::LoadTimeline("h1".to_string()),
        TimelineEffect::ViewSession("s9".to_string()),
    ]);
    assert_eq!(effects.len(), 2);
    assert!(matches!(&effects[0], Effect::LoadTimelineEntries(h) if h == "h1"));
    assert!(matches!(&effects[1], Effect::Launch(EntryCommand::View { session_id }) if session_id == "s9"));
    assert_eq!(app.overlay, Overlay::Closed);
}

#[test]
fn provider_saves_update_tip_and_status() {
    let mut app = EntryApp::new(None, None, None);
    app.connect_saved(&vec![ConnectionType::Stt, ConnectionType::Llm], "p".to_string());
    assert_eq!(app.stt_provider.as_deref(), Some("p"));
    assert_eq!(app.llm_provider.as_deref(), Some("p"));
    assert_eq!(app.status_message.as_deref(), Some("Provider configured"));
    assert_eq!(app.tip, "Type /listen to start a live transcription session");
}

#[test]
fn effect_steps_and_messages() {
    assert!(matches!(effect_step(Effect::Exit), EffectStep::Close(EntryAction::Quit)));
    assert!(matches!(effect_step(Effect::LoadModels), EffectStep::Perform(Effect::LoadModels)));
    assert!(matches!(
        effect_step(Effect::RunModel(ModelCommands::Paths)),
        EffectStep::Close(EntryAction::Model(ModelCommands::Paths))
    ));
    assert_eq!(calendar_connection_id("apple"), "cal:apple");
    assert_eq!(browser_status_message(BrowserPage::Bug, Ok(())), "Opened bug report page in browser");
    assert_eq!(browser_status_message(BrowserPage::Auth, Err("no browser".to_string())), "no browser");
    assert_eq!(normalize_newlines("a\r\nb\rc\n"), "a\nb\nc\n");
    assert_eq!(normalize_newlines("\r\r\n"), "\n\n");
}

#[test]
fn status_message_clears_input() {
    let mut app = ready_app();
    app.input_edited("/li".to_string());
    app.show_status_message("done".to_string());
    assert_eq!(app.input, "");
    assert_eq!(app.status_message.as_deref(), Some("done"));
    assert_eq!(app.query(), "");
}

#[test]
fn effects_after_a_closing_one_are_not_reached() {
    let (done, action) = split_effects(vec![
        Effect::LoadSessions,
        Effect::OpenAuth,
        Effect::RunModel(ModelCommands::Paths),
        Effect::Exit,
        Effect::LoadModels,
    ]);
    assert_eq!(done.len(), 2);
    assert!(matches!(done[0], Effect::LoadSessions));
    assert!(matches!(done[1], Effect::OpenAuth));
    assert!(matches!(action, Some(EntryAction::Model(ModelCommands::Paths))));

    let (done, action) = split_effects(vec![Effect::LoadModels, Effect::OpenBug]);
    assert_eq!(done.len(), 2);
    assert!(action.is_none());

    let (done, action) = split_effects(vec![Effect::Exit, Effect::LoadModels]);
    assert!(done.is_empty());
    assert!(matches!(action, Some(EntryAction::Quit)));
}
