use hyprnote::recorder::{find_session_dir, session_dir_step, session_dir_step_for, RecorderActor, SessionDirStep};
use hyprnote::screen::{
    input_decision, stream_action, InputDecision, StreamAction, TerminalInput, TuiEvent,
    screen_loop_step, terminal_title, EventSources, LoopAction, LoopEvent, ScreenContext, ScreenControl,
};
use hyprnote::text::{str_eq, to_ascii_lowercase, trim, trim_start_char};

#[test]
fn titles() {
    assert_eq!(terminal_title(None), "Char");
    assert_eq!(terminal_title(Some("Listen")), "Char | Listen");
    let cx = ScreenContext::new(5u32);
    assert_eq!(*cx.frame_requester(), 5);
    let c: ScreenControl<u8> = ScreenControl::Exit(3);
    assert!(matches!(c, ScreenControl::Exit(3)));
}

#[test]
fn session_directory_search_steps() {
    let id = "5f0c7a2e-3c1b-4d7e-9a53-0e6b1f2d3c4b";
    assert_eq!(session_dir_step(id, id), SessionDirStep::Found);
    assert_eq!(session_dir_step("2024", id), SessionDirStep::Descend);
    assert_eq!(
        session_dir_step("6a1d8b3f-4d2c-4e8f-8b64-1f7c2a3e4d5c", id),
        SessionDirStep::Skip
    );
    assert_eq!(session_dir_step_for("x", "y", true), SessionDirStep::Skip);
    assert_eq!(RecorderActor::name(), "recorder_actor");
    let _ = RecorderActor::new();
}

#[test]
fn text_helpers() {
    assert_eq!(trim("  a b \t"), "a b");
    assert_eq!(trim_start_char("//models", '/'), "models");
    assert_eq!(to_ascii_lowercase("AbÉ"), "abÉ");
    assert!(str_eq("x", "x"));
    assert!(!str_eq("x", "y"));
}

use hyprnote::layout::{centered_rect, centered_width, dialog_size, Rect};

#[test]
fn centred_boxes() {
    let area = Rect { x: 2, y: 1, width: 100, height: 30 };
    assert_eq!(centered_rect(area, 40, 10), Rect { x: 32, y: 11, width: 40, height: 10 });
    assert_eq!(centered_rect(area, 200, 0), Rect { x: 2, y: 15, width: 100, height: 1 });
    assert_eq!(dialog_size(area), (60, 18));
    assert_eq!(dialog_size(Rect { x: 0, y: 0, width: 10, height: 200 }), (40, 30));
    assert_eq!(centered_width(area, 80), 80);
    assert_eq!(centered_width(Rect { x: 0, y: 0, width: 0, height: 0 }, 80), 1);
}

use hyprnote::recorder::{find_session_dir_in, DirNode};

fn dir(name: &str, children: Vec<DirNode>) -> DirNode {
    DirNode { name: name.to_string(), is_dir: true, children }
}

#[test]
fn session_directories_are_found_below_plain_folders() {
    let id = "5f0c7a2e-3c1b-4d7e-9a53-0e6b1f2d3c4b";
    let other = "6a1d8b3f-4d2c-4e8f-8b64-1f7c2a3e4d5c";
    let tree = vec![
        DirNode { name: id.to_string(), is_dir: false, children: Vec::new() },
        dir(other, vec![dir(id, Vec::new())]),
        dir("archive", vec![dir("2024", vec![dir(id, Vec::new())])]),
    ];
    assert_eq!(
        find_session_dir_in(&tree, id),
        Some(vec!["archive".to_string(), "2024".to_string(), id.to_string()])
    );
    assert_eq!(find_session_dir_in(&tree, "missing"), None);
    assert_eq!(find_session_dir_in(&vec![dir(id, Vec::new())], id), Some(vec![id.to_string()]));
}

#[test]
fn session_directory_falls_back_to_the_sessions_folder() {
    let id = "5f0c7a2e-3c1b-4d7e-9a53-0e6b1f2d3c4b";
    let tree = vec![dir("archive", vec![dir(id, Vec::new())])];
    assert_eq!(
        find_session_dir("/data/sessions", &tree, id),
        vec!["/data/sessions".to_string(), "archive".to_string(), id.to_string()]
    );
    assert_eq!(
        find_session_dir("/data/sessions", &Vec::new(), id),
        vec!["/data/sessions".to_string(), id.to_string()]
    );
}

#[test]
fn screen_loop_ends_at_the_first_exit_and_fails_when_both_sources_close() {
    let mut sources = EventSources::new(true);
    assert!(sources.check_open().is_ok());
    let a = screen_loop_step(&mut sources, true, LoopEvent::<u8>::Resize);
    assert!(matches!(a, LoopAction::Redraw { resize: true, set_title: true }));
    let a = screen_loop_step(&mut sources, false, LoopEvent::<u8>::Draw);
    assert!(matches!(a, LoopAction::Redraw { resize: false, set_title: false }));
    let a = screen_loop_step(&mut sources, true, LoopEvent::TuiHandled(ScreenControl::<u8>::Continue));
    assert!(matches!(a, LoopAction::ScheduleFrame));
    let a = screen_loop_step(&mut sources, true, LoopEvent::ExternalHandled(ScreenControl::Exit(7u8)));
    assert!(matches!(a, LoopAction::Finish(7)));
    let a = screen_loop_step(&mut sources, true, LoopEvent::<u8>::TuiClosed);
    assert!(matches!(a, LoopAction::Idle));
    assert_eq!(sources, EventSources { events_open: false, external_open: true });
    assert!(sources.check_open().is_ok());
    let a = screen_loop_step(&mut sources, true, LoopEvent::<u8>::ExternalClosed);
    assert!(matches!(a, LoopAction::Idle));
    assert_eq!(sources.check_open(), Err("screen event loop closed".to_string()));
    assert_eq!(EventSources::new(false).check_open(), Ok(()));
}

#[test]
fn other_sessions_are_recognised_in_every_uuid_form() {
    let id = "5f0c7a2e-3c1b-4d7e-9a53-0e6b1f2d3c4b";
    for other in [
        "6A0C7A2E-3C1B-4D7E-9A53-0E6B1F2D3C4B",
        "6a0c7a2e3c1b4d7e9a530e6b1f2d3c4b",
        "{6a0c7a2e-3c1b-4d7e-9a53-0e6b1f2d3c4b}",
        "URN:uuid:6a0c7a2e-3c1b-4d7e-9a53-0e6b1f2d3c4b",
    ] {
        assert_eq!(session_dir_step(other, id), SessionDirStep::Skip);
    }
    for not_uuid in [
        "6a0c7a2e-3c1b-4d7e-9a53-0e6b1f2d3c4g",
        "6a0c7a2e3c1b4d7e9a530e6b1f2d3c4",
        "[6a0c7a2e-3c1b-4d7e-9a53-0e6b1f2d3c4b]",
        "urn:uuix:6a0c7a2e-3c1b-4d7e-9a53-0e6b1f2d3c4b",
    ] {
        assert_eq!(session_dir_step(not_uuid, id), SessionDirStep::Descend);
    }
}

#[test]
fn terminal_reader_hands_on_presses_and_stops_when_redraws_end() {
    assert!(matches!(input_decision(TerminalInput::KeyPress('a')), InputDecision::Send(TuiEvent::Key('a'))));
    assert!(matches!(input_decision(TerminalInput::<char>::KeyOther), InputDecision::Skip));
    assert!(matches!(
        input_decision(TerminalInput::<char>::Paste("hi".to_string())),
        InputDecision::Send(TuiEvent::Paste(p)) if p == "hi"
    ));
    assert!(matches!(input_decision(TerminalInput::<char>::Resize), InputDecision::Send(TuiEvent::Resize)));
    assert!(matches!(input_decision(TerminalInput::<char>::Other), InputDecision::Skip));
    assert!(matches!(input_decision(TerminalInput::<char>::StreamFailed), InputDecision::RestartStream));
    assert!(matches!(input_decision(TerminalInput::<char>::DrawLagged), InputDecision::Send(TuiEvent::Draw)));
    assert!(matches!(input_decision(TerminalInput::<char>::DrawClosed), InputDecision::Stop));
    assert_eq!(stream_action(true, true), StreamAction::Drop);
    assert_eq!(stream_action(false, false), StreamAction::Open);
    assert_eq!(stream_action(false, true), StreamAction::Keep);
}
