use hyprnote::commands::{lookup, Command, ALL_COMMANDS};
use hyprnote::palette::Palette;
use hyprnote::search::{command_aliases, command_match_score, single_command_match_score};

#[test]
fn command_names_and_groups() {
    assert_eq!(Command::Listen.name(), "/listen");
    assert_eq!(Command::ModelsPaths.name(), "/models paths");
    assert_eq!(Command::Timeline.description(), "CRM timeline view");
    assert_eq!(Command::Auth.group(), "Setup");
    assert_eq!(Command::Exit.group(), "App");
    assert_eq!(Command::ModelsDelete.group(), "Models");
    assert_eq!(Command::Exit.aliases(), &["quit"]);
    assert!(Command::Chat.aliases().is_empty());
    assert_eq!(ALL_COMMANDS.len(), 14);
}

#[test]
fn disabled_reasons_follow_the_providers() {
    let none: Option<String> = None;
    let some = Some("x".to_string());
    assert_eq!(Command::Listen.disabled_reason(&none, &some), Some("no STT provider"));
    assert_eq!(Command::Listen.disabled_reason(&some, &none), None);
    assert_eq!(Command::ChatResume.disabled_reason(&some, &none), Some("no LLM provider"));
    assert_eq!(Command::Bug.disabled_reason(&none, &none), None);
}

#[test]
fn lookup_takes_keywords_in_order_then_aliases() {
    assert_eq!(lookup("listen"), Some((Command::Listen, "")));
    assert_eq!(lookup("models paths"), Some((Command::Models, "paths")));
    assert_eq!(lookup("chat   resume"), Some((Command::Chat, "resume")));
    assert_eq!(lookup("quit"), Some((Command::Exit, "")));
    assert_eq!(lookup("listening"), None);
    assert_eq!(lookup("unknown"), None);
}

#[test]
fn match_scores() {
    assert_eq!(single_command_match_score("li", "listen"), Some(496));
    assert_eq!(single_command_match_score("ten", "listen"), Some(347));
    assert_eq!(single_command_match_score("lsn", "listen"), Some(192));
    assert_eq!(single_command_match_score("xyz", "listen"), None);
    assert_eq!(single_command_match_score("", "listen"), Some(1));
    assert_eq!(command_match_score("LI", "/listen"), Some(496));
    assert_eq!(command_match_score("qu", "/exit"), Some(473));
    assert_eq!(command_match_score("  ", "/exit"), Some(1));
    assert_eq!(command_aliases("exit"), &["quit"]);
    assert!(command_aliases("listen").is_empty());
}

#[test]
fn popup_lists_matches_by_group_then_score() {
    let mut p = Palette::new();
    p.recompute("/mo");
    assert!(p.popup_visible);
    let names: Vec<&str> = p.filtered_commands.iter().map(|&i| ALL_COMMANDS[i].name()).collect();
    assert_eq!(names[0], "/models");
    assert!(names.contains(&"/models download"));
    assert_eq!(p.selected_index, 0);
    p.select_next();
    assert_eq!(p.selected_index, 1);
    p.select_previous();
    p.select_previous();
    assert_eq!(p.selected_index, 0);
    assert_eq!(p.selected_command_name(), Some("/models"));

    p.recompute("   ");
    assert!(!p.popup_visible);
    assert!(p.filtered_commands.is_empty());

    p.recompute("zzzz");
    assert!(p.popup_visible);
    assert_eq!(p.filtered_commands.len(), 14);
}

#[test]
fn visible_commands_carry_disabled_reasons() {
    let mut p = Palette::new();
    p.recompute("listen");
    let rows = p.visible_commands(&None, &None);
    assert_eq!(rows[0].name, "/listen");
    assert_eq!(rows[0].group, "Session");
    assert_eq!(rows[0].disabled_reason, Some("no STT provider"));
}
