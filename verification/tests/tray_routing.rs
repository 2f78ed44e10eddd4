use chill_overlay::text::same_text;
use chill_overlay::tray::{dispatch, tray_menu, FrontendEvent, TrayAction, TrayCommand, TrayEvent};

#[test]
fn menu_has_four_entries_in_display_order() {
    let menu = tray_menu();
    let ids: Vec<&str> = menu.iter().map(|item| item.id()).collect();
    let labels: Vec<&str> = menu.iter().map(|item| item.label()).collect();
    assert_eq!(ids, vec!["show", "sleep", "about", "quit"]);
    assert_eq!(labels, vec!["Show/Hide", "Toggle Sleep", "About", "Quit Chill"]);
}

#[test]
fn menu_identifiers_are_distinct() {
    let menu = tray_menu();
    for (i, a) in menu.iter().enumerate() {
        for (j, b) in menu.iter().enumerate() {
            if i != j {
                assert_ne!(a.id(), b.id());
            }
        }
    }
}

#[test]
fn every_menu_identifier_routes_to_its_own_command() {
    let expected = vec![
        TrayCommand::ShowHide,
        TrayCommand::ToggleSleep,
        TrayCommand::About,
        TrayCommand::Quit,
    ];
    let menu = tray_menu();
    assert_eq!(menu.len(), expected.len());
    for (item, command) in menu.iter().zip(expected) {
        assert_eq!(TrayCommand::from_id(item.id()), command);
    }
}

#[test]
fn identifiers_are_read_exactly() {
    assert_eq!(TrayCommand::from_id("quit"), TrayCommand::Quit);
    assert_eq!(TrayCommand::from_id("show"), TrayCommand::ShowHide);
    assert_eq!(TrayCommand::from_id("about"), TrayCommand::About);
    assert_eq!(TrayCommand::from_id("sleep"), TrayCommand::ToggleSleep);
    assert_eq!(TrayCommand::from_id(""), TrayCommand::Unknown);
    assert_eq!(TrayCommand::from_id("Quit"), TrayCommand::Unknown);
    assert_eq!(TrayCommand::from_id("quit "), TrayCommand::Unknown);
    assert_eq!(TrayCommand::from_id("qui"), TrayCommand::Unknown);
    assert_eq!(TrayCommand::from_id("hide"), TrayCommand::Unknown);
    assert_eq!(TrayCommand::from_id("Show/Hide"), TrayCommand::Unknown);
    assert_eq!(TrayCommand::from_id("sl\u{e9}ep"), TrayCommand::Unknown);
}

#[test]
fn quit_exits_with_code_zero() {
    assert_eq!(dispatch(TrayEvent::new("quit"), true), TrayAction::Exit { code: 0 });
}

#[test]
fn quit_needs_no_window() {
    assert_eq!(dispatch(TrayEvent::new("quit"), false), TrayAction::Exit { code: 0 });
}

#[test]
fn show_toggles_visibility() {
    assert_eq!(dispatch(TrayEvent::new("show"), true), TrayAction::ToggleVisibility);
}

#[test]
fn about_emits_tray_about() {
    let action = dispatch(TrayEvent::new("about"), true);
    assert_eq!(action, TrayAction::Emit { event: FrontendEvent::TrayAbout });
    match action {
        TrayAction::Emit { event } => assert_eq!(event.name(), "tray-about"),
        _ => panic!("about must emit"),
    }
}

#[test]
fn sleep_emits_tray_toggle_sleep() {
    let action = dispatch(TrayEvent::new("sleep"), true);
    assert_eq!(action, TrayAction::Emit { event: FrontendEvent::TrayToggleSleep });
    match action {
        TrayAction::Emit { event } => assert_eq!(event.name(), "tray-toggle-sleep"),
        _ => panic!("sleep must emit"),
    }
}

#[test]
fn unrecognized_identifier_does_nothing() {
    assert_eq!(dispatch(TrayEvent::new("settings"), true), TrayAction::Nothing);
    assert_eq!(dispatch(TrayEvent::new(""), true), TrayAction::Nothing);
    assert_eq!(dispatch(TrayEvent::new("QUIT"), true), TrayAction::Nothing);
    assert_eq!(dispatch(TrayEvent::new("tray-about"), false), TrayAction::Nothing);
}

#[test]
fn window_commands_do_nothing_without_a_window() {
    assert_eq!(dispatch(TrayEvent::new("show"), false), TrayAction::Nothing);
    assert_eq!(dispatch(TrayEvent::new("about"), false), TrayAction::Nothing);
    assert_eq!(dispatch(TrayEvent::new("sleep"), false), TrayAction::Nothing);
}

#[test]
fn command_actions_follow_the_routing_table() {
    assert_eq!(TrayCommand::Quit.action(true), TrayAction::Exit { code: 0 });
    assert_eq!(TrayCommand::ShowHide.action(true), TrayAction::ToggleVisibility);
    assert_eq!(
        TrayCommand::About.action(true),
        TrayAction::Emit { event: FrontendEvent::TrayAbout }
    );
    assert_eq!(
        TrayCommand::ToggleSleep.action(true),
        TrayAction::Emit { event: FrontendEvent::TrayToggleSleep }
    );
    assert_eq!(TrayCommand::Unknown.action(true), TrayAction::Nothing);
    assert_eq!(TrayCommand::Unknown.action(false), TrayAction::Nothing);
}

#[test]
fn an_event_keeps_its_identifier() {
    let event = TrayEvent::new("about");
    assert_eq!(event.id(), "about");
    assert_eq!(TrayEvent::new("").id(), "");
}

#[test]
fn rapid_clicks_are_routed_one_by_one() {
    let clicks = vec!["show", "show", "about", "nope", "sleep"];
    let actions: Vec<TrayAction> =
        clicks.iter().map(|id| dispatch(TrayEvent::new(id), true)).collect();
    assert_eq!(
        actions,
        vec![
            TrayAction::ToggleVisibility,
            TrayAction::ToggleVisibility,
            TrayAction::Emit { event: FrontendEvent::TrayAbout },
            TrayAction::Nothing,
            TrayAction::Emit { event: FrontendEvent::TrayToggleSleep },
        ]
    );
}

#[test]
fn text_comparison_is_by_characters() {
    assert!(same_text("quit", "quit"));
    assert!(same_text("", ""));
    assert!(!same_text("quit", "quid"));
    assert!(!same_text("quit", "quits"));
    assert!(!same_text("quits", "quit"));
    assert!(!same_text("", "a"));
    assert!(same_text("sl\u{e9}ep", "sl\u{e9}ep"));
    assert!(!same_text("sl\u{e9}ep", "sleep"));
}
