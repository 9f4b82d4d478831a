use keycounter::autostart::{toggle, AutostartChange};
use keycounter::settings::{close_action_to_save, get_close_action, is_close_action_text};
use keycounter::trend::{hour_series, parse_hour};
use keycounter::ui::{
    menu_action, on_close_answer, on_close_requested, user_event_for, CloseStep, MenuIdTexts,
    TrayAction, UserEvent,
};

#[test]
fn toggle_flips() {
    assert_eq!(toggle(true), (AutostartChange::Disable, false));
    assert_eq!(toggle(false), (AutostartChange::Enable, true));
}

#[test]
fn close_action_setting() {
    assert_eq!(get_close_action(Some("minimize")), "minimize");
    assert_eq!(get_close_action(Some("exit")), "exit");
    assert_eq!(get_close_action(Some("ask")), "ask");
    assert_eq!(get_close_action(Some("quit")), "ask");
    assert_eq!(get_close_action(None), "ask");
    assert!(is_close_action_text("exit"));
    assert!(!is_close_action_text("Exit"));
    assert_eq!(close_action_to_save(Some("minimize")), Some("minimize".to_string()));
    assert_eq!(close_action_to_save(Some("bogus")), None);
    assert_eq!(close_action_to_save(None), None);
}

#[test]
fn close_steps() {
    assert_eq!(on_close_requested("exit"), CloseStep::Exit);
    assert_eq!(on_close_requested("minimize"), CloseStep::ClosePanel);
    assert_eq!(on_close_requested("ask"), CloseStep::Ask);
    assert_eq!(on_close_requested("other"), CloseStep::Ask);
    assert_eq!(on_close_answer(true), CloseStep::ClosePanel);
    assert_eq!(on_close_answer(false), CloseStep::Exit);
}

#[test]
fn tray_menu() {
    let ids = MenuIdTexts {
        open: "1".into(),
        pause: "2".into(),
        autostart: "3".into(),
        export_csv: "4".into(),
        export_png: "5".into(),
        quit: "6".into(),
    };
    assert_eq!(menu_action("1", &ids), Some(TrayAction::OpenPanel));
    assert_eq!(menu_action("3", &ids), Some(TrayAction::ToggleAutostart));
    assert_eq!(menu_action("6", &ids), Some(TrayAction::Quit));
    assert_eq!(menu_action("7", &ids), None);
    assert_eq!(user_event_for(TrayAction::ExportPng), UserEvent::ExportPng);
    assert_eq!(user_event_for(TrayAction::TogglePause), UserEvent::TogglePause);
}

#[test]
fn hours() {
    assert_eq!(parse_hour("00"), Some(0));
    assert_eq!(parse_hour("09"), Some(9));
    assert_eq!(parse_hour("23"), Some(23));
    assert_eq!(parse_hour("24"), None);
    assert_eq!(parse_hour("+7"), Some(7));
    assert_eq!(parse_hour("-0"), Some(0));
    assert_eq!(parse_hour("-1"), None);
    assert_eq!(parse_hour("-"), None);
    assert_eq!(parse_hour(""), None);
    assert_eq!(parse_hour("1a"), None);
    assert_eq!(parse_hour("99999999999999999999"), None);
    let rows = vec![
        ("05".to_string(), 3i64),
        ("xx".to_string(), 9),
        ("23".to_string(), 7),
        ("05".to_string(), 4),
    ];
    let s = hour_series(&rows, 0);
    assert_eq!(s.len(), 24);
    assert_eq!(s[5], 4);
    assert_eq!(s[23], 7);
    assert_eq!(s[0], 0);
    let d = hour_series(&vec![("12".to_string(), 1.5f64)], 0.0);
    assert_eq!(d[12], 1.5);
    assert_eq!(d[11], 0.0);
}

#[test]
fn panel_and_pause_decisions() {
    assert_eq!(keycounter::ui::on_open_panel(true, false), keycounter::ui::PanelStep::Ignore);
    assert_eq!(keycounter::ui::on_open_panel(true, true), keycounter::ui::PanelStep::Ignore);
    assert_eq!(keycounter::ui::on_open_panel(false, true), keycounter::ui::PanelStep::Show);
    assert_eq!(keycounter::ui::on_open_panel(false, false), keycounter::ui::PanelStep::Create);
    assert!(keycounter::ui::toggled_pause(false));
    assert!(!keycounter::ui::toggled_pause(true));
}
