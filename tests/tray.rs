use focus::tray::{
    handle_tray_event, hide_window, make_tray, toggle_label, TrayAction, TrayEvent, TrayState,
    QUIT_ID, TOGGLE_ID,
};

fn click(id: &str) -> TrayEvent {
    TrayEvent::MenuItemClick { id: id.to_string() }
}

#[test]
fn tray_menu_has_toggle_then_quit() {
    let items = make_tray();
    assert_eq!(items.len(), 2);
    assert_eq!(items[0].id, "toggle");
    assert_eq!(items[0].title, "Hide");
    assert_eq!(items[1].id, "quit");
    assert_eq!(items[1].title, "Quit");
    assert_eq!(TOGGLE_ID, "toggle");
    assert_eq!(QUIT_ID, "quit");
}

#[test]
fn toggle_labels() {
    assert_eq!(toggle_label(TrayState::Visible), Some("Hide".to_string()));
    assert_eq!(toggle_label(TrayState::Hidden), Some("Show".to_string()));
    assert_eq!(toggle_label(TrayState::Exited), None);
}

#[test]
fn toggle_twice_from_visible() {
    let (s1, a1) = handle_tray_event(TrayState::Visible, &click("toggle"));
    assert_eq!(s1, TrayState::Hidden);
    assert_eq!(a1, TrayAction::HideWindow);
    assert_eq!(toggle_label(s1), Some("Show".to_string()));
    let (s2, a2) = handle_tray_event(s1, &click("toggle"));
    assert_eq!(s2, TrayState::Visible);
    assert_eq!(a2, TrayAction::ShowAndCenter);
    assert_eq!(toggle_label(s2), Some("Hide".to_string()));
}

#[test]
fn hide_while_hidden_stays_hidden() {
    let (s, a) = hide_window(TrayState::Hidden);
    assert_eq!(s, TrayState::Hidden);
    assert_eq!(a, TrayAction::HideWindow);
    assert_eq!(toggle_label(s), Some("Show".to_string()));
    assert_eq!(hide_window(s), (s, a));
}

#[test]
fn hide_while_visible() {
    assert_eq!(hide_window(TrayState::Visible), (TrayState::Hidden, TrayAction::HideWindow));
}

#[test]
fn quit_from_either_state_exits_with_zero() {
    for start in [TrayState::Visible, TrayState::Hidden] {
        let (s, a) = handle_tray_event(start, &click("quit"));
        assert_eq!(s, TrayState::Exited);
        assert_eq!(a, TrayAction::Exit { code: 0 });
        assert_eq!(handle_tray_event(s, &click("toggle")), (TrayState::Exited, TrayAction::Nothing));
        assert_eq!(handle_tray_event(s, &click("quit")), (TrayState::Exited, TrayAction::Nothing));
        assert_eq!(hide_window(s), (TrayState::Exited, TrayAction::Nothing));
    }
}

#[test]
fn other_events_do_nothing() {
    assert_eq!(
        handle_tray_event(TrayState::Visible, &TrayEvent::Other),
        (TrayState::Visible, TrayAction::Nothing)
    );
    assert_eq!(
        handle_tray_event(TrayState::Hidden, &click("settings")),
        (TrayState::Hidden, TrayAction::Nothing)
    );
    assert_eq!(
        handle_tray_event(TrayState::Visible, &click("Toggle")),
        (TrayState::Visible, TrayAction::Nothing)
    );
}
