use monitor_ui::{
    Action, DialogKind, EvalStatus, EvalStatusPage, Event, KeyCode, KeyInput, Layer, Rect, Ui, UiActions, UiTabs,
    MOD_CONTROL, TAB_COUNT,
};

fn status_with_countdown(c: u64) -> Option<EvalStatus> {
    Some(EvalStatus {
        is_evaluation_platform: true,
        phase: String::new(),
        current_slot: String::new(),
        allow_onboard: false,
        note: String::new(),
        test_start_time: String::new(),
        test_duration: 0,
        reboot_countdown: c,
        inventory_collected: false,
        inventory_dir: String::new(),
        last_updated: String::new(),
    })
}

fn name_of(l: &Layer) -> Option<String> {
    match l {
        Layer::Dialog(d) => Some(d.name.clone()),
        Layer::InputDialog { caption, .. } => Some(caption.clone()),
        _ => None,
    }
}

fn count_named(ui: &Ui, tab: UiTabs, name: &str) -> usize {
    ui.layers(tab).iter().filter(|l| name_of(l).as_deref() == Some(name)).count()
}

fn top_name(ui: &Ui, tab: UiTabs) -> Option<String> {
    ui.layers(tab).last().and_then(name_of)
}

fn key(code: KeyCode, modifiers: u8) -> Event {
    Event::Key(KeyInput { code, modifiers })
}

fn dismiss_from(src: &str) -> Option<Action> {
    Some(Action::new(src, UiActions::DismissDialog))
}

fn started_ui() -> Ui {
    let mut ui = Ui::new();
    ui.init();
    ui
}

#[test]
fn new_ui_has_empty_stacks() {
    let ui = Ui::new();
    assert_eq!(ui.selected_tab(), UiTabs::Summary);
    for t in UiTabs::all() {
        assert!(ui.layers(t).is_empty());
    }
    assert!(!ui.connection_popup_shown());
    assert!(!ui.reboot_warning_shown());
    assert!(!ui.startup_warning_visible());
}

#[test]
fn init_puts_each_page_on_its_tab() {
    let ui = started_ui();
    for t in UiTabs::all() {
        let s = ui.layers(t);
        assert_eq!(s.len(), 1);
        assert!(matches!(s[0], Layer::Page(p) if p == t));
    }
}

#[test]
fn first_frame_clears_once() {
    let mut ui = started_ui();
    assert!(ui.take_first_frame());
    assert!(!ui.take_first_frame());
}

#[test]
fn screen_layout_rows() {
    let mut ui = started_ui();
    let area = Rect { x: 0, y: 0, width: 80, height: 24 };
    let l = ui.screen_layout(area, 10);
    assert!(l.clear_screen);
    assert_eq!(l.body, Rect { x: 0, y: 3, width: 80, height: 18 });
    assert_eq!(l.status_bar, Rect { x: 0, y: 21, width: 80, height: 3 });
    assert_eq!(l.tabs, Rect { x: 0, y: 0, width: 70, height: 3 });
    assert_eq!(l.version, Rect { x: 70, y: 0, width: 10, height: 3 });
    assert_eq!(l.selected_tab, 0);
    assert_eq!(l.layer_count, 1);
    assert_eq!(l.focused_layer, 0);
    let again = ui.screen_layout(area, 10);
    assert!(!again.clear_screen);
}

#[test]
fn connection_popup_shown_on_every_tab_and_dismissed() {
    let mut ui = started_ui();
    ui.show_connection_popup("Connecting to EVE...");
    assert!(ui.connection_popup_shown());
    for t in UiTabs::all() {
        assert_eq!(ui.layers(t).len(), 2);
        assert_eq!(top_name(&ui, t).as_deref(), Some(" EVE Connection "));
    }
    ui.dismiss_connection_popup();
    assert!(!ui.connection_popup_shown());
    for t in UiTabs::all() {
        assert_eq!(ui.layers(t).len(), 1);
    }
    // dismissing again is a no-op
    ui.dismiss_connection_popup();
    for t in UiTabs::all() {
        assert_eq!(ui.layers(t).len(), 1);
    }
}

#[test]
fn connection_popup_shown_twice_keeps_first() {
    let mut ui = started_ui();
    ui.show_connection_popup("first");
    ui.show_connection_popup("second");
    for t in UiTabs::all() {
        assert_eq!(count_named(&ui, t, " EVE Connection "), 1);
        assert_eq!(ui.layers(t).len(), 2);
        match ui.layers(t).last() {
            Some(Layer::Dialog(d)) => {
                assert!(matches!(&d.kind, DialogKind::SystemMessageBox(m) if m == "first"))
            }
            _ => panic!("popup expected on top"),
        }
    }
}

#[test]
fn dismissing_popup_keeps_windows_above_it() {
    let mut ui = started_ui();
    ui.show_connection_popup("connecting");
    ui.message_box("Q", "?");
    ui.dismiss_connection_popup();
    assert_eq!(ui.layers(UiTabs::Summary).len(), 2);
    assert_eq!(top_name(&ui, UiTabs::Summary).as_deref(), Some("Q"));
    assert_eq!(count_named(&ui, UiTabs::Summary, " EVE Connection "), 0);
}

#[test]
fn every_tab_keeps_a_stack() {
    let mut ui = started_ui();
    ui.show_eval_startup_warning();
    ui.pop_layer();
    assert_eq!(ui.layers(UiTabs::Summary).len(), 1);
    for tab in [UiTabs::Network, UiTabs::Applications, UiTabs::Vault, UiTabs::Dmesg, UiTabs::EvalStatus] {
        assert_eq!(ui.layers(tab).len(), 2);
        assert_eq!(top_name(&ui, tab).as_deref(), Some(" Evaluation Mode "));
    }
    assert!(ui.startup_warning_visible());
}

#[test]
fn status_bar_hint_follows_top_window() {
    let mut ui = Ui::new();
    let mut page = EvalStatusPage::new();
    assert_eq!(ui.status_bar_hint(&page, Some("x".to_string())), None);
    ui.init();
    assert_eq!(ui.status_bar_hint(&page, Some("summary tips".to_string())).as_deref(), Some("summary tips"));
    for _ in 0..TAB_COUNT {
        ui.handle_event(key(KeyCode::Right, MOD_CONTROL), None);
    }
    assert_eq!(ui.selected_tab(), UiTabs::EvalStatus);
    assert_eq!(
        ui.status_bar_hint(&page, None).as_deref(),
        Some("Evaluation Status - waiting for data from EVE")
    );
    page.render(40, &status_with_countdown(0));
    assert_eq!(
        ui.status_bar_hint(&page, None).as_deref(),
        Some("Evaluation Status - device is running in evaluation mode")
    );
    ui.message_box("Q", "?");
    assert_eq!(ui.status_bar_hint(&page, Some("dialog".to_string())).as_deref(), Some("dialog"));
}

#[test]
fn tick_actions_keep_order() {
    let ui = started_ui();
    let answers = vec![
        Some(Action::new("a", UiActions::Redraw)),
        None,
        Some(Action::new("b", UiActions::Quit)),
        None,
    ];
    let out = ui.tick_actions(answers);
    let srcs: Vec<&str> = out.iter().map(|a| a.source.as_str()).collect();
    assert_eq!(srcs, vec!["a", "b"]);
    assert!(ui.tick_actions(vec![None, None]).is_empty());
}

#[test]
fn dialog_on_top_answers_keys_itself() {
    let mut ui = started_ui();
    assert!(ui.top_dialog_key_response(KeyInput { code: KeyCode::Esc, modifiers: 0 }).is_none());
    ui.message_box("Q", "?");
    let r = ui.top_dialog_key_response(KeyInput { code: KeyCode::Esc, modifiers: 0 });
    let a = r.expect("dialog on top").expect("esc dismisses");
    assert_eq!(a.source, "Q");
    let r = ui.top_dialog_key_response(KeyInput { code: KeyCode::Enter, modifiers: 0 });
    assert!(matches!(r, Some(None)));
}

#[test]
fn startup_warning_shown_once() {
    let mut ui = started_ui();
    ui.show_eval_startup_warning();
    assert!(ui.startup_warning_visible());
    for t in UiTabs::all() {
        assert_eq!(count_named(&ui, t, " Evaluation Mode "), 1);
    }
    ui.show_eval_startup_warning();
    for t in UiTabs::all() {
        assert_eq!(count_named(&ui, t, " Evaluation Mode "), 1);
        assert_eq!(ui.layers(t).len(), 2);
    }
}

#[test]
fn startup_warning_text_uses_line_continuations() {
    let mut ui = started_ui();
    ui.show_eval_startup_warning();
    match ui.layers(UiTabs::Vault).last() {
        Some(Layer::Dialog(d)) => match &d.kind {
            DialogKind::InfoBox(m) => {
                assert!(m.starts_with("This device is running in EVALUATION MODE.\n\nThe device"));
                assert!(m.contains("\nDO NOT change any settings\nDO NOT manually reboot the device\n"));
                assert!(m.ends_with("Check the Eval Status tab for the reboot countdown."));
            }
            _ => panic!("info box expected"),
        },
        _ => panic!("dialog expected"),
    }
}

#[test]
fn dismissing_startup_warning_removes_it_everywhere() {
    let mut ui = started_ui();
    ui.show_eval_startup_warning();
    let r = ui.handle_event(key(KeyCode::Esc, 0), dismiss_from(" Evaluation Mode "));
    assert!(r.is_none());
    assert!(!ui.startup_warning_visible());
    for t in UiTabs::all() {
        assert_eq!(count_named(&ui, t, " Evaluation Mode "), 0);
        assert_eq!(ui.layers(t).len(), 1);
    }
    // never shown again
    ui.show_eval_startup_warning();
    for t in UiTabs::all() {
        assert_eq!(ui.layers(t).len(), 1);
    }
}

#[test]
fn reboot_warning_appears_when_crossing_five_minutes() {
    let mut ui = started_ui();
    ui.check_and_show_reboot_warning(&status_with_countdown(600));
    assert!(!ui.reboot_warning_shown());
    ui.check_and_show_reboot_warning(&status_with_countdown(299));
    assert!(ui.reboot_warning_shown());
    for t in UiTabs::all() {
        assert_eq!(count_named(&ui, t, "Reboot Warning"), 1);
        assert_eq!(top_name(&ui, t).as_deref(), Some("Reboot Warning"));
    }
    // same countdown again: nothing new
    ui.check_and_show_reboot_warning(&status_with_countdown(299));
    ui.check_and_show_reboot_warning(&status_with_countdown(200));
    for t in UiTabs::all() {
        assert_eq!(count_named(&ui, t, "Reboot Warning"), 1);
        assert_eq!(ui.layers(t).len(), 2);
    }
}

#[test]
fn reboot_warning_refreshed_below_one_minute() {
    let mut ui = started_ui();
    ui.check_and_show_reboot_warning(&status_with_countdown(120));
    ui.check_and_show_reboot_warning(&status_with_countdown(59));
    for t in UiTabs::all() {
        assert_eq!(count_named(&ui, t, "Reboot Warning"), 1);
        match ui.layers(t).last() {
            Some(Layer::Dialog(d)) => {
                assert!(matches!(&d.kind, DialogKind::RebootWarning(s) if s.countdown_secs == 59))
            }
            _ => panic!("warning expected"),
        }
    }
    ui.check_and_show_reboot_warning(&status_with_countdown(30));
    for t in UiTabs::all() {
        assert_eq!(ui.layers(t).len(), 2);
    }
}

#[test]
fn reboot_warning_cleared_when_not_scheduled() {
    let mut ui = started_ui();
    ui.check_and_show_reboot_warning(&status_with_countdown(100));
    assert!(ui.reboot_warning_shown());
    ui.check_and_show_reboot_warning(&status_with_countdown(0));
    assert!(!ui.reboot_warning_shown());
    for t in UiTabs::all() {
        assert_eq!(count_named(&ui, t, "Reboot Warning"), 0);
    }
    // a new schedule shows it again
    ui.check_and_show_reboot_warning(&status_with_countdown(250));
    assert!(ui.reboot_warning_shown());
}

#[test]
fn no_status_changes_nothing() {
    let mut ui = started_ui();
    ui.check_and_show_reboot_warning(&None);
    assert!(!ui.reboot_warning_shown());
    for t in UiTabs::all() {
        assert_eq!(ui.layers(t).len(), 1);
    }
}

#[test]
fn acknowledging_reboot_warning_removes_it_everywhere() {
    let mut ui = started_ui();
    ui.check_and_show_reboot_warning(&status_with_countdown(100));
    let r = ui.handle_event(key(KeyCode::Enter, 0), dismiss_from("Reboot Warning"));
    assert!(r.is_none());
    assert!(!ui.reboot_warning_shown());
    for t in UiTabs::all() {
        assert_eq!(ui.layers(t).len(), 1);
    }
}

#[test]
fn other_dismiss_pops_top_of_selected_tab_only() {
    let mut ui = started_ui();
    ui.message_box("Question", "Sure?");
    assert_eq!(ui.layers(UiTabs::Summary).len(), 2);
    let r = ui.handle_event(key(KeyCode::Esc, 0), dismiss_from("Question"));
    assert!(r.is_none());
    assert_eq!(ui.layers(UiTabs::Summary).len(), 1);
    assert_eq!(ui.layers(UiTabs::Network).len(), 1);
}

#[test]
fn ok_and_cancel_buttons_pop() {
    let mut ui = started_ui();
    ui.show_server_url_dialog("https://example.net");
    ui.show_ip_dialog("eth0");
    assert_eq!(ui.layers(UiTabs::Summary).len(), 3);
    let ok = Some(Action::new("x", UiActions::ButtonClicked("Ok".to_string())));
    ui.handle_event(key(KeyCode::Enter, 0), ok);
    assert_eq!(ui.layers(UiTabs::Summary).len(), 2);
    let other = Some(Action::new("x", UiActions::ButtonClicked("OK".to_string())));
    ui.handle_event(key(KeyCode::Enter, 0), other);
    assert_eq!(ui.layers(UiTabs::Summary).len(), 2);
    let cancel = Some(Action::new("x", UiActions::ButtonClicked("Cancel".to_string())));
    ui.handle_event(key(KeyCode::Enter, 0), cancel);
    assert_eq!(ui.layers(UiTabs::Summary).len(), 1);
}

#[test]
fn other_actions_are_returned() {
    let mut ui = started_ui();
    let r = ui.handle_event(
        key(KeyCode::Right, MOD_CONTROL),
        Some(Action::new("page", UiActions::Redraw)),
    );
    let a = r.expect("returned");
    assert_eq!(a.source, "page");
    assert!(matches!(a.action, UiActions::Redraw));
    // returned before the tab keys are looked at
    assert_eq!(ui.selected_tab(), UiTabs::Summary);
}

#[test]
fn ctrl_arrows_switch_tabs() {
    let mut ui = started_ui();
    ui.handle_event(key(KeyCode::Right, MOD_CONTROL), None);
    assert_eq!(ui.selected_tab(), UiTabs::Network);
    ui.handle_event(key(KeyCode::Right, 0), None);
    assert_eq!(ui.selected_tab(), UiTabs::Network);
    ui.handle_event(key(KeyCode::Left, MOD_CONTROL), None);
    ui.handle_event(key(KeyCode::Left, MOD_CONTROL), None);
    assert_eq!(ui.selected_tab(), UiTabs::Summary);
    for _ in 0..TAB_COUNT + 2 {
        ui.handle_event(key(KeyCode::Right, MOD_CONTROL), None);
    }
    assert_eq!(ui.selected_tab(), UiTabs::EvalStatus);
}

#[test]
fn keys_ignored_on_empty_tab() {
    let mut ui = Ui::new();
    let r = ui.handle_event(key(KeyCode::Right, MOD_CONTROL), Some(Action::new("p", UiActions::Quit)));
    assert!(r.is_none());
    assert_eq!(ui.selected_tab(), UiTabs::Summary);
}

#[test]
fn tick_changes_nothing() {
    let mut ui = started_ui();
    ui.message_box("Q", "?");
    let r = ui.handle_event(Event::Tick, dismiss_from("Q"));
    assert!(r.is_none());
    assert_eq!(ui.layers(UiTabs::Summary).len(), 2);
    let r = ui.handle_event(Event::Other, dismiss_from("Q"));
    assert!(r.is_none());
    assert_eq!(ui.layers(UiTabs::Summary).len(), 2);
}

#[test]
fn pop_layer_returns_top() {
    let mut ui = started_ui();
    ui.message_box("Q", "?");
    let l = ui.pop_layer().expect("top");
    assert_eq!(name_of(&l).as_deref(), Some("Q"));
    let page = ui.pop_layer().expect("page");
    assert!(matches!(page, Layer::Page(UiTabs::Summary)));
    assert!(ui.pop_layer().is_none());
}
