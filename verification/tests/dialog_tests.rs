use monitor_ui::{
    create_info_box, create_message_box, create_reboot_warning_dialog, create_system_message_box,
    decimal_text, reboot_message_text, Color, DialogKind, KeyCode, KeyInput, Rect, UiActions, Widget,
    MOD_CONTROL,
};

fn key(code: KeyCode) -> KeyInput {
    KeyInput { code, modifiers: 0 }
}

fn widget_summary(ws: &[monitor_ui::WidgetEntry]) -> Vec<(String, String, bool)> {
    ws.iter()
        .map(|e| match &e.widget {
            Widget::Label(t) => (e.id.clone(), t.clone(), false),
            Widget::Button(t) => (e.id.clone(), t.clone(), true),
        })
        .collect()
}

#[test]
fn decimal_text_writes_numbers() {
    assert_eq!(decimal_text(0), "0");
    assert_eq!(decimal_text(7), "7");
    assert_eq!(decimal_text(10), "10");
    assert_eq!(decimal_text(299), "299");
    assert_eq!(decimal_text(u64::MAX), u64::MAX.to_string());
}

#[test]
fn reboot_message_imminent_below_one_minute() {
    assert_eq!(
        reboot_message_text(45),
        "⚠ REBOOT IMMINENT ⚠\n\nDevice will reboot in 45 seconds!\n\nDo not turn off or force restart."
    );
}

#[test]
fn reboot_message_warning_with_minutes() {
    assert_eq!(
        reboot_message_text(125),
        "⚠ REBOOT WARNING ⚠\n\nDevice will reboot soon (in 2m 5s)\n\nSave any work and prepare for restart."
    );
    assert_eq!(
        reboot_message_text(60),
        "⚠ REBOOT WARNING ⚠\n\nDevice will reboot soon (in 1m 0s)\n\nSave any work and prepare for restart."
    );
}

#[test]
fn message_box_widgets_and_focus() {
    let d = create_message_box("Title", "Hello");
    assert_eq!(d.name, "Title");
    assert!(matches!(&d.kind, DialogKind::MessageBox(c) if c == "Hello"));
    assert_eq!(
        widget_summary(&d.widgets()),
        vec![
            ("label".to_string(), "Hello".to_string(), false),
            ("ok".to_string(), "OK".to_string(), true),
            ("cancel".to_string(), "Cancel".to_string(), true),
        ]
    );
    assert_eq!(d.focus_order(), vec!["ok".to_string(), "cancel".to_string()]);
    assert_eq!(d.size(), (50, 14));
}

#[test]
fn info_box_has_only_ok() {
    let d = create_info_box("Notice", "Body");
    assert_eq!(
        widget_summary(&d.widgets()),
        vec![
            ("label".to_string(), "Body".to_string(), false),
            ("ok".to_string(), "OK".to_string(), true),
        ]
    );
    assert_eq!(d.focus_order(), vec!["ok".to_string()]);
    assert_eq!(d.size(), (52, 16));
}

#[test]
fn system_message_box_has_only_a_label_and_ignores_keys() {
    let d = create_system_message_box(" EVE Connection ", "Connecting...");
    assert_eq!(
        widget_summary(&d.widgets()),
        vec![("label".to_string(), "Connecting...".to_string(), false)]
    );
    assert!(d.focus_order().is_empty());
    assert!(d.on_key_event(key(KeyCode::Esc)).is_none());
    assert!(d.on_key_event(key(KeyCode::Enter)).is_none());
    let src = "ok".to_string();
    assert!(d.on_child_ui_action(&src, &UiActions::ButtonClicked("OK".to_string())).is_none());
    assert_eq!(d.size(), (40, 7));
}

#[test]
fn message_box_dismisses_on_esc_only() {
    let d = create_message_box("Title", "Hello");
    let a = d.on_key_event(key(KeyCode::Esc)).expect("esc dismisses");
    assert_eq!(a.source, "Title");
    assert!(matches!(a.action, UiActions::DismissDialog));
    assert!(d.on_key_event(key(KeyCode::Enter)).is_none());
    assert!(d.on_key_event(key(KeyCode::Char('q'))).is_none());
    let ctrl_esc = KeyInput { code: KeyCode::Esc, modifiers: MOD_CONTROL };
    assert!(d.on_key_event(ctrl_esc).is_some());
}

#[test]
fn button_press_dismisses_dialogs() {
    let d = create_info_box("Notice", "Body");
    let src = "ok".to_string();
    let a = d
        .on_child_ui_action(&src, &UiActions::ButtonClicked("OK".to_string()))
        .expect("button dismisses");
    assert_eq!(a.source, "Notice");
    assert!(matches!(a.action, UiActions::DismissDialog));
    assert!(d.on_child_ui_action(&src, &UiActions::Redraw).is_none());
}

#[test]
fn reboot_warning_dialog_contents() {
    let d = create_reboot_warning_dialog(30);
    assert_eq!(d.name, "Reboot Warning");
    assert_eq!(
        widget_summary(&d.widgets()),
        vec![
            ("label".to_string(), reboot_message_text(30), false),
            ("ok".to_string(), "Acknowledge".to_string(), true),
        ]
    );
    assert_eq!(d.focus_order(), vec!["ok".to_string()]);
    assert_eq!(d.size(), (50, 12));
}

#[test]
fn reboot_warning_dismisses_on_esc_and_enter() {
    let d = create_reboot_warning_dialog(200);
    for code in [KeyCode::Esc, KeyCode::Enter] {
        let a = d.on_key_event(key(code)).expect("dismiss");
        assert_eq!(a.source, "Reboot Warning");
        assert!(matches!(a.action, UiActions::DismissDialog));
    }
    assert!(d.on_key_event(key(KeyCode::Left)).is_none());
    let src = "ok".to_string();
    assert!(d
        .on_child_ui_action(&src, &UiActions::ButtonClicked("Acknowledge".to_string()))
        .is_some());
}

#[test]
fn reboot_warning_border_turns_red_below_one_minute() {
    let urgent = create_reboot_warning_dialog(59).frame_style();
    assert_eq!(urgent.border, Color::Red);
    assert!(urgent.bold_border);
    assert_eq!(urgent.title, " Reboot Warning ");
    let soon = create_reboot_warning_dialog(60).frame_style();
    assert_eq!(soon.border, Color::Yellow);
    let mb = create_message_box("Title", "x").frame_style();
    assert_eq!(mb.title, "Title");
    assert_eq!(mb.border, Color::White);
    assert!(!mb.bold_border);
}

fn area_of(v: &[monitor_ui::NamedArea], id: &str) -> Rect {
    v.iter().find(|n| n.id == id).expect("area").area
}

#[test]
fn system_box_layout_uses_inner_frame() {
    let d = create_system_message_box("S", "x");
    let frame = Rect { x: 10, y: 5, width: 40, height: 7 };
    let l = d.layout(frame);
    assert_eq!(l.len(), 2);
    assert_eq!(area_of(&l, "frame"), frame);
    assert_eq!(area_of(&l, "label"), Rect { x: 11, y: 6, width: 38, height: 5 });
}

#[test]
fn tiny_frame_has_empty_inside() {
    let d = create_system_message_box("S", "x");
    let frame = Rect { x: 10, y: 5, width: 1, height: 7 };
    let l = d.layout(frame);
    assert_eq!(area_of(&l, "label"), Rect { x: 0, y: 0, width: 0, height: 0 });
}

#[test]
fn message_box_layout_puts_buttons_at_the_bottom() {
    let d = create_message_box("T", "x");
    let frame = Rect { x: 0, y: 0, width: 50, height: 14 };
    let l = d.layout(frame);
    let ids: Vec<&str> = l.iter().map(|n| n.id.as_str()).collect();
    assert_eq!(ids, vec!["frame", "label", "ok", "cancel"]);
    assert_eq!(area_of(&l, "label"), Rect { x: 1, y: 1, width: 48, height: 9 });
    let ok = area_of(&l, "ok");
    let cancel = area_of(&l, "cancel");
    assert_eq!((ok.y, ok.height, ok.width), (10, 3, 6));
    assert_eq!((cancel.y, cancel.height, cancel.width), (10, 3, 10));
    assert_eq!(cancel.x, ok.x + 6);
    assert_eq!(cancel.x + cancel.width, 48);
}

#[test]
fn info_box_layout_centres_ok() {
    let d = create_info_box("T", "x");
    let frame = Rect { x: 0, y: 0, width: 52, height: 16 };
    let l = d.layout(frame);
    let ok = area_of(&l, "ok");
    assert_eq!(ok.width, 6);
    assert_eq!(ok.x, 1 + (50 - 6) / 2);
    assert_eq!((ok.y, ok.height), (12, 3));
}

#[test]
fn reboot_warning_layout_label_is_five_rows() {
    let d = create_reboot_warning_dialog(100);
    let frame = Rect { x: 0, y: 0, width: 50, height: 12 };
    let l = d.layout(frame);
    assert_eq!(area_of(&l, "label"), Rect { x: 1, y: 1, width: 48, height: 5 });
    let ok = area_of(&l, "ok");
    assert_eq!((ok.width, ok.y, ok.height), (15, 8, 3));
    // 33 cells left beside the button: the odd one goes to the left
    assert_eq!(ok.x, 1 + 17);
}

#[test]
fn info_box_odd_room_puts_extra_cell_left() {
    let d = create_info_box("T", "x");
    let frame = Rect { x: 0, y: 0, width: 53, height: 16 };
    let l = d.layout(frame);
    let ok = area_of(&l, "ok");
    // inner width 51, 45 cells beside the button
    assert_eq!((ok.x, ok.width), (1 + 23, 6));
}

#[test]
fn cramped_message_box_stays_inside() {
    let d = create_message_box("T", "x");
    let frame = Rect { x: 5, y: 5, width: 12, height: 4 };
    let l = d.layout(frame);
    for n in &l[1..] {
        assert!(n.area.x >= 6 && n.area.x + n.area.width <= 16);
        assert!(n.area.y >= 6 && n.area.y + n.area.height <= 8);
    }
}
