use monitor_ui::{
    age_text, format_age, format_duration_ns, format_start_time, separator,
    start_text, Color,
    EvalStatus, EvalStatusPage, Event, KeyCode, KeyInput, SpanStyle, TextLine, TextPiece,
};

fn pieces_text(p: &[TextPiece]) -> String {
    p.iter()
        .map(|x| match x {
            TextPiece::Str(s) => s.clone(),
            TextPiece::Secs(n) => format!("<{n}s>"),
        })
        .collect()
}

fn line_text(l: &TextLine) -> String {
    l.spans.iter().map(|s| pieces_text(&s.pieces)).collect()
}

fn status(eval: bool) -> EvalStatus {
    EvalStatus {
        is_evaluation_platform: eval,
        phase: "phase-2".to_string(),
        current_slot: "IMGB".to_string(),
        allow_onboard: false,
        note: String::new(),
        test_start_time: "not a timestamp".to_string(),
        test_duration: 90_000_000_000,
        reboot_countdown: 0,
        inventory_collected: false,
        inventory_dir: "/persist/inv".to_string(),
        last_updated: "0001-01-01T00:00:00Z".to_string(),
    }
}

#[test]
fn duration_below_one_second_is_dash() {
    assert_eq!(pieces_text(&format_duration_ns(0)), "—");
    assert_eq!(pieces_text(&format_duration_ns(999_999_999)), "—");
    assert_eq!(pieces_text(&format_duration_ns(1_000_000_000)), "<1s>");
    assert_eq!(pieces_text(&format_duration_ns(90_500_000_000)), "<90s>");
}

#[test]
fn age_text_cases() {
    assert_eq!(pieces_text(&age_text("garbage", None, 0)), "garbage");
    assert_eq!(pieces_text(&age_text("ts", Some((1, -62_135_596_800, 0)), 100)), "—");
    assert_eq!(pieces_text(&age_text("ts", Some((2024, 1000, 0)), -5)), "just now");
    assert_eq!(pieces_text(&age_text("ts", Some((2024, 1000, 0)), 1)), "just now");
    assert_eq!(pieces_text(&age_text("ts", Some((2024, 1000, 0)), 2)), "<2s> ago");
    assert_eq!(pieces_text(&age_text("ts", Some((2000, 1000, 0)), 3600)), "<3600s> ago");
}

fn age_secs(ts: &str) -> u64 {
    match format_age(ts).as_slice() {
        [TextPiece::Secs(n), TextPiece::Str(s)] if s == " ago" => *n,
        other => panic!("unexpected {:?}", other),
    }
}

#[test]
fn format_age_counts_from_the_instant() {
    let a = age_secs("2001-01-01T00:00:00Z");
    let b = age_secs("2001-01-01T00:00:10Z");
    let c = age_secs("2001-01-01T02:00:10+02:00");
    assert!(a - b >= 9 && a - b <= 11);
    assert!(b.abs_diff(c) <= 1);
    // a leap second parses and lies within a second of the next minute
    let d = age_secs("2016-12-31T23:59:60.5Z");
    let e = age_secs("2017-01-01T00:00:00Z");
    assert!(d.abs_diff(e) <= 2);
}

#[test]
fn start_text_cases() {
    assert_eq!(pieces_text(&start_text("bad", None, None, 0)), "bad");
    assert_eq!(pieces_text(&start_text("ts", Some((1, 0, 0)), None, 10)), "Not started");
    let fields = Some("2025-01-02 03:04:05");
    assert_eq!(
        pieces_text(&start_text("ts", Some((2025, 1000, 0)), fields, 120)),
        "2025-01-02 03:04:05 (<120s> ago)"
    );
    assert_eq!(
        pieces_text(&start_text("ts", Some((2025, 1000, 0)), fields, 0)),
        "2025-01-02 03:04:05 (just now)"
    );
}

#[test]
fn format_age_of_unparsable_text_is_the_text() {
    assert_eq!(pieces_text(&format_age("yesterday")), "yesterday");
}

#[test]
fn format_age_of_go_zero_time_is_dash() {
    assert_eq!(pieces_text(&format_age("0001-01-01T00:00:00Z")), "—");
}

#[test]
fn format_age_of_old_time_counts_seconds() {
    let p = format_age("2001-01-01T00:00:00Z");
    match p.as_slice() {
        [TextPiece::Secs(n), TextPiece::Str(s)] => {
            assert!(*n > 700_000_000);
            assert_eq!(s, " ago");
        }
        _ => panic!("unexpected {:?}", p),
    }
}

#[test]
fn format_age_of_future_time_is_just_now() {
    assert_eq!(pieces_text(&format_age("2999-01-01T00:00:00Z")), "just now");
}

#[test]
fn format_start_time_cases() {
    assert_eq!(pieces_text(&format_start_time("nope")), "nope");
    assert_eq!(pieces_text(&format_start_time("0001-01-01T00:00:00Z")), "Not started");
    let p = format_start_time("2001-01-01T00:00:00Z");
    assert_eq!(p.len(), 5);
    match &p[0] {
        TextPiece::Str(local) => {
            assert_eq!(local.len(), 19);
            assert!(local.starts_with("2000-12-31") || local.starts_with("2001-01-01"));
            assert_eq!(&local[4..5], "-");
            assert_eq!(&local[13..14], ":");
            assert_ne!(local, "2001-01-01T00:00:00Z");
        }
        _ => panic!("local time expected"),
    }
    assert!(pieces_text(&p).ends_with(" ago)"));
}

#[test]
fn separator_width_follows_area() {
    assert_eq!(separator(0), "─");
    assert_eq!(separator(3), "─");
    assert_eq!(separator(4), "──");
    assert_eq!(separator(12).chars().count(), 10);
}

#[test]
fn new_page_waits_for_data() {
    let p = EvalStatusPage::new();
    assert_eq!(
        p.status_bar_tips().as_deref(),
        Some("Evaluation Status - waiting for data from EVE")
    );
    let d = EvalStatusPage::default();
    assert_eq!(d.status_bar_tips(), p.status_bar_tips());
}

#[test]
fn page_ignores_events() {
    let mut p = EvalStatusPage::new();
    let k = Event::Key(KeyInput { code: KeyCode::Esc, modifiers: 0 });
    assert!(p.handle_event(k).is_none());
    assert!(p.handle_event(Event::Tick).is_none());
}

#[test]
fn render_without_status_waits() {
    let mut p = EvalStatusPage::new();
    let lines = p.render(40, &None);
    let texts: Vec<String> = lines.iter().map(line_text).collect();
    assert_eq!(texts, vec!["".to_string(), "Waiting for evaluation status data from EVE…".to_string()]);
    assert_eq!(lines[1].spans[0].style.fg, Some(Color::DarkGray));
}

#[test]
fn render_non_eval_platform() {
    let mut p = EvalStatusPage::new();
    let s = status(false);
    let lines = p.render(12, &Some(s));
    let texts: Vec<String> = lines.iter().map(line_text).collect();
    let sep = "─".repeat(10);
    assert_eq!(
        texts,
        vec![
            "".to_string(),
            "Not an evaluation platform".to_string(),
            "".to_string(),
            sep.clone(),
            "Status".to_string(),
            "Onboarding:        Blocked".to_string(),
            "".to_string(),
            sep.clone(),
            "Last Updated:      —".to_string(),
        ]
    );
    assert_eq!(
        p.status_bar_tips().as_deref(),
        Some("Evaluation Status - device is not an evaluation platform")
    );
}

#[test]
fn render_eval_platform() {
    let mut p = EvalStatusPage::new();
    let mut s = status(true);
    s.note = "be careful".to_string();
    s.reboot_countdown = 42;
    let lines = p.render(12, &Some(s));
    let texts: Vec<String> = lines.iter().map(line_text).collect();
    let sep = "─".repeat(10);
    assert_eq!(
        texts,
        vec![
            "".to_string(),
            "  ⚠  EVALUATION MODE ACTIVE  ⚠".to_string(),
            "This device is running in EVALUATION MODE.".to_string(),
            "Device will reboot several times during the test.".to_string(),
            "Do not change settings or manually reboot.".to_string(),
            "".to_string(),
            sep.clone(),
            "Status".to_string(),
            "Phase:             phase-2".to_string(),
            "Slot:              IMGB".to_string(),
            "Onboarding:        Blocked (evaluation in progress)".to_string(),
            "".to_string(),
            "Note:              be careful".to_string(),
            "".to_string(),
            sep.clone(),
            "Test".to_string(),
            "Started:           not a timestamp".to_string(),
            "Duration:          <90s>".to_string(),
            "⚠ REBOOT IN:       <42s>".to_string(),
            "".to_string(),
            sep.clone(),
            "Inventory".to_string(),
            "Collection:        In Progress".to_string(),
            "Directory:         /persist/inv".to_string(),
            "".to_string(),
            sep.clone(),
            "Last Updated:      —".to_string(),
        ]
    );
    let blink = SpanStyle { fg: Some(Color::Red), bold: true, slow_blink: true };
    assert_eq!(lines[18].spans[1].style, blink);
    assert_eq!(
        p.status_bar_tips().as_deref(),
        Some("Evaluation Status - device is running in evaluation mode")
    );
}

#[test]
fn reboot_line_colours() {
    let mut p = EvalStatusPage::new();
    for (secs, expect) in [
        (0u64, "Next Reboot:       Not scheduled"),
        (200, "⚠ Reboot in:       <200s>"),
        (300, "Next Reboot:       <300s>"),
    ] {
        let mut s = status(true);
        s.reboot_countdown = secs;
        s.inventory_collected = true;
        s.allow_onboard = true;
        let lines = p.render(12, &Some(s));
        let texts: Vec<String> = lines.iter().map(line_text).collect();
        assert!(texts.contains(&expect.to_string()), "{secs}: {texts:?}");
        assert!(texts.contains(&"Collection:        Complete".to_string()));
        assert!(texts.contains(&"Onboarding:        Allowed".to_string()));
        assert!(!texts.iter().any(|t| t.starts_with("Directory:")));
    }
}
