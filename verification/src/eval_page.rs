use vstd::prelude::*;

use crate::action::{Action, Event};
use crate::text::{
    bold_style, empty_line, empty_text_line, fg_style, line_of, line_of2, plain_style, str_line,
    str_span, str_span_of, style, Color, PieceView, Span, SpanStyle, SpanView, TextLine, TextPiece,
};
use crate::timefmt::{
    age_display, duration_display, format_age, format_duration_ns, format_start_time, pieces_view,
    local_time_pattern, rfc3339_parse, rfc3339_text_at, start_display, valid_now,
};

verus! {

/// The evaluation status that the device reports.
#[derive(Clone, Debug)]
pub struct EvalStatus {
    pub is_evaluation_platform: bool,
    pub phase: String,
    pub current_slot: String,
    pub allow_onboard: bool,
    pub note: String,
    /// RFC 3339 timestamp of the start of the evaluation test.
    pub test_start_time: String,
    /// Duration of the test in nanoseconds.
    pub test_duration: u64,
    /// Seconds until the next scheduled reboot; `0` when none is scheduled.
    pub reboot_countdown: u64,
    pub inventory_collected: bool,
    pub inventory_dir: String,
    /// RFC 3339 timestamp of the last update of this status.
    pub last_updated: String,
}

/// An [`EvalStatus`] as plain values.
pub struct EvalStatusView {
    pub is_evaluation_platform: bool,
    pub phase: Seq<char>,
    pub current_slot: Seq<char>,
    pub allow_onboard: bool,
    pub note: Seq<char>,
    pub test_start_time: Seq<char>,
    pub test_duration: u64,
    pub reboot_countdown: u64,
    pub inventory_collected: bool,
    pub inventory_dir: Seq<char>,
    pub last_updated: Seq<char>,
}

impl View for EvalStatus {
    type V = EvalStatusView;

    open spec fn view(&self) -> EvalStatusView {
        EvalStatusView {
            is_evaluation_platform: self.is_evaluation_platform,
            phase: self.phase@,
            current_slot: self.current_slot@,
            allow_onboard: self.allow_onboard,
            note: self.note@,
            test_start_time: self.test_start_time@,
            test_duration: self.test_duration,
            reboot_countdown: self.reboot_countdown,
            inventory_collected: self.inventory_collected,
            inventory_dir: self.inventory_dir@,
            last_updated: self.last_updated@,
        }
    }
}

/// The page of the evaluation status tab. It remembers what the last render
/// showed, for the status bar.
pub struct EvalStatusPage {
    is_eval_platform: bool,
    has_data: bool,
}

/// The lines of a page, as plain values.
pub open spec fn lines_view(v: Seq<TextLine>) -> Seq<Seq<SpanView>> {
    v.map_values(|l: TextLine| l@)
}

/// A span with the given pieces and style.
pub open spec fn pieces_span(p: Seq<PieceView>, st: SpanStyle) -> SpanView {
    SpanView { pieces: p, style: st }
}

/// A line of a label in the default style followed by a value.
pub open spec fn field_line(label: Seq<char>, value: SpanView) -> Seq<SpanView> {
    seq![str_span(label, plain_style()), value]
}

/// A horizontal rule of the given width in `─` characters.
pub open spec fn rule(width: nat) -> Seq<char> {
    Seq::new(width, |i: int| '─')
}

/// The width of the separator lines: the inside width of the page's border
/// (outer width minus two), at least one.
pub open spec fn separator_width(area_width: u16) -> nat {
    if area_width <= 3 { 1 } else { (area_width - 2) as nat }
}

/// A section heading: an empty line, a grey rule and the bold white title.
pub open spec fn section_heading(sep: Seq<char>, title: Seq<char>) -> Seq<Seq<SpanView>> {
    seq![empty_line(), str_line(sep, fg_style(Color::DarkGray)), str_line(title, bold_style(Color::White))]
}

/// The lines shown before the device has reported any evaluation status.
pub open spec fn waiting_lines() -> Seq<Seq<SpanView>> {
    seq![
        empty_line(),
        str_line("Waiting for evaluation status data from EVE…"@, fg_style(Color::DarkGray)),
    ]
}

/// The banner at the top of the page.
pub open spec fn header_lines(s: EvalStatusView) -> Seq<Seq<SpanView>> {
    if s.is_evaluation_platform {
        seq![
            empty_line(),
            str_line("  ⚠  EVALUATION MODE ACTIVE  ⚠"@, bold_style(Color::Yellow)),
            str_line("This device is running in EVALUATION MODE."@, plain_style()),
            str_line("Device will reboot several times during the test."@, plain_style()),
            str_line("Do not change settings or manually reboot."@, fg_style(Color::Yellow)),
        ]
    } else {
        seq![empty_line(), str_line("Not an evaluation platform"@, bold_style(Color::DarkGray))]
    }
}

/// The status section: phase and slot on evaluation platforms, onboarding,
/// and the note when there is one.
pub open spec fn status_lines_spec(s: EvalStatusView, sep: Seq<char>) -> Seq<Seq<SpanView>> {
    let phase: Seq<Seq<SpanView>> = if s.is_evaluation_platform {
        seq![
            field_line("Phase:             "@, str_span(s.phase, bold_style(Color::Cyan))),
            field_line("Slot:              "@, str_span(s.current_slot, fg_style(Color::Cyan))),
        ]
    } else {
        Seq::empty()
    };
    let onboard = if s.allow_onboard {
        str_span("Allowed"@, fg_style(Color::Green))
    } else if s.is_evaluation_platform {
        str_span("Blocked (evaluation in progress)"@, fg_style(Color::Yellow))
    } else {
        str_span("Blocked"@, fg_style(Color::DarkGray))
    };
    let note: Seq<Seq<SpanView>> = if s.note.len() > 0 {
        seq![empty_line(), field_line("Note:              "@, str_span(s.note, fg_style(Color::Yellow)))]
    } else {
        Seq::empty()
    };
    section_heading(sep, "Status"@) + phase + seq![field_line("Onboarding:        "@, onboard)] + note
}

/// The reboot countdown line: not scheduled at zero, red and blinking below
/// one minute, yellow below five minutes, green otherwise.
pub open spec fn reboot_line(secs: u64) -> Seq<SpanView> {
    if secs == 0 {
        field_line("Next Reboot:       "@, str_span("Not scheduled"@, fg_style(Color::DarkGray)))
    } else if secs < 60 {
        seq![
            str_span("⚠ REBOOT IN:       "@, bold_style(Color::Red)),
            pieces_span(seq![PieceView::Secs(secs)], SpanStyle { fg: Some(Color::Red), bold: true, slow_blink: true }),
        ]
    } else if secs < 300 {
        seq![
            str_span("⚠ Reboot in:       "@, bold_style(Color::Yellow)),
            pieces_span(seq![PieceView::Secs(secs)], bold_style(Color::Yellow)),
        ]
    } else {
        field_line("Next Reboot:       "@, pieces_span(seq![PieceView::Secs(secs)], fg_style(Color::Green)))
    }
}

/// The test and inventory sections, shown on evaluation platforms only.
pub open spec fn test_lines_spec(s: EvalStatusView, sep: Seq<char>, started: Seq<PieceView>) -> Seq<Seq<SpanView>> {
    let collection = if s.inventory_collected {
        str_span("Complete"@, fg_style(Color::Green))
    } else {
        str_span("In Progress"@, fg_style(Color::Yellow))
    };
    let dir: Seq<Seq<SpanView>> = if !s.inventory_collected && s.inventory_dir.len() > 0 {
        seq![field_line("Directory:         "@, str_span(s.inventory_dir, fg_style(Color::DarkGray)))]
    } else {
        Seq::empty()
    };
    section_heading(sep, "Test"@) + seq![
        field_line("Started:           "@, pieces_span(started, fg_style(Color::Green))),
        field_line("Duration:          "@, pieces_span(duration_display(s.test_duration), fg_style(Color::Cyan))),
        reboot_line(s.reboot_countdown),
    ] + section_heading(sep, "Inventory"@) + seq![field_line("Collection:        "@, collection)] + dir
}

/// The footer with the age of the status.
pub open spec fn footer_lines(sep: Seq<char>, updated: Seq<PieceView>) -> Seq<Seq<SpanView>> {
    seq![
        empty_line(),
        str_line(sep, fg_style(Color::DarkGray)),
        field_line("Last Updated:      "@, pieces_span(updated, fg_style(Color::DarkGray))),
    ]
}

/// The lines of the page for a reported status, given the texts of its start
/// time and of its age.
pub open spec fn page_lines(
    area_width: u16,
    s: EvalStatusView,
    started: Seq<PieceView>,
    updated: Seq<PieceView>,
) -> Seq<Seq<SpanView>> {
    let sep = rule(separator_width(area_width));
    header_lines(s) + status_lines_spec(s, sep) + (if s.is_evaluation_platform {
        test_lines_spec(s, sep, started)
    } else {
        Seq::empty()
    }) + footer_lines(sep, updated)
}

/// The status bar hint for a page that has (or has not) data and shows (or
/// does not show) an evaluation platform.
pub open spec fn page_tips(has_data: bool, is_eval_platform: bool) -> Seq<char> {
    if !has_data {
        "Evaluation Status - waiting for data from EVE"@
    } else if is_eval_platform {
        "Evaluation Status - device is running in evaluation mode"@
    } else {
        "Evaluation Status - device is not an evaluation platform"@
    }
}

/// Viewing a concatenation of lines is concatenating their views.
proof fn lemma_lines_view_concat(a: Seq<TextLine>, b: Seq<TextLine>)
    ensures
        lines_view(a + b) == lines_view(a) + lines_view(b),
{
    assert(lines_view(a + b) =~= lines_view(a) + lines_view(b));
}

fn push_line(v: &mut Vec<TextLine>, l: TextLine)
    ensures
        lines_view(final(v)@) == lines_view(old(v)@).push(l@),
{
    v.push(l);
    assert(lines_view(v@) =~= lines_view(old(v)@).push(l@));
}

fn append_lines(v: &mut Vec<TextLine>, w: Vec<TextLine>)
    ensures
        lines_view(final(v)@) == lines_view(old(v)@) + lines_view(w@),
{
    let mut w = w;
    let ghost wv = w@;
    v.append(&mut w);
    proof {
        lemma_lines_view_concat(old(v)@, wv);
    }
}

fn pieces_span_of(p: Vec<TextPiece>, st: SpanStyle) -> (r: Span)
    ensures
        r@ == pieces_span(pieces_view(p@), st),
{
    Span { pieces: p, style: st }
}

fn field(label: &str, value: Span) -> (l: TextLine)
    ensures
        l@ == field_line(label@, value@),
{
    line_of2(str_span_of(label, style(None, false, false)), value)
}

fn heading(sep: &str, title: &str) -> (v: Vec<TextLine>)
    ensures
        lines_view(v@) == section_heading(sep@, title@),
{
    let mut v: Vec<TextLine> = Vec::new();
    push_line(&mut v, empty_text_line());
    push_line(&mut v, line_of(str_span_of(sep, style(Some(Color::DarkGray), false, false))));
    push_line(&mut v, line_of(str_span_of(title, style(Some(Color::White), true, false))));
    assert(lines_view(v@) =~= section_heading(sep@, title@));
    v
}

/// The separator text for a page `area_width` cells wide.
pub fn separator(area_width: u16) -> (s: String)
    ensures
        s@ == rule(separator_width(area_width)),
{
    let n: u16 = if area_width <= 3 { 1 } else { area_width - 2 };
    let mut s = String::new();
    let mut i: u16 = 0;
    proof {
        reveal_strlit("─");
        assert("─"@ =~= seq!['─']);
        assert(s@ =~= rule(0));
    }
    while i < n
        invariant
            i <= n,
            n as nat == separator_width(area_width),
            s@ == rule(i as nat),
            "─"@ == seq!['─'],
        decreases n - i,
    {
        s.append("─");
        i = i + 1;
        assert(s@ =~= rule(i as nat));
    }
    s
}

/// The lines shown before the device has reported any evaluation status.
pub fn waiting_text() -> (v: Vec<TextLine>)
    ensures
        lines_view(v@) == waiting_lines(),
{
    let mut v: Vec<TextLine> = Vec::new();
    push_line(&mut v, empty_text_line());
    push_line(
        &mut v,
        line_of(str_span_of("Waiting for evaluation status data from EVE…", style(Some(Color::DarkGray), false, false))),
    );
    assert(lines_view(v@) =~= waiting_lines());
    v
}

fn header_text(s: &EvalStatus) -> (v: Vec<TextLine>)
    ensures
        lines_view(v@) == header_lines(s@),
{
    let mut v: Vec<TextLine> = Vec::new();
    push_line(&mut v, empty_text_line());
    if s.is_evaluation_platform {
        push_line(&mut v, line_of(str_span_of("  ⚠  EVALUATION MODE ACTIVE  ⚠", style(Some(Color::Yellow), true, false))));
        push_line(&mut v, line_of(str_span_of("This device is running in EVALUATION MODE.", style(None, false, false))));
        push_line(&mut v, line_of(str_span_of("Device will reboot several times during the test.", style(None, false, false))));
        push_line(&mut v, line_of(str_span_of("Do not change settings or manually reboot.", style(Some(Color::Yellow), false, false))));
    } else {
        push_line(&mut v, line_of(str_span_of("Not an evaluation platform", style(Some(Color::DarkGray), true, false))));
    }
    assert(lines_view(v@) =~= header_lines(s@));
    v
}

fn status_text(s: &EvalStatus, sep: &str) -> (v: Vec<TextLine>)
    ensures
        lines_view(v@) == status_lines_spec(s@, sep@),
{
    let mut v = heading(sep, "Status");
    let ghost h = lines_view(v@);
    if s.is_evaluation_platform {
        push_line(&mut v, field("Phase:             ", str_span_of(s.phase.as_str(), style(Some(Color::Cyan), true, false))));
        push_line(&mut v, field("Slot:              ", str_span_of(s.current_slot.as_str(), style(Some(Color::Cyan), false, false))));
    }
    let ghost hp = lines_view(v@);
    let onboard = if s.allow_onboard {
        str_span_of("Allowed", style(Some(Color::Green), false, false))
    } else if s.is_evaluation_platform {
        str_span_of("Blocked (evaluation in progress)", style(Some(Color::Yellow), false, false))
    } else {
        str_span_of("Blocked", style(Some(Color::DarkGray), false, false))
    };
    push_line(&mut v, field("Onboarding:        ", onboard));
    let ghost hpo = lines_view(v@);
    if !s.note.as_str().is_empty() {
        push_line(&mut v, empty_text_line());
        push_line(&mut v, field("Note:              ", str_span_of(s.note.as_str(), style(Some(Color::Yellow), false, false))));
    }
    proof {
        let sv = s@;
        let phase: Seq<Seq<SpanView>> = if sv.is_evaluation_platform {
            seq![
                field_line("Phase:             "@, str_span(sv.phase, bold_style(Color::Cyan))),
                field_line("Slot:              "@, str_span(sv.current_slot, fg_style(Color::Cyan))),
            ]
        } else {
            Seq::empty()
        };
        assert(hp =~= h + phase);
    }
    assert(lines_view(v@) =~= status_lines_spec(s@, sep@));
    v
}

fn reboot_text(secs: u64) -> (l: TextLine)
    ensures
        l@ == reboot_line(secs),
{
    let mut p: Vec<TextPiece> = Vec::new();
    p.push(TextPiece::Secs(secs));
    assert(pieces_view(p@) =~= seq![PieceView::Secs(secs)]);
    if secs == 0 {
        field("Next Reboot:       ", str_span_of("Not scheduled", style(Some(Color::DarkGray), false, false)))
    } else if secs < 60 {
        line_of2(
            str_span_of("⚠ REBOOT IN:       ", style(Some(Color::Red), true, false)),
            pieces_span_of(p, style(Some(Color::Red), true, true)),
        )
    } else if secs < 300 {
        line_of2(
            str_span_of("⚠ Reboot in:       ", style(Some(Color::Yellow), true, false)),
            pieces_span_of(p, style(Some(Color::Yellow), true, false)),
        )
    } else {
        field("Next Reboot:       ", pieces_span_of(p, style(Some(Color::Green), false, false)))
    }
}

fn test_text(s: &EvalStatus, sep: &str, started: Vec<TextPiece>) -> (v: Vec<TextLine>)
    ensures
        lines_view(v@) == test_lines_spec(s@, sep@, pieces_view(started@)),
{
    let mut v = heading(sep, "Test");
    push_line(&mut v, field("Started:           ", pieces_span_of(started, style(Some(Color::Green), false, false))));
    push_line(&mut v, field("Duration:          ", pieces_span_of(format_duration_ns(s.test_duration), style(Some(Color::Cyan), false, false))));
    push_line(&mut v, reboot_text(s.reboot_countdown));
    let inv = heading(sep, "Inventory");
    append_lines(&mut v, inv);
    let collection = if s.inventory_collected {
        str_span_of("Complete", style(Some(Color::Green), false, false))
    } else {
        str_span_of("In Progress", style(Some(Color::Yellow), false, false))
    };
    push_line(&mut v, field("Collection:        ", collection));
    if !s.inventory_collected && !s.inventory_dir.as_str().is_empty() {
        push_line(&mut v, field("Directory:         ", str_span_of(s.inventory_dir.as_str(), style(Some(Color::DarkGray), false, false))));
    }
    assert(lines_view(v@) =~= test_lines_spec(s@, sep@, pieces_view(started@)));
    v
}

/// The lines of the page for a reported status, given the texts of its
/// start time and of its age.
pub fn status_page_text(area_width: u16, s: &EvalStatus, started: Vec<TextPiece>, updated: Vec<TextPiece>) -> (v: Vec<TextLine>)
    ensures
        lines_view(v@) == page_lines(area_width, s@, pieces_view(started@), pieces_view(updated@)),
{
    let sep = separator(area_width);
    let ghost sv = sep@;
    let mut v = header_text(s);
    append_lines(&mut v, status_text(s, sep.as_str()));
    let ghost st = pieces_view(started@);
    if s.is_evaluation_platform {
        append_lines(&mut v, test_text(s, sep.as_str(), started));
    }
    let ghost before = lines_view(v@);
    let ghost up = pieces_view(updated@);
    let mut f: Vec<TextLine> = Vec::new();
    push_line(&mut f, empty_text_line());
    push_line(&mut f, line_of(str_span_of(sep.as_str(), style(Some(Color::DarkGray), false, false))));
    push_line(&mut f, field("Last Updated:      ", pieces_span_of(updated, style(Some(Color::DarkGray), false, false))));
    assert(lines_view(f@) =~= footer_lines(sv, up));
    append_lines(&mut v, f);
    proof {
        let tests: Seq<Seq<SpanView>> = if s@.is_evaluation_platform {
            test_lines_spec(s@, sv, st)
        } else {
            Seq::empty()
        };
        assert(before =~= header_lines(s@) + status_lines_spec(s@, sv) + tests);
    }
    assert(lines_view(v@) =~= page_lines(area_width, s@, st, up));
    v
}

impl Default for EvalStatusPage {
    fn default() -> (p: EvalStatusPage)
        ensures
            !p.shows_data(),
            !p.shows_eval_platform(),
    {
        EvalStatusPage { is_eval_platform: false, has_data: false }
    }
}

impl EvalStatusPage {
    /// Whether the last render had a status to show.
    pub closed spec fn shows_data(&self) -> bool {
        self.has_data
    }

    /// Whether the last render showed an evaluation platform.
    pub closed spec fn shows_eval_platform(&self) -> bool {
        self.is_eval_platform
    }

    /// A page that has not rendered any status yet.
    pub fn new() -> (p: EvalStatusPage)
        ensures
            !p.shows_data(),
            !p.shows_eval_platform(),
    {
        EvalStatusPage { is_eval_platform: false, has_data: false }
    }

    /// The status bar hint for what the page showed last.
    pub fn status_bar_tips(&self) -> (r: Option<String>)
        ensures
            r matches Some(t) && t@ == page_tips(self.shows_data(), self.shows_eval_platform()),
    {
        if !self.has_data {
            Some(String::from_str("Evaluation Status - waiting for data from EVE"))
        } else if self.is_eval_platform {
            Some(String::from_str("Evaluation Status - device is running in evaluation mode"))
        } else {
            Some(String::from_str("Evaluation Status - device is not an evaluation platform"))
        }
    }

    /// The page ignores all events.
    pub fn handle_event(&mut self, event: Event) -> (r: Option<Action>)
        ensures
            r is None,
            *final(self) == *old(self),
    {
        None
    }

    /// The lines of the page for the given status, `area_width` cells wide
    /// including the border; remembers whether there was a status and whether
    /// it showed an evaluation platform. The start time is shown in the
    /// machine's local time zone and the ages against readings of the clock
    /// (one for the start time, then one for the last update).
    pub fn render(&mut self, area_width: u16, status: &Option<EvalStatus>) -> (v: Vec<TextLine>)
        ensures
            final(self).shows_data() == status is Some,
            final(self).shows_eval_platform() == (status matches Some(s) && s.is_evaluation_platform),
            status is None ==> lines_view(v@) == waiting_lines(),
            status matches Some(s) ==> exists|now1: (i64, u32), offset: i32, now2: (i64, u32)|
                valid_now(now1) && valid_now(now2) && -86_400 < offset < 86_400 && lines_view(v@) == page_lines(
                    area_width,
                    s@,
                    start_display(
                        s.test_start_time@,
                        rfc3339_parse(s.test_start_time@),
                        rfc3339_text_at(s.test_start_time@, offset, local_time_pattern()),
                        now1,
                    ),
                    age_display(s.last_updated@, rfc3339_parse(s.last_updated@), now2),
                ),
    {
        match status {
            None => {
                self.has_data = false;
                self.is_eval_platform = false;
                waiting_text()
            },
            Some(s) => {
                self.has_data = true;
                self.is_eval_platform = s.is_evaluation_platform;
                if s.is_evaluation_platform {
                    let started = format_start_time(s.test_start_time.as_str());
                    let updated = format_age(s.last_updated.as_str());
                    status_page_text(area_width, s, started, updated)
                } else {
                    // the start time is shown on evaluation platforms only
                    let updated = format_age(s.last_updated.as_str());
                    let ghost uv = pieces_view(updated@);
                    let v = status_page_text(area_width, s, Vec::new(), updated);
                    proof {
                        let now2 = choose|now: (i64, u32)|
                            valid_now(now) && uv == age_display(s.last_updated@, rfc3339_parse(s.last_updated@), now);
                        let started = start_display(
                            s.test_start_time@,
                            rfc3339_parse(s.test_start_time@),
                            rfc3339_text_at(s.test_start_time@, 0, local_time_pattern()),
                            (0, 0),
                        );
                        assert(page_lines(area_width, s@, pieces_view(Seq::<TextPiece>::empty()), uv)
                            == page_lines(area_width, s@, started, uv));
                        assert(valid_now((0, 0)));
                        assert(lines_view(v@) == page_lines(
                            area_width,
                            s@,
                            start_display(
                                s.test_start_time@,
                                rfc3339_parse(s.test_start_time@),
                                rfc3339_text_at(s.test_start_time@, 0, local_time_pattern()),
                                (0, 0),
                            ),
                            age_display(s.last_updated@, rfc3339_parse(s.last_updated@), now2),
                        ));
                    }
                    v
                }
            },
        }
    }
}

/// After a render, the status bar hint describes the status that was
/// rendered: waiting without a status, evaluation mode for an evaluation
/// platform, and "not an evaluation platform" otherwise.
pub proof fn lemma_tips_follow_render(p: EvalStatusPage, status: Option<EvalStatusView>)
    requires
        p.shows_data() == status is Some,
        p.shows_eval_platform() == (status matches Some(s) && s.is_evaluation_platform),
    ensures
        page_tips(p.shows_data(), p.shows_eval_platform()) == match status {
            None => "Evaluation Status - waiting for data from EVE"@,
            Some(s) => if s.is_evaluation_platform {
                "Evaluation Status - device is running in evaluation mode"@
            } else {
                "Evaluation Status - device is not an evaluation platform"@
            },
        },
{
}

/// The line after the status heading (and, on evaluation platforms, after
/// the phase and slot) tells whether onboarding is allowed: "Allowed" in
/// green whenever the status allows it, on every kind of platform; otherwise
/// blocked, with the reason on evaluation platforms.
pub proof fn lemma_onboarding_line(area_width: u16, s: EvalStatusView, started: Seq<PieceView>, updated: Seq<PieceView>)
    ensures
        ({
            let lines = page_lines(area_width, s, started, updated);
            let k: int = if s.is_evaluation_platform { 10 } else { 5 };
            &&& k < lines.len()
            &&& s.allow_onboard ==> lines[k] == seq![
                str_span("Onboarding:        "@, plain_style()),
                str_span("Allowed"@, fg_style(Color::Green)),
            ]
            &&& !s.allow_onboard && s.is_evaluation_platform ==> lines[k] == seq![
                str_span("Onboarding:        "@, plain_style()),
                str_span("Blocked (evaluation in progress)"@, fg_style(Color::Yellow)),
            ]
            &&& !s.allow_onboard && !s.is_evaluation_platform ==> lines[k] == seq![
                str_span("Onboarding:        "@, plain_style()),
                str_span("Blocked"@, fg_style(Color::DarkGray)),
            ]
        }),
{
    let sep = rule(separator_width(area_width));
    let h = header_lines(s);
    let st = status_lines_spec(s, sep);
    let k: int = if s.is_evaluation_platform { 10 } else { 5 };
    assert(h.len() == if s.is_evaluation_platform { 5int } else { 2int });
    assert(st.len() >= k - h.len() + 1);
}

} // verus!
