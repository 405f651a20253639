use vstd::prelude::*;

use crate::action::{Action, ActionView, KeyCode, KeyInput, UiActions, UiActionsView};
use crate::decimal::{decimal, decimal_text};
use crate::geometry::{
    centred_sizes, fill_count, fits_u16, inner_rect, length_sum, packed_split, prefix_sum, rect_inner,
    seg_sizes, segment_of, split_area, Constraint, Direction, Flex, Rect,
};
use crate::text::Color;

verus! {

/// The state of the reboot warning dialog: seconds left until the reboot.
#[derive(Clone, Copy, Debug, PartialEq, Eq, Structural)]
pub struct RebootWarningState {
    pub countdown_secs: u64,
}

/// The kinds of dialog windows, with the state each one carries.
#[derive(Clone, Debug)]
pub enum DialogKind {
    /// A message with an `OK` and a `Cancel` button.
    MessageBox(String),
    /// A message with a single `OK` button.
    InfoBox(String),
    /// A message without buttons that ignores all keys.
    SystemMessageBox(String),
    /// The warning about an imminent reboot.
    RebootWarning(RebootWarningState),
}

/// A dialog window: its name (also the source of the actions it emits) and
/// its kind.
#[derive(Clone, Debug)]
pub struct Dialog {
    pub name: String,
    pub kind: DialogKind,
}

/// A widget of a dialog window.
#[derive(Clone, Debug)]
pub enum Widget {
    /// A text label.
    Label(String),
    /// A push button with the given caption.
    Button(String),
}

/// A widget with the identifier the dialog knows it by.
#[derive(Clone, Debug)]
pub struct WidgetEntry {
    pub id: String,
    pub widget: Widget,
}

/// An area of the screen assigned to the dialog part with the given identifier
/// (`frame` for the dialog's own border).
#[derive(Clone, Debug)]
pub struct NamedArea {
    pub id: String,
    pub area: Rect,
}

/// How a dialog's frame is drawn.
#[derive(Clone, Debug)]
pub struct FrameStyle {
    pub title: String,
    pub border: Color,
    pub bold_border: bool,
}

/// A [`DialogKind`] as plain values.
pub enum DialogKindView {
    MessageBox(Seq<char>),
    InfoBox(Seq<char>),
    SystemMessageBox(Seq<char>),
    RebootWarning(u64),
}

/// A [`Dialog`] as plain values.
pub struct DialogView {
    pub name: Seq<char>,
    pub kind: DialogKindView,
}

/// A [`Widget`] as plain values.
pub enum WidgetView {
    Label(Seq<char>),
    Button(Seq<char>),
}

impl View for DialogKind {
    type V = DialogKindView;

    open spec fn view(&self) -> DialogKindView {
        match self {
            DialogKind::MessageBox(c) => DialogKindView::MessageBox(c@),
            DialogKind::InfoBox(c) => DialogKindView::InfoBox(c@),
            DialogKind::SystemMessageBox(c) => DialogKindView::SystemMessageBox(c@),
            DialogKind::RebootWarning(s) => DialogKindView::RebootWarning(s.countdown_secs),
        }
    }
}

impl View for Dialog {
    type V = DialogView;

    open spec fn view(&self) -> DialogView {
        DialogView { name: self.name@, kind: self.kind@ }
    }
}

impl View for Widget {
    type V = WidgetView;

    open spec fn view(&self) -> WidgetView {
        match self {
            Widget::Label(s) => WidgetView::Label(s@),
            Widget::Button(s) => WidgetView::Button(s@),
        }
    }
}

impl View for WidgetEntry {
    type V = (Seq<char>, WidgetView);

    open spec fn view(&self) -> (Seq<char>, WidgetView) {
        (self.id@, self.widget@)
    }
}

impl View for NamedArea {
    type V = (Seq<char>, Rect);

    open spec fn view(&self) -> (Seq<char>, Rect) {
        (self.id@, self.area)
    }
}

/// The name of the reboot warning dialog.
pub open spec fn reboot_warning_name() -> Seq<char> {
    "Reboot Warning"@
}

/// The text of the reboot warning for `secs` seconds left: urgent below one
/// minute, otherwise with minutes and seconds.
pub open spec fn reboot_message(secs: u64) -> Seq<char> {
    if secs < 60 {
        "⚠ REBOOT IMMINENT ⚠\n\nDevice will reboot in "@ + decimal(secs as nat)
            + " seconds!\n\nDo not turn off or force restart."@
    } else {
        "⚠ REBOOT WARNING ⚠\n\nDevice will reboot soon (in "@ + decimal((secs / 60) as nat) + "m "@
            + decimal((secs % 60) as nat) + "s)\n\nSave any work and prepare for restart."@
    }
}

/// The widgets a dialog creates when it opens, in creation order.
pub open spec fn dialog_widgets(k: DialogKindView) -> Seq<(Seq<char>, WidgetView)> {
    match k {
        DialogKindView::MessageBox(c) => seq![
            ("label"@, WidgetView::Label(c)),
            ("ok"@, WidgetView::Button("OK"@)),
            ("cancel"@, WidgetView::Button("Cancel"@)),
        ],
        DialogKindView::InfoBox(c) => seq![
            ("label"@, WidgetView::Label(c)),
            ("ok"@, WidgetView::Button("OK"@)),
        ],
        DialogKindView::SystemMessageBox(c) => seq![("label"@, WidgetView::Label(c))],
        DialogKindView::RebootWarning(secs) => seq![
            ("label"@, WidgetView::Label(reboot_message(secs))),
            ("ok"@, WidgetView::Button("Acknowledge"@)),
        ],
    }
}

/// The order in which the dialog's widgets take the keyboard focus.
pub open spec fn dialog_focus_order(k: DialogKindView) -> Seq<Seq<char>> {
    match k {
        DialogKindView::MessageBox(_) => seq!["ok"@, "cancel"@],
        DialogKindView::InfoBox(_) => seq!["ok"@],
        DialogKindView::SystemMessageBox(_) => Seq::empty(),
        DialogKindView::RebootWarning(_) => seq!["ok"@],
    }
}

/// Width and height of the dialog's frame, centred on the screen by the
/// application.
pub open spec fn dialog_size(k: DialogKindView) -> (u16, u16) {
    match k {
        DialogKindView::MessageBox(_) => (50, 14),
        DialogKindView::InfoBox(_) => (52, 16),
        DialogKindView::SystemMessageBox(_) => (40, 7),
        DialogKindView::RebootWarning(_) => (50, 12),
    }
}

/// The identifiers of the dialog's parts, in the order the dialog assigns
/// their areas (`frame` is the dialog's own border).
pub open spec fn dialog_part_ids(k: DialogKindView) -> Seq<Seq<char>> {
    match k {
        DialogKindView::MessageBox(_) => seq!["frame"@, "label"@, "ok"@, "cancel"@],
        DialogKindView::InfoBox(_) => seq!["frame"@, "label"@, "ok"@],
        DialogKindView::SystemMessageBox(_) => seq!["frame"@, "label"@],
        DialogKindView::RebootWarning(_) => seq!["frame"@, "label"@, "ok"@],
    }
}

/// The areas of a dialog's parts for a frame: the frame itself first; the
/// system box's label fills the inside of the frame; the other dialogs split
/// the inside of the frame into a content part and a button row, both
/// spanning its width, and place the label in the content part and the
/// buttons side by side in the row. Where the solver of the terminal library
/// puts the boundaries is not part of this statement.
pub open spec fn dialog_layout_ok(k: DialogKindView, frame: Rect, areas: Seq<(Seq<char>, Rect)>) -> bool {
    let inner = inner_rect(frame, 1, 1);
    &&& areas.map_values(|a: (Seq<char>, Rect)| a.0) == dialog_part_ids(k)
    &&& areas[0].1 == frame
    &&& match k {
        DialogKindView::SystemMessageBox(_) => areas[1].1 == inner,
        DialogKindView::MessageBox(_) => exists|row: Rect| {
            &&& #[trigger] segment_of(row, inner, Direction::Vertical)
            &&& segment_of(areas[1].1, inner, Direction::Vertical)
            &&& segment_of(areas[2].1, row, Direction::Horizontal)
            &&& segment_of(areas[3].1, row, Direction::Horizontal)
        },
        DialogKindView::InfoBox(_) => exists|row: Rect| {
            &&& #[trigger] segment_of(row, inner, Direction::Vertical)
            &&& segment_of(areas[1].1, inner, Direction::Vertical)
            &&& segment_of(areas[2].1, row, Direction::Horizontal)
        },
        DialogKindView::RebootWarning(_) => exists|content: Rect, row: Rect| {
            &&& #[trigger] segment_of(content, inner, Direction::Vertical)
            &&& #[trigger] segment_of(row, inner, Direction::Vertical)
            &&& segment_of(areas[1].1, content, Direction::Vertical)
            &&& segment_of(areas[2].1, row, Direction::Horizontal)
        },
    }
}

/// The frame leaves room for every part at its set size: it is at least two
/// cells wide and high and ends within the coordinate range, and its inside
/// holds the three-row button row, the buttons side by side (6 + 10 + 1
/// cells for the message box, 6 for the info box, 15 for the reboot
/// warning) and, for the reboot warning, the five-row label above the row.
pub open spec fn dialog_room(k: DialogKindView, frame: Rect) -> bool {
    let inner = inner_rect(frame, 1, 1);
    &&& frame.width >= 2
    &&& frame.height >= 2
    &&& fits_u16(frame)
    &&& match k {
        DialogKindView::SystemMessageBox(_) => true,
        DialogKindView::MessageBox(_) => inner.height >= 3 && inner.width >= 17,
        DialogKindView::InfoBox(_) => inner.height >= 3 && inner.width >= 6,
        DialogKindView::RebootWarning(_) => inner.height >= 8 && inner.width >= 15,
    }
}

/// The areas of a dialog's parts when its frame has room for them, in the
/// order of [`dialog_part_ids`]. The inside of the frame is split into the
/// content (all but the bottom three rows) and the button row (the bottom
/// three rows). The message box puts its 6-cell OK and 10-cell Cancel at the
/// right of the row, one cell from the edge; the info box centres its 6-cell
/// OK; the reboot warning's label is the top five rows of the content and its
/// 15-cell button is centred. A centred button leaves the odd cell to its left.
pub open spec fn dialog_areas(k: DialogKindView, frame: Rect) -> Seq<Rect> {
    let inner = inner_rect(frame, 1, 1);
    let cb = packed_split(inner, Direction::Vertical, seq![inner.height - 3, 3]);
    match k {
        DialogKindView::SystemMessageBox(_) => seq![frame, inner],
        DialogKindView::MessageBox(_) => {
            let row = packed_split(cb[1], Direction::Horizontal, seq![cb[1].width - 17, 6, 10, 1]);
            seq![frame, cb[0], row[1], row[2]]
        },
        DialogKindView::InfoBox(_) => {
            let row = packed_split(cb[1], Direction::Horizontal, centred_sizes(cb[1].width as int, 6));
            seq![frame, cb[0], row[1]]
        },
        DialogKindView::RebootWarning(_) => {
            let label = packed_split(cb[0], Direction::Vertical, seq![5, cb[0].height - 5]);
            let row = packed_split(cb[1], Direction::Horizontal, centred_sizes(cb[1].width as int, 15));
            seq![frame, label[0], row[1]]
        },
    }
}

/// What a dialog answers to a key press: message and info boxes close on
/// `Esc`, the reboot warning on `Esc` or `Enter`, and the system message box
/// ignores every key.
pub open spec fn dialog_key_response(d: DialogView, key: KeyInput) -> Option<ActionView> {
    let dismiss = Some(ActionView { source: d.name, action: UiActionsView::DismissDialog });
    match d.kind {
        DialogKindView::MessageBox(_) => if key.code == KeyCode::Esc { dismiss } else { None },
        DialogKindView::InfoBox(_) => if key.code == KeyCode::Esc { dismiss } else { None },
        DialogKindView::SystemMessageBox(_) => None,
        DialogKindView::RebootWarning(_) => if key.code == KeyCode::Esc || key.code == KeyCode::Enter {
            dismiss
        } else {
            None
        },
    }
}

/// What a dialog answers to an action of one of its widgets: a button press
/// closes every dialog that has buttons; anything else is ignored.
pub open spec fn dialog_child_response(d: DialogView, action: UiActionsView) -> Option<ActionView> {
    match d.kind {
        DialogKindView::SystemMessageBox(_) => None,
        _ => match action {
            UiActionsView::ButtonClicked(_) => Some(
                ActionView { source: d.name, action: UiActionsView::DismissDialog },
            ),
            _ => None,
        },
    }
}

fn entry(id: &str, widget: Widget) -> (e: WidgetEntry)
    ensures
        e@ == (id@, widget@),
{
    WidgetEntry { id: String::from_str(id), widget }
}

fn named(id: &str, area: Rect) -> (n: NamedArea)
    ensures
        n@ == (id@, area),
{
    NamedArea { id: String::from_str(id), area }
}

/// The text of the reboot warning for `secs` seconds left.
pub fn reboot_message_text(secs: u64) -> (s: String)
    ensures
        s@ == reboot_message(secs),
{
    if secs < 60 {
        let mut s = String::from_str("⚠ REBOOT IMMINENT ⚠\n\nDevice will reboot in ");
        let n = decimal_text(secs);
        s.append(n.as_str());
        s.append(" seconds!\n\nDo not turn off or force restart.");
        s
    } else {
        let mut s = String::from_str("⚠ REBOOT WARNING ⚠\n\nDevice will reboot soon (in ");
        let m = decimal_text(secs / 60);
        s.append(m.as_str());
        s.append("m ");
        let r = decimal_text(secs % 60);
        s.append(r.as_str());
        s.append("s)\n\nSave any work and prepare for restart.");
        s
    }
}

/// A dismissable message box with an `OK` and a `Cancel` button.
pub fn create_message_box(window_caption: &str, content: &str) -> (d: Dialog)
    ensures
        d@ == (DialogView {
            name: window_caption@,
            kind: DialogKindView::MessageBox(content@),
        }),
{
    Dialog {
        name: String::from_str(window_caption),
        kind: DialogKind::MessageBox(String::from_str(content)),
    }
}

/// A single-button informational popup. Use for notices where there is nothing to cancel.
pub fn create_info_box(window_caption: &str, content: &str) -> (d: Dialog)
    ensures
        d@ == (DialogView { name: window_caption@, kind: DialogKindView::InfoBox(content@) }),
{
    Dialog {
        name: String::from_str(window_caption),
        kind: DialogKind::InfoBox(String::from_str(content)),
    }
}

/// Creates a system (non-dismissable) message box.
/// It has no buttons and does not respond to Esc or any key events.
/// It can only be removed programmatically.
pub fn create_system_message_box(window_caption: &str, content: &str) -> (d: Dialog)
    ensures
        d@ == (DialogView {
            name: window_caption@,
            kind: DialogKindView::SystemMessageBox(content@),
        }),
{
    Dialog {
        name: String::from_str(window_caption),
        kind: DialogKind::SystemMessageBox(String::from_str(content)),
    }
}

/// The warning shown while a reboot is scheduled in `countdown_secs` seconds.
pub fn create_reboot_warning_dialog(countdown_secs: u64) -> (d: Dialog)
    ensures
        d@ == (DialogView {
            name: reboot_warning_name(),
            kind: DialogKindView::RebootWarning(countdown_secs),
        }),
{
    Dialog {
        name: String::from_str("Reboot Warning"),
        kind: DialogKind::RebootWarning(RebootWarningState { countdown_secs }),
    }
}

impl Dialog {
    /// The widgets the dialog creates when it opens.
    pub fn widgets(&self) -> (v: Vec<WidgetEntry>)
        ensures
            v@.map_values(|e: WidgetEntry| e@) == dialog_widgets(self.kind@),
    {
        let mut v: Vec<WidgetEntry> = Vec::new();
        match &self.kind {
            DialogKind::MessageBox(c) => {
                v.push(entry("label", Widget::Label(c.clone())));
                v.push(entry("ok", Widget::Button(String::from_str("OK"))));
                v.push(entry("cancel", Widget::Button(String::from_str("Cancel"))));
            },
            DialogKind::InfoBox(c) => {
                v.push(entry("label", Widget::Label(c.clone())));
                v.push(entry("ok", Widget::Button(String::from_str("OK"))));
            },
            DialogKind::SystemMessageBox(c) => {
                v.push(entry("label", Widget::Label(c.clone())));
            },
            DialogKind::RebootWarning(s) => {
                v.push(entry("label", Widget::Label(reboot_message_text(s.countdown_secs))));
                v.push(entry("ok", Widget::Button(String::from_str("Acknowledge"))));
            },
        }
        assert(v@.map_values(|e: WidgetEntry| e@) =~= dialog_widgets(self.kind@));
        v
    }

    /// The identifiers of the widgets in keyboard-focus order.
    pub fn focus_order(&self) -> (v: Vec<String>)
        ensures
            v@.map_values(|s: String| s@) == dialog_focus_order(self.kind@),
    {
        let mut v: Vec<String> = Vec::new();
        match &self.kind {
            DialogKind::MessageBox(_) => {
                v.push(String::from_str("ok"));
                v.push(String::from_str("cancel"));
            },
            DialogKind::InfoBox(_) => {
                v.push(String::from_str("ok"));
            },
            DialogKind::SystemMessageBox(_) => {},
            DialogKind::RebootWarning(_) => {
                v.push(String::from_str("ok"));
            },
        }
        assert(v@.map_values(|s: String| s@) =~= dialog_focus_order(self.kind@));
        v
    }

    /// Width and height of the dialog's frame.
    pub fn size(&self) -> (r: (u16, u16))
        ensures
            r == dialog_size(self.kind@),
    {
        match &self.kind {
            DialogKind::MessageBox(_) => (50, 14),
            DialogKind::InfoBox(_) => (52, 16),
            DialogKind::SystemMessageBox(_) => (40, 7),
            DialogKind::RebootWarning(_) => (50, 12),
        }
    }

    /// How the frame is drawn: message boxes carry their name as title and a
    /// white border; the reboot warning has a bold border, red below one
    /// minute and yellow otherwise.
    pub fn frame_style(&self) -> (f: FrameStyle)
        ensures
            match self.kind@ {
                DialogKindView::RebootWarning(secs) => {
                    &&& f.title@ == " Reboot Warning "@
                    &&& f.border == (if secs < 60 { Color::Red } else { Color::Yellow })
                    &&& f.bold_border
                },
                _ => f.title@ == self.name@ && f.border == Color::White && !f.bold_border,
            },
    {
        match &self.kind {
            DialogKind::RebootWarning(s) => FrameStyle {
                title: String::from_str(" Reboot Warning "),
                border: if s.countdown_secs < 60 { Color::Red } else { Color::Yellow },
                bold_border: true,
            },
            _ => FrameStyle { title: self.name.clone(), border: Color::White, bold_border: false },
        }
    }

    /// The areas of the dialog's parts when its frame is `frame`. The
    /// content part and the button row come from splitting the inside of the
    /// frame into a filling part and three rows at the bottom; the message
    /// box's row holds a 6- and a 10-cell button at the right, the info box's
    /// row a centred 6-cell button; the reboot warning's label is the top five
    /// rows of the content part and its button a centred 15-cell one.
    pub fn layout(&self, frame: Rect) -> (v: Vec<NamedArea>)
        ensures
            dialog_layout_ok(self.kind@, frame, v@.map_values(|n: NamedArea| n@)),
            dialog_room(self.kind@, frame) ==> v@.map_values(|n: NamedArea| n@.1) == dialog_areas(self.kind@, frame),
    {
        proof {
            reveal_with_fuel(fill_count, 5);
            reveal_with_fuel(length_sum, 5);
            reveal_with_fuel(prefix_sum, 5);
        }
        let inner = rect_inner(frame, 1, 1);
        let mut v: Vec<NamedArea> = Vec::new();
        v.push(named("frame", frame));
        match &self.kind {
            DialogKind::SystemMessageBox(_) => {
                v.push(named("label", inner));
            },
            _ => {
                let mut cs: Vec<Constraint> = Vec::new();
                cs.push(Constraint::Fill(1));
                cs.push(Constraint::Length(3));
                assert(cs@ =~= seq![Constraint::Fill(1), Constraint::Length(3)]);
                let cb = split_area(inner, Direction::Vertical, &cs, Flex::End);
                proof {
                    if dialog_room(self.kind@, frame) {
                        assert(seg_sizes(cs@, inner.height - 3) =~= seq![inner.height - 3, 3]);
                    }
                }
                assert(segment_of(cb@[0], inner, Direction::Vertical));
                assert(segment_of(cb@[1], inner, Direction::Vertical));
                match &self.kind {
                    DialogKind::MessageBox(_) => {
                        v.push(named("label", cb[0]));
                        let mut hs: Vec<Constraint> = Vec::new();
                        hs.push(Constraint::Fill(1));
                        hs.push(Constraint::Length(6));
                        hs.push(Constraint::Length(10));
                        hs.push(Constraint::Length(1));
                        assert(hs@ =~= seq![Constraint::Fill(1), Constraint::Length(6), Constraint::Length(10), Constraint::Length(1)]);
                        let row = split_area(cb[1], Direction::Horizontal, &hs, Flex::Start);
                        proof {
                            if dialog_room(self.kind@, frame) {
                                assert(seg_sizes(hs@, cb@[1].width - 17) =~= seq![cb@[1].width - 17, 6, 10, 1]);
                            }
                        }
                        assert(segment_of(row@[1], cb@[1], Direction::Horizontal));
                        assert(segment_of(row@[2], cb@[1], Direction::Horizontal));
                        v.push(named("ok", row[1]));
                        v.push(named("cancel", row[2]));
                    },
                    DialogKind::InfoBox(_) => {
                        v.push(named("label", cb[0]));
                        let mut hs: Vec<Constraint> = Vec::new();
                        hs.push(Constraint::Fill(1));
                        hs.push(Constraint::Length(6));
                        hs.push(Constraint::Fill(1));
                        assert(hs@ =~= seq![Constraint::Fill(1), Constraint::Length(6), Constraint::Fill(1)]);
                        let row = split_area(cb[1], Direction::Horizontal, &hs, Flex::Center);
                        assert(segment_of(row@[1], cb@[1], Direction::Horizontal));
                        v.push(named("ok", row[1]));
                    },
                    _ => {
                        let mut ls: Vec<Constraint> = Vec::new();
                        ls.push(Constraint::Length(5));
                        ls.push(Constraint::Fill(1));
                        assert(ls@ =~= seq![Constraint::Length(5), Constraint::Fill(1)]);
                        let label = split_area(cb[0], Direction::Vertical, &ls, Flex::Start);
                        proof {
                            if dialog_room(self.kind@, frame) {
                                assert(seg_sizes(ls@, cb@[0].height - 5) =~= seq![5, cb@[0].height - 5]);
                            }
                        }
                        assert(segment_of(label@[0], cb@[0], Direction::Vertical));
                        v.push(named("label", label[0]));
                        let mut hs: Vec<Constraint> = Vec::new();
                        hs.push(Constraint::Fill(1));
                        hs.push(Constraint::Length(15));
                        hs.push(Constraint::Fill(1));
                        assert(hs@ =~= seq![Constraint::Fill(1), Constraint::Length(15), Constraint::Fill(1)]);
                        let row = split_area(cb[1], Direction::Horizontal, &hs, Flex::Center);
                        assert(segment_of(row@[1], cb@[1], Direction::Horizontal));
                        v.push(named("ok", row[1]));
                    },
                }
            },
        }
        let ghost areas = v@.map_values(|n: NamedArea| n@);
        assert(areas.map_values(|a: (Seq<char>, Rect)| a.0) =~= dialog_part_ids(self.kind@));
        assert(dialog_room(self.kind@, frame) ==> v@.map_values(|n: NamedArea| n@.1) =~= dialog_areas(self.kind@, frame));
        v
    }

    /// The dialog's answer to a key press.
    pub fn on_key_event(&self, key: KeyInput) -> (r: Option<Action>)
        ensures
            crate::action::opt_action_view(r) == dialog_key_response(self@, key),
    {
        let dismiss = match &self.kind {
            DialogKind::MessageBox(_) => key.code == KeyCode::Esc,
            DialogKind::InfoBox(_) => key.code == KeyCode::Esc,
            DialogKind::SystemMessageBox(_) => false,
            DialogKind::RebootWarning(_) => key.code == KeyCode::Esc || key.code == KeyCode::Enter,
        };
        if dismiss {
            Some(Action { source: self.name.clone(), action: UiActions::DismissDialog })
        } else {
            None
        }
    }

    /// The dialog's answer to an action of one of its widgets.
    pub fn on_child_ui_action(&self, source: &String, action: &UiActions) -> (r: Option<Action>)
        ensures
            crate::action::opt_action_view(r) == dialog_child_response(self@, action@),
    {
        match &self.kind {
            DialogKind::SystemMessageBox(_) => None,
            _ => match action {
                UiActions::ButtonClicked(_) => Some(
                    Action { source: self.name.clone(), action: UiActions::DismissDialog },
                ),
                _ => None,
            },
        }
    }
}

/// How every dialog answers a key: message and info boxes ask to be closed
/// on `Esc`, the reboot warning on `Esc` and `Enter`, the system box never;
/// a request to be closed always names the dialog itself, and every other
/// key is ignored.
pub proof fn lemma_dialog_keys(d: DialogView, key: KeyInput)
    ensures
        dialog_key_response(d, key) is Some <==> {
            ||| (d.kind is MessageBox || d.kind is InfoBox) && key.code == KeyCode::Esc
            ||| d.kind is RebootWarning && (key.code == KeyCode::Esc || key.code == KeyCode::Enter)
        },
        dialog_key_response(d, key) is Some ==> dialog_key_response(d, key) == Some(
            ActionView { source: d.name, action: UiActionsView::DismissDialog },
        ),
        d.kind is SystemMessageBox ==> dialog_key_response(d, key) is None,
{
}

} // verus!
