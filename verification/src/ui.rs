use vstd::prelude::*;

use crate::action::{is_ctrl_key, opt_action_view, Action, ActionView, Event, KeyCode, KeyInput, UiActions, UiActionsView, MOD_CONTROL};
use crate::dialogs::{
    create_info_box, create_message_box, create_reboot_warning_dialog, create_system_message_box,
    reboot_warning_name, DialogKindView, DialogView,
};
use crate::eval_page::{page_tips, EvalStatus, EvalStatusPage};
use crate::geometry::{
    fill_count, fits_u16, length_sum, packed_split, prefix_sum, seg_sizes, segment_of, split_area, Constraint,
    Direction, Flex, Rect,
};
use crate::layers::{
    has_name, remove_by_name, stack_view, stacks_view, without_name, Layer, LayerView,
};
use crate::tabs::{next_tab, previous_tab, tab_at, tab_index, UiTabs, TAB_COUNT};

verus! {

/// The name of the evaluation-mode startup warning.
pub open spec fn startup_warning_name() -> Seq<char> {
    " Evaluation Mode "@
}

/// The name of the popup shown while the connection to EVE is set up.
pub open spec fn connection_popup_name() -> Seq<char> {
    " EVE Connection "@
}

/// The text of the evaluation-mode startup warning.
pub open spec fn startup_warning_text() -> Seq<char> {
    "This device is running in EVALUATION MODE.\n\
\n\
The device will reboot several times as part of\n\
automated evaluation testing.\n\
\n\
You may inspect all status tabs freely, but:\n\
\n\
  DO NOT change any settings\n\
  DO NOT manually reboot the device\n\
\n\
Check the Eval Status tab for the reboot countdown."@
}

/// The state of the user interface as plain values.
pub struct UiView {
    /// One layer stack per tab, bottom first.
    pub stacks: Seq<Seq<LayerView>>,
    pub selected_tab: UiTabs,
    /// Whether the startup warning was ever shown.
    pub startup_warning_shown: bool,
    /// Whether the startup warning is currently on the stacks.
    pub startup_warning_visible: bool,
    /// Last countdown seen (`u64::MAX` when none).
    pub last_reboot_warning: u64,
    /// Whether the reboot warning is currently on the stacks.
    pub reboot_warning_shown: bool,
    /// Whether the connection popup is on the stacks.
    pub connection_popup_shown: bool,
    /// Whether the next frame is the first one drawn.
    pub first_frame: bool,
}

/// The state of the user interface: a layer stack of windows for each tab,
/// the selected tab, and the bookkeeping of the global popups that are put on
/// every stack at once.
pub struct Ui {
    views: Vec<Vec<Layer>>,
    selected_tab: UiTabs,
    first_frame: bool,
    startup_warning_shown: bool,
    startup_warning_visible: bool,
    last_reboot_warning: u64,
    reboot_warning_shown: bool,
    connection_popup_shown: bool,
}

impl View for Ui {
    type V = UiView;

    closed spec fn view(&self) -> UiView {
        UiView {
            stacks: stacks_view(self.views@),
            selected_tab: self.selected_tab,
            startup_warning_shown: self.startup_warning_shown,
            startup_warning_visible: self.startup_warning_visible,
            last_reboot_warning: self.last_reboot_warning,
            reboot_warning_shown: self.reboot_warning_shown,
            connection_popup_shown: self.connection_popup_shown,
            first_frame: self.first_frame,
        }
    }
}

/// Where the parts of the main screen go, and what to draw.
#[derive(Clone, Copy, Debug, PartialEq, Eq, Structural)]
pub struct ScreenLayout {
    /// Whether the whole screen has to be cleared first (first frame only).
    pub clear_screen: bool,
    pub tabs: Rect,
    pub version: Rect,
    pub body: Rect,
    pub status_bar: Rect,
    /// Position of the selected tab in the tab bar.
    pub selected_tab: usize,
    /// Number of windows on the selected tab's stack, drawn bottom first.
    pub layer_count: usize,
    /// Position of the window that has the focus: the top one (`0` for an
    /// empty stack).
    pub focused_layer: usize,
}

/// The parts of the main screen for `area`: the tab bar and the version
/// text side by side in a top row, the body and the status bar below, all
/// rows spanning the screen's width. Where the terminal library's solver puts
/// the boundaries is not part of this statement.
pub open spec fn screen_parts_ok(l: ScreenLayout, area: Rect) -> bool {
    &&& exists|top: Rect| #[trigger] segment_of(top, area, Direction::Vertical)
        && segment_of(l.tabs, top, Direction::Horizontal)
        && segment_of(l.version, top, Direction::Horizontal)
    &&& segment_of(l.body, area, Direction::Vertical)
    &&& segment_of(l.status_bar, area, Direction::Vertical)
}

/// The characters of an optional string.
pub open spec fn opt_str_view(s: Option<String>) -> Option<Seq<char>> {
    match s {
        Some(t) => Some(t@),
        None => None,
    }
}

/// The status bar hint after the selected tab was drawn: nothing for an
/// empty tab; the evaluation page's hint when that page is on top; otherwise
/// what the top window answers (`other`).
pub open spec fn status_hint(v: UiView, eval_tips: Seq<char>, other: Option<Seq<char>>) -> Option<Seq<char>> {
    let s = v.stacks[tab_index(v.selected_tab)];
    if s.len() == 0 {
        None
    } else {
        match s.last() {
            LayerView::Page(UiTabs::EvalStatus) => Some(eval_tips),
            _ => other,
        }
    }
}

/// The actions to send after a tick, given each window's answer to it in
/// stack order: the answers that are actions, in the same order.
pub open spec fn tick_outcome(answers: Seq<Option<ActionView>>) -> Seq<ActionView>
    decreases answers.len(),
{
    if answers.len() == 0 {
        Seq::empty()
    } else {
        let rest = tick_outcome(answers.drop_last());
        match answers.last() {
            Some(a) => rest.push(a),
            None => rest,
        }
    }
}

/// The answer of the selected tab's top window to a key, when that window is
/// one of the dialogs of this library: `None` for an empty tab or another
/// kind of window.
pub open spec fn top_dialog_answer(v: UiView, key: KeyInput) -> Option<Option<ActionView>> {
    let s = v.stacks[tab_index(v.selected_tab)];
    if s.len() == 0 {
        None
    } else {
        match s.last() {
            LayerView::Dialog(d) => Some(crate::dialogs::dialog_key_response(d, key)),
            _ => None,
        }
    }
}

/// The screen has room for the three-row top and status bars and for the
/// version text, and ends within the coordinate range.
pub open spec fn screen_room(area: Rect, version_width: u16) -> bool {
    area.height >= 6 && area.width >= version_width && fits_u16(area)
}

/// The screen's rows, top bar and status bar three rows each and the body
/// between them, and the top bar's columns, the tab bar and then the version
/// text of `version_width` cells at the right.
pub open spec fn screen_areas(area: Rect, version_width: u16) -> (Seq<Rect>, Seq<Rect>) {
    let rows = packed_split(area, Direction::Vertical, seq![3, area.height - 6, 3]);
    let cols = packed_split(rows[0], Direction::Horizontal, seq![area.width - version_width, version_width as int]);
    (rows, cols)
}

/// A well-formed state: one stack per tab, and the startup warning is only
/// visible once it has been shown.
pub open spec fn ui_wf(v: UiView) -> bool {
    &&& v.stacks.len() == TAB_COUNT
    &&& v.startup_warning_visible ==> v.startup_warning_shown
}

/// Every stack with `l` pushed on top.
pub open spec fn push_on_all(stacks: Seq<Seq<LayerView>>, l: LayerView) -> Seq<Seq<LayerView>> {
    stacks.map_values(|s: Seq<LayerView>| s.push(l))
}

/// Every stack without the windows named `name`.
pub open spec fn remove_from_all(stacks: Seq<Seq<LayerView>>, name: Seq<char>) -> Seq<Seq<LayerView>> {
    stacks.map_values(|s: Seq<LayerView>| without_name(s, name))
}

/// Every stack without the windows named `name` and with `l` pushed on top.
pub open spec fn replace_on_all(stacks: Seq<Seq<LayerView>>, name: Seq<char>, l: LayerView) -> Seq<Seq<LayerView>> {
    stacks.map_values(|s: Seq<LayerView>| without_name(s, name).push(l))
}

/// The connection popup with the given message.
pub open spec fn connection_popup(message: Seq<char>) -> LayerView {
    LayerView::Dialog(DialogView { name: connection_popup_name(), kind: DialogKindView::SystemMessageBox(message) })
}

/// The startup warning.
pub open spec fn startup_warning() -> LayerView {
    LayerView::Dialog(DialogView { name: startup_warning_name(), kind: DialogKindView::InfoBox(startup_warning_text()) })
}

/// The reboot warning for a countdown.
pub open spec fn reboot_warning(secs: u64) -> LayerView {
    LayerView::Dialog(DialogView { name: reboot_warning_name(), kind: DialogKindView::RebootWarning(secs) })
}

/// The state right after start: an empty stack per tab, the first tab
/// selected, no popup, no countdown seen.
pub open spec fn initial_ui() -> UiView {
    UiView {
        stacks: Seq::new(TAB_COUNT as nat, |i: int| Seq::<LayerView>::empty()),
        selected_tab: UiTabs::Summary,
        startup_warning_shown: false,
        startup_warning_visible: false,
        last_reboot_warning: u64::MAX,
        reboot_warning_shown: false,
        connection_popup_shown: false,
        first_frame: true,
    }
}

/// Each tab's page pushed on its own stack.
pub open spec fn after_init(v: UiView) -> UiView {
    UiView {
        stacks: Seq::new(v.stacks.len(), |i: int| v.stacks[i].push(LayerView::Page(tab_at(i).unwrap()))),
        ..v
    }
}

/// `l` pushed on the selected tab's stack.
pub open spec fn after_push(v: UiView, l: LayerView) -> UiView {
    let t: int = tab_index(v.selected_tab);
    UiView { stacks: v.stacks.update(t, v.stacks[t].push(l)), ..v }
}

/// The top window of the selected tab's stack removed, if there is one.
pub open spec fn after_pop(v: UiView) -> UiView {
    let t: int = tab_index(v.selected_tab);
    if v.stacks[t].len() == 0 {
        v
    } else {
        UiView { stacks: v.stacks.update(t, v.stacks[t].drop_last()), ..v }
    }
}

/// The connection popup put on every stack; nothing changes when it is
/// already shown.
pub open spec fn after_show_connection_popup(v: UiView, message: Seq<char>) -> UiView {
    if v.connection_popup_shown {
        v
    } else {
        UiView {
            stacks: push_on_all(v.stacks, connection_popup(message)),
            connection_popup_shown: true,
            ..v
        }
    }
}

/// The connection popup removed from every stack, if it is shown.
pub open spec fn after_dismiss_connection_popup(v: UiView) -> UiView {
    if !v.connection_popup_shown {
        v
    } else {
        UiView {
            stacks: remove_from_all(v.stacks, connection_popup_name()),
            connection_popup_shown: false,
            ..v
        }
    }
}

/// The startup warning put on every stack the first time; later calls
/// change nothing.
pub open spec fn after_show_startup_warning(v: UiView) -> UiView {
    if v.startup_warning_shown {
        v
    } else {
        UiView {
            stacks: push_on_all(v.stacks, startup_warning()),
            startup_warning_shown: true,
            startup_warning_visible: true,
            ..v
        }
    }
}

/// The startup warning removed from every stack, if it is visible.
pub open spec fn after_dismiss_startup_warning(v: UiView) -> UiView {
    if !v.startup_warning_visible {
        v
    } else {
        UiView {
            stacks: remove_from_all(v.stacks, startup_warning_name()),
            startup_warning_visible: false,
            ..v
        }
    }
}

/// The reboot warning removed from every stack, if it is shown.
pub open spec fn after_dismiss_reboot_warning(v: UiView) -> UiView {
    if !v.reboot_warning_shown {
        v
    } else {
        UiView {
            stacks: remove_from_all(v.stacks, reboot_warning_name()),
            reboot_warning_shown: false,
            ..v
        }
    }
}

/// The reaction to the reboot countdown `countdown`: at zero (no reboot
/// scheduled) any warning is dismissed and the countdown forgotten; when the
/// countdown crosses below five minutes and no warning is shown, the warning
/// goes on every stack; when it crosses below one minute the warning is
/// replaced on every stack by the urgent one; the countdown is remembered.
pub open spec fn after_reboot_countdown(v: UiView, countdown: u64) -> UiView {
    if countdown == 0 {
        after_dismiss_reboot_warning(UiView { last_reboot_warning: u64::MAX, ..v })
    } else if countdown < 300 && v.last_reboot_warning >= 300 && !v.reboot_warning_shown {
        UiView {
            stacks: push_on_all(v.stacks, reboot_warning(countdown)),
            reboot_warning_shown: true,
            last_reboot_warning: countdown,
            ..v
        }
    } else if countdown < 60 && v.last_reboot_warning >= 60 {
        UiView {
            stacks: replace_on_all(v.stacks, reboot_warning_name(), reboot_warning(countdown)),
            reboot_warning_shown: true,
            last_reboot_warning: countdown,
            ..v
        }
    } else {
        UiView { last_reboot_warning: countdown, ..v }
    }
}

/// The reaction to the reported evaluation status: nothing without a status,
/// otherwise the reaction to its reboot countdown.
pub open spec fn after_eval_status(v: UiView, status: Option<u64>) -> UiView {
    match status {
        None => v,
        Some(c) => after_reboot_countdown(v, c),
    }
}

/// A dialog asks to be closed: the reboot warning closes on every stack when
/// it is shown and the request comes from it, the startup warning likewise;
/// any other request closes the top window of the selected tab.
pub open spec fn after_dismiss_request(v: UiView, source: Seq<char>) -> UiView {
    if v.reboot_warning_shown && source == reboot_warning_name() {
        after_dismiss_reboot_warning(v)
    } else if v.startup_warning_visible && source == startup_warning_name() {
        after_dismiss_startup_warning(v)
    } else {
        after_pop(v)
    }
}

/// `CTRL+Left` selects the previous tab and `CTRL+Right` the next one.
pub open spec fn after_tab_keys(v: UiView, key: KeyInput) -> UiView {
    if is_ctrl_key(key, KeyCode::Left) {
        UiView { selected_tab: previous_tab(v.selected_tab), ..v }
    } else if is_ctrl_key(key, KeyCode::Right) {
        UiView { selected_tab: next_tab(v.selected_tab), ..v }
    } else {
        v
    }
}

/// The state and the returned action after an event, given what the top
/// window of the selected tab answered to it. Only key events do anything,
/// and only when the selected tab has a window. The window's answer is acted
/// on: a dismiss request closes a window, a press of a button captioned `Ok`
/// or `Cancel` closes the top window, another button changes nothing, and
/// any other action is handed back to the caller at once. Then the tab keys
/// are applied.
pub open spec fn after_event(v: UiView, event: Event, response: Option<ActionView>) -> (UiView, Option<ActionView>) {
    match event {
        Event::Key(key) => if v.stacks[tab_index(v.selected_tab)].len() == 0 {
            (v, None)
        } else {
            match response {
                None => (after_tab_keys(v, key), None),
                Some(a) => match a.action {
                    UiActionsView::DismissDialog => (after_tab_keys(after_dismiss_request(v, a.source), key), None),
                    UiActionsView::ButtonClicked(name) => if name == "Ok"@ || name == "Cancel"@ {
                        (after_tab_keys(after_pop(v), key), None)
                    } else {
                        (after_tab_keys(v, key), None)
                    },
                    _ => (v, Some(a)),
                },
            }
        },
        _ => (v, None),
    }
}

fn push_on_every(views: &mut Vec<Vec<Layer>>, l: &Layer)
    ensures
        stacks_view(final(views)@) == push_on_all(stacks_view(old(views)@), l@),
{
    let ghost orig = stacks_view(views@);
    let n: usize = views.len();
    let mut i: usize = 0;
    while i < n
        invariant
            n == views@.len(),
            i <= n,
            orig.len() == n,
            forall|j: int| 0 <= j < i ==> stack_view(#[trigger] views@[j]@) == orig[j].push(l@),
            forall|j: int| i <= j < n ==> stack_view(#[trigger] views@[j]@) == orig[j],
        decreases n - i,
    {
        let c = l.duplicate();
        let ghost before = views@[i as int]@;
        views[i].push(c);
        assert(stack_view(views@[i as int]@) =~= stack_view(before).push(l@));
        i = i + 1;
    }
    assert(stacks_view(views@) =~= push_on_all(orig, l@));
}

fn remove_on_every(views: &mut Vec<Vec<Layer>>, name: &String)
    ensures
        stacks_view(final(views)@) == remove_from_all(stacks_view(old(views)@), name@),
{
    let ghost orig = stacks_view(views@);
    let n: usize = views.len();
    let mut i: usize = 0;
    while i < n
        invariant
            n == views@.len(),
            i <= n,
            orig.len() == n,
            forall|j: int| 0 <= j < i ==> stack_view(#[trigger] views@[j]@) == without_name(orig[j], name@),
            forall|j: int| i <= j < n ==> stack_view(#[trigger] views@[j]@) == orig[j],
        decreases n - i,
    {
        remove_by_name(&mut views[i], name);
        i = i + 1;
    }
    assert(stacks_view(views@) =~= remove_from_all(orig, name@));
}

fn replace_on_every(views: &mut Vec<Vec<Layer>>, name: &String, l: &Layer)
    ensures
        stacks_view(final(views)@) == replace_on_all(stacks_view(old(views)@), name@, l@),
{
    let ghost orig = stacks_view(views@);
    let n: usize = views.len();
    let mut i: usize = 0;
    while i < n
        invariant
            n == views@.len(),
            i <= n,
            orig.len() == n,
            forall|j: int| 0 <= j < i ==> stack_view(#[trigger] views@[j]@) == without_name(orig[j], name@).push(l@),
            forall|j: int| i <= j < n ==> stack_view(#[trigger] views@[j]@) == orig[j],
        decreases n - i,
    {
        remove_by_name(&mut views[i], name);
        let c = l.duplicate();
        let ghost before = views@[i as int]@;
        views[i].push(c);
        assert(stack_view(views@[i as int]@) =~= stack_view(before).push(l@));
        i = i + 1;
    }
    assert(stacks_view(views@) =~= replace_on_all(orig, name@, l@));
}

fn push_pages(views: &mut Vec<Vec<Layer>>)
    requires
        old(views)@.len() == TAB_COUNT,
    ensures
        final(views)@.len() == TAB_COUNT,
        forall|j: int| 0 <= j < TAB_COUNT ==> stack_view(#[trigger] final(views)@[j]@) == stack_view(old(views)@[j]@).push(LayerView::Page(tab_at(j).unwrap())),
{
    let ghost orig = stacks_view(views@);
    let mut i: usize = 0;
    while i < TAB_COUNT
        invariant
            i <= TAB_COUNT,
            views@.len() == TAB_COUNT,
            orig.len() == TAB_COUNT,
            orig == stacks_view(old(views)@),
            forall|j: int| 0 <= j < i ==> stack_view(#[trigger] views@[j]@) == orig[j].push(LayerView::Page(tab_at(j).unwrap())),
            forall|j: int| i <= j < TAB_COUNT ==> stack_view(#[trigger] views@[j]@) == orig[j],
        decreases TAB_COUNT - i,
    {
        let t = UiTabs::from_repr(i).unwrap();
        let ghost before = views@[i as int]@;
        views[i].push(Layer::Page(t));
        assert(stack_view(views@[i as int]@) =~= stack_view(before).push(LayerView::Page(t)));
        i = i + 1;
    }
}

/// An empty layer stack for every tab.
fn empty_stacks() -> (views: Vec<Vec<Layer>>)
    ensures
        views@.len() == TAB_COUNT,
        forall|j: int| 0 <= j < TAB_COUNT ==> (#[trigger] views@[j])@.len() == 0,
{
    let mut views: Vec<Vec<Layer>> = Vec::new();
    let mut i: usize = 0;
    while i < TAB_COUNT
        invariant
            i <= TAB_COUNT,
            views@.len() == i,
            forall|j: int| 0 <= j < i ==> (#[trigger] views@[j])@.len() == 0,
        decreases TAB_COUNT - i,
    {
        views.push(Vec::new());
        i = i + 1;
    }
    views
}

impl Ui {
    /// Every `Ui` has one stack per tab, and its startup warning is visible
    /// only once it has been shown.
    #[verifier::type_invariant]
    spec fn well_formed(self) -> bool {
        ui_wf(self@)
    }

    /// Takes the stacks out, leaving an empty stack per tab in their place.
    fn take_views(&mut self) -> (views: Vec<Vec<Layer>>)
        ensures
            views@ == old(self).views@,
            final(self).views@.len() == TAB_COUNT,
            final(self).selected_tab == old(self).selected_tab,
            final(self).first_frame == old(self).first_frame,
            final(self).startup_warning_shown == old(self).startup_warning_shown,
            final(self).startup_warning_visible == old(self).startup_warning_visible,
            final(self).last_reboot_warning == old(self).last_reboot_warning,
            final(self).reboot_warning_shown == old(self).reboot_warning_shown,
            final(self).connection_popup_shown == old(self).connection_popup_shown,
    {
        proof { use_type_invariant(&*self); }
        let mut views = empty_stacks();
        core::mem::swap(&mut views, &mut self.views);
        views
    }

    /// A user interface with an empty layer stack for every tab and the first
    /// tab selected.
    pub fn new() -> (u: Ui)
        ensures
            u@ == initial_ui(),
            ui_wf(u@),
    {
        let views = empty_stacks();
        let u = Ui {
            views,
            selected_tab: UiTabs::Summary,
            first_frame: true,
            startup_warning_shown: false,
            startup_warning_visible: false,
            last_reboot_warning: u64::MAX,
            reboot_warning_shown: false,
            connection_popup_shown: false,
        };
        assert forall|j: int| 0 <= j < TAB_COUNT implies #[trigger] u@.stacks[j] =~= initial_ui().stacks[j] by {
            assert(u.views@[j]@.len() == 0);
        }
        assert(u@.stacks =~= initial_ui().stacks);
        u
    }

    /// The selected tab.
    pub fn selected_tab(&self) -> (t: UiTabs)
        ensures
            t == self@.selected_tab,
    {
        self.selected_tab
    }

    /// The layer stack of a tab, bottom first.
    pub fn layers(&self, tab: UiTabs) -> (s: &Vec<Layer>)
        ensures
            stack_view(s@) == self@.stacks[tab_index(tab)],
    {
        proof { use_type_invariant(self); }
        &self.views[tab.index()]
    }

    /// Whether the startup warning is on the stacks.
    pub fn startup_warning_visible(&self) -> (b: bool)
        ensures
            b == self@.startup_warning_visible,
    {
        self.startup_warning_visible
    }

    /// Whether the reboot warning is on the stacks.
    pub fn reboot_warning_shown(&self) -> (b: bool)
        ensures
            b == self@.reboot_warning_shown,
    {
        self.reboot_warning_shown
    }

    /// Whether the connection popup is on the stacks.
    pub fn connection_popup_shown(&self) -> (b: bool)
        ensures
            b == self@.connection_popup_shown,
    {
        self.connection_popup_shown
    }

    /// Whether the screen must be cleared before drawing: true for the first
    /// frame only.
    pub fn take_first_frame(&mut self) -> (b: bool)
        ensures
            b == old(self)@.first_frame,
            final(self)@ == (UiView { first_frame: false, ..old(self)@ }),
    {
        proof { use_type_invariant(&*self); }
        let b = self.first_frame;
        self.first_frame = false;
        b
    }

    /// Lays out the main screen on `area`, with a version text `version_width`
    /// cells wide at the right of the top bar; the first call also asks for
    /// the screen to be cleared.
    pub fn screen_layout(&mut self, area: Rect, version_width: u16) -> (l: ScreenLayout)
        ensures
            final(self)@ == (UiView { first_frame: false, ..old(self)@ }),
            l.clear_screen == old(self)@.first_frame,
            screen_parts_ok(l, area),
            screen_room(area, version_width) ==> {
                let (rows, cols) = screen_areas(area, version_width);
                &&& l.tabs == cols[0]
                &&& l.version == cols[1]
                &&& l.body == rows[1]
                &&& l.status_bar == rows[2]
            },
            l.selected_tab == tab_index(old(self)@.selected_tab),
            l.layer_count == old(self)@.stacks[tab_index(old(self)@.selected_tab)].len(),
            l.focused_layer == if l.layer_count == 0 { 0 } else { l.layer_count - 1 },
    {
        proof { use_type_invariant(&*self); }
        let clear_screen = self.take_first_frame();
        let mut rows: Vec<Constraint> = Vec::new();
        rows.push(Constraint::Length(3));
        rows.push(Constraint::Fill(0));
        rows.push(Constraint::Length(3));
        proof {
            reveal_with_fuel(fill_count, 5);
            reveal_with_fuel(length_sum, 5);
            reveal_with_fuel(prefix_sum, 5);
        }
        assert(rows@ =~= seq![Constraint::Length(3), Constraint::Fill(0), Constraint::Length(3)]);
        let screen = split_area(area, Direction::Vertical, &rows, Flex::Start);
        proof {
            if screen_room(area, version_width) {
                assert(seg_sizes(rows@, area.height - 6) =~= seq![3, area.height - 6, 3]);
            }
        }
        assert(segment_of(screen@[0], area, Direction::Vertical));
        assert(segment_of(screen@[1], area, Direction::Vertical));
        assert(segment_of(screen@[2], area, Direction::Vertical));
        let mut cols: Vec<Constraint> = Vec::new();
        cols.push(Constraint::Fill(0));
        cols.push(Constraint::Length(version_width));
        assert(cols@ =~= seq![Constraint::Fill(0), Constraint::Length(version_width)]);
        let top = split_area(screen[0], Direction::Horizontal, &cols, Flex::Start);
        proof {
            if screen_room(area, version_width) {
                assert(seg_sizes(cols@, area.width - version_width) =~= seq![area.width - version_width, version_width as int]);
            }
        }
        assert(segment_of(top@[0], screen@[0], Direction::Horizontal));
        assert(segment_of(top@[1], screen@[0], Direction::Horizontal));
        let t: usize = self.selected_tab.index();
        let layer_count: usize = self.views[t].len();
        ScreenLayout {
            clear_screen,
            tabs: top[0],
            version: top[1],
            body: screen[1],
            status_bar: screen[2],
            selected_tab: t,
            layer_count,
            focused_layer: layer_count.saturating_sub(1),
        }
    }

    /// The status bar hint, read after the selected tab's windows were drawn
    /// so that it is current: nothing for an empty tab; the hint of
    /// `eval_page` (the page that was just rendered) when the evaluation page
    /// is on top; otherwise `other_tips`, what the top window answered.
    pub fn status_bar_hint(&self, eval_page: &EvalStatusPage, other_tips: Option<String>) -> (r: Option<String>)
        ensures
            opt_str_view(r) == status_hint(
                self@,
                page_tips(eval_page.shows_data(), eval_page.shows_eval_platform()),
                opt_str_view(other_tips),
            ),
    {
        proof { use_type_invariant(self); }
        let t: usize = self.selected_tab.index();
        let n: usize = self.views[t].len();
        if n == 0 {
            return None;
        }
        match &self.views[t][n - 1] {
            Layer::Page(UiTabs::EvalStatus) => eval_page.status_bar_tips(),
            _ => other_tips,
        }
    }

    /// The actions to send after a tick, given each window's answer to the
    /// tick in stack order, bottom first.
    pub fn tick_actions(&self, answers: Vec<Option<Action>>) -> (r: Vec<Action>)
        ensures
            r@.map_values(|a: Action| a@) == tick_outcome(answers@.map_values(|a: Option<Action>| opt_action_view(a))),
    {
        let mut answers = answers;
        let ghost orig = answers@;
        let mut out: Vec<Action> = Vec::new();
        let n: usize = answers.len();
        // reverse the answers, so that popping yields them bottom first
        let mut rest: Vec<Option<Action>> = Vec::new();
        while answers.len() > 0
            invariant
                orig.len() == n,
                answers@.len() + rest@.len() == n,
                answers@ == orig.take(answers@.len() as int),
                forall|j: int| 0 <= j < rest@.len() ==> #[trigger] rest@[j] == orig[n - 1 - j],
            decreases answers@.len(),
        {
            let a = answers.pop().unwrap();
            rest.push(a);
        }
        while rest.len() > 0
            invariant
                orig.len() == n,
                rest@.len() <= n,
                forall|j: int| 0 <= j < rest@.len() ==> #[trigger] rest@[j] == orig[n - 1 - j],
                out@.map_values(|a: Action| a@) == tick_outcome(
                    orig.take(n - rest@.len()).map_values(|a: Option<Action>| opt_action_view(a)),
                ),
            decreases rest@.len(),
        {
            let ghost k: int = n - rest@.len();
            let a = rest.pop().unwrap();
            proof {
                let pre = orig.take(k).map_values(|a: Option<Action>| opt_action_view(a));
                let post = orig.take(k + 1).map_values(|a: Option<Action>| opt_action_view(a));
                assert(post.drop_last() =~= pre);
                assert(post.last() == opt_action_view(a));
            }
            match a {
                Some(x) => {
                    let ghost before = out@;
                    out.push(x);
                    assert(out@.map_values(|a: Action| a@) =~= before.map_values(|a: Action| a@).push(x@));
                },
                None => {},
            }
        }
        assert(orig.take(n as int) =~= orig);
        out
    }

    /// What the selected tab's top window answers to a key when it is one of
    /// this library's dialogs (its own key handler); `None` for an empty tab
    /// or a window of another kind, whose answer the caller obtains itself.
    pub fn top_dialog_key_response(&self, key: KeyInput) -> (r: Option<Option<Action>>)
        ensures
            match r {
                None => top_dialog_answer(self@, key) is None,
                Some(a) => top_dialog_answer(self@, key) == Some(opt_action_view(a)),
            },
    {
        proof { use_type_invariant(self); }
        let t: usize = self.selected_tab.index();
        let n: usize = self.views[t].len();
        if n == 0 {
            return None;
        }
        match &self.views[t][n - 1] {
            Layer::Dialog(d) => Some(d.on_key_event(key)),
            _ => None,
        }
    }

    /// Puts each tab's page on the tab's own stack.
    pub fn init(&mut self)
        ensures
            final(self)@ == after_init(old(self)@),
            ui_wf(final(self)@),
    {
        proof { use_type_invariant(&*self); }
        let mut views = self.take_views();
        push_pages(&mut views);
        self.views = views;
        assert(self@.stacks =~= after_init(old(self)@).stacks);
    }

    fn push_layer(&mut self, l: Layer)
        ensures
            final(self)@ == after_push(old(self)@, l@),
            ui_wf(final(self)@),
    {
        proof { use_type_invariant(&*self); }
        let t: usize = self.selected_tab.index();
        let mut views = self.take_views();
        let ghost before = views@[t as int]@;
        views[t].push(l);
        assert(stack_view(views@[t as int]@) =~= stack_view(before).push(l@));
        self.views = views;
        assert(self@.stacks =~= after_push(old(self)@, l@).stacks);
    }

    /// Removes and returns the top window of the selected tab, if there is one.
    pub fn pop_layer(&mut self) -> (r: Option<Layer>)
        ensures
            final(self)@ == after_pop(old(self)@),
            ui_wf(final(self)@),
            ({
                let s = old(self)@.stacks[tab_index(old(self)@.selected_tab)];
                match r {
                    None => s.len() == 0,
                    Some(l) => s.len() > 0 && l@ == s.last(),
                }
            }),
    {
        proof { use_type_invariant(&*self); }
        let t: usize = self.selected_tab.index();
        let mut views = self.take_views();
        let ghost before = views@[t as int]@;
        let r = views[t].pop();
        self.views = views;
        proof {
            if before.len() > 0 {
                assert(stack_view(self.views@[t as int]@) =~= stack_view(before).drop_last());
                assert(self@.stacks =~= after_pop(old(self)@).stacks);
            } else {
                assert(self@.stacks =~= old(self)@.stacks);
            }
        }
        r
    }

    /// Opens the IP settings dialog of a network interface on the selected tab.
    pub fn show_ip_dialog(&mut self, interface: &str)
        ensures
            final(self)@ == after_push(old(self)@, LayerView::IpDialog(interface@)),
            ui_wf(final(self)@),
    {
        self.push_layer(Layer::IpDialog(String::from_str(interface)));
    }

    /// Opens the dialog that edits the controller's URL on the selected tab.
    pub fn show_server_url_dialog(&mut self, url: &str)
        ensures
            final(self)@ == after_push(
                old(self)@,
                LayerView::InputDialog {
                    caption: "Change server URL"@,
                    label: "Server URL"@,
                    value: url@,
                    placeholder: "https://prod.zedcontrol.zededa.net"@,
                },
            ),
            ui_wf(final(self)@),
    {
        let d = Layer::InputDialog {
            caption: String::from_str("Change server URL"),
            label: String::from_str("Server URL"),
            value: String::from_str(url),
            placeholder: String::from_str("https://prod.zedcontrol.zededa.net"),
        };
        self.push_layer(d);
    }

    /// Opens a message box with an `OK` and a `Cancel` button on the selected tab.
    pub fn message_box(&mut self, title: &str, message: &str)
        ensures
            final(self)@ == after_push(
                old(self)@,
                LayerView::Dialog(DialogView { name: title@, kind: DialogKindView::MessageBox(message@) }),
            ),
            ui_wf(final(self)@),
    {
        let d = create_message_box(title, message);
        self.push_layer(Layer::Dialog(d));
    }

    /// Push a non-dismissable system message box onto every tab's layer stack
    /// to indicate that the IPC connection to EVE is being established.
    /// No-op if the popup is already shown (the message is then ignored).
    pub fn show_connection_popup(&mut self, message: &str)
        ensures
            old(self)@.connection_popup_shown ==> final(self)@ == old(self)@,
            final(self)@ == after_show_connection_popup(old(self)@, message@),
            ui_wf(final(self)@),
    {
        proof { use_type_invariant(&*self); }
        if self.connection_popup_shown {
            return;
        }
        let popup = Layer::Dialog(create_system_message_box(" EVE Connection ", message));
        let mut views = self.take_views();
        push_on_every(&mut views, &popup);
        self.views = views;
        self.connection_popup_shown = true;
    }

    /// Remove the connection popup from every tab's layer stack by name
    /// (so that windows pushed on top of it stay). No-op if the popup is not
    /// currently shown.
    pub fn dismiss_connection_popup(&mut self)
        ensures
            final(self)@ == after_dismiss_connection_popup(old(self)@),
            ui_wf(final(self)@),
    {
        proof { use_type_invariant(&*self); }
        if !self.connection_popup_shown {
            return;
        }
        let name = String::from_str(" EVE Connection ");
        let mut views = self.take_views();
        remove_on_every(&mut views, &name);
        self.views = views;
        self.connection_popup_shown = false;
    }

    /// Shows the evaluation-mode warning on every tab, the first time only.
    pub fn show_eval_startup_warning(&mut self)
        ensures
            final(self)@ == after_show_startup_warning(old(self)@),
            ui_wf(final(self)@),
    {
        proof { use_type_invariant(&*self); }
        if !self.startup_warning_shown {
            self.startup_warning_shown = true;
            self.startup_warning_visible = true;
            let title = " Evaluation Mode ";
            let message = "This device is running in EVALUATION MODE.\n\
\n\
The device will reboot several times as part of\n\
automated evaluation testing.\n\
\n\
You may inspect all status tabs freely, but:\n\
\n\
  DO NOT change any settings\n\
  DO NOT manually reboot the device\n\
\n\
Check the Eval Status tab for the reboot countdown.";
            // Push to every tab so the warning is visible regardless of which tab is active.
            let d = Layer::Dialog(create_info_box(title, message));
            let mut views = self.take_views();
            push_on_every(&mut views, &d);
            self.views = views;
        }
    }

    /// Remove the startup warning from every tab's layer stack.
    fn dismiss_startup_warning(&mut self)
        ensures
            final(self)@ == after_dismiss_startup_warning(old(self)@),
            ui_wf(final(self)@),
    {
        proof { use_type_invariant(&*self); }
        if self.startup_warning_visible {
            let name = String::from_str(" Evaluation Mode ");
            let mut views = self.take_views();
            remove_on_every(&mut views, &name);
            self.views = views;
            self.startup_warning_visible = false;
        }
    }

    /// Remove the reboot warning from every tab's layer stack by name.
    fn dismiss_reboot_warning(&mut self)
        ensures
            final(self)@ == after_dismiss_reboot_warning(old(self)@),
            ui_wf(final(self)@),
    {
        proof { use_type_invariant(&*self); }
        if self.reboot_warning_shown {
            let name = String::from_str("Reboot Warning");
            let mut views = self.take_views();
            remove_on_every(&mut views, &name);
            self.views = views;
            self.reboot_warning_shown = false;
        }
    }

    /// Shows, refreshes or removes the reboot warning on every tab according to
    /// the reboot countdown of the reported evaluation status.
    pub fn check_and_show_reboot_warning(&mut self, eval_status: &Option<EvalStatus>)
        ensures
            final(self)@ == after_eval_status(
                old(self)@,
                match eval_status {
                    Some(s) => Some(s.reboot_countdown),
                    None => None,
                },
            ),
            ui_wf(final(self)@),
    {
        proof { use_type_invariant(&*self); }
        if let Some(eval_status) = eval_status {
            let countdown: u64 = eval_status.reboot_countdown;

            // countdown == 0 means no reboot scheduled; dismiss any visible warning.
            if countdown == 0 {
                self.last_reboot_warning = u64::MAX;
                self.dismiss_reboot_warning();
                return;
            }
            // Show warning once when the countdown crosses below 5 minutes.
            if countdown < 300 && self.last_reboot_warning >= 300 && !self.reboot_warning_shown {
                self.reboot_warning_shown = true;
                let d = Layer::Dialog(create_reboot_warning_dialog(countdown));
                let mut views = self.take_views();
                push_on_every(&mut views, &d);
                self.views = views;
            } else if countdown < 60 && self.last_reboot_warning >= 60 {
                // Refresh (or re-show) at the urgent threshold.
                self.reboot_warning_shown = true;
                let name = String::from_str("Reboot Warning");
                let d = Layer::Dialog(create_reboot_warning_dialog(countdown));
                let mut views = self.take_views();
                replace_on_every(&mut views, &name, &d);
                self.views = views;
            }
            self.last_reboot_warning = countdown;
        }
    }

    fn apply_tab_keys(&mut self, key: KeyInput)
        ensures
            final(self)@ == after_tab_keys(old(self)@, key),
            ui_wf(final(self)@),
    {
        proof { use_type_invariant(&*self); }
        if key.modifiers == MOD_CONTROL && key.code == KeyCode::Left {
            self.selected_tab = self.selected_tab.previous();
        }
        if key.modifiers == MOD_CONTROL && key.code == KeyCode::Right {
            self.selected_tab = self.selected_tab.next();
        }
    }

    /// Reacts to an event. For a key event, `top_response` is what the top
    /// window of the selected tab answered to the key; it is ignored when the
    /// selected tab has no window. Returns the action that the caller has to
    /// carry out, if any.
    pub fn handle_event(&mut self, event: Event, top_response: Option<Action>) -> (r: Option<Action>)
        ensures
            (final(self)@, opt_action_view(r)) == after_event(old(self)@, event, opt_action_view(top_response)),
            ui_wf(final(self)@),
    {
        proof { use_type_invariant(&*self); }
        match event {
            Event::Key(key) => {
                let t: usize = self.selected_tab.index();
                if self.views[t].len() == 0 {
                    return None;
                }
                if let Some(action) = top_response {
                    match &action.action {
                        UiActions::DismissDialog => {
                            // Only dismiss global warnings if the dismiss originated from
                            // the corresponding warning window; otherwise, dismiss the
                            // actual top-most layer.
                            let mut handled = false;
                            if self.reboot_warning_shown {
                                if action.source == String::from_str("Reboot Warning") {
                                    self.dismiss_reboot_warning();
                                    handled = true;
                                }
                            }
                            if !handled && self.startup_warning_visible {
                                if action.source == String::from_str(" Evaluation Mode ") {
                                    self.dismiss_startup_warning();
                                    handled = true;
                                }
                            }
                            if !handled {
                                self.pop_layer();
                            }
                        },
                        UiActions::ButtonClicked(name) => {
                            if *name == String::from_str("Ok") || *name == String::from_str("Cancel") {
                                self.pop_layer();
                            }
                        },
                        _ => {
                            return Some(action);
                        },
                    }
                }
                self.apply_tab_keys(key);
                None
            },
            _ => None,
        }
    }
}

} // verus!

verus! {

/// No window of the given name on any stack.
pub open spec fn none_named(stacks: Seq<Seq<LayerView>>, name: Seq<char>) -> bool {
    forall|i: int, j: int|
        0 <= i < stacks.len() && 0 <= j < stacks[i].len() ==> !has_name(#[trigger] stacks[i][j], name)
}

proof fn lemma_remove_after_push(s: Seq<LayerView>, name: Seq<char>, l: LayerView)
    requires
        has_name(l, name),
    ensures
        without_name(s.push(l), name) == without_name(s, name),
{
    assert(s.push(l).drop_last() =~= s);
}

proof fn lemma_none_named_after_remove(stacks: Seq<Seq<LayerView>>, name: Seq<char>)
    ensures
        none_named(remove_from_all(stacks, name), name),
{
    assert forall|i: int, j: int|
        0 <= i < remove_from_all(stacks, name).len() && 0 <= j < remove_from_all(stacks, name)[i].len()
        implies !has_name(#[trigger] remove_from_all(stacks, name)[i][j], name) by {
        crate::layers::lemma_without_name(stacks[i], name);
    }
}

/// Showing the connection popup and dismissing it again gives back the
/// state from before, when the popup was not shown and no window of its name
/// was on the stacks.
pub proof fn lemma_connection_popup_roundtrip(v: UiView, message: Seq<char>)
    requires
        ui_wf(v),
        !v.connection_popup_shown,
        none_named(v.stacks, connection_popup_name()),
    ensures
        after_dismiss_connection_popup(after_show_connection_popup(v, message)) == v,
{
    let shown = after_show_connection_popup(v, message);
    let back = after_dismiss_connection_popup(shown);
    assert forall|i: int| 0 <= i < v.stacks.len() implies #[trigger] back.stacks[i] == v.stacks[i] by {
        lemma_remove_after_push(v.stacks[i], connection_popup_name(), connection_popup(message));
        crate::layers::lemma_without_name(v.stacks[i], connection_popup_name());
    }
    assert(back.stacks =~= v.stacks);
}

/// Showing the connection popup a second time changes nothing: the first
/// message stays.
pub proof fn lemma_connection_popup_once(v: UiView, first: Seq<char>, second: Seq<char>)
    ensures
        after_show_connection_popup(after_show_connection_popup(v, first), second)
            == after_show_connection_popup(v, first),
        after_show_connection_popup(v, first).connection_popup_shown,
{
}

/// After the connection popup is dismissed, no window of its name is left on
/// any stack, and it counts as not shown.
pub proof fn lemma_connection_popup_gone(v: UiView)
    requires
        v.connection_popup_shown,
    ensures
        none_named(after_dismiss_connection_popup(v).stacks, connection_popup_name()),
        !after_dismiss_connection_popup(v).connection_popup_shown,
{
    lemma_none_named_after_remove(v.stacks, connection_popup_name());
}

/// The startup warning is shown at most once: asking again changes nothing.
pub proof fn lemma_startup_warning_once(v: UiView)
    ensures
        after_show_startup_warning(after_show_startup_warning(v)) == after_show_startup_warning(v),
        after_show_startup_warning(v).startup_warning_shown,
{
}

/// Seeing the same countdown twice in a row acts like seeing it once: the
/// warning is not pushed a second time.
pub proof fn lemma_reboot_countdown_idempotent(v: UiView, countdown: u64)
    ensures
        after_reboot_countdown(after_reboot_countdown(v, countdown), countdown) == after_reboot_countdown(v, countdown),
{
}

/// When the countdown first crosses below five minutes (but not below one)
/// and no warning is shown, every stack gets the warning on top and keeps
/// everything below it.
pub proof fn lemma_reboot_warning_on_crossing(v: UiView, countdown: u64)
    requires
        ui_wf(v),
        60 <= countdown < 300,
        v.last_reboot_warning >= 300,
        !v.reboot_warning_shown,
    ensures
        ({
            let w = after_reboot_countdown(v, countdown);
            &&& w.reboot_warning_shown
            &&& w.stacks.len() == v.stacks.len()
            &&& forall|i: int| 0 <= i < v.stacks.len() ==> #[trigger] w.stacks[i] == v.stacks[i].push(reboot_warning(countdown))
        }),
{
}

/// Below one minute, after a countdown of at least one minute, every stack
/// has exactly one reboot warning, the urgent one, on top.
pub proof fn lemma_reboot_warning_urgent(v: UiView, countdown: u64)
    requires
        ui_wf(v),
        0 < countdown < 60,
        v.last_reboot_warning >= 60,
        v.reboot_warning_shown || v.last_reboot_warning < 300,
    ensures
        ({
            let w = after_reboot_countdown(v, countdown);
            &&& w.reboot_warning_shown
            &&& w.stacks.len() == v.stacks.len()
            &&& forall|i: int| 0 <= i < w.stacks.len() ==> (#[trigger] w.stacks[i]).last() == reboot_warning(countdown)
            &&& forall|i: int, j: int| 0 <= i < w.stacks.len() && 0 <= j < w.stacks[i].len() - 1
                ==> !has_name(#[trigger] w.stacks[i][j], reboot_warning_name())
        }),
{
    let w = after_reboot_countdown(v, countdown);
    assert forall|i: int, j: int| 0 <= i < w.stacks.len() && 0 <= j < w.stacks[i].len() - 1
        implies !has_name(#[trigger] w.stacks[i][j], reboot_warning_name()) by {
        crate::layers::lemma_without_name(v.stacks[i], reboot_warning_name());
        assert(w.stacks[i][j] == without_name(v.stacks[i], reboot_warning_name())[j]);
    }
}

/// A zero countdown (no reboot scheduled) removes every reboot warning and
/// forgets the countdown.
pub proof fn lemma_reboot_warning_cleared(v: UiView)
    requires
        v.reboot_warning_shown,
    ensures
        ({
            let w = after_reboot_countdown(v, 0);
            &&& !w.reboot_warning_shown
            &&& w.last_reboot_warning == u64::MAX
            &&& none_named(w.stacks, reboot_warning_name())
        }),
{
    lemma_none_named_after_remove(v.stacks, reboot_warning_name());
}

/// When the reboot warning asks to be closed while it is shown, it leaves
/// every stack, not only the selected one.
pub proof fn lemma_reboot_warning_dismissed_everywhere(v: UiView, key: KeyInput)
    requires
        ui_wf(v),
        v.reboot_warning_shown,
        v.stacks[tab_index(v.selected_tab)].len() > 0,
    ensures
        ({
            let (w, r) = after_event(
                v,
                Event::Key(key),
                Some(ActionView { source: reboot_warning_name(), action: UiActionsView::DismissDialog }),
            );
            &&& r is None
            &&& !w.reboot_warning_shown
            &&& none_named(w.stacks, reboot_warning_name())
        }),
{
    lemma_none_named_after_remove(v.stacks, reboot_warning_name());
}

/// Events other than key presses change nothing and ask for nothing.
pub proof fn lemma_non_key_events_ignored(v: UiView, response: Option<ActionView>)
    ensures
        after_event(v, Event::Tick, response) == (v, Option::<ActionView>::None),
        after_event(v, Event::Other, response) == (v, Option::<ActionView>::None),
{
}

/// With no window on the selected tab, a key press changes nothing, not even
/// the selected tab.
pub proof fn lemma_empty_tab_ignores_keys(v: UiView, key: KeyInput, response: Option<ActionView>)
    requires
        v.stacks[tab_index(v.selected_tab)].len() == 0,
    ensures
        after_event(v, Event::Key(key), response) == (v, Option::<ActionView>::None),
{
}

/// The reboot warning is put up only when the countdown crosses below five
/// minutes, or refreshed when it crosses below one minute: a countdown of at
/// least one minute that follows one below five minutes, or that is itself
/// five minutes or more, only updates the remembered countdown. In
/// particular a warning the user closed does not come back on the next
/// status update.
pub proof fn lemma_reboot_warning_not_repeated(v: UiView, countdown: u64)
    requires
        60 <= countdown,
        countdown >= 300 || v.last_reboot_warning < 300,
    ensures
        after_reboot_countdown(v, countdown).stacks == v.stacks,
        after_reboot_countdown(v, countdown).reboot_warning_shown == v.reboot_warning_shown,
        after_reboot_countdown(v, countdown) == (UiView { last_reboot_warning: countdown, ..v }),
{
}

/// A dismiss request from a window other than the two global warnings closes
/// exactly the top window of the selected tab: the other tabs keep their
/// stacks, the selected one loses its top window only, and the warnings'
/// bookkeeping is untouched. Nothing is handed back.
pub proof fn lemma_dismiss_closes_only_the_top(v: UiView, key: KeyInput, source: Seq<char>)
    requires
        ui_wf(v),
        v.stacks[tab_index(v.selected_tab)].len() > 0,
        source != reboot_warning_name(),
        source != startup_warning_name(),
    ensures
        ({
            let t = tab_index(v.selected_tab);
            let (w, r) = after_event(
                v,
                Event::Key(key),
                Some(ActionView { source: source, action: UiActionsView::DismissDialog }),
            );
            &&& r is None
            &&& w.stacks.len() == v.stacks.len()
            &&& w.stacks[t] == v.stacks[t].take(v.stacks[t].len() - 1)
            &&& forall|i: int| 0 <= i < v.stacks.len() && i != t ==> #[trigger] w.stacks[i] == v.stacks[i]
            &&& w.reboot_warning_shown == v.reboot_warning_shown
            &&& w.startup_warning_visible == v.startup_warning_visible
            &&& w.startup_warning_shown == v.startup_warning_shown
            &&& w.last_reboot_warning == v.last_reboot_warning
            &&& w.connection_popup_shown == v.connection_popup_shown
        }),
{
    let t = tab_index(v.selected_tab);
    assert(v.stacks[t].drop_last() =~= v.stacks[t].take(v.stacks[t].len() - 1));
}

/// No answer to a tick is lost or reordered: the actions sent are the
/// windows' answers that are actions, bottom first, the top window's last.
pub proof fn lemma_tick_outcome_keeps_every_action(s: Seq<Option<ActionView>>, a: ActionView)
    ensures
        tick_outcome(Seq::<Option<ActionView>>::empty()) == Seq::<ActionView>::empty(),
        tick_outcome(s.push(Some(a))) == tick_outcome(s).push(a),
        tick_outcome(s.push(None)) == tick_outcome(s),
        tick_outcome(seq![Some(a)]) == seq![a],
{
    assert(s.push(Some(a)).drop_last() =~= s);
    assert(s.push(None::<ActionView>).drop_last() =~= s);
    assert(seq![Some(a)].drop_last() =~= Seq::<Option<ActionView>>::empty());
}

/// The number of actions sent after a tick is the number of windows that
/// answered with one, and never more than the number of windows.
pub proof fn lemma_tick_outcome_len(s: Seq<Option<ActionView>>)
    ensures
        tick_outcome(s).len() == s.filter(|o: Option<ActionView>| o is Some).len(),
        tick_outcome(s).len() <= s.len(),
    decreases s.len(),
{
    reveal_with_fuel(Seq::filter, 1);
    if s.len() > 0 {
        lemma_tick_outcome_len(s.drop_last());
    }
}

/// The startup warning can be closed with `Esc`: when it is the top window
/// of the selected tab, its answer to `Esc` is a dismiss request from it.
pub proof fn lemma_startup_warning_closes_on_esc(v: UiView, key: KeyInput)
    requires
        v.stacks[tab_index(v.selected_tab)].len() > 0,
        v.stacks[tab_index(v.selected_tab)].last() == startup_warning(),
        key.code == KeyCode::Esc,
    ensures
        top_dialog_answer(v, key) == Some(
            Some(ActionView { source: startup_warning_name(), action: UiActionsView::DismissDialog }),
        ),
{
}

/// Pressing a button captioned `Ok` or `Cancel` closes exactly the top
/// window of the selected tab and nothing else.
pub proof fn lemma_ok_cancel_close_the_top(v: UiView, key: KeyInput, source: Seq<char>, caption: Seq<char>)
    requires
        ui_wf(v),
        v.stacks[tab_index(v.selected_tab)].len() > 0,
        caption == "Ok"@ || caption == "Cancel"@,
    ensures
        ({
            let t = tab_index(v.selected_tab);
            let (w, r) = after_event(
                v,
                Event::Key(key),
                Some(ActionView { source: source, action: UiActionsView::ButtonClicked(caption) }),
            );
            &&& r is None
            &&& w.stacks.len() == v.stacks.len()
            &&& w.stacks[t] == v.stacks[t].take(v.stacks[t].len() - 1)
            &&& forall|i: int| 0 <= i < v.stacks.len() && i != t ==> #[trigger] w.stacks[i] == v.stacks[i]
            &&& w.reboot_warning_shown == v.reboot_warning_shown
            &&& w.startup_warning_visible == v.startup_warning_visible
        }),
{
    let t = tab_index(v.selected_tab);
    assert(v.stacks[t].drop_last() =~= v.stacks[t].take(v.stacks[t].len() - 1));
}

/// `CTRL+Right` and `CTRL+Left` move the selection one tab to the right or
/// left, stopping at the ends, and leave every stack as it is.
pub proof fn lemma_ctrl_arrows_switch_tabs(v: UiView, key: KeyInput)
    requires
        v.stacks[tab_index(v.selected_tab)].len() > 0,
        key.modifiers == MOD_CONTROL,
        key.code == KeyCode::Left || key.code == KeyCode::Right,
    ensures
        ({
            let (w, r) = after_event(v, Event::Key(key), None);
            let i = tab_index(v.selected_tab);
            &&& r is None
            &&& w.stacks == v.stacks
            &&& key.code == KeyCode::Right ==> tab_index(w.selected_tab) == if i + 1 < TAB_COUNT { i + 1 } else { i }
            &&& key.code == KeyCode::Left ==> tab_index(w.selected_tab) == if i > 0 { i - 1 } else { 0 }
        }),
{
    crate::tabs::lemma_tab_steps(v.selected_tab);
}

} // verus!
