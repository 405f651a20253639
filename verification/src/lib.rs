//! Decision logic of the device monitor's terminal user interface: the tab
//! bar, the evaluation-status page, the dialog windows and the per-tab layer
//! stacks with the global popups that sit on top of them.

mod action;
mod decimal;
mod dialogs;
mod eval_page;
mod geometry;
mod layers;
mod tabs;
mod text;
mod timefmt;
mod ui;

pub use action::{
    is_ctrl_key, opt_action_view, Action, ActionView, Event, KeyCode, KeyInput, UiActions,
    UiActionsView, MOD_ALT, MOD_CONTROL, MOD_SHIFT,
};
pub use tabs::{
    lemma_tab_index_roundtrip, lemma_tab_step_roundtrip, lemma_tab_steps, next_tab, previous_tab,
    tab_at, tab_index, tab_label, UiTabs, TAB_COUNT,
};
pub use geometry::{
    axis_extent, axis_rect, axis_start, centred_fits, centred_sizes, contained, fill_count,
    fits_u16, inner_rect, length_sum, one_fill_fits, packed_split, prefix_sum, seg_sizes, lemma_contained, lemma_inner_contained, rect_inner, rect_tuple,
    sat_add_u16, sat_mul_u16, sat_sub_u16, segment_of, Constraint, Direction, Flex, Rect,
};
pub use decimal::{decimal, decimal_text, digit_char};
pub use text::{
    bold_style, empty_line, empty_text_line, fg_style, line_of, line_of2, plain_style, str_line,
    str_span, str_span_of, style, Color, PieceView, Span, SpanStyle, SpanView, TextLine, TextPiece,
};
pub use dialogs::{
    create_info_box, create_message_box, create_reboot_warning_dialog, create_system_message_box,
    dialog_child_response, dialog_focus_order, dialog_key_response, lemma_dialog_keys,
    dialog_areas, dialog_layout_ok, dialog_part_ids, dialog_room, dialog_size, dialog_widgets, reboot_message, reboot_message_text,
    reboot_warning_name, Dialog, DialogKind, DialogKindView, DialogView, FrameStyle, NamedArea,
    RebootWarningState, Widget, WidgetEntry, WidgetView,
};
pub use timefmt::{
    age_display, age_pieces, age_shown, age_text, duration_display, elapsed_since, format_age,
    format_duration_ns, format_start_time, local_time_pattern, opt_text_view, pieces_view,
    rfc3339_parse, rfc3339_text_at, seconds_between, start_display, start_shown, start_text,
    valid_now, INSTANT_BOUND,
};
pub use eval_page::{
    field_line, footer_lines, header_lines, lemma_onboarding_line, lemma_tips_follow_render, lines_view, page_lines,
    page_tips, pieces_span, reboot_line, rule, section_heading, separator, separator_width,
    status_lines_spec, status_page_text, test_lines_spec, waiting_lines, waiting_text, EvalStatus,
    EvalStatusPage, EvalStatusView,
};
pub use layers::{
    has_name, layer_name, lemma_without_name, remove_by_name, stack_view, stacks_view,
    without_name, Layer, LayerView,
};
pub use ui::{
    after_dismiss_connection_popup, after_dismiss_reboot_warning, after_dismiss_request,
    after_dismiss_startup_warning, after_eval_status, after_event, after_init, after_pop,
    after_push, after_reboot_countdown, after_show_connection_popup, after_show_startup_warning,
    after_tab_keys, connection_popup, connection_popup_name, initial_ui,
    lemma_connection_popup_gone, lemma_connection_popup_once, lemma_connection_popup_roundtrip,
    lemma_empty_tab_ignores_keys, lemma_non_key_events_ignored, lemma_reboot_countdown_idempotent,
    lemma_reboot_warning_cleared, lemma_reboot_warning_dismissed_everywhere,
    lemma_reboot_warning_on_crossing, lemma_reboot_warning_urgent, lemma_startup_warning_once,
    lemma_reboot_warning_not_repeated, lemma_dismiss_closes_only_the_top, lemma_tick_outcome_keeps_every_action,
    lemma_tick_outcome_len, lemma_startup_warning_closes_on_esc, lemma_ok_cancel_close_the_top,
    lemma_ctrl_arrows_switch_tabs,
    none_named, push_on_all, reboot_warning, remove_from_all, replace_on_all, screen_areas, screen_parts_ok, screen_room,
    startup_warning, startup_warning_name, startup_warning_text, ui_wf,
    opt_str_view, status_hint, tick_outcome, top_dialog_answer, ScreenLayout, Ui, UiView,
};
