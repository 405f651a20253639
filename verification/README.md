# monitor_ui

The decision logic of a terminal user interface for a device monitor, written
in Verus and proved against its contracts.

- `src/tabs.rs` — the tab bar: order, neighbours, titles.
- `src/action.rs` — key presses, events and the actions windows emit.
- `src/dialogs.rs` — message, info, system and reboot-warning dialogs: their
  widgets, focus order, key handling, frame style and layout.
- `src/eval_page.rs`, `src/timefmt.rs`, `src/text.rs` — the evaluation status
  page as styled lines of text, and the time texts it shows.
- `src/layers.rs`, `src/ui.rs` — the per-tab layer stacks and the global
  popups (connection, startup warning, reboot warning), with the laws that
  relate the operations on them.
- `src/geometry.rs` — rectangles and the calls into the terminal library's
  layout solver.
- `app/` — terminal glue: event conversion and drawing with ratatui.
