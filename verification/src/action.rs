use vstd::prelude::*;

verus! {

/// Bit of the `SHIFT` key in [`KeyInput::modifiers`].
pub const MOD_SHIFT: u8 = 1;

/// Bit of the `CONTROL` key in [`KeyInput::modifiers`].
pub const MOD_CONTROL: u8 = 2;

/// Bit of the `ALT` key in [`KeyInput::modifiers`].
pub const MOD_ALT: u8 = 4;

/// The key of a key press, as far as the user interface tells keys apart.
#[derive(Clone, Copy, Debug, PartialEq, Eq, Structural)]
pub enum KeyCode {
    Esc,
    Enter,
    Left,
    Right,
    Char(char),
    /// Any other key.
    Other,
}

/// A key press: the key and the set of held modifier keys as a bit set
/// (`MOD_SHIFT`, `MOD_CONTROL`, `MOD_ALT`, ...).
#[derive(Clone, Copy, Debug, PartialEq, Eq, Structural)]
pub struct KeyInput {
    pub code: KeyCode,
    pub modifiers: u8,
}

/// The events the user interface reacts to.
#[derive(Clone, Copy, Debug, PartialEq, Eq, Structural)]
pub enum Event {
    Key(KeyInput),
    /// The periodic timer.
    Tick,
    /// Any other event (resize, focus, mouse, ...).
    Other,
}

/// What a window asks the application to do.
#[derive(Clone, Debug)]
pub enum UiActions {
    /// Close the dialog that sent the action.
    DismissDialog,
    /// The button with the given caption was pressed.
    ButtonClicked(String),
    /// Repaint the screen.
    Redraw,
    /// Leave the application.
    Quit,
}

/// An action together with the name of the window that produced it.
#[derive(Clone, Debug)]
pub struct Action {
    pub source: String,
    pub action: UiActions,
}

/// The contents of a [`UiActions`], with strings taken by their characters.
pub enum UiActionsView {
    DismissDialog,
    ButtonClicked(Seq<char>),
    Redraw,
    Quit,
}

/// The contents of an [`Action`], with strings taken by their characters.
pub struct ActionView {
    pub source: Seq<char>,
    pub action: UiActionsView,
}

impl View for UiActions {
    type V = UiActionsView;

    open spec fn view(&self) -> UiActionsView {
        match self {
            UiActions::DismissDialog => UiActionsView::DismissDialog,
            UiActions::ButtonClicked(s) => UiActionsView::ButtonClicked(s@),
            UiActions::Redraw => UiActionsView::Redraw,
            UiActions::Quit => UiActionsView::Quit,
        }
    }
}

impl View for Action {
    type V = ActionView;

    open spec fn view(&self) -> ActionView {
        ActionView { source: self.source@, action: self.action@ }
    }
}

/// The view of an optional action.
pub open spec fn opt_action_view(a: Option<Action>) -> Option<ActionView> {
    match a {
        Some(a) => Some(a@),
        None => None,
    }
}

/// A press of `code` with exactly the `CONTROL` modifier held.
pub open spec fn is_ctrl_key(k: KeyInput, code: KeyCode) -> bool {
    k.modifiers == MOD_CONTROL && k.code == code
}

impl Action {
    /// An action from the window named `source`.
    pub fn new(source: &str, action: UiActions) -> (a: Action)
        ensures
            a@.source == source@,
            a.action == action,
    {
        Action { source: String::from_str(source), action }
    }
}

} // verus!
