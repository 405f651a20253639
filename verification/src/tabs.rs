use vstd::prelude::*;

verus! {

/// Number of tabs in the tab bar.
pub const TAB_COUNT: usize = 6;

/// The tabs of the main window, in the order they appear in the tab bar.
#[derive(Clone, Copy, Debug, PartialEq, Eq, Structural)]
pub enum UiTabs {
    Summary,
    Network,
    Applications,
    Vault,
    Dmesg,
    EvalStatus,
}

/// Position of a tab in the tab bar.
pub open spec fn tab_index(t: UiTabs) -> int {
    match t {
        UiTabs::Summary => 0,
        UiTabs::Network => 1,
        UiTabs::Applications => 2,
        UiTabs::Vault => 3,
        UiTabs::Dmesg => 4,
        UiTabs::EvalStatus => 5,
    }
}

/// The tab at a position of the tab bar, if there is one.
pub open spec fn tab_at(i: int) -> Option<UiTabs> {
    if i == 0 {
        Some(UiTabs::Summary)
    } else if i == 1 {
        Some(UiTabs::Network)
    } else if i == 2 {
        Some(UiTabs::Applications)
    } else if i == 3 {
        Some(UiTabs::Vault)
    } else if i == 4 {
        Some(UiTabs::Dmesg)
    } else if i == 5 {
        Some(UiTabs::EvalStatus)
    } else {
        None
    }
}

/// The tab before `t`, or `t` itself when it is the first one.
pub open spec fn previous_tab(t: UiTabs) -> UiTabs {
    if tab_index(t) == 0 {
        t
    } else {
        tab_at(tab_index(t) - 1).unwrap()
    }
}

/// The tab after `t`, or `t` itself when it is the last one.
pub open spec fn next_tab(t: UiTabs) -> UiTabs {
    match tab_at(tab_index(t) + 1) {
        Some(n) => n,
        None => t,
    }
}

/// The name a tab is shown with.
pub open spec fn tab_label(t: UiTabs) -> Seq<char> {
    match t {
        UiTabs::Summary => "Summary"@,
        UiTabs::Network => "Network"@,
        UiTabs::Applications => "Applications"@,
        UiTabs::Vault => "Vault"@,
        UiTabs::Dmesg => "Dmesg"@,
        UiTabs::EvalStatus => "Eval Status"@,
    }
}

impl Default for UiTabs {
    fn default() -> (t: UiTabs)
        ensures
            t == UiTabs::Summary,
    {
        UiTabs::Summary
    }
}

impl UiTabs {
    /// Position of the tab in the tab bar.
    pub fn index(self) -> (i: usize)
        ensures
            i == tab_index(self),
            i < TAB_COUNT,
    {
        match self {
            UiTabs::Summary => 0,
            UiTabs::Network => 1,
            UiTabs::Applications => 2,
            UiTabs::Vault => 3,
            UiTabs::Dmesg => 4,
            UiTabs::EvalStatus => 5,
        }
    }

    /// The tab at position `i`, or `None` past the last tab.
    pub fn from_repr(i: usize) -> (r: Option<UiTabs>)
        ensures
            r == tab_at(i as int),
    {
        if i == 0 {
            Some(UiTabs::Summary)
        } else if i == 1 {
            Some(UiTabs::Network)
        } else if i == 2 {
            Some(UiTabs::Applications)
        } else if i == 3 {
            Some(UiTabs::Vault)
        } else if i == 4 {
            Some(UiTabs::Dmesg)
        } else if i == 5 {
            Some(UiTabs::EvalStatus)
        } else {
            None
        }
    }

    /// Get the previous tab, if there is no previous tab return the current tab.
    pub fn previous(self) -> (r: UiTabs)
        ensures
            r == previous_tab(self),
    {
        let current_index: usize = self.index();
        let previous_index: usize = current_index.saturating_sub(1);
        match UiTabs::from_repr(previous_index) {
            Some(t) => t,
            None => self,
        }
    }

    /// Get the next tab, if there is no next tab return the current tab.
    pub fn next(self) -> (r: UiTabs)
        ensures
            r == next_tab(self),
    {
        let current_index: usize = self.index();
        let next_index: usize = current_index.saturating_add(1);
        match UiTabs::from_repr(next_index) {
            Some(t) => t,
            None => self,
        }
    }
}

impl UiTabs {
    /// The name the tab is shown with (`Eval Status` for the evaluation tab).
    pub fn label(self) -> (s: String)
        ensures
            s@ == tab_label(self),
    {
        match self {
            UiTabs::Summary => String::from_str("Summary"),
            UiTabs::Network => String::from_str("Network"),
            UiTabs::Applications => String::from_str("Applications"),
            UiTabs::Vault => String::from_str("Vault"),
            UiTabs::Dmesg => String::from_str("Dmesg"),
            UiTabs::EvalStatus => String::from_str("Eval Status"),
        }
    }

    /// The text of the tab's title in the tab bar: its name padded by one
    /// space on each side.
    pub fn to_tab_title(self) -> (s: String)
        ensures
            s@ == " "@ + tab_label(self) + " "@,
    {
        let label = self.label();
        let title = String::from_str(" ").concat(label.as_str()).concat(" ");
        title
    }

    /// All tabs in tab-bar order.
    pub fn all() -> (v: Vec<UiTabs>)
        ensures
            v@.len() == TAB_COUNT,
            forall|i: int| 0 <= i < TAB_COUNT ==> tab_at(i) == Some(#[trigger] v@[i]),
    {
        let mut v: Vec<UiTabs> = Vec::new();
        v.push(UiTabs::Summary);
        v.push(UiTabs::Network);
        v.push(UiTabs::Applications);
        v.push(UiTabs::Vault);
        v.push(UiTabs::Dmesg);
        v.push(UiTabs::EvalStatus);
        v
    }
}

/// Every tab has a position below `TAB_COUNT`, and the position leads back
/// to the tab; every position below `TAB_COUNT` holds a tab.
pub proof fn lemma_tab_index_roundtrip(t: UiTabs, i: int)
    ensures
        0 <= tab_index(t) < TAB_COUNT,
        tab_at(tab_index(t)) == Some(t),
        tab_at(i) is Some <==> 0 <= i < TAB_COUNT,
        tab_at(i) matches Some(u) ==> tab_index(u) == i,
{
}

/// Moving to the next tab advances the position by one, except on the last
/// tab, which stays; moving to the previous tab goes back by one, except on
/// the first tab, which stays.
pub proof fn lemma_tab_steps(t: UiTabs)
    ensures
        tab_index(next_tab(t)) == if tab_index(t) + 1 < TAB_COUNT { tab_index(t) + 1 } else { tab_index(t) },
        tab_index(previous_tab(t)) == if tab_index(t) > 0 { tab_index(t) - 1 } else { 0 },
{
}

/// Going one tab forward and then one back returns to the start, unless the
/// start is the last tab; going back and then forward returns to the start,
/// unless the start is the first tab.
pub proof fn lemma_tab_step_roundtrip(t: UiTabs)
    ensures
        tab_index(t) + 1 < TAB_COUNT ==> previous_tab(next_tab(t)) == t,
        tab_index(t) > 0 ==> next_tab(previous_tab(t)) == t,
{
}

} // verus!
