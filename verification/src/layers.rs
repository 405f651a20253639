use vstd::prelude::*;

use crate::dialogs::{Dialog, DialogKind, DialogView, RebootWarningState};
use crate::tabs::UiTabs;

verus! {

/// A window on a tab's layer stack.
#[derive(Debug)]
pub enum Layer {
    /// The page of a tab, at the bottom of its stack.
    Page(UiTabs),
    /// A dialog window.
    Dialog(Dialog),
    /// The dialog that edits the IP settings of the named network interface.
    IpDialog(String),
    /// A dialog that asks for one line of text.
    InputDialog { caption: String, label: String, value: String, placeholder: String },
}

/// A [`Layer`] as plain values.
pub enum LayerView {
    Page(UiTabs),
    Dialog(DialogView),
    IpDialog(Seq<char>),
    InputDialog { caption: Seq<char>, label: Seq<char>, value: Seq<char>, placeholder: Seq<char> },
}

impl View for Layer {
    type V = LayerView;

    open spec fn view(&self) -> LayerView {
        match self {
            Layer::Page(t) => LayerView::Page(*t),
            Layer::Dialog(d) => LayerView::Dialog(d@),
            Layer::IpDialog(i) => LayerView::IpDialog(i@),
            Layer::InputDialog { caption, label, value, placeholder } => LayerView::InputDialog {
                caption: caption@,
                label: label@,
                value: value@,
                placeholder: placeholder@,
            },
        }
    }
}

/// The name a window is found by: a dialog's name, an input dialog's
/// caption; pages and the IP dialog are never looked up by name.
pub open spec fn layer_name(l: LayerView) -> Option<Seq<char>> {
    match l {
        LayerView::Dialog(d) => Some(d.name),
        LayerView::InputDialog { caption, .. } => Some(caption),
        _ => None,
    }
}

/// Whether the window has the given name.
pub open spec fn has_name(l: LayerView, name: Seq<char>) -> bool {
    layer_name(l) == Some(name)
}

/// The stack without the windows of the given name, the others kept in order.
pub open spec fn without_name(s: Seq<LayerView>, name: Seq<char>) -> Seq<LayerView>
    decreases s.len(),
{
    if s.len() == 0 {
        s
    } else {
        let rest = without_name(s.drop_last(), name);
        if has_name(s.last(), name) {
            rest
        } else {
            rest.push(s.last())
        }
    }
}

/// The view of a layer stack.
pub open spec fn stack_view(s: Seq<Layer>) -> Seq<LayerView> {
    s.map_values(|l: Layer| l@)
}

/// The views of all layer stacks.
pub open spec fn stacks_view(v: Seq<Vec<Layer>>) -> Seq<Seq<LayerView>> {
    v.map_values(|s: Vec<Layer>| stack_view(s@))
}

/// Removing the windows of a name leaves none of that name, keeps every
/// other window, and changes nothing when there was none of that name.
pub proof fn lemma_without_name(s: Seq<LayerView>, name: Seq<char>)
    ensures
        forall|i: int| 0 <= i < without_name(s, name).len() ==> !has_name(#[trigger] without_name(s, name)[i], name),
        forall|i: int| 0 <= i < s.len() && !has_name(#[trigger] s[i], name) ==> without_name(s, name).contains(s[i]),
        without_name(s, name).len() <= s.len(),
        (forall|i: int| 0 <= i < s.len() ==> !has_name(#[trigger] s[i], name)) ==> without_name(s, name) == s,
    decreases s.len(),
{
    if s.len() > 0 {
        lemma_without_name(s.drop_last(), name);
        let rest = without_name(s.drop_last(), name);
        assert forall|i: int| 0 <= i < s.len() && !has_name(#[trigger] s[i], name) implies without_name(s, name).contains(s[i]) by {
            if i < s.len() - 1 {
                assert(s.drop_last()[i] == s[i]);
                let k = choose|k: int| 0 <= k < rest.len() && rest[k] == s[i];
                if has_name(s.last(), name) {
                } else {
                    assert(rest.push(s.last())[k] == s[i]);
                }
            } else {
                assert(rest.push(s.last())[rest.len() as int] == s[i]);
            }
        }
        if forall|i: int| 0 <= i < s.len() ==> !has_name(#[trigger] s[i], name) {
            assert forall|i: int| 0 <= i < s.drop_last().len() implies !has_name(#[trigger] s.drop_last()[i], name) by {
                assert(s.drop_last()[i] == s[i]);
            }
            assert(!has_name(s[s.len() - 1], name));
            assert(s.drop_last().push(s.last()) =~= s);
        }
    }
}

impl Dialog {
    /// A copy of the dialog.
    pub fn duplicate(&self) -> (d: Dialog)
        ensures
            d@ == self@,
    {
        let kind = match &self.kind {
            DialogKind::MessageBox(c) => DialogKind::MessageBox(c.clone()),
            DialogKind::InfoBox(c) => DialogKind::InfoBox(c.clone()),
            DialogKind::SystemMessageBox(c) => DialogKind::SystemMessageBox(c.clone()),
            DialogKind::RebootWarning(s) => DialogKind::RebootWarning(RebootWarningState { countdown_secs: s.countdown_secs }),
        };
        Dialog { name: self.name.clone(), kind }
    }
}

impl Layer {
    /// A copy of the window.
    pub fn duplicate(&self) -> (l: Layer)
        ensures
            l@ == self@,
    {
        match self {
            Layer::Page(t) => Layer::Page(*t),
            Layer::Dialog(d) => Layer::Dialog(d.duplicate()),
            Layer::IpDialog(i) => Layer::IpDialog(i.clone()),
            Layer::InputDialog { caption, label, value, placeholder } => Layer::InputDialog {
                caption: caption.clone(),
                label: label.clone(),
                value: value.clone(),
                placeholder: placeholder.clone(),
            },
        }
    }

    /// Whether the window has the given name.
    pub fn is_named(&self, name: &String) -> (b: bool)
        ensures
            b == has_name(self@, name@),
    {
        match self {
            Layer::Dialog(d) => d.name == *name,
            Layer::InputDialog { caption, .. } => *caption == *name,
            _ => false,
        }
    }
}

/// Removes every window of the given name from a stack.
pub fn remove_by_name(stack: &mut Vec<Layer>, name: &String)
    ensures
        stack_view(final(stack)@) == without_name(stack_view(old(stack)@), name@),
{
    let ghost orig = stack_view(stack@);
    let mut kept: Vec<Layer> = Vec::new();
    let n: usize = stack.len();
    let mut i: usize = 0;
    while i < n
        invariant
            n == stack@.len(),
            i <= n,
            stack_view(stack@) == orig,
            stack_view(kept@) == without_name(orig.take(i as int), name@),
        decreases n - i,
    {
        let l = stack[i].duplicate();
        let named = l.is_named(name);
        proof {
            assert(orig.take(i as int + 1).drop_last() =~= orig.take(i as int));
            assert(orig.take(i as int + 1).last() == orig[i as int]);
            assert(orig[i as int] == stack@[i as int]@);
        }
        if !named {
            kept.push(l);
            assert(stack_view(kept@) =~= without_name(orig.take(i as int), name@).push(l@));
        }
        i = i + 1;
    }
    assert(orig.take(n as int) =~= orig);
    *stack = kept;
}

} // verus!
