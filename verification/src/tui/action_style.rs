//! What kind of thing a key does, which decides its colour.
use vstd::prelude::*;

verus! {

#[derive(Clone, Copy, Debug, PartialEq, Eq, Structural)]
pub enum ActionTone {
    Add,
    Cancel,
    Clear,
    Confirm,
    Destructive,
    Edit,
    Info,
    Mode,
    Navigate,
    Open,
    Paste,
    Queue,
    Rate,
    Replay,
    Search,
    Select,
    Sort,
    Theme,
    Toggle,
}

/// A key and what it does, as a footer tells it.
#[derive(Clone, Copy, Debug, PartialEq, Eq)]
pub struct KeyHint {
    pub key: &'static str,
    pub action: &'static str,
    pub tone: ActionTone,
}

#[verifier::ext_equal]
pub struct HintView {
    pub key: Seq<char>,
    pub action: Seq<char>,
    pub tone: ActionTone,
}

impl View for KeyHint {
    type V = HintView;

    open spec fn view(&self) -> HintView {
        hint(self.key@, self.action@, self.tone)
    }
}

pub open spec fn hint(key: Seq<char>, action: Seq<char>, tone: ActionTone) -> HintView {
    HintView { key, action, tone }
}

pub open spec fn hint_views(hints: Seq<KeyHint>) -> Seq<HintView> {
    hints.map_values(|hint: KeyHint| hint@)
}

/// Puts one more key behind the others.
pub(crate) fn push_hint(
    hints: &mut Vec<KeyHint>,
    key: &'static str,
    action: &'static str,
    tone: ActionTone,
)
    ensures
        hint_views(final(hints)@) == hint_views(old(hints)@).push(hint(key@, action@, tone)),
{
    let ghost was = hint_views(hints@);
    hints.push(KeyHint { key, action, tone });
    assert(hint_views(hints@) =~= was.push(hint(key@, action@, tone)));
}

} // verus!
