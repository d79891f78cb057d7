use vstd::prelude::*;

verus! {

/// The characters of the reply to a read: `"on"` for the on state,
/// `"off"` for the off state.
pub open spec fn state_text(on: bool) -> Seq<char> {
    if on {
        seq!['o', 'n']
    } else {
        seq!['o', 'f', 'f']
    }
}

/// The one authoritative copy of the toggle.
///
/// It starts off. A write replaces the value and every later read sees it;
/// of two writes the later one wins. Callers that share it between tasks
/// put it behind a lock, which gives the writes their single order.
pub struct StateCell {
    on: bool,
}

impl View for StateCell {
    type V = bool;

    closed spec fn view(&self) -> bool {
        self.on
    }
}

impl StateCell {
    /// A cell in the off state.
    pub fn new() -> (r: StateCell)
        ensures
            r@ == false,
    {
        StateCell { on: false }
    }

    /// The current value: `true` for on.
    pub fn read(&self) -> (r: bool)
        ensures
            r == self@,
    {
        self.on
    }

    /// Replaces the value.
    pub fn write(&mut self, on: bool)
        ensures
            final(self)@ == on,
    {
        self.on = on;
    }

    /// The textual form of the current value, as a read reply carries it.
    pub fn text(&self) -> (r: &'static str)
        ensures
            r@ == state_text(self@),
    {
        proof {
            reveal_strlit("on");
            reveal_strlit("off");
        }
        if self.on {
            "on"
        } else {
            "off"
        }
    }
}

} // verus!
