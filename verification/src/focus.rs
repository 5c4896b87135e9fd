//! The focus ring: which of the text inputs, or the list behind them, takes
//! the keys.

use vstd::arithmetic::div_mod::{
    lemma_add_mod_noop_right, lemma_mod_add_multiples_vanish, lemma_mod_self_0, lemma_small_mod,
};
use vstd::prelude::*;

verus! {

/// What has the keyboard focus: the text input with the given index, or the
/// list.
#[derive(Clone, Copy, Debug, PartialEq, Eq, Structural)]
pub enum FocusTarget {
    Input(usize),
    List,
}

/// What a vertical arrow key comes to.
#[derive(Clone, Copy, Debug, PartialEq, Eq, Structural)]
pub enum Vertical {
    /// The focus went to another position.
    Focus,
    /// The focus stays on the list, which is to move its cursor.
    Cursor,
    /// Nothing: the focus stays on an input.
    Ignored,
}

/// The focus ring as a pair of numbers: what a `FocusController` stands for
/// in contracts. The inputs have the positions `0` to `inputs - 1`, the list
/// has the position `inputs`.
pub struct FocusView {
    pub inputs: int,
    pub current: int,
}

impl FocusView {
    /// The focus is on one of the inputs or on the list.
    pub open spec fn wf(self) -> bool {
        0 <= self.current <= self.inputs
    }

    /// Whether the list has the focus.
    pub open spec fn on_list(self) -> bool {
        self.current == self.inputs
    }

    /// The ring with the focus at `position`.
    pub open spec fn at(self, position: int) -> FocusView {
        FocusView { current: position, ..self }
    }

    /// The ring with the focus one position further, the first input
    /// following the list.
    pub open spec fn advanced(self) -> FocusView {
        self.at((self.current + 1) % (self.inputs + 1))
    }

    /// The ring with the focus one position back, the list preceding the
    /// first input.
    pub open spec fn retreated(self) -> FocusView {
        self.at((self.current - 1 + self.inputs + 1) % (self.inputs + 1))
    }

    /// The ring after `n` steps forward.
    pub open spec fn advanced_by(self, n: nat) -> FocusView
        decreases n,
    {
        if n == 0 {
            self
        } else {
            self.advanced_by((n - 1) as nat).advanced()
        }
    }

    /// Whether the "down" key moves the focus: it does so from the first
    /// input, to the list, provided that the list holds an item.
    pub open spec fn leaves_on_down(self, list_nonempty: bool) -> bool {
        self.current == 0 && self.inputs > 0 && list_nonempty
    }

    /// Whether the "up" key moves the focus: it does so while the first item
    /// of the list is selected, to the input that precedes the list.
    pub open spec fn leaves_on_up(self, list_nonempty: bool, first_selected: bool) -> bool {
        list_nonempty && first_selected && self.inputs > 0
    }

    /// What the "down" key comes to.
    pub open spec fn on_down(self, list_nonempty: bool) -> Vertical {
        if self.leaves_on_down(list_nonempty) {
            Vertical::Focus
        } else if self.on_list() {
            Vertical::Cursor
        } else {
            Vertical::Ignored
        }
    }

    /// What the "up" key comes to.
    pub open spec fn on_up(self, list_nonempty: bool, first_selected: bool) -> Vertical {
        if self.leaves_on_up(list_nonempty, first_selected) {
            Vertical::Focus
        } else if self.on_list() {
            Vertical::Cursor
        } else {
            Vertical::Ignored
        }
    }

    /// The ring after the "down" key.
    pub open spec fn after_down(self, list_nonempty: bool) -> FocusView {
        if self.leaves_on_down(list_nonempty) {
            self.at(self.inputs)
        } else {
            self
        }
    }

    /// The ring after the "up" key.
    pub open spec fn after_up(self, list_nonempty: bool, first_selected: bool) -> FocusView {
        if self.leaves_on_up(list_nonempty, first_selected) {
            self.at(self.inputs - 1)
        } else {
            self
        }
    }
}

/// One step round a ring of `n + 1` positions, written without a remainder:
/// forward from the last position to the first, back from the first to the
/// last.
pub proof fn lemma_ring_step(c: int, n: int)
    requires
        0 <= c <= n,
    ensures
        (c + 1) % (n + 1) == if c == n {
            0
        } else {
            c + 1
        },
        (c - 1 + n + 1) % (n + 1) == if c == 0 {
            n
        } else {
            c - 1
        },
{
    let m = n + 1;
    if c == n {
        lemma_mod_self_0(m);
    } else {
        lemma_small_mod((c + 1) as nat, m as nat);
    }
    if c == 0 {
        lemma_small_mod(n as nat, m as nat);
    } else {
        lemma_mod_add_multiples_vanish(c - 1, m);
        lemma_small_mod((c - 1) as nat, m as nat);
    }
}

/// The focus ring over a number of text inputs and the list.
#[derive(Clone, Copy, Debug)]
pub struct FocusController {
    inputs: usize,
    current: usize,
}

impl View for FocusController {
    type V = FocusView;

    closed spec fn view(&self) -> FocusView {
        FocusView { inputs: self.inputs as int, current: self.current as int }
    }
}

impl FocusController {
    /// The validity of a ring: its focus is on one of its positions.
    pub open spec fn wf(&self) -> bool {
        self@.wf()
    }

    /// The ring over `inputs` text inputs and the list, the focus at
    /// `start`; none where there is no such position.
    pub fn new(inputs: usize, start: usize) -> (ring: Option<FocusController>)
        ensures
            ring.is_some() == (start <= inputs),
            match ring {
                Some(ring) => ring.wf() && ring@ == (FocusView {
                    inputs: inputs as int,
                    current: start as int,
                }),
                None => true,
            },
    {
        if start <= inputs {
            Some(FocusController { inputs, current: start })
        } else {
            None
        }
    }

    /// The number of text inputs.
    pub fn inputs(&self) -> (inputs: usize)
        ensures
            inputs == self@.inputs,
    {
        self.inputs
    }

    /// The position of the focus.
    pub fn current(&self) -> (current: usize)
        ensures
            current == self@.current,
    {
        self.current
    }

    /// What has the focus.
    pub fn target(&self) -> (target: FocusTarget)
        ensures
            target == if self@.on_list() {
                FocusTarget::List
            } else {
                FocusTarget::Input(self@.current as usize)
            },
    {
        if self.current == self.inputs {
            FocusTarget::List
        } else {
            FocusTarget::Input(self.current)
        }
    }

    /// Whether the list has the focus.
    pub fn on_list(&self) -> (on_list: bool)
        ensures
            on_list == self@.on_list(),
    {
        self.current == self.inputs
    }

    /// Puts the focus at `position`, if the ring has that position, and
    /// returns whether it has.
    pub fn focus_on(&mut self, position: usize) -> (known: bool)
        requires
            old(self).wf(),
        ensures
            final(self).wf(),
            known == (position <= old(self)@.inputs),
            final(self)@ == if known {
                old(self)@.at(position as int)
            } else {
                old(self)@
            },
    {
        if position <= self.inputs {
            self.current = position;
            true
        } else {
            false
        }
    }

    /// Moves the focus one position further round the ring.
    pub fn advance(&mut self)
        requires
            old(self).wf(),
        ensures
            final(self).wf(),
            final(self)@ == old(self)@.advanced(),
    {
        proof {
            lemma_ring_step(self@.current, self@.inputs);
        }
        if self.current == self.inputs {
            self.current = 0;
        } else {
            self.current = self.current + 1;
        }
    }

    /// Moves the focus one position back round the ring.
    pub fn retreat(&mut self)
        requires
            old(self).wf(),
        ensures
            final(self).wf(),
            final(self)@ == old(self)@.retreated(),
    {
        proof {
            lemma_ring_step(self@.current, self@.inputs);
        }
        if self.current == 0 {
            self.current = self.inputs;
        } else {
            self.current = self.current - 1;
        }
    }

    /// Handles the "down" key. From the first input the focus goes to the
    /// list, if that holds an item. Else the key is left to the list, to
    /// move its cursor, where the list has the focus, and ignored where an
    /// input has it.
    pub fn down(&mut self, list_nonempty: bool) -> (outcome: Vertical)
        requires
            old(self).wf(),
        ensures
            final(self).wf(),
            final(self)@ == old(self)@.after_down(list_nonempty),
            outcome == old(self)@.on_down(list_nonempty),
    {
        if self.current == 0 && self.inputs > 0 && list_nonempty {
            self.current = self.inputs;
            Vertical::Focus
        } else if self.current == self.inputs {
            Vertical::Cursor
        } else {
            Vertical::Ignored
        }
    }

    /// Handles the "up" key. While the first item of the list is selected,
    /// the focus goes to the input that precedes the list. Else the key is
    /// left to the list, to move its cursor, where the list has the focus,
    /// and ignored where an input has it.
    pub fn up(&mut self, list_nonempty: bool, first_selected: bool) -> (outcome: Vertical)
        requires
            old(self).wf(),
        ensures
            final(self).wf(),
            final(self)@ == old(self)@.after_up(list_nonempty, first_selected),
            outcome == old(self)@.on_up(list_nonempty, first_selected),
    {
        if list_nonempty && first_selected && self.inputs > 0 {
            self.current = self.inputs - 1;
            Vertical::Focus
        } else if self.current == self.inputs {
            Vertical::Cursor
        } else {
            Vertical::Ignored
        }
    }
}

/// A step forward and a step back cancel each other, in either order.
pub proof fn lemma_advance_and_retreat_cancel(ring: FocusView)
    requires
        ring.wf(),
    ensures
        ring.advanced().wf(),
        ring.retreated().wf(),
        ring.advanced().retreated() == ring,
        ring.retreated().advanced() == ring,
{
    lemma_ring_step(ring.current, ring.inputs);
    lemma_ring_step(ring.advanced().current, ring.inputs);
    lemma_ring_step(ring.retreated().current, ring.inputs);
}

/// After `n` steps forward the focus is `n` positions further, counted
/// round the ring.
pub proof fn lemma_advanced_by(ring: FocusView, n: nat)
    requires
        ring.wf(),
    ensures
        ring.advanced_by(n) == ring.at((ring.current + n) % (ring.inputs + 1)),
    decreases n,
{
    let m = ring.inputs + 1;
    if n > 0 {
        lemma_advanced_by(ring, (n - 1) as nat);
        lemma_add_mod_noop_right(1, ring.current + n - 1, m);
    } else {
        lemma_small_mod(ring.current as nat, m as nat);
    }
}

/// The ring has as many positions as it has inputs, and one for the list:
/// after that many steps forward the focus is back where it was.
pub proof fn lemma_advance_comes_round(ring: FocusView)
    requires
        ring.wf(),
    ensures
        ring.advanced_by((ring.inputs + 1) as nat) == ring,
{
    lemma_advanced_by(ring, (ring.inputs + 1) as nat);
    lemma_mod_add_multiples_vanish(ring.current, ring.inputs + 1);
    lemma_small_mod(ring.current as nat, (ring.inputs + 1) as nat);
}

} // verus!
