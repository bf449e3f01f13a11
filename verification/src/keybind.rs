//! Edge-triggered key bindings.
//!
//! Each independent user action owns one [`KeyBindState`]. A click arms the
//! action (`Binding`); the next key press on the stream becomes its binding;
//! a press of the bound key raises a one-shot flag that
//! [`KeyBindState::poll_triggered`] reads and consumes. When several actions
//! are armed at once, a single key press binds exactly the first armed action
//! in the declared order and is consumed there.

use vstd::prelude::*;

verus! {

/// The binding state of one user action.
#[derive(Clone, Copy, PartialEq, Eq, Structural, Debug)]
pub enum KeyBindState {
    /// No key is attached to the action.
    Unbound,
    /// Armed: the next key press observed on the stream becomes the binding.
    Binding,
    /// Bound to a key code; the flag is the one-shot triggered edge.
    Bound(u32, bool),
}

/// What one `poll_triggered` call returns and leaves behind: the edge flag is
/// reported and reset, everything else is untouched.
pub open spec fn poll_spec(s: KeyBindState) -> (bool, KeyBindState) {
    match s {
        KeyBindState::Bound(k, f) => (f, KeyBindState::Bound(k, false)),
        _ => (false, s),
    }
}

/// Cancelling only leaves the armed state; it never discards a binding.
pub open spec fn cancel_spec(s: KeyBindState) -> KeyBindState {
    if s == KeyBindState::Binding {
        KeyBindState::Unbound
    } else {
        s
    }
}

/// One key press applied to the actions from index `i` on, in declared
/// order: the first armed action consumes the press and processing stops;
/// a bound action passed on the way raises its edge flag when the codes
/// match; unbound actions are untouched.
pub open spec fn press_all_from(binds: Seq<KeyBindState>, key: u32, i: int) -> Seq<KeyBindState>
    decreases binds.len() - i,
{
    if i < 0 || i >= binds.len() {
        binds
    } else {
        match binds[i] {
            KeyBindState::Binding => binds.update(i, KeyBindState::Bound(key, false)),
            KeyBindState::Bound(k, f) => press_all_from(
                binds.update(i, KeyBindState::Bound(k, f || k == key)),
                key,
                i + 1,
            ),
            KeyBindState::Unbound => press_all_from(binds, key, i + 1),
        }
    }
}

/// One key press applied to all actions in declared order.
pub open spec fn press_all(binds: Seq<KeyBindState>, key: u32) -> Seq<KeyBindState> {
    press_all_from(binds, key, 0)
}

impl KeyBindState {
    /// Reads and consumes the one-shot edge: true exactly once after the
    /// bound key was pressed, false afterwards until the next press.
    pub fn poll_triggered(&mut self) -> (r: bool)
        ensures
            r == poll_spec(*old(self)).0,
            *final(self) == poll_spec(*old(self)).1,
    {
        match *self {
            KeyBindState::Bound(k, f) => {
                *self = KeyBindState::Bound(k, false);
                f
            },
            _ => false,
        }
    }

    /// Arms the action: a "bind" click on an unbound action or a "rebind"
    /// click on a bound one; arming an armed action changes nothing.
    pub fn begin_binding(&mut self)
        ensures
            *final(self) == KeyBindState::Binding,
    {
        *self = KeyBindState::Binding;
    }

    /// A "cancel" click: disarms an armed action and is ignored otherwise.
    pub fn cancel_binding(&mut self)
        ensures
            *final(self) == cancel_spec(*old(self)),
    {
        if matches!(*self, KeyBindState::Binding) {
            *self = KeyBindState::Unbound;
        }
    }
}

/// Applies one key press to a declared-order list of actions.
pub fn dispatch_key_press(binds: &mut Vec<KeyBindState>, key: u32)
    ensures
        final(binds)@ == press_all(old(binds)@, key),
        final(binds)@.len() == old(binds)@.len(),
{
    let ghost orig = binds@;
    let mut i: usize = 0;
    while i < binds.len()
        invariant
            i <= binds@.len(),
            binds@.len() == orig.len(),
            press_all(orig, key) == press_all_from(binds@, key, i as int),
        decreases binds@.len() - i,
    {
        match binds[i] {
            KeyBindState::Binding => {
                binds[i] = KeyBindState::Bound(key, false);
                // the press is consumed here; the remaining actions are not looked at
                i = binds.len();
            },
            KeyBindState::Bound(k, f) => {
                binds[i] = KeyBindState::Bound(k, f || k == key);
                i = i + 1;
            },
            KeyBindState::Unbound => {
                i = i + 1;
            },
        }
    }
}

/// One-shot edge law: once the bound key has been pressed, the first poll
/// reports the edge; polling again — and any number of times after that,
/// absent a new press — reports nothing and changes nothing.
pub proof fn lemma_one_shot_edge(s: KeyBindState)
    ensures
        (s matches KeyBindState::Bound(k, f) && f) ==> poll_spec(s).0,
        !poll_spec(poll_spec(s).1).0,
        poll_spec(poll_spec(s).1).1 == poll_spec(s).1,
{
}

/// One press, one consumer: when the action at `i` is the first armed one,
/// it alone leaves the armed state — it becomes bound to the pressed key,
/// every other armed action stays armed, and the actions after `i` are
/// untouched.
pub proof fn lemma_first_armed_consumes(binds: Seq<KeyBindState>, key: u32, i: int)
    requires
        0 <= i < binds.len(),
        binds[i] == KeyBindState::Binding,
        forall|j: int| 0 <= j < i ==> binds[j] != KeyBindState::Binding,
    ensures
        press_all(binds, key).len() == binds.len(),
        press_all(binds, key)[i] == KeyBindState::Bound(key, false),
        forall|j: int|
            0 <= j < binds.len() && j != i ==> ((press_all(binds, key)[j]
                == KeyBindState::Binding) <==> (binds[j] == KeyBindState::Binding)),
        forall|j: int| i < j < binds.len() ==> press_all(binds, key)[j] == binds[j],
{
    lemma_press_from_props(binds, key, 0, i);
}

proof fn lemma_press_from_props(binds: Seq<KeyBindState>, key: u32, t: int, i: int)
    requires
        0 <= t <= i < binds.len(),
        binds[i] == KeyBindState::Binding,
        forall|j: int| t <= j < i ==> binds[j] != KeyBindState::Binding,
    ensures
        press_all_from(binds, key, t).len() == binds.len(),
        press_all_from(binds, key, t)[i] == KeyBindState::Bound(key, false),
        forall|j: int|
            0 <= j < binds.len() && j != i ==> ((press_all_from(binds, key, t)[j]
                == KeyBindState::Binding) <==> (binds[j] == KeyBindState::Binding)),
        forall|j: int| i < j < binds.len() ==> press_all_from(binds, key, t)[j] == binds[j],
    decreases i - t,
{
    if t == i {
        assert(press_all_from(binds, key, t) == binds.update(i, KeyBindState::Bound(key, false)));
    } else {
        match binds[t] {
            KeyBindState::Binding => {
                assert(false);
            },
            KeyBindState::Bound(k, f) => {
                let b2 = binds.update(t, KeyBindState::Bound(k, f || k == key));
                lemma_press_from_props(b2, key, t + 1, i);
                assert(press_all_from(binds, key, t) == press_all_from(b2, key, t + 1));
                assert(forall|j: int| 0 <= j < binds.len() && j != t ==> b2[j] == binds[j]);
                assert(b2[t] != KeyBindState::Binding);
            },
            KeyBindState::Unbound => {
                lemma_press_from_props(binds, key, t + 1, i);
                assert(press_all_from(binds, key, t) == press_all_from(binds, key, t + 1));
            },
        }
    }
}

} // verus!
