//! The set of devices seen on the input stream and the active selection.
//!
//! A device is an opaque identifier with stable equality for the session;
//! whatever display metadata a host keeps for it stays with the host. The
//! registry records each identifier once, in order of first observation, and
//! holds at most one active selection, which always names a member. While no
//! selection exists, observing a device selects the first known member
//! automatically, exactly once per unselected period; an existing selection
//! is never re-derived.

use vstd::prelude::*;

verus! {

/// Spec-level state of the registry.
pub struct RegView {
    pub devices: Seq<u64>,
    pub active: Option<u64>,
}

/// Membership of a device identifier in the known list.
pub open spec fn reg_contains(devs: Seq<u64>, id: u64) -> bool {
    exists|i: int| 0 <= i < devs.len() && devs[i] == id
}

/// One observation: the identifier joins the list unless already known, and
/// an empty selection falls on the first known member.
pub open spec fn observe_spec(r: RegView, id: u64) -> RegView {
    let devs = if reg_contains(r.devices, id) {
        r.devices
    } else {
        r.devices.push(id)
    };
    let active = match r.active {
        Option::Some(a) => Option::Some(a),
        Option::None => Option::Some(devs[0]),
    };
    RegView { devices: devs, active }
}

/// An explicit selection: honoured when the identifier is known, otherwise
/// ignored — never inserted.
pub open spec fn select_spec(r: RegView, id: u64) -> RegView {
    if reg_contains(r.devices, id) {
        RegView { devices: r.devices, active: Option::Some(id) }
    } else {
        r
    }
}

/// Tracks the devices seen so far and the active selection.
pub struct DeviceRegistry {
    devices: Vec<u64>,
    active: Option<u64>,
}

impl View for DeviceRegistry {
    type V = RegView;

    closed spec fn view(&self) -> RegView {
        RegView { devices: self.devices@, active: self.active }
    }
}

impl DeviceRegistry {
    /// Each device is recorded once, and a selection always names a member.
    pub open spec fn wf(self) -> bool {
        &&& forall|i: int, j: int|
            0 <= i < j < self@.devices.len() ==> self@.devices[i] != self@.devices[j]
        &&& match self@.active {
            Option::Some(a) => reg_contains(self@.devices, a),
            Option::None => true,
        }
    }

    /// A fresh registry: no devices, no selection.
    pub fn new() -> (r: DeviceRegistry)
        ensures
            r@ == (RegView { devices: Seq::empty(), active: Option::None }),
            r.wf(),
    {
        DeviceRegistry { devices: Vec::new(), active: Option::None }
    }

    /// Whether the identifier is already known.
    pub fn contains_device(&self, id: u64) -> (r: bool)
        ensures
            r == reg_contains(self@.devices, id),
    {
        let mut i: usize = 0;
        while i < self.devices.len()
            invariant
                i <= self.devices@.len(),
                forall|j: int| 0 <= j < i ==> self.devices@[j] != id,
            decreases self.devices@.len() - i,
        {
            if self.devices[i] == id {
                assert(self.devices@[i as int] == id);
                return true;
            }
            i = i + 1;
        }
        false
    }

    /// Records an observation of the device, idempotently, and fills an
    /// empty selection with the first known member.
    pub fn observe(&mut self, id: u64)
        requires
            old(self).wf(),
        ensures
            final(self)@ == observe_spec(old(self)@, id),
            final(self).wf(),
    {
        if !self.contains_device(id) {
            self.devices.push(id);
            proof {
                assert(forall|j: int|
                    0 <= j < old(self)@.devices.len() ==> old(self)@.devices[j] != id);
                assert(forall|k: int|
                    0 <= k < old(self)@.devices.len() ==> self@.devices[k] == old(
                        self,
                    )@.devices[k]);
            }
        }
        if self.active.is_none() {
            let first = self.devices[0];
            self.active = Some(first);
            proof {
                assert(reg_contains(self@.devices, first)) by {
                    assert(self@.devices[0] == first);
                }
            }
        } else {
            proof {
                match old(self)@.active {
                    Option::Some(a) => {
                        let w = choose|i: int|
                            0 <= i < old(self)@.devices.len() && old(self)@.devices[i] == a;
                        assert(self@.devices[w] == a);
                        assert(reg_contains(self@.devices, a));
                    },
                    Option::None => {},
                }
            }
        }
    }

    /// Honours a user selection of a known device; an unknown identifier is
    /// ignored, never inserted.
    pub fn select(&mut self, id: u64)
        requires
            old(self).wf(),
        ensures
            final(self)@ == select_spec(old(self)@, id),
            final(self).wf(),
    {
        if self.contains_device(id) {
            self.active = Some(id);
        }
    }

    /// Clears the selection; the next observation re-derives it.
    pub fn clear_selection(&mut self)
        requires
            old(self).wf(),
        ensures
            final(self)@ == (RegView { devices: old(self)@.devices, active: Option::None }),
            final(self).wf(),
    {
        self.active = None;
    }

    /// The current selection, if any.
    pub fn active(&self) -> (r: Option<u64>)
        ensures
            r == self@.active,
    {
        self.active
    }

    pub fn device_count(&self) -> (r: usize)
        ensures
            r == self@.devices.len(),
    {
        self.devices.len()
    }

    pub fn device_at(&self, i: usize) -> (r: u64)
        requires
            i < self@.devices.len(),
        ensures
            r == self@.devices[i as int],
    {
        self.devices[i]
    }
}

} // verus!
