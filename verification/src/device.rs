//! Choosing which of several input devices is the mouse to filter.

use vstd::prelude::*;

verus! {

/// What is known of one candidate device: whether it reports relative-axis
/// events at all, which of the axes of interest it has, and its product
/// identifier.
#[derive(Clone, Copy, Debug, PartialEq, Eq, Structural)]
pub struct DeviceTraits {
    pub relative: bool,
    pub axis_x: bool,
    pub axis_y: bool,
    pub wheel: bool,
    pub horizontal_wheel: bool,
    pub product: u16,
}

impl DeviceTraits {
    /// A device counts as a mouse when it reports relative motion on both
    /// pointer axes and has both wheels.
    pub open spec fn spec_is_mouse(self) -> bool {
        self.relative && self.axis_x && self.axis_y && self.wheel && self.horizontal_wheel
    }

    /// Whether this device counts as a mouse.
    #[verifier::when_used_as_spec(spec_is_mouse)]
    pub fn is_mouse(self) -> (yes: bool)
        ensures
            yes == self.spec_is_mouse(),
    {
        self.relative && self.axis_x && self.axis_y && self.wheel && self.horizontal_wheel
    }
}

/// Whether position `i` is the one to choose among `devices`: a mouse whose
/// product identifier no other mouse undercuts, and the earliest such.
pub open spec fn is_best_mouse(devices: Seq<DeviceTraits>, i: int) -> bool {
    &&& 0 <= i < devices.len()
    &&& devices[i].spec_is_mouse()
    &&& forall|j: int|
        0 <= j < devices.len() && (#[trigger] devices[j]).spec_is_mouse() ==> devices[i].product
            <= devices[j].product
    &&& forall|j: int|
        0 <= j < i && (#[trigger] devices[j]).spec_is_mouse() ==> devices[i].product
            < devices[j].product
}

/// Picks the mouse among the candidates, given in the order in which they
/// were found: the one with the lowest product identifier, the first of
/// them where several share it. `None` exactly when no candidate is a
/// mouse.
pub fn find_mouse_device(devices: &Vec<DeviceTraits>) -> (choice: Option<usize>)
    ensures
        match choice {
            Some(i) => is_best_mouse(devices@, i as int),
            None => forall|j: int|
                0 <= j < devices@.len() ==> !(#[trigger] devices@[j]).spec_is_mouse(),
        },
{
    let mut best: Option<usize> = None;
    let mut k: usize = 0;
    while k < devices.len()
        invariant
            k <= devices@.len(),
            match best {
                Some(i) => i < k && is_best_mouse(devices@.take(k as int), i as int),
                None => forall|j: int| 0 <= j < k ==> !(#[trigger] devices@[j]).spec_is_mouse(),
            },
        decreases devices@.len() - k,
    {
        let device: DeviceTraits = devices[k];
        let ghost seen = devices@.take(k as int);
        let ghost next = devices@.take(k + 1);
        proof {
            assert(forall|j: int| 0 <= j < k ==> seen[j] == next[j]);
            assert(next[k as int] == device);
        }
        if device.is_mouse() {
            match best {
                None => {
                    best = Some(k);
                },
                Some(i) => {
                    if device.product < devices[i].product {
                        best = Some(k);
                    }
                },
            }
        }
        proof {
            match best {
                Some(i) => {
                    assert forall|j: int|
                        0 <= j < next.len() && (#[trigger] next[j]).spec_is_mouse() implies next[i as int].product
                        <= next[j].product by {
                        if j < k {
                            assert(seen[j] == next[j]);
                        }
                    }
                    assert forall|j: int|
                        0 <= j < i && (#[trigger] next[j]).spec_is_mouse() implies next[i as int].product
                        < next[j].product by {
                        assert(seen[j] == next[j]);
                    }
                },
                None => {},
            }
        }
        k += 1;
    }
    proof {
        assert(devices@.take(k as int) =~= devices@);
    }
    best
}

} // verus!
