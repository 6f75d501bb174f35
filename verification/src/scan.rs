//! Recognising the device among those found by a Bluetooth scan.

use vstd::prelude::*;

verus! {

/// The local name under which the device advertises itself.
pub open spec fn target_name_spec() -> Seq<char> {
    "LD-1"@
}

/// Tells whether a peripheral's advertised local name is that of the device.
/// The scan takes the first peripheral, in the order the adapter lists them,
/// for which this holds.
pub fn is_target_name(local_name: &str) -> (b: bool)
    ensures
        b == (local_name@ == target_name_spec()),
{
    local_name.to_owned() == "LD-1".to_owned()
}

} // verus!
