//! Start-with-Windows switch.

use vstd::prelude::*;

verus! {

/// A change to the start-with-Windows registry entry.
#[derive(PartialEq, Eq, Structural, Clone, Copy, Debug)]
pub enum AutostartChange {
    Enable,
    Disable,
}

/// What toggling does, given whether start-with-Windows is on: the change to make and
/// whether it is on afterwards.
pub open spec fn toggle_spec(enabled: bool) -> (AutostartChange, bool) {
    if enabled {
        (AutostartChange::Disable, false)
    } else {
        (AutostartChange::Enable, true)
    }
}

/// Toggles start-with-Windows: turns it off when on and on when off.
pub fn toggle(enabled: bool) -> (r: (AutostartChange, bool))
    ensures
        r == toggle_spec(enabled),
{
    if enabled {
        (AutostartChange::Disable, false)
    } else {
        (AutostartChange::Enable, true)
    }
}

/// Toggling reports the opposite of the state it started from, and toggling twice
/// returns to it.
pub proof fn toggle_twice_restores(enabled: bool)
    ensures
        toggle_spec(enabled).1 == !enabled,
        toggle_spec(toggle_spec(enabled).1).1 == enabled,
{
}

} // verus!
