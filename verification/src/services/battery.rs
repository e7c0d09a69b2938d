//! The battery widget: UPower's battery states and device kinds.
use vstd::prelude::*;

verus! {

/// UPower's battery state.
#[derive(Debug, Clone, Copy, PartialEq, Eq, Structural)]
pub enum BatteryState {
    Unknown,
    Charging,
    Discharging,
    Empty,
    FullyCharged,
    PendingCharge,
    PendingDischarge,
}

/// The battery state for a UPower `State` code.
pub open spec fn battery_state_of(v: u32) -> BatteryState {
    if v == 1 {
        BatteryState::Charging
    } else if v == 2 {
        BatteryState::Discharging
    } else if v == 3 {
        BatteryState::Empty
    } else if v == 4 {
        BatteryState::FullyCharged
    } else if v == 5 {
        BatteryState::PendingCharge
    } else if v == 6 {
        BatteryState::PendingDischarge
    } else {
        BatteryState::Unknown
    }
}

impl BatteryState {
    /// The battery state for a UPower `State` code; unknown codes are `Unknown`.
    pub fn from_u32(v: u32) -> (r: Self)
        ensures
            r == battery_state_of(v),
    {
        match v {
            1 => BatteryState::Charging,
            2 => BatteryState::Discharging,
            3 => BatteryState::Empty,
            4 => BatteryState::FullyCharged,
            5 => BatteryState::PendingCharge,
            6 => BatteryState::PendingDischarge,
            _ => BatteryState::Unknown,
        }
    }
}

/// Whether a UPower device `Type` is a battery (2).
pub fn is_battery(device_type: u32) -> (r: bool)
    ensures
        r == (device_type == 2),
{
    device_type == 2
}

/// The first device, among their `Type`s in enumeration order, that is a battery.
pub fn first_battery(device_types: &Vec<u32>) -> (r: Option<usize>)
    ensures
        match r {
            Some(i) => i < device_types.len() && device_types@[i as int] == 2 && forall|j: int|
                0 <= j < i ==> device_types@[j] != 2,
            None => forall|j: int| 0 <= j < device_types.len() ==> device_types@[j] != 2,
        },
{
    let mut i: usize = 0;
    while i < device_types.len()
        invariant
            i <= device_types.len(),
            forall|j: int| 0 <= j < i ==> device_types@[j] != 2,
        decreases device_types.len() - i,
    {
        if is_battery(device_types[i]) {
            return Some(i);
        }
        i += 1;
    }
    None
}

} // verus!
