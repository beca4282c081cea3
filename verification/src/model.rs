//! The plain data the driver works on: noise-cancellation state, battery
//! readings, outgoing commands and decoded inbound packets.

use vstd::prelude::*;

verus! {

/// Noise-cancellation mode reported by, and requested of, the accessory.
/// A closed set: the wire protocol defines exactly these four.
#[derive(Clone, Copy, Debug, PartialEq, Eq, Structural)]
pub enum AncMode {
    Off,
    AmbiantMode,
    On,
    Wind,
}

/// Full noise-cancellation state: the mode plus its tuning parameters.
#[derive(Clone, Copy, Debug, PartialEq, Eq, Structural)]
pub struct AncState {
    pub anc_mode: AncMode,
    pub focus_on_voice: bool,
    pub ambiant_level: u8,
}

/// Battery level of a one-cell unit: a single headphone, or the charging case.
#[derive(Clone, Copy, Debug, PartialEq, Eq, Structural)]
pub struct SingleDeviceBattery {
    pub level: u8,
}

/// Battery levels of a left/right earbud pair.
#[derive(Clone, Copy, Debug, PartialEq, Eq, Structural)]
pub struct DualDeviceBattery {
    pub left: u8,
    pub right: u8,
}

/// Latest known battery state of the device itself, whose shape depends on
/// whether the accessory is a single unit or an earbud pair.
#[derive(Clone, Copy, Debug, PartialEq, Eq, Structural)]
pub enum DeviceBattery {
    Single(SingleDeviceBattery),
    Dual(DualDeviceBattery),
}

/// Which battery a `Command::BatteryRequest` asks about.
#[derive(Clone, Copy, Debug, PartialEq, Eq, Structural)]
pub enum BatteryKind {
    Single,
    Dual,
    Case,
}

/// A battery measurement carried by a reply or a notification. The charging
/// flags are accepted from the wire but not retained in the cache.
#[derive(Clone, Copy, Debug, PartialEq, Eq, Structural)]
pub enum BatteryReading {
    Single { level: u8, charging: bool },
    Case { level: u8, charging: bool },
    Dual { level_left: u8, level_right: u8, charging_left: bool, charging_right: bool },
}

/// An outgoing request awaiting transmission through the codec layer.
#[derive(Clone, Copy, Debug, PartialEq, Eq, Structural)]
pub enum Command {
    InitRequest,
    AncGet,
    AncSet(AncState),
    BatteryRequest(BatteryKind),
}

/// A decoded inbound packet. `Unknown` stands for every variant this driver
/// does not recognize; such packets must be absorbed silently so that newer
/// accessory firmware never breaks the session.
#[derive(Clone, Copy, Debug, PartialEq, Eq, Structural)]
pub enum Packet {
    InitReply,
    AncReply(AncState),
    AncNotify(AncState),
    BatteryReply(BatteryReading),
    BatteryNotify(BatteryReading),
    Unknown,
}

/// The target a mode-change request asks for when the last observed state is
/// `cur`: one step along the cycle Off -> AmbiantMode -> On -> Wind -> Off,
/// entered at On when no state has been observed yet. Ambient mode carries a
/// fixed mid listening level; every other mode clears it, and none of them
/// asks for voice focus.
pub open spec fn next_anc_target(cur: Option<AncState>) -> AncState {
    match cur {
        Option::None => AncState { anc_mode: AncMode::On, focus_on_voice: false, ambiant_level: 0 },
        Option::Some(a) => match a.anc_mode {
            AncMode::Off => AncState {
                anc_mode: AncMode::AmbiantMode,
                focus_on_voice: false,
                ambiant_level: 17,
            },
            AncMode::AmbiantMode => AncState {
                anc_mode: AncMode::On,
                focus_on_voice: false,
                ambiant_level: 0,
            },
            AncMode::On => AncState {
                anc_mode: AncMode::Wind,
                focus_on_voice: false,
                ambiant_level: 0,
            },
            AncMode::Wind => AncState {
                anc_mode: AncMode::Off,
                focus_on_voice: false,
                ambiant_level: 0,
            },
        },
    }
}

} // verus!
