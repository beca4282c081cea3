//! Session driver for a wireless audio accessory.
//!
//! The driver owns one device connection: a FIFO queue of outgoing commands,
//! a cache of the last observed device state (battery levels, active
//! noise-cancellation mode), and the policy that maps every event reported by
//! the codec layer to exactly one caller-facing action. The codec layer —
//! the component that frames, checksums and parses the binary wire format —
//! is reached only through the [`driver::Codec`] trait, so the driver itself
//! is fully deterministic and never blocks.

pub mod action;
pub mod driver;
pub mod laws;
pub mod model;

pub use action::{Action, ActionData, ActionType, Event};
pub use driver::{Codec, CodecError, Error, SonyHeadphone};
pub use model::{
    AncMode, AncState, BatteryKind, BatteryReading, Command, DeviceBattery, DualDeviceBattery,
    Packet, SingleDeviceBattery,
};
