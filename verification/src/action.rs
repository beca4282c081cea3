//! What flows between the driver and its caller: the events the codec layer
//! reports, and the single action the driver hands back on every poll.

use vstd::prelude::*;

use crate::model::Packet;

verus! {

/// One step of codec-layer progress, as reported by [`crate::driver::Codec::advance`]:
/// a packet finished decoding, encoded bytes are ready for the transport, or
/// nothing is pending (with, optionally, how many milliseconds may pass before
/// the codec must be polled again).
#[derive(Debug, PartialEq, Eq)]
pub enum Event {
    PacketReady(Packet),
    BytesToSend(Vec<u8>),
    Idle(Option<u64>),
}

/// Mathematical image of an [`Event`].
#[verifier::ext_equal]
pub enum EventV {
    PacketReady(Packet),
    BytesToSend(Seq<u8>),
    Idle(Option<u64>),
}

impl View for Event {
    type V = EventV;

    open spec fn view(&self) -> EventV {
        match self {
            Event::PacketReady(p) => EventV::PacketReady(*p),
            Event::BytesToSend(b) => EventV::BytesToSend(b@),
            Event::Idle(d) => EventV::Idle(*d),
        }
    }
}

/// Which of the four things the caller must do next.
#[derive(Clone, Copy, Debug, PartialEq, Eq, Structural)]
pub enum ActionType {
    /// Block until new bytes arrive or, if a delay is attached, until that
    /// many milliseconds have passed, whichever comes first.
    Wait,
    /// Transmit the attached bytes on the transport.
    Send,
    /// Call `poll` again immediately: the driver took a step whose output has
    /// not been observed yet.
    PollAgain,
    /// The cached device state changed; redraw whatever displays it.
    RefreshUi,
}

/// The payload that accompanies an [`ActionType`]: bytes for `Send`, an
/// optional delay in milliseconds for `Wait`, nothing for the rest.
#[derive(Debug, PartialEq, Eq)]
pub enum ActionData {
    Null,
    Bytes(Vec<u8>),
    Millis(u64),
}

/// Mathematical image of an [`ActionData`].
#[verifier::ext_equal]
pub enum ActionDataV {
    Null,
    Bytes(Seq<u8>),
    Millis(u64),
}

impl View for ActionData {
    type V = ActionDataV;

    open spec fn view(&self) -> ActionDataV {
        match self {
            ActionData::Null => ActionDataV::Null,
            ActionData::Bytes(b) => ActionDataV::Bytes(b@),
            ActionData::Millis(m) => ActionDataV::Millis(*m),
        }
    }
}

/// The one instruction a successful poll returns to the caller.
#[derive(Debug, PartialEq, Eq)]
pub struct Action {
    pub action_type: ActionType,
    pub data: ActionData,
}

/// Mathematical image of an [`Action`].
#[verifier::ext_equal]
pub struct ActionV {
    pub action_type: ActionType,
    pub data: ActionDataV,
}

impl View for Action {
    type V = ActionV;

    open spec fn view(&self) -> ActionV {
        ActionV { action_type: self.action_type, data: self.data@ }
    }
}

} // verus!
