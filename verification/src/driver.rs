//! The session driver: one device connection's outgoing queue, its state
//! cache, and the policy that maps every codec-layer event to exactly one
//! caller-facing action.

use vstd::prelude::*;

use crate::action::{Action, ActionData, ActionDataV, ActionType, ActionV, Event, EventV};
use crate::model::{
    next_anc_target, AncMode, AncState, BatteryKind, BatteryReading, Command, DeviceBattery,
    DualDeviceBattery, Packet, SingleDeviceBattery,
};

verus! {

/// Failure reported by the codec layer. The driver interprets no codec
/// failure: every one is terminal for the session.
#[derive(Clone, Copy, Debug, PartialEq, Eq, Structural)]
pub struct CodecError;

/// The two terminal failures of a session. Recovery means dropping the
/// driver and constructing a fresh one.
#[derive(Clone, Copy, Debug, PartialEq, Eq, Structural)]
pub enum Error {
    /// The mandatory initial handshake command could not be handed to the
    /// codec layer, so the session never came up.
    ConstructionFailure,
    /// The codec layer failed while receiving bytes, advancing, or accepting
    /// a queued command.
    SessionFailure,
}

/// The codec/session layer the driver is built over: it encodes typed
/// commands to wire bytes, decodes received bytes to typed packets, and
/// tracks the low-level handshake and timeout state. The driver promises
/// nothing about values that cross this boundary; its contracts hold for
/// every implementation, which is also what makes the driver testable
/// against a scripted fake.
pub trait Codec {
    /// Accept one typed command for encoding and later transmission.
    fn send(&mut self, command: &Command) -> Result<(), CodecError>;

    /// Accept raw bytes received from the transport.
    fn receive(&mut self, bytes: &[u8]) -> Result<(), CodecError>;

    /// Take one decoding step: report a decoded packet, encoded bytes ready
    /// for the transport, or idleness with an optional re-poll delay.
    fn advance(&mut self) -> Result<Event, CodecError>;
}

/// Mathematical image of a driver: the outgoing queue and the state cache.
/// The codec layer's own state is deliberately not part of it.
#[verifier::ext_equal]
pub struct DriverView {
    pub queue: Seq<Command>,
    pub battery_device: Option<DeviceBattery>,
    pub battery_case: Option<SingleDeviceBattery>,
    pub anc_state: Option<AncState>,
}

/// The four requests enqueued when the handshake completes, in the order
/// they will be transmitted.
pub open spec fn handshake_commands() -> Seq<Command> {
    seq![
        Command::AncGet,
        Command::BatteryRequest(BatteryKind::Single),
        Command::BatteryRequest(BatteryKind::Dual),
        Command::BatteryRequest(BatteryKind::Case),
    ]
}

/// Where a battery reading lands in the cache: `Single` and `Dual` shapes
/// overwrite the device slot, `Case` overwrites the case slot. Only the
/// levels are retained; charging flags are dropped.
pub open spec fn store_battery(s: DriverView, b: BatteryReading) -> DriverView {
    match b {
        BatteryReading::Single { level, .. } => DriverView {
            battery_device: Some(DeviceBattery::Single(SingleDeviceBattery { level })),
            ..s
        },
        BatteryReading::Case { level, .. } => DriverView {
            battery_case: Some(SingleDeviceBattery { level }),
            ..s
        },
        BatteryReading::Dual { level_left, level_right, .. } => DriverView {
            battery_device: Some(DeviceBattery::Dual(DualDeviceBattery {
                left: level_left,
                right: level_right,
            })),
            ..s
        },
    }
}

/// How one dispatched packet transforms the driver: the handshake reply fans
/// out the four startup requests, a reply and a notification both overwrite
/// the matching cache slot wholesale, and an unrecognized packet changes
/// nothing at all.
pub open spec fn dispatch_spec(s: DriverView, p: Packet) -> DriverView {
    match p {
        Packet::InitReply => DriverView { queue: s.queue + handshake_commands(), ..s },
        Packet::AncReply(a) => DriverView { anc_state: Some(a), ..s },
        Packet::AncNotify(a) => DriverView { anc_state: Some(a), ..s },
        Packet::BatteryReply(b) => store_battery(s, b),
        Packet::BatteryNotify(b) => store_battery(s, b),
        Packet::Unknown => s,
    }
}

/// The state left behind and the action returned when event `e` reaches the
/// driver in state `s`: a decoded packet is dispatched and the display
/// refreshed, ready bytes are handed on for transmission, and idleness either
/// forwards the queue head (the caller must poll again at once) or, with
/// nothing queued, tells the caller to wait.
pub open spec fn event_step(s: DriverView, e: EventV) -> (DriverView, ActionV) {
    match e {
        EventV::PacketReady(p) => (
            dispatch_spec(s, p),
            ActionV { action_type: ActionType::RefreshUi, data: ActionDataV::Null },
        ),
        EventV::BytesToSend(b) => (
            s,
            ActionV { action_type: ActionType::Send, data: ActionDataV::Bytes(b) },
        ),
        EventV::Idle(d) => if s.queue.len() > 0 {
            (
                DriverView { queue: s.queue.drop_first(), ..s },
                ActionV { action_type: ActionType::PollAgain, data: ActionDataV::Null },
            )
        } else {
            (
                s,
                ActionV {
                    action_type: ActionType::Wait,
                    data: match d {
                        Some(m) => ActionDataV::Millis(m),
                        None => ActionDataV::Null,
                    },
                },
            )
        },
    }
}

/// How one mode-change request transforms the driver: enqueue `AncSet` of
/// the next cycle target and record that target as the state the accessory
/// is about to confirm, so that consecutive requests keep walking the cycle.
pub open spec fn change_step(s: DriverView) -> DriverView {
    DriverView {
        queue: s.queue.push(Command::AncSet(next_anc_target(s.anc_state))),
        anc_state: Some(next_anc_target(s.anc_state)),
        ..s
    }
}

/// The driver for one device connection. It owns all mutable session state:
/// the codec layer it was constructed over, the FIFO queue of outgoing
/// commands, and the cached device state exposed to the display.
pub struct SonyHeadphone<C: Codec> {
    device_session: C,
    packet_queue: Vec<Command>,
    /// Last observed battery state of the device itself, if any.
    pub battery_device: Option<DeviceBattery>,
    /// Last observed battery state of the charging case, if any.
    pub battery_case: Option<SingleDeviceBattery>,
    /// Last observed (or last requested) noise-cancellation state, if any.
    pub anc_state: Option<AncState>,
}

impl<C: Codec> View for SonyHeadphone<C> {
    type V = DriverView;

    closed spec fn view(&self) -> DriverView {
        DriverView {
            queue: self.packet_queue@,
            battery_device: self.battery_device,
            battery_case: self.battery_case,
            anc_state: self.anc_state,
        }
    }
}

impl<C: Codec> SonyHeadphone<C> {
    /// Open a session over `codec`: start with an empty queue and an empty
    /// cache, and immediately hand the mandatory `InitRequest` to the codec
    /// layer. A codec refusal is fatal: no driver is constructed.
    pub fn new(codec: C) -> (r: Result<SonyHeadphone<C>, Error>)
        ensures
            r matches Ok(h) ==> h@.queue.len() == 0 && h@.battery_device is None
                && h@.battery_case is None && h@.anc_state is None,
            r matches Err(e) ==> e is ConstructionFailure,
    {
        let mut session = codec;
        match session.send(&Command::InitRequest) {
            Ok(_) => Ok(SonyHeadphone {
                device_session: session,
                packet_queue: Vec::new(),
                battery_device: None,
                battery_case: None,
                anc_state: None,
            }),
            Err(_) => Err(Error::ConstructionFailure),
        }
    }

    /// Overwrite the cache slot that matches the shape of `b`.
    fn cache_battery(&mut self, b: BatteryReading)
        ensures
            final(self)@ == store_battery(old(self)@, b),
    {
        match b {
            BatteryReading::Single { level, charging: _ } => {
                self.battery_device = Some(DeviceBattery::Single(SingleDeviceBattery { level }));
            }
            BatteryReading::Case { level, charging: _ } => {
                self.battery_case = Some(SingleDeviceBattery { level });
            }
            BatteryReading::Dual {
                level_left,
                level_right,
                charging_left: _,
                charging_right: _,
            } => {
                self.battery_device = Some(DeviceBattery::Dual(DualDeviceBattery {
                    left: level_left,
                    right: level_right,
                }));
            }
        }
    }

    /// Apply one decoded packet to the queue and the cache, exactly as
    /// [`dispatch_spec`] describes. Dispatch cannot fail: an unrecognized
    /// packet is absorbed, never an error.
    pub fn packet_received(&mut self, packet: Packet)
        ensures
            final(self)@ == dispatch_spec(old(self)@, packet),
    {
        match packet {
            Packet::InitReply => {
                self.packet_queue.push(Command::AncGet);
                self.packet_queue.push(Command::BatteryRequest(BatteryKind::Single));
                self.packet_queue.push(Command::BatteryRequest(BatteryKind::Dual));
                self.packet_queue.push(Command::BatteryRequest(BatteryKind::Case));
                proof {
                    assert(self.packet_queue@ =~= old(self).packet_queue@ + handshake_commands());
                }
            }
            Packet::AncReply(a) => {
                self.anc_state = Some(a);
            }
            Packet::AncNotify(a) => {
                self.anc_state = Some(a);
            }
            Packet::BatteryReply(b) => {
                self.cache_battery(b);
            }
            Packet::BatteryNotify(b) => {
                self.cache_battery(b);
            }
            Packet::Unknown => {}
        }
    }

    /// Answer one codec-layer event with exactly one action, mutating the
    /// queue and cache as [`event_step`] describes. Only the idle branch can
    /// fail — the codec may refuse the queue head — and on failure the queue
    /// and cache are left untouched.
    pub fn handle_event(&mut self, event: Event) -> (r: Result<Action, Error>)
        ensures
            r matches Ok(a) ==> final(self)@ == event_step(old(self)@, event@).0
                && a@ == event_step(old(self)@, event@).1,
            r matches Err(er) ==> er is SessionFailure && final(self)@ == old(self)@,
            r is Err ==> event@ is Idle && old(self)@.queue.len() > 0,
    {
        match event {
            Event::PacketReady(p) => {
                self.packet_received(p);
                Ok(Action { action_type: ActionType::RefreshUi, data: ActionData::Null })
            }
            Event::BytesToSend(bytes) => {
                Ok(Action { action_type: ActionType::Send, data: ActionData::Bytes(bytes) })
            }
            Event::Idle(deadline) => {
                if self.packet_queue.len() > 0 {
                    let command = self.packet_queue[0];
                    match self.device_session.send(&command) {
                        Ok(_) => {
                            self.packet_queue.remove(0);
                            proof {
                                assert(self.packet_queue@
                                    =~= old(self).packet_queue@.drop_first());
                            }
                            Ok(Action {
                                action_type: ActionType::PollAgain,
                                data: ActionData::Null,
                            })
                        }
                        Err(_) => Err(Error::SessionFailure),
                    }
                } else {
                    Ok(Action {
                        action_type: ActionType::Wait,
                        data: match deadline {
                            Some(m) => ActionData::Millis(m),
                            None => ActionData::Null,
                        },
                    })
                }
            }
        }
    }

    /// Forward raw received bytes verbatim to the codec layer. The queue and
    /// cache are never touched here; effects become visible only through a
    /// later [`Self::poll`]. A codec decode failure is fatal to the session.
    pub fn parse_packet(&mut self, buffer: &[u8]) -> (r: Result<(), Error>)
        ensures
            final(self)@ == old(self)@,
            r matches Err(e) ==> e is SessionFailure,
    {
        match self.device_session.receive(buffer) {
            Ok(_) => Ok(()),
            Err(_) => Err(Error::SessionFailure),
        }
    }

    /// Take one driver step: ask the codec layer to advance exactly once and
    /// answer the event it reports with exactly one action. Whatever event
    /// the codec produced, the step taken is one of [`event_step`]; on any
    /// failure the queue and cache are left untouched.
    pub fn poll(&mut self) -> (r: Result<Action, Error>)
        ensures
            r matches Ok(a) ==> exists|e: EventV|
                #![trigger event_step(old(self)@, e)]
                final(self)@ == event_step(old(self)@, e).0 && a@ == event_step(old(self)@, e).1,
            r matches Err(er) ==> er is SessionFailure && final(self)@ == old(self)@,
    {
        match self.device_session.advance() {
            Ok(event) => {
                let ghost e = event@;
                let res = self.handle_event(event);
                match res {
                    Ok(a) => {
                        proof {
                            assert(self@ == event_step(old(self)@, e).0
                                && a@ == event_step(old(self)@, e).1);
                        }
                        Ok(a)
                    }
                    Err(er) => Err(er),
                }
            }
            Err(_) => Err(Error::SessionFailure),
        }
    }

    /// Ask for the next noise-cancellation mode along the fixed cycle and
    /// enqueue exactly one `AncSet` request for it; nothing is sent directly,
    /// so ordering relative to other pending requests is preserved. The
    /// requested target is recorded as the expected state, so consecutive
    /// requests keep walking the cycle even before the accessory confirms.
    pub fn change_anc_mode(&mut self)
        ensures
            final(self)@ == change_step(old(self)@),
    {
        let target = match self.anc_state {
            None => AncState { anc_mode: AncMode::On, focus_on_voice: false, ambiant_level: 0 },
            Some(a) => match a.anc_mode {
                AncMode::Off => AncState {
                    anc_mode: AncMode::AmbiantMode,
                    focus_on_voice: false,
                    ambiant_level: 17,
                },
                AncMode::AmbiantMode => AncState {
                    anc_mode: AncMode::On,
                    focus_on_voice: false,
                    ambiant_level: 0,
                },
                AncMode::On => AncState {
                    anc_mode: AncMode::Wind,
                    focus_on_voice: false,
                    ambiant_level: 0,
                },
                AncMode::Wind => AncState {
                    anc_mode: AncMode::Off,
                    focus_on_voice: false,
                    ambiant_level: 0,
                },
            },
        };
        self.packet_queue.push(Command::AncSet(target));
        self.anc_state = Some(target);
    }

    /// How many commands still wait in the outgoing queue.
    pub fn queue_len(&self) -> (n: usize)
        ensures
            n == self@.queue.len(),
    {
        self.packet_queue.len()
    }

    /// The command at position `i` of the outgoing queue — position 0 is the
    /// next to be transmitted — or `None` past its end.
    pub fn queued_command(&self, i: usize) -> (r: Option<Command>)
        ensures
            i < self@.queue.len() ==> r == Some(self@.queue[i as int]),
            i >= self@.queue.len() ==> r is None,
    {
        if i < self.packet_queue.len() {
            Some(self.packet_queue[i])
        } else {
            None
        }
    }
}

} // verus!
