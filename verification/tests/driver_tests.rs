use std::cell::RefCell;
use std::rc::Rc;

use sony_headphone::action::{Action, ActionData, ActionType, Event};
use sony_headphone::driver::{Codec, CodecError, Error, SonyHeadphone};
use sony_headphone::model::{
    AncMode, AncState, BatteryKind, BatteryReading, Command, DeviceBattery, DualDeviceBattery,
    Packet, SingleDeviceBattery,
};

/// Everything a fake codec records or is told to do, shared with the test
/// through a reference-counted handle so it stays inspectable after the
/// codec has moved into the driver.
#[derive(Default)]
struct FakeState {
    /// Events `advance` hands out, front first; an empty script means idle
    /// with no deadline.
    script: Vec<Event>,
    /// Every command handed to `send`, in order.
    sent: Vec<Command>,
    /// Every byte buffer handed to `receive`, in order.
    received: Vec<Vec<u8>>,
    fail_send: bool,
    fail_receive: bool,
    fail_advance: bool,
}

struct FakeCodec {
    state: Rc<RefCell<FakeState>>,
}

fn fake() -> (FakeCodec, Rc<RefCell<FakeState>>) {
    let state = Rc::new(RefCell::new(FakeState::default()));
    (FakeCodec { state: state.clone() }, state)
}

impl Codec for FakeCodec {
    fn send(&mut self, command: &Command) -> Result<(), CodecError> {
        let mut s = self.state.borrow_mut();
        if s.fail_send {
            return Err(CodecError);
        }
        s.sent.push(*command);
        Ok(())
    }

    fn receive(&mut self, bytes: &[u8]) -> Result<(), CodecError> {
        let mut s = self.state.borrow_mut();
        if s.fail_receive {
            return Err(CodecError);
        }
        s.received.push(bytes.to_vec());
        Ok(())
    }

    fn advance(&mut self) -> Result<Event, CodecError> {
        let mut s = self.state.borrow_mut();
        if s.fail_advance {
            return Err(CodecError);
        }
        if s.script.is_empty() {
            Ok(Event::Idle(None))
        } else {
            Ok(s.script.remove(0))
        }
    }
}

fn anc(mode: AncMode, focus_on_voice: bool, ambiant_level: u8) -> AncState {
    AncState { anc_mode: mode, focus_on_voice, ambiant_level }
}

fn queued(h: &SonyHeadphone<FakeCodec>) -> Vec<Command> {
    let mut all = Vec::new();
    let mut i: usize = 0;
    while let Some(c) = h.queued_command(i) {
        all.push(c);
        i += 1;
    }
    assert_eq!(all.len(), h.queue_len());
    all
}

#[test]
fn new_sends_init_request_and_starts_empty() {
    let (codec, state) = fake();
    let h = SonyHeadphone::new(codec).unwrap();
    assert_eq!(state.borrow().sent, vec![Command::InitRequest]);
    assert_eq!(h.queue_len(), 0);
    assert!(h.battery_device.is_none());
    assert!(h.battery_case.is_none());
    assert!(h.anc_state.is_none());
}

#[test]
fn new_reports_construction_failure() {
    let (codec, state) = fake();
    state.borrow_mut().fail_send = true;
    match SonyHeadphone::new(codec) {
        Err(Error::ConstructionFailure) => {}
        _ => panic!("a refused handshake send must fail construction"),
    }
}

#[test]
fn init_reply_fans_out_handshake_requests() {
    let (codec, _state) = fake();
    let mut h = SonyHeadphone::new(codec).unwrap();
    h.packet_received(Packet::InitReply);
    assert_eq!(
        queued(&h),
        vec![
            Command::AncGet,
            Command::BatteryRequest(BatteryKind::Single),
            Command::BatteryRequest(BatteryKind::Dual),
            Command::BatteryRequest(BatteryKind::Case),
        ]
    );
    assert!(h.battery_device.is_none());
    assert!(h.battery_case.is_none());
    assert!(h.anc_state.is_none());
}

#[test]
fn battery_notify_overwrites_previous_value() {
    let (codec, _state) = fake();
    let mut h = SonyHeadphone::new(codec).unwrap();
    h.packet_received(Packet::BatteryNotify(BatteryReading::Single {
        level: 40,
        charging: false,
    }));
    h.packet_received(Packet::BatteryNotify(BatteryReading::Single {
        level: 41,
        charging: true,
    }));
    assert_eq!(
        h.battery_device,
        Some(DeviceBattery::Single(SingleDeviceBattery { level: 41 }))
    );
    assert!(h.battery_case.is_none());
}

#[test]
fn battery_shapes_land_in_matching_slots() {
    let (codec, _state) = fake();
    let mut h = SonyHeadphone::new(codec).unwrap();
    h.packet_received(Packet::BatteryReply(BatteryReading::Dual {
        level_left: 70,
        level_right: 65,
        charging_left: true,
        charging_right: false,
    }));
    h.packet_received(Packet::BatteryNotify(BatteryReading::Case {
        level: 88,
        charging: true,
    }));
    assert_eq!(
        h.battery_device,
        Some(DeviceBattery::Dual(DualDeviceBattery { left: 70, right: 65 }))
    );
    assert_eq!(h.battery_case, Some(SingleDeviceBattery { level: 88 }));
    assert_eq!(h.queue_len(), 0);
}

#[test]
fn anc_reply_and_notify_both_overwrite_cache() {
    let (codec, _state) = fake();
    let mut h = SonyHeadphone::new(codec).unwrap();
    h.packet_received(Packet::AncReply(anc(AncMode::Off, true, 3)));
    assert_eq!(h.anc_state, Some(anc(AncMode::Off, true, 3)));
    h.packet_received(Packet::AncNotify(anc(AncMode::Wind, false, 0)));
    assert_eq!(h.anc_state, Some(anc(AncMode::Wind, false, 0)));
    assert_eq!(h.queue_len(), 0);
}

#[test]
fn anc_mode_cycle_from_empty_cache() {
    let (codec, _state) = fake();
    let mut h = SonyHeadphone::new(codec).unwrap();
    for _ in 0..5 {
        h.change_anc_mode();
    }
    assert_eq!(
        queued(&h),
        vec![
            Command::AncSet(anc(AncMode::On, false, 0)),
            Command::AncSet(anc(AncMode::Wind, false, 0)),
            Command::AncSet(anc(AncMode::Off, false, 0)),
            Command::AncSet(anc(AncMode::AmbiantMode, false, 17)),
            Command::AncSet(anc(AncMode::On, false, 0)),
        ]
    );
}

#[test]
fn anc_mode_cycle_follows_observed_state() {
    let (codec, _state) = fake();
    let mut h = SonyHeadphone::new(codec).unwrap();
    h.packet_received(Packet::AncNotify(anc(AncMode::Off, false, 0)));
    h.change_anc_mode();
    assert_eq!(
        queued(&h),
        vec![Command::AncSet(anc(AncMode::AmbiantMode, false, 17))]
    );
}

#[test]
fn unknown_packet_is_noop_but_still_refreshes() {
    let (codec, _state) = fake();
    let mut h = SonyHeadphone::new(codec).unwrap();
    h.packet_received(Packet::InitReply);
    let before = queued(&h);
    let action = h.handle_event(Event::PacketReady(Packet::Unknown)).unwrap();
    assert_eq!(
        action,
        Action { action_type: ActionType::RefreshUi, data: ActionData::Null }
    );
    assert_eq!(queued(&h), before);
    assert!(h.battery_device.is_none());
    assert!(h.battery_case.is_none());
    assert!(h.anc_state.is_none());
}

#[test]
fn poll_returns_send_with_codec_bytes() {
    let (codec, state) = fake();
    let mut h = SonyHeadphone::new(codec).unwrap();
    state.borrow_mut().script.push(Event::BytesToSend(vec![0x3e, 0x0c, 0x01]));
    let action = h.poll().unwrap();
    assert_eq!(
        action,
        Action {
            action_type: ActionType::Send,
            data: ActionData::Bytes(vec![0x3e, 0x0c, 0x01]),
        }
    );
}

#[test]
fn poll_idle_with_empty_queue_waits() {
    let (codec, state) = fake();
    let mut h = SonyHeadphone::new(codec).unwrap();
    state.borrow_mut().script.push(Event::Idle(Some(250)));
    let action = h.poll().unwrap();
    assert_eq!(
        action,
        Action { action_type: ActionType::Wait, data: ActionData::Millis(250) }
    );
    let action = h.poll().unwrap();
    assert_eq!(
        action,
        Action { action_type: ActionType::Wait, data: ActionData::Null }
    );
}

#[test]
fn poll_drains_queue_before_waiting() {
    let (codec, state) = fake();
    let mut h = SonyHeadphone::new(codec).unwrap();
    state.borrow_mut().script.push(Event::PacketReady(Packet::InitReply));
    let action = h.poll().unwrap();
    assert_eq!(action.action_type, ActionType::RefreshUi);
    for _ in 0..4 {
        let action = h.poll().unwrap();
        assert_eq!(
            action,
            Action { action_type: ActionType::PollAgain, data: ActionData::Null }
        );
    }
    assert_eq!(h.queue_len(), 0);
    let action = h.poll().unwrap();
    assert_eq!(action.action_type, ActionType::Wait);
    assert_eq!(
        state.borrow().sent,
        vec![
            Command::InitRequest,
            Command::AncGet,
            Command::BatteryRequest(BatteryKind::Single),
            Command::BatteryRequest(BatteryKind::Dual),
            Command::BatteryRequest(BatteryKind::Case),
        ]
    );
}

#[test]
fn poll_propagates_advance_failure_without_touching_state() {
    let (codec, state) = fake();
    let mut h = SonyHeadphone::new(codec).unwrap();
    h.packet_received(Packet::InitReply);
    state.borrow_mut().fail_advance = true;
    match h.poll() {
        Err(Error::SessionFailure) => {}
        _ => panic!("a codec advance failure must end the session"),
    }
    assert_eq!(h.queue_len(), 4);
}

#[test]
fn send_failure_leaves_queue_untouched() {
    let (codec, state) = fake();
    let mut h = SonyHeadphone::new(codec).unwrap();
    h.packet_received(Packet::InitReply);
    let before = queued(&h);
    state.borrow_mut().fail_send = true;
    match h.handle_event(Event::Idle(None)) {
        Err(Error::SessionFailure) => {}
        _ => panic!("a refused queue head must end the session"),
    }
    assert_eq!(queued(&h), before);
}

#[test]
fn parse_packet_forwards_bytes_verbatim() {
    let (codec, state) = fake();
    let mut h = SonyHeadphone::new(codec).unwrap();
    h.parse_packet(&[0x3e, 0x01, 0x00, 0x3c]).unwrap();
    assert_eq!(state.borrow().received, vec![vec![0x3e, 0x01, 0x00, 0x3c]]);
    assert_eq!(h.queue_len(), 0);
}

#[test]
fn parse_packet_propagates_codec_failure() {
    let (codec, state) = fake();
    let mut h = SonyHeadphone::new(codec).unwrap();
    state.borrow_mut().fail_receive = true;
    match h.parse_packet(&[0xff]) {
        Err(Error::SessionFailure) => {}
        _ => panic!("a codec receive failure must end the session"),
    }
}
