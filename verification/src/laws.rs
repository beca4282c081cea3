//! The driver's guarantees, stated once and proved over the transition
//! functions of [`crate::driver`].

use vstd::prelude::*;

use crate::action::{ActionType, EventV};
use crate::driver::{change_step, dispatch_spec, event_step, handshake_commands, DriverView};
use crate::model::{next_anc_target, AncMode, AncState, BatteryReading, Command, Packet};

verus! {

/// Dispatching the handshake reply enqueues exactly the four startup
/// requests, in order, after whatever was already queued, and touches no
/// cache field; in particular a fresh driver's queue afterwards holds
/// exactly those four requests.
pub proof fn lemma_handshake_fanout(s: DriverView)
    ensures
        dispatch_spec(s, Packet::InitReply).queue == s.queue + handshake_commands(),
        dispatch_spec(s, Packet::InitReply).battery_device == s.battery_device,
        dispatch_spec(s, Packet::InitReply).battery_case == s.battery_case,
        dispatch_spec(s, Packet::InitReply).anc_state == s.anc_state,
        s.queue.len() == 0 ==> dispatch_spec(s, Packet::InitReply).queue =~= handshake_commands(),
{
}

/// Two battery readings aimed at the same cache slot: both at the device
/// slot, or both at the case slot.
pub open spec fn same_battery_slot(r1: BatteryReading, r2: BatteryReading) -> bool {
    (r1 is Case) <==> (r2 is Case)
}

/// The cache overwrites, it never merges: a battery notification aimed at a
/// slot makes any earlier notification for that slot irrelevant — the state
/// after both is the state after the second alone, so nothing of the first
/// reading is retained anywhere.
pub proof fn lemma_battery_overwrite(s: DriverView, r1: BatteryReading, r2: BatteryReading)
    requires
        same_battery_slot(r1, r2),
    ensures
        dispatch_spec(dispatch_spec(s, Packet::BatteryNotify(r1)), Packet::BatteryNotify(r2))
            == dispatch_spec(s, Packet::BatteryNotify(r2)),
{
}

/// The same for the noise-cancellation slot: reply or notification, the
/// second update alone determines the cached state.
pub proof fn lemma_anc_overwrite(s: DriverView, a1: AncState, a2: AncState)
    ensures
        dispatch_spec(dispatch_spec(s, Packet::AncNotify(a1)), Packet::AncNotify(a2))
            == dispatch_spec(s, Packet::AncNotify(a2)),
        dispatch_spec(dispatch_spec(s, Packet::AncReply(a1)), Packet::AncNotify(a2))
            == dispatch_spec(s, Packet::AncNotify(a2)),
{
}

/// The mode cycle is total and deterministic: from a driver that has
/// observed no noise-cancellation state, consecutive mode-change requests
/// enqueue `AncSet` of On, Wind, Off and AmbiantMode in that order, each
/// with its fixed parameters, and a fifth request repeats On.
pub proof fn lemma_anc_cycle(s: DriverView)
    requires
        s.anc_state is None,
    ensures
        ({
            let on = AncState { anc_mode: AncMode::On, focus_on_voice: false, ambiant_level: 0 };
            let wind = AncState { anc_mode: AncMode::Wind, focus_on_voice: false, ambiant_level: 0 };
            let off = AncState { anc_mode: AncMode::Off, focus_on_voice: false, ambiant_level: 0 };
            let ambiant = AncState {
                anc_mode: AncMode::AmbiantMode,
                focus_on_voice: false,
                ambiant_level: 17,
            };
            let s5 = change_step(change_step(change_step(change_step(change_step(s)))));
            s5.queue =~= s.queue + seq![
                Command::AncSet(on),
                Command::AncSet(wind),
                Command::AncSet(off),
                Command::AncSet(ambiant),
                Command::AncSet(on),
            ]
        }),
{
}

/// The queue drains before the driver idles: while anything is queued, no
/// event whatsoever — packet, bytes, or idleness — makes the driver answer
/// `Wait`.
pub proof fn lemma_queue_drains_before_wait(s: DriverView, e: EventV)
    requires
        s.queue.len() > 0,
    ensures
        event_step(s, e).1.action_type != ActionType::Wait,
{
}

/// Every step consumes at most the queue head: a single event never removes
/// more than one command, and only an idle event removes one.
pub proof fn lemma_step_consumes_at_most_head(s: DriverView, e: EventV)
    ensures
        event_step(s, e).0.queue.len() >= s.queue.len() - 1,
        !(e is Idle) ==> event_step(s, e).0.queue.len() >= s.queue.len(),
{
}

/// An unrecognized packet is a no-op: it leaves the queue and every cache
/// field exactly as they were, and its event still answers `RefreshUi`, not
/// an error.
pub proof fn lemma_unknown_packet_noop(s: DriverView)
    ensures
        dispatch_spec(s, Packet::Unknown) == s,
        event_step(s, EventV::PacketReady(Packet::Unknown)).0 == s,
        event_step(s, EventV::PacketReady(Packet::Unknown)).1.action_type == ActionType::RefreshUi,
{
}

/// The mode cycle walks as `next_anc_target` says whatever state it starts
/// from: one mode-change request appends exactly one `AncSet` of the target
/// and records that target, touching nothing else.
pub proof fn lemma_change_step_shape(s: DriverView)
    ensures
        change_step(s).queue == s.queue.push(Command::AncSet(next_anc_target(s.anc_state))),
        change_step(s).anc_state == Some(next_anc_target(s.anc_state)),
        change_step(s).battery_device == s.battery_device,
        change_step(s).battery_case == s.battery_case,
{
}

} // verus!
