//! The decisions of the periodic tasks of each sensor kind: what one tick of
//! the update engine does to the stored state, and how one state-changed
//! notification is dispatched to subscribers and to the broker. The tasks
//! themselves (sleeping, locking, network I/O) run around these.
use vstd::prelude::*;
use crate::gps_calculate::{began, begin_position_step, complete_position_step, completed, leg_distance, Leg};
use crate::gps_data::GpsData;
use crate::gyro_calculate::{calculate_next_gyro_state, stepped};
use crate::gyro_data::GyroData;
use crate::message_data::{frame_update, update_envelope, SensorMessage};
use crate::mqtt_manager::{LinkPhase, MqttManager};
use crate::net::{kept, offers_to, Registry};

verus! {

/// First half of a position tick: a running sensor gets its speed and course
/// fixed and the leg to travel in `dt_ms` milliseconds is returned; an absent or
/// stopped sensor is left alone.
pub fn gps_tick_begin(slot: &mut Option<GpsData>, dt_ms: u64) -> (r: Option<Leg>)
    ensures
        match *old(slot) {
            Some(d) if d.is_running => {
                &&& *final(slot) == Some(began(d))
                &&& r == Some(
                    Leg {
                        course: began(d).cog,
                        distance_mm: leg_distance(began(d).sog as int, dt_ms as int) as u128,
                    },
                )
            },
            _ => *final(slot) == *old(slot) && r.is_none(),
        },
{
    match slot {
        Some(d) => {
            if d.is_running {
                Some(begin_position_step(d, dt_ms))
            } else {
                None
            }
        },
        None => None,
    }
}

/// Second half of a position tick: a running sensor moves to the raw
/// destination `(lat, lon)` and the snapshot to dispatch is returned; an absent
/// or stopped sensor is left alone.
pub fn gps_tick_complete(
    slot: &mut Option<GpsData>,
    lat: i64,
    lon: i64,
    variation: i64,
    now_ms: i64,
) -> (r: Option<SensorMessage>)
    ensures
        match *old(slot) {
            Some(d) if d.is_running => {
                &&& *final(slot) == Some(completed(d, lat, lon, variation, now_ms))
                &&& r == Some(SensorMessage::GpsUpdate(completed(d, lat, lon, variation, now_ms)))
            },
            _ => *final(slot) == *old(slot) && r.is_none(),
        },
{
    match slot {
        Some(d) => {
            if d.is_running {
                complete_position_step(d, lat, lon, variation, now_ms);
                Some(SensorMessage::GpsUpdate(*d))
            } else {
                None
            }
        },
        None => None,
    }
}

/// One orientation tick: a running sensor advances by `dt_ms` milliseconds and
/// the snapshot to dispatch is returned; an absent or stopped sensor is left
/// alone.
pub fn gyro_tick(
    slot: &mut Option<GyroData>,
    dt_ms: u64,
    roll_wave: i64,
    pitch_wave: i64,
    now_ms: i64,
) -> (r: Option<SensorMessage>)
    ensures
        match *old(slot) {
            Some(d) if d.is_running => {
                &&& *final(slot) == Some(stepped(d, dt_ms, roll_wave, pitch_wave, now_ms))
                &&& r == Some(
                    SensorMessage::GyroUpdate(stepped(d, dt_ms, roll_wave, pitch_wave, now_ms)),
                )
            },
            _ => *final(slot) == *old(slot) && r.is_none(),
        },
{
    match slot {
        Some(d) => {
            if d.is_running {
                calculate_next_gyro_state(d, dt_ms, roll_wave, pitch_wave, now_ms);
                Some(SensorMessage::GyroUpdate(*d))
            } else {
                None
            }
        },
        None => None,
    }
}

/// What goes to the broker after a dispatch: one payload for each topic.
pub struct Publication {
    pub payload: String,
    pub topics: Vec<String>,
}

/// Dispatches one state-changed notification. `data` is the serialised
/// snapshot; it is framed once into the update envelope of the message's kind,
/// pushed to every subscriber (those whose queue is closed are dropped), and
/// handed back with the configured `topics` for publishing, or with no topic
/// while the broker connection is not up.
pub fn dispatch(
    registry: &mut Registry,
    manager: &MqttManager,
    message: &SensorMessage,
    data: &str,
    topics: Vec<String>,
) -> (r: Publication)
    ensures
        r.payload@ == update_envelope(message.kind_spec(), data@),
        final(registry).history() == old(registry).history().push(r.payload@),
        final(registry).offered() == old(registry).offered() + offers_to(old(registry)@, r.payload@),
        exists|open: Seq<bool>|
            open.len() == old(registry)@.len() && final(registry)@ == kept(old(registry)@, open),
        r.topics.deep_view() == (if manager.phase == LinkPhase::Connected {
            topics.deep_view()
        } else {
            Seq::<Seq<char>>::empty()
        }),
{
    let payload = frame_update(message.kind(), data);
    let _ = registry.broadcast(&payload);
    let topics = if manager.may_publish() {
        topics
    } else {
        let none: Vec<String> = Vec::new();
        assert(none.deep_view() =~= Seq::<Seq<char>>::empty());
        none
    };
    Publication { payload, topics }
}

} // verus!
