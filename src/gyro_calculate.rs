//! One step of the orientation sensor: yaw integrates the yaw rate; roll and
//! pitch are not integrated but follow an oscillation the caller supplies (a
//! wall-clock sinusoid plus noise), each held to its hardware envelope.
use vstd::prelude::*;
use crate::gyro_data::GyroData;
use crate::units::{clamp, clamped, course_of, div_floor, rem_euclid, FULL_TURN};

verus! {

/// The roll envelope: `[-60, 60]` degrees.
pub const ROLL_LIMIT: i64 = 60_000_000;

/// The pitch envelope: `[-30, 30]` degrees.
pub const PITCH_LIMIT: i64 = 30_000_000;

/// The yaw after `dt_ms` milliseconds at `rate` microdegrees per second,
/// normalised to `[0, 360)`.
pub open spec fn yaw_after(yaw: int, rate: int, dt_ms: int) -> int {
    course_of(yaw + rate * dt_ms / 1000)
}

/// The state after one step with the given roll and pitch excitation.
pub open spec fn stepped(
    d: GyroData,
    dt_ms: u64,
    roll_wave: i64,
    pitch_wave: i64,
    now_ms: i64,
) -> GyroData {
    GyroData {
        yaw: yaw_after(d.yaw as int, d.yaw_rate as int, dt_ms as int) as i64,
        roll: clamped(roll_wave as int, -ROLL_LIMIT as int, ROLL_LIMIT as int) as i64,
        pitch: clamped(pitch_wave as int, -PITCH_LIMIT as int, PITCH_LIMIT as int) as i64,
        last_update: now_ms,
        ..d
    }
}

/// Advances the orientation by one step of `dt_ms` milliseconds. `roll_wave`
/// and `pitch_wave` (microdegrees) are the oscillation and noise the caller
/// drew for this tick; `now_ms` is the tick time.
pub fn calculate_next_gyro_state(
    gyro_data: &mut GyroData,
    dt_ms: u64,
    roll_wave: i64,
    pitch_wave: i64,
    now_ms: i64,
)
    ensures
        *final(gyro_data) == stepped(*old(gyro_data), dt_ms, roll_wave, pitch_wave, now_ms),
        final(gyro_data).wf(),
{
    let rate = gyro_data.yaw_rate as i128;
    let dt = dt_ms as i128;
    assert(-0x7fff_ffff_ffff_ffff_8000_0000_0000_0000 <= rate * dt
        <= 0x7fff_ffff_ffff_fffe_8000_0000_0000_0001) by (nonlinear_arith)
        requires
            -0x8000_0000_0000_0000 <= rate <= 0x7fff_ffff_ffff_ffff,
            0 <= dt <= 0xffff_ffff_ffff_ffff,
    ;
    let turned = div_floor(rate * dt, 1000);
    assert(-0x0100_0000_0000_0000_0000_0000_0000_0000 <= turned
        <= 0x0100_0000_0000_0000_0000_0000_0000_0000) by (nonlinear_arith)
        requires
            turned == (rate * dt) / 1000,
            -0x7fff_ffff_ffff_ffff_8000_0000_0000_0000 <= rate * dt
                <= 0x7fff_ffff_ffff_fffe_8000_0000_0000_0001,
    ;
    let yaw = rem_euclid((gyro_data.yaw as i128) + turned, FULL_TURN as i128);
    gyro_data.yaw = yaw as i64;
    gyro_data.roll = clamp(roll_wave, -ROLL_LIMIT, ROLL_LIMIT);
    gyro_data.pitch = clamp(pitch_wave, -PITCH_LIMIT, PITCH_LIMIT);
    gyro_data.last_update = now_ms;
}

} // verus!
