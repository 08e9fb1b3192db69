//! The operations the request/response layer performs on the orientation
//! sensor and its configuration: validation, the configuration gate, partial
//! patches and deletion with its terminal notification.
use vstd::prelude::*;
use crate::config::{copy_text, same_text, ConfigView};
use crate::errors::ApiError;
use crate::gyro_data::{CreateGyroPayload, GyroConfig, GyroData, UpdateGyroConfigPayload, UpdateGyroPayload};
use crate::message_data::{delete_envelope, frame_delete, SensorKind};
use crate::mqtt_manager::ConfigUpdate;
use crate::net::{kept, offers_to, Registry};
use crate::units::{FULL_TURN, QUARTER_TURN};

verus! {

/// A pitch or roll the API accepts: `[-90, 90]` degrees.
pub open spec fn tilt_ok(v: i64) -> bool {
    -QUARTER_TURN <= v <= QUARTER_TURN
}

/// A yaw the API accepts: `[0, 360)` degrees.
pub open spec fn yaw_ok(v: i64) -> bool {
    0 <= v < FULL_TURN
}

/// The first field of a creation payload that is out of range, if any.
pub open spec fn create_error(req: CreateGyroPayload) -> Option<ApiError> {
    if !tilt_ok(req.pitch) {
        Some(ApiError::InvalidPitch)
    } else if !tilt_ok(req.roll) {
        Some(ApiError::InvalidRoll)
    } else if !yaw_ok(req.yaw) {
        Some(ApiError::InvalidYaw)
    } else {
        None
    }
}

/// The first present field of a patch that is out of range, if any.
pub open spec fn patch_error(p: UpdateGyroPayload) -> Option<ApiError> {
    if p.pitch matches Some(v) && !tilt_ok(v) {
        Some(ApiError::InvalidPitch)
    } else if p.roll matches Some(v) && !tilt_ok(v) {
        Some(ApiError::InvalidRoll)
    } else if p.yaw matches Some(v) && !yaw_ok(v) {
        Some(ApiError::InvalidYaw)
    } else {
        None
    }
}

/// The sensor a valid payload creates.
pub open spec fn created(req: CreateGyroPayload, now_ms: i64) -> GyroData {
    GyroData {
        yaw: req.yaw,
        pitch: req.pitch,
        roll: req.roll,
        yaw_rate: req.yaw_rate,
        is_running: req.is_running,
        last_update: now_ms,
    }
}

/// The sensor after a valid patch.
pub open spec fn patched(d: GyroData, p: UpdateGyroPayload, now_ms: i64) -> GyroData {
    GyroData {
        yaw: match p.yaw {
            Some(v) => v,
            None => d.yaw,
        },
        pitch: match p.pitch {
            Some(v) => v,
            None => d.pitch,
        },
        roll: match p.roll {
            Some(v) => v,
            None => d.roll,
        },
        yaw_rate: match p.yaw_rate {
            Some(v) => v,
            None => d.yaw_rate,
        },
        is_running: match p.is_running {
            Some(v) => v,
            None => d.is_running,
        },
        last_update: now_ms,
    }
}

/// What creating the sensor gives, in the order the checks are made: the
/// configuration gate, then existence, then the payload's ranges.
pub open spec fn create_result(
    existing: Option<GyroData>,
    config: ConfigView,
    req: CreateGyroPayload,
    now_ms: i64,
) -> Result<GyroData, ApiError> {
    if !config.complete() {
        Err(ApiError::ConfigIncomplete)
    } else if existing.is_some() {
        Err(ApiError::AlreadyExists)
    } else {
        match create_error(req) {
            Some(e) => Err(e),
            None => Ok(created(req, now_ms)),
        }
    }
}

/// What patching the sensor gives: starting it needs a complete configuration,
/// then the present fields must be in range, then the sensor must exist.
pub open spec fn update_result(
    existing: Option<GyroData>,
    config: ConfigView,
    p: UpdateGyroPayload,
    now_ms: i64,
) -> Result<GyroData, ApiError> {
    if p.is_running == Some(true) && !config.complete() {
        Err(ApiError::ConfigIncomplete)
    } else if patch_error(p).is_some() {
        Err(patch_error(p).unwrap())
    } else {
        match existing {
            Some(d) => Ok(patched(d, p, now_ms)),
            None => Err(ApiError::NotFound),
        }
    }
}

/// The stored sensor after an operation that returned `r`.
pub open spec fn stored(before: Option<GyroData>, r: Result<GyroData, ApiError>) -> Option<GyroData> {
    match r {
        Ok(d) => Some(d),
        Err(_) => before,
    }
}

fn check_tilt(v: i64) -> (r: bool)
    ensures
        r == tilt_ok(v),
{
    -QUARTER_TURN <= v && v <= QUARTER_TURN
}

fn check_yaw(v: i64) -> (r: bool)
    ensures
        r == yaw_ok(v),
{
    0 <= v && v < FULL_TURN
}

/// Creates the orientation sensor. It is refused while host, port or interval
/// is unset, when the sensor already exists, or when a value is out of range;
/// then nothing changes.
pub fn create_gyro(
    slot: &mut Option<GyroData>,
    config: &GyroConfig,
    req: CreateGyroPayload,
    now_ms: i64,
) -> (r: Result<GyroData, ApiError>)
    ensures
        r == create_result(*old(slot), config@, req, now_ms),
        *final(slot) == stored(*old(slot), r),
        r matches Ok(d) ==> d.wf(),
{
    if !config.is_complete() {
        return Err(ApiError::ConfigIncomplete);
    }
    if slot.is_some() {
        return Err(ApiError::AlreadyExists);
    }
    if !check_tilt(req.pitch) {
        return Err(ApiError::InvalidPitch);
    }
    if !check_tilt(req.roll) {
        return Err(ApiError::InvalidRoll);
    }
    if !check_yaw(req.yaw) {
        return Err(ApiError::InvalidYaw);
    }
    let data = GyroData {
        yaw: req.yaw,
        pitch: req.pitch,
        roll: req.roll,
        yaw_rate: req.yaw_rate,
        is_running: req.is_running,
        last_update: now_ms,
    };
    *slot = Some(data);
    Ok(data)
}

/// Applies a partial patch to the orientation sensor. Starting it
/// (`is_running` set to true) needs a complete configuration; every present
/// value must be in range; the sensor must exist. On refusal nothing changes.
pub fn update_gyro(
    slot: &mut Option<GyroData>,
    config: &GyroConfig,
    patch: UpdateGyroPayload,
    now_ms: i64,
) -> (r: Result<GyroData, ApiError>)
    ensures
        r == update_result(*old(slot), config@, patch, now_ms),
        *final(slot) == stored(*old(slot), r),
        old(slot).is_some() && old(slot).unwrap().wf() ==> (r matches Ok(d) ==> d.wf()),
{
    if patch.is_running == Some(true) && !config.is_complete() {
        return Err(ApiError::ConfigIncomplete);
    }
    if let Some(v) = patch.pitch {
        if !check_tilt(v) {
            return Err(ApiError::InvalidPitch);
        }
    }
    if let Some(v) = patch.roll {
        if !check_tilt(v) {
            return Err(ApiError::InvalidRoll);
        }
    }
    if let Some(v) = patch.yaw {
        if !check_yaw(v) {
            return Err(ApiError::InvalidYaw);
        }
    }
    match slot {
        Some(d) => {
            if let Some(v) = patch.yaw {
                d.yaw = v;
            }
            if let Some(v) = patch.pitch {
                d.pitch = v;
            }
            if let Some(v) = patch.roll {
                d.roll = v;
            }
            if let Some(v) = patch.yaw_rate {
                d.yaw_rate = v;
            }
            if let Some(v) = patch.is_running {
                d.is_running = v;
            }
            d.last_update = now_ms;
            Ok(*d)
        },
        None => Err(ApiError::NotFound),
    }
}

/// Deletes the orientation sensor: subscribers are told with one
/// `gyro_delete` notification, then the state is cleared. Refused when there
/// is none.
pub fn delete_gyro(slot: &mut Option<GyroData>, registry: &mut Registry) -> (r: Result<(), ApiError>)
    ensures
        r is Ok <==> old(slot).is_some(),
        final(slot).is_none(),
        r is Ok ==> final(registry).history() == old(registry).history().push(
            delete_envelope(SensorKind::Gyro),
        ),
        r is Ok ==> final(registry).offered() == old(registry).offered() + offers_to(
            old(registry)@,
            delete_envelope(SensorKind::Gyro),
        ),
        r is Ok ==> exists|open: Seq<bool>|
            open.len() == old(registry)@.len() && final(registry)@ == kept(old(registry)@, open),
        r is Err ==> *final(registry) == *old(registry),
{
    if slot.is_none() {
        return Err(ApiError::NotFound);
    }
    let _ = registry.broadcast(&frame_delete(SensorKind::Gyro));
    *slot = None;
    Ok(())
}

/// What a configuration change would be tested against before it is accepted:
/// host and port as they stand after the patch, when both are set.
pub fn probe_target(config: &GyroConfig, patch: &UpdateGyroConfigPayload) -> (r: Option<(String, u16)>)
    ensures
        r.is_some() == config@.patched(patch@).has_target(),
        r matches Some((host, port)) ==> config@.patched(patch@).ip == Some(host@)
            && config@.patched(patch@).port == Some(port),
{
    let ip = if patch.ip.is_some() {
        copy_text(&patch.ip)
    } else {
        copy_text(&config.ip)
    };
    let port = if patch.port.is_some() {
        patch.port
    } else {
        config.port
    };
    match (ip, port) {
        (Some(h), Some(p)) => Some((h, p)),
        _ => None,
    }
}

/// Applies a configuration patch. When the patched configuration names a
/// broker, `reachable` is the outcome of a test connection to it (see
/// [`probe_target`]); an unreachable broker refuses the change. On success the
/// result carries a reconnect signal exactly when host, port or credentials
/// changed.
pub fn update_config(config: &mut GyroConfig, patch: UpdateGyroConfigPayload, reachable: bool) -> (r:
    Result<Option<ConfigUpdate>, ApiError>)
    ensures
        old(config)@.patched(patch@).has_target() && !reachable ==> r == Err::<
            Option<ConfigUpdate>,
            ApiError,
        >(ApiError::BrokerUnreachable) && final(config)@ == old(config)@,
        !(old(config)@.patched(patch@).has_target() && !reachable) ==> final(config)@ == old(
            config,
        )@.patched(patch@) && r == Ok::<Option<ConfigUpdate>, ApiError>(
            if old(config)@.connection_differs(final(config)@) {
                Some(ConfigUpdate::Gyro)
            } else {
                None
            },
        ),
{
    let target = (patch.ip.is_some() || config.ip.is_some()) && (patch.port.is_some()
        || config.port.is_some());
    if target && !reachable {
        return Err(ApiError::BrokerUnreachable);
    }
    let ip = copy_text(&config.ip);
    let port = config.port;
    let username = copy_text(&config.username);
    let password = copy_text(&config.password);
    config.apply_patch(patch);
    let changed = !same_text(&ip, &config.ip) || port != config.port || !same_text(
        &username,
        &config.username,
    ) || !same_text(&password, &config.password);
    if changed {
        Ok(Some(ConfigUpdate::Gyro))
    } else {
        Ok(None)
    }
}

/// Resets the configuration to all-unset and clears the sensor, telling
/// subscribers first with one `gyro_delete` notification. Returns the signal
/// that makes the connection manager drop its connection.
pub fn delete_config(config: &mut GyroConfig, slot: &mut Option<GyroData>, registry: &mut Registry) -> (r:
    ConfigUpdate)
    ensures
        final(config)@ == ConfigView::empty(),
        final(slot).is_none(),
        final(registry).history() == old(registry).history().push(delete_envelope(SensorKind::Gyro)),
        final(registry).offered() == old(registry).offered() + offers_to(
            old(registry)@,
            delete_envelope(SensorKind::Gyro),
        ),
        exists|open: Seq<bool>|
            open.len() == old(registry)@.len() && final(registry)@ == kept(old(registry)@, open),
        r == ConfigUpdate::Gyro,
{
    let _ = registry.broadcast(&frame_delete(SensorKind::Gyro));
    *slot = None;
    *config = GyroConfig::default();
    ConfigUpdate::Gyro
}

} // verus!
