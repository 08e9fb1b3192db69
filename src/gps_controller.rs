//! The operations the request/response layer performs on the position sensor
//! and its configuration: validation, the configuration gate, partial patches
//! and deletion with its terminal notification.
use vstd::prelude::*;
use crate::config::{copy_text, same_text, ConfigView};
use crate::errors::ApiError;
use crate::gps_data::{CreateGpsPayload, GpsConfig, GpsData, UpdateGpsConfigPayload, UpdateGpsPayload};
use crate::message_data::{delete_envelope, frame_delete, SensorKind};
use crate::mqtt_manager::ConfigUpdate;
use crate::net::{kept, offers_to, Registry};
use crate::units::{clamp_speed, clamped, FULL_TURN, HALF_TURN, MAX_SPEED, QUARTER_TURN};

verus! {

/// A latitude the API accepts: `[-90, 90]` degrees.
pub open spec fn latitude_ok(v: i64) -> bool {
    -QUARTER_TURN <= v <= QUARTER_TURN
}

/// A longitude the API accepts: `[-180, 180]` degrees.
pub open spec fn longitude_ok(v: i64) -> bool {
    -HALF_TURN <= v <= HALF_TURN
}

/// A speed over ground the API accepts: not negative.
pub open spec fn speed_ok(v: i64) -> bool {
    v >= 0
}

/// A course the API accepts: `[0, 360)` degrees.
pub open spec fn course_ok(v: i64) -> bool {
    0 <= v < FULL_TURN
}

/// The first field of a creation payload that is out of range, if any.
pub open spec fn create_error(req: CreateGpsPayload) -> Option<ApiError> {
    if !latitude_ok(req.latitude) {
        Some(ApiError::InvalidLatitude)
    } else if !longitude_ok(req.longitude) {
        Some(ApiError::InvalidLongitude)
    } else if !speed_ok(req.sog) {
        Some(ApiError::InvalidSpeed)
    } else if !course_ok(req.cog) {
        Some(ApiError::InvalidCourse)
    } else {
        None
    }
}

/// The first present field of a patch that is out of range, if any.
pub open spec fn patch_error(p: UpdateGpsPayload) -> Option<ApiError> {
    if p.latitude matches Some(v) && !latitude_ok(v) {
        Some(ApiError::InvalidLatitude)
    } else if p.longitude matches Some(v) && !longitude_ok(v) {
        Some(ApiError::InvalidLongitude)
    } else if p.sog matches Some(v) && !speed_ok(v) {
        Some(ApiError::InvalidSpeed)
    } else if p.cog matches Some(v) && !course_ok(v) {
        Some(ApiError::InvalidCourse)
    } else {
        None
    }
}

/// The sensor a valid payload creates, with its speed held to the ceiling.
pub open spec fn created(req: CreateGpsPayload, variation: i64, now_ms: i64) -> GpsData {
    GpsData {
        latitude: req.latitude,
        longitude: req.longitude,
        sog: clamped(req.sog as int, 0, MAX_SPEED as int) as i64,
        cog: req.cog,
        variation,
        is_running: req.is_running,
        last_update: now_ms,
    }
}

/// The sensor after a valid patch.
pub open spec fn patched(d: GpsData, p: UpdateGpsPayload, now_ms: i64) -> GpsData {
    GpsData {
        latitude: match p.latitude {
            Some(v) => v,
            None => d.latitude,
        },
        longitude: match p.longitude {
            Some(v) => v,
            None => d.longitude,
        },
        sog: match p.sog {
            Some(v) => clamped(v as int, 0, MAX_SPEED as int) as i64,
            None => d.sog,
        },
        cog: match p.cog {
            Some(v) => v,
            None => d.cog,
        },
        is_running: match p.is_running {
            Some(v) => v,
            None => d.is_running,
        },
        last_update: now_ms,
        ..d
    }
}

/// What creating the sensor gives, in the order the checks are made: the
/// configuration gate, then existence, then the payload's ranges.
pub open spec fn create_result(
    existing: Option<GpsData>,
    config: ConfigView,
    req: CreateGpsPayload,
    variation: i64,
    now_ms: i64,
) -> Result<GpsData, ApiError> {
    if !config.complete() {
        Err(ApiError::ConfigIncomplete)
    } else if existing.is_some() {
        Err(ApiError::AlreadyExists)
    } else {
        match create_error(req) {
            Some(e) => Err(e),
            None => Ok(created(req, variation, now_ms)),
        }
    }
}

/// What patching the sensor gives: starting it needs a complete configuration,
/// then the present fields must be in range, then the sensor must exist.
pub open spec fn update_result(
    existing: Option<GpsData>,
    config: ConfigView,
    p: UpdateGpsPayload,
    now_ms: i64,
) -> Result<GpsData, ApiError> {
    if p.is_running == Some(true) && !config.complete() {
        Err(ApiError::ConfigIncomplete)
    } else if patch_error(p).is_some() {
        Err(patch_error(p).unwrap())
    } else {
        match existing {
            Some(d) => Ok(patched(d, p, now_ms)),
            None => Err(ApiError::NotFound),
        }
    }
}

/// The stored sensor after an operation that returned `r`.
pub open spec fn stored(before: Option<GpsData>, r: Result<GpsData, ApiError>) -> Option<GpsData> {
    match r {
        Ok(d) => Some(d),
        Err(_) => before,
    }
}

fn check_latitude(v: i64) -> (r: bool)
    ensures
        r == latitude_ok(v),
{
    -QUARTER_TURN <= v && v <= QUARTER_TURN
}

fn check_longitude(v: i64) -> (r: bool)
    ensures
        r == longitude_ok(v),
{
    -HALF_TURN <= v && v <= HALF_TURN
}

fn check_course(v: i64) -> (r: bool)
    ensures
        r == course_ok(v),
{
    0 <= v && v < FULL_TURN
}

/// Creates the position sensor. It is refused while host, port or interval is
/// unset, when the sensor already exists, or when a value is out of range; then
/// nothing changes. `variation` is the magnetic variation at the new position.
pub fn create_gps(
    slot: &mut Option<GpsData>,
    config: &GpsConfig,
    req: CreateGpsPayload,
    variation: i64,
    now_ms: i64,
) -> (r: Result<GpsData, ApiError>)
    ensures
        r == create_result(*old(slot), config@, req, variation, now_ms),
        *final(slot) == stored(*old(slot), r),
        r matches Ok(d) ==> d.wf(),
{
    if !config.is_complete() {
        return Err(ApiError::ConfigIncomplete);
    }
    if slot.is_some() {
        return Err(ApiError::AlreadyExists);
    }
    if !check_latitude(req.latitude) {
        return Err(ApiError::InvalidLatitude);
    }
    if !check_longitude(req.longitude) {
        return Err(ApiError::InvalidLongitude);
    }
    if req.sog < 0 {
        return Err(ApiError::InvalidSpeed);
    }
    if !check_course(req.cog) {
        return Err(ApiError::InvalidCourse);
    }
    let data = GpsData {
        latitude: req.latitude,
        longitude: req.longitude,
        sog: clamp_speed(req.sog),
        cog: req.cog,
        variation,
        is_running: req.is_running,
        last_update: now_ms,
    };
    *slot = Some(data);
    Ok(data)
}

/// Applies a partial patch to the position sensor. Starting it (`is_running`
/// set to true) needs a complete configuration; every present value must be in
/// range; the sensor must exist. On refusal nothing changes.
pub fn update_gps(
    slot: &mut Option<GpsData>,
    config: &GpsConfig,
    patch: UpdateGpsPayload,
    now_ms: i64,
) -> (r: Result<GpsData, ApiError>)
    ensures
        r == update_result(*old(slot), config@, patch, now_ms),
        *final(slot) == stored(*old(slot), r),
        old(slot).is_some() && old(slot).unwrap().wf() ==> (r matches Ok(d) ==> d.wf()),
{
    if patch.is_running == Some(true) && !config.is_complete() {
        return Err(ApiError::ConfigIncomplete);
    }
    if let Some(v) = patch.latitude {
        if !check_latitude(v) {
            return Err(ApiError::InvalidLatitude);
        }
    }
    if let Some(v) = patch.longitude {
        if !check_longitude(v) {
            return Err(ApiError::InvalidLongitude);
        }
    }
    if let Some(v) = patch.sog {
        if v < 0 {
            return Err(ApiError::InvalidSpeed);
        }
    }
    if let Some(v) = patch.cog {
        if !check_course(v) {
            return Err(ApiError::InvalidCourse);
        }
    }
    match slot {
        Some(d) => {
            if let Some(v) = patch.latitude {
                d.latitude = v;
            }
            if let Some(v) = patch.longitude {
                d.longitude = v;
            }
            if let Some(v) = patch.sog {
                d.sog = clamp_speed(v);
            }
            if let Some(v) = patch.cog {
                d.cog = v;
            }
            if let Some(v) = patch.is_running {
                d.is_running = v;
            }
            d.last_update = now_ms;
            Ok(*d)
        },
        None => Err(ApiError::NotFound),
    }
}

/// Deletes the position sensor: subscribers are told with one `gps_delete`
/// notification, then the state is cleared. Refused when there is none.
pub fn delete_gps(slot: &mut Option<GpsData>, registry: &mut Registry) -> (r: Result<(), ApiError>)
    ensures
        r is Ok <==> old(slot).is_some(),
        final(slot).is_none(),
        r is Ok ==> final(registry).history() == old(registry).history().push(
            delete_envelope(SensorKind::Gps),
        ),
        r is Ok ==> final(registry).offered() == old(registry).offered() + offers_to(
            old(registry)@,
            delete_envelope(SensorKind::Gps),
        ),
        r is Ok ==> exists|open: Seq<bool>|
            open.len() == old(registry)@.len() && final(registry)@ == kept(old(registry)@, open),
        r is Err ==> *final(registry) == *old(registry),
{
    if slot.is_none() {
        return Err(ApiError::NotFound);
    }
    let _ = registry.broadcast(&frame_delete(SensorKind::Gps));
    *slot = None;
    Ok(())
}

/// What a configuration change would be tested against before it is accepted:
/// host and port as they stand after the patch, when both are set.
pub fn probe_target(config: &GpsConfig, patch: &UpdateGpsConfigPayload) -> (r: Option<(String, u16)>)
    ensures
        r.is_some() == config@.patched(patch@).has_target(),
        r matches Some((host, port)) ==> config@.patched(patch@).ip == Some(host@)
            && config@.patched(patch@).port == Some(port),
{
    let ip = if patch.ip.is_some() {
        copy_text(&patch.ip)
    } else {
        copy_text(&config.ip)
    };
    let port = if patch.port.is_some() {
        patch.port
    } else {
        config.port
    };
    match (ip, port) {
        (Some(h), Some(p)) => Some((h, p)),
        _ => None,
    }
}

/// Applies a configuration patch. When the patched configuration names a
/// broker, `reachable` is the outcome of a test connection to it (see
/// [`probe_target`]); an unreachable broker refuses the change. On success the
/// result carries a reconnect signal exactly when host, port or credentials
/// changed.
pub fn update_config(config: &mut GpsConfig, patch: UpdateGpsConfigPayload, reachable: bool) -> (r:
    Result<Option<ConfigUpdate>, ApiError>)
    ensures
        old(config)@.patched(patch@).has_target() && !reachable ==> r == Err::<
            Option<ConfigUpdate>,
            ApiError,
        >(ApiError::BrokerUnreachable) && final(config)@ == old(config)@,
        !(old(config)@.patched(patch@).has_target() && !reachable) ==> final(config)@ == old(
            config,
        )@.patched(patch@) && r == Ok::<Option<ConfigUpdate>, ApiError>(
            if old(config)@.connection_differs(final(config)@) {
                Some(ConfigUpdate::Gps)
            } else {
                None
            },
        ),
{
    let target = (patch.ip.is_some() || config.ip.is_some()) && (patch.port.is_some()
        || config.port.is_some());
    if target && !reachable {
        return Err(ApiError::BrokerUnreachable);
    }
    let ip = copy_text(&config.ip);
    let port = config.port;
    let username = copy_text(&config.username);
    let password = copy_text(&config.password);
    config.apply_patch(patch);
    let changed = !same_text(&ip, &config.ip) || port != config.port || !same_text(
        &username,
        &config.username,
    ) || !same_text(&password, &config.password);
    if changed {
        Ok(Some(ConfigUpdate::Gps))
    } else {
        Ok(None)
    }
}

/// Resets the configuration to all-unset and clears the sensor, telling
/// subscribers first with one `gps_delete` notification. Returns the signal
/// that makes the connection manager drop its connection.
pub fn delete_config(config: &mut GpsConfig, slot: &mut Option<GpsData>, registry: &mut Registry) -> (r:
    ConfigUpdate)
    ensures
        final(config)@ == ConfigView::empty(),
        final(slot).is_none(),
        final(registry).history() == old(registry).history().push(delete_envelope(SensorKind::Gps)),
        final(registry).offered() == old(registry).offered() + offers_to(
            old(registry)@,
            delete_envelope(SensorKind::Gps),
        ),
        exists|open: Seq<bool>|
            open.len() == old(registry)@.len() && final(registry)@ == kept(old(registry)@, open),
        r == ConfigUpdate::Gps,
{
    let _ = registry.broadcast(&frame_delete(SensorKind::Gps));
    *slot = None;
    *config = GpsConfig::default();
    ConfigUpdate::Gps
}

} // verus!
