use tokio::sync::mpsc::{unbounded_channel, UnboundedReceiver};
use vessel_telemetry::config::ConnectParams;
use vessel_telemetry::errors::ApiError;
use vessel_telemetry::gps_controller::{
    create_gps, delete_config, delete_gps, probe_target, update_config, update_gps,
};
use vessel_telemetry::gps_data::{
    CreateGpsPayload, GpsConfig, GpsData, UpdateGpsConfigPayload, UpdateGpsPayload,
};
use vessel_telemetry::gyro_controller::{create_gyro, delete_gyro, update_gyro};
use vessel_telemetry::gyro_data::{CreateGyroPayload, GyroConfig, GyroData, UpdateGyroPayload};
use vessel_telemetry::message_data::{frame_delete, frame_update, SensorKind, SensorMessage};
use vessel_telemetry::mqtt_manager::{ConfigUpdate, LinkAction, LinkPhase, MqttManager};
use vessel_telemetry::net::Registry;
use vessel_telemetry::services::{dispatch, gps_tick_begin, gps_tick_complete, gyro_tick};

fn complete_gps_config() -> GpsConfig {
    GpsConfig {
        ip: Some("127.0.0.1".to_string()),
        port: Some(1883),
        username: None,
        password: None,
        update_rate: Some(1000),
        topics: Some(vec!["vessel/gps".to_string()]),
    }
}

fn complete_gyro_config() -> GyroConfig {
    GyroConfig {
        ip: Some("127.0.0.1".to_string()),
        port: Some(1883),
        username: None,
        password: None,
        update_rate: Some(500),
        topics: None,
    }
}

fn empty_patch() -> UpdateGpsConfigPayload {
    UpdateGpsConfigPayload {
        ip: None,
        port: None,
        username: None,
        password: None,
        update_rate: None,
        topics: None,
    }
}

fn gps_request() -> CreateGpsPayload {
    CreateGpsPayload { latitude: 0, longitude: 0, sog: 10_000, cog: 90_000_000, is_running: true }
}

fn subscribe(registry: &mut Registry) -> UnboundedReceiver<String> {
    let (tx, rx) = unbounded_channel::<String>();
    registry.register(tx);
    rx
}

fn drain(rx: &mut UnboundedReceiver<String>) -> Vec<String> {
    let mut out = Vec::new();
    while let Ok(m) = rx.try_recv() {
        out.push(m);
    }
    out
}

// The great-circle advance, as the caller of the two halves of a step computes it.
fn destination(d: &GpsData, distance_mm: u128) -> (i64, i64) {
    let lat = (d.latitude as f64 / 1e6).to_radians();
    let lon = d.longitude as f64 / 1e6;
    let course = (d.cog as f64 / 1e6).to_radians();
    let ang = distance_mm as f64 / 1000.0 / 6_371_000.0;
    let new_lat = (lat.sin() * ang.cos() + lat.cos() * ang.sin() * course.cos()).asin();
    let dlon = (course.sin() * ang.sin() * lat.cos()).atan2(ang.cos() - lat.sin() * new_lat.sin());
    ((new_lat.to_degrees() * 1e6).round() as i64, ((lon + dlon.to_degrees()) * 1e6).round() as i64)
}

#[test]
fn start_without_port_is_refused() {
    let mut config = complete_gps_config();
    config.port = None;
    let mut slot: Option<GpsData> = None;
    assert_eq!(create_gps(&mut slot, &config, gps_request(), 0, 1), Err(ApiError::ConfigIncomplete));
    assert!(slot.is_none());

    let mut gyro_config = complete_gyro_config();
    gyro_config.port = None;
    let mut gyro_slot: Option<GyroData> = None;
    let req = CreateGyroPayload { yaw: 0, pitch: 0, roll: 0, yaw_rate: 0, is_running: true };
    assert_eq!(create_gyro(&mut gyro_slot, &gyro_config, req, 1), Err(ApiError::ConfigIncomplete));
    assert!(gyro_slot.is_none());
}

#[test]
fn start_by_patch_needs_complete_config() {
    let config = complete_gps_config();
    let mut slot: Option<GpsData> = None;
    let stopped = CreateGpsPayload { is_running: false, ..gps_request() };
    let created = create_gps(&mut slot, &config, stopped, 5, 1).unwrap();
    assert!(!created.is_running);

    let mut no_interval = complete_gps_config();
    no_interval.update_rate = None;
    let start = UpdateGpsPayload { is_running: Some(true), ..Default::default() };
    assert_eq!(update_gps(&mut slot, &no_interval, start, 2), Err(ApiError::ConfigIncomplete));
    assert_eq!(slot, Some(created));

    let started = update_gps(&mut slot, &config, start, 3).unwrap();
    assert!(started.is_running);
    assert_eq!(started.last_update, 3);
    assert_eq!(started.variation, 5);
}

#[test]
fn create_validates_every_field() {
    let config = complete_gps_config();
    let mut slot: Option<GpsData> = None;
    let cases = [
        (CreateGpsPayload { latitude: 90_000_001, ..gps_request() }, ApiError::InvalidLatitude),
        (CreateGpsPayload { longitude: -180_000_001, ..gps_request() }, ApiError::InvalidLongitude),
        (CreateGpsPayload { sog: -1, ..gps_request() }, ApiError::InvalidSpeed),
        (CreateGpsPayload { cog: 360_000_000, ..gps_request() }, ApiError::InvalidCourse),
        (CreateGpsPayload { cog: -1, ..gps_request() }, ApiError::InvalidCourse),
    ];
    for (req, err) in cases {
        assert_eq!(create_gps(&mut slot, &config, req, 0, 0), Err(err));
        assert!(slot.is_none());
    }
    let req = CreateGpsPayload { sog: 150_000, cog: 359_999_999, ..gps_request() };
    let d = create_gps(&mut slot, &config, req, 0, 0).unwrap();
    assert_eq!(d.sog, 102_200);
    assert_eq!(d.cog, 359_999_999);
    assert_eq!(create_gps(&mut slot, &config, gps_request(), 0, 0), Err(ApiError::AlreadyExists));
}

#[test]
fn patch_validates_and_applies_present_fields() {
    let config = complete_gps_config();
    let mut slot: Option<GpsData> = None;
    let missing = UpdateGpsPayload { sog: Some(1), ..Default::default() };
    assert_eq!(update_gps(&mut slot, &config, missing, 0), Err(ApiError::NotFound));
    create_gps(&mut slot, &config, gps_request(), 0, 0).unwrap();
    let bad = UpdateGpsPayload { latitude: Some(-91_000_000), ..Default::default() };
    assert_eq!(update_gps(&mut slot, &config, bad, 0), Err(ApiError::InvalidLatitude));
    let bad = UpdateGpsPayload { longitude: Some(181_000_000), ..Default::default() };
    assert_eq!(update_gps(&mut slot, &config, bad, 0), Err(ApiError::InvalidLongitude));
    let bad = UpdateGpsPayload { sog: Some(-2), ..Default::default() };
    assert_eq!(update_gps(&mut slot, &config, bad, 0), Err(ApiError::InvalidSpeed));
    let bad = UpdateGpsPayload { cog: Some(-1), ..Default::default() };
    assert_eq!(update_gps(&mut slot, &config, bad, 0), Err(ApiError::InvalidCourse));
    let bad = UpdateGpsPayload { cog: Some(360_000_000), latitude: Some(1), ..Default::default() };
    assert_eq!(update_gps(&mut slot, &config, bad, 0), Err(ApiError::InvalidCourse));
    assert_eq!(slot.unwrap().latitude, 0);
    let good = UpdateGpsPayload { latitude: Some(45_000_000), sog: Some(200_000), ..Default::default() };
    let d = update_gps(&mut slot, &config, good, 9).unwrap();
    assert_eq!((d.latitude, d.longitude, d.sog, d.cog), (45_000_000, 0, 102_200, 90_000_000));
    assert_eq!(slot, Some(d));
}

#[test]
fn gyro_create_patch_and_delete() {
    let config = complete_gyro_config();
    let mut slot: Option<GyroData> = None;
    let base = CreateGyroPayload { yaw: 0, pitch: 1, roll: 2, yaw_rate: 3, is_running: true };
    let bad = CreateGyroPayload { yaw: 360_000_000, ..base };
    assert_eq!(create_gyro(&mut slot, &config, bad, 0), Err(ApiError::InvalidYaw));
    let bad = CreateGyroPayload { pitch: 91_000_000, ..base };
    assert_eq!(create_gyro(&mut slot, &config, bad, 0), Err(ApiError::InvalidPitch));
    let bad = CreateGyroPayload { roll: -91_000_000, ..base };
    assert_eq!(create_gyro(&mut slot, &config, bad, 0), Err(ApiError::InvalidRoll));
    let bad = CreateGyroPayload { yaw: -1, ..base };
    assert_eq!(create_gyro(&mut slot, &config, bad, 0), Err(ApiError::InvalidYaw));
    let d = create_gyro(&mut slot, &config, base, 4).unwrap();
    assert_eq!(d.yaw, 0);
    assert_eq!(create_gyro(&mut slot, &config, base, 0), Err(ApiError::AlreadyExists));

    let bad = UpdateGyroPayload { yaw: Some(360_000_000), ..Default::default() };
    assert_eq!(update_gyro(&mut slot, &config, bad, 0), Err(ApiError::InvalidYaw));
    let good = UpdateGyroPayload { yaw_rate: Some(-5), roll: Some(-3), ..Default::default() };
    let d = update_gyro(&mut slot, &config, good, 6).unwrap();
    assert_eq!((d.yaw, d.pitch, d.roll, d.yaw_rate, d.last_update), (0, 1, -3, -5, 6));

    let mut registry = Registry::new();
    let mut rx = subscribe(&mut registry);
    assert_eq!(delete_gyro(&mut slot, &mut registry), Ok(()));
    assert!(slot.is_none());
    assert_eq!(drain(&mut rx), vec!["{\"type\":\"gyro_delete\"}".to_string()]);
    assert_eq!(delete_gyro(&mut slot, &mut registry), Err(ApiError::NotFound));
    assert!(drain(&mut rx).is_empty());
}

#[test]
fn delete_sensor_notifies_then_clears() {
    let config = complete_gps_config();
    let mut slot: Option<GpsData> = None;
    let mut registry = Registry::new();
    let mut rx = subscribe(&mut registry);
    assert_eq!(delete_gps(&mut slot, &mut registry), Err(ApiError::NotFound));
    assert!(drain(&mut rx).is_empty());
    create_gps(&mut slot, &config, gps_request(), 0, 0).unwrap();
    assert_eq!(delete_gps(&mut slot, &mut registry), Ok(()));
    assert_eq!(drain(&mut rx), vec!["{\"type\":\"gps_delete\"}".to_string()]);
    assert!(slot.is_none());
}

#[test]
fn delete_config_clears_state_and_notifies_once() {
    let mut config = complete_gps_config();
    let mut slot: Option<GpsData> = None;
    create_gps(&mut slot, &config, gps_request(), 0, 0).unwrap();
    let mut registry = Registry::new();
    let mut first = subscribe(&mut registry);
    let mut second = subscribe(&mut registry);
    let signal = delete_config(&mut config, &mut slot, &mut registry);
    assert_eq!(signal, ConfigUpdate::Gps);
    let expected = vec!["{\"type\":\"gps_delete\"}".to_string()];
    assert_eq!(drain(&mut first), expected);
    assert_eq!(drain(&mut second), expected);
    // a later read finds nothing
    assert!(slot.is_none());
    assert!(config.ip.is_none() && config.port.is_none() && config.update_rate.is_none());
    assert!(config.topics.is_none() && config.username.is_none() && config.password.is_none());
    assert_eq!(registry.len(), 2);
}

#[test]
fn one_tick_end_to_end() {
    let config = complete_gps_config();
    let mut slot: Option<GpsData> = None;
    create_gps(&mut slot, &config, gps_request(), 0, 0).unwrap();
    let mut registry = Registry::new();
    let mut rx = subscribe(&mut registry);
    let mut manager = MqttManager::new(SensorKind::Gps);
    assert!(matches!(manager.on_tick(config.connect_params()), LinkAction::Connect(_)));
    manager.on_handshake();

    let dt = config.cadence_ms();
    assert_eq!(dt, 1000);
    let leg = gps_tick_begin(&mut slot, dt).unwrap();
    let (lat, lon) = destination(&slot.unwrap(), leg.distance_mm);
    let message = gps_tick_complete(&mut slot, lat, lon, 0, 1000).unwrap();
    let d = slot.unwrap();
    assert!(d.longitude > 0 && d.longitude < 1_000);
    assert!(d.latitude.abs() <= 1);
    assert!(matches!(message, SensorMessage::GpsUpdate(m) if m == d));

    let data = format!("{{\"latitude\":{},\"longitude\":{}}}", d.latitude, d.longitude);
    let publication = dispatch(&mut registry, &manager, &message, &data, config.publish_topics());
    assert_eq!(publication.topics, vec!["vessel/gps".to_string()]);
    let received = drain(&mut rx);
    assert_eq!(received.len(), 1);
    assert!(received[0].starts_with("{\"type\":\"gps_update\",\"data\":"));
    assert_eq!(received[0], publication.payload);
}

#[test]
fn stopped_or_absent_sensor_does_not_tick() {
    let config = complete_gps_config();
    let mut slot: Option<GpsData> = None;
    assert!(gps_tick_begin(&mut slot, 1000).is_none());
    assert!(gps_tick_complete(&mut slot, 1, 1, 0, 0).is_none());
    let stopped = CreateGpsPayload { is_running: false, ..gps_request() };
    let d = create_gps(&mut slot, &config, stopped, 0, 0).unwrap();
    assert!(gps_tick_begin(&mut slot, 1000).is_none());
    assert!(gps_tick_complete(&mut slot, 1, 1, 0, 0).is_none());
    assert_eq!(slot, Some(d));

    let mut gyro: Option<GyroData> = None;
    assert!(gyro_tick(&mut gyro, 1000, 0, 0, 0).is_none());
    gyro = Some(GyroData { yaw: 0, pitch: 0, roll: 0, yaw_rate: 1_000_000, is_running: true, last_update: 0 });
    let message = gyro_tick(&mut gyro, 2000, 0, 0, 5).unwrap();
    assert!(matches!(message, SensorMessage::GyroUpdate(g) if g.yaw == 2_000_000 && g.last_update == 5));
}

#[test]
fn broadcast_prunes_the_closed_subscriber() {
    let mut registry = Registry::new();
    let mut a = subscribe(&mut registry);
    let b = subscribe(&mut registry);
    let mut c = subscribe(&mut registry);
    drop(b);
    let delivered = registry.broadcast(&"hello".to_string());
    assert_eq!(delivered, vec![true, false, true]);
    assert_eq!(registry.len(), 2);
    assert_eq!(drain(&mut a), vec!["hello".to_string()]);
    assert_eq!(drain(&mut c), vec!["hello".to_string()]);
    let delivered = registry.broadcast(&"again".to_string());
    assert_eq!(delivered, vec![true, true]);
}

#[test]
fn prune_drops_only_closed_queues() {
    let mut registry = Registry::new();
    let mut a = subscribe(&mut registry);
    let mut b = subscribe(&mut registry);
    b.close();
    assert_eq!(registry.prune_closed(), vec![true, false]);
    assert_eq!(registry.len(), 1);
    registry.broadcast(&"x".to_string());
    assert_eq!(drain(&mut a), vec!["x".to_string()]);
    assert!(drain(&mut b).is_empty());
}

#[test]
fn dispatch_skips_broker_while_disconnected() {
    let mut registry = Registry::new();
    let mut rx = subscribe(&mut registry);
    let manager = MqttManager::new(SensorKind::Gyro);
    let g = GyroData { yaw: 0, pitch: 0, roll: 0, yaw_rate: 0, is_running: true, last_update: 0 };
    let message = SensorMessage::GyroUpdate(g);
    let publication = dispatch(&mut registry, &manager, &message, "{}", vec!["t".to_string()]);
    assert!(publication.topics.is_empty());
    assert_eq!(publication.payload, "{\"type\":\"gyro_update\",\"data\":{}}");
    assert_eq!(drain(&mut rx), vec![publication.payload.clone()]);
}

#[test]
fn envelopes_are_framed_exactly() {
    assert_eq!(frame_update(SensorKind::Gps, "[1]"), "{\"type\":\"gps_update\",\"data\":[1]}");
    assert_eq!(frame_delete(SensorKind::Gps), "{\"type\":\"gps_delete\"}");
    assert_eq!(frame_delete(SensorKind::Gyro), "{\"type\":\"gyro_delete\"}");
}

#[test]
fn host_change_triggers_one_reconnect() {
    let mut config = complete_gps_config();
    let mut manager = MqttManager::new(SensorKind::Gps);
    assert!(matches!(manager.on_tick(config.connect_params()), LinkAction::Connect(_)));
    assert_eq!(manager.phase, LinkPhase::Connecting);
    manager.on_handshake();
    assert!(manager.may_publish());

    let patch = UpdateGpsConfigPayload { ip: Some("10.0.0.2".to_string()), ..empty_patch() };
    let target = probe_target(&config, &patch).unwrap();
    assert_eq!(target, ("10.0.0.2".to_string(), 1883));
    let signal = update_config(&mut config, patch, true).unwrap();
    assert_eq!(signal, Some(ConfigUpdate::Gps));

    assert!(matches!(manager.on_config_update(ConfigUpdate::Gps), LinkAction::CancelKeepAlive));
    assert_eq!(manager.phase, LinkPhase::Disconnected);
    assert!(matches!(manager.on_config_update(ConfigUpdate::Gps), LinkAction::Stay));
    match manager.on_tick(config.connect_params()) {
        LinkAction::Connect(ConnectParams { host, port, credentials }) => {
            assert_eq!((host.as_str(), port), ("10.0.0.2", 1883));
            assert!(credentials.is_none());
        },
        other => panic!("expected a connection attempt, got {:?}", other),
    }
    assert!(matches!(manager.on_tick(config.connect_params()), LinkAction::Stay));
    manager.on_handshake();
    assert!(matches!(manager.on_tick(config.connect_params()), LinkAction::Stay));
    assert!(matches!(manager.on_config_update(ConfigUpdate::Gyro), LinkAction::Stay));
    assert_eq!(manager.phase, LinkPhase::Connected);
    manager.on_link_lost();
    assert!(!manager.may_publish());
}

#[test]
fn config_patch_without_connection_change_does_not_reconnect() {
    let mut config = complete_gps_config();
    let patch = UpdateGpsConfigPayload {
        update_rate: Some(250),
        topics: Some(vec!["a".to_string(), "b".to_string()]),
        ..empty_patch()
    };
    assert_eq!(update_config(&mut config, patch, true), Ok(None));
    assert_eq!(config.cadence_ms(), 250);
    assert_eq!(config.publish_topics(), vec!["a".to_string(), "b".to_string()]);
    assert_eq!(config.ip.as_deref(), Some("127.0.0.1"));

    let creds = UpdateGpsConfigPayload {
        username: Some("user".to_string()),
        password: Some("SECRET-REDACTED".to_string()),
        ..empty_patch()
    };
    assert_eq!(update_config(&mut config, creds, true), Ok(Some(ConfigUpdate::Gps)));
    let params = config.connect_params().unwrap();
    assert_eq!(params.credentials, Some(("user".to_string(), "SECRET-REDACTED".to_string())));
}

#[test]
fn unreachable_broker_refuses_config_change() {
    let mut config = complete_gps_config();
    let patch = UpdateGpsConfigPayload { port: Some(1), ..empty_patch() };
    assert_eq!(update_config(&mut config, patch, false), Err(ApiError::BrokerUnreachable));
    assert_eq!(config.port, Some(1883));

    let mut blank = GpsConfig::default();
    assert!(probe_target(&blank, &empty_patch()).is_none());
    let patch = UpdateGpsConfigPayload { update_rate: Some(10), ..empty_patch() };
    assert_eq!(update_config(&mut blank, patch, false), Ok(None));
    assert_eq!(blank.cadence_ms(), 10);
    assert!(!blank.is_complete());
    assert_eq!(GpsConfig::default().cadence_ms(), 1000);
    assert!(GpsConfig::default().publish_topics().is_empty());
}
