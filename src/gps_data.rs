//! The position sensor's state, its configuration and the payloads that create
//! and patch them.
use vstd::prelude::*;
use crate::config::{params_from, topics_or_empty, ConfigView, ConnectParams, DEFAULT_INTERVAL_MS};
use crate::units::{FULL_TURN, HALF_TURN, MAX_SPEED, QUARTER_TURN};

verus! {

/// The state of the position sensor. Angles are microdegrees, the speed over
/// ground is in thousandths of a knot, `last_update` is milliseconds since the
/// Unix epoch.
#[derive(Clone, Copy, Debug, PartialEq, Eq, Structural)]
pub struct GpsData {
    pub latitude: i64,
    pub longitude: i64,
    pub sog: i64,
    pub cog: i64,
    pub variation: i64,
    pub is_running: bool,
    pub last_update: i64,
}

impl GpsData {
    /// Latitude in `[-90, 90]`, longitude in `[-180, 180]`, speed in
    /// `[0, 102.2]` knots and course in `[0, 360)`.
    pub open spec fn wf(self) -> bool {
        &&& -QUARTER_TURN <= self.latitude <= QUARTER_TURN
        &&& -HALF_TURN <= self.longitude <= HALF_TURN
        &&& 0 <= self.sog <= MAX_SPEED
        &&& 0 <= self.cog < FULL_TURN
    }
}

/// Broker connection parameters, publish interval (milliseconds) and topics of
/// the position sensor. Every field may be unset.
#[derive(Clone, Debug)]
pub struct GpsConfig {
    pub ip: Option<String>,
    pub port: Option<u16>,
    pub username: Option<String>,
    pub password: Option<String>,
    pub update_rate: Option<u64>,
    pub topics: Option<Vec<String>>,
}

/// A partial update of [`GpsConfig`]: present fields overwrite.
#[derive(Debug)]
pub struct UpdateGpsConfigPayload {
    pub ip: Option<String>,
    pub port: Option<u16>,
    pub username: Option<String>,
    pub password: Option<String>,
    pub update_rate: Option<u64>,
    pub topics: Option<Vec<String>>,
}

/// The values a position sensor is created with.
#[derive(Clone, Copy, Debug)]
pub struct CreateGpsPayload {
    pub latitude: i64,
    pub longitude: i64,
    pub sog: i64,
    pub cog: i64,
    pub is_running: bool,
}

/// A partial update of [`GpsData`]: present fields overwrite.
#[derive(Clone, Copy, Debug, Default)]
pub struct UpdateGpsPayload {
    pub latitude: Option<i64>,
    pub longitude: Option<i64>,
    pub sog: Option<i64>,
    pub cog: Option<i64>,
    pub is_running: Option<bool>,
}

impl View for GpsConfig {
    type V = ConfigView;

    open spec fn view(&self) -> ConfigView {
        ConfigView {
            ip: self.ip.deep_view(),
            port: self.port,
            username: self.username.deep_view(),
            password: self.password.deep_view(),
            update_rate: self.update_rate,
            topics: self.topics.deep_view(),
        }
    }
}

impl View for UpdateGpsConfigPayload {
    type V = ConfigView;

    open spec fn view(&self) -> ConfigView {
        ConfigView {
            ip: self.ip.deep_view(),
            port: self.port,
            username: self.username.deep_view(),
            password: self.password.deep_view(),
            update_rate: self.update_rate,
            topics: self.topics.deep_view(),
        }
    }
}

impl Default for GpsConfig {
    fn default() -> (r: GpsConfig)
        ensures
            r@ == ConfigView::empty(),
    {
        GpsConfig {
            ip: None,
            port: None,
            username: None,
            password: None,
            update_rate: None,
            topics: None,
        }
    }
}

impl GpsConfig {
    /// Whether host, port and interval are all set.
    pub fn is_complete(&self) -> (r: bool)
        ensures
            r == self@.complete(),
    {
        self.ip.is_some() && self.port.is_some() && self.update_rate.is_some()
    }

    /// The update cadence in milliseconds: the interval, or one second when unset.
    pub fn cadence_ms(&self) -> (r: u64)
        ensures
            r == self@.cadence(),
    {
        match self.update_rate {
            Some(r) => r,
            None => DEFAULT_INTERVAL_MS,
        }
    }

    /// The topics updates are published to; empty when unset.
    pub fn publish_topics(&self) -> (r: Vec<String>)
        ensures
            r.deep_view() == self@.topic_list(),
    {
        topics_or_empty(&self.topics)
    }

    /// A snapshot of what a broker connection is made from, when host and port are set.
    pub fn connect_params(&self) -> (r: Option<ConnectParams>)
        ensures
            r.is_some() == self@.has_target(),
            r matches Some(p) ==> p.taken_from(self@),
    {
        params_from(&self.ip, self.port, &self.username, &self.password)
    }

    /// Applies a partial patch: each present field overwrites.
    pub fn apply_patch(&mut self, patch: UpdateGpsConfigPayload)
        ensures
            final(self)@ == old(self)@.patched(patch@),
    {
        if patch.ip.is_some() {
            self.ip = patch.ip;
        }
        if patch.port.is_some() {
            self.port = patch.port;
        }
        if patch.username.is_some() {
            self.username = patch.username;
        }
        if patch.password.is_some() {
            self.password = patch.password;
        }
        if patch.update_rate.is_some() {
            self.update_rate = patch.update_rate;
        }
        if patch.topics.is_some() {
            self.topics = patch.topics;
        }
    }
}

} // verus!
