//! The orientation sensor's state, its configuration and the payloads that
//! create and patch them.
use vstd::prelude::*;
use crate::config::{params_from, topics_or_empty, ConfigView, ConnectParams, DEFAULT_INTERVAL_MS};
use crate::units::{FULL_TURN, QUARTER_TURN};

verus! {

/// The state of the orientation sensor. Angles are microdegrees, the yaw rate
/// is microdegrees per second, `last_update` is milliseconds since the Unix
/// epoch.
#[derive(Clone, Copy, Debug, PartialEq, Eq, Structural)]
pub struct GyroData {
    pub yaw: i64,
    pub pitch: i64,
    pub roll: i64,
    pub yaw_rate: i64,
    pub is_running: bool,
    pub last_update: i64,
}

impl GyroData {
    /// Yaw in `[0, 360)`, pitch and roll in `[-90, 90]`.
    pub open spec fn wf(self) -> bool {
        &&& 0 <= self.yaw < FULL_TURN
        &&& -QUARTER_TURN <= self.pitch <= QUARTER_TURN
        &&& -QUARTER_TURN <= self.roll <= QUARTER_TURN
    }
}

/// Broker connection parameters, publish interval (milliseconds) and topics of
/// the orientation sensor. Every field may be unset.
#[derive(Clone, Debug)]
pub struct GyroConfig {
    pub ip: Option<String>,
    pub port: Option<u16>,
    pub username: Option<String>,
    pub password: Option<String>,
    pub update_rate: Option<u64>,
    pub topics: Option<Vec<String>>,
}

/// A partial update of [`GyroConfig`]: present fields overwrite.
#[derive(Debug)]
pub struct UpdateGyroConfigPayload {
    pub ip: Option<String>,
    pub port: Option<u16>,
    pub username: Option<String>,
    pub password: Option<String>,
    pub update_rate: Option<u64>,
    pub topics: Option<Vec<String>>,
}

/// The values an orientation sensor is created with.
#[derive(Clone, Copy, Debug)]
pub struct CreateGyroPayload {
    pub yaw: i64,
    pub pitch: i64,
    pub roll: i64,
    pub yaw_rate: i64,
    pub is_running: bool,
}

/// A partial update of [`GyroData`]: present fields overwrite.
#[derive(Clone, Copy, Debug, Default)]
pub struct UpdateGyroPayload {
    pub yaw: Option<i64>,
    pub pitch: Option<i64>,
    pub roll: Option<i64>,
    pub yaw_rate: Option<i64>,
    pub is_running: Option<bool>,
}

impl View for GyroConfig {
    type V = ConfigView;

    open spec fn view(&self) -> ConfigView {
        ConfigView {
            ip: self.ip.deep_view(),
            port: self.port,
            username: self.username.deep_view(),
            password: self.password.deep_view(),
            update_rate: self.update_rate,
            topics: self.topics.deep_view(),
        }
    }
}

impl View for UpdateGyroConfigPayload {
    type V = ConfigView;

    open spec fn view(&self) -> ConfigView {
        ConfigView {
            ip: self.ip.deep_view(),
            port: self.port,
            username: self.username.deep_view(),
            password: self.password.deep_view(),
            update_rate: self.update_rate,
            topics: self.topics.deep_view(),
        }
    }
}

impl Default for GyroConfig {
    fn default() -> (r: GyroConfig)
        ensures
            r@ == ConfigView::empty(),
    {
        GyroConfig {
            ip: None,
            port: None,
            username: None,
            password: None,
            update_rate: None,
            topics: None,
        }
    }
}

impl GyroConfig {
    /// Whether host, port and interval are all set.
    pub fn is_complete(&self) -> (r: bool)
        ensures
            r == self@.complete(),
    {
        self.ip.is_some() && self.port.is_some() && self.update_rate.is_some()
    }

    /// The update cadence in milliseconds: the interval, or one second when unset.
    pub fn cadence_ms(&self) -> (r: u64)
        ensures
            r == self@.cadence(),
    {
        match self.update_rate {
            Some(r) => r,
            None => DEFAULT_INTERVAL_MS,
        }
    }

    /// The topics updates are published to; empty when unset.
    pub fn publish_topics(&self) -> (r: Vec<String>)
        ensures
            r.deep_view() == self@.topic_list(),
    {
        topics_or_empty(&self.topics)
    }

    /// A snapshot of what a broker connection is made from, when host and port are set.
    pub fn connect_params(&self) -> (r: Option<ConnectParams>)
        ensures
            r.is_some() == self@.has_target(),
            r matches Some(p) ==> p.taken_from(self@),
    {
        params_from(&self.ip, self.port, &self.username, &self.password)
    }

    /// Applies a partial patch: each present field overwrites.
    pub fn apply_patch(&mut self, patch: UpdateGyroConfigPayload)
        ensures
            final(self)@ == old(self)@.patched(patch@),
    {
        if patch.ip.is_some() {
            self.ip = patch.ip;
        }
        if patch.port.is_some() {
            self.port = patch.port;
        }
        if patch.username.is_some() {
            self.username = patch.username;
        }
        if patch.password.is_some() {
            self.password = patch.password;
        }
        if patch.update_rate.is_some() {
            self.update_rate = patch.update_rate;
        }
        if patch.topics.is_some() {
            self.topics = patch.topics;
        }
    }
}

} // verus!
