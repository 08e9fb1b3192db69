//! The broker connection lifecycle of one sensor kind, as a state machine:
//! `Disconnected -> Connecting -> Connected`, with a configuration change
//! sending any state back to `Disconnected`. The machine decides; the caller
//! performs what it decides (opening a connection, cancelling the keep-alive
//! task that serves the previous one) and reports what happened.
use vstd::prelude::*;
use crate::config::ConnectParams;
use crate::message_data::SensorKind;

verus! {

/// The signal that the configuration of one sensor kind changed.
#[derive(Clone, Copy, Debug, PartialEq, Eq, Structural)]
pub enum ConfigUpdate {
    Gps,
    Gyro,
}

impl ConfigUpdate {
    /// The sensor kind whose configuration changed.
    pub open spec fn spec_kind(self) -> SensorKind {
        match self {
            ConfigUpdate::Gps => SensorKind::Gps,
            ConfigUpdate::Gyro => SensorKind::Gyro,
        }
    }

    /// The sensor kind whose configuration changed.
    pub fn kind(&self) -> (r: SensorKind)
        ensures
            r == self.spec_kind(),
    {
        match self {
            ConfigUpdate::Gps => SensorKind::Gps,
            ConfigUpdate::Gyro => SensorKind::Gyro,
        }
    }

    /// The signal for a change to the configuration of `kind`.
    pub fn of(kind: SensorKind) -> (r: ConfigUpdate)
        ensures
            r.spec_kind() == kind,
    {
        match kind {
            SensorKind::Gps => ConfigUpdate::Gps,
            SensorKind::Gyro => ConfigUpdate::Gyro,
        }
    }
}

/// Where the broker connection stands.
#[derive(Clone, Copy, Debug, PartialEq, Eq, Structural)]
pub enum LinkPhase {
    Disconnected,
    Connecting,
    Connected,
}

/// What the caller is to do after an event.
#[derive(Debug)]
pub enum LinkAction {
    /// Nothing.
    Stay,
    /// Open a connection with these parameters and start its keep-alive task.
    Connect(ConnectParams),
    /// Cancel the keep-alive task of the current connection and drop it.
    CancelKeepAlive,
}

/// The connection manager of one sensor kind.
#[derive(Debug)]
pub struct MqttManager {
    pub kind: SensorKind,
    pub phase: LinkPhase,
}

impl MqttManager {
    /// Whether a connection, and so a keep-alive task, is live.
    pub open spec fn live(self) -> bool {
        self.phase != LinkPhase::Disconnected
    }

    /// A tick with the current connection parameters (`None` when host or port is
    /// unset): a disconnected manager starts connecting when it can; otherwise
    /// nothing happens.
    pub open spec fn ticked(self, params: Option<ConnectParams>) -> (MqttManager, LinkAction) {
        match params {
            Some(p) if self.phase == LinkPhase::Disconnected => (
                MqttManager { phase: LinkPhase::Connecting, ..self },
                LinkAction::Connect(p),
            ),
            _ => (self, LinkAction::Stay),
        }
    }

    /// A configuration change: for this manager's kind a live connection is
    /// cancelled and the manager disconnects; changes of other kinds are ignored.
    pub open spec fn reconfigured(self, update: ConfigUpdate) -> (MqttManager, LinkAction) {
        if update.spec_kind() != self.kind {
            (self, LinkAction::Stay)
        } else if self.live() {
            (MqttManager { phase: LinkPhase::Disconnected, ..self }, LinkAction::CancelKeepAlive)
        } else {
            (self, LinkAction::Stay)
        }
    }

    /// A disconnected manager for `kind`.
    pub fn new(kind: SensorKind) -> (r: MqttManager)
        ensures
            r.kind == kind,
            r.phase == LinkPhase::Disconnected,
    {
        MqttManager { kind, phase: LinkPhase::Disconnected }
    }

    /// Handles a tick; see [`MqttManager::ticked`].
    pub fn on_tick(&mut self, params: Option<ConnectParams>) -> (r: LinkAction)
        ensures
            (*final(self), r) == old(self).ticked(params),
    {
        match params {
            Some(p) => {
                if self.phase == LinkPhase::Disconnected {
                    self.phase = LinkPhase::Connecting;
                    LinkAction::Connect(p)
                } else {
                    LinkAction::Stay
                }
            },
            None => LinkAction::Stay,
        }
    }

    /// Handles a configuration change; see [`MqttManager::reconfigured`].
    pub fn on_config_update(&mut self, update: ConfigUpdate) -> (r: LinkAction)
        ensures
            (*final(self), r) == old(self).reconfigured(update),
    {
        if update.kind() != self.kind {
            LinkAction::Stay
        } else if self.phase != LinkPhase::Disconnected {
            self.phase = LinkPhase::Disconnected;
            LinkAction::CancelKeepAlive
        } else {
            LinkAction::Stay
        }
    }

    /// The broker acknowledged the connection being opened.
    pub fn on_handshake(&mut self)
        ensures
            final(self).kind == old(self).kind,
            final(self).phase == (if old(self).phase == LinkPhase::Connecting {
                LinkPhase::Connected
            } else {
                old(self).phase
            }),
    {
        if self.phase == LinkPhase::Connecting {
            self.phase = LinkPhase::Connected;
        }
    }

    /// The keep-alive task ended on its own: the connection is gone, and the
    /// next tick may open a new one.
    pub fn on_link_lost(&mut self)
        ensures
            final(self).kind == old(self).kind,
            final(self).phase == LinkPhase::Disconnected,
    {
        self.phase = LinkPhase::Disconnected;
    }

    /// Whether updates are published to the broker: only while connected.
    pub fn may_publish(&self) -> (r: bool)
        ensures
            r == (self.phase == LinkPhase::Connected),
    {
        self.phase == LinkPhase::Connected
    }
}

/// A configuration change followed by ticks makes exactly one reconnect cycle:
/// the live connection, if any, is cancelled once; the first tick with a
/// usable configuration opens exactly one new connection; and no later tick
/// opens another while that one is live.
pub proof fn lemma_single_reconnect(
    m: MqttManager,
    update: ConfigUpdate,
    first: ConnectParams,
    later: Option<ConnectParams>,
)
    requires
        update.spec_kind() == m.kind,
    ensures
        ({
            let (m1, a1) = m.reconfigured(update);
            let (m2, a2) = m1.ticked(Some(first));
            let (m3, a3) = m2.ticked(later);
            &&& a1 == (if m.live() { LinkAction::CancelKeepAlive } else { LinkAction::Stay })
            &&& !m1.live()
            &&& a2 == LinkAction::Connect(first)
            &&& m2.phase == LinkPhase::Connecting
            &&& a3 == LinkAction::Stay
            &&& m3 == m2
        }),
{
}

/// A live manager never opens a second connection: whatever the tick brings,
/// it neither connects nor changes state.
pub proof fn lemma_no_duplicate_connection(m: MqttManager, params: Option<ConnectParams>)
    requires
        m.live(),
    ensures
        m.ticked(params) == (m, LinkAction::Stay),
{
}

} // verus!
