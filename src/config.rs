//! What the configuration of either sensor kind means, independent of the kind:
//! the abstract view of a configuration, how a partial patch applies to it, when
//! it is complete enough to run, and what a broker connection is made from.
use vstd::prelude::*;

verus! {

/// The publish interval used while none is configured, in milliseconds.
pub const DEFAULT_INTERVAL_MS: u64 = 1000;

/// The abstract content of a sensor configuration, and also of a patch to one
/// (where a present field overwrites and an absent one keeps the old value).
pub struct ConfigView {
    pub ip: Option<Seq<char>>,
    pub port: Option<u16>,
    pub username: Option<Seq<char>>,
    pub password: Option<Seq<char>>,
    pub update_rate: Option<u64>,
    pub topics: Option<Seq<Seq<char>>>,
}

/// A present value overwrites, an absent one keeps `old`.
pub open spec fn overlay<T>(old: Option<T>, new: Option<T>) -> Option<T> {
    match new {
        Some(v) => Some(v),
        None => old,
    }
}

impl ConfigView {
    /// The configuration with every field unset.
    pub open spec fn empty() -> ConfigView {
        ConfigView {
            ip: None,
            port: None,
            username: None,
            password: None,
            update_rate: None,
            topics: None,
        }
    }

    /// Each field present in `patch` overwrites; absent fields keep their value.
    pub open spec fn patched(self, patch: ConfigView) -> ConfigView {
        ConfigView {
            ip: overlay(self.ip, patch.ip),
            port: overlay(self.port, patch.port),
            username: overlay(self.username, patch.username),
            password: overlay(self.password, patch.password),
            update_rate: overlay(self.update_rate, patch.update_rate),
            topics: overlay(self.topics, patch.topics),
        }
    }

    /// A sensor may be created or started only when host, port and interval are set.
    pub open spec fn complete(self) -> bool {
        self.ip.is_some() && self.port.is_some() && self.update_rate.is_some()
    }

    /// A broker connection can be attempted once host and port are set.
    pub open spec fn has_target(self) -> bool {
        self.ip.is_some() && self.port.is_some()
    }

    /// Whether the fields a broker connection is made from differ.
    pub open spec fn connection_differs(self, other: ConfigView) -> bool {
        self.ip != other.ip || self.port != other.port || self.username != other.username
            || self.password != other.password
    }

    /// The update cadence: the configured interval, or one second when unset.
    pub open spec fn cadence(self) -> u64 {
        match self.update_rate {
            Some(r) => r,
            None => DEFAULT_INTERVAL_MS,
        }
    }

    /// The topics updates go to: the configured list, or none when unset.
    pub open spec fn topic_list(self) -> Seq<Seq<char>> {
        match self.topics {
            Some(t) => t,
            None => Seq::empty(),
        }
    }
}

/// What a broker connection is opened with: host, port and, when both a user
/// name and a password are configured, the credentials.
#[derive(Debug)]
pub struct ConnectParams {
    pub host: String,
    pub port: u16,
    pub credentials: Option<(String, String)>,
}

impl ConnectParams {
    /// Whether these parameters are the ones configuration `c` gives.
    pub open spec fn taken_from(self, c: ConfigView) -> bool {
        &&& c.ip == Some(self.host@)
        &&& c.port == Some(self.port)
        &&& match self.credentials {
            Some((u, p)) => c.username == Some(u@) && c.password == Some(p@),
            None => c.username.is_none() || c.password.is_none(),
        }
    }
}

/// A patch that changes the host or the port changes the connection: applying
/// it is answered with a reconnect signal.
pub proof fn lemma_target_change_reconnects(old: ConfigView, patch: ConfigView)
    requires
        old.patched(patch).ip != old.ip || old.patched(patch).port != old.port,
    ensures
        old.connection_differs(old.patched(patch)),
{
}

/// A copy of an optional string, equal in content.
pub fn copy_text(s: &Option<String>) -> (r: Option<String>)
    ensures
        r.deep_view() == s.deep_view(),
{
    match s {
        Some(t) => Some(t.clone()),
        None => None,
    }
}

/// Whether two optional strings are equal in content.
pub fn same_text(a: &Option<String>, b: &Option<String>) -> (r: bool)
    ensures
        r == (a.deep_view() == b.deep_view()),
{
    match (a, b) {
        (Some(x), Some(y)) => *x == *y,
        (None, None) => true,
        _ => false,
    }
}

/// The broker connection parameters of a configuration, when host and port are set.
pub fn params_from(
    ip: &Option<String>,
    port: Option<u16>,
    username: &Option<String>,
    password: &Option<String>,
) -> (r: Option<ConnectParams>)
    ensures
        r.is_some() == (ip.is_some() && port.is_some()),
        r matches Some(p) ==> p.taken_from(
            ConfigView {
                ip: ip.deep_view(),
                port,
                username: username.deep_view(),
                password: password.deep_view(),
                update_rate: None,
                topics: None,
            },
        ),
{
    match (ip, port) {
        (Some(host), Some(port)) => {
            let credentials = match (username, password) {
                (Some(u), Some(p)) => Some((u.clone(), p.clone())),
                _ => None,
            };
            Some(ConnectParams { host: host.clone(), port, credentials })
        },
        _ => None,
    }
}

/// A copy of the configured topic list, or an empty list when none is set.
pub fn topics_or_empty(topics: &Option<Vec<String>>) -> (r: Vec<String>)
    ensures
        r.deep_view() == (match topics.deep_view() {
            Some(t) => t,
            None => Seq::empty(),
        }),
{
    let mut out: Vec<String> = Vec::new();
    match topics {
        Some(list) => {
            let mut i: usize = 0;
            while i < list.len()
                invariant
                    i <= list.len(),
                    out@.len() == i,
                    forall|j: int| 0 <= j < i ==> #[trigger] out@[j]@ == list@[j]@,
                decreases list.len() - i,
            {
                out.push(list[i].clone());
                i = i + 1;
            }
            assert(out.deep_view() =~= list.deep_view());
        },
        None => {
            assert(out.deep_view() =~= Seq::<Seq<char>>::empty());
        },
    }
    out
}

} // verus!
