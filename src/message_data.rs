//! Sensor kinds, the notifications the update engine emits, and the tagged
//! `{type, data}` envelope every update and deletion is delivered in.
use vstd::prelude::*;
use vstd::string::*;
use crate::gps_data::GpsData;
use crate::gyro_data::GyroData;

verus! {

/// One of the two simulated instruments.
#[derive(Clone, Copy, Debug, PartialEq, Eq, Structural)]
pub enum SensorKind {
    Gps,
    Gyro,
}

/// A state-changed notification: a snapshot of the new state.
#[derive(Clone, Copy, Debug)]
pub enum SensorMessage {
    GpsUpdate(GpsData),
    GyroUpdate(GyroData),
}

impl SensorMessage {
    /// The kind of sensor the snapshot belongs to.
    pub open spec fn kind_spec(&self) -> SensorKind {
        match self {
            SensorMessage::GpsUpdate(_) => SensorKind::Gps,
            SensorMessage::GyroUpdate(_) => SensorKind::Gyro,
        }
    }

    /// The kind of sensor the snapshot belongs to.
    pub fn kind(&self) -> (r: SensorKind)
        ensures
            r == self.kind_spec(),
    {
        match self {
            SensorMessage::GpsUpdate(_) => SensorKind::Gps,
            SensorMessage::GyroUpdate(_) => SensorKind::Gyro,
        }
    }
}

/// The name a kind goes by in envelope types.
pub open spec fn kind_tag(kind: SensorKind) -> Seq<char> {
    match kind {
        SensorKind::Gps => "gps"@,
        SensorKind::Gyro => "gyro"@,
    }
}

/// `{"type":"<kind>_update","data":<data>}`.
pub open spec fn update_envelope(kind: SensorKind, data: Seq<char>) -> Seq<char> {
    "{\"type\":\""@ + kind_tag(kind) + "_update\",\"data\":"@ + data + "}"@
}

/// `{"type":"<kind>_delete"}`.
pub open spec fn delete_envelope(kind: SensorKind) -> Seq<char> {
    "{\"type\":\""@ + kind_tag(kind) + "_delete\"}"@
}

fn tag_of(kind: SensorKind) -> (r: &'static str)
    ensures
        r@ == kind_tag(kind),
{
    match kind {
        SensorKind::Gps => "gps",
        SensorKind::Gyro => "gyro",
    }
}

/// Wraps the serialised snapshot `data` in the update envelope of `kind`.
pub fn frame_update(kind: SensorKind, data: &str) -> (r: String)
    ensures
        r@ == update_envelope(kind, data@),
{
    let mut out = String::from_str("{\"type\":\"");
    out.append(tag_of(kind));
    out.append("_update\",\"data\":");
    out.append(data);
    out.append("}");
    out
}

/// The terminal notification of `kind`, sent when its sensor goes away.
pub fn frame_delete(kind: SensorKind) -> (r: String)
    ensures
        r@ == delete_envelope(kind),
{
    let mut out = String::from_str("{\"type\":\"");
    out.append(tag_of(kind));
    out.append("_delete\"}");
    out
}

} // verus!
