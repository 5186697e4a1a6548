//! Messages exchanged between a client (controller or host) and the
//! signaling server: auth, device registry, pairing, and SDP/ICE relay.
//! Their JSON encoding (`{"type": ..., "data": ...}`) is done outside the
//! library by copies of these types that carry serde derives.

use vstd::prelude::*;

verus! {

/// A message from a client to the signaling server.
#[derive(Debug, Clone)]
pub enum ClientMessage {
    Register { email: String, password: String },
    Login { email: String, password: String },
    /// Sent once authenticated, to announce this device and obtain a device ID.
    RegisterDevice { name: String },
    ListDevices,
    /// Controller side: initiate a connection to a host device.
    RequestConnection { target_device_id: String, credential: ConnectCredential },
    SdpOffer { session_id: String, sdp: String },
    SdpAnswer { session_id: String, sdp: String },
    IceCandidate { session_id: String, candidate: String },
    RequestTurnCredentials,
    /// Account holder pushing a new unattended-access password to a device they own.
    SetUnattendedPassword { target_device_id: String, password: String },
}

/// What a controller presents to reach a host.
#[derive(Debug, Clone)]
pub enum ConnectCredential {
    OneTimePassword(String),
    UnattendedPassword(String),
}

/// A message from the signaling server to a client.
#[derive(Debug, Clone)]
pub enum ServerMessage {
    AuthOk { session_token: String },
    AuthError { message: String },
    /// Returned after `RegisterDevice`; the one-time password is the
    /// rotating attended-access password shown on the host machine.
    DeviceRegistered { device_id: String, one_time_password: String },
    DeviceList { devices: Vec<DeviceSummary> },
    /// Delivered to a host's connection when a controller wants in.
    IncomingConnection { session_id: String, from_device_id: Option<String> },
    /// Sent back to the requester once `RequestConnection` is accepted.
    ConnectionEstablished { session_id: String, target_device_id: String },
    SdpOffer { session_id: String, sdp: String },
    SdpAnswer { session_id: String, sdp: String },
    IceCandidate { session_id: String, candidate: String },
    /// Short-lived TURN credentials.
    TurnCredentials { urls: Vec<String>, username: String, password: String, ttl_secs: u32 },
    /// Pushed to a host when its unattended-access password is changed.
    UnattendedPasswordUpdated { password: String },
    Error { message: String },
}

/// One device of an account, as listed to its owner.
#[derive(Debug, Clone)]
pub struct DeviceSummary {
    pub device_id: String,
    pub name: String,
    pub online: bool,
    pub unattended_access_enabled: bool,
}

} // verus!
