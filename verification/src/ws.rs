//! The signaling protocol of one WebSocket connection, as a state machine.
//! Every client connects, logs in, then optionally registers itself as a
//! device (hosts) and/or asks to be paired with another device
//! (controllers); SDP/ICE messages are relayed between the two connections
//! of a pairing session.
//!
//! The storage the protocol consults (accounts and devices) is queried by
//! the caller: a step either answers at once or asks for one storage
//! request, whose reply is the next event.

use vstd::prelude::*;
use crate::accounts::{Account, Device};
use crate::auth::{is_hash_failure, MAX_PASSWORD_BYTES, generate_device_id, generate_one_time_password, generate_session_token, hash_password, password_matches, verify_password, otp_text, device_id_text};
use crate::hub::{spec_relay_target, HubView, SignalingHub};
use crate::ids::{new_uuid, uuid_string, uuid_text};
use crate::signaling::{ClientMessage, ConnectCredential, DeviceSummary, ServerMessage};
use crate::text::{clone_strings, concat2, to_owned};
use crate::turn::{mint_credentials, turn_password, turn_username, TurnConfig};
use vstd::string::StringSliceAdditionalSpecFns;

verus! {

/// Whether the connection has logged in, and as which account.
#[derive(Debug, Clone, Copy, PartialEq, Eq, Structural)]
pub enum ConnState {
    Unauthenticated,
    Authenticated { account_id: i64 },
}

/// A storage request the protocol needs answered.
#[derive(Debug, Clone)]
pub enum DbRequest {
    /// Whether public registration is open.
    RegistrationEnabled,
    /// Create an account (first account becomes admin and closes
    /// registration).
    CreateAccount { email: String, password_hash: String },
    FindAccountByEmail { email: String },
    CreateDevice { device_id: String, account_id: i64, name: String },
    ListDevices { account_id: i64 },
    FindDevice { device_id: String },
    SetUnattendedHash { device_id: String, hash: String },
}

/// The answer to a storage request (an error carries the storage's message).
#[derive(Debug)]
pub enum DbReply {
    /// Whether registration is open; a failed read counts as open.
    RegistrationEnabled(Result<bool, String>),
    AccountCreated(Result<i64, String>),
    AccountFound(Result<Option<Account>, String>),
    DeviceCreated(Result<(), String>),
    DevicesListed(Result<Vec<Device>, String>),
    DeviceFound(Result<Option<Device>, String>),
    HashStored(Result<(), String>),
}

/// A message to deliver to a connection.
#[derive(Debug, Clone)]
pub struct Outgoing {
    pub to: u128,
    pub msg: ServerMessage,
}

/// What one step of the protocol does: messages to deliver, then at most
/// one storage request whose reply is the next event.
#[derive(Debug)]
pub struct Step {
    pub sends: Vec<Outgoing>,
    pub request: Option<DbRequest>,
}

/// The message in progress while a storage request is outstanding.
#[derive(Debug, Clone)]
pub enum Pending {
    Idle,
    Register { email: String, password: String },
    CreateAccount,
    Login { password: String },
    CreateDevice { device_id: String },
    ListDevices,
    ConnectTo { target: String, credential: ConnectCredential },
    SetUnattended { target: String, password: String, account_id: i64 },
    StoreUnattended { target: String, password: String },
}

/// One client connection's protocol state.
pub struct WsConnection {
    pub conn_id: u128,
    pub state: ConnState,
    pub my_device_id: Option<String>,
    pub pending: Pending,
}

/// `o` is an `Error` message with text `text` for `to`.
pub open spec fn error_to(o: Outgoing, to: u128, text: Seq<char>) -> bool {
    o.to == to && (o.msg matches ServerMessage::Error { message } && message@ == text)
}

/// `o` is an `AuthError` message with text `text` for `to`.
pub open spec fn auth_error_to(o: Outgoing, to: u128, text: Seq<char>) -> bool {
    o.to == to && (o.msg matches ServerMessage::AuthError { message } && message@ == text)
}

/// `o` is an `AuthOk` with a fresh 32-character token for `to`.
pub open spec fn auth_ok_to(o: Outgoing, to: u128) -> bool {
    o.to == to && (o.msg matches ServerMessage::AuthOk { session_token } && session_token@.len() == 32)
}

/// The step only sends `o`-shaped message `pred` to one connection.
pub open spec fn only_error(s: Step, to: u128, text: Seq<char>) -> bool {
    s.request is None && s.sends@.len() == 1 && error_to(s.sends@[0], to, text)
}

/// The step only sends one `AuthError`.
pub open spec fn only_auth_error(s: Step, to: u128, text: Seq<char>) -> bool {
    s.request is None && s.sends@.len() == 1 && auth_error_to(s.sends@[0], to, text)
}

/// The step only sends one `AuthOk`.
pub open spec fn only_auth_ok(s: Step, to: u128) -> bool {
    s.request is None && s.sends@.len() == 1 && auth_ok_to(s.sends@[0], to)
}

/// The step sends nothing and asks for `r`.
pub open spec fn only_request(s: Step, r: DbRequest) -> bool {
    s.sends@.len() == 0 && s.request == Some(r)
}

/// The step does nothing at all.
pub open spec fn quiet(s: Step) -> bool {
    s.sends@.len() == 0 && s.request is None
}

/// The registry is untouched.
pub open spec fn same_hub(a: HubView, b: HubView) -> bool {
    a.connections == b.connections && a.online == b.online && a.otp == b.otp && a.sessions == b.sessions
}

/// A device registration reply for `to`, naming `device_id` and carrying
/// the one-time password now stored for it in `v`.
pub open spec fn device_registered_to(o: Outgoing, to: u128, device_id: Seq<char>, v: HubView) -> bool {
    o.to == to && (o.msg matches ServerMessage::DeviceRegistered { device_id: d, one_time_password: p }
        && d@ == device_id && v.otp.contains_key(device_id) && v.otp[device_id] == p@
        && exists|a: nat, b: nat| a < 10000 && b < 10000 && p@ == #[trigger] otp_text(a, b))
}

/// `device` marked online on `conn` in `new`, with a fresh one-time
/// password, and nothing else changed.
pub open spec fn registered_online(old_v: HubView, new_v: HubView, device: Seq<char>, conn: u128) -> bool {
    &&& new_v.connections == old_v.connections
    &&& new_v.sessions == old_v.sessions
    &&& new_v.online == old_v.online.insert(device, conn)
    &&& new_v.otp.contains_key(device)
    &&& new_v.otp == old_v.otp.insert(device, new_v.otp[device])
}

/// The summary a device is listed with.
pub open spec fn summarizes(s: DeviceSummary, d: Device, v: HubView) -> bool {
    &&& s.device_id@ == d.id@
    &&& s.name@ == d.name@
    &&& s.online == v.online.contains_key(d.id@)
    &&& s.unattended_access_enabled == (d.unattended_password_hash is Some)
}

/// Whether a controller's credential admits it to `device`: the device's
/// current one-time password, or a password matching its stored
/// unattended-access hash.
pub open spec fn credential_ok(v: HubView, target: Seq<char>, credential: ConnectCredential, device: Device) -> bool {
    match credential {
        ConnectCredential::OneTimePassword(p) => v.otp.contains_key(target) && v.otp[target] == p@,
        ConnectCredential::UnattendedPassword(pw) => match device.unattended_password_hash {
            Some(h) => password_matches(vstd::utf8::encode_utf8(pw@), h@),
            None => false,
        },
    }
}


/// A password set for unattended access opens the device afterwards. Setting
/// it ends in a `SetUnattendedHash` request whose hash matches the password
/// (`on_db_reply`); once storage hands back that device holding that hash,
/// a connection request with the same password passes the credential check,
/// and `on_db_reply` then pairs the two if the device is online.
pub proof fn lemma_unattended_password_opens(v: HubView, password: String, request: DbRequest, d: Device)
    requires
        request matches DbRequest::SetUnattendedHash { device_id, hash } && password_matches(
            vstd::utf8::encode_utf8(password@),
            hash@,
        ) && d.id == device_id && d.unattended_password_hash == Some(hash),
    ensures
        credential_ok(v, d.id@, ConnectCredential::UnattendedPassword(password), d),
{
}

fn error_step(to: u128, text: String) -> (s: Step)
    ensures
        only_error(s, to, text@),
{
    let mut sends: Vec<Outgoing> = Vec::new();
    sends.push(Outgoing { to, msg: ServerMessage::Error { message: text } });
    Step { sends, request: None }
}

fn auth_error_step(to: u128, text: String) -> (s: Step)
    ensures
        only_auth_error(s, to, text@),
{
    let mut sends: Vec<Outgoing> = Vec::new();
    sends.push(Outgoing { to, msg: ServerMessage::AuthError { message: text } });
    Step { sends, request: None }
}

fn auth_ok_step(to: u128) -> (s: Step)
    ensures
        only_auth_ok(s, to),
{
    let mut sends: Vec<Outgoing> = Vec::new();
    sends.push(Outgoing { to, msg: ServerMessage::AuthOk { session_token: generate_session_token() } });
    Step { sends, request: None }
}

fn request_step(r: DbRequest) -> (s: Step)
    ensures
        only_request(s, r),
{
    Step { sends: Vec::new(), request: Some(r) }
}

fn send_step(o: Outgoing) -> (s: Step)
    ensures
        s.request is None,
        s.sends@ == seq![o],
{
    let mut sends: Vec<Outgoing> = Vec::new();
    sends.push(o);
    Step { sends, request: None }
}

fn quiet_step() -> (s: Step)
    ensures
        quiet(s),
{
    Step { sends: Vec::new(), request: None }
}


/// Connection `to` is told its peer was paired on session `sid`.
pub open spec fn incoming_to(o: Outgoing, to: u128, sid: Seq<char>) -> bool {
    o.to == to && (o.msg matches ServerMessage::IncomingConnection { session_id, from_device_id }
        && session_id@ == sid && from_device_id is None)
}

/// Connection `to` is told its pairing request succeeded.
pub open spec fn established_to(o: Outgoing, to: u128, sid: Seq<char>, target: Seq<char>) -> bool {
    o.to == to && (o.msg matches ServerMessage::ConnectionEstablished { session_id, target_device_id }
        && session_id@ == sid && target_device_id@ == target)
}

impl WsConnection {
    /// A new connection, recorded as open.
    pub fn open(conn_id: u128, hub: &mut SignalingHub) -> (r: WsConnection)
        ensures
            r.conn_id == conn_id,
            r.state == ConnState::Unauthenticated,
            r.my_device_id is None,
            r.pending is Idle,
            final(hub)@.connections == old(hub)@.connections.insert(conn_id),
            final(hub)@.online == old(hub)@.online,
            final(hub)@.otp == old(hub)@.otp,
            final(hub)@.sessions == old(hub)@.sessions,
    {
        hub.open_connection(conn_id);
        WsConnection { conn_id, state: ConnState::Unauthenticated, my_device_id: None, pending: Pending::Idle }
    }

    /// The connection closed: it is forgotten, and the device it registered
    /// (if any) goes offline and loses its one-time password.
    pub fn close(self, hub: &mut SignalingHub)
        ensures
            final(hub)@.connections == old(hub)@.connections.remove(self.conn_id),
            final(hub)@.online == match self.my_device_id {
                Some(d) => old(hub)@.online.remove(d@),
                None => old(hub)@.online,
            },
            final(hub)@.otp == match self.my_device_id {
                Some(d) => old(hub)@.otp.remove(d@),
                None => old(hub)@.otp,
            },
            final(hub)@.sessions == old(hub)@.sessions,
    {
        match &self.my_device_id {
            Some(d) => hub.close_connection(self.conn_id, Some(d.as_str())),
            None => hub.close_connection(self.conn_id, None),
        }
    }

    /// Handles a message from the client. Messages needing storage come
    /// back as a request; its reply goes to `on_db_reply`.
    pub fn on_client_message(&mut self, hub: &mut SignalingHub, turn: &TurnConfig, msg: ClientMessage) -> (s: Step)
        requires
            old(self).pending is Idle,
        ensures
            final(self).conn_id == old(self).conn_id,
            final(self).state == old(self).state,
            match msg {
                ClientMessage::RegisterDevice { .. } => true,
                _ => final(self).my_device_id == old(self).my_device_id,
            },
            match msg {
                ClientMessage::Register { email, password } => {
                    &&& only_request(s, DbRequest::RegistrationEnabled)
                    &&& final(self).pending == (Pending::Register { email, password })
                    &&& same_hub(old(hub)@, final(hub)@)
                },
                ClientMessage::Login { email, password } => {
                    &&& only_request(s, DbRequest::FindAccountByEmail { email })
                    &&& final(self).pending == (Pending::Login { password })
                    &&& same_hub(old(hub)@, final(hub)@)
                },
                ClientMessage::RegisterDevice { name } => match old(self).state {
                    ConnState::Unauthenticated => {
                        &&& only_error(s, old(self).conn_id, "not authenticated"@)
                        &&& final(self).pending is Idle
                        &&& final(self).my_device_id == old(self).my_device_id
                        &&& same_hub(old(hub)@, final(hub)@)
                    },
                    ConnState::Authenticated { account_id } => match old(self).my_device_id {
                        Some(id) => {
                            &&& final(self).my_device_id == old(self).my_device_id
                            &&& final(self).pending is Idle
                            &&& registered_online(old(hub)@, final(hub)@, id@, old(self).conn_id)
                            &&& s.request is None
                            &&& s.sends@.len() == 1
                            &&& device_registered_to(s.sends@[0], old(self).conn_id, id@, final(hub)@)
                        },
                        None => {
                            &&& final(self).my_device_id is None
                            &&& same_hub(old(hub)@, final(hub)@)
                            &&& s.sends@.len() == 0
                            &&& s.request matches Some(DbRequest::CreateDevice { device_id, account_id: a, name: n })
                            &&& a == account_id
                            &&& n == name
                            &&& (exists|x: nat, y: nat, z: nat| x < 1000 && y < 1000 && z < 1000
                                && device_id@ == #[trigger] device_id_text(x, y, z))
                            &&& final(self).pending == (Pending::CreateDevice { device_id })
                        },
                    },
                },
                ClientMessage::ListDevices => match old(self).state {
                    ConnState::Unauthenticated => {
                        &&& only_error(s, old(self).conn_id, "not authenticated"@)
                        &&& final(self).pending is Idle
                        &&& same_hub(old(hub)@, final(hub)@)
                    },
                    ConnState::Authenticated { account_id } => {
                        &&& only_request(s, DbRequest::ListDevices { account_id })
                        &&& final(self).pending is ListDevices
                        &&& same_hub(old(hub)@, final(hub)@)
                    },
                },
                ClientMessage::RequestConnection { target_device_id, credential } => match old(self).state {
                    ConnState::Unauthenticated => {
                        &&& only_error(s, old(self).conn_id, "not authenticated"@)
                        &&& final(self).pending is Idle
                        &&& same_hub(old(hub)@, final(hub)@)
                    },
                    ConnState::Authenticated { .. } => {
                        &&& only_request(s, DbRequest::FindDevice { device_id: target_device_id })
                        &&& final(self).pending == (Pending::ConnectTo { target: target_device_id, credential })
                        &&& same_hub(old(hub)@, final(hub)@)
                    },
                },
                ClientMessage::SdpOffer { session_id, sdp } => {
                    &&& same_hub(old(hub)@, final(hub)@)
                    &&& final(self).pending is Idle
                    &&& match spec_relay_target(old(hub)@, old(self).conn_id, session_id@) {
                        Err(e) => only_error(s, old(self).conn_id, e.spec_text()),
                        Ok(t) => s.request is None && s.sends@.len() == 1 && s.sends@[0].to == t
                            && s.sends@[0].msg == (ServerMessage::SdpOffer { session_id, sdp }),
                    }
                },
                ClientMessage::SdpAnswer { session_id, sdp } => {
                    &&& same_hub(old(hub)@, final(hub)@)
                    &&& final(self).pending is Idle
                    &&& match spec_relay_target(old(hub)@, old(self).conn_id, session_id@) {
                        Err(e) => only_error(s, old(self).conn_id, e.spec_text()),
                        Ok(t) => s.request is None && s.sends@.len() == 1 && s.sends@[0].to == t
                            && s.sends@[0].msg == (ServerMessage::SdpAnswer { session_id, sdp }),
                    }
                },
                ClientMessage::IceCandidate { session_id, candidate } => {
                    &&& same_hub(old(hub)@, final(hub)@)
                    &&& final(self).pending is Idle
                    &&& match spec_relay_target(old(hub)@, old(self).conn_id, session_id@) {
                        Err(e) => only_error(s, old(self).conn_id, e.spec_text()),
                        Ok(t) => s.request is None && s.sends@.len() == 1 && s.sends@[0].to == t
                            && s.sends@[0].msg == (ServerMessage::IceCandidate { session_id, candidate }),
                    }
                },
                ClientMessage::RequestTurnCredentials => {
                    &&& same_hub(old(hub)@, final(hub)@)
                    &&& final(self).pending is Idle
                    &&& s.request is None
                    &&& s.sends@.len() == 1
                    &&& s.sends@[0].to == old(self).conn_id
                    &&& (error_to(s.sends@[0], old(self).conn_id, "system clock unavailable"@) || (
                    s.sends@[0].msg matches ServerMessage::TurnCredentials { urls, username, password, ttl_secs } && urls@ == turn.urls@
                        && ttl_secs == 300 && (exists|expiry: nat| expiry >= 300 && username@ == #[trigger] turn_username(expiry, uuid_text(old(self).conn_id)))
                        && password@ == turn_password(turn.shared_secret@, username@)))
                },
                ClientMessage::SetUnattendedPassword { target_device_id, password } => match old(self).state {
                    ConnState::Unauthenticated => {
                        &&& only_error(s, old(self).conn_id, "not authenticated"@)
                        &&& final(self).pending is Idle
                        &&& same_hub(old(hub)@, final(hub)@)
                    },
                    ConnState::Authenticated { account_id } => {
                        &&& only_request(s, DbRequest::FindDevice { device_id: target_device_id })
                        &&& final(self).pending == (Pending::SetUnattended { target: target_device_id, password, account_id })
                        &&& same_hub(old(hub)@, final(hub)@)
                    },
                },
            },
    {
        let me = self.conn_id;
        match msg {
            ClientMessage::Register { email, password } => {
                self.pending = Pending::Register { email, password };
                request_step(DbRequest::RegistrationEnabled)
            },
            ClientMessage::Login { email, password } => {
                self.pending = Pending::Login { password };
                request_step(DbRequest::FindAccountByEmail { email })
            },
            ClientMessage::RegisterDevice { name } => match self.state {
                ConnState::Unauthenticated => error_step(me, to_owned("not authenticated")),
                ConnState::Authenticated { account_id } => match &self.my_device_id {
                    Some(id) => {
                        let otp = generate_one_time_password();
                        hub.register_online(id.clone(), me, otp.clone());
                        send_step(Outgoing { to: me, msg: ServerMessage::DeviceRegistered { device_id: id.clone(), one_time_password: otp } })
                    },
                    None => {
                        let device_id = generate_device_id();
                        self.pending = Pending::CreateDevice { device_id: device_id.clone() };
                        request_step(DbRequest::CreateDevice { device_id, account_id, name })
                    },
                },
            },
            ClientMessage::ListDevices => match self.state {
                ConnState::Unauthenticated => error_step(me, to_owned("not authenticated")),
                ConnState::Authenticated { account_id } => {
                    self.pending = Pending::ListDevices;
                    request_step(DbRequest::ListDevices { account_id })
                },
            },
            ClientMessage::RequestConnection { target_device_id, credential } => match self.state {
                ConnState::Unauthenticated => error_step(me, to_owned("not authenticated")),
                ConnState::Authenticated { .. } => {
                    self.pending = Pending::ConnectTo { target: target_device_id.clone(), credential };
                    request_step(DbRequest::FindDevice { device_id: target_device_id })
                },
            },
            ClientMessage::SdpOffer { session_id, sdp } => match hub.relay_target(me, session_id.as_str()) {
                Err(e) => error_step(me, e.text()),
                Ok(t) => send_step(Outgoing { to: t, msg: ServerMessage::SdpOffer { session_id, sdp } }),
            },
            ClientMessage::SdpAnswer { session_id, sdp } => match hub.relay_target(me, session_id.as_str()) {
                Err(e) => error_step(me, e.text()),
                Ok(t) => send_step(Outgoing { to: t, msg: ServerMessage::SdpAnswer { session_id, sdp } }),
            },
            ClientMessage::IceCandidate { session_id, candidate } => match hub.relay_target(me, session_id.as_str()) {
                Err(e) => error_step(me, e.text()),
                Ok(t) => send_step(Outgoing { to: t, msg: ServerMessage::IceCandidate { session_id, candidate } }),
            },
            ClientMessage::RequestTurnCredentials => {
                let label = uuid_string(me);
                match mint_credentials(turn, label.as_str(), 300) {
                    None => error_step(me, to_owned("system clock unavailable")),
                    Some((username, password)) => {
                        let urls = clone_strings(&turn.urls);
                        send_step(Outgoing { to: me, msg: ServerMessage::TurnCredentials { urls, username, password, ttl_secs: 300 } })
                    },
                }
            },
            ClientMessage::SetUnattendedPassword { target_device_id, password } => match self.state {
                ConnState::Unauthenticated => error_step(me, to_owned("not authenticated")),
                ConnState::Authenticated { account_id } => {
                    self.pending = Pending::SetUnattended { target: target_device_id.clone(), password, account_id };
                    request_step(DbRequest::FindDevice { device_id: target_device_id })
                },
            },
        }
    }
}


/// A hashing failure reported to `to`.
pub open spec fn hash_failure_to(o: Outgoing, to: u128) -> bool {
    o.to == to && (o.msg matches ServerMessage::Error { message } && is_hash_failure(message@))
}

impl WsConnection {
    /// A storage request failed outright: its error goes back to the client
    /// and the message in progress is dropped, as if it had never come.
    pub fn on_db_failure(&mut self, message: String) -> (s: Step)
        ensures
            final(self).conn_id == old(self).conn_id,
            final(self).state == old(self).state,
            final(self).my_device_id == old(self).my_device_id,
            final(self).pending is Idle,
            only_error(s, old(self).conn_id, message@),
    {
        self.pending = Pending::Idle;
        error_step(self.conn_id, message)
    }

    /// Handles the reply to the storage request of the previous step.
    pub fn on_db_reply(&mut self, hub: &mut SignalingHub, reply: DbReply) -> (s: Step)
        ensures
            final(self).conn_id == old(self).conn_id,
            match (old(self).pending, reply) {
                (Pending::Register { email, password }, DbReply::RegistrationEnabled(Ok(false))) => {
                    &&& only_auth_error(s, old(self).conn_id, "registration is currently disabled"@)
                    &&& final(self).pending is Idle
                    &&& final(self).state == old(self).state
                    &&& final(self).my_device_id == old(self).my_device_id
                    &&& same_hub(old(hub)@, final(hub)@)
                },
                (Pending::Register { email, password }, DbReply::RegistrationEnabled(enabled)) => {
                    &&& final(self).state == old(self).state
                    &&& final(self).my_device_id == old(self).my_device_id
                    &&& same_hub(old(hub)@, final(hub)@)
                    &&& if vstd::utf8::encode_utf8(password@).len() <= MAX_PASSWORD_BYTES {
                        s.sends@.len() == 0 && final(self).pending is CreateAccount
                        && (s.request matches Some(DbRequest::CreateAccount { email: e, password_hash: h })
                        && e == email && password_matches(vstd::utf8::encode_utf8(password@), h@))
                    } else {
                        s.request is None && s.sends@.len() == 1 && final(self).pending is Idle
                        && hash_failure_to(s.sends@[0], old(self).conn_id)
                    }
                },
                (Pending::CreateAccount, DbReply::AccountCreated(Ok(id))) => {
                    &&& only_auth_ok(s, old(self).conn_id)
                    &&& final(self).state == (ConnState::Authenticated { account_id: id })
                    &&& final(self).pending is Idle
                    &&& final(self).my_device_id == old(self).my_device_id
                    &&& same_hub(old(hub)@, final(hub)@)
                },
                (Pending::CreateAccount, DbReply::AccountCreated(Err(e))) => {
                    &&& only_auth_error(s, old(self).conn_id, "registration failed: "@ + e@)
                    &&& final(self).state == old(self).state
                    &&& final(self).pending is Idle
                    &&& final(self).my_device_id == old(self).my_device_id
                    &&& same_hub(old(hub)@, final(hub)@)
                },
                (Pending::Login { password }, DbReply::AccountFound(found)) => {
                    &&& final(self).pending is Idle
                    &&& final(self).my_device_id == old(self).my_device_id
                    &&& same_hub(old(hub)@, final(hub)@)
                    &&& match found {
                        Err(e) => only_error(s, old(self).conn_id, e@) && final(self).state == old(self).state,
                        Ok(Some(a)) => if password_matches(vstd::utf8::encode_utf8(password@), a.password_hash@) {
                            only_auth_ok(s, old(self).conn_id) && final(self).state == (ConnState::Authenticated { account_id: a.id })
                        } else {
                            only_auth_error(s, old(self).conn_id, "invalid email or password"@) && final(self).state == old(self).state
                        },
                        Ok(None) => only_auth_error(s, old(self).conn_id, "invalid email or password"@)
                            && final(self).state == old(self).state,
                    }
                },
                (Pending::CreateDevice { device_id }, DbReply::DeviceCreated(created)) => {
                    &&& final(self).pending is Idle
                    &&& final(self).state == old(self).state
                    &&& match created {
                        Err(e) => only_error(s, old(self).conn_id, e@) && same_hub(old(hub)@, final(hub)@)
                            && final(self).my_device_id == old(self).my_device_id,
                        Ok(_) => final(self).my_device_id == Some(device_id)
                            && registered_online(old(hub)@, final(hub)@, device_id@, old(self).conn_id)
                            && s.request is None && s.sends@.len() == 1
                            && device_registered_to(s.sends@[0], old(self).conn_id, device_id@, final(hub)@),
                    }
                },
                (Pending::ListDevices, DbReply::DevicesListed(listed)) => {
                    &&& final(self).pending is Idle
                    &&& final(self).state == old(self).state
                    &&& final(self).my_device_id == old(self).my_device_id
                    &&& same_hub(old(hub)@, final(hub)@)
                    &&& match listed {
                        Err(e) => only_error(s, old(self).conn_id, e@),
                        Ok(ds) => s.request is None && s.sends@.len() == 1 && s.sends@[0].to == old(self).conn_id
                            && (s.sends@[0].msg matches ServerMessage::DeviceList { devices }
                            && devices@.len() == ds@.len()
                            && forall|i: int| 0 <= i < ds@.len() ==> summarizes(#[trigger] devices@[i], ds@[i], old(hub)@)),
                    }
                },
                (Pending::ConnectTo { target, credential }, DbReply::DeviceFound(found)) => {
                    &&& final(self).pending is Idle
                    &&& final(self).state == old(self).state
                    &&& final(self).my_device_id == old(self).my_device_id
                    &&& match found {
                        Err(e) => only_error(s, old(self).conn_id, e@) && same_hub(old(hub)@, final(hub)@),
                        Ok(None) => only_error(s, old(self).conn_id, "unknown device"@) && same_hub(old(hub)@, final(hub)@),
                        Ok(Some(d)) => if !credential_ok(old(hub)@, target@, credential, d) {
                            only_error(s, old(self).conn_id, "invalid credential"@) && same_hub(old(hub)@, final(hub)@)
                        } else if !old(hub)@.online.contains_key(target@) {
                            only_error(s, old(self).conn_id, "device is offline"@) && same_hub(old(hub)@, final(hub)@)
                        } else {
                            let host = old(hub)@.online[target@];
                            exists|sid: Seq<char>| {
                                &&& !old(hub)@.sessions.contains_key(sid)
                                &&& final(hub)@.sessions == #[trigger] old(hub)@.sessions.insert(sid, crate::hub::SessionPeers { a: old(self).conn_id, b: host })
                                &&& final(hub)@.connections == old(hub)@.connections
                                &&& final(hub)@.online == old(hub)@.online
                                &&& final(hub)@.otp == old(hub)@.otp
                                &&& s.request is None
                                &&& if old(hub)@.connections.contains(host) {
                                    s.sends@.len() == 2 && incoming_to(s.sends@[0], host, sid)
                                        && established_to(s.sends@[1], old(self).conn_id, sid, target@)
                                } else {
                                    s.sends@.len() == 1 && established_to(s.sends@[0], old(self).conn_id, sid, target@)
                                }
                            }
                        },
                    }
                },
                (Pending::SetUnattended { target, password, account_id }, DbReply::DeviceFound(found)) => {
                    &&& final(self).state == old(self).state
                    &&& final(self).my_device_id == old(self).my_device_id
                    &&& same_hub(old(hub)@, final(hub)@)
                    &&& match found {
                        Err(e) => only_error(s, old(self).conn_id, e@) && final(self).pending is Idle,
                        Ok(None) => only_error(s, old(self).conn_id, "unknown device"@) && final(self).pending is Idle,
                        Ok(Some(d)) => if d.account_id != account_id {
                            only_error(s, old(self).conn_id, "not your device"@) && final(self).pending is Idle
                        } else {
                            if vstd::utf8::encode_utf8(password@).len() <= MAX_PASSWORD_BYTES {
                                s.sends@.len() == 0 && final(self).pending == (Pending::StoreUnattended { target, password })
                                && (s.request matches Some(DbRequest::SetUnattendedHash { device_id: t, hash: h })
                                && t == target && password_matches(vstd::utf8::encode_utf8(password@), h@))
                            } else {
                                s.request is None && s.sends@.len() == 1 && final(self).pending is Idle
                                && hash_failure_to(s.sends@[0], old(self).conn_id)
                            }
                        },
                    }
                },
                (Pending::StoreUnattended { target, password }, DbReply::HashStored(stored)) => {
                    &&& final(self).pending is Idle
                    &&& final(self).state == old(self).state
                    &&& final(self).my_device_id == old(self).my_device_id
                    &&& same_hub(old(hub)@, final(hub)@)
                    &&& match stored {
                        Err(e) => only_error(s, old(self).conn_id, e@),
                        Ok(_) => if old(hub)@.online.contains_key(target@) && old(hub)@.connections.contains(old(hub)@.online[target@]) {
                            s.request is None && s.sends@.len() == 1 && s.sends@[0].to == old(hub)@.online[target@]
                                && s.sends@[0].msg == (ServerMessage::UnattendedPasswordUpdated { password })
                        } else {
                            quiet(s)
                        },
                    }
                },
                _ => {
                    &&& quiet(s)
                    &&& final(self).pending is Idle
                    &&& final(self).state == old(self).state
                    &&& final(self).my_device_id == old(self).my_device_id
                    &&& same_hub(old(hub)@, final(hub)@)
                },
            },
    {
        let me = self.conn_id;
        let mut pending = Pending::Idle;
        std::mem::swap(&mut pending, &mut self.pending);
        match (pending, reply) {
            (Pending::Register { email, password }, DbReply::RegistrationEnabled(enabled)) => {
                let open = match enabled {
                    Ok(b) => b,
                    Err(_) => true,
                };
                if !open {
                    auth_error_step(me, to_owned("registration is currently disabled"))
                } else {
                    match hash_password(password.as_str()) {
                        Err(m) => error_step(me, m),
                        Ok(h) => {
                            self.pending = Pending::CreateAccount;
                            request_step(DbRequest::CreateAccount { email, password_hash: h })
                        },
                    }
                }
            },
            (Pending::CreateAccount, DbReply::AccountCreated(created)) => match created {
                Ok(id) => {
                    self.state = ConnState::Authenticated { account_id: id };
                    auth_ok_step(me)
                },
                Err(e) => auth_error_step(me, concat2("registration failed: ", e.as_str())),
            },
            (Pending::Login { password }, DbReply::AccountFound(found)) => match found {
                Err(e) => error_step(me, e),
                Ok(Some(a)) => {
                    if verify_password(password.as_str(), a.password_hash.as_str()) {
                        self.state = ConnState::Authenticated { account_id: a.id };
                        auth_ok_step(me)
                    } else {
                        auth_error_step(me, to_owned("invalid email or password"))
                    }
                },
                Ok(None) => auth_error_step(me, to_owned("invalid email or password")),
            },
            (Pending::CreateDevice { device_id }, DbReply::DeviceCreated(created)) => match created {
                Err(e) => error_step(me, e),
                Ok(_) => {
                    self.my_device_id = Some(device_id.clone());
                    let otp = generate_one_time_password();
                    hub.register_online(device_id.clone(), me, otp.clone());
                    send_step(Outgoing { to: me, msg: ServerMessage::DeviceRegistered { device_id, one_time_password: otp } })
                },
            },
            (Pending::ListDevices, DbReply::DevicesListed(listed)) => match listed {
                Err(e) => error_step(me, e),
                Ok(ds) => {
                    let devices = summarize_devices(hub, &ds);
                    send_step(Outgoing { to: me, msg: ServerMessage::DeviceList { devices } })
                },
            },
            (Pending::ConnectTo { target, credential }, DbReply::DeviceFound(found)) => match found {
                Err(e) => error_step(me, e),
                Ok(None) => error_step(me, to_owned("unknown device")),
                Ok(Some(d)) => {
                    let ok = match &credential {
                        ConnectCredential::OneTimePassword(p) => hub.otp_matches(target.as_str(), p.as_str()),
                        ConnectCredential::UnattendedPassword(pw) => match &d.unattended_password_hash {
                            Some(h) => verify_password(pw.as_str(), h.as_str()),
                            None => false,
                        },
                    };
                    if !ok {
                        return error_step(me, to_owned("invalid credential"));
                    }
                    let host = match hub.online_connection(target.as_str()) {
                        None => return error_step(me, to_owned("device is offline")),
                        Some(c) => c,
                    };
                    let sid = hub.fresh_session_id(uuid_string(new_uuid()));
                    let ghost sidv = sid@;
                    let ghost targetv = target@;
                    hub.open_session(sid.clone(), me, host);
                    let mut sends: Vec<Outgoing> = Vec::new();
                    if hub.is_connected(host) {
                        sends.push(Outgoing { to: host, msg: ServerMessage::IncomingConnection { session_id: sid.clone(), from_device_id: None } });
                    }
                    sends.push(Outgoing { to: me, msg: ServerMessage::ConnectionEstablished { session_id: sid, target_device_id: target } });
                    let step = Step { sends, request: None };
                    proof {
                        assert(hub@.sessions == old(hub)@.sessions.insert(sidv, crate::hub::SessionPeers { a: me, b: host }));
                        if old(hub)@.connections.contains(host) {
                            assert(incoming_to(step.sends@[0], host, sidv));
                            assert(established_to(step.sends@[1], me, sidv, targetv));
                        } else {
                            assert(established_to(step.sends@[0], me, sidv, targetv));
                        }
                    }
                    step
                },
            },
            (Pending::SetUnattended { target, password, account_id }, DbReply::DeviceFound(found)) => match found {
                Err(e) => error_step(me, e),
                Ok(None) => error_step(me, to_owned("unknown device")),
                Ok(Some(d)) => {
                    if d.account_id != account_id {
                        error_step(me, to_owned("not your device"))
                    } else {
                        match hash_password(password.as_str()) {
                            Err(m) => error_step(me, m),
                            Ok(h) => {
                                self.pending = Pending::StoreUnattended { target: target.clone(), password };
                                request_step(DbRequest::SetUnattendedHash { device_id: target, hash: h })
                            },
                        }
                    }
                },
            },
            (Pending::StoreUnattended { target, password }, DbReply::HashStored(stored)) => match stored {
                Err(e) => error_step(me, e),
                Ok(_) => match hub.online_connection(target.as_str()) {
                    Some(c) => if hub.is_connected(c) {
                        send_step(Outgoing { to: c, msg: ServerMessage::UnattendedPasswordUpdated { password } })
                    } else {
                        quiet_step()
                    },
                    None => quiet_step(),
                },
            },
            _ => quiet_step(),
        }
    }
}

/// The listing of `ds` with each device's live online status.
pub fn summarize_devices(hub: &SignalingHub, ds: &Vec<Device>) -> (r: Vec<DeviceSummary>)
    ensures
        r@.len() == ds@.len(),
        forall|i: int| 0 <= i < ds@.len() ==> summarizes(#[trigger] r@[i], ds@[i], hub@),
{
    let mut r: Vec<DeviceSummary> = Vec::new();
    let mut i: usize = 0;
    while i < ds.len()
        invariant
            i <= ds@.len(),
            r@.len() == i,
            forall|k: int| 0 <= k < i ==> summarizes(#[trigger] r@[k], ds@[k], hub@),
        decreases ds@.len() - i,
    {
        let d = &ds[i];
        r.push(DeviceSummary {
            device_id: d.id.clone(),
            name: d.name.clone(),
            online: hub.is_online(d.id.as_str()),
            unattended_access_enabled: d.unattended_password_hash.is_some(),
        });
        i = i + 1;
    }
    r
}

} // verus!
