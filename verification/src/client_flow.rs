//! The client side of the signaling protocol, as state machines: logging
//! in, registering this machine as a host, answering incoming pairing
//! sessions, and what a host does with each control message from its
//! controller. The caller owns the WebSocket, the WebRTC stack and the
//! operating system; it feeds each received message in and performs what
//! comes back.

use vstd::prelude::*;
use crate::control::{ClipboardMessage, ControlMessage, FileTransferMessage, InputEvent, KeyCode, MonitorMessage, MouseButton};
use crate::signaling::{ClientMessage, ConnectCredential, DeviceSummary, ServerMessage};
use crate::text::{clone_strings, str_eq};

verus! {

/// A relay server for the peer connection, with its credentials.
#[derive(Debug, Clone)]
pub struct IceServerConfig {
    pub urls: Vec<String>,
    pub username: String,
    pub credential: String,
}

/// TURN credentials as handed out by the signaling server.
#[derive(Debug, Clone)]
pub struct TurnCredentials {
    pub urls: Vec<String>,
    pub username: String,
    pub password: String,
}

/// `s` is the relay at `urls`, reached as `username` with `password`.
pub open spec fn is_relay(s: IceServerConfig, urls: Seq<String>, username: String, password: String) -> bool {
    s.urls@ == urls && s.username == username && s.credential == password
}

/// `v` is exactly one relay, at `urls` with those credentials.
pub open spec fn one_relay(v: Seq<IceServerConfig>, urls: Seq<String>, username: String, password: String) -> bool {
    v.len() == 1 && is_relay(v[0], urls, username, password)
}

/// The ICE servers to configure for `creds`: its one TURN server.
pub fn ice_servers_from_turn(creds: &TurnCredentials) -> (r: Vec<IceServerConfig>)
    ensures
        one_relay(r@, creds.urls@, creds.username, creds.password),
{
    vec![IceServerConfig { urls: clone_strings(&creds.urls), username: creds.username.clone(), credential: creds.password.clone() }]
}

/// Why a client flow gave up: the message that came instead of the one it
/// needed.
#[derive(Debug, Clone)]
pub enum FlowError {
    /// Neither `AuthOk` nor `AuthError` answered the registration.
    UnexpectedAuthResponse(ServerMessage),
    /// The login fallback was not answered with `AuthOk`.
    LoginFailed(ServerMessage),
    /// The device registration was not answered with `DeviceRegistered`.
    ExpectedDeviceRegistered(ServerMessage),
    /// The pairing request was not answered with `ConnectionEstablished`.
    ExpectedConnectionEstablished(ServerMessage),
}

impl FlowError {
    /// The start of the error's report; the offending message follows it.
    pub open spec fn spec_prefix(&self) -> Seq<char> {
        match self {
            FlowError::UnexpectedAuthResponse(_) => "unexpected auth response: "@,
            FlowError::LoginFailed(_) => "login failed: "@,
            FlowError::ExpectedDeviceRegistered(_) => "expected DeviceRegistered, got "@,
            FlowError::ExpectedConnectionEstablished(_) => "expected ConnectionEstablished, got "@,
        }
    }

    /// The start of the error's report; the offending message follows it.
    pub fn prefix(&self) -> (r: &'static str)
        ensures
            r@ == self.spec_prefix(),
    {
        match self {
            FlowError::UnexpectedAuthResponse(_) => "unexpected auth response: ",
            FlowError::LoginFailed(_) => "login failed: ",
            FlowError::ExpectedDeviceRegistered(_) => "expected DeviceRegistered, got ",
            FlowError::ExpectedConnectionEstablished(_) => "expected ConnectionEstablished, got ",
        }
    }

    /// The message that came instead.
    pub fn message(&self) -> (r: &ServerMessage)
        ensures
            match self {
                FlowError::UnexpectedAuthResponse(m) => *r == m,
                FlowError::LoginFailed(m) => *r == m,
                FlowError::ExpectedDeviceRegistered(m) => *r == m,
                FlowError::ExpectedConnectionEstablished(m) => *r == m,
            },
    {
        match self {
            FlowError::UnexpectedAuthResponse(m) => m,
            FlowError::LoginFailed(m) => m,
            FlowError::ExpectedDeviceRegistered(m) => m,
            FlowError::ExpectedConnectionEstablished(m) => m,
        }
    }
}

/// A registered host: its device ID and current one-time password.
#[derive(Debug, Clone)]
pub struct HostHandle {
    pub device_id: String,
    pub one_time_password: String,
}

/// Where a host's registration stands.
#[derive(Debug, Clone, Copy, PartialEq, Eq, Structural)]
pub enum SetupPhase {
    /// `Register` was sent.
    AwaitRegister,
    /// The account existed already; `Login` was sent.
    AwaitLogin,
    /// Logged in; `RegisterDevice` was sent.
    AwaitDevice,
    /// Registered, or given up.
    Done,
}

/// What one received message makes a host registration do.
#[derive(Debug)]
pub enum SetupStep {
    Send(ClientMessage),
    Registered(HostHandle),
    Failed(FlowError),
    Ignored,
}

/// Registering this machine as a host: sign up (or, if the account exists
/// already, log in), then announce the device and learn its ID and
/// one-time password.
pub struct HostSetup {
    pub email: String,
    pub password: String,
    pub device_name: String,
    pub phase: SetupPhase,
}

/// The phase after `msg` and what to do, for a registration in `s`.
pub open spec fn setup_step(s: HostSetup, msg: ServerMessage) -> (SetupPhase, SetupStep) {
    match s.phase {
        SetupPhase::AwaitRegister => match msg {
            ServerMessage::AuthOk { .. } => (
                SetupPhase::AwaitDevice,
                SetupStep::Send(ClientMessage::RegisterDevice { name: s.device_name }),
            ),
            ServerMessage::AuthError { .. } => (
                SetupPhase::AwaitLogin,
                SetupStep::Send(ClientMessage::Login { email: s.email, password: s.password }),
            ),
            _ => (SetupPhase::Done, SetupStep::Failed(FlowError::UnexpectedAuthResponse(msg))),
        },
        SetupPhase::AwaitLogin => match msg {
            ServerMessage::AuthOk { .. } => (
                SetupPhase::AwaitDevice,
                SetupStep::Send(ClientMessage::RegisterDevice { name: s.device_name }),
            ),
            _ => (SetupPhase::Done, SetupStep::Failed(FlowError::LoginFailed(msg))),
        },
        SetupPhase::AwaitDevice => match msg {
            ServerMessage::DeviceRegistered { device_id, one_time_password } => (
                SetupPhase::Done,
                SetupStep::Registered(HostHandle { device_id, one_time_password }),
            ),
            _ => (SetupPhase::Done, SetupStep::Failed(FlowError::ExpectedDeviceRegistered(msg))),
        },
        SetupPhase::Done => (SetupPhase::Done, SetupStep::Ignored),
    }
}

impl HostSetup {
    /// Starts a registration: the `Register` message to send first.
    pub fn start(email: String, password: String, device_name: String) -> (r: (HostSetup, ClientMessage))
        ensures
            r.0.email == email && r.0.password == password && r.0.device_name == device_name,
            r.0.phase == SetupPhase::AwaitRegister,
            r.1 == (ClientMessage::Register { email, password }),
    {
        let first = ClientMessage::Register { email: email.clone(), password: password.clone() };
        (HostSetup { email, password, device_name, phase: SetupPhase::AwaitRegister }, first)
    }

    /// Takes the server's next message.
    pub fn on_server_message(&mut self, msg: ServerMessage) -> (step: SetupStep)
        ensures
            final(self).email == old(self).email,
            final(self).password == old(self).password,
            final(self).device_name == old(self).device_name,
            (final(self).phase, step) == setup_step(*old(self), msg),
    {
        match self.phase {
            SetupPhase::AwaitRegister => match msg {
                ServerMessage::AuthOk { .. } => {
                    self.phase = SetupPhase::AwaitDevice;
                    SetupStep::Send(ClientMessage::RegisterDevice { name: self.device_name.clone() })
                },
                ServerMessage::AuthError { .. } => {
                    self.phase = SetupPhase::AwaitLogin;
                    SetupStep::Send(ClientMessage::Login { email: self.email.clone(), password: self.password.clone() })
                },
                _ => {
                    self.phase = SetupPhase::Done;
                    SetupStep::Failed(FlowError::UnexpectedAuthResponse(msg))
                },
            },
            SetupPhase::AwaitLogin => match msg {
                ServerMessage::AuthOk { .. } => {
                    self.phase = SetupPhase::AwaitDevice;
                    SetupStep::Send(ClientMessage::RegisterDevice { name: self.device_name.clone() })
                },
                _ => {
                    self.phase = SetupPhase::Done;
                    SetupStep::Failed(FlowError::LoginFailed(msg))
                },
            },
            SetupPhase::AwaitDevice => {
                self.phase = SetupPhase::Done;
                match msg {
                    ServerMessage::DeviceRegistered { device_id, one_time_password } => {
                        SetupStep::Registered(HostHandle { device_id, one_time_password })
                    },
                    _ => SetupStep::Failed(FlowError::ExpectedDeviceRegistered(msg)),
                }
            },
            SetupPhase::Done => SetupStep::Ignored,
        }
    }
}

/// What a registered host does with a message while no session runs.
#[derive(Debug)]
pub enum IdleAction {
    /// A controller wants in: negotiate this session.
    Accept { session_id: String },
    /// The server reported an error; note it and keep waiting.
    ServerError { message: String },
    Ignore,
}

/// What a registered host does with `msg` while no session runs.
pub open spec fn spec_idle_action(msg: ServerMessage) -> IdleAction {
    match msg {
        ServerMessage::IncomingConnection { session_id, .. } => IdleAction::Accept { session_id },
        ServerMessage::Error { message } => IdleAction::ServerError { message },
        _ => IdleAction::Ignore,
    }
}

/// What a registered host does with `msg` while no session runs.
pub fn idle_action(msg: ServerMessage) -> (a: IdleAction)
    ensures
        a == spec_idle_action(msg),
{
    match msg {
        ServerMessage::IncomingConnection { session_id, .. } => IdleAction::Accept { session_id },
        ServerMessage::Error { message } => IdleAction::ServerError { message },
        _ => IdleAction::Ignore,
    }
}

/// What a message during negotiation makes the local peer connection do.
#[derive(Debug)]
pub enum SessionEvent {
    /// Configure the peer connection with these relays.
    IceServers(Vec<IceServerConfig>),
    /// The controller's offer: answer it.
    RemoteOffer(String),
    /// The host's answer: apply it.
    RemoteAnswer(String),
    /// A candidate from the peer: add it.
    AddRemoteCandidate(String),
    Ignore,
}

/// The ICE servers a TURN reply yields: its relay, or none for any other
/// reply.
pub open spec fn relays_from_reply(msg: ServerMessage, e: SessionEvent) -> bool {
    e matches SessionEvent::IceServers(v) && match msg {
        ServerMessage::TurnCredentials { urls, username, password, .. } => one_relay(v@, urls@, username, password),
        _ => v@.len() == 0,
    }
}

/// A remote candidate for session `sid` in `msg`, if any.
pub open spec fn candidate_for(sid: Seq<char>, msg: ServerMessage) -> Option<String> {
    match msg {
        ServerMessage::IceCandidate { session_id, candidate } => if session_id@ == sid {
            Some(candidate)
        } else {
            None
        },
        _ => None,
    }
}

/// The event for `msg` once the description exchange is done, or while it
/// waits for something else than `msg` carries: the session's remote
/// candidates are added, everything else is ignored.
pub open spec fn candidate_event(sid: Seq<char>, msg: ServerMessage) -> SessionEvent {
    match candidate_for(sid, msg) {
        Some(c) => SessionEvent::AddRemoteCandidate(c),
        None => SessionEvent::Ignore,
    }
}

/// The ICE servers for a TURN reply: its relay, or none for any other
/// reply.
fn relays_for(msg: ServerMessage) -> (e: SessionEvent)
    ensures
        relays_from_reply(msg, e),
{
    match msg {
        ServerMessage::TurnCredentials { urls, username, password, .. } => {
            SessionEvent::IceServers(vec![IceServerConfig { urls, username, credential: password }])
        },
        _ => SessionEvent::IceServers(Vec::new()),
    }
}

/// The event of `candidate_event` for a message of session `sid`.
fn candidate_step(sid: &String, msg: ServerMessage) -> (e: SessionEvent)
    ensures
        e == candidate_event(sid@, msg),
{
    match msg {
        ServerMessage::IceCandidate { session_id, candidate } => {
            if str_eq(session_id.as_str(), sid.as_str()) {
                SessionEvent::AddRemoteCandidate(candidate)
            } else {
                SessionEvent::Ignore
            }
        },
        _ => SessionEvent::Ignore,
    }
}

/// Where a host's side of one pairing session stands.
#[derive(Debug, Clone, Copy, PartialEq, Eq, Structural)]
pub enum HostPhase {
    /// TURN credentials were requested.
    AwaitTurn,
    /// Waiting for the controller's offer.
    AwaitOffer,
    /// The offer came; the answer is being made.
    Answering,
    /// The answer was sent; media flows.
    Streaming,
}

/// The host's side of one pairing session.
pub struct HostSession {
    pub session_id: String,
    pub phase: HostPhase,
}

/// The host's next phase and the event for `msg`, in phase `p` of session
/// `sid`.
pub open spec fn host_step(p: HostPhase, sid: Seq<char>, msg: ServerMessage, next: HostPhase, e: SessionEvent) -> bool {
    match p {
        HostPhase::AwaitTurn => next == HostPhase::AwaitOffer && relays_from_reply(msg, e),
        HostPhase::AwaitOffer => match msg {
            ServerMessage::SdpOffer { session_id, sdp } if session_id@ == sid => {
                next == HostPhase::Answering && e == SessionEvent::RemoteOffer(sdp)
            },
            _ => next == HostPhase::AwaitOffer && e == candidate_event(sid, msg),
        },
        _ => next == p && e == candidate_event(sid, msg),
    }
}

impl HostSession {
    /// Accepts session `session_id`: the TURN credential request to send
    /// first.
    pub fn start(session_id: String) -> (r: (HostSession, ClientMessage))
        ensures
            r.0.session_id == session_id,
            r.0.phase == HostPhase::AwaitTurn,
            r.1 == ClientMessage::RequestTurnCredentials,
    {
        (HostSession { session_id, phase: HostPhase::AwaitTurn }, ClientMessage::RequestTurnCredentials)
    }

    /// Takes the server's next message.
    pub fn on_server_message(&mut self, msg: ServerMessage) -> (e: SessionEvent)
        ensures
            final(self).session_id == old(self).session_id,
            host_step(old(self).phase, old(self).session_id@, msg, final(self).phase, e),
    {
        match self.phase {
            HostPhase::AwaitTurn => {
                self.phase = HostPhase::AwaitOffer;
                relays_for(msg)
            },
            HostPhase::AwaitOffer => match msg {
                ServerMessage::SdpOffer { session_id, sdp } => {
                    if str_eq(session_id.as_str(), self.session_id.as_str()) {
                        self.phase = HostPhase::Answering;
                        SessionEvent::RemoteOffer(sdp)
                    } else {
                        SessionEvent::Ignore
                    }
                },
                _ => candidate_step(&self.session_id, msg),
            },
            _ => candidate_step(&self.session_id, msg),
        }
    }

    /// The answer to the controller's offer, to send; media flows from now.
    pub fn answer(&mut self, sdp: String) -> (m: ClientMessage)
        requires
            old(self).phase == HostPhase::Answering,
        ensures
            final(self).session_id == old(self).session_id,
            final(self).phase == HostPhase::Streaming,
            m == (ClientMessage::SdpAnswer { session_id: old(self).session_id, sdp }),
    {
        self.phase = HostPhase::Streaming;
        ClientMessage::SdpAnswer { session_id: self.session_id.clone(), sdp }
    }

    /// A local ICE candidate, to send to the controller.
    pub fn local_candidate(&self, candidate: String) -> (m: ClientMessage)
        ensures
            m == (ClientMessage::IceCandidate { session_id: self.session_id, candidate }),
    {
        ClientMessage::IceCandidate { session_id: self.session_id.clone(), candidate }
    }
}

/// Once TURN is settled, a message about another session never moves the
/// host's side of a session, nor makes it do anything.
pub proof fn lemma_host_ignores_other_sessions(p: HostPhase, sid: Seq<char>, msg: ServerMessage, next: HostPhase, e: SessionEvent)
    requires
        p != HostPhase::AwaitTurn,
        host_step(p, sid, msg, next, e),
        match msg {
            ServerMessage::SdpOffer { session_id, .. } => session_id@ != sid,
            ServerMessage::IceCandidate { session_id, .. } => session_id@ != sid,
            _ => true,
        },
    ensures
        next == p,
        e is Ignore,
{
}

/// Once TURN is settled, the controller's trickled candidates for the
/// host's own session are always added, before the offer, while answering
/// and while streaming, and they never move the host's phase.
pub proof fn lemma_host_adds_own_candidates(p: HostPhase, sid: Seq<char>, msg: ServerMessage, next: HostPhase, e: SessionEvent)
    requires
        p != HostPhase::AwaitTurn,
        host_step(p, sid, msg, next, e),
        msg matches ServerMessage::IceCandidate { session_id, .. } && session_id@ == sid,
    ensures
        next == p,
        msg matches ServerMessage::IceCandidate { candidate, .. } && e == SessionEvent::AddRemoteCandidate(candidate),
{
}

/// The host answers only once an offer for its own session came: a step
/// into `Answering` hands over that offer.
pub proof fn lemma_host_answers_own_offer(p: HostPhase, sid: Seq<char>, msg: ServerMessage, next: HostPhase, e: SessionEvent)
    requires
        p != HostPhase::Answering,
        next == HostPhase::Answering,
        host_step(p, sid, msg, next, e),
    ensures
        p == HostPhase::AwaitOffer,
        msg matches ServerMessage::SdpOffer { session_id, sdp } && session_id@ == sid && e == SessionEvent::RemoteOffer(sdp),
{
}

/// Applies input events on the host: the real injector, or a recorder.
pub trait InputSink {
    /// Replays one input event.
    fn handle_input(&mut self, event: InputEvent) -> Result<(), String>;
}

/// What the host does with a control message from its controller.
#[derive(Debug)]
pub enum HostControl {
    /// Replay an input event.
    Inject(InputEvent),
    /// The controller's clipboard changed: apply it locally.
    RemoteClipboard(String),
    /// A file-transfer message, for the file receiver.
    File(FileTransferMessage),
    /// List the monitors and send the list back.
    SendMonitorList,
    /// Capture `monitor_id` from now on, and confirm with `reply`.
    SwitchMonitor { monitor_id: u32, reply: ControlMessage },
    /// Nothing to do (a message only a controller handles).
    Ignore,
}

/// What the host does with control message `msg`.
pub open spec fn spec_host_control(msg: ControlMessage) -> HostControl {
    match msg {
        ControlMessage::Input(event) => HostControl::Inject(event),
        ControlMessage::Clipboard(ClipboardMessage::TextUpdated { text }) => HostControl::RemoteClipboard(text),
        ControlMessage::File(m) => HostControl::File(m),
        ControlMessage::Monitor(MonitorMessage::ListRequest) => HostControl::SendMonitorList,
        ControlMessage::Monitor(MonitorMessage::SwitchRequest { monitor_id }) => HostControl::SwitchMonitor {
            monitor_id,
            reply: ControlMessage::Monitor(MonitorMessage::Switched { monitor_id }),
        },
        _ => HostControl::Ignore,
    }
}

/// What the host does with control message `msg`.
pub fn host_control(msg: ControlMessage) -> (a: HostControl)
    ensures
        a == spec_host_control(msg),
{
    match msg {
        ControlMessage::Input(event) => HostControl::Inject(event),
        ControlMessage::Clipboard(ClipboardMessage::TextUpdated { text }) => HostControl::RemoteClipboard(text),
        ControlMessage::File(m) => HostControl::File(m),
        ControlMessage::Monitor(MonitorMessage::ListRequest) => HostControl::SendMonitorList,
        ControlMessage::Monitor(MonitorMessage::SwitchRequest { monitor_id }) => HostControl::SwitchMonitor {
            monitor_id,
            reply: ControlMessage::Monitor(MonitorMessage::Switched { monitor_id }),
        },
        _ => HostControl::Ignore,
    }
}

/// The first message of a password push: log in.
pub fn login_message(email: String, password: String) -> (m: ClientMessage)
    ensures
        m == (ClientMessage::Login { email, password }),
{
    ClientMessage::Login { email, password }
}

/// The reply to a password push's login: once logged in, the message that
/// sets device `target_device_id`'s unattended-access password; otherwise
/// the push fails.
pub fn unattended_push_reply(msg: ServerMessage, target_device_id: String, password: String) -> (r: Result<ClientMessage, FlowError>)
    ensures
        match msg {
            ServerMessage::AuthOk { .. } => r == Ok::<ClientMessage, FlowError>(
                ClientMessage::SetUnattendedPassword { target_device_id, password },
            ),
            _ => r == Err::<ClientMessage, FlowError>(FlowError::LoginFailed(msg)),
        },
{
    match msg {
        ServerMessage::AuthOk { .. } => Ok(ClientMessage::SetUnattendedPassword { target_device_id, password }),
        _ => Err(FlowError::LoginFailed(msg)),
    }
}

/// Where a controller's connection attempt stands.
#[derive(Debug, Clone, Copy, PartialEq, Eq, Structural)]
pub enum ControllerPhase {
    /// `Register` was sent.
    AwaitRegister,
    /// The account existed already; `Login` was sent.
    AwaitLogin,
    /// Logged in; TURN credentials were requested.
    AwaitTurn,
    /// The pairing request was sent.
    AwaitConnection,
    /// Paired; the offer is being made.
    Offering,
    /// The offer was sent.
    AwaitAnswer,
    /// The answer came; media flows.
    Connected,
    /// Given up.
    Failed,
}

/// What one received message makes a connection attempt do.
#[derive(Debug)]
pub enum ControllerStep {
    Send(ClientMessage),
    /// Configure the peer connection with `servers`, then send `then`.
    Configure { servers: Vec<IceServerConfig>, then: ClientMessage },
    /// Paired under `session_id`: set up the peer connection and make the
    /// offer.
    Paired { session_id: String },
    /// The negotiation with the host.
    Session(SessionEvent),
    Failed(FlowError),
}

/// A controller connecting to a target device: sign up or log in, fetch
/// TURN credentials, ask to be paired with the target, then offer a
/// session and take the host's answer.
pub struct ControllerFlow {
    pub email: String,
    pub password: String,
    pub target_device_id: String,
    pub credential: ConnectCredential,
    /// The pairing session, once paired (empty before).
    pub session_id: String,
    pub phase: ControllerPhase,
}

/// The controller's next state and step for `msg`, from state `c`; `n` is
/// the state after, `st` the step.
pub open spec fn controller_step(c: ControllerFlow, msg: ServerMessage, n: ControllerFlow, st: ControllerStep) -> bool {
    &&& n.email == c.email
    &&& n.password == c.password
    &&& n.target_device_id == c.target_device_id
    &&& n.credential == c.credential
    &&& (n.phase != ControllerPhase::Offering || c.phase == ControllerPhase::Offering) ==> n.session_id == c.session_id
    &&& match c.phase {
        ControllerPhase::AwaitRegister => match msg {
            ServerMessage::AuthOk { .. } => n.phase == ControllerPhase::AwaitTurn
                && st == ControllerStep::Send(ClientMessage::RequestTurnCredentials),
            ServerMessage::AuthError { .. } => n.phase == ControllerPhase::AwaitLogin
                && st == ControllerStep::Send(ClientMessage::Login { email: c.email, password: c.password }),
            _ => n.phase == ControllerPhase::Failed && st == ControllerStep::Failed(FlowError::UnexpectedAuthResponse(msg)),
        },
        ControllerPhase::AwaitLogin => match msg {
            ServerMessage::AuthOk { .. } => n.phase == ControllerPhase::AwaitTurn
                && st == ControllerStep::Send(ClientMessage::RequestTurnCredentials),
            _ => n.phase == ControllerPhase::Failed && st == ControllerStep::Failed(FlowError::LoginFailed(msg)),
        },
        ControllerPhase::AwaitTurn => {
            &&& n.phase == ControllerPhase::AwaitConnection
            &&& st matches ControllerStep::Configure { servers, then }
            &&& relays_from_reply(msg, SessionEvent::IceServers(servers))
            &&& then == (ClientMessage::RequestConnection { target_device_id: c.target_device_id, credential: c.credential })
        },
        ControllerPhase::AwaitConnection => match msg {
            ServerMessage::ConnectionEstablished { session_id, .. } => n.phase == ControllerPhase::Offering
                && n.session_id == session_id && st == (ControllerStep::Paired { session_id }),
            _ => n.phase == ControllerPhase::Failed && st == ControllerStep::Failed(
                FlowError::ExpectedConnectionEstablished(msg),
            ),
        },
        ControllerPhase::AwaitAnswer => match msg {
            ServerMessage::SdpAnswer { session_id, sdp } if session_id@ == c.session_id@ => {
                n.phase == ControllerPhase::Connected && st == ControllerStep::Session(SessionEvent::RemoteAnswer(sdp))
            },
            _ => n.phase == ControllerPhase::AwaitAnswer && st == ControllerStep::Session(
                candidate_event(c.session_id@, msg),
            ),
        },
        ControllerPhase::Connected => n.phase == ControllerPhase::Connected && st == ControllerStep::Session(
            candidate_event(c.session_id@, msg),
        ),
        _ => n.phase == c.phase && st == ControllerStep::Session(SessionEvent::Ignore),
    }
}

/// Once the offer is out, the host's trickled candidates for the
/// controller's own session are always added, before and after the answer,
/// and they never move the controller's phase.
pub proof fn lemma_controller_adds_own_candidates(c: ControllerFlow, msg: ServerMessage, n: ControllerFlow, st: ControllerStep)
    requires
        c.phase == ControllerPhase::AwaitAnswer || c.phase == ControllerPhase::Connected,
        controller_step(c, msg, n, st),
        msg matches ServerMessage::IceCandidate { session_id, .. } && session_id@ == c.session_id@,
    ensures
        n.phase == c.phase,
        n.session_id == c.session_id,
        msg matches ServerMessage::IceCandidate { candidate, .. } && st == ControllerStep::Session(
            SessionEvent::AddRemoteCandidate(candidate),
        ),
{
}

/// A copy of a credential.
fn copy_credential(c: &ConnectCredential) -> (r: ConnectCredential)
    ensures
        r == *c,
{
    match c {
        ConnectCredential::OneTimePassword(p) => ConnectCredential::OneTimePassword(p.clone()),
        ConnectCredential::UnattendedPassword(p) => ConnectCredential::UnattendedPassword(p.clone()),
    }
}

impl ControllerFlow {
    /// Starts connecting to `target_device_id` with `credential`: the
    /// `Register` message to send first.
    pub fn start(email: String, password: String, target_device_id: String, credential: ConnectCredential) -> (r: (ControllerFlow, ClientMessage))
        ensures
            r.0.email == email && r.0.password == password,
            r.0.target_device_id == target_device_id && r.0.credential == credential,
            r.0.phase == ControllerPhase::AwaitRegister,
            r.1 == (ClientMessage::Register { email, password }),
    {
        let first = ClientMessage::Register { email: email.clone(), password: password.clone() };
        (ControllerFlow { email, password, target_device_id, credential, session_id: String::new(), phase: ControllerPhase::AwaitRegister }, first)
    }

    /// Takes the server's next message.
    pub fn on_server_message(&mut self, msg: ServerMessage) -> (st: ControllerStep)
        ensures
            controller_step(*old(self), msg, *final(self), st),
    {
        match self.phase {
            ControllerPhase::AwaitRegister => match msg {
                ServerMessage::AuthOk { .. } => {
                    self.phase = ControllerPhase::AwaitTurn;
                    ControllerStep::Send(ClientMessage::RequestTurnCredentials)
                },
                ServerMessage::AuthError { .. } => {
                    self.phase = ControllerPhase::AwaitLogin;
                    ControllerStep::Send(ClientMessage::Login { email: self.email.clone(), password: self.password.clone() })
                },
                _ => {
                    self.phase = ControllerPhase::Failed;
                    ControllerStep::Failed(FlowError::UnexpectedAuthResponse(msg))
                },
            },
            ControllerPhase::AwaitLogin => match msg {
                ServerMessage::AuthOk { .. } => {
                    self.phase = ControllerPhase::AwaitTurn;
                    ControllerStep::Send(ClientMessage::RequestTurnCredentials)
                },
                _ => {
                    self.phase = ControllerPhase::Failed;
                    ControllerStep::Failed(FlowError::LoginFailed(msg))
                },
            },
            ControllerPhase::AwaitTurn => {
                self.phase = ControllerPhase::AwaitConnection;
                let servers = match relays_for(msg) {
                    SessionEvent::IceServers(v) => v,
                    _ => Vec::new(),
                };
                let then = ClientMessage::RequestConnection {
                    target_device_id: self.target_device_id.clone(),
                    credential: copy_credential(&self.credential),
                };
                ControllerStep::Configure { servers, then }
            },
            ControllerPhase::AwaitConnection => match msg {
                ServerMessage::ConnectionEstablished { session_id, .. } => {
                    self.phase = ControllerPhase::Offering;
                    self.session_id = session_id.clone();
                    ControllerStep::Paired { session_id }
                },
                _ => {
                    self.phase = ControllerPhase::Failed;
                    ControllerStep::Failed(FlowError::ExpectedConnectionEstablished(msg))
                },
            },
            ControllerPhase::AwaitAnswer => match msg {
                ServerMessage::SdpAnswer { session_id, sdp } => {
                    if str_eq(session_id.as_str(), self.session_id.as_str()) {
                        self.phase = ControllerPhase::Connected;
                        ControllerStep::Session(SessionEvent::RemoteAnswer(sdp))
                    } else {
                        ControllerStep::Session(SessionEvent::Ignore)
                    }
                },
                _ => ControllerStep::Session(candidate_step(&self.session_id, msg)),
            },
            ControllerPhase::Connected => ControllerStep::Session(candidate_step(&self.session_id, msg)),
            _ => ControllerStep::Session(SessionEvent::Ignore),
        }
    }

    /// The offer for the paired session, to send to the host.
    pub fn offer(&mut self, sdp: String) -> (m: ClientMessage)
        requires
            old(self).phase == ControllerPhase::Offering,
        ensures
            final(self).phase == ControllerPhase::AwaitAnswer,
            final(self).session_id == old(self).session_id,
            final(self).email == old(self).email && final(self).password == old(self).password,
            final(self).target_device_id == old(self).target_device_id && final(self).credential == old(self).credential,
            m == (ClientMessage::SdpOffer { session_id: old(self).session_id, sdp }),
    {
        self.phase = ControllerPhase::AwaitAnswer;
        ClientMessage::SdpOffer { session_id: self.session_id.clone(), sdp }
    }

    /// A local ICE candidate, to send to the host.
    pub fn local_candidate(&self, candidate: String) -> (m: ClientMessage)
        ensures
            m == (ClientMessage::IceCandidate { session_id: self.session_id, candidate }),
    {
        ClientMessage::IceCandidate { session_id: self.session_id.clone(), candidate }
    }
}

/// The device list a dashboard shows for `msg`, if it is one.
pub fn dashboard_devices(msg: ServerMessage) -> (r: Option<Vec<DeviceSummary>>)
    ensures
        match msg {
            ServerMessage::DeviceList { devices } => r == Some(devices),
            _ => r is None,
        },
{
    match msg {
        ServerMessage::DeviceList { devices } => Some(devices),
        _ => None,
    }
}

/// Once the offer is out, a message about another session never moves a
/// controller, nor makes it do anything.
pub proof fn lemma_controller_ignores_other_sessions(c: ControllerFlow, msg: ServerMessage, n: ControllerFlow, st: ControllerStep)
    requires
        c.phase == ControllerPhase::AwaitAnswer || c.phase == ControllerPhase::Connected,
        controller_step(c, msg, n, st),
        match msg {
            ServerMessage::SdpAnswer { session_id, .. } => session_id@ != c.session_id@,
            ServerMessage::IceCandidate { session_id, .. } => session_id@ != c.session_id@,
            _ => true,
        },
    ensures
        n.phase == c.phase,
        n.session_id == c.session_id,
        st == ControllerStep::Session(SessionEvent::Ignore),
{
}

/// Signing up with an existing account falls back to logging in with the
/// same email and password, for a host and a controller alike.
pub proof fn lemma_existing_account_logs_in(s: HostSetup, c: ControllerFlow, message: String, n: ControllerFlow, st: ControllerStep)
    requires
        s.phase == SetupPhase::AwaitRegister,
        c.phase == ControllerPhase::AwaitRegister,
        controller_step(c, ServerMessage::AuthError { message }, n, st),
    ensures
        setup_step(s, ServerMessage::AuthError { message }) == (
            SetupPhase::AwaitLogin,
            SetupStep::Send(ClientMessage::Login { email: s.email, password: s.password }),
        ),
        n.phase == ControllerPhase::AwaitLogin,
        st == ControllerStep::Send(ClientMessage::Login { email: c.email, password: c.password }),
{
}

/// One call into the operating system's input injection.
#[derive(Debug, Clone, PartialEq, Eq)]
pub enum InjectStep {
    /// Move the pointer to an absolute screen position.
    MoveMouse { x: i32, y: i32 },
    /// Press or release a mouse button.
    Button { button: MouseButton, press: bool },
    /// Scroll by `amount` notches, vertically or horizontally.
    Scroll { amount: i32, vertical: bool },
    /// Press or release a key.
    Key { key: KeyCode, press: bool },
    /// Type text.
    Text { text: String },
}

/// How an input event is replayed: one injection per event, except a
/// scroll, which scrolls vertically and then horizontally by the non-zero
/// amounts only.
pub open spec fn spec_injection_steps(event: InputEvent) -> Seq<InjectStep> {
    match event {
        InputEvent::MouseMove { x, y } => seq![InjectStep::MoveMouse { x, y }],
        InputEvent::MouseButton { button, pressed } => seq![InjectStep::Button { button, press: pressed }],
        InputEvent::MouseScroll { delta_x, delta_y } => {
            let v = if delta_y != 0 {
                seq![InjectStep::Scroll { amount: delta_y, vertical: true }]
            } else {
                Seq::empty()
            };
            let h = if delta_x != 0 {
                seq![InjectStep::Scroll { amount: delta_x, vertical: false }]
            } else {
                Seq::empty()
            };
            v + h
        },
        InputEvent::KeyEvent { key, pressed } => seq![InjectStep::Key { key, press: pressed }],
        InputEvent::TypeText { text } => seq![InjectStep::Text { text }],
    }
}

/// How an input event is replayed on the host.
pub fn injection_steps(event: InputEvent) -> (r: Vec<InjectStep>)
    ensures
        r@ == spec_injection_steps(event),
{
    match event {
        InputEvent::MouseMove { x, y } => vec![InjectStep::MoveMouse { x, y }],
        InputEvent::MouseButton { button, pressed } => vec![InjectStep::Button { button, press: pressed }],
        InputEvent::MouseScroll { delta_x, delta_y } => {
            let mut r: Vec<InjectStep> = Vec::new();
            if delta_y != 0 {
                r.push(InjectStep::Scroll { amount: delta_y, vertical: true });
            }
            if delta_x != 0 {
                r.push(InjectStep::Scroll { amount: delta_x, vertical: false });
            }
            assert(r@ =~= spec_injection_steps(InputEvent::MouseScroll { delta_x, delta_y }));
            r
        },
        InputEvent::KeyEvent { key, pressed } => vec![InjectStep::Key { key, press: pressed }],
        InputEvent::TypeText { text } => vec![InjectStep::Text { text }],
    }
}

/// The command line's value for a setting: the one given, else the one
/// embedded in the binary, else the fallback.
pub fn choose_setting(given: Option<String>, embedded: Option<String>, fallback: &str) -> (r: String)
    ensures
        r@ == match (given, embedded) {
            (Some(g), _) => g@,
            (None, Some(e)) => e@,
            (None, None) => fallback@,
        },
{
    match given {
        Some(g) => g,
        None => match embedded {
            Some(e) => e,
            None => String::from_str(fallback),
        },
    }
}

/// The credential a command-line controller presents: its password as an
/// unattended-access password when asked to, else as a one-time password.
pub fn credential_for(password: String, unattended: bool) -> (r: ConnectCredential)
    ensures
        r == if unattended {
            ConnectCredential::UnattendedPassword(password)
        } else {
            ConnectCredential::OneTimePassword(password)
        },
{
    if unattended {
        ConnectCredential::UnattendedPassword(password)
    } else {
        ConnectCredential::OneTimePassword(password)
    }
}

} // verus!
