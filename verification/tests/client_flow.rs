use visuara::client_flow::{
    choose_setting, credential_for, dashboard_devices, host_control, ice_servers_from_turn, idle_action, injection_steps,
    login_message, unattended_push_reply, ControllerFlow, ControllerPhase, ControllerStep, FlowError, HostControl,
    HostPhase, HostSession, HostSetup, IdleAction, InjectStep, SessionEvent, SetupPhase, SetupStep, TurnCredentials,
};
use visuara::control::{ClipboardMessage, ControlMessage, FileTransferMessage, InputEvent, KeyCode, MonitorMessage, MouseButton};
use visuara::signaling::{ClientMessage, ConnectCredential, DeviceSummary, ServerMessage};

#[test]
fn host_registers_after_falling_back_to_login() {
    let (mut setup, first) = HostSetup::start("host@test.local".into(), "hunter2".into(), "test-host".into());
    assert!(matches!(first, ClientMessage::Register { ref email, ref password } if email == "host@test.local" && password == "hunter2"));
    match setup.on_server_message(ServerMessage::AuthError { message: "taken".into() }) {
        SetupStep::Send(ClientMessage::Login { email, password }) => {
            assert_eq!(email, "host@test.local");
            assert_eq!(password, "hunter2");
        }
        other => panic!("expected Login, got {other:?}"),
    }
    assert_eq!(setup.phase, SetupPhase::AwaitLogin);
    assert!(matches!(setup.on_server_message(ServerMessage::AuthOk { session_token: "t".into() }),
        SetupStep::Send(ClientMessage::RegisterDevice { name }) if name == "test-host"));
    match setup.on_server_message(ServerMessage::DeviceRegistered { device_id: "123 456 789".into(), one_time_password: "0042 9137".into() }) {
        SetupStep::Registered(h) => {
            assert_eq!(h.device_id, "123 456 789");
            assert_eq!(h.one_time_password, "0042 9137");
        }
        other => panic!("expected Registered, got {other:?}"),
    }
    assert_eq!(setup.phase, SetupPhase::Done);
    assert!(matches!(setup.on_server_message(ServerMessage::AuthOk { session_token: "t".into() }), SetupStep::Ignored));
}

#[test]
fn host_setup_failures_carry_the_offending_message() {
    let (mut setup, _) = HostSetup::start("a".into(), "b".into(), "c".into());
    match setup.on_server_message(ServerMessage::Error { message: "boom".into() }) {
        SetupStep::Failed(e) => {
            assert_eq!(e.prefix(), "unexpected auth response: ");
            assert!(matches!(e.message(), ServerMessage::Error { message } if message == "boom"));
        }
        other => panic!("expected failure, got {other:?}"),
    }
    let (mut setup, _) = HostSetup::start("a".into(), "b".into(), "c".into());
    setup.on_server_message(ServerMessage::AuthError { message: "x".into() });
    assert!(matches!(setup.on_server_message(ServerMessage::AuthError { message: "bad".into() }),
        SetupStep::Failed(FlowError::LoginFailed(_))));
    let (mut setup, _) = HostSetup::start("a".into(), "b".into(), "c".into());
    setup.on_server_message(ServerMessage::AuthOk { session_token: "t".into() });
    match setup.on_server_message(ServerMessage::Error { message: "nope".into() }) {
        SetupStep::Failed(e) => assert_eq!(e.prefix(), "expected DeviceRegistered, got "),
        other => panic!("expected failure, got {other:?}"),
    }
}

#[test]
fn idle_host_accepts_incoming_connections() {
    assert!(matches!(idle_action(ServerMessage::IncomingConnection { session_id: "s1".into(), from_device_id: None }),
        IdleAction::Accept { session_id } if session_id == "s1"));
    assert!(matches!(idle_action(ServerMessage::Error { message: "m".into() }), IdleAction::ServerError { message } if message == "m"));
    assert!(matches!(idle_action(ServerMessage::AuthOk { session_token: "t".into() }), IdleAction::Ignore));
}

#[test]
fn host_session_negotiates_only_its_own_session() {
    let (mut s, first) = HostSession::start("sess".into());
    assert!(matches!(first, ClientMessage::RequestTurnCredentials));
    match s.on_server_message(ServerMessage::TurnCredentials {
        urls: vec!["turn:a".into(), "turn:b".into()],
        username: "u".into(),
        password: "p".into(),
        ttl_secs: 300,
    }) {
        SessionEvent::IceServers(v) => {
            assert_eq!(v.len(), 1);
            assert_eq!(v[0].urls, vec!["turn:a".to_string(), "turn:b".to_string()]);
            assert_eq!(v[0].username, "u");
            assert_eq!(v[0].credential, "p");
        }
        other => panic!("expected IceServers, got {other:?}"),
    }
    assert_eq!(s.phase, HostPhase::AwaitOffer);
    assert!(matches!(s.on_server_message(ServerMessage::SdpOffer { session_id: "other".into(), sdp: "x".into() }), SessionEvent::Ignore));
    assert!(matches!(s.on_server_message(ServerMessage::IceCandidate { session_id: "sess".into(), candidate: "c1".into() }),
        SessionEvent::AddRemoteCandidate(c) if c == "c1"));
    assert!(matches!(s.on_server_message(ServerMessage::SdpOffer { session_id: "sess".into(), sdp: "v=0 offer".into() }),
        SessionEvent::RemoteOffer(sdp) if sdp == "v=0 offer"));
    assert_eq!(s.phase, HostPhase::Answering);
    assert!(matches!(s.answer("v=0 answer".into()), ClientMessage::SdpAnswer { session_id, sdp } if session_id == "sess" && sdp == "v=0 answer"));
    assert_eq!(s.phase, HostPhase::Streaming);
    assert!(matches!(s.on_server_message(ServerMessage::IceCandidate { session_id: "other".into(), candidate: "c".into() }), SessionEvent::Ignore));
    assert!(matches!(s.local_candidate("mine".into()), ClientMessage::IceCandidate { session_id, candidate } if session_id == "sess" && candidate == "mine"));
}

#[test]
fn host_without_turn_reply_gets_no_relays() {
    let (mut s, _) = HostSession::start("sess".into());
    assert!(matches!(s.on_server_message(ServerMessage::Error { message: "x".into() }), SessionEvent::IceServers(v) if v.is_empty()));
}

#[test]
fn controller_connects_end_to_end() {
    let (mut c, first) = ControllerFlow::start("controller@test.local".into(), "swordfish".into(), "123 456 789".into(), ConnectCredential::OneTimePassword("0042 9137".into()));
    assert!(matches!(first, ClientMessage::Register { .. }));
    assert!(matches!(c.on_server_message(ServerMessage::AuthOk { session_token: "t".into() }), ControllerStep::Send(ClientMessage::RequestTurnCredentials)));
    match c.on_server_message(ServerMessage::TurnCredentials { urls: vec!["turn:x".into()], username: "u".into(), password: "p".into(), ttl_secs: 300 }) {
        ControllerStep::Configure { servers, then } => {
            assert_eq!(servers.len(), 1);
            match then {
                ClientMessage::RequestConnection { target_device_id, credential: ConnectCredential::OneTimePassword(p) } => {
                    assert_eq!(target_device_id, "123 456 789");
                    assert_eq!(p, "0042 9137");
                }
                other => panic!("expected RequestConnection, got {other:?}"),
            }
        }
        other => panic!("expected Configure, got {other:?}"),
    }
    assert!(matches!(c.on_server_message(ServerMessage::ConnectionEstablished { session_id: "sid".into(), target_device_id: "123 456 789".into() }),
        ControllerStep::Paired { session_id } if session_id == "sid"));
    assert_eq!(c.phase, ControllerPhase::Offering);
    assert!(matches!(c.offer("v=0 offer".into()), ClientMessage::SdpOffer { session_id, sdp } if session_id == "sid" && sdp == "v=0 offer"));
    assert!(matches!(c.on_server_message(ServerMessage::SdpAnswer { session_id: "zzz".into(), sdp: "a".into() }), ControllerStep::Session(SessionEvent::Ignore)));
    assert!(matches!(c.on_server_message(ServerMessage::IceCandidate { session_id: "sid".into(), candidate: "c".into() }),
        ControllerStep::Session(SessionEvent::AddRemoteCandidate(x)) if x == "c"));
    assert!(matches!(c.on_server_message(ServerMessage::SdpAnswer { session_id: "sid".into(), sdp: "v=0 answer".into() }),
        ControllerStep::Session(SessionEvent::RemoteAnswer(a)) if a == "v=0 answer"));
    assert_eq!(c.phase, ControllerPhase::Connected);
}

#[test]
fn controller_gives_up_without_pairing() {
    let (mut c, _) = ControllerFlow::start("e".into(), "p".into(), "t".into(), ConnectCredential::UnattendedPassword("u".into()));
    c.on_server_message(ServerMessage::AuthError { message: "exists".into() });
    assert_eq!(c.phase, ControllerPhase::AwaitLogin);
    c.on_server_message(ServerMessage::AuthOk { session_token: "t".into() });
    c.on_server_message(ServerMessage::Error { message: "no turn".into() });
    match c.on_server_message(ServerMessage::Error { message: "device is offline".into() }) {
        ControllerStep::Failed(e) => assert_eq!(e.prefix(), "expected ConnectionEstablished, got "),
        other => panic!("expected failure, got {other:?}"),
    }
    assert_eq!(c.phase, ControllerPhase::Failed);
}

#[test]
fn host_control_dispatch() {
    assert!(matches!(host_control(ControlMessage::Input(InputEvent::MouseMove { x: 123, y: 456 })),
        HostControl::Inject(InputEvent::MouseMove { x: 123, y: 456 })));
    assert!(matches!(host_control(ControlMessage::Clipboard(ClipboardMessage::TextUpdated { text: "t".into() })),
        HostControl::RemoteClipboard(t) if t == "t"));
    assert!(matches!(host_control(ControlMessage::File(FileTransferMessage::Complete { transfer_id: "x".into() })), HostControl::File(_)));
    assert!(matches!(host_control(ControlMessage::Monitor(MonitorMessage::ListRequest)), HostControl::SendMonitorList));
    assert!(matches!(host_control(ControlMessage::Monitor(MonitorMessage::SwitchRequest { monitor_id: 2 })),
        HostControl::SwitchMonitor { monitor_id: 2, reply: ControlMessage::Monitor(MonitorMessage::Switched { monitor_id: 2 }) }));
    assert!(matches!(host_control(ControlMessage::Monitor(MonitorMessage::Switched { monitor_id: 2 })), HostControl::Ignore));
}

#[test]
fn injection_plan_scrolls_vertically_first_and_skips_zero() {
    assert_eq!(injection_steps(InputEvent::MouseScroll { delta_x: 3, delta_y: -2 }),
        vec![InjectStep::Scroll { amount: -2, vertical: true }, InjectStep::Scroll { amount: 3, vertical: false }]);
    assert_eq!(injection_steps(InputEvent::MouseScroll { delta_x: 0, delta_y: 0 }), vec![]);
    assert_eq!(injection_steps(InputEvent::MouseButton { button: MouseButton::Left, pressed: true }),
        vec![InjectStep::Button { button: MouseButton::Left, press: true }]);
    assert_eq!(injection_steps(InputEvent::KeyEvent { key: KeyCode::Enter, pressed: false }),
        vec![InjectStep::Key { key: KeyCode::Enter, press: false }]);
    assert_eq!(injection_steps(InputEvent::TypeText { text: "hi".into() }), vec![InjectStep::Text { text: "hi".into() }]);
}

#[test]
fn unattended_push_and_small_helpers() {
    assert!(matches!(login_message("e".into(), "p".into()), ClientMessage::Login { email, password } if email == "e" && password == "p"));
    assert!(matches!(unattended_push_reply(ServerMessage::AuthOk { session_token: "t".into() }, "dev".into(), "pw".into()),
        Ok(ClientMessage::SetUnattendedPassword { target_device_id, password }) if target_device_id == "dev" && password == "pw"));
    assert!(matches!(unattended_push_reply(ServerMessage::AuthError { message: "m".into() }, "dev".into(), "pw".into()),
        Err(FlowError::LoginFailed(_))));
    let creds = TurnCredentials { urls: vec!["turn:x".into()], username: "u".into(), password: "p".into() };
    let servers = ice_servers_from_turn(&creds);
    assert_eq!(servers.len(), 1);
    assert_eq!(servers[0].credential, "p");
    assert_eq!(choose_setting(Some("a".into()), Some("b".into()), "c"), "a");
    assert_eq!(choose_setting(None, Some("b".into()), "c"), "b");
    assert_eq!(choose_setting(None, None, "ws://127.0.0.1:8080/ws"), "ws://127.0.0.1:8080/ws");
    assert!(matches!(credential_for("x".into(), true), ConnectCredential::UnattendedPassword(p) if p == "x"));
    assert!(matches!(credential_for("x".into(), false), ConnectCredential::OneTimePassword(p) if p == "x"));
    let devices = vec![DeviceSummary { device_id: "1".into(), name: "n".into(), online: true, unattended_access_enabled: false }];
    assert_eq!(dashboard_devices(ServerMessage::DeviceList { devices }).map(|d| d.len()), Some(1));
    assert!(dashboard_devices(ServerMessage::AuthOk { session_token: "t".into() }).is_none());
}
