use visuara::accounts::{Account, AccountRole, Device};
use visuara::auth::hash_password;
use visuara::hub::SignalingHub;
use visuara::signaling::{ClientMessage, ConnectCredential, ServerMessage};
use visuara::turn::TurnConfig;
use visuara::ws::{ConnState, DbReply, DbRequest, Step, WsConnection};

fn turn() -> TurnConfig {
    TurnConfig { urls: vec!["turn:relay.example.com:3478".to_string()], shared_secret: "s3cret".to_string() }
}

fn only_send(step: Step) -> (u128, ServerMessage) {
    assert!(step.request.is_none());
    assert_eq!(step.sends.len(), 1);
    let o = step.sends.into_iter().next().unwrap();
    (o.to, o.msg)
}

fn register_host(hub: &mut SignalingHub, conn: &mut WsConnection) -> (String, String) {
    let t = turn();
    let step = conn.on_client_message(hub, &t, ClientMessage::Register { email: "host@example.com".into(), password: "hunter2".into() });
    assert!(matches!(step.request, Some(DbRequest::RegistrationEnabled)));
    let step = conn.on_db_reply(hub, DbReply::RegistrationEnabled(Ok(true)));
    match step.request {
        Some(DbRequest::CreateAccount { email, password_hash }) => {
            assert_eq!(email, "host@example.com");
            assert!(visuara::auth::verify_password("hunter2", &password_hash));
        }
        other => panic!("expected CreateAccount, got {other:?}"),
    }
    let (to, msg) = only_send(conn.on_db_reply(hub, DbReply::AccountCreated(Ok(1))));
    assert_eq!(to, conn.conn_id);
    assert!(matches!(msg, ServerMessage::AuthOk { session_token } if session_token.len() == 32));
    assert_eq!(conn.state, ConnState::Authenticated { account_id: 1 });

    let step = conn.on_client_message(hub, &t, ClientMessage::RegisterDevice { name: "office-pc".into() });
    let device_id = match step.request {
        Some(DbRequest::CreateDevice { device_id, account_id, name }) => {
            assert_eq!(account_id, 1);
            assert_eq!(name, "office-pc");
            device_id
        }
        other => panic!("expected CreateDevice, got {other:?}"),
    };
    let (to, msg) = only_send(conn.on_db_reply(hub, DbReply::DeviceCreated(Ok(()))));
    assert_eq!(to, conn.conn_id);
    match msg {
        ServerMessage::DeviceRegistered { device_id: d, one_time_password } => {
            assert_eq!(d, device_id);
            assert!(hub.is_online(&device_id));
            assert!(hub.otp_matches(&device_id, &one_time_password));
            (device_id, one_time_password)
        }
        other => panic!("expected DeviceRegistered, got {other:?}"),
    }
}

#[test]
fn full_pairing_and_relay_flow() {
    let mut hub = SignalingHub::new();
    let t = turn();
    let mut host = WsConnection::open(1, &mut hub);
    let mut ctrl = WsConnection::open(2, &mut hub);
    let (device_id, otp) = register_host(&mut hub, &mut host);

    let step = ctrl.on_client_message(&mut hub, &t, ClientMessage::Login { email: "controller@example.com".into(), password: "swordfish".into() });
    assert!(matches!(step.request, Some(DbRequest::FindAccountByEmail { ref email }) if email == "controller@example.com"));
    let account = Account { id: 2, email: "controller@example.com".into(), password_hash: hash_password("swordfish").unwrap(), role: AccountRole::User };
    let (to, msg) = only_send(ctrl.on_db_reply(&mut hub, DbReply::AccountFound(Ok(Some(account)))));
    assert_eq!(to, 2);
    assert!(matches!(msg, ServerMessage::AuthOk { .. }));

    let step = ctrl.on_client_message(&mut hub, &t, ClientMessage::RequestConnection { target_device_id: device_id.clone(), credential: ConnectCredential::OneTimePassword(otp.clone()) });
    assert!(matches!(step.request, Some(DbRequest::FindDevice { device_id: ref d }) if *d == device_id));
    let device = Device { id: device_id.clone(), account_id: 1, name: "office-pc".into(), unattended_password_hash: None };
    let step = ctrl.on_db_reply(&mut hub, DbReply::DeviceFound(Ok(Some(device))));
    assert!(step.request.is_none());
    assert_eq!(step.sends.len(), 2);
    let session_id = match (&step.sends[0].msg, &step.sends[1].msg) {
        (
            ServerMessage::IncomingConnection { session_id: s1, .. },
            ServerMessage::ConnectionEstablished { session_id: s2, target_device_id },
        ) => {
            assert_eq!(step.sends[0].to, 1);
            assert_eq!(step.sends[1].to, 2);
            assert_eq!(s1, s2);
            assert_eq!(target_device_id, &device_id);
            s1.clone()
        }
        other => panic!("expected IncomingConnection and ConnectionEstablished, got {other:?}"),
    };

    let (to, msg) = only_send(ctrl.on_client_message(&mut hub, &t, ClientMessage::SdpOffer { session_id: session_id.clone(), sdp: "v=0 offer".into() }));
    assert_eq!(to, 1);
    assert!(matches!(msg, ServerMessage::SdpOffer { sdp, .. } if sdp == "v=0 offer"));
    let (to, msg) = only_send(host.on_client_message(&mut hub, &t, ClientMessage::SdpAnswer { session_id: session_id.clone(), sdp: "v=0 answer".into() }));
    assert_eq!(to, 2);
    assert!(matches!(msg, ServerMessage::SdpAnswer { sdp, .. } if sdp == "v=0 answer"));
    let (to, msg) = only_send(ctrl.on_client_message(&mut hub, &t, ClientMessage::IceCandidate { session_id: session_id.clone(), candidate: "candidate-a".into() }));
    assert_eq!(to, 1);
    assert!(matches!(msg, ServerMessage::IceCandidate { candidate, .. } if candidate == "candidate-a"));
    let (to, msg) = only_send(host.on_client_message(&mut hub, &t, ClientMessage::IceCandidate { session_id: session_id.clone(), candidate: "candidate-b".into() }));
    assert_eq!(to, 2);
    assert!(matches!(msg, ServerMessage::IceCandidate { candidate, .. } if candidate == "candidate-b"));

    let (to, msg) = only_send(ctrl.on_client_message(&mut hub, &t, ClientMessage::RequestTurnCredentials));
    assert_eq!(to, 2);
    match msg {
        ServerMessage::TurnCredentials { urls, username, password, ttl_secs } => {
            assert_eq!(urls, vec!["turn:relay.example.com:3478".to_string()]);
            assert_eq!(ttl_secs, 300);
            assert!(username.ends_with(":00000000-0000-0000-0000-000000000002"));
            assert!(!password.is_empty());
        }
        other => panic!("expected TurnCredentials, got {other:?}"),
    }

    let (to, msg) = only_send(ctrl.on_client_message(&mut hub, &t, ClientMessage::SdpOffer { session_id: "nope".into(), sdp: "x".into() }));
    assert_eq!(to, 2);
    assert!(matches!(msg, ServerMessage::Error { message } if message == "unknown session"));

    let step = ctrl.on_client_message(&mut hub, &t, ClientMessage::SetUnattendedPassword { target_device_id: device_id.clone(), password: "unattended-pw".into() });
    assert!(matches!(step.request, Some(DbRequest::FindDevice { .. })));
    let device = Device { id: device_id.clone(), account_id: 1, name: "office-pc".into(), unattended_password_hash: None };
    let (to, msg) = only_send(ctrl.on_db_reply(&mut hub, DbReply::DeviceFound(Ok(Some(device)))));
    assert_eq!(to, 2);
    assert!(matches!(msg, ServerMessage::Error { message } if message == "not your device"));

    host.close(&mut hub);
    assert!(!hub.is_online(&device_id));
    let (to, msg) = only_send(ctrl.on_client_message(&mut hub, &t, ClientMessage::SdpOffer { session_id, sdp: "again".into() }));
    assert_eq!(to, 2);
    assert!(matches!(msg, ServerMessage::Error { message } if message == "peer disconnected"));
}

#[test]
fn unattended_password_is_pushed_to_the_online_host() {
    let mut hub = SignalingHub::new();
    let t = turn();
    let mut host = WsConnection::open(10, &mut hub);
    let (device_id, _) = register_host(&mut hub, &mut host);
    let step = host.on_client_message(&mut hub, &t, ClientMessage::SetUnattendedPassword { target_device_id: device_id.clone(), password: "unattended-pw".into() });
    assert!(matches!(step.request, Some(DbRequest::FindDevice { .. })));
    let device = Device { id: device_id.clone(), account_id: 1, name: "office-pc".into(), unattended_password_hash: None };
    let step = host.on_db_reply(&mut hub, DbReply::DeviceFound(Ok(Some(device))));
    match step.request {
        Some(DbRequest::SetUnattendedHash { device_id: d, hash }) => {
            assert_eq!(d, device_id);
            assert!(visuara::auth::verify_password("unattended-pw", &hash));
        }
        other => panic!("expected SetUnattendedHash, got {other:?}"),
    }
    let (to, msg) = only_send(host.on_db_reply(&mut hub, DbReply::HashStored(Ok(()))));
    assert_eq!(to, 10);
    assert!(matches!(msg, ServerMessage::UnattendedPasswordUpdated { password } if password == "unattended-pw"));
}

#[test]
fn unauthenticated_and_refused_requests() {
    let mut hub = SignalingHub::new();
    let t = turn();
    let mut conn = WsConnection::open(7, &mut hub);
    let (to, msg) = only_send(conn.on_client_message(&mut hub, &t, ClientMessage::RegisterDevice { name: "x".into() }));
    assert_eq!(to, 7);
    assert!(matches!(msg, ServerMessage::Error { message } if message == "not authenticated"));
    let (_, msg) = only_send(conn.on_client_message(&mut hub, &t, ClientMessage::ListDevices));
    assert!(matches!(msg, ServerMessage::Error { message } if message == "not authenticated"));

    conn.on_client_message(&mut hub, &t, ClientMessage::Register { email: "a@b.c".into(), password: "pw".into() });
    let (_, msg) = only_send(conn.on_db_reply(&mut hub, DbReply::RegistrationEnabled(Ok(false))));
    assert!(matches!(msg, ServerMessage::AuthError { message } if message == "registration is currently disabled"));

    conn.on_client_message(&mut hub, &t, ClientMessage::Login { email: "a@b.c".into(), password: "pw".into() });
    let (_, msg) = only_send(conn.on_db_reply(&mut hub, DbReply::AccountFound(Ok(None))));
    assert!(matches!(msg, ServerMessage::AuthError { message } if message == "invalid email or password"));

    conn.on_client_message(&mut hub, &t, ClientMessage::Register { email: "a@b.c".into(), password: "pw".into() });
    conn.on_db_reply(&mut hub, DbReply::RegistrationEnabled(Ok(true)));
    let (_, msg) = only_send(conn.on_db_reply(&mut hub, DbReply::AccountCreated(Err("UNIQUE constraint failed".into()))));
    assert!(matches!(msg, ServerMessage::AuthError { message } if message == "registration failed: UNIQUE constraint failed"));
}

#[test]
fn unreadable_registration_setting_counts_as_open() {
    let mut hub = SignalingHub::new();
    let t = turn();
    let mut conn = WsConnection::open(11, &mut hub);
    conn.on_client_message(&mut hub, &t, ClientMessage::Register { email: "a@b.c".into(), password: "pw".into() });
    let step = conn.on_db_reply(&mut hub, DbReply::RegistrationEnabled(Err("database is locked".into())));
    assert!(step.sends.is_empty());
    match step.request {
        Some(DbRequest::CreateAccount { email, password_hash }) => {
            assert_eq!(email, "a@b.c");
            assert!(visuara::auth::verify_password("pw", &password_hash));
        }
        other => panic!("expected CreateAccount, got {other:?}"),
    }
}
