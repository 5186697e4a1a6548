use visuara::accounts::{
    bootstrap_role, guard_last_admin, guard_needs_admin_count, registration_enabled_from, registration_setting_text,
    require_account, require_admin, Account, AccountRole, AccountSummary, AuthedAccount, Device,
};
use visuara::api::{
    account_detail, account_summaries, authed_account, check_login, clear_session_cookie, create_conflict,
    device_removal, device_summaries, hash_error, register_conflict, registration_gate, registration_shown,
    removal_notice, requested_role, role_change_needs_guard, saved_settings, set_session_cookie, session_error,
    settings_view, validate_credentials, Remover, SaveSettingsRequest,
};
use visuara::auth::hash_password;
use visuara::hub::SignalingHub;

fn account(id: i64, role: AccountRole) -> AuthedAccount {
    AuthedAccount { id, email: "a@example.com".into(), role }
}

#[test]
fn cannot_demote_or_delete_the_last_admin() {
    assert!(guard_needs_admin_count(Some(AccountRole::Admin)));
    assert!(!guard_needs_admin_count(Some(AccountRole::User)));
    assert!(!guard_needs_admin_count(None));
    let refused = guard_last_admin(Ok(1)).unwrap_err();
    assert_eq!(refused.status, 409);
    assert_eq!(refused.message, "cannot remove the last remaining admin account");
    assert!(guard_last_admin(Ok(2)).is_ok());
    let failed = guard_last_admin(Err("db locked".into())).unwrap_err();
    assert_eq!((failed.status, failed.message.as_str()), (500, "db locked"));
    assert!(role_change_needs_guard(AccountRole::User));
    assert!(!role_change_needs_guard(AccountRole::Admin));
}

#[test]
fn first_account_becomes_admin_and_closes_registration() {
    assert_eq!(bootstrap_role(0), (AccountRole::Admin, true));
    assert_eq!(bootstrap_role(3), (AccountRole::User, false));
    assert!(registration_enabled_from(None));
    assert!(registration_enabled_from(Some("true")));
    assert!(!registration_enabled_from(Some("false")));
    assert!(!registration_enabled_from(Some("TRUE")));
    assert_eq!(registration_setting_text(true), "true");
    assert_eq!(registration_setting_text(false), "false");
    assert_eq!(AccountRole::from_column("admin"), AccountRole::Admin);
    assert_eq!(AccountRole::from_column("user"), AccountRole::User);
    assert_eq!(AccountRole::from_column(""), AccountRole::User);
    assert_eq!(AccountRole::Admin.as_str(), "admin");
}

#[test]
fn admin_endpoints_need_an_admin_session() {
    assert_eq!(require_account(None).err(), Some(401));
    assert_eq!(require_admin(None).err(), Some(401));
    assert_eq!(require_admin(Some(account(1, AccountRole::User))).err(), Some(403));
    assert_eq!(require_admin(Some(account(1, AccountRole::Admin))).map(|a| a.id), Ok(1));
}

#[test]
fn sign_up_validation_and_errors() {
    assert_eq!(validate_credentials("  a@b.c  ", "pw").unwrap(), "a@b.c");
    let e = validate_credentials("   ", "pw").unwrap_err();
    assert_eq!((e.status, e.message.as_str()), (400, "email and password are required"));
    assert_eq!(validate_credentials("a@b.c", "").unwrap_err().status, 400);
    assert!(registration_gate(Ok(true)).is_ok());
    let e = registration_gate(Ok(false)).unwrap_err();
    assert_eq!((e.status, e.message.as_str()), (403, "registration is currently disabled"));
    assert_eq!(registration_gate(Err("io".into())).unwrap_err().status, 500);
    assert_eq!(hash_error("bad salt").message, "failed to hash password: bad salt");
    let e = register_conflict("UNIQUE constraint failed: accounts.email");
    assert_eq!((e.status, e.message.as_str()), (409, "That email is already registered — try logging in instead."));
    assert_eq!(register_conflict("disk full").message, "registration failed: disk full");
    assert_eq!(create_conflict("UNIQUE constraint failed").message, "That email is already registered.");
    assert_eq!(create_conflict("disk full").message, "failed to create account: disk full");
    assert_eq!(session_error("x").message, "failed to create session: x");
    assert_eq!(requested_role(None), AccountRole::User);
    assert_eq!(requested_role(Some(AccountRole::Admin)), AccountRole::Admin);
}

#[test]
fn login_checks_the_password_hash() {
    let stored = Account { id: 5, email: "u@x".into(), password_hash: hash_password("hunter2").unwrap(), role: AccountRole::User };
    assert_eq!(check_login(Ok(Some(stored.clone())), "hunter2").map(|a| a.id).ok(), Some(5));
    let e = check_login(Ok(Some(stored)), "wrong").unwrap_err();
    assert_eq!((e.status, e.message.as_str()), (401, "incorrect email or password"));
    assert_eq!(check_login(Ok(None), "x").unwrap_err().status, 401);
    assert_eq!(check_login(Err("db".into()), "x").unwrap_err().message, "db");
    let a = authed_account(Account { id: 9, email: "e".into(), password_hash: "h".into(), role: AccountRole::Admin });
    assert_eq!((a.id, a.email.as_str(), a.role), (9, "e", AccountRole::Admin));
}

#[test]
fn session_cookies() {
    assert_eq!(set_session_cookie("tok"), "visuara_session=tok; Path=/; HttpOnly; SameSite=Strict");
    assert_eq!(clear_session_cookie(), "visuara_session=; Path=/; Max-Age=0");
    assert!(registration_shown(Err("x".into())));
    assert!(!registration_shown(Ok(false)));
}

#[test]
fn device_lists_show_live_status() {
    let mut hub = SignalingHub::new();
    hub.open_connection(1);
    hub.register_online("111 222 333".into(), 1, "0000 0001".into());
    let devices = vec![
        Device { id: "111 222 333".into(), account_id: 1, name: "office".into(), unattended_password_hash: Some("h".into()) },
        Device { id: "999 999 999".into(), account_id: 1, name: "laptop".into(), unattended_password_hash: None },
    ];
    let s = device_summaries(devices.clone(), &hub);
    assert_eq!(s.len(), 2);
    assert!(s[0].online && s[0].unattended_access_enabled);
    assert!(!s[1].online && !s[1].unattended_access_enabled);
    assert_eq!(s[1].name, "laptop");
    let found = Account { id: 1, email: "o@x".into(), password_hash: "h".into(), role: AccountRole::User };
    let v = account_detail(Ok(Some(found)), devices, &hub).unwrap();
    assert_eq!(v.devices.len(), 2);
    assert_eq!(v.devices[0].id, "111 222 333");
    assert!(v.devices[0].online);
    let e = account_detail(Ok(None), vec![], &hub).unwrap_err();
    assert_eq!((e.status, e.message.as_str()), (404, "account not found"));
    let list = account_summaries(vec![AccountSummary { id: 3, email: "z@z".into(), created_at: 1_700_000_000, role: AccountRole::Admin }]);
    assert_eq!((list[0].id, list[0].created_at, list[0].role), (3, 1_700_000_000, AccountRole::Admin));
}

#[test]
fn device_removal_rules() {
    let dev = |owner: i64| Device { id: "d".into(), account_id: owner, name: "n".into(), unattended_password_hash: None };
    assert!(device_removal(Ok(Some(dev(1))), 1, Remover::Owner).is_ok());
    let e = device_removal(Ok(Some(dev(2))), 1, Remover::Owner).unwrap_err();
    assert_eq!((e.status, e.message.as_str()), (403, "not your device"));
    let e = device_removal(Ok(None), 1, Remover::Owner).unwrap_err();
    assert_eq!((e.status, e.message.as_str()), (404, "device not found"));
    let e = device_removal(Ok(Some(dev(2))), 1, Remover::Admin).unwrap_err();
    assert_eq!((e.status, e.message.as_str()), (404, "device not found for this account"));
    assert_eq!(device_removal(Err("db".into()), 1, Remover::Admin).unwrap_err().status, 500);
    assert_eq!(removal_notice(Remover::Owner), "This device was removed.");
    assert_eq!(removal_notice(Remover::Admin), "This device was removed by an administrator.");
}

#[test]
fn settings_are_trimmed_and_default_to_empty() {
    let v = saved_settings(&SaveSettingsRequest { server_url: "  wss://visuara.example.com/ws ".into(), default_device_name: " warehouse-01\n".into() });
    assert_eq!(v.server_url, "wss://visuara.example.com/ws");
    assert_eq!(v.default_device_name, "warehouse-01");
    let v = settings_view(None, Some("pc".into()));
    assert_eq!(v.server_url, "");
    assert_eq!(v.default_device_name, "pc");
}

#[test]
fn session_cookie_reads_back() {
    let token = visuara::auth::generate_session_token();
    let header = set_session_cookie(&token);
    let pair = header.split("; ").next().unwrap();
    assert_eq!(visuara::html::cookie_value(pair, visuara::api::SESSION_COOKIE), Some(token));
}

#[test]
fn one_time_passwords_follow_who_is_online() {
    let mut hub = SignalingHub::new();
    hub.open_connection(4);
    hub.register_online("dev".into(), 4, "1234 5678".into());
    assert!(hub.is_online("dev") && hub.otp_matches("dev", "1234 5678"));
    assert_eq!(hub.kick_device("dev"), Some(4));
    assert!(!hub.is_online("dev") && !hub.otp_matches("dev", "1234 5678"));
    assert_eq!(hub.kick_device("dev"), None);
    hub.register_online("dev".into(), 4, "0000 0000".into());
    hub.close_connection(4, Some("dev"));
    assert!(!hub.is_online("dev") && !hub.otp_matches("dev", "0000 0000"));
    assert!(!hub.is_connected(4));
}
