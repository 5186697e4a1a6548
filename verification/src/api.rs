//! The decisions of the server's JSON API (`/api/v1`): the bodies it
//! answers with, the validation of what it is sent, and which error status
//! and message each failure gets. The HTTP framework, the database and the
//! serialisation stay with the caller, which hands in what it read and
//! sends back what it is given.

use vstd::prelude::*;
use crate::accounts::{Account, AccountRole, AccountSummary, ApiError, AuthedAccount, Device, STATUS_CONFLICT, STATUS_FORBIDDEN, STATUS_UNAUTHORIZED};
use crate::auth::{password_matches, verify_password};
use crate::hub::SignalingHub;
use crate::signaling::DeviceSummary;
use crate::html::{cookie_pair, lookup_cookie, spec_cookie_value};
use crate::text::{concat2, contains, is_ws, lemma_index_of_is, split_on, str_contains, to_owned, trim, trim_end, trim_start, trim_str, push_str};
use vstd::string::StringSliceAdditionalSpecFns;

verus! {

/// Bad request.
pub const STATUS_BAD_REQUEST: u16 = 400;

/// Not found.
pub const STATUS_NOT_FOUND: u16 = 404;

/// Internal server error.
pub const STATUS_INTERNAL: u16 = 500;

/// Bad gateway.
pub const STATUS_BAD_GATEWAY: u16 = 502;

/// `e` is status `status` with message `m`.
pub open spec fn is_error(e: ApiError, status: u16, m: Seq<char>) -> bool {
    e.status == status && e.message@ == m
}

/// A failure of the storage or another internal step: 500 with its message.
pub fn internal_error(message: String) -> (e: ApiError)
    ensures
        is_error(e, STATUS_INTERNAL, message@),
{
    ApiError { status: STATUS_INTERNAL, message }
}

/// `prefix` followed by `detail`, as an error with `status`.
fn prefixed_error(status: u16, prefix: &str, detail: &str) -> (e: ApiError)
    ensures
        is_error(e, status, prefix@ + detail@),
{
    ApiError { status, message: concat2(prefix, detail) }
}

/// The account fields shown after logging in or registering.
#[derive(Debug, Clone)]
pub struct AccountView {
    pub id: i64,
    pub email: String,
    pub role: AccountRole,
}

/// A registration request.
#[derive(Debug, Clone)]
pub struct RegisterRequest {
    pub email: String,
    pub password: String,
}

/// A login request.
#[derive(Debug, Clone)]
pub struct LoginRequest {
    pub email: String,
    pub password: String,
}

/// Whether public registration is open.
#[derive(Debug, Clone, Copy)]
pub struct RegistrationStatus {
    pub enabled: bool,
}

/// The email (trimmed) and password of a sign-up, or 400 when either is
/// empty.
pub fn validate_credentials(email: &str, password: &str) -> (r: Result<String, ApiError>)
    ensures
        match r {
            Ok(e) => e@ == trim(email@) && trim(email@).len() > 0 && password@.len() > 0,
            Err(e) => (trim(email@).len() == 0 || password@.len() == 0)
                && is_error(e, STATUS_BAD_REQUEST, "email and password are required"@),
        },
{
    let trimmed = trim_str(email);
    if trimmed.as_str().unicode_len() == 0 || password.unicode_len() == 0 {
        Err(ApiError { status: STATUS_BAD_REQUEST, message: to_owned("email and password are required") })
    } else {
        Ok(trimmed)
    }
}

/// Public sign-up is let through only while registration is open: closed
/// is 403, an unreadable setting is 500.
pub fn registration_gate(enabled: Result<bool, String>) -> (r: Result<(), ApiError>)
    ensures
        match enabled {
            Ok(true) => r is Ok,
            Ok(false) => r matches Err(e) && is_error(e, STATUS_FORBIDDEN, "registration is currently disabled"@),
            Err(m) => r matches Err(e) && is_error(e, STATUS_INTERNAL, m@),
        },
{
    match enabled {
        Ok(true) => Ok(()),
        Ok(false) => Err(ApiError { status: STATUS_FORBIDDEN, message: to_owned("registration is currently disabled") }),
        Err(m) => Err(internal_error(m)),
    }
}

/// A password that could not be hashed: 500.
pub fn hash_error(message: &str) -> (e: ApiError)
    ensures
        is_error(e, STATUS_INTERNAL, "failed to hash password: "@ + message@),
{
    prefixed_error(STATUS_INTERNAL, "failed to hash password: ", message)
}

/// A sign-up the storage refused: 409, worded for an email that is taken
/// (the storage's uniqueness error) or carrying the storage's message.
pub fn register_conflict(message: &str) -> (e: ApiError)
    ensures
        e.status == STATUS_CONFLICT,
        e.message@ == if contains(message@, "UNIQUE"@) {
            "That email is already registered — try logging in instead."@
        } else {
            "registration failed: "@ + message@
        },
{
    if str_contains(message, "UNIQUE") {
        ApiError { status: STATUS_CONFLICT, message: to_owned("That email is already registered — try logging in instead.") }
    } else {
        prefixed_error(STATUS_CONFLICT, "registration failed: ", message)
    }
}

/// An admin-created account the storage refused: 409, worded for an email
/// that is taken or carrying the storage's message.
pub fn create_conflict(message: &str) -> (e: ApiError)
    ensures
        e.status == STATUS_CONFLICT,
        e.message@ == if contains(message@, "UNIQUE"@) {
            "That email is already registered."@
        } else {
            "failed to create account: "@ + message@
        },
{
    if str_contains(message, "UNIQUE") {
        ApiError { status: STATUS_CONFLICT, message: to_owned("That email is already registered.") }
    } else {
        prefixed_error(STATUS_CONFLICT, "failed to create account: ", message)
    }
}

/// A login: the account found for the (trimmed) email, if the password
/// matches its hash; 401 for an unknown email or a wrong password alike, 500
/// when the lookup failed.
pub fn check_login(found: Result<Option<Account>, String>, password: &str) -> (r: Result<Account, ApiError>)
    ensures
        match found {
            Ok(Some(a)) => if password_matches(password.spec_bytes(), a.password_hash@) {
                r == Ok::<Account, ApiError>(a)
            } else {
                r matches Err(e) && is_error(e, STATUS_UNAUTHORIZED, "incorrect email or password"@)
            },
            Ok(None) => r matches Err(e) && is_error(e, STATUS_UNAUTHORIZED, "incorrect email or password"@),
            Err(m) => r matches Err(e) && is_error(e, STATUS_INTERNAL, m@),
        },
{
    match found {
        Ok(Some(a)) => {
            if verify_password(password, a.password_hash.as_str()) {
                Ok(a)
            } else {
                Err(ApiError { status: STATUS_UNAUTHORIZED, message: to_owned("incorrect email or password") })
            }
        },
        Ok(None) => Err(ApiError { status: STATUS_UNAUTHORIZED, message: to_owned("incorrect email or password") }),
        Err(m) => Err(internal_error(m)),
    }
}

/// A session that could not be stored: 500.
pub fn session_error(message: &str) -> (e: ApiError)
    ensures
        is_error(e, STATUS_INTERNAL, "failed to create session: "@ + message@),
{
    prefixed_error(STATUS_INTERNAL, "failed to create session: ", message)
}

/// The name of the session cookie.
pub const SESSION_COOKIE: &'static str = "visuara_session";

/// The `Set-Cookie` value that starts a session with `token`.
pub fn set_session_cookie(token: &str) -> (r: String)
    ensures
        r@ == "visuara_session="@ + token@ + "; Path=/; HttpOnly; SameSite=Strict"@,
{
    let mut r = to_owned("visuara_session=");
    push_str(&mut r, token);
    push_str(&mut r, "; Path=/; HttpOnly; SameSite=Strict");
    r
}

/// The `Set-Cookie` value that ends a session.
pub fn clear_session_cookie() -> (r: String)
    ensures
        r@ == "visuara_session=; Path=/; Max-Age=0"@,
{
    to_owned("visuara_session=; Path=/; Max-Age=0")
}

/// The session cookie the server sets is the one it reads back: a browser
/// that returns the name and value at the head of `set_session_cookie`'s
/// header makes `cookie_value` find the very token, for any token free of
/// whitespace and `;` (as generated tokens are).
pub proof fn lemma_session_cookie_reads_back(token: Seq<char>)
    requires
        forall|i: int| 0 <= i < token.len() ==> token[i] != ';' && !is_ws(token[i]),
    ensures
        ("visuara_session="@ + token + "; Path=/; HttpOnly; SameSite=Strict"@).take(16 + token.len() as int)
            == "visuara_session="@ + token,
        spec_cookie_value("visuara_session="@ + token, SESSION_COOKIE@) == Some(token),
{
    reveal_strlit("visuara_session=");
    reveal_strlit("visuara_session");
    let p = "visuara_session="@;
    let h = p + token;
    assert(p.len() == 16);
    assert((h + "; Path=/; HttpOnly; SameSite=Strict"@).take(16 + token.len() as int) =~= h);
    assert forall|j: int| 0 <= j < h.len() implies h[j] != ';' by {
        if j >= 16 {
            assert(h[j] == token[j - 16]);
        }
    }
    lemma_index_of_is(h, ';', -1);
    assert(split_on(h, ';') == seq![h]);
    assert(!is_ws(h[0]));
    assert(trim_start(h) == h);
    assert(!is_ws(h.last())) by {
        if token.len() > 0 {
            assert(h.last() == token[token.len() - 1]);
        } else {
            assert(h.last() == '=');
        }
    }
    assert(trim_end(h) == h);
    assert(trim(h) == h);
    assert forall|j: int| 0 <= j < h.len() && j < 15 implies h[j] != '=' by {}
    lemma_index_of_is(h, '=', 15);
    assert(h.take(15) =~= SESSION_COOKIE@);
    assert(h.skip(16) =~= token);
    assert(cookie_pair(h) == Some((h.take(15), h.skip(16))));
    assert(seq![h][0] == h);
    assert(lookup_cookie(seq![h], SESSION_COOKIE@) == Some(token));
}

/// The logged-in account behind a stored session.
pub fn authed_account(a: Account) -> (r: AuthedAccount)
    ensures
        r.id == a.id && r.email == a.email && r.role == a.role,
{
    AuthedAccount { id: a.id, email: a.email, role: a.role }
}

/// What public registration status shows: an unreadable setting reads as
/// open.
pub fn registration_shown(enabled: Result<bool, String>) -> (r: bool)
    ensures
        r == match enabled {
            Ok(b) => b,
            Err(_) => true,
        },
{
    match enabled {
        Ok(b) => b,
        Err(_) => true,
    }
}

/// A device as listed to its owner: online when the hub has it online,
/// unattended access when it has an unattended-password hash.
pub open spec fn summary_of(d: Device, online: bool) -> DeviceSummary {
    DeviceSummary {
        device_id: d.id,
        name: d.name,
        online,
        unattended_access_enabled: d.unattended_password_hash is Some,
    }
}

/// The owner's device list, with live online status from `hub`.
pub fn device_summaries(devices: Vec<Device>, hub: &SignalingHub) -> (r: Vec<DeviceSummary>)
    ensures
        r@.len() == devices@.len(),
        forall|i: int| 0 <= i < devices@.len() ==> #[trigger] r@[i] == summary_of(
            devices@[i],
            hub@.online.contains_key(devices@[i].id@),
        ),
{
    let mut r: Vec<DeviceSummary> = Vec::new();
    let mut i: usize = 0;
    while i < devices.len()
        invariant
            i <= devices@.len(),
            r@.len() == i,
            forall|k: int| 0 <= k < i ==> #[trigger] r@[k] == summary_of(
                devices@[k],
                hub@.online.contains_key(devices@[k].id@),
            ),
        decreases devices@.len() - i,
    {
        let d = &devices[i];
        let online = hub.is_online(d.id.as_str());
        r.push(DeviceSummary {
            device_id: d.id.clone(),
            name: d.name.clone(),
            online,
            unattended_access_enabled: d.unattended_password_hash.is_some(),
        });
        i = i + 1;
    }
    r
}

/// A device as the admin's account page shows it.
#[derive(Debug, Clone)]
pub struct DeviceView {
    pub id: String,
    pub name: String,
    pub online: bool,
    pub unattended_access_enabled: bool,
}

/// An account with its devices, for the admin.
#[derive(Debug, Clone)]
pub struct AccountDetailView {
    pub id: i64,
    pub email: String,
    pub role: AccountRole,
    pub devices: Vec<DeviceView>,
}

/// An account as the admin's account list shows it.
#[derive(Debug, Clone)]
pub struct AccountSummaryView {
    pub id: i64,
    pub email: String,
    pub created_at: i64,
    pub role: AccountRole,
}

/// The admin's view of a device.
pub open spec fn view_of(s: DeviceSummary) -> DeviceView {
    DeviceView { id: s.device_id, name: s.name, online: s.online, unattended_access_enabled: s.unattended_access_enabled }
}

/// The admin's page for an account: its fields and its devices with live
/// online status; 404 for an unknown account, 500 when the lookup failed.
pub fn account_detail(found: Result<Option<Account>, String>, devices: Vec<Device>, hub: &SignalingHub) -> (r: Result<AccountDetailView, ApiError>)
    ensures
        match found {
            Ok(Some(a)) => r matches Ok(v) && v.id == a.id && v.email == a.email && v.role == a.role
                && v.devices@.len() == devices@.len()
                && forall|i: int| 0 <= i < devices@.len() ==> #[trigger] v.devices@[i] == view_of(
                    summary_of(devices@[i], hub@.online.contains_key(devices@[i].id@)),
                ),
            Ok(None) => r matches Err(e) && is_error(e, STATUS_NOT_FOUND, "account not found"@),
            Err(m) => r matches Err(e) && is_error(e, STATUS_INTERNAL, m@),
        },
{
    let a = match found {
        Ok(Some(a)) => a,
        Ok(None) => return Err(ApiError { status: STATUS_NOT_FOUND, message: to_owned("account not found") }),
        Err(m) => return Err(internal_error(m)),
    };
    let summaries = device_summaries(devices, hub);
    let mut views: Vec<DeviceView> = Vec::new();
    let mut i: usize = 0;
    while i < summaries.len()
        invariant
            i <= summaries@.len(),
            views@.len() == i,
            forall|k: int| 0 <= k < i ==> #[trigger] views@[k] == view_of(summaries@[k]),
        decreases summaries@.len() - i,
    {
        let s = &summaries[i];
        views.push(DeviceView {
            id: s.device_id.clone(),
            name: s.name.clone(),
            online: s.online,
            unattended_access_enabled: s.unattended_access_enabled,
        });
        i = i + 1;
    }
    Ok(AccountDetailView { id: a.id, email: a.email, role: a.role, devices: views })
}

/// The admin's account list.
pub fn account_summaries(accounts: Vec<AccountSummary>) -> (r: Vec<AccountSummaryView>)
    ensures
        r@.len() == accounts@.len(),
        forall|i: int| 0 <= i < accounts@.len() ==> {
            let a = #[trigger] accounts@[i];
            r@[i] == (AccountSummaryView { id: a.id, email: a.email, created_at: a.created_at, role: a.role })
        },
{
    let mut r: Vec<AccountSummaryView> = Vec::new();
    let mut i: usize = 0;
    while i < accounts.len()
        invariant
            i <= accounts@.len(),
            r@.len() == i,
            forall|k: int| 0 <= k < i ==> {
                let a = #[trigger] accounts@[k];
                r@[k] == (AccountSummaryView { id: a.id, email: a.email, created_at: a.created_at, role: a.role })
            },
        decreases accounts@.len() - i,
    {
        let a = &accounts[i];
        r.push(AccountSummaryView { id: a.id, email: a.email.clone(), created_at: a.created_at, role: a.role });
        i = i + 1;
    }
    r
}

/// An account the admin asks to create.
#[derive(Debug, Clone)]
pub struct CreateAccountRequest {
    pub email: String,
    pub password: String,
    pub role: Option<AccountRole>,
}

/// The account the admin created.
#[derive(Debug, Clone)]
pub struct CreatedAccountView {
    pub id: i64,
    pub email: String,
    pub role: AccountRole,
}

/// A new role for an account.
#[derive(Debug, Clone, Copy)]
pub struct SetRoleRequest {
    pub role: AccountRole,
}

/// The registration switch, as the admin sees it.
#[derive(Debug, Clone, Copy)]
pub struct RegistrationSetting {
    pub enabled: bool,
}

/// A new position for the registration switch.
#[derive(Debug, Clone, Copy)]
pub struct SetRegistrationRequest {
    pub enabled: bool,
}

/// The role of an admin-created account: the one asked for, else user.
pub fn requested_role(role: Option<AccountRole>) -> (r: AccountRole)
    ensures
        r == match role {
            Some(x) => x,
            None => AccountRole::User,
        },
{
    match role {
        Some(x) => x,
        None => AccountRole::User,
    }
}

/// Whether a role change must pass the last-admin guard: any change to a
/// role other than admin might demote the last admin.
pub fn role_change_needs_guard(new_role: AccountRole) -> (r: bool)
    ensures
        r == (new_role != AccountRole::Admin),
{
    new_role != AccountRole::Admin
}

/// Who removes a device.
#[derive(Debug, Clone, Copy, PartialEq, Eq, Structural)]
pub enum Remover {
    /// The device's owner.
    Owner,
    /// An administrator, acting on the given account's devices.
    Admin,
}

/// The notice a removed device's live connection gets.
pub open spec fn spec_removal_notice(by: Remover) -> Seq<char> {
    match by {
        Remover::Owner => "This device was removed."@,
        Remover::Admin => "This device was removed by an administrator."@,
    }
}

/// The notice a removed device's live connection gets.
pub fn removal_notice(by: Remover) -> (r: String)
    ensures
        r@ == spec_removal_notice(by),
{
    match by {
        Remover::Owner => to_owned("This device was removed."),
        Remover::Admin => to_owned("This device was removed by an administrator."),
    }
}

/// Whether device removal may go ahead, given the lookup of the device and
/// the account it must belong to. An owner gets 403 for another account's
/// device and 404 for an unknown one; an admin gets 404 for both; a failed
/// lookup is 500.
pub fn device_removal(found: Result<Option<Device>, String>, account_id: i64, by: Remover) -> (r: Result<(), ApiError>)
    ensures
        match found {
            Ok(Some(d)) => if d.account_id == account_id {
                r is Ok
            } else {
                r matches Err(e) && match by {
                    Remover::Owner => is_error(e, STATUS_FORBIDDEN, "not your device"@),
                    Remover::Admin => is_error(e, STATUS_NOT_FOUND, "device not found for this account"@),
                }
            },
            Ok(None) => r matches Err(e) && match by {
                Remover::Owner => is_error(e, STATUS_NOT_FOUND, "device not found"@),
                Remover::Admin => is_error(e, STATUS_NOT_FOUND, "device not found for this account"@),
            },
            Err(m) => r matches Err(e) && is_error(e, STATUS_INTERNAL, m@),
        },
{
    match found {
        Ok(Some(d)) => {
            if d.account_id == account_id {
                Ok(())
            } else {
                match by {
                    Remover::Owner => Err(ApiError { status: STATUS_FORBIDDEN, message: to_owned("not your device") }),
                    Remover::Admin => Err(ApiError { status: STATUS_NOT_FOUND, message: to_owned("device not found for this account") }),
                }
            }
        },
        Ok(None) => match by {
            Remover::Owner => Err(ApiError { status: STATUS_NOT_FOUND, message: to_owned("device not found") }),
            Remover::Admin => Err(ApiError { status: STATUS_NOT_FOUND, message: to_owned("device not found for this account") }),
        },
        Err(m) => Err(internal_error(m)),
    }
}

/// The server settings the admin edits.
#[derive(Debug, Clone)]
pub struct SettingsView {
    pub server_url: String,
    pub default_device_name: String,
}

/// New server settings.
#[derive(Debug, Clone)]
pub struct SaveSettingsRequest {
    pub server_url: String,
    pub default_device_name: String,
}

/// The settings as stored: an absent setting shows as empty.
pub fn settings_view(server_url: Option<String>, default_device_name: Option<String>) -> (r: SettingsView)
    ensures
        r.server_url@ == match server_url {
            Some(s) => s@,
            None => Seq::<char>::empty(),
        },
        r.default_device_name@ == match default_device_name {
            Some(s) => s@,
            None => Seq::<char>::empty(),
        },
{
    SettingsView {
        server_url: match server_url {
            Some(s) => s,
            None => String::new(),
        },
        default_device_name: match default_device_name {
            Some(s) => s,
            None => String::new(),
        },
    }
}

/// The settings to store for a save request: both values trimmed.
pub fn saved_settings(req: &SaveSettingsRequest) -> (r: SettingsView)
    ensures
        r.server_url@ == trim(req.server_url@),
        r.default_device_name@ == trim(req.default_device_name@),
{
    SettingsView { server_url: trim_str(req.server_url.as_str()), default_device_name: trim_str(req.default_device_name.as_str()) }
}

} // verus!
