//! Accounts, devices and the account rules of the server: the stored role
//! encoding, first-user-becomes-admin bootstrap, the registration switch,
//! admin authorization and the last-admin guard.

use vstd::prelude::*;
use crate::text::{str_eq, to_owned};

verus! {

/// An account's role.
#[derive(Debug, Clone, Copy, PartialEq, Eq, Structural)]
pub enum AccountRole {
    User,
    Admin,
}

impl AccountRole {
    /// The stored (and JSON) text of a role.
    pub open spec fn spec_text(self) -> Seq<char> {
        match self {
            AccountRole::User => "user"@,
            AccountRole::Admin => "admin"@,
        }
    }

    /// The text stored in the `role` column.
    pub fn as_str(self) -> (r: &'static str)
        ensures
            r@ == self.spec_text(),
    {
        match self {
            AccountRole::User => "user",
            AccountRole::Admin => "admin",
        }
    }

    /// Reads the `role` column: exactly `admin` is an admin, anything else
    /// (including the pre-upgrade default) is a user.
    pub fn from_column(s: &str) -> (r: AccountRole)
        ensures
            r == (if s@ == "admin"@ {
                AccountRole::Admin
            } else {
                AccountRole::User
            }),
    {
        if str_eq(s, "admin") {
            AccountRole::Admin
        } else {
            AccountRole::User
        }
    }
}

/// A stored account.
#[derive(Debug, Clone)]
pub struct Account {
    pub id: i64,
    pub email: String,
    pub password_hash: String,
    pub role: AccountRole,
}

/// A registered device.
#[derive(Debug, Clone)]
pub struct Device {
    pub id: String,
    pub account_id: i64,
    pub name: String,
    pub unattended_password_hash: Option<String>,
}

/// An account as listed on the admin accounts page.
#[derive(Debug, Clone)]
pub struct AccountSummary {
    pub id: i64,
    pub email: String,
    pub created_at: i64,
    pub role: AccountRole,
}

/// The logged-in account behind a request.
#[derive(Debug, Clone)]
pub struct AuthedAccount {
    pub id: i64,
    pub email: String,
    pub role: AccountRole,
}

/// The role a new self-registered account gets, and whether public
/// registration is switched off right after creating it: the very first
/// account becomes the admin and closes registration.
pub fn bootstrap_role(existing_accounts: i64) -> (r: (AccountRole, bool))
    ensures
        r == (if existing_accounts == 0 {
            (AccountRole::Admin, true)
        } else {
            (AccountRole::User, false)
        }),
{
    if existing_accounts == 0 {
        (AccountRole::Admin, true)
    } else {
        (AccountRole::User, false)
    }
}

/// Whether public registration is open, from the stored
/// `registration_enabled` setting: absent means not yet decided and reads
/// as open; otherwise only the text `true` is open.
pub fn registration_enabled_from(setting: Option<&str>) -> (r: bool)
    ensures
        r == match setting {
            None => true,
            Some(v) => v@ == "true"@,
        },
{
    match setting {
        None => true,
        Some(v) => str_eq(v, "true"),
    }
}

/// The stored text for the registration switch.
pub fn registration_setting_text(enabled: bool) -> (r: &'static str)
    ensures
        r@ == (if enabled {
            "true"@
        } else {
            "false"@
        }),
{
    if enabled {
        "true"
    } else {
        "false"
    }
}

/// Unauthorized.
pub const STATUS_UNAUTHORIZED: u16 = 401;

/// Forbidden.
pub const STATUS_FORBIDDEN: u16 = 403;

/// Conflict.
pub const STATUS_CONFLICT: u16 = 409;

/// The account a request may act as, or the HTTP status refusing it.
pub fn require_account(account: Option<AuthedAccount>) -> (r: Result<AuthedAccount, u16>)
    ensures
        match account {
            None => r == Err::<AuthedAccount, u16>(STATUS_UNAUTHORIZED),
            Some(a) => r == Ok::<AuthedAccount, u16>(a),
        },
{
    match account {
        None => Err(STATUS_UNAUTHORIZED),
        Some(a) => Ok(a),
    }
}

/// Admin-only endpoints: no session is 401, a non-admin session is 403.
pub fn require_admin(account: Option<AuthedAccount>) -> (r: Result<AuthedAccount, u16>)
    ensures
        match account {
            None => r == Err::<AuthedAccount, u16>(STATUS_UNAUTHORIZED),
            Some(a) => if a.role == AccountRole::Admin {
                r == Ok::<AuthedAccount, u16>(a)
            } else {
                r == Err::<AuthedAccount, u16>(STATUS_FORBIDDEN)
            },
        },
{
    match require_account(account) {
        Err(s) => Err(s),
        Ok(a) => if a.role == AccountRole::Admin {
            Ok(a)
        } else {
            Err(STATUS_FORBIDDEN)
        },
    }
}

/// An HTTP error status with its message.
#[derive(Debug, Clone)]
pub struct ApiError {
    pub status: u16,
    pub message: String,
}

/// Whether the last-admin guard lets the removal of an admin through: only
/// when the admins could be counted and there are at least two.
pub open spec fn guard_allows(admin_count: Result<i64, String>) -> bool {
    admin_count matches Ok(n) && n > 1
}

/// The last-admin guard's decision when the target account is an admin,
/// given the number of admins (or the error counting them): refuse with 409
/// when it is the only one left, 500 when they could not be counted.
pub fn guard_last_admin(admin_count: Result<i64, String>) -> (r: Result<(), ApiError>)
    ensures
        r is Ok <==> guard_allows(admin_count),
        match admin_count {
            Ok(n) => n <= 1 ==> (r matches Err(e) && e.status == STATUS_CONFLICT && e.message@
                == "cannot remove the last remaining admin account"@),
            Err(m) => r matches Err(e) && e.status == 500 && e.message@ == m@,
        },
{
    match admin_count {
        Ok(n) => if n <= 1 {
            Err(ApiError { status: STATUS_CONFLICT, message: to_owned("cannot remove the last remaining admin account") })
        } else {
            Ok(())
        },
        Err(m) => Err(ApiError { status: 500, message: m }),
    }
}

/// Whether demoting or deleting an account needs the admin count at all:
/// only an admin target can be the last admin.
pub fn guard_needs_admin_count(target_role: Option<AccountRole>) -> (r: bool)
    ensures
        r == (target_role == Some(AccountRole::Admin)),
{
    match target_role {
        Some(AccountRole::Admin) => true,
        _ => false,
    }
}

/// Removing an admin that the guard lets through always leaves at least one
/// admin behind.
pub proof fn lemma_guard_keeps_an_admin(admin_count: i64)
    requires
        guard_allows(Ok(admin_count)),
    ensures
        admin_count - 1 >= 1,
{
}

/// The admins never run out. With `admins` the accounts holding the admin
/// role and `target` the account a request would demote or delete: the
/// guard (consulted with the number of admins when the target is one)
/// refuses while the target is the only admin, lets the request through
/// once there are two or more, and whatever it lets through leaves at least
/// one admin; a target that is no admin leaves the admins as they are.
pub proof fn lemma_admins_never_run_out(admins: Set<i64>, target: i64)
    requires
        admins.finite(),
        admins.len() <= i64::MAX,
    ensures
        admins.contains(target) && admins.len() == 1 ==> !guard_allows(Ok(admins.len() as i64)),
        admins.contains(target) && admins.len() >= 2 ==> guard_allows(Ok(admins.len() as i64)),
        admins.contains(target) && guard_allows(Ok(admins.len() as i64)) ==> admins.remove(target).len() >= 1,
        !admins.contains(target) ==> admins.remove(target) == admins,
{
    if !admins.contains(target) {
        assert(admins.remove(target) =~= admins);
    }
}

} // verus!
