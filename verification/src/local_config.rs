//! What the desktop client keeps on this machine between launches: its own
//! settings with an optional remembered login, the credentials of an
//! unattended host, and the per-user autostart entry. Where these files
//! live, and what the autostart entry says, is decided here; reading and
//! writing them is the caller's.

use vstd::prelude::*;
use crate::paths::{joined_path, path_join};
use crate::text::{push_str, to_owned};

verus! {

/// A remembered login.
#[derive(Debug, Clone)]
pub struct RememberedLogin {
    pub email: String,
    pub password: String,
}

/// The client's own remembered settings.
#[derive(Debug, Clone)]
pub struct LocalSettings {
    pub server_url: Option<String>,
    pub device_name: Option<String>,
    pub remembered_login: Option<RememberedLogin>,
}

impl Default for LocalSettings {
    /// Nothing remembered.
    fn default() -> (r: LocalSettings)
        ensures
            r.server_url is None && r.device_name is None && r.remembered_login is None,
    {
        LocalSettings { server_url: None, device_name: None, remembered_login: None }
    }
}

impl LocalSettings {
    /// Forgets the remembered login ("log out and forget me"), keeping the
    /// remembered server URL and device name. Returns whether there was a
    /// login to forget, that is whether the settings must be saved again.
    pub fn clear_remembered_login(&mut self) -> (changed: bool)
        ensures
            changed == old(self).remembered_login is Some,
            final(self).remembered_login is None,
            final(self).server_url == old(self).server_url,
            final(self).device_name == old(self).device_name,
    {
        let had = self.remembered_login.is_some();
        self.remembered_login = None;
        had
    }
}

/// The credentials an unattended host logs in with.
#[derive(Debug, Clone)]
pub struct SavedCredentials {
    pub server_url: String,
    pub email: String,
    pub password: String,
    pub device_name: String,
}

/// `dirs::config_dir`: the user's configuration directory, if the
/// environment names one. It depends on the environment, so nothing is
/// promised of it. A directory name that is not UTF-8 is turned into text
/// with `to_string_lossy`, so the text then names a different path: the
/// library's paths are text.
#[verifier::external_body]
fn config_dir() -> Option<String> {
    match dirs::config_dir() {
        Some(p) => Some(p.to_string_lossy().into_owned()),
        None => None,
    }
}

/// The error when the configuration directory is unknown.
pub open spec fn no_config_dir() -> Seq<char> {
    "resolve config directory"@
}

/// `p` is file `name` in directory `sub` of some configuration directory.
pub open spec fn in_config_dir(p: Seq<char>, sub: Seq<char>, name: Seq<char>) -> bool {
    exists|d: Seq<char>| p == joined_path(#[trigger] joined_path(d, sub), name)
}

/// File `name` in directory `sub` of the configuration directory.
fn config_file(sub: &str, name: &str) -> (r: Result<String, String>)
    ensures
        match r {
            Ok(p) => in_config_dir(p@, sub@, name@),
            Err(e) => e@ == no_config_dir(),
        },
{
    match config_dir() {
        Some(d) => {
            let dir = path_join(d.as_str(), sub);
            let p = path_join(dir.as_str(), name);
            assert(p@ == joined_path(joined_path(d@, sub@), name@));
            Ok(p)
        },
        None => Err(to_owned("resolve config directory")),
    }
}

/// Where the client's own settings are kept.
pub fn settings_path() -> (r: Result<String, String>)
    ensures
        match r {
            Ok(p) => in_config_dir(p@, "visuara"@, "local-settings.json"@),
            Err(e) => e@ == no_config_dir(),
        },
{
    config_file("visuara", "local-settings.json")
}

/// Where an unattended host's credentials are kept.
pub fn credentials_path() -> (r: Result<String, String>)
    ensures
        match r {
            Ok(p) => in_config_dir(p@, "visuara"@, "unattended-credentials.json"@),
            Err(e) => e@ == no_config_dir(),
        },
{
    config_file("visuara", "unattended-credentials.json")
}

/// Where the per-user systemd unit of the unattended host goes.
pub fn unit_path() -> (r: Result<String, String>)
    ensures
        match r {
            Ok(p) => in_config_dir(p@, "systemd/user"@, "visuara-host.service"@),
            Err(e) => e@ == no_config_dir(),
        },
{
    config_file("systemd/user", "visuara-host.service")
}

/// The command line that starts the unattended host: the executable,
/// quoted, then `host-autostart`.
pub open spec fn autostart_command(exe: Seq<char>) -> Seq<char> {
    "\""@ + exe + "\" host-autostart"@
}

/// The value of the Windows `Run` registry entry.
pub fn run_key_value(exe: &str) -> (r: String)
    ensures
        r@ == autostart_command(exe@),
{
    let mut r = to_owned("\"");
    push_str(&mut r, exe);
    push_str(&mut r, "\" host-autostart");
    r
}

/// The systemd user unit that starts the unattended host at login and
/// restarts it when it fails.
pub open spec fn spec_systemd_unit(exe: Seq<char>) -> Seq<char> {
    "[Unit]\nDescription=Visuara unattended host\n\n[Service]\nExecStart="@ + autostart_command(exe)
        + "\nRestart=on-failure\n\n[Install]\nWantedBy=default.target\n"@
}

/// The systemd user unit for executable `exe`.
pub fn systemd_unit(exe: &str) -> (r: String)
    ensures
        r@ == spec_systemd_unit(exe@),
{
    let mut r = to_owned("[Unit]\nDescription=Visuara unattended host\n\n[Service]\nExecStart=");
    let cmd = run_key_value(exe);
    push_str(&mut r, cmd.as_str());
    push_str(&mut r, "\nRestart=on-failure\n\n[Install]\nWantedBy=default.target\n");
    r
}

/// The registry key of per-user autostart entries on Windows.
pub const RUN_KEY_PATH: &'static str = "Software\\Microsoft\\Windows\\CurrentVersion\\Run";

/// The name of the client's autostart entry.
pub const RUN_VALUE_NAME: &'static str = "Visuara";

/// The name of the systemd user unit.
pub const UNIT_NAME: &'static str = "visuara-host.service";

} // verus!
