//! The public web site's pages: a login landing page, sign-up, and, once
//! logged in, the account's devices with their live online status. The
//! pages are written out here; the web framework serves them.

use vstd::prelude::*;
use crate::html::{html_escape, html_escaped, page, page_html};
use crate::text::{push_str, to_owned};

verus! {

/// The public site's navigation strip, for a visitor logged in or not.
pub open spec fn spec_web_nav(logged_in: bool) -> Seq<char> {
    if logged_in {
        "<nav><a href=\"/\">Home</a><a href=\"/download\">Download</a><form method=\"post\" action=\"/logout\" style=\"display:inline\"><button type=\"submit\">Log out</button></form></nav><hr>"@
    } else {
        "<nav><a href=\"/\">Home</a><a href=\"/download\">Download</a><a href=\"/register\">Sign up</a></nav><hr>"@
    }
}

/// The public site's navigation strip.
pub fn web_nav(logged_in: bool) -> (r: String)
    ensures
        r@ == spec_web_nav(logged_in),
{
    if logged_in {
        to_owned(
            "<nav><a href=\"/\">Home</a><a href=\"/download\">Download</a><form method=\"post\" action=\"/logout\" style=\"display:inline\"><button type=\"submit\">Log out</button></form></nav><hr>",
        )
    } else {
        to_owned("<nav><a href=\"/\">Home</a><a href=\"/download\">Download</a><a href=\"/register\">Sign up</a></nav><hr>")
    }
}

/// An error paragraph (red, escaped), or nothing.
pub open spec fn error_paragraph(error: Option<Seq<char>>) -> Seq<char> {
    match error {
        Some(e) => "<p style=\"color:red\">"@ + html_escaped(e) + "</p>"@,
        None => Seq::empty(),
    }
}

/// The text of an optional string slice.
pub open spec fn opt_text(o: Option<&str>) -> Option<Seq<char>> {
    match o {
        Some(s) => Some(s@),
        None => None,
    }
}

fn push_error_paragraph(out: &mut String, error: Option<&str>)
    ensures
        final(out)@ == old(out)@ + error_paragraph(opt_text(error)),
{
    match error {
        Some(e) => {
            push_str(out, "<p style=\"color:red\">");
            let escaped = html_escape(e);
            push_str(out, escaped.as_str());
            push_str(out, "</p>");
        },
        None => {},
    }
}

/// The body of the login landing page.
pub open spec fn login_landing_body(error: Option<Seq<char>>) -> Seq<char> {
    spec_web_nav(false) + error_paragraph(error)
        + "<h2>Log in</h2><form method=\"post\" action=\"/login\"><label>Email<input type=\"email\" name=\"email\" autofocus></label><label>Password<input type=\"password\" name=\"password\"></label><button type=\"submit\">Log in</button></form><p>Don't have an account? <a href=\"/register\">Sign up</a></p><p><a href=\"/download\">Download the Visuara client</a></p>"@
}

/// The home page of a visitor who is not logged in: the login form, with an
/// error above it if the last attempt failed.
pub fn login_landing_html(error: Option<&str>) -> (r: String)
    ensures
        r@ == page_html("Visuara"@, login_landing_body(opt_text(error))),
{
    let mut body = web_nav(false);
    push_error_paragraph(&mut body, error);
    push_str(
        &mut body,
        "<h2>Log in</h2><form method=\"post\" action=\"/login\"><label>Email<input type=\"email\" name=\"email\" autofocus></label><label>Password<input type=\"password\" name=\"password\"></label><button type=\"submit\">Log in</button></form><p>Don't have an account? <a href=\"/register\">Sign up</a></p><p><a href=\"/download\">Download the Visuara client</a></p>",
    );
    page("Visuara", body.as_str())
}

/// The body of the sign-up page.
pub open spec fn register_body(error: Option<Seq<char>>) -> Seq<char> {
    spec_web_nav(false) + error_paragraph(error)
        + "<h2>Create an account</h2><form method=\"post\" action=\"/register\"><label>Email<input type=\"email\" name=\"email\" autofocus></label><label>Password<input type=\"password\" name=\"password\"></label><button type=\"submit\">Sign up</button></form><p>Already have an account? <a href=\"/\">Log in</a></p>"@
}

/// The sign-up page, with an error above the form if the last attempt
/// failed.
pub fn register_html(error: Option<&str>) -> (r: String)
    ensures
        r@ == page_html("Sign up — Visuara"@, register_body(opt_text(error))),
{
    let mut body = web_nav(false);
    push_error_paragraph(&mut body, error);
    push_str(
        &mut body,
        "<h2>Create an account</h2><form method=\"post\" action=\"/register\"><label>Email<input type=\"email\" name=\"email\" autofocus></label><label>Password<input type=\"password\" name=\"password\"></label><button type=\"submit\">Sign up</button></form><p>Already have an account? <a href=\"/\">Log in</a></p>",
    );
    page("Sign up — Visuara", body.as_str())
}

/// One device of the dashboard: its name and whether it is online.
#[derive(Debug, Clone)]
pub struct DeviceRow {
    pub name: String,
    pub online: bool,
}

/// A dashboard table row for a device.
pub open spec fn device_row(d: DeviceRow) -> Seq<char> {
    let label = if d.online {
        "online"@
    } else {
        "offline"@
    };
    "<tr><td>"@ + html_escaped(d.name@) + "</td><td><span class=\"dot "@ + label + "\"></span>"@ + label + "</td></tr>"@
}

/// The dashboard table rows for `devices`, in order.
pub open spec fn device_rows(devices: Seq<DeviceRow>) -> Seq<char>
    decreases devices.len(),
{
    if devices.len() == 0 {
        Seq::empty()
    } else {
        device_rows(devices.drop_last()) + device_row(devices.last())
    }
}

/// The body of a logged-in visitor's home page.
pub open spec fn dashboard_body(email: Seq<char>, devices: Seq<DeviceRow>) -> Seq<char> {
    let devices_html = if devices.len() == 0 {
        "<p>No devices yet — share a machine from the desktop client's Host tab, then it'll show up here.</p>"@
    } else {
        "<table><tr><th>Device</th><th>Status</th></tr>"@ + device_rows(devices) + "</table>"@
    };
    spec_web_nav(true) + "<h2>Welcome, "@ + html_escaped(email) + "</h2>"@ + devices_html
        + "<p><a href=\"/download\">Download the Visuara client</a></p>"@
}

/// A logged-in visitor's home page: a welcome and the account's devices
/// with their live status.
pub fn home_dashboard_html(email: &str, devices: &Vec<DeviceRow>) -> (r: String)
    ensures
        r@ == page_html("Visuara"@, dashboard_body(email@, devices@)),
{
    let mut rows = String::new();
    let mut i: usize = 0;
    while i < devices.len()
        invariant
            i <= devices@.len(),
            rows@ == device_rows(devices@.take(i as int)),
        decreases devices@.len() - i,
    {
        let d = &devices[i];
        push_str(&mut rows, "<tr><td>");
        let name = html_escape(d.name.as_str());
        push_str(&mut rows, name.as_str());
        push_str(&mut rows, "</td><td><span class=\"dot ");
        let label = if d.online {
            "online"
        } else {
            "offline"
        };
        push_str(&mut rows, label);
        push_str(&mut rows, "\"></span>");
        push_str(&mut rows, label);
        push_str(&mut rows, "</td></tr>");
        assert(devices@.take(i as int + 1).drop_last() =~= devices@.take(i as int));
        i = i + 1;
        assert(rows@ =~= device_rows(devices@.take(i as int)));
    }
    assert(devices@.take(i as int) =~= devices@);
    let mut body = web_nav(true);
    push_str(&mut body, "<h2>Welcome, ");
    let escaped = html_escape(email);
    push_str(&mut body, escaped.as_str());
    push_str(&mut body, "</h2>");
    if devices.len() == 0 {
        push_str(
            &mut body,
            "<p>No devices yet — share a machine from the desktop client's Host tab, then it'll show up here.</p>",
        );
    } else {
        push_str(&mut body, "<table><tr><th>Device</th><th>Status</th></tr>");
        push_str(&mut body, rows.as_str());
        push_str(&mut body, "</table>");
    }
    push_str(&mut body, "<p><a href=\"/download\">Download the Visuara client</a></p>");
    assert(body@ =~= dashboard_body(email@, devices@));
    page("Visuara", body.as_str())
}

/// The public login form.
#[derive(Debug, Clone)]
pub struct LoginForm {
    pub email: String,
    pub password: String,
}

/// The public sign-up form.
#[derive(Debug, Clone)]
pub struct RegisterForm {
    pub email: String,
    pub password: String,
}

/// The error a failed public login shows.
pub const LOGIN_FAILED: &'static str = "Incorrect email or password";

/// The error a sign-up with a missing field shows.
pub const FIELDS_REQUIRED: &'static str = "Email and password are required";

} // verus!
