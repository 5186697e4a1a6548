//! The operator's admin pages (a fixed operator password, then a session
//! cookie): the settings embedded into downloaded clients, and the plain
//! download page listing the platforms with an uploaded template.

use vstd::prelude::*;
use dashmap::DashSet;
use crate::html::{html_escape, html_escaped};
use crate::web::{error_paragraph, opt_text};
use crate::text::{push_str, str_eq, to_owned};

verus! {

/// The opening of an admin page, up to its title.
pub const ADMIN_PAGE_OPEN: &'static str = "<!doctype html><html><head><meta charset=\"utf-8\"><title>";

/// The admin pages' style sheet, between the title and the heading.
pub const ADMIN_PAGE_STYLE: &'static str = "</title><style>body{font-family:sans-serif;max-width:640px;margin:2rem auto;padding:0 1rem}input{display:block;width:100%;padding:.4rem;margin:.3rem 0 1rem}button{padding:.5rem 1rem}li{margin:.4rem 0}</style></head><body><h1>";

/// A complete admin page: `title` in `<title>` and `<h1>`, then `body`.
pub open spec fn admin_page_html(title: Seq<char>, body: Seq<char>) -> Seq<char> {
    ADMIN_PAGE_OPEN@ + title + ADMIN_PAGE_STYLE@ + title + "</h1>"@ + body + "</body></html>"@
}

/// Renders an admin page around `body`.
pub fn admin_page(title: &str, body: &str) -> (r: String)
    ensures
        r@ == admin_page_html(title@, body@),
{
    let mut r = to_owned(ADMIN_PAGE_OPEN);
    push_str(&mut r, title);
    push_str(&mut r, ADMIN_PAGE_STYLE);
    push_str(&mut r, title);
    push_str(&mut r, "</h1>");
    push_str(&mut r, body);
    push_str(&mut r, "</body></html>");
    assert(r@ =~= admin_page_html(title@, body@));
    r
}

/// The body of the admin login page.
pub open spec fn login_body(error: Option<Seq<char>>) -> Seq<char> {
    error_paragraph(error)
        + "<form method=\"post\" action=\"/admin/login\"><label>Admin password<input type=\"password\" name=\"password\" autofocus></label><button type=\"submit\">Log in</button></form>"@
}

/// The admin login page, with an error above the form if the last attempt
/// failed.
pub fn login_html(error: Option<&str>) -> (r: String)
    ensures
        r@ == admin_page_html("Visuara Admin"@, login_body(opt_text(error))),
{
    let mut body = String::new();
    match error {
        Some(e) => {
            push_str(&mut body, "<p style=\"color:red\">");
            let escaped = html_escape(e);
            push_str(&mut body, escaped.as_str());
            push_str(&mut body, "</p>");
        },
        None => {},
    }
    push_str(
        &mut body,
        "<form method=\"post\" action=\"/admin/login\"><label>Admin password<input type=\"password\" name=\"password\" autofocus></label><button type=\"submit\">Log in</button></form>",
    );
    assert(body@ =~= login_body(opt_text(error)));
    admin_page("Visuara Admin", body.as_str())
}

/// A notice paragraph (green, escaped), or nothing.
pub open spec fn notice_paragraph(notice: Option<Seq<char>>) -> Seq<char> {
    match notice {
        Some(n) => "<p style=\"color:green\">"@ + html_escaped(n) + "</p>"@,
        None => Seq::empty(),
    }
}

/// The body of the settings page.
pub open spec fn settings_body(server_url: Seq<char>, device_name: Seq<char>, notice: Option<Seq<char>>) -> Seq<char> {
    notice_paragraph(notice)
        + "<form method=\"post\" action=\"/admin/settings\"><label>Server URL embedded in downloaded clients<input type=\"text\" name=\"server_url\" value=\""@
        + html_escaped(server_url)
        + "\" placeholder=\"wss://visuara.example.com/ws\"></label><label>Default device name<input type=\"text\" name=\"default_device_name\" value=\""@
        + html_escaped(device_name)
        + "\" placeholder=\"this-machine\"></label><button type=\"submit\">Save</button></form><p><a href=\"/download\">View public download page</a> &middot; <a href=\"/admin/logout\">Log out</a></p>"@
}

/// The settings page, showing the current values (escaped into the form)
/// and an optional notice.
pub fn settings_html(server_url: &str, device_name: &str, notice: Option<&str>) -> (r: String)
    ensures
        r@ == admin_page_html("Visuara Settings"@, settings_body(server_url@, device_name@, opt_text(notice))),
{
    let mut body = String::new();
    match notice {
        Some(n) => {
            push_str(&mut body, "<p style=\"color:green\">");
            let escaped = html_escape(n);
            push_str(&mut body, escaped.as_str());
            push_str(&mut body, "</p>");
        },
        None => {},
    }
    push_str(
        &mut body,
        "<form method=\"post\" action=\"/admin/settings\"><label>Server URL embedded in downloaded clients<input type=\"text\" name=\"server_url\" value=\"",
    );
    let url = html_escape(server_url);
    push_str(&mut body, url.as_str());
    push_str(
        &mut body,
        "\" placeholder=\"wss://visuara.example.com/ws\"></label><label>Default device name<input type=\"text\" name=\"default_device_name\" value=\"",
    );
    let name = html_escape(device_name);
    push_str(&mut body, name.as_str());
    push_str(
        &mut body,
        "\" placeholder=\"this-machine\"></label><button type=\"submit\">Save</button></form><p><a href=\"/download\">View public download page</a> &middot; <a href=\"/admin/logout\">Log out</a></p>",
    );
    assert(body@ =~= settings_body(server_url@, device_name@, opt_text(notice)));
    admin_page("Visuara Settings", body.as_str())
}

/// One platform on the admin's download page: its key and whether its
/// template is uploaded.
#[derive(Debug, Clone, Copy)]
pub struct PlatformAvailability {
    pub key: &'static str,
    pub available: bool,
}

/// The list item for a platform.
pub open spec fn download_item(p: PlatformAvailability) -> Seq<char> {
    if p.available {
        "<li><a href=\"/download/"@ + p.key@ + "\">"@ + p.key@ + "</a></li>"@
    } else {
        "<li>"@ + p.key@ + " (not available yet)</li>"@
    }
}

/// The list items for `ps`, in order.
pub open spec fn download_items(ps: Seq<PlatformAvailability>) -> Seq<char>
    decreases ps.len(),
{
    if ps.len() == 0 {
        Seq::empty()
    } else {
        download_items(ps.drop_last()) + download_item(ps.last())
    }
}

/// The body of the download page.
pub open spec fn download_body(server_url: Seq<char>, ps: Seq<PlatformAvailability>) -> Seq<char> {
    let target = if server_url.len() == 0 {
        "(not configured yet)"@
    } else {
        html_escaped(server_url)
    };
    "<p>Downloads below connect to: <code>"@ + target + "</code></p><ul>"@ + download_items(ps) + "</ul>"@
}

/// The download page: the server URL downloads will connect to, and a link
/// per platform whose template is uploaded.
pub fn download_page_html(server_url: &str, platforms: &Vec<PlatformAvailability>) -> (r: String)
    ensures
        r@ == admin_page_html("Download Visuara"@, download_body(server_url@, platforms@)),
{
    let mut items = String::new();
    let mut i: usize = 0;
    while i < platforms.len()
        invariant
            i <= platforms@.len(),
            items@ == download_items(platforms@.take(i as int)),
        decreases platforms@.len() - i,
    {
        let p = platforms[i];
        if p.available {
            push_str(&mut items, "<li><a href=\"/download/");
            push_str(&mut items, p.key);
            push_str(&mut items, "\">");
            push_str(&mut items, p.key);
            push_str(&mut items, "</a></li>");
        } else {
            push_str(&mut items, "<li>");
            push_str(&mut items, p.key);
            push_str(&mut items, " (not available yet)</li>");
        }
        assert(platforms@.take(i as int + 1).drop_last() =~= platforms@.take(i as int));
        i = i + 1;
        assert(items@ =~= download_items(platforms@.take(i as int)));
    }
    assert(platforms@.take(i as int) =~= platforms@);
    let mut body = to_owned("<p>Downloads below connect to: <code>");
    if server_url.unicode_len() == 0 {
        push_str(&mut body, "(not configured yet)");
    } else {
        let escaped = html_escape(server_url);
        push_str(&mut body, escaped.as_str());
    }
    push_str(&mut body, "</code></p><ul>");
    push_str(&mut body, items.as_str());
    push_str(&mut body, "</ul>");
    assert(body@ =~= download_body(server_url@, platforms@));
    admin_page("Download Visuara", body.as_str())
}

/// The name of the admin session cookie.
pub const ADMIN_COOKIE: &'static str = "visuara_admin";

/// The `Set-Cookie` value that starts an admin session with `token`.
pub fn admin_session_cookie(token: &str) -> (r: String)
    ensures
        r@ == "visuara_admin="@ + token@ + "; Path=/; HttpOnly; SameSite=Strict"@,
{
    let mut r = to_owned("visuara_admin=");
    push_str(&mut r, token);
    push_str(&mut r, "; Path=/; HttpOnly; SameSite=Strict");
    r
}

/// The `Set-Cookie` value that ends an admin session.
pub fn cleared_admin_cookie() -> (r: String)
    ensures
        r@ == "visuara_admin=; Path=/; Max-Age=0"@,
{
    to_owned("visuara_admin=; Path=/; Max-Age=0")
}

/// The admin login form.
#[derive(Debug, Clone)]
pub struct LoginForm {
    pub password: String,
}

/// The settings form.
#[derive(Debug, Clone)]
pub struct SettingsForm {
    pub server_url: String,
    pub default_device_name: String,
}

/// The session tokens in a set of admin sessions.
pub uninterp spec fn session_tokens(s: DashSet<String>) -> Set<Seq<char>>;

/// `DashSet::new`: an empty set.
#[verifier::external_body]
fn tokens_new() -> (r: DashSet<String>)
    ensures
        session_tokens(r) == Set::<Seq<char>>::empty(),
{
    DashSet::new()
}

/// `DashSet::insert`: the set gains `t`.
#[verifier::external_body]
fn tokens_insert(s: &mut DashSet<String>, t: String)
    ensures
        session_tokens(*final(s)) == session_tokens(*old(s)).insert(t@),
{
    s.insert(t);
}

/// `DashSet::remove`: the set loses `t`.
#[verifier::external_body]
fn tokens_remove(s: &mut DashSet<String>, t: &str)
    ensures
        session_tokens(*final(s)) == session_tokens(*old(s)).remove(t@),
{
    s.remove(t);
}

/// `DashSet::contains`: whether `t` is in the set.
#[verifier::external_body]
fn tokens_contains(s: &DashSet<String>, t: &str) -> (r: bool)
    ensures
        r == session_tokens(*s).contains(t@),
{
    s.contains(t)
}

/// The browsers logged into the admin pages, by session token.
pub struct AdminSessions {
    tokens: DashSet<String>,
}

impl View for AdminSessions {
    type V = Set<Seq<char>>;

    closed spec fn view(&self) -> Set<Seq<char>> {
        session_tokens(self.tokens)
    }
}

impl AdminSessions {
    /// No one logged in.
    pub fn new() -> (r: AdminSessions)
        ensures
            r@ == Set::<Seq<char>>::empty(),
    {
        AdminSessions { tokens: tokens_new() }
    }

    /// A login with `password` against the operator password `expected`:
    /// on a match the session `token` is recorded and `true` comes back.
    pub fn login(&mut self, password: &str, expected: &str, token: String) -> (ok: bool)
        ensures
            ok == (password@ == expected@),
            ok ==> final(self)@ == old(self)@.insert(token@),
            !ok ==> final(self)@ == old(self)@,
    {
        if str_eq(password, expected) {
            tokens_insert(&mut self.tokens, token);
            true
        } else {
            false
        }
    }

    /// Whether the request's admin cookie (if any) is a live session.
    pub fn is_admin(&self, cookie: Option<&str>) -> (b: bool)
        ensures
            b == match cookie {
                Some(t) => self@.contains(t@),
                None => false,
            },
    {
        match cookie {
            Some(t) => tokens_contains(&self.tokens, t),
            None => false,
        }
    }

    /// Logs out the session of the request's admin cookie, if any.
    pub fn logout(&mut self, cookie: Option<&str>)
        ensures
            final(self)@ == match cookie {
                Some(t) => old(self)@.remove(t@),
                None => old(self)@,
            },
    {
        match cookie {
            Some(t) => tokens_remove(&mut self.tokens, t),
            None => {},
        }
    }
}

/// A logged-out session stays out: after logging out with a cookie, that
/// cookie no longer opens the admin pages.
pub proof fn lemma_logout_revokes(before: Set<Seq<char>>, token: Seq<char>)
    ensures
        !before.remove(token).contains(token),
{
}

} // verus!
