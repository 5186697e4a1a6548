use visuara::admin::{
    admin_session_cookie, cleared_admin_cookie, download_page_html, login_html, settings_html, AdminSessions,
    PlatformAvailability,
};
use visuara::web::{home_dashboard_html, login_landing_html, register_html, web_nav, DeviceRow};

#[test]
fn public_nav_depends_on_login() {
    assert!(web_nav(true).contains("action=\"/logout\""));
    assert!(!web_nav(false).contains("logout"));
    assert!(web_nav(false).contains("<a href=\"/register\">Sign up</a>"));
    assert!(web_nav(false).ends_with("</nav><hr>"));
}

#[test]
fn landing_and_register_pages_escape_errors() {
    let p = login_landing_html(Some("Incorrect <email> or password"));
    assert!(p.contains("<title>Visuara</title>"));
    assert!(p.contains("<p style=\"color:red\">Incorrect &lt;email&gt; or password</p><h2>Log in</h2>"));
    assert!(!login_landing_html(None).contains("color:red"));
    let r = register_html(Some("Email and password are required"));
    assert!(r.contains("<title>Sign up — Visuara</title>"));
    assert!(r.contains("<h2>Create an account</h2>"));
    assert!(r.contains("Email and password are required"));
}

#[test]
fn dashboard_lists_devices_with_status() {
    let rows = vec![DeviceRow { name: "office <pc>".into(), online: true }, DeviceRow { name: "laptop".into(), online: false }];
    let p = home_dashboard_html("me@example.com", &rows);
    assert!(p.contains("<h2>Welcome, me@example.com</h2>"));
    assert!(p.contains("<tr><td>office &lt;pc&gt;</td><td><span class=\"dot online\"></span>online</td></tr><tr><td>laptop</td><td><span class=\"dot offline\"></span>offline</td></tr>"));
    let empty = home_dashboard_html("me@example.com", &vec![]);
    assert!(empty.contains("No devices yet"));
    assert!(!empty.contains("<table>"));
}

#[test]
fn admin_pages() {
    let l = login_html(Some("Incorrect password"));
    assert!(l.contains("<title>Visuara Admin</title>"));
    assert!(l.contains("Incorrect password"));
    assert!(l.contains("li{margin:.4rem 0}</style>"));
    assert!(!l.contains(".online"));
    let s = settings_html("wss://visuara.example.com/ws", "warehouse-\"01\"", Some("Saved."));
    assert!(s.contains("<p style=\"color:green\">Saved.</p>"));
    assert!(s.contains("value=\"wss://visuara.example.com/ws\""));
    assert!(s.contains("value=\"warehouse-&quot;01&quot;\""));
    let d = download_page_html("", &vec![
        PlatformAvailability { key: "windows-x86_64", available: true },
        PlatformAvailability { key: "linux-x86_64", available: false },
    ]);
    assert!(d.contains("<code>(not configured yet)</code>"));
    assert!(d.contains("<li><a href=\"/download/windows-x86_64\">windows-x86_64</a></li><li>linux-x86_64 (not available yet)</li>"));
    assert!(download_page_html("wss://x/ws", &vec![]).contains("<code>wss://x/ws</code>"));
}

#[test]
fn admin_sessions_log_in_and_out() {
    let mut s = AdminSessions::new();
    assert!(!s.login("wrong", "operator-pw", "t1".into()));
    assert!(!s.is_admin(Some("t1")));
    assert!(s.login("operator-pw", "operator-pw", "t2".into()));
    assert!(s.is_admin(Some("t2")));
    assert!(!s.is_admin(None));
    s.logout(Some("t2"));
    assert!(!s.is_admin(Some("t2")));
    assert_eq!(admin_session_cookie("t2"), "visuara_admin=t2; Path=/; HttpOnly; SameSite=Strict");
    assert_eq!(cleared_admin_cookie(), "visuara_admin=; Path=/; Max-Age=0");
}
