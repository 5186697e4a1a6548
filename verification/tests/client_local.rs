use visuara::control::{InputEvent, KeyCode, MouseButton};
use visuara::embedded_config::EmbeddedConfig;
use visuara::local_config::{credentials_path, run_key_value, settings_path, systemd_unit, unit_path, LocalSettings, RememberedLogin};
use visuara::viewer::{
    failure_status, form_defaults, host_info_lines, map_pointer_button, map_special_key, route_event, FailedStep,
    PointerButtonKind, SpecialKey, ViewEvent,
};

#[test]
fn forgetting_the_login_keeps_the_other_settings() {
    let mut settings = LocalSettings {
        server_url: Some("wss://example.com/ws".to_string()),
        device_name: Some("my-laptop".to_string()),
        remembered_login: Some(RememberedLogin { email: "test@example.com".to_string(), password: "hunter2".to_string() }),
    };
    assert!(settings.clear_remembered_login());
    assert!(settings.remembered_login.is_none());
    assert_eq!(settings.server_url.as_deref(), Some("wss://example.com/ws"));
    assert_eq!(settings.device_name.as_deref(), Some("my-laptop"));
    assert!(!settings.clear_remembered_login());
    let d = LocalSettings::default();
    assert!(d.server_url.is_none() && d.device_name.is_none() && d.remembered_login.is_none());
}

#[test]
fn config_files_live_under_the_config_directory() {
    if let Ok(p) = settings_path() {
        assert!(p.ends_with("visuara/local-settings.json"));
    }
    if let Ok(p) = credentials_path() {
        assert!(p.ends_with("visuara/unattended-credentials.json"));
    }
    if let Ok(p) = unit_path() {
        assert!(p.ends_with("systemd/user/visuara-host.service"));
    }
}

#[test]
fn autostart_entries() {
    assert_eq!(run_key_value("C:\\Program Files\\visuara.exe"), "\"C:\\Program Files\\visuara.exe\" host-autostart");
    assert_eq!(
        systemd_unit("/opt/visuara"),
        "[Unit]\nDescription=Visuara unattended host\n\n[Service]\nExecStart=\"/opt/visuara\" host-autostart\nRestart=on-failure\n\n[Install]\nWantedBy=default.target\n"
    );
}

#[test]
fn form_defaults_prefer_the_embedded_config() {
    let d = form_defaults(None);
    assert_eq!((d.server_url.as_str(), d.device_name.as_str()), ("ws://127.0.0.1:8080/ws", "this-machine"));
    let d = form_defaults(Some(EmbeddedConfig { server_url: Some("wss://v/ws".into()), device_name: None }));
    assert_eq!((d.server_url.as_str(), d.device_name.as_str()), ("wss://v/ws", "this-machine"));
    let (a, b) = host_info_lines("123 456 789", "0042 9137");
    assert_eq!(a, "Device ID: 123 456 789");
    assert_eq!(b, "One-time password: 0042 9137");
    assert_eq!(failure_status(FailedStep::Connect, "timed out"), "connect failed: timed out");
    assert_eq!(failure_status(FailedStep::Registration, "x"), "registration failed: x");
    assert_eq!(failure_status(FailedStep::InputInjector, "x"), "input injector failed: x");
}

#[test]
fn view_events_become_input_only_when_aimed_at_the_video() {
    assert!(matches!(route_event(ViewEvent::PointerMoved { inside: true, x: 123, y: 456 }, false, false), Some(InputEvent::MouseMove { x: 123, y: 456 })));
    assert!(route_event(ViewEvent::PointerMoved { inside: false, x: 1, y: 1 }, true, true).is_none());
    assert!(matches!(route_event(ViewEvent::PointerButton { inside: true, button: PointerButtonKind::Secondary, pressed: true }, false, false),
        Some(InputEvent::MouseButton { button: MouseButton::Right, pressed: true })));
    assert!(route_event(ViewEvent::PointerButton { inside: true, button: PointerButtonKind::Extra1, pressed: true }, true, true).is_none());
    assert!(matches!(route_event(ViewEvent::Wheel { delta_x: 0, delta_y: -3 }, true, false), Some(InputEvent::MouseScroll { delta_x: 0, delta_y: -3 })));
    assert!(route_event(ViewEvent::Wheel { delta_x: 0, delta_y: -3 }, false, true).is_none());
    assert!(matches!(route_event(ViewEvent::Text { text: "hi".into() }, false, true), Some(InputEvent::TypeText { ref text }) if text == "hi"));
    assert!(route_event(ViewEvent::Text { text: "hi".into() }, false, false).is_none());
    assert!(matches!(route_event(ViewEvent::Key { key: SpecialKey::Enter, pressed: true, repeat: false }, true, false),
        Some(InputEvent::KeyEvent { key: KeyCode::Enter, pressed: true })));
    assert!(route_event(ViewEvent::Key { key: SpecialKey::Enter, pressed: true, repeat: true }, true, true).is_none());
    assert!(route_event(ViewEvent::Key { key: SpecialKey::Other, pressed: true, repeat: false }, true, true).is_none());
    assert!(route_event(ViewEvent::Other, true, true).is_none());
    assert_eq!(map_pointer_button(PointerButtonKind::Primary), Some(MouseButton::Left));
    assert_eq!(map_pointer_button(PointerButtonKind::Middle), Some(MouseButton::Middle));
    assert_eq!(map_special_key(SpecialKey::ArrowLeft), Some(KeyCode::ArrowLeft));
    assert_eq!(map_special_key(SpecialKey::Other), None);
}
