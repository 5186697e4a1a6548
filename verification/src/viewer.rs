//! The desktop app's decisions that do not depend on drawing: the form
//! defaults taken from the embedded config, the labels and status lines it
//! shows, and which window events of the remote-screen view become input
//! events for the host. The GUI toolkit's events are first converted to the
//! plain values below; pointer positions arrive already scaled to the
//! remote screen.

use vstd::prelude::*;
use crate::control::{InputEvent, KeyCode, MouseButton};
use crate::embedded_config::EmbeddedConfig;
use crate::text::{concat2, to_owned};

verus! {

/// The server URL the forms start with when none is embedded.
pub open spec fn default_server_url() -> Seq<char> {
    "ws://127.0.0.1:8080/ws"@
}

/// The device name the forms start with when none is embedded.
pub open spec fn default_device_name() -> Seq<char> {
    "this-machine"@
}

/// The starting values of the app's server URL and device name fields.
#[derive(Debug, Clone)]
pub struct FormDefaults {
    pub server_url: String,
    pub device_name: String,
}

/// The form defaults: what the binary has embedded, else the fallbacks.
pub fn form_defaults(embedded: Option<EmbeddedConfig>) -> (r: FormDefaults)
    ensures
        r.server_url@ == match embedded {
            Some(EmbeddedConfig { server_url: Some(u), .. }) => u@,
            _ => default_server_url(),
        },
        r.device_name@ == match embedded {
            Some(EmbeddedConfig { device_name: Some(n), .. }) => n@,
            _ => default_device_name(),
        },
{
    let (url, name) = match embedded {
        Some(c) => (c.server_url, c.device_name),
        None => (None, None),
    };
    FormDefaults {
        server_url: match url {
            Some(u) => u,
            None => to_owned("ws://127.0.0.1:8080/ws"),
        },
        device_name: match name {
            Some(n) => n,
            None => to_owned("this-machine"),
        },
    }
}

/// The host panel's lines once registered: the device ID and the one-time
/// password to read out to the controller.
pub fn host_info_lines(device_id: &str, one_time_password: &str) -> (r: (String, String))
    ensures
        r.0@ == "Device ID: "@ + device_id@,
        r.1@ == "One-time password: "@ + one_time_password@,
{
    (concat2("Device ID: ", device_id), concat2("One-time password: ", one_time_password))
}

/// What failed, for the status line.
#[derive(Debug, Clone, Copy, PartialEq, Eq, Structural)]
pub enum FailedStep {
    /// The input injector could not be opened.
    InputInjector,
    /// Registering as a host failed.
    Registration,
    /// Connecting to a host failed.
    Connect,
}

/// The status line's prefix for a failed step.
pub open spec fn failure_prefix(step: FailedStep) -> Seq<char> {
    match step {
        FailedStep::InputInjector => "input injector failed: "@,
        FailedStep::Registration => "registration failed: "@,
        FailedStep::Connect => "connect failed: "@,
    }
}

/// The status line for a failed step and its error.
pub fn failure_status(step: FailedStep, error: &str) -> (r: String)
    ensures
        r@ == failure_prefix(step) + error@,
{
    match step {
        FailedStep::InputInjector => concat2("input injector failed: ", error),
        FailedStep::Registration => concat2("registration failed: ", error),
        FailedStep::Connect => concat2("connect failed: ", error),
    }
}

/// A pointer button of the GUI toolkit.
#[derive(Debug, Clone, Copy, PartialEq, Eq, Structural)]
pub enum PointerButtonKind {
    Primary,
    Secondary,
    Middle,
    Extra1,
    Extra2,
}

/// The host's mouse button for a pointer button: the three usual ones.
pub open spec fn spec_map_pointer_button(b: PointerButtonKind) -> Option<MouseButton> {
    match b {
        PointerButtonKind::Primary => Some(MouseButton::Left),
        PointerButtonKind::Secondary => Some(MouseButton::Right),
        PointerButtonKind::Middle => Some(MouseButton::Middle),
        _ => None,
    }
}

/// The host's mouse button for a pointer button.
pub fn map_pointer_button(b: PointerButtonKind) -> (r: Option<MouseButton>)
    ensures
        r == spec_map_pointer_button(b),
{
    match b {
        PointerButtonKind::Primary => Some(MouseButton::Left),
        PointerButtonKind::Secondary => Some(MouseButton::Right),
        PointerButtonKind::Middle => Some(MouseButton::Middle),
        _ => None,
    }
}

/// A key of the GUI toolkit: the ones without a printable character that
/// the host understands, and all others.
#[derive(Debug, Clone, Copy, PartialEq, Eq, Structural)]
pub enum SpecialKey {
    Backspace,
    Enter,
    Tab,
    Escape,
    Space,
    Delete,
    ArrowUp,
    ArrowDown,
    ArrowLeft,
    ArrowRight,
    /// Any other key; its text arrives as a text event.
    Other,
}

/// The host's key code for a key, if it is one the host understands.
pub open spec fn spec_map_special_key(k: SpecialKey) -> Option<KeyCode> {
    match k {
        SpecialKey::Backspace => Some(KeyCode::Backspace),
        SpecialKey::Enter => Some(KeyCode::Enter),
        SpecialKey::Tab => Some(KeyCode::Tab),
        SpecialKey::Escape => Some(KeyCode::Escape),
        SpecialKey::Space => Some(KeyCode::Space),
        SpecialKey::Delete => Some(KeyCode::Delete),
        SpecialKey::ArrowUp => Some(KeyCode::ArrowUp),
        SpecialKey::ArrowDown => Some(KeyCode::ArrowDown),
        SpecialKey::ArrowLeft => Some(KeyCode::ArrowLeft),
        SpecialKey::ArrowRight => Some(KeyCode::ArrowRight),
        SpecialKey::Other => None,
    }
}

/// The host's key code for a key.
pub fn map_special_key(k: SpecialKey) -> (r: Option<KeyCode>)
    ensures
        r == spec_map_special_key(k),
{
    match k {
        SpecialKey::Backspace => Some(KeyCode::Backspace),
        SpecialKey::Enter => Some(KeyCode::Enter),
        SpecialKey::Tab => Some(KeyCode::Tab),
        SpecialKey::Escape => Some(KeyCode::Escape),
        SpecialKey::Space => Some(KeyCode::Space),
        SpecialKey::Delete => Some(KeyCode::Delete),
        SpecialKey::ArrowUp => Some(KeyCode::ArrowUp),
        SpecialKey::ArrowDown => Some(KeyCode::ArrowDown),
        SpecialKey::ArrowLeft => Some(KeyCode::ArrowLeft),
        SpecialKey::ArrowRight => Some(KeyCode::ArrowRight),
        SpecialKey::Other => None,
    }
}

/// The name a viewer key is written under.
pub open spec fn special_key_name(k: SpecialKey) -> Seq<char> {
    match k {
        SpecialKey::Backspace => "Backspace"@,
        SpecialKey::Enter => "Enter"@,
        SpecialKey::Tab => "Tab"@,
        SpecialKey::Escape => "Escape"@,
        SpecialKey::Space => "Space"@,
        SpecialKey::Delete => "Delete"@,
        SpecialKey::ArrowUp => "ArrowUp"@,
        SpecialKey::ArrowDown => "ArrowDown"@,
        SpecialKey::ArrowLeft => "ArrowLeft"@,
        SpecialKey::ArrowRight => "ArrowRight"@,
        SpecialKey::Other => "Other"@,
    }
}

/// The name a host key code is written under.
pub open spec fn key_code_name(c: KeyCode) -> Seq<char> {
    match c {
        KeyCode::Backspace => "Backspace"@,
        KeyCode::Enter => "Enter"@,
        KeyCode::Tab => "Tab"@,
        KeyCode::Escape => "Escape"@,
        KeyCode::Space => "Space"@,
        KeyCode::Delete => "Delete"@,
        KeyCode::ArrowUp => "ArrowUp"@,
        KeyCode::ArrowDown => "ArrowDown"@,
        KeyCode::ArrowLeft => "ArrowLeft"@,
        KeyCode::ArrowRight => "ArrowRight"@,
        KeyCode::Shift => "Shift"@,
        KeyCode::Control => "Control"@,
        KeyCode::Alt => "Alt"@,
        KeyCode::Meta => "Meta"@,
    }
}

/// Every viewer key reaches the host as the key of the same name (Up as
/// Up, Down as Down, and so on); only a key the host has no code for
/// (`Other`, whose text arrives as a text event) reaches it as nothing.
pub proof fn lemma_keys_keep_their_names(k: SpecialKey)
    ensures
        spec_map_special_key(k) matches Some(c) ==> key_code_name(c) == special_key_name(k),
        spec_map_special_key(k) is None <==> k == SpecialKey::Other,
{
}

/// A window event of the remote-screen view.
#[derive(Debug, Clone)]
pub enum ViewEvent {
    /// The pointer moved; `inside` tells whether it is over the video, and
    /// `x`, `y` are its position on the remote screen.
    PointerMoved { inside: bool, x: i32, y: i32 },
    /// A pointer button changed, over the video or not.
    PointerButton { inside: bool, button: PointerButtonKind, pressed: bool },
    /// The wheel turned by this much, already turned the host's way.
    Wheel { delta_x: i32, delta_y: i32 },
    /// Typed text.
    Text { text: String },
    /// A key changed; `repeat` marks an auto-repeat.
    Key { key: SpecialKey, pressed: bool, repeat: bool },
    /// Anything else.
    Other,
}

/// The input event for the host, if any, for view event `ev`: pointer
/// events only over the video, the wheel only while the pointer hovers
/// it, text and keys while it is hovered or has the focus, and no
/// auto-repeats.
pub open spec fn spec_route_event(ev: ViewEvent, hovered: bool, focused: bool) -> Option<InputEvent> {
    match ev {
        ViewEvent::PointerMoved { inside, x, y } => if inside {
            Some(InputEvent::MouseMove { x, y })
        } else {
            None
        },
        ViewEvent::PointerButton { inside, button, pressed } => if inside {
            match spec_map_pointer_button(button) {
                Some(b) => Some(InputEvent::MouseButton { button: b, pressed }),
                None => None,
            }
        } else {
            None
        },
        ViewEvent::Wheel { delta_x, delta_y } => if hovered {
            Some(InputEvent::MouseScroll { delta_x, delta_y })
        } else {
            None
        },
        ViewEvent::Text { text } => if hovered || focused {
            Some(InputEvent::TypeText { text })
        } else {
            None
        },
        ViewEvent::Key { key, pressed, repeat } => if !repeat && (hovered || focused) {
            match spec_map_special_key(key) {
                Some(k) => Some(InputEvent::KeyEvent { key: k, pressed }),
                None => None,
            }
        } else {
            None
        },
        ViewEvent::Other => None,
    }
}

/// The input event for the host, if any, for view event `ev`.
pub fn route_event(ev: ViewEvent, hovered: bool, focused: bool) -> (r: Option<InputEvent>)
    ensures
        r == spec_route_event(ev, hovered, focused),
{
    match ev {
        ViewEvent::PointerMoved { inside, x, y } => if inside {
            Some(InputEvent::MouseMove { x, y })
        } else {
            None
        },
        ViewEvent::PointerButton { inside, button, pressed } => if inside {
            match map_pointer_button(button) {
                Some(b) => Some(InputEvent::MouseButton { button: b, pressed }),
                None => None,
            }
        } else {
            None
        },
        ViewEvent::Wheel { delta_x, delta_y } => if hovered {
            Some(InputEvent::MouseScroll { delta_x, delta_y })
        } else {
            None
        },
        ViewEvent::Text { text } => if hovered || focused {
            Some(InputEvent::TypeText { text })
        } else {
            None
        },
        ViewEvent::Key { key, pressed, repeat } => if !repeat && (hovered || focused) {
            match map_special_key(key) {
                Some(k) => Some(InputEvent::KeyEvent { key: k, pressed }),
                None => None,
            }
        } else {
            None
        },
        ViewEvent::Other => None,
    }
}

/// Nothing reaches the host from a view that neither is hovered nor has the
/// focus, except pointer events over the video itself.
pub proof fn lemma_unattended_view_sends_only_pointer(ev: ViewEvent)
    requires
        !(ev is PointerMoved || ev is PointerButton),
    ensures
        spec_route_event(ev, false, false) is None,
{
}

} // verus!
