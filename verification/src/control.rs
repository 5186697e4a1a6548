//! Messages exchanged directly between peers over the WebRTC data channel
//! once a session is established: input events, clipboard sync, file
//! transfer and monitor selection. Their compact binary encoding is done
//! outside the library by copies of these types that carry serde derives.

use vstd::prelude::*;

verus! {

/// A message on the peer-to-peer control channel.
#[derive(Debug, Clone)]
pub enum ControlMessage {
    Input(InputEvent),
    Clipboard(ClipboardMessage),
    File(FileTransferMessage),
    Monitor(MonitorMessage),
}

/// A local input event to replay on the host.
#[derive(Debug, Clone, PartialEq, Eq)]
pub enum InputEvent {
    MouseMove { x: i32, y: i32 },
    MouseButton { button: MouseButton, pressed: bool },
    MouseScroll { delta_x: i32, delta_y: i32 },
    /// Press/release of a key that carries no printable character.
    KeyEvent { key: KeyCode, pressed: bool },
    /// Composed text, as the GUI toolkit hands it over.
    TypeText { text: String },
}

/// A portable set of non-printable keys, with the same meaning on both ends
/// whatever their operating systems or keyboard layouts.
#[derive(Debug, Clone, Copy, PartialEq, Eq, Structural)]
pub enum KeyCode {
    Backspace,
    Enter,
    Tab,
    Escape,
    Space,
    Delete,
    ArrowUp,
    ArrowDown,
    ArrowLeft,
    ArrowRight,
    Shift,
    Control,
    Alt,
    Meta,
}

/// A mouse button.
#[derive(Debug, Clone, Copy, PartialEq, Eq, Structural)]
pub enum MouseButton {
    Left,
    Right,
    Middle,
}

/// Clipboard synchronisation (text only).
#[derive(Debug, Clone)]
pub enum ClipboardMessage {
    TextUpdated { text: String },
}

/// File transfer, controller to host.
#[derive(Debug, Clone)]
pub enum FileTransferMessage {
    Offer { transfer_id: String, file_name: String, size_bytes: u64 },
    Accept { transfer_id: String },
    Reject { transfer_id: String },
    Chunk { transfer_id: String, sequence: u32, data: Vec<u8> },
    Complete { transfer_id: String },
    Cancel { transfer_id: String },
}

/// Monitor listing and switching.
#[derive(Debug, Clone)]
pub enum MonitorMessage {
    ListRequest,
    List { monitors: Vec<MonitorInfo> },
    SwitchRequest { monitor_id: u32 },
    Switched { monitor_id: u32 },
}

/// One of the host's monitors.
#[derive(Debug, Clone)]
pub struct MonitorInfo {
    pub id: u32,
    pub name: String,
    pub width: u32,
    pub height: u32,
    pub is_primary: bool,
}

} // verus!
