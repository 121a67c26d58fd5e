//! The conversation with the X server, in plain values.
//!
//! The library decides what to ask of the server and what its answers mean.
//! Whoever holds the connection sends each [`Request`] and hands the [`Reply`]
//! back, or the next [`ServerEvent`] where the host waits for one.

use crate::error::Error;
use crate::visual::Setup;
use crate::wire;
use vstd::prelude::*;

verus! {

/// No window, no pixmap, no atom.
pub const NONE: u32 = 0;

/// The time of a request that has no better one.
pub const CURRENT_TIME: u32 = 0;

/// A property of whatever type.
pub const ANY_TYPE: u32 = 0;

/// Event masks of the X protocol.
pub const MASK_NONE: u32 = 0;

pub const MASK_BUTTON_PRESS: u32 = 0x4;

pub const MASK_BUTTON_RELEASE: u32 = 0x8;

pub const MASK_STRUCTURE_NOTIFY: u32 = 0x2_0000;

pub const MASK_PROPERTY_CHANGE: u32 = 0x40_0000;

/// The atoms that a tray host speaks of.
#[derive(Clone, Copy, Debug, PartialEq, Eq)]
pub struct Atoms {
    pub manager: u32,
    pub net_system_tray_opcode: u32,
    pub net_system_tray_orientation: u32,
    pub xembed: u32,
    pub xembed_info: u32,
    pub net_wm_name: u32,
    pub net_wm_icon: u32,
    pub utf8_string: u32,
    /// Private atom used to wake the blocking event loop for shutdown.
    pub xembsni_wakeup: u32,
    pub cardinal: u32,
    pub string: u32,
    pub wm_name: u32,
    pub wm_class: u32,
}

/// The screen that a tray host lives on.
#[derive(Debug)]
pub struct Desktop {
    pub atoms: Atoms,
    pub root: u32,
    pub root_visual: u32,
    pub setup: Setup,
}

/// A client message of five words.
#[derive(Clone, Copy, Debug, PartialEq, Eq)]
pub struct ClientMessage {
    pub window: u32,
    pub type_: u32,
    pub data: [u32; 5],
}

/// A synthetic press or release of a pointer button.
#[derive(Clone, Copy, Debug, PartialEq, Eq)]
pub struct ButtonEvent {
    pub release: bool,
    pub detail: u8,
    pub time: u32,
    pub root: u32,
    pub event: u32,
    pub child: u32,
    pub root_x: i16,
    pub root_y: i16,
    pub event_x: i16,
    pub event_y: i16,
    pub state: u16,
    pub same_screen: bool,
}

/// A window to create, of the depth of its parent and without a border.
#[derive(Clone, Copy, Debug, PartialEq, Eq)]
pub struct NewWindow {
    pub window: u32,
    pub parent: u32,
    pub x: i16,
    pub y: i16,
    pub width: u16,
    pub height: u16,
    pub visual: u32,
    pub override_redirect: bool,
    pub event_mask: u32,
    /// Whether to wait for the server's word that the window exists.
    pub checked: bool,
}

/// Something to ask of the X server.
#[derive(Clone, Copy, Debug, PartialEq, Eq)]
pub enum Request {
    /// Negotiate the Composite extension; answered by [`Reply::Done`].
    QueryComposite { major: u32, minor: u32 },
    /// Negotiate the Damage extension; answered by [`Reply::Done`].
    QueryDamage { major: u32, minor: u32 },
    /// Answered by [`Reply::Owner`].
    GetSelectionOwner { selection: u32 },
    SetSelectionOwner { owner: u32, selection: u32, time: u32 },
    /// A fresh resource id; answered by [`Reply::Id`].
    GenerateId,
    CreateWindow(NewWindow),
    DestroyWindow { window: u32 },
    MapWindow { window: u32 },
    UnmapWindow { window: u32 },
    ReparentWindow { window: u32, parent: u32, x: i16, y: i16 },
    /// Ask for events of a window, and wait for the server's word on it.
    SelectInput { window: u32, event_mask: u32 },
    /// Replace a property by a single word.
    ChangeProperty { window: u32, property: u32, type_: u32, value: u32 },
    /// Answered by [`Reply::Property`].
    GetProperty { window: u32, property: u32, type_: u32, length: u32 },
    /// Answered by [`Reply::Geometry`].
    GetGeometry { window: u32 },
    /// Answered by [`Reply::Visual`].
    GetWindowAttributes { window: u32 },
    /// Answered by [`Reply::Tree`].
    QueryTree { window: u32 },
    /// Send a client message.
    SendMessage { destination: u32, event_mask: u32, message: ClientMessage },
    /// Send a button event, propagated to ancestors that want it.
    SendButton { destination: u32, event_mask: u32, event: ButtonEvent },
    /// Redirect a window to offscreen storage, automatically updated.
    RedirectWindow { window: u32 },
    /// Name the offscreen storage of a window, and wait for the server's word.
    NameWindowPixmap { window: u32, pixmap: u32 },
    FreePixmap { pixmap: u32 },
    /// All planes of a drawable as a `ZPixmap`; answered by [`Reply::Image`].
    GetImage { drawable: u32, width: u16, height: u16 },
    /// Report damage to a window whenever there is any.
    CreateDamage { damage: u32, drawable: u32 },
    /// Acknowledge all damage.
    SubtractDamage { damage: u32 },
    DestroyDamage { damage: u32 },
    /// Send what is buffered.
    Flush,
}

/// What became of a request, or of several in a row: what the last of them
/// brought, or the error of the first that failed.
#[derive(Debug)]
pub enum Reply {
    Done,
    Failed(Error),
    Owner(u32),
    Id(u32),
    Atom(u32),
    Geometry { width: u16, height: u16 },
    Visual(u32),
    Property { format: u8, value: Vec<u8> },
    Image { data: Vec<u8> },
    Tree { children: Vec<u32> },
}

/// An event that the server reports.
#[derive(Clone, Copy, Debug, PartialEq, Eq)]
pub enum ServerEvent {
    ClientMessage { type_: u32, data: [u32; 5] },
    DamageNotify { damage: u32 },
    DestroyNotify { window: u32 },
    ReparentNotify { window: u32, parent: u32 },
    PropertyNotify { window: u32, atom: u32 },
    SelectionClear { selection: u32 },
    Other,
}

impl ServerEvent {
    /// The client message whose twenty data bytes are `raw`.
    pub fn client_message(type_: u32, raw: [u8; 20]) -> (event: ServerEvent)
        ensures
            event matches ServerEvent::ClientMessage { type_: t, data } && t == type_ && data@
                == wire::native_words(raw@),
    {
        ServerEvent::ClientMessage { type_, data: wire::data32(raw) }
    }
}

} // verus!
