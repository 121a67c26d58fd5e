//! Legacy X11 system-tray icons as StatusNotifierItems.
//!
//! Many X11 programs, notably Wine and Proton applications, put an icon into the
//! system tray by the XEMBED tray protocol, which modern bars do not speak. This
//! library is the logic of a daemon that stands between them:
//!
//! - [`acquire`] takes the `_NET_SYSTEM_TRAY_S<n>` selection of a screen;
//! - [`host`] embeds the icons that clients dock ([`embed`]), captures what they
//!   paint ([`capture`], [`image`], [`net_icon`]), learns how they are called
//!   ([`props`], [`title`]), and lets go of them; [`host_laws`] holds what is
//!   true of it as a whole;
//! - [`bridge`] keeps one StatusNotifierItem ([`sni`]) per icon;
//! - [`control`] turns interactions with an item into clicks on its icon;
//! - [`daemon`] reads the command line and winds everything down; [`debug`] shows
//!   values in its logs.
//!
//! Nothing here talks to a server or a bus. Where an answer is needed, a function
//! says what to ask ([`request`]) and what it waits for, and is resumed with what
//! came back. So all decisions are functions of plain values, and are verified
//! for every answer.

pub mod acquire;
pub mod bridge;
pub mod capture;
pub mod control;
pub mod daemon;
pub mod debug;
pub mod embed;
pub mod error;
pub mod host;
pub mod host_laws;
pub mod icon;
pub mod image;
pub mod net_icon;
pub mod props;
pub mod request;
pub mod sni;
pub mod text;
pub mod title;
pub mod visual;
pub mod wire;

pub use control::TrayControl;
pub use error::Error;
pub use host::{TrayHost, Waker};
pub use icon::{IconEvent, IconId, IconImage, IconMeta};
