//! Docked icons: what is known of them and what happens to them.

use vstd::prelude::*;

verus! {

/// Identifier of a docked icon: its X11 window id.
pub type IconId = u32;

/// A captured icon image in ARGB32 (`[A, R, G, B]` per pixel), row by row.
#[derive(Clone, PartialEq, Eq)]
pub struct IconImage {
    pub width: u16,
    pub height: u16,
    pub argb32: Vec<u8>,
}

/// The model of an [`IconImage`].
#[verifier::ext_equal]
pub struct ImageView {
    pub width: u16,
    pub height: u16,
    pub argb32: Seq<u8>,
}

impl View for IconImage {
    type V = ImageView;

    open spec fn view(&self) -> ImageView {
        ImageView { width: self.width, height: self.height, argb32: self.argb32@ }
    }
}

impl ImageView {
    /// Whether the image holds four bytes for each of its pixels.
    pub open spec fn well_formed(self) -> bool {
        self.argb32.len() == self.width * self.height * 4
    }
}

/// Descriptive metadata of a docked icon.
#[derive(Clone, Debug, PartialEq, Eq)]
pub struct IconMeta {
    pub id: IconId,
    /// Application identifier, derived from `WM_CLASS`.
    pub app_id: String,
    /// Human-readable title, from `_NET_WM_NAME`/`WM_NAME` (may be empty).
    pub title: String,
}

/// The model of an [`IconMeta`].
#[verifier::ext_equal]
pub struct MetaView {
    pub id: IconId,
    pub app_id: Seq<char>,
    pub title: Seq<char>,
}

impl View for IconMeta {
    type V = MetaView;

    open spec fn view(&self) -> MetaView {
        MetaView { id: self.id, app_id: self.app_id@, title: self.title@ }
    }
}

/// The model of an image that may be missing.
pub open spec fn image_view(image: Option<IconImage>) -> Option<ImageView> {
    match image {
        Some(image) => Some(image@),
        None => None,
    }
}

/// An event produced by the tray host.
#[derive(Clone, Debug, PartialEq, Eq)]
pub enum IconEvent {
    /// A new icon was docked and embedded. `image` is the initial capture, if
    /// one was available immediately (more arrive as [`IconEvent::Updated`]).
    Added { meta: IconMeta, image: Option<IconImage> },
    /// An icon's contents changed.
    Updated { id: IconId, image: IconImage },
    /// An icon's title changed.
    TitleChanged { id: IconId, title: String },
    /// A client toggled whether its icon should be shown (`_XEMBED_INFO`).
    VisibilityChanged { id: IconId, visible: bool },
    /// An icon was removed (its window was destroyed or taken back).
    Removed { id: IconId },
    /// The tray selection was taken over by another host; shut down.
    SelectionLost,
}

/// The model of an [`IconEvent`].
#[verifier::ext_equal]
pub enum IconEventView {
    Added { meta: MetaView, image: Option<ImageView> },
    Updated { id: IconId, image: ImageView },
    TitleChanged { id: IconId, title: Seq<char> },
    VisibilityChanged { id: IconId, visible: bool },
    Removed { id: IconId },
    SelectionLost,
}

impl View for IconEvent {
    type V = IconEventView;

    open spec fn view(&self) -> IconEventView {
        match *self {
            IconEvent::Added { meta, image } => IconEventView::Added {
                meta: meta@,
                image: image_view(image),
            },
            IconEvent::Updated { id, image } => IconEventView::Updated { id, image: image@ },
            IconEvent::TitleChanged { id, title } => IconEventView::TitleChanged {
                id,
                title: title@,
            },
            IconEvent::VisibilityChanged { id, visible } => IconEventView::VisibilityChanged {
                id,
                visible,
            },
            IconEvent::Removed { id } => IconEventView::Removed { id },
            IconEvent::SelectionLost => IconEventView::SelectionLost,
        }
    }
}

} // verus!
