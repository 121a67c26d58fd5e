//! Getting the graphic of an icon.
//!
//! What the client painted into its tray window is authoritative, and is
//! captured from the window's offscreen storage. `_NET_WM_ICON` is only a
//! fallback, for clients that do not paint: it holds the generic icon of a
//! *window*, not the tray icon.

use crate::icon::{IconImage, ImageView};
use crate::image;
use crate::image::PixelFormat;
use crate::net_icon;
use crate::request::{Atoms, Desktop, Reply, Request};
use vstd::prelude::*;

verus! {

/// How much of `_NET_WM_ICON` is read, in units of four bytes.
pub const NET_WM_ICON_LENGTH: u32 = 0x10_0000;

/// What the host keeps of a hosted icon.
#[derive(Clone, Copy, Debug, PartialEq, Eq)]
pub struct Icon {
    pub container: u32,
    pub damage: u32,
    pub width: u16,
    pub height: u16,
    pub format: Option<PixelFormat>,
    /// Whether the client currently wants its icon shown (`_XEMBED_INFO`).
    pub mapped: bool,
}

/// What is to be captured: a window, its size and how its pixels are laid out.
#[derive(Clone, Copy, Debug, PartialEq, Eq)]
pub struct Target {
    pub icon: u32,
    pub width: u16,
    pub height: u16,
    pub format: PixelFormat,
}

/// The getting of a graphic that waits for an answer of the server.
#[derive(Clone, Copy, Debug, PartialEq, Eq)]
pub enum ImageTask {
    /// An id for the pixmap was asked for.
    Id { target: Target },
    /// The window's storage is being named.
    Name { target: Target, pixmap: u32 },
    /// The storage's contents were asked for.
    Contents { target: Target, pixmap: u32 },
    /// `_NET_WM_ICON` was asked for.
    Fallback,
}

/// How the getting of a graphic goes on. `forget` is to be sent first, whatever
/// becomes of it.
#[derive(Debug)]
pub enum ImageStep {
    /// Ask the server, and resume the task with its reply.
    Ask { forget: Option<Request>, request: Request, task: ImageTask },
    /// This is the graphic, if there is one.
    Got { forget: Option<Request>, image: Option<IconImage> },
}

/// The model of an [`ImageStep`].
#[verifier::ext_equal]
pub enum ImageStepView {
    Ask { forget: Option<Request>, request: Request, task: ImageTask },
    Got { forget: Option<Request>, image: Option<ImageView> },
}

impl View for ImageStep {
    type V = ImageStepView;

    open spec fn view(&self) -> ImageStepView {
        match *self {
            ImageStep::Ask { forget, request, task } => ImageStepView::Ask {
                forget,
                request,
                task,
            },
            ImageStep::Got { forget, image } => ImageStepView::Got {
                forget,
                image: crate::icon::image_view(image),
            },
        }
    }
}

/// The request for an icon's `_NET_WM_ICON`.
pub open spec fn net_wm_icon_request(atoms: Atoms, icon: u32) -> Request {
    Request::GetProperty {
        window: icon,
        property: atoms.net_wm_icon,
        type_: atoms.cardinal,
        length: NET_WM_ICON_LENGTH,
    }
}

/// The image that contents of a window's storage give.
pub open spec fn captured(target: Target, data: Seq<u8>) -> ImageView {
    ImageView {
        width: target.width,
        height: target.height,
        argb32: image::argb_bytes(
            image::icon_pixels(target.width, target.height, data, target.format),
        ),
    }
}

/// The image in a reply to the request for a window's contents. One that this
/// machine could not address does not count.
pub open spec fn captured_in(target: Target, reply: Reply) -> Option<ImageView> {
    match reply {
        Reply::Image { data } => if image::addressable(target.width, target.height) {
            Some(captured(target, data@))
        } else {
            None
        },
        _ => None,
    }
}

/// The image in a reply to the request for `_NET_WM_ICON`.
pub open spec fn fallback_in(reply: Reply) -> Option<ImageView> {
    match reply {
        Reply::Property { format, value } => net_icon::icon_of_property(format, value@),
        _ => None,
    }
}

/// Turning to `_NET_WM_ICON`.
pub open spec fn fall_back(atoms: Atoms, icon: u32, forget: Option<Request>) -> ImageStepView {
    ImageStepView::Ask {
        forget,
        request: net_wm_icon_request(atoms, icon),
        task: ImageTask::Fallback,
    }
}

/// How the getting of an icon's graphic starts: with a capture, unless the
/// layout of the icon's pixels is unknown.
pub open spec fn image_start(atoms: Atoms, icon: u32, state: Icon) -> ImageStepView {
    match state.format {
        Some(format) => ImageStepView::Ask {
            forget: None,
            request: Request::GenerateId,
            task: ImageTask::Id {
                target: Target { icon, width: state.width, height: state.height, format },
            },
        },
        None => fall_back(atoms, icon, None),
    }
}

/// How it goes on after a reply.
pub open spec fn image_step(atoms: Atoms, task: ImageTask, reply: Reply) -> ImageStepView {
    match task {
        ImageTask::Id { target } => match reply {
            Reply::Id(pixmap) => ImageStepView::Ask {
                forget: None,
                request: Request::NameWindowPixmap { window: target.icon, pixmap },
                task: ImageTask::Name { target, pixmap },
            },
            _ => fall_back(atoms, target.icon, None),
        },
        ImageTask::Name { target, pixmap } => match reply {
            Reply::Done => ImageStepView::Ask {
                forget: None,
                request: Request::GetImage {
                    drawable: pixmap,
                    width: target.width,
                    height: target.height,
                },
                task: ImageTask::Contents { target, pixmap },
            },
            _ => fall_back(atoms, target.icon, None),
        },
        ImageTask::Contents { target, pixmap } => match captured_in(target, reply) {
            Some(image) => ImageStepView::Got {
                forget: Some(Request::FreePixmap { pixmap }),
                image: Some(image),
            },
            None => fall_back(atoms, target.icon, Some(Request::FreePixmap { pixmap })),
        },
        ImageTask::Fallback => ImageStepView::Got { forget: None, image: fallback_in(reply) },
    }
}

/// Turns to `_NET_WM_ICON`.
fn ask_net_wm_icon(atoms: &Atoms, icon: u32, forget: Option<Request>) -> (step: ImageStep)
    ensures
        step@ == fall_back(*atoms, icon, forget),
{
    ImageStep::Ask {
        forget,
        request: Request::GetProperty {
            window: icon,
            property: atoms.net_wm_icon,
            type_: atoms.cardinal,
            length: NET_WM_ICON_LENGTH,
        },
        task: ImageTask::Fallback,
    }
}

/// Reads the image out of a reply to the request for a window's contents.
pub fn capture(target: Target, reply: Reply) -> (found: Option<IconImage>)
    ensures
        found is Some <==> captured_in(target, reply) is Some,
        found matches Some(image) ==> image@ == captured_in(target, reply)->0
            && image@.well_formed(),
{
    match reply {
        Reply::Image { data } => {
            assert(target.width * target.height <= 0xffff * 0xffff) by (nonlinear_arith)
                requires
                    target.width <= 0xffff,
                    target.height <= 0xffff,
            ;
            if target.width as u64 * target.height as u64 * 4 <= usize::MAX as u64 {
                Some(
                    IconImage {
                        width: target.width,
                        height: target.height,
                        argb32: image::to_argb32(
                            target.width,
                            target.height,
                            data.as_slice(),
                            target.format,
                        ),
                    },
                )
            } else {
                None
            }
        },
        _ => None,
    }
}

impl ImageTask {
    /// Starts to get the graphic of an icon.
    pub fn start(desk: &Desktop, icon: u32, state: &Icon) -> (step: ImageStep)
        ensures
            step@ == image_start(desk.atoms, icon, *state),
    {
        match state.format {
            Some(format) => ImageStep::Ask {
                forget: None,
                request: Request::GenerateId,
                task: ImageTask::Id {
                    target: Target { icon, width: state.width, height: state.height, format },
                },
            },
            None => ask_net_wm_icon(&desk.atoms, icon, None),
        }
    }

    /// Takes the server's reply to the request that the task waits for.
    pub fn resume(self, desk: &Desktop, reply: Reply) -> (step: ImageStep)
        ensures
            step@ == image_step(desk.atoms, self, reply),
            step@ matches ImageStepView::Got { image: Some(image), .. } ==> image.well_formed(),
    {
        match self {
            ImageTask::Id { target } => match reply {
                Reply::Id(pixmap) => ImageStep::Ask {
                    forget: None,
                    request: Request::NameWindowPixmap { window: target.icon, pixmap },
                    task: ImageTask::Name { target, pixmap },
                },
                _ => ask_net_wm_icon(&desk.atoms, target.icon, None),
            },
            ImageTask::Name { target, pixmap } => match reply {
                Reply::Done => ImageStep::Ask {
                    forget: None,
                    request: Request::GetImage {
                        drawable: pixmap,
                        width: target.width,
                        height: target.height,
                    },
                    task: ImageTask::Contents { target, pixmap },
                },
                _ => ask_net_wm_icon(&desk.atoms, target.icon, None),
            },
            ImageTask::Contents { target, pixmap } => match capture(target, reply) {
                Some(image) => ImageStep::Got {
                    forget: Some(Request::FreePixmap { pixmap }),
                    image: Some(image),
                },
                None => ask_net_wm_icon(
                    &desk.atoms,
                    target.icon,
                    Some(Request::FreePixmap { pixmap }),
                ),
            },
            ImageTask::Fallback => match reply {
                Reply::Property { format, value } => ImageStep::Got {
                    forget: None,
                    image: net_icon::read_net_wm_icon(format, &value),
                },
                _ => ImageStep::Got { forget: None, image: None },
            },
        }
    }
}

/// The graphic of an icon, and how many questions were asked when it is known:
/// what was captured, or else `_NET_WM_ICON`. The server answers the `n`th question
/// as `answers` says; `asked` were asked before.
pub open spec fn graphic_of(
    atoms: Atoms,
    answers: spec_fn(nat, Request) -> Reply,
    icon: u32,
    state: Icon,
    asked: nat,
) -> (Option<ImageView>, nat) {
    let window_icon = net_wm_icon_request(atoms, icon);
    match (state.format, answers(asked, Request::GenerateId)) {
        (None, _) => (fallback_in(answers(asked, window_icon)), asked + 1),
        (Some(format), Reply::Id(pixmap)) => {
            let width = state.width;
            let height = state.height;
            let named = answers(asked + 1, Request::NameWindowPixmap { window: icon, pixmap });
            let contents = answers(
                asked + 2,
                Request::GetImage { drawable: pixmap, width, height },
            );
            if !(named is Done) {
                (fallback_in(answers(asked + 2, window_icon)), asked + 3)
            } else {
                match captured_in(Target { icon, width, height, format }, contents) {
                    Some(image) => (Some(image), asked + 3),
                    None => (fallback_in(answers(asked + 3, window_icon)), asked + 4),
                }
            }
        },
        (Some(_), _) => (fallback_in(answers(asked + 1, window_icon)), asked + 2),
    }
}

/// What is got with at most `questions` more questions, and how many were asked
/// then.
pub open spec fn pursue(
    atoms: Atoms,
    answers: spec_fn(nat, Request) -> Reply,
    step: ImageStepView,
    asked: nat,
    questions: nat,
) -> Option<(Option<ImageView>, nat)>
    decreases questions,
{
    match step {
        ImageStepView::Got { forget, image } => Some((image, asked)),
        ImageStepView::Ask { forget, request, task } => if questions == 0 {
            None
        } else {
            pursue(
                atoms,
                answers,
                image_step(atoms, task, answers(asked, request)),
                asked + 1,
                (questions - 1) as nat,
            )
        },
    }
}

/// The capture comes first and `_NET_WM_ICON` only where it brings nothing; four
/// questions always suffice.
pub proof fn law_capture_first(
    atoms: Atoms,
    answers: spec_fn(nat, Request) -> Reply,
    icon: u32,
    state: Icon,
    asked: nat,
    questions: nat,
)
    requires
        questions >= 4,
    ensures
        pursue(atoms, answers, image_start(atoms, icon, state), asked, questions) == Some(
            graphic_of(atoms, answers, icon, state, asked),
        ),
        asked < graphic_of(atoms, answers, icon, state, asked).1 <= asked + 4,
{
    reveal_with_fuel(pursue, 5);
}

/// Once the contents of a pixmap were asked for, the pixmap is freed, whatever
/// the server answered.
pub proof fn law_pixmap_is_freed(atoms: Atoms, target: Target, pixmap: u32, reply: Reply)
    ensures
        match image_step(atoms, ImageTask::Contents { target, pixmap }, reply) {
            ImageStepView::Ask { forget, .. } => forget,
            ImageStepView::Got { forget, .. } => forget,
        } == Some(Request::FreePixmap { pixmap }),
{
}

/// What a window's storage holds, asked for by a fresh name and at the size that is
/// kept of the icon, is the icon's graphic, of that size: the pixels that the server
/// sent, read in the icon's format.
pub proof fn law_capture_is_what_is_stored(
    atoms: Atoms,
    answers: spec_fn(nat, Request) -> Reply,
    icon: u32,
    state: Icon,
    asked: nat,
    pixmap: u32,
)
    requires
        state.format is Some,
        answers(asked, Request::GenerateId) == Reply::Id(pixmap),
        answers(asked + 1, Request::NameWindowPixmap { window: icon, pixmap }) is Done,
        answers(
            asked + 2,
            Request::GetImage { drawable: pixmap, width: state.width, height: state.height },
        ) is Image,
        state.width * state.height * 4 <= usize::MAX,
    ensures
        ({
            let contents = answers(
                asked + 2,
                Request::GetImage { drawable: pixmap, width: state.width, height: state.height },
            );
            let (image, after) = graphic_of(atoms, answers, icon, state, asked);
            &&& after == asked + 3
            &&& image matches Some(image) && {
                &&& image.width == state.width
                &&& image.height == state.height
                &&& image.argb32 == image::argb_bytes(
                    image::icon_pixels(
                        state.width,
                        state.height,
                        contents->Image_data@,
                        state.format->0,
                    ),
                )
            }
        }),
{
}

/// Where nothing can be captured, for want of a format, of an id, of a named storage or
/// of its contents, the graphic is the window icon, if the window has one.
pub proof fn law_window_icon_is_the_fallback(
    atoms: Atoms,
    answers: spec_fn(nat, Request) -> Reply,
    icon: u32,
    state: Icon,
    asked: nat,
    pixmap: u32,
)
    ensures
        ({
            let property = Request::GetProperty {
                window: icon,
                property: atoms.net_wm_icon,
                type_: atoms.cardinal,
                length: 0x10_0000,
            };
            let id = answers(asked, Request::GenerateId);
            let named = answers(asked + 1, Request::NameWindowPixmap { window: icon, pixmap });
            let contents = answers(
                asked + 2,
                Request::GetImage { drawable: pixmap, width: state.width, height: state.height },
            );
            let image = graphic_of(atoms, answers, icon, state, asked).0;
            &&& state.format is None ==> is_window_icon(image, answers(asked, property))
            &&& state.format is Some && !(id is Id) ==> is_window_icon(
                image,
                answers(asked + 1, property),
            )
            &&& state.format is Some && id == Reply::Id(pixmap) && !(named is Done)
                ==> is_window_icon(image, answers(asked + 2, property))
            &&& state.format is Some && id == Reply::Id(pixmap) && named is Done && !(
            contents is Image) ==> is_window_icon(image, answers(asked + 3, property))
        }),
{
}

/// Whether an image is what the reply for a window icon holds, or missing where the
/// reply holds none.
pub open spec fn is_window_icon(image: Option<ImageView>, reply: Reply) -> bool {
    match reply {
        Reply::Property { format, value } => if format == 32 {
            image == net_icon::icon_of_words(crate::wire::native_words(value@))
        } else {
            image is None
        },
        _ => image is None,
    }
}

} // verus!
