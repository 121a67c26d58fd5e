//! Embedding an icon that a client wants docked.
//!
//! The icon is put into an offscreen container, redirected so that its contents
//! can be captured, watched for damage, and told that it is embedded.

use crate::capture::{Icon, ImageStep, ImageStepView, ImageTask};
use crate::capture;
use crate::icon::{IconImage, IconMeta, ImageView, MetaView};
use crate::image::PixelFormat;
use crate::props;
use crate::request::{
    Atoms, ClientMessage, Desktop, NewWindow, Reply, Request, CURRENT_TIME, MASK_NONE,
    MASK_PROPERTY_CHANGE, MASK_STRUCTURE_NOTIFY,
};
use crate::title::{TitleStep, TitleStepView, TitleTask, TitleTaskView};
use crate::title;
use crate::visual;
use vstd::prelude::*;

verus! {

/// XEMBED protocol: the message that tells a client that it is embedded.
pub const XEMBED_EMBEDDED_NOTIFY: u32 = 0;

pub const XEMBED_VERSION: u32 = 0;

/// Where containers live: far offscreen, so that no compositor shows them.
pub const OFFSCREEN: i16 = -16000;

/// What is known of an icon when its pixels have been looked up.
#[derive(Clone, Copy, Debug, PartialEq, Eq)]
pub struct Draft {
    pub icon: u32,
    pub width: u16,
    pub height: u16,
    pub format: Option<PixelFormat>,
}

/// An embedding that waits for an answer of the server.
#[derive(Debug)]
pub enum EmbedTask {
    /// The icon's size was asked for.
    Geometry { icon: u32 },
    /// The icon's visual was asked for.
    Attributes { icon: u32, width: u16, height: u16 },
    /// Events of the icon were asked for.
    Watch { draft: Draft },
    /// An id for the container was asked for.
    ContainerId { draft: Draft },
    /// The icon is being moved into its container.
    Container { draft: Draft, container: u32 },
    /// An id for the damage object was asked for.
    DamageId { draft: Draft, container: u32 },
    /// The damage object is being created.
    Damage { draft: Draft, container: u32, damage: u32 },
    /// `_XEMBED_INFO` was asked for.
    Info { draft: Draft, container: u32, damage: u32 },
    /// The icon is being mapped and told.
    Announce { icon: u32, state: Icon },
    /// The first graphic is being fetched.
    Image { icon: u32, state: Icon, task: ImageTask },
    /// `WM_CLASS` was asked for.
    Class { icon: u32, state: Icon, image: Option<IconImage> },
    /// The title is being searched for.
    Title { icon: u32, state: Icon, image: Option<IconImage>, app_id: String, task: TitleTask },
}

/// The model of an [`EmbedTask`].
#[verifier::ext_equal]
pub enum EmbedTaskView {
    Geometry { icon: u32 },
    Attributes { icon: u32, width: u16, height: u16 },
    Watch { draft: Draft },
    ContainerId { draft: Draft },
    Container { draft: Draft, container: u32 },
    DamageId { draft: Draft, container: u32 },
    Damage { draft: Draft, container: u32, damage: u32 },
    Info { draft: Draft, container: u32, damage: u32 },
    Announce { icon: u32, state: Icon },
    Image { icon: u32, state: Icon, task: ImageTask },
    Class { icon: u32, state: Icon, image: Option<ImageView> },
    Title {
        icon: u32,
        state: Icon,
        image: Option<ImageView>,
        app_id: Seq<char>,
        task: TitleTaskView,
    },
}

impl View for EmbedTask {
    type V = EmbedTaskView;

    open spec fn view(&self) -> EmbedTaskView {
        match *self {
            EmbedTask::Geometry { icon } => EmbedTaskView::Geometry { icon },
            EmbedTask::Attributes { icon, width, height } => EmbedTaskView::Attributes {
                icon,
                width,
                height,
            },
            EmbedTask::Watch { draft } => EmbedTaskView::Watch { draft },
            EmbedTask::ContainerId { draft } => EmbedTaskView::ContainerId { draft },
            EmbedTask::Container { draft, container } => EmbedTaskView::Container {
                draft,
                container,
            },
            EmbedTask::DamageId { draft, container } => EmbedTaskView::DamageId {
                draft,
                container,
            },
            EmbedTask::Damage { draft, container, damage } => EmbedTaskView::Damage {
                draft,
                container,
                damage,
            },
            EmbedTask::Info { draft, container, damage } => EmbedTaskView::Info {
                draft,
                container,
                damage,
            },
            EmbedTask::Announce { icon, state } => EmbedTaskView::Announce { icon, state },
            EmbedTask::Image { icon, state, task } => EmbedTaskView::Image { icon, state, task },
            EmbedTask::Class { icon, state, image } => EmbedTaskView::Class {
                icon,
                state,
                image: crate::icon::image_view(image),
            },
            EmbedTask::Title { icon, state, image, app_id, task } => EmbedTaskView::Title {
                icon,
                state,
                image: crate::icon::image_view(image),
                app_id: app_id@,
                task: task@,
            },
        }
    }
}

/// How an embedding goes on. `forget` is to be sent first, whatever becomes of
/// it.
#[derive(Debug)]
pub enum EmbedStep {
    /// Send the requests in order up to the first that fails, and resume the
    /// task with the reply.
    Ask { forget: Option<Request>, requests: Vec<Request>, task: EmbedTask },
    /// The icon is embedded.
    Embedded { state: Icon, meta: IconMeta, image: Option<IconImage> },
    /// The icon could not be embedded.
    Failed,
}

/// The model of an [`EmbedStep`].
#[verifier::ext_equal]
pub enum EmbedStepView {
    Ask { forget: Option<Request>, requests: Seq<Request>, task: EmbedTaskView },
    Embedded { state: Icon, meta: MetaView, image: Option<ImageView> },
    Failed,
}

impl View for EmbedStep {
    type V = EmbedStepView;

    open spec fn view(&self) -> EmbedStepView {
        match *self {
            EmbedStep::Ask { forget, requests, task } => EmbedStepView::Ask {
                forget,
                requests: requests@,
                task: task@,
            },
            EmbedStep::Embedded { state, meta, image } => EmbedStepView::Embedded {
                state,
                meta: meta@,
                image: crate::icon::image_view(image),
            },
            EmbedStep::Failed => EmbedStepView::Failed,
        }
    }
}

/// A width or height, at least one.
pub open spec fn at_least_one(side: u16) -> u16 {
    if side < 1 {
        1
    } else {
        side
    }
}

/// Watching an icon for destruction, for being moved and for new properties.
pub open spec fn watch_request(icon: u32) -> Request {
    Request::SelectInput {
        window: icon,
        event_mask: MASK_STRUCTURE_NOTIFY | MASK_PROPERTY_CHANGE,
    }
}

/// The offscreen window that is to hold an icon. No window manager looks after
/// it.
pub open spec fn container_window(desk: Desktop, draft: Draft, container: u32) -> NewWindow {
    NewWindow {
        window: container,
        parent: desk.root,
        x: OFFSCREEN,
        y: OFFSCREEN,
        width: draft.width,
        height: draft.height,
        visual: desk.root_visual,
        override_redirect: true,
        event_mask: MASK_STRUCTURE_NOTIFY,
        checked: true,
    }
}

/// Moving an icon into a new container and redirecting it.
pub open spec fn container_requests(desk: Desktop, draft: Draft, container: u32) -> Seq<Request> {
    seq![
        Request::CreateWindow(container_window(desk, draft, container)),
        Request::ReparentWindow { window: draft.icon, parent: container, x: 0, y: 0 },
        Request::RedirectWindow { window: draft.icon },
    ]
}

/// The message that tells an icon that it is embedded in a container.
pub open spec fn embedded_notify(atoms: Atoms, icon: u32, container: u32) -> Request {
    Request::SendMessage {
        destination: icon,
        event_mask: MASK_NONE,
        message: ClientMessage {
            window: icon,
            type_: atoms.xembed,
            data: [CURRENT_TIME, XEMBED_EMBEDDED_NOTIFY, 0, container, XEMBED_VERSION],
        },
    }
}

/// Mapping the icon, if it wants to be, and its container, and telling the icon.
pub open spec fn announce_requests(atoms: Atoms, icon: u32, state: Icon) -> Seq<Request> {
    let rest = seq![
        Request::MapWindow { window: state.container },
        embedded_notify(atoms, icon, state.container),
        Request::Flush,
    ];
    if state.mapped {
        seq![Request::MapWindow { window: icon }] + rest
    } else {
        rest
    }
}

/// An embedding that sends one request.
pub open spec fn ask_one(request: Request, task: EmbedTaskView) -> EmbedStepView {
    EmbedStepView::Ask { forget: None, requests: seq![request], task }
}

/// An embedding whose first graphic is being fetched.
pub open spec fn with_image(desk: Desktop, icon: u32, state: Icon, step: ImageStepView) ->
    EmbedStepView {
    match step {
        ImageStepView::Ask { forget, request, task } => EmbedStepView::Ask {
            forget,
            requests: seq![request],
            task: EmbedTaskView::Image { icon, state, task },
        },
        ImageStepView::Got { forget, image } => EmbedStepView::Ask {
            forget,
            requests: seq![props::class_request(desk.atoms, icon)],
            task: EmbedTaskView::Class { icon, state, image },
        },
    }
}

/// An embedding whose title is being searched for.
pub open spec fn with_title(
    icon: u32,
    state: Icon,
    image: Option<ImageView>,
    app_id: Seq<char>,
    step: TitleStepView,
) -> EmbedStepView {
    match step {
        TitleStepView::Ask(request, task) => ask_one(
            request,
            EmbedTaskView::Title { icon, state, image, app_id, task },
        ),
        TitleStepView::Found(title) => EmbedStepView::Embedded {
            state,
            meta: MetaView { id: icon, app_id, title },
            image,
        },
    }
}

/// How the embedding of an icon starts.
pub open spec fn embed_start(icon: u32) -> EmbedStepView {
    ask_one(Request::GetGeometry { window: icon }, EmbedTaskView::Geometry { icon })
}

/// How it goes on after a reply. Up to the announcement a request that fails
/// ends it; from then on the icon is embedded, whatever is known of it.
pub open spec fn embed_step(desk: Desktop, task: EmbedTaskView, reply: Reply) -> EmbedStepView {
    match task {
        EmbedTaskView::Geometry { icon } => match reply {
            Reply::Geometry { width, height } => ask_one(
                Request::GetWindowAttributes { window: icon },
                EmbedTaskView::Attributes {
                    icon,
                    width: at_least_one(width),
                    height: at_least_one(height),
                },
            ),
            _ => EmbedStepView::Failed,
        },
        EmbedTaskView::Attributes { icon, width, height } => match reply {
            Reply::Visual(id) => ask_one(
                watch_request(icon),
                EmbedTaskView::Watch {
                    draft: Draft {
                        icon,
                        width,
                        height,
                        format: visual::visual_format(desk.setup, id),
                    },
                },
            ),
            _ => EmbedStepView::Failed,
        },
        EmbedTaskView::Watch { draft } => match reply {
            Reply::Done => ask_one(Request::GenerateId, EmbedTaskView::ContainerId { draft }),
            _ => EmbedStepView::Failed,
        },
        EmbedTaskView::ContainerId { draft } => match reply {
            Reply::Id(container) => EmbedStepView::Ask {
                forget: None,
                requests: container_requests(desk, draft, container),
                task: EmbedTaskView::Container { draft, container },
            },
            _ => EmbedStepView::Failed,
        },
        EmbedTaskView::Container { draft, container } => match reply {
            Reply::Done => ask_one(
                Request::GenerateId,
                EmbedTaskView::DamageId { draft, container },
            ),
            _ => EmbedStepView::Failed,
        },
        EmbedTaskView::DamageId { draft, container } => match reply {
            Reply::Id(damage) => ask_one(
                Request::CreateDamage { damage, drawable: draft.icon },
                EmbedTaskView::Damage { draft, container, damage },
            ),
            _ => EmbedStepView::Failed,
        },
        EmbedTaskView::Damage { draft, container, damage } => match reply {
            Reply::Done => ask_one(
                props::xembed_info_request(desk.atoms, draft.icon),
                EmbedTaskView::Info { draft, container, damage },
            ),
            _ => EmbedStepView::Failed,
        },
        EmbedTaskView::Info { draft, container, damage } => {
            let state = Icon {
                container,
                damage,
                width: draft.width,
                height: draft.height,
                format: draft.format,
                mapped: props::wants_mapped(reply),
            };
            EmbedStepView::Ask {
                forget: None,
                requests: announce_requests(desk.atoms, draft.icon, state),
                task: EmbedTaskView::Announce { icon: draft.icon, state },
            }
        },
        EmbedTaskView::Announce { icon, state } => match reply {
            Reply::Done => with_image(
                desk,
                icon,
                state,
                capture::image_start(desk.atoms, icon, state),
            ),
            _ => EmbedStepView::Failed,
        },
        EmbedTaskView::Image { icon, state, task } => with_image(
            desk,
            icon,
            state,
            capture::image_step(desk.atoms, task, reply),
        ),
        EmbedTaskView::Class { icon, state, image } => with_title(
            icon,
            state,
            image,
            props::app_id_in(icon, reply),
            title::title_start(desk, icon),
        ),
        EmbedTaskView::Title { icon, state, image, app_id, task } => with_title(
            icon,
            state,
            image,
            app_id,
            title::title_step(desk, task, reply),
        ),
    }
}

/// Sends one request on behalf of an embedding.
fn send_one(request: Request, task: EmbedTask) -> (step: EmbedStep)
    ensures
        step@ == ask_one(request, task@),
{
    let requests: Vec<Request> = vec![request];
    assert(requests@ =~= seq![request]);
    EmbedStep::Ask { forget: None, requests, task }
}

/// Goes on with the fetching of the first graphic, or beyond it.
fn continue_image(desk: &Desktop, icon: u32, state: Icon, step: ImageStep) -> (next: EmbedStep)
    ensures
        next@ == with_image(*desk, icon, state, step@),
{
    match step {
        ImageStep::Ask { forget, request, task } => {
            let requests: Vec<Request> = vec![request];
            assert(requests@ =~= seq![request]);
            EmbedStep::Ask { forget, requests, task: EmbedTask::Image { icon, state, task } }
        },
        ImageStep::Got { forget, image } => {
            let request = props::ask_class(&desk.atoms, icon);
            let requests: Vec<Request> = vec![request];
            assert(requests@ =~= seq![request]);
            EmbedStep::Ask { forget, requests, task: EmbedTask::Class { icon, state, image } }
        },
    }
}

/// Goes on with the search for the title, or ends the embedding.
fn continue_title(
    icon: u32,
    state: Icon,
    image: Option<IconImage>,
    app_id: String,
    step: TitleStep,
) -> (next: EmbedStep)
    ensures
        next@ == with_title(icon, state, crate::icon::image_view(image), app_id@, step@),
{
    match step {
        TitleStep::Ask(request, task) => send_one(
            request,
            EmbedTask::Title { icon, state, image, app_id, task },
        ),
        TitleStep::Found(title) => EmbedStep::Embedded {
            state,
            meta: IconMeta { id: icon, app_id, title },
            image,
        },
    }
}

/// The requests that move an icon into a new container.
fn move_into_container(desk: &Desktop, draft: &Draft, container: u32) -> (requests: Vec<Request>)
    ensures
        requests@ == container_requests(*desk, *draft, container),
{
    let requests: Vec<Request> = vec![
        Request::CreateWindow(
            NewWindow {
                window: container,
                parent: desk.root,
                x: OFFSCREEN,
                y: OFFSCREEN,
                width: draft.width,
                height: draft.height,
                visual: desk.root_visual,
                override_redirect: true,
                event_mask: MASK_STRUCTURE_NOTIFY,
                checked: true,
            },
        ),
        Request::ReparentWindow { window: draft.icon, parent: container, x: 0, y: 0 },
        Request::RedirectWindow { window: draft.icon },
    ];
    assert(requests@ =~= container_requests(*desk, *draft, container));
    requests
}

/// The requests that map an icon and tell it that it is embedded.
fn announce(atoms: &Atoms, icon: u32, state: &Icon) -> (requests: Vec<Request>)
    ensures
        requests@ == announce_requests(*atoms, icon, *state),
{
    let mut requests: Vec<Request> = Vec::new();
    if state.mapped {
        requests.push(Request::MapWindow { window: icon });
    }
    requests.push(Request::MapWindow { window: state.container });
    requests.push(
        Request::SendMessage {
            destination: icon,
            event_mask: MASK_NONE,
            message: ClientMessage {
                window: icon,
                type_: atoms.xembed,
                data: [CURRENT_TIME, XEMBED_EMBEDDED_NOTIFY, 0, state.container, XEMBED_VERSION],
            },
        },
    );
    requests.push(Request::Flush);
    assert(requests@ =~= announce_requests(*atoms, icon, *state));
    requests
}

impl EmbedTask {
    /// Starts to embed an icon.
    pub fn start(icon: u32) -> (step: EmbedStep)
        ensures
            step@ == embed_start(icon),
    {
        send_one(Request::GetGeometry { window: icon }, EmbedTask::Geometry { icon })
    }

    /// Takes the server's reply to what the task waits for.
    pub fn resume(self, desk: &Desktop, reply: Reply) -> (step: EmbedStep)
        ensures
            step@ == embed_step(*desk, self@, reply),
            self@ is Class ==> (step@ matches EmbedStepView::Ask {
                task: EmbedTaskView::Title { app_id, .. },
                ..
            } && app_id.len() > 0),
    {
        match self {
            EmbedTask::Geometry { icon } => match reply {
                Reply::Geometry { width, height } => send_one(
                    Request::GetWindowAttributes { window: icon },
                    EmbedTask::Attributes {
                        icon,
                        width: if width < 1 {
                            1
                        } else {
                            width
                        },
                        height: if height < 1 {
                            1
                        } else {
                            height
                        },
                    },
                ),
                _ => EmbedStep::Failed,
            },
            EmbedTask::Attributes { icon, width, height } => match reply {
                Reply::Visual(id) => send_one(
                    Request::SelectInput {
                        window: icon,
                        event_mask: MASK_STRUCTURE_NOTIFY | MASK_PROPERTY_CHANGE,
                    },
                    EmbedTask::Watch {
                        draft: Draft {
                            icon,
                            width,
                            height,
                            format: PixelFormat::for_visual(&desk.setup, id),
                        },
                    },
                ),
                _ => EmbedStep::Failed,
            },
            EmbedTask::Watch { draft } => match reply {
                Reply::Done => send_one(Request::GenerateId, EmbedTask::ContainerId { draft }),
                _ => EmbedStep::Failed,
            },
            EmbedTask::ContainerId { draft } => match reply {
                Reply::Id(container) => EmbedStep::Ask {
                    forget: None,
                    requests: move_into_container(desk, &draft, container),
                    task: EmbedTask::Container { draft, container },
                },
                _ => EmbedStep::Failed,
            },
            EmbedTask::Container { draft, container } => match reply {
                Reply::Done => send_one(
                    Request::GenerateId,
                    EmbedTask::DamageId { draft, container },
                ),
                _ => EmbedStep::Failed,
            },
            EmbedTask::DamageId { draft, container } => match reply {
                Reply::Id(damage) => send_one(
                    Request::CreateDamage { damage, drawable: draft.icon },
                    EmbedTask::Damage { draft, container, damage },
                ),
                _ => EmbedStep::Failed,
            },
            EmbedTask::Damage { draft, container, damage } => match reply {
                Reply::Done => send_one(
                    props::ask_xembed_info(&desk.atoms, draft.icon),
                    EmbedTask::Info { draft, container, damage },
                ),
                _ => EmbedStep::Failed,
            },
            EmbedTask::Info { draft, container, damage } => {
                let state = Icon {
                    container,
                    damage,
                    width: draft.width,
                    height: draft.height,
                    format: draft.format,
                    mapped: props::want_mapped(&reply),
                };
                EmbedStep::Ask {
                    forget: None,
                    requests: announce(&desk.atoms, draft.icon, &state),
                    task: EmbedTask::Announce { icon: draft.icon, state },
                }
            },
            EmbedTask::Announce { icon, state } => match reply {
                Reply::Done => {
                    let step = ImageTask::start(desk, icon, &state);
                    continue_image(desk, icon, state, step)
                },
                _ => EmbedStep::Failed,
            },
            EmbedTask::Image { icon, state, task } => {
                let step = task.resume(desk, reply);
                continue_image(desk, icon, state, step)
            },
            EmbedTask::Class { icon, state, image } => {
                let app_id = props::read_app_id(icon, &reply);
                let step = TitleTask::start(desk, icon);
                continue_title(icon, state, image, app_id, step)
            },
            EmbedTask::Title { icon, state, image, app_id, task } => {
                let step = task.resume(desk, reply);
                continue_title(icon, state, image, app_id, step)
            },
        }
    }
}

/// Where an embedding stands after a list of replies.
pub open spec fn follow(desk: Desktop, step: EmbedStepView, replies: Seq<Reply>) -> EmbedStepView
    decreases replies.len(),
{
    if replies.len() == 0 {
        step
    } else {
        match step {
            EmbedStepView::Ask { forget, requests, task } => follow(
                desk,
                embed_step(desk, task, replies.first()),
                replies.drop_first(),
            ),
            _ => step,
        }
    }
}

/// What the host keeps of an icon of which the server said this much.
pub open spec fn embedded_state(
    desk: Desktop,
    width: u16,
    height: u16,
    visual: u32,
    container: u32,
    damage: u32,
    info: Reply,
) -> Icon {
    Icon {
        container,
        damage,
        width: at_least_one(width),
        height: at_least_one(height),
        format: visual::visual_format(desk.setup, visual),
        mapped: props::wants_mapped(info),
    }
}

/// If the server goes along, the icon is put into the container, watched for
/// damage, mapped if it wants to be, and told; then its graphic is fetched.
pub proof fn law_embedding_sets_up(
    desk: Desktop,
    icon: u32,
    width: u16,
    height: u16,
    visual: u32,
    container: u32,
    damage: u32,
    info: Reply,
)
    ensures
        ({
            let state = embedded_state(desk, width, height, visual, container, damage, info);
            &&& follow(
                desk,
                embed_start(icon),
                seq![
                    Reply::Geometry { width, height },
                    Reply::Visual(visual),
                    Reply::Done,
                    Reply::Id(container),
                    Reply::Done,
                    Reply::Id(damage),
                    Reply::Done,
                    info,
                ],
            ) == (EmbedStepView::Ask {
                forget: None,
                requests: announce_requests(desk.atoms, icon, state),
                task: EmbedTaskView::Announce { icon, state },
            })
            &&& follow(
                desk,
                embed_start(icon),
                seq![
                    Reply::Geometry { width, height },
                    Reply::Visual(visual),
                    Reply::Done,
                    Reply::Id(container),
                    Reply::Done,
                    Reply::Id(damage),
                    Reply::Done,
                    info,
                    Reply::Done,
                ],
            ) == with_image(desk, icon, state, capture::image_start(desk.atoms, icon, state))
        }),
{
    let short = seq![
        Reply::Geometry { width, height },
        Reply::Visual(visual),
        Reply::Done,
        Reply::Id(container),
        Reply::Done,
        Reply::Id(damage),
        Reply::Done,
        info,
    ];
    let long = short.push(Reply::Done);
    assert(long =~= seq![
        Reply::Geometry { width, height },
        Reply::Visual(visual),
        Reply::Done,
        Reply::Id(container),
        Reply::Done,
        Reply::Id(damage),
        Reply::Done,
        info,
        Reply::Done,
    ]);
    reveal_with_fuel(follow, 10);
    assert(short.drop_first().first() == short[1]);
    assert(long.drop_first().first() == long[1]);
}

/// The icon that an embedding is about.
pub open spec fn task_icon(task: EmbedTaskView) -> u32 {
    match task {
        EmbedTaskView::Geometry { icon } => icon,
        EmbedTaskView::Attributes { icon, .. } => icon,
        EmbedTaskView::Watch { draft } => draft.icon,
        EmbedTaskView::ContainerId { draft } => draft.icon,
        EmbedTaskView::Container { draft, .. } => draft.icon,
        EmbedTaskView::DamageId { draft, .. } => draft.icon,
        EmbedTaskView::Damage { draft, .. } => draft.icon,
        EmbedTaskView::Info { draft, .. } => draft.icon,
        EmbedTaskView::Announce { icon, .. } => icon,
        EmbedTaskView::Image { icon, .. } => icon,
        EmbedTaskView::Class { icon, .. } => icon,
        EmbedTaskView::Title { icon, .. } => icon,
    }
}

/// Whether an icon has been told that it is embedded.
pub open spec fn announced(task: EmbedTaskView) -> bool {
    task is Image || task is Class || task is Title
}

/// A request that the server turns down ends an embedding before the icon is
/// told, save that of `_XEMBED_INFO`, which an icon may lack; none ends it
/// afterwards.
pub proof fn law_embedding_failures(desk: Desktop, task: EmbedTaskView, reply: Reply)
    ensures
        reply is Failed && !announced(task) && !(task is Info) ==> embed_step(
            desk,
            task,
            reply,
        ) is Failed,
        announced(task) || task is Info ==> !(embed_step(desk, task, reply) is Failed),
{
}

/// An embedding is about one icon from beginning to end.
pub proof fn law_embedding_keeps_icon(desk: Desktop, task: EmbedTaskView, reply: Reply)
    ensures
        match embed_step(desk, task, reply) {
            EmbedStepView::Ask { task: next, .. } => task_icon(next) == task_icon(task),
            EmbedStepView::Embedded { meta, .. } => meta.id == task_icon(task),
            EmbedStepView::Failed => true,
        },
{
}

/// Where an embedding stands after at most `questions` more questions. The server
/// answers the `n`th question as `answers` says; `asked` were asked before.
pub open spec fn complete(
    desk: Desktop,
    answers: spec_fn(nat, Request) -> Reply,
    step: EmbedStepView,
    asked: nat,
    questions: nat,
) -> EmbedStepView
    decreases questions,
{
    match step {
        EmbedStepView::Ask { forget, requests, task } => if questions == 0 {
            step
        } else {
            complete(
                desk,
                answers,
                embed_step(desk, task, answers(asked, requests.last())),
                asked + 1,
                (questions - 1) as nat,
            )
        },
        _ => step,
    }
}

/// Whether the server goes along with an embedding that starts after `asked`
/// questions: the icon has a size and a visual, ids can be had, and no request is
/// turned down.
pub open spec fn goes_along(
    desk: Desktop,
    answers: spec_fn(nat, Request) -> Reply,
    icon: u32,
    asked: nat,
    width: u16,
    height: u16,
    visual: u32,
    container: u32,
    damage: u32,
) -> bool {
    let info = answers(asked + 7, props::xembed_info_request(desk.atoms, icon));
    let state = embedded_state(desk, width, height, visual, container, damage, info);
    let draft = Draft { icon, width: state.width, height: state.height, format: state.format };
    &&& answers(asked, Request::GetGeometry { window: icon }) == Reply::Geometry { width, height }
    &&& answers(asked + 1, Request::GetWindowAttributes { window: icon }) == Reply::Visual(visual)
    &&& answers(asked + 2, watch_request(icon)) is Done
    &&& answers(asked + 3, Request::GenerateId) == Reply::Id(container)
    &&& answers(asked + 4, container_requests(desk, draft, container).last()) is Done
    &&& answers(asked + 5, Request::GenerateId) == Reply::Id(damage)
    &&& answers(asked + 6, Request::CreateDamage { damage, drawable: icon }) is Done
    &&& answers(asked + 8, announce_requests(desk.atoms, icon, state).last()) is Done
}

/// Where the server goes along, the icon is embedded, in the state that the
/// server's answers make up and with its description.
#[verifier::rlimit(60)]
pub proof fn law_embedding_succeeds(
    desk: Desktop,
    answers: spec_fn(nat, Request) -> Reply,
    icon: u32,
    asked: nat,
    width: u16,
    height: u16,
    visual: u32,
    container: u32,
    damage: u32,
    questions: nat,
)
    requires
        goes_along(desk, answers, icon, asked, width, height, visual, container, damage),
        questions >= 9 + description_questions(
            desk,
            answers,
            icon,
            embedded_state(
                desk,
                width,
                height,
                visual,
                container,
                damage,
                answers(asked + 7, props::xembed_info_request(desk.atoms, icon)),
            ),
            asked + 9,
        ),
    ensures
        ({
            let info = answers(asked + 7, props::xembed_info_request(desk.atoms, icon));
            let state = embedded_state(desk, width, height, visual, container, damage, info);
            let (meta, image) = described(desk, answers, icon, state, asked + 9);
            complete(desk, answers, embed_start(icon), asked, questions) == (
            EmbedStepView::Embedded { state, meta, image })
        }),
{
    let info = answers(asked + 7, props::xembed_info_request(desk.atoms, icon));
    let state = embedded_state(desk, width, height, visual, container, damage, info);
    let draft = Draft { icon, width: state.width, height: state.height, format: state.format };
    law_embedding_describes(desk, answers, icon, state, asked + 9, (questions - 9) as nat);
    let first = embed_start(icon);
    let sized = ask_one(
        Request::GetWindowAttributes { window: icon },
        EmbedTaskView::Attributes { icon, width: state.width, height: state.height },
    );
    let watched = ask_one(watch_request(icon), EmbedTaskView::Watch { draft });
    let named = ask_one(Request::GenerateId, EmbedTaskView::ContainerId { draft });
    let contained = EmbedStepView::Ask {
        forget: None,
        requests: container_requests(desk, draft, container),
        task: EmbedTaskView::Container { draft, container },
    };
    let marked = ask_one(Request::GenerateId, EmbedTaskView::DamageId { draft, container });
    let damaged = ask_one(
        Request::CreateDamage { damage, drawable: icon },
        EmbedTaskView::Damage { draft, container, damage },
    );
    let informed = ask_one(
        props::xembed_info_request(desk.atoms, icon),
        EmbedTaskView::Info { draft, container, damage },
    );
    let announced = EmbedStepView::Ask {
        forget: None,
        requests: announce_requests(desk.atoms, icon, state),
        task: EmbedTaskView::Announce { icon, state },
    };
    let told = with_image(desk, icon, state, capture::image_start(desk.atoms, icon, state));
    lemma_answer(desk, answers, first, sized, asked, questions);
    lemma_answer(desk, answers, sized, watched, asked + 1, (questions - 1) as nat);
    lemma_answer(desk, answers, watched, named, asked + 2, (questions - 2) as nat);
    lemma_answer(desk, answers, named, contained, asked + 3, (questions - 3) as nat);
    lemma_answer(desk, answers, contained, marked, asked + 4, (questions - 4) as nat);
    lemma_answer(desk, answers, marked, damaged, asked + 5, (questions - 5) as nat);
    lemma_answer(desk, answers, damaged, informed, asked + 6, (questions - 6) as nat);
    lemma_answer(desk, answers, informed, announced, asked + 7, (questions - 7) as nat);
    lemma_answer(desk, answers, announced, told, asked + 8, (questions - 8) as nat);
}

/// An answer takes an embedding one step on.
proof fn lemma_answer(
    desk: Desktop,
    answers: spec_fn(nat, Request) -> Reply,
    step: EmbedStepView,
    next: EmbedStepView,
    asked: nat,
    questions: nat,
)
    requires
        questions > 0,
        step matches EmbedStepView::Ask { requests, task, .. } && embed_step(
            desk,
            task,
            answers(asked, requests.last()),
        ) == next,
    ensures
        complete(desk, answers, step, asked, questions) == complete(
            desk,
            answers,
            next,
            asked + 1,
            (questions - 1) as nat,
        ),
{
}

/// How an icon is described that was told that it is embedded, when `asked`
/// questions had been asked: its graphic, captured if that is possible, the
/// application id that its `WM_CLASS` gives, and a human title.
pub open spec fn described(
    desk: Desktop,
    answers: spec_fn(nat, Request) -> Reply,
    icon: u32,
    state: Icon,
    asked: nat,
) -> (MetaView, Option<ImageView>) {
    let (image, now) = capture::graphic_of(desk.atoms, answers, icon, state, asked);
    (
        MetaView {
            id: icon,
            app_id: props::app_id_in(icon, answers(now, props::class_request(desk.atoms, icon))),
            title: title::human_title(desk, answers, icon, now + 1),
        },
        image,
    )
}

/// The most questions that it takes to describe such an icon.
pub open spec fn description_questions(
    desk: Desktop,
    answers: spec_fn(nat, Request) -> Reply,
    icon: u32,
    state: Icon,
    asked: nat,
) -> nat {
    let now = capture::graphic_of(desk.atoms, answers, icon, state, asked).1;
    8 + 3 * title::top_level(desk, answers, now + 1).len()
}

/// An icon that was told is added with its description.
pub proof fn law_embedding_describes(
    desk: Desktop,
    answers: spec_fn(nat, Request) -> Reply,
    icon: u32,
    state: Icon,
    asked: nat,
    questions: nat,
)
    requires
        questions >= description_questions(desk, answers, icon, state, asked),
    ensures
        ({
            let (meta, image) = described(desk, answers, icon, state, asked);
            complete(
                desk,
                answers,
                with_image(desk, icon, state, capture::image_start(desk.atoms, icon, state)),
                asked,
                questions,
            ) == (EmbedStepView::Embedded { state, meta, image })
        }),
{
    capture::law_capture_first(desk.atoms, answers, icon, state, asked, 4);
    let (image, now) = capture::graphic_of(desk.atoms, answers, icon, state, asked);
    let start = capture::image_start(desk.atoms, icon, state);
    let forget = lemma_image_phase(
        desk,
        answers,
        icon,
        state,
        start,
        image,
        asked,
        now,
        4,
        questions,
    );
    let left = (questions - (now - asked)) as nat;
    let class = props::class_request(desk.atoms, icon);
    let app_id = props::app_id_in(icon, answers(now, class));
    let searched = (left - 1) as nat;
    title::law_title_search(desk, answers, icon, now + 1, searched);
    lemma_title_phase(
        desk,
        answers,
        icon,
        state,
        image,
        app_id,
        title::title_start(desk, icon),
        title::human_title(desk, answers, icon, now + 1),
        now + 1,
        searched,
    );
    let middle = with_image(desk, icon, state, ImageStepView::Got { forget, image });
    assert(complete(desk, answers, middle, now, left) == complete(
        desk,
        answers,
        with_title(icon, state, image, app_id, title::title_start(desk, icon)),
        now + 1,
        searched,
    ));
}

/// The first phase ends with the graphic that is pursued.
proof fn lemma_image_phase(
    desk: Desktop,
    answers: spec_fn(nat, Request) -> Reply,
    icon: u32,
    state: Icon,
    step: ImageStepView,
    image: Option<ImageView>,
    asked: nat,
    now: nat,
    needed: nat,
    questions: nat,
) -> (forget: Option<Request>)
    requires
        capture::pursue(desk.atoms, answers, step, asked, needed) == Some((image, now)),
        questions >= needed,
    ensures
        asked <= now <= asked + needed,
        complete(desk, answers, with_image(desk, icon, state, step), asked, questions)
            == complete(
            desk,
            answers,
            with_image(desk, icon, state, ImageStepView::Got { forget, image }),
            now,
            (questions - (now - asked)) as nat,
        ),
    decreases needed,
{
    match step {
        ImageStepView::Got { forget, image } => forget,
        ImageStepView::Ask { forget, request, task } => {
            let next = capture::image_step(desk.atoms, task, answers(asked, request));
            lemma_image_phase(
                desk,
                answers,
                icon,
                state,
                next,
                image,
                asked + 1,
                now,
                (needed - 1) as nat,
                (questions - 1) as nat,
            )
        },
    }
}

/// The last phase ends with the title that is searched for.
proof fn lemma_title_phase(
    desk: Desktop,
    answers: spec_fn(nat, Request) -> Reply,
    icon: u32,
    state: Icon,
    image: Option<ImageView>,
    app_id: Seq<char>,
    step: TitleStepView,
    found: Seq<char>,
    asked: nat,
    questions: nat,
)
    requires
        title::search(desk, answers, step, asked, questions) == Some(found),
    ensures
        complete(desk, answers, with_title(icon, state, image, app_id, step), asked, questions)
            == (EmbedStepView::Embedded {
            state,
            meta: MetaView { id: icon, app_id, title: found },
            image,
        }),
    decreases questions,
{
    match step {
        TitleStepView::Found(title) => {},
        TitleStepView::Ask(request, task) => {
            lemma_title_phase(
                desk,
                answers,
                icon,
                state,
                image,
                app_id,
                title::title_step(desk, task, answers(asked, request)),
                found,
                asked + 1,
                (questions - 1) as nat,
            );
        },
    }
}

/// What is sent to embed an icon, reply by reply: its size and visual are asked for, its
/// structure and properties are watched, and a container of its size, at least one by
/// one and far off the screen, takes it in. It is redirected and watched for damage,
/// mapped if it wants to be, and told of its container.
pub proof fn law_what_embedding_sends(
    desk: Desktop,
    icon: u32,
    width: u16,
    height: u16,
    format: Option<PixelFormat>,
    visual: u32,
    container: u32,
    damage: u32,
    info: Reply,
)
    requires
        width > 0,
        height > 0,
    ensures
        ({
            let draft = Draft { icon, width, height, format };
            let state = Icon {
                container,
                damage,
                width,
                height,
                format,
                mapped: props::wants_mapped(info),
            };
            &&& asks(
                embed_start(icon),
                seq![Request::GetGeometry { window: icon }],
                EmbedTaskView::Geometry { icon },
            )
            &&& asks(
                embed_step(
                    desk,
                    EmbedTaskView::Geometry { icon },
                    Reply::Geometry { width, height },
                ),
                seq![Request::GetWindowAttributes { window: icon }],
                EmbedTaskView::Attributes { icon, width, height },
            )
            &&& asks(
                embed_step(
                    desk,
                    EmbedTaskView::Attributes { icon, width, height },
                    Reply::Visual(visual),
                ),
                seq![Request::SelectInput { window: icon, event_mask: 0x42_0000 }],
                EmbedTaskView::Watch {
                    draft: Draft {
                        icon,
                        width,
                        height,
                        format: visual::visual_format(desk.setup, visual),
                    },
                },
            )
            &&& asks(
                embed_step(desk, EmbedTaskView::Watch { draft }, Reply::Done),
                seq![Request::GenerateId],
                EmbedTaskView::ContainerId { draft },
            )
            &&& asks(
                embed_step(desk, EmbedTaskView::ContainerId { draft }, Reply::Id(container)),
                seq![
                    Request::CreateWindow(
                        NewWindow {
                            window: container,
                            parent: desk.root,
                            x: (-16000) as i16,
                            y: (-16000) as i16,
                            width,
                            height,
                            visual: desk.root_visual,
                            override_redirect: true,
                            event_mask: 0x2_0000,
                            checked: true,
                        },
                    ),
                    Request::ReparentWindow { window: icon, parent: container, x: 0, y: 0 },
                    Request::RedirectWindow { window: icon },
                ],
                EmbedTaskView::Container { draft, container },
            )
            &&& asks(
                embed_step(desk, EmbedTaskView::Container { draft, container }, Reply::Done),
                seq![Request::GenerateId],
                EmbedTaskView::DamageId { draft, container },
            )
            &&& asks(
                embed_step(
                    desk,
                    EmbedTaskView::DamageId { draft, container },
                    Reply::Id(damage),
                ),
                seq![Request::CreateDamage { damage, drawable: icon }],
                EmbedTaskView::Damage { draft, container, damage },
            )
            &&& asks(
                embed_step(desk, EmbedTaskView::Damage { draft, container, damage }, Reply::Done),
                seq![
                    Request::GetProperty {
                        window: icon,
                        property: desk.atoms.xembed_info,
                        type_: 0,
                        length: 2,
                    },
                ],
                EmbedTaskView::Info { draft, container, damage },
            )
            &&& asks(
                embed_step(desk, EmbedTaskView::Info { draft, container, damage }, info),
                (if state.mapped {
                    seq![Request::MapWindow { window: icon }]
                } else {
                    Seq::empty()
                }) + seq![
                    Request::MapWindow { window: container },
                    Request::SendMessage {
                        destination: icon,
                        event_mask: 0,
                        message: ClientMessage {
                            window: icon,
                            type_: desk.atoms.xembed,
                            data: [0, 0, 0, container, 0],
                        },
                    },
                    Request::Flush,
                ],
                EmbedTaskView::Announce { icon, state },
            )
        }),
{
    assert(MASK_STRUCTURE_NOTIFY | MASK_PROPERTY_CHANGE == 0x42_0000) by {
        assert(0x2_0000u32 | 0x40_0000u32 == 0x42_0000u32) by (bit_vector);
    }
    let draft = Draft { icon, width, height, format };
    let step = embed_step(desk, EmbedTaskView::Info { draft, container, damage }, info);
    let state = Icon {
        container,
        damage,
        width,
        height,
        format,
        mapped: props::wants_mapped(info),
    };
    assert(step->Ask_requests =~= (if state.mapped {
        seq![Request::MapWindow { window: icon }]
    } else {
        Seq::empty()
    }) + seq![
        Request::MapWindow { window: container },
        Request::SendMessage {
            destination: icon,
            event_mask: 0,
            message: ClientMessage {
                window: icon,
                type_: desk.atoms.xembed,
                data: [0, 0, 0, container, 0],
            },
        },
        Request::Flush,
    ]);
}

/// Whether a step asks these requests, with nothing to forget, and then waits as the
/// task.
pub open spec fn asks(step: EmbedStepView, requests: Seq<Request>, task: EmbedTaskView) -> bool {
    step matches EmbedStepView::Ask { forget, requests: asked, task: waiting } && forget is None
        && asked == requests && waiting == task
}

/// A side of no length at all counts as one.
pub proof fn law_no_side_is_empty(desk: Desktop, icon: u32, width: u16, height: u16)
    ensures
        embed_step(desk, EmbedTaskView::Geometry { icon }, Reply::Geometry { width, height })
            matches EmbedStepView::Ask {
            task: EmbedTaskView::Attributes { icon: same, width: w, height: h },
            ..
        } && {
            &&& same == icon
            &&& w == if width == 0 {
                1
            } else {
                width
            }
            &&& h == if height == 0 {
                1
            } else {
                height
            }
        },
{
}

/// An icon is kept as the server described it, and reported by its window, with its
/// graphic, the application id of its class, and its title, each asked for in this
/// order once it is embedded.
pub proof fn law_embedded_as_described(
    desk: Desktop,
    answers: spec_fn(nat, Request) -> Reply,
    icon: u32,
    asked: nat,
    width: u16,
    height: u16,
    visual: u32,
    container: u32,
    damage: u32,
    info: Reply,
)
    ensures
        ({
            let state = embedded_state(desk, width, height, visual, container, damage, info);
            let (image, now) = capture::graphic_of(desk.atoms, answers, icon, state, asked);
            let class = answers(
                now,
                Request::GetProperty {
                    window: icon,
                    property: desk.atoms.wm_class,
                    type_: desk.atoms.string,
                    length: 256,
                },
            );
            let (meta, shown) = described(desk, answers, icon, state, asked);
            &&& state.container == container
            &&& state.damage == damage
            &&& state.format == visual::visual_format(desk.setup, visual)
            &&& state.mapped == props::wants_mapped(info)
            &&& width > 0 ==> state.width == width
            &&& height > 0 ==> state.height == height
            &&& state.width > 0 && state.height > 0
            &&& shown == image
            &&& meta.id == icon
            &&& meta.app_id == props::app_id_in(icon, class)
            &&& meta.title == title::human_title(desk, answers, icon, now + 1)
        }),
{
}

/// While the graphic of an embedded icon is got, what getting it asks is asked, and what
/// it forgets is forgotten; then the class is asked for, and then what the search for
/// the title asks.
pub proof fn law_description_is_followed(
    desk: Desktop,
    icon: u32,
    state: Icon,
    task: ImageTask,
    image: Option<ImageView>,
    app_id: Seq<char>,
    search: TitleTaskView,
    reply: Reply,
)
    ensures
        match capture::image_step(desk.atoms, task, reply) {
            ImageStepView::Ask { forget, request, task: next } => embed_step(
                desk,
                EmbedTaskView::Image { icon, state, task },
                reply,
            ) == (EmbedStepView::Ask {
                forget,
                requests: seq![request],
                task: EmbedTaskView::Image { icon, state, task: next },
            }),
            ImageStepView::Got { forget, image: got } => embed_step(
                desk,
                EmbedTaskView::Image { icon, state, task },
                reply,
            ) == (EmbedStepView::Ask {
                forget,
                requests: seq![
                    Request::GetProperty {
                        window: icon,
                        property: desk.atoms.wm_class,
                        type_: desk.atoms.string,
                        length: 256,
                    },
                ],
                task: EmbedTaskView::Class { icon, state, image: got },
            }),
        },
        embed_step(desk, EmbedTaskView::Class { icon, state, image }, reply) matches
            EmbedStepView::Ask {
            forget: None,
            requests,
            task: EmbedTaskView::Title { icon: same, state: kept, image: shown, app_id: id, .. },
        } && requests == seq![
            Request::GetProperty {
                window: icon,
                property: desk.atoms.net_wm_name,
                type_: desk.atoms.utf8_string,
                length: 1024,
            },
        ] && same == icon && kept == state && shown == image && id == props::app_id_in(icon, reply),
        match title::title_step(desk, search, reply) {
            TitleStepView::Ask(request, next) => embed_step(
                desk,
                EmbedTaskView::Title { icon, state, image, app_id, task: search },
                reply,
            ) == (EmbedStepView::Ask {
                forget: None,
                requests: seq![request],
                task: EmbedTaskView::Title { icon, state, image, app_id, task: next },
            }),
            TitleStepView::Found(title) => embed_step(
                desk,
                EmbedTaskView::Title { icon, state, image, app_id, task: search },
                reply,
            ) == (EmbedStepView::Embedded {
                state,
                meta: MetaView { id: icon, app_id, title },
                image,
            }),
        },
{
}

} // verus!
