//! The tray host: which icons it holds, and how it reacts to its server.
//!
//! [`TrayHost::on_event`] takes an event that the server reports, and
//! [`TrayHost::resume`] the reply to what the host asked. Each gives a [`Turn`]:
//! what to send, what to tell the outside, and what to wait for next.

use crate::capture::{Icon, ImageStep, ImageStepView, ImageTask};
use crate::capture;
use crate::control::TrayControl;
use crate::embed::{EmbedStep, EmbedStepView, EmbedTask, EmbedTaskView};
use crate::embed;
use crate::icon::{IconEvent, IconEventView};
use crate::props;
use crate::request::{
    ClientMessage, Desktop, Reply, Request, ServerEvent, MASK_NONE, NONE,
};
use crate::title::{TitleStep, TitleStepView, TitleTask, TitleTaskView};
use crate::title;
use crate::visual::Setup;
use std::collections::HashMap;
use vstd::prelude::*;

verus! {

broadcast use vstd::std_specs::hash::group_hash_axioms;

/// `_NET_SYSTEM_TRAY_OPCODE` values.
pub const SYSTEM_TRAY_REQUEST_DOCK: u32 = 0;

pub const SYSTEM_TRAY_BEGIN_MESSAGE: u32 = 1;

pub const SYSTEM_TRAY_CANCEL_MESSAGE: u32 = 2;

/// The icons that a host holds, and whose each damage object is.
pub struct IconTable {
    icons: HashMap<u32, Icon>,
    damage_to_icon: HashMap<u32, u32>,
}

/// The model of an [`IconTable`].
#[verifier::ext_equal]
pub struct TableView {
    pub icons: Map<u32, Icon>,
    pub damages: Map<u32, u32>,
}

impl View for IconTable {
    type V = TableView;

    closed spec fn view(&self) -> TableView {
        TableView { icons: self.icons@, damages: self.damage_to_icon@ }
    }
}

impl TableView {
    /// No icons at all.
    pub open spec fn none() -> TableView {
        TableView { icons: Map::empty(), damages: Map::empty() }
    }

    /// Every damage object that is listed is that of an icon that is held.
    pub open spec fn well_formed(self) -> bool {
        forall|damage: u32| #[trigger]
            self.damages.contains_key(damage) ==> self.icons.contains_key(self.damages[damage])
                && self.icons[self.damages[damage]].damage == damage
    }

    /// Every icon that is held has its damage object listed.
    pub open spec fn complete(self) -> bool {
        forall|icon: u32| #[trigger]
            self.icons.contains_key(icon) ==> self.damages.contains_key(self.icons[icon].damage)
                && self.damages[self.icons[icon].damage] == icon
    }

    /// The table with one icon more.
    pub open spec fn add_icon(self, icon: u32, state: Icon) -> TableView {
        TableView {
            icons: self.icons.insert(icon, state),
            damages: self.damages.insert(state.damage, icon),
        }
    }

    /// The table without an icon that it holds.
    pub open spec fn remove_icon(self, icon: u32) -> TableView {
        TableView {
            icons: self.icons.remove(icon),
            damages: self.damages.remove(self.icons[icon].damage),
        }
    }

    /// The table with another state of an icon that it holds.
    pub open spec fn change_icon(self, icon: u32, state: Icon) -> TableView {
        TableView { icons: self.icons.insert(icon, state), damages: self.damages }
    }
}

/// Something the host waits for a reply to.
#[derive(Debug)]
pub enum Pending {
    /// An icon is being embedded.
    Embed(EmbedTask),
    /// A damaged icon's size was asked for.
    Measure { icon: u32 },
    /// An icon's graphic is being fetched.
    Refresh { icon: u32, task: ImageTask },
    /// An icon's `_XEMBED_INFO` was asked for.
    Visibility { icon: u32 },
    /// An icon's title is being searched for.
    Title { icon: u32, task: TitleTask },
}

/// The model of a [`Pending`].
#[verifier::ext_equal]
pub enum PendingView {
    Embed(EmbedTaskView),
    Measure { icon: u32 },
    Refresh { icon: u32, task: ImageTask },
    Visibility { icon: u32 },
    Title { icon: u32, task: TitleTaskView },
}

impl View for Pending {
    type V = PendingView;

    open spec fn view(&self) -> PendingView {
        match *self {
            Pending::Embed(task) => PendingView::Embed(task@),
            Pending::Measure { icon } => PendingView::Measure { icon },
            Pending::Refresh { icon, task } => PendingView::Refresh { icon, task },
            Pending::Visibility { icon } => PendingView::Visibility { icon },
            Pending::Title { icon, task } => PendingView::Title { icon, task: task@ },
        }
    }
}

/// What comes after a turn.
#[derive(Debug)]
pub enum Next {
    /// Wait for the next event.
    Wait,
    /// Send the requests in order up to the first that fails, and resume with
    /// the reply.
    Ask { requests: Vec<Request>, pending: Pending },
    /// The host is done.
    Stop,
}

/// The model of a [`Next`].
#[verifier::ext_equal]
pub enum NextView {
    Wait,
    Ask { requests: Seq<Request>, pending: PendingView },
    Stop,
}

impl View for Next {
    type V = NextView;

    open spec fn view(&self) -> NextView {
        match *self {
            Next::Wait => NextView::Wait,
            Next::Ask { requests, pending } => NextView::Ask {
                requests: requests@,
                pending: pending@,
            },
            Next::Stop => NextView::Stop,
        }
    }
}

/// What a host does in reaction to its server: it sends `forget` without regard
/// to what becomes of it, then reports `emit`, then goes on with `next`.
#[derive(Debug)]
pub struct Turn {
    pub forget: Vec<Request>,
    pub emit: Option<IconEvent>,
    pub next: Next,
}

/// The model of a [`Turn`].
#[verifier::ext_equal]
pub struct TurnView {
    pub forget: Seq<Request>,
    pub emit: Option<IconEventView>,
    pub next: NextView,
}

impl View for Turn {
    type V = TurnView;

    open spec fn view(&self) -> TurnView {
        TurnView {
            forget: self.forget@,
            emit: match self.emit {
                Some(event) => Some(event@),
                None => None,
            },
            next: self.next@,
        }
    }
}

/// Doing nothing but wait for the next event.
pub open spec fn idle() -> TurnView {
    TurnView { forget: Seq::empty(), emit: None, next: NextView::Wait }
}

/// Reporting an event, and waiting for the next of the server.
pub open spec fn report(event: IconEventView) -> TurnView {
    TurnView { forget: Seq::empty(), emit: Some(event), next: NextView::Wait }
}

/// Asking the server.
pub open spec fn ask(
    forget: Option<Request>,
    requests: Seq<Request>,
    pending: PendingView,
) -> TurnView {
    TurnView {
        forget: match forget {
            Some(request) => seq![request],
            None => Seq::empty(),
        },
        emit: None,
        next: NextView::Ask { requests, pending },
    }
}

/// A turn of an embedding. An icon that is embedded is held from then on.
pub open spec fn embed_turn(table: TableView, step: EmbedStepView) -> (TableView, TurnView) {
    match step {
        EmbedStepView::Ask { forget, requests, task } => (
            table,
            ask(forget, requests, PendingView::Embed(task)),
        ),
        EmbedStepView::Embedded { state, meta, image } => (
            table.add_icon(meta.id, state),
            report(IconEventView::Added { meta, image }),
        ),
        EmbedStepView::Failed => (table, idle()),
    }
}

/// A turn of the fetching of an icon's graphic.
pub open spec fn refresh_turn(icon: u32, step: ImageStepView) -> TurnView {
    match step {
        ImageStepView::Ask { forget, request, task } => ask(
            forget,
            seq![request],
            PendingView::Refresh { icon, task },
        ),
        ImageStepView::Got { forget, image } => TurnView {
            forget: match forget {
                Some(request) => seq![request],
                None => Seq::empty(),
            },
            emit: match image {
                Some(image) => Some(IconEventView::Updated { id: icon, image }),
                None => None,
            },
            next: NextView::Wait,
        },
    }
}

/// A turn of the search for an icon's title.
pub open spec fn title_turn(icon: u32, step: TitleStepView) -> TurnView {
    match step {
        TitleStepView::Ask(request, task) => ask(
            None,
            seq![request],
            PendingView::Title { icon, task },
        ),
        TitleStepView::Found(title) => report(IconEventView::TitleChanged { id: icon, title }),
    }
}

/// Starting to fetch the graphic of an icon, if it is held.
pub open spec fn refresh_start(desk: Desktop, table: TableView, icon: u32) -> TurnView {
    if table.icons.contains_key(icon) {
        refresh_turn(icon, capture::image_start(desk.atoms, icon, table.icons[icon]))
    } else {
        idle()
    }
}

/// A request to dock a window. None at all and one that is already held are
/// ignored.
pub open spec fn react_to_dock(table: TableView, icon: u32) -> (TableView, TurnView) {
    if icon == NONE || table.icons.contains_key(icon) {
        (table, idle())
    } else {
        embed_turn(table, embed::embed_start(icon))
    }
}

/// Damage to an icon: it is acknowledged, so that more is reported, and the size
/// is looked up, in case it changed.
pub open spec fn react_to_damage(table: TableView, damage: u32) -> TurnView {
    if table.damages.contains_key(damage) && table.icons.contains_key(table.damages[damage]) {
        let icon = table.damages[damage];
        ask(
            Some(Request::SubtractDamage { damage: table.icons[icon].damage }),
            seq![Request::GetGeometry { window: icon }],
            PendingView::Measure { icon },
        )
    } else {
        idle()
    }
}

/// What remains of an icon that is let go of.
pub open spec fn release_requests(state: Icon) -> Seq<Request> {
    seq![
        Request::DestroyDamage { damage: state.damage },
        Request::DestroyWindow { window: state.container },
        Request::Flush,
    ]
}

/// Letting go of an icon that is held.
pub open spec fn react_to_loss(table: TableView, icon: u32) -> (TableView, TurnView) {
    (
        table.remove_icon(icon),
        TurnView {
            forget: release_requests(table.icons[icon]),
            emit: Some(IconEventView::Removed { id: icon }),
            next: NextView::Wait,
        },
    )
}

/// A changed property of an icon that is held.
pub open spec fn react_to_property(
    desk: Desktop,
    table: TableView,
    icon: u32,
    atom: u32,
) -> TurnView {
    if atom == desk.atoms.xembed_info {
        ask(
            None,
            seq![props::xembed_info_request(desk.atoms, icon)],
            PendingView::Visibility { icon },
        )
    } else if atom == desk.atoms.net_wm_icon {
        refresh_start(desk, table, icon)
    } else if atom == desk.atoms.net_wm_name || atom == desk.atoms.wm_name {
        title_turn(icon, title::title_start(desk, icon))
    } else {
        idle()
    }
}

/// How a host that owns `selection` reacts to an event.
pub open spec fn react(
    desk: Desktop,
    selection: u32,
    table: TableView,
    event: ServerEvent,
) -> (TableView, TurnView) {
    match event {
        ServerEvent::ClientMessage { type_, data } => if type_ == desk.atoms.xembsni_wakeup {
            (table, TurnView { next: NextView::Stop, ..idle() })
        } else if type_ == desk.atoms.net_system_tray_opcode && data[1]
            == SYSTEM_TRAY_REQUEST_DOCK {
            react_to_dock(table, data[2])
        } else {
            (table, idle())
        },
        ServerEvent::DamageNotify { damage } => (table, react_to_damage(table, damage)),
        ServerEvent::DestroyNotify { window } => if table.icons.contains_key(window) {
            react_to_loss(table, window)
        } else {
            (table, idle())
        },
        ServerEvent::ReparentNotify { window, parent } => if table.icons.contains_key(window)
            && table.icons[window].container != parent {
            react_to_loss(table, window)
        } else {
            (table, idle())
        },
        ServerEvent::PropertyNotify { window, atom } => if table.icons.contains_key(window) {
            (table, react_to_property(desk, table, window, atom))
        } else {
            (table, idle())
        },
        ServerEvent::SelectionClear { selection: lost } => if lost == selection {
            (
                table,
                TurnView {
                    forget: Seq::empty(),
                    emit: Some(IconEventView::SelectionLost),
                    next: NextView::Stop,
                },
            )
        } else {
            (table, idle())
        },
        ServerEvent::Other => (table, idle()),
    }
}

/// An icon's state after the server told its size, or failed to.
pub open spec fn measured(state: Icon, reply: Reply) -> Icon {
    match reply {
        Reply::Geometry { width, height } => Icon {
            width: embed::at_least_one(width),
            height: embed::at_least_one(height),
            ..state
        },
        _ => state,
    }
}

/// An icon's `_XEMBED_INFO` came: if it wants other than it has, it is mapped or
/// unmapped.
pub open spec fn react_to_info(table: TableView, icon: u32, reply: Reply) -> (
    TableView,
    TurnView,
) {
    let want = props::wants_mapped(reply);
    if !table.icons.contains_key(icon) || table.icons[icon].mapped == want {
        (table, idle())
    } else {
        (
            table.change_icon(icon, Icon { mapped: want, ..table.icons[icon] }),
            TurnView {
                forget: seq![
                    if want {
                        Request::MapWindow { window: icon }
                    } else {
                        Request::UnmapWindow { window: icon }
                    },
                    Request::Flush,
                ],
                emit: Some(IconEventView::VisibilityChanged { id: icon, visible: want }),
                next: NextView::Wait,
            },
        )
    }
}

/// How a host goes on after a reply to what it asked.
pub open spec fn go_on(desk: Desktop, table: TableView, pending: PendingView, reply: Reply) -> (
    TableView,
    TurnView,
) {
    match pending {
        PendingView::Embed(task) => embed_turn(table, embed::embed_step(desk, task, reply)),
        PendingView::Measure { icon } => if table.icons.contains_key(icon) {
            let now = table.change_icon(icon, measured(table.icons[icon], reply));
            (now, refresh_start(desk, now, icon))
        } else {
            (table, idle())
        },
        PendingView::Refresh { icon, task } => (
            table,
            refresh_turn(icon, capture::image_step(desk.atoms, task, reply)),
        ),
        PendingView::Visibility { icon } => react_to_info(table, icon, reply),
        PendingView::Title { icon, task } => (
            table,
            title_turn(icon, title::title_step(desk, task, reply)),
        ),
    }
}

/// Giving an icon back to the root window.
pub open spec fn rescue(root: u32, icon: u32, state: Icon) -> Seq<Request> {
    seq![
        Request::DestroyDamage { damage: state.damage },
        Request::ReparentWindow { window: icon, parent: root, x: 0, y: 0 },
        Request::DestroyWindow { window: state.container },
    ]
}

/// Giving several icons back, in the given order.
pub open spec fn rescue_all(root: u32, icons: Map<u32, Icon>, order: Seq<u32>) -> Seq<Request>
    decreases order.len(),
{
    if order.len() == 0 {
        Seq::empty()
    } else {
        rescue_all(root, icons, order.drop_last()) + rescue(
            root,
            order.last(),
            icons[order.last()],
        )
    }
}

impl IconTable {
    /// A table without icons.
    pub fn new() -> (table: IconTable)
        ensures
            table@ == TableView::none(),
    {
        IconTable { icons: HashMap::new(), damage_to_icon: HashMap::new() }
    }

    /// What is kept of an icon.
    pub fn get(&self, icon: u32) -> (state: Option<Icon>)
        ensures
            state == if self@.icons.contains_key(icon) {
                Some(self@.icons[icon])
            } else {
                None
            },
    {
        match self.icons.get(&icon) {
            Some(state) => Some(*state),
            None => None,
        }
    }

    /// The icon that a damage object belongs to.
    pub fn damaged(&self, damage: u32) -> (icon: Option<u32>)
        ensures
            icon == if self@.damages.contains_key(damage) {
                Some(self@.damages[damage])
            } else {
                None
            },
    {
        match self.damage_to_icon.get(&damage) {
            Some(icon) => Some(*icon),
            None => None,
        }
    }

    /// Holds another icon.
    fn add_icon(&mut self, icon: u32, state: Icon)
        ensures
            final(self)@ == old(self)@.add_icon(icon, state),
    {
        self.damage_to_icon.insert(state.damage, icon);
        self.icons.insert(icon, state);
    }

    /// Lets go of an icon.
    fn remove_icon(&mut self, icon: u32, state: Icon)
        requires
            old(self)@.icons.contains_key(icon),
            old(self)@.icons[icon] == state,
        ensures
            final(self)@ == old(self)@.remove_icon(icon),
    {
        self.icons.remove(&icon);
        self.damage_to_icon.remove(&state.damage);
    }

    /// Replaces what is kept of an icon.
    fn change_icon(&mut self, icon: u32, state: Icon)
        ensures
            final(self)@ == old(self)@.change_icon(icon, state),
    {
        self.icons.insert(icon, state);
    }
}

/// Owns the `_NET_SYSTEM_TRAY_S<screen>` selection and hosts docked icons.
pub struct TrayHost {
    desk: Desktop,
    owner: u32,
    selection_name: String,
    selection_atom: u32,
    table: IconTable,
}

impl TrayHost {
    /// The screen that the host lives on.
    pub closed spec fn desk(&self) -> Desktop {
        self.desk
    }

    /// The window that owns the selection.
    pub closed spec fn owner(&self) -> u32 {
        self.owner
    }

    /// The name of the selection.
    pub closed spec fn selection(&self) -> Seq<char> {
        self.selection_name@
    }

    /// The atom of the selection.
    pub closed spec fn selection_atom(&self) -> u32 {
        self.selection_atom
    }

    /// The icons that the host holds.
    pub closed spec fn table(&self) -> TableView {
        self.table@
    }

    /// Whether two states are of one host: all but the icons agrees.
    pub open spec fn same_host(&self, other: &TrayHost) -> bool {
        &&& self.desk() == other.desk()
        &&& self.owner() == other.owner()
        &&& self.selection() == other.selection()
        &&& self.selection_atom() == other.selection_atom()
    }

    /// A host that owns its selection and holds no icons yet.
    pub(crate) fn owning(
        desk: Desktop,
        owner: u32,
        selection_name: String,
        selection_atom: u32,
    ) -> (host: TrayHost)
        ensures
            host.desk() == desk,
            host.owner() == owner,
            host.selection() == selection_name@,
            host.selection_atom() == selection_atom,
            host.table() == TableView::none(),
            host.table().well_formed(),
            host.table().complete(),
    {
        TrayHost { desk, owner, selection_name, selection_atom, table: IconTable::new() }
    }

    /// The interned name of the selection that this host owns.
    pub fn selection_name(&self) -> (name: &str)
        ensures
            name@ == self.selection(),
    {
        self.selection_name.as_str()
    }

    /// What is kept of an icon, if the host holds it.
    pub fn icon(&self, icon: u32) -> (state: Option<Icon>)
        ensures
            state == if self.table().icons.contains_key(icon) {
                Some(self.table().icons[icon])
            } else {
                None
            },
    {
        self.table.get(icon)
    }

    /// A waker that interrupts the host.
    pub fn waker(&self) -> (waker: Waker)
        ensures
            waker == (Waker {
                target: self.owner(),
                wakeup_atom: self.desk().atoms.xembsni_wakeup,
            }),
    {
        Waker { target: self.owner, wakeup_atom: self.desk.atoms.xembsni_wakeup }
    }

    /// A handle for forwarding interactions to icons. It is for the default screen
    /// of the connection that the interactions go through.
    pub fn control(&self, setup: &Setup, screen: usize) -> (control: TrayControl)
        requires
            screen < setup.roots@.len(),
        ensures
            control == (TrayControl { root: setup.roots@[screen as int].root }),
    {
        TrayControl::connect(setup, screen)
    }

    /// Reacts to an event that the server reports.
    pub fn on_event(&mut self, event: ServerEvent) -> (turn: Turn)
        ensures
            final(self).same_host(old(self)),
            (final(self).table(), turn@) == react(
                old(self).desk(),
                old(self).selection_atom(),
                old(self).table(),
                event,
            ),
            old(self).table().well_formed() ==> final(self).table().well_formed(),
    {
        match event {
            ServerEvent::ClientMessage { type_, data } => {
                if type_ == self.desk.atoms.xembsni_wakeup {
                    Turn { forget: Vec::new(), emit: None, next: Next::Stop }
                } else if type_ == self.desk.atoms.net_system_tray_opcode {
                    match data[1] {
                        SYSTEM_TRAY_REQUEST_DOCK => self.on_dock(data[2]),
                        SYSTEM_TRAY_BEGIN_MESSAGE => do_nothing(),
                        SYSTEM_TRAY_CANCEL_MESSAGE => do_nothing(),
                        _ => do_nothing(),
                    }
                } else {
                    do_nothing()
                }
            },
            ServerEvent::DamageNotify { damage } => self.on_damage(damage),
            ServerEvent::DestroyNotify { window } => match self.table.get(window) {
                Some(state) => self.remove_icon(window, state),
                None => do_nothing(),
            },
            ServerEvent::ReparentNotify { window, parent } => match self.table.get(window) {
                // The client pulled its icon back out of the container: let go.
                Some(state) => if state.container != parent {
                    self.remove_icon(window, state)
                } else {
                    do_nothing()
                },
                None => do_nothing(),
            },
            ServerEvent::PropertyNotify { window, atom } => match self.table.get(window) {
                Some(state) => self.on_property(window, state, atom),
                None => do_nothing(),
            },
            ServerEvent::SelectionClear { selection } => {
                if selection == self.selection_atom {
                    Turn {
                        forget: Vec::new(),
                        emit: Some(IconEvent::SelectionLost),
                        next: Next::Stop,
                    }
                } else {
                    do_nothing()
                }
            },
            ServerEvent::Other => do_nothing(),
        }
    }

    /// Takes the reply to what the host asked.
    pub fn resume(&mut self, pending: Pending, reply: Reply) -> (turn: Turn)
        ensures
            final(self).same_host(old(self)),
            (final(self).table(), turn@) == go_on(
                old(self).desk(),
                old(self).table(),
                pending@,
                reply,
            ),
    {
        match pending {
            Pending::Embed(task) => {
                let step = task.resume(&self.desk, reply);
                self.continue_embed(step)
            },
            Pending::Measure { icon } => match self.table.get(icon) {
                Some(state) => {
                    let now = match reply {
                        Reply::Geometry { width, height } => Icon {
                            width: if width < 1 {
                                1
                            } else {
                                width
                            },
                            height: if height < 1 {
                                1
                            } else {
                                height
                            },
                            ..state
                        },
                        _ => state,
                    };
                    self.table.change_icon(icon, now);
                    self.refresh_icon(icon, now)
                },
                None => do_nothing(),
            },
            Pending::Refresh { icon, task } => {
                let step = task.resume(&self.desk, reply);
                continue_refresh(icon, step)
            },
            Pending::Visibility { icon } => self.on_xembed_info(icon, reply),
            Pending::Title { icon, task } => {
                let step = task.resume(&self.desk, reply);
                continue_title(icon, step)
            },
        }
    }

    /// Handles a request to dock a window.
    fn on_dock(&mut self, icon: u32) -> (turn: Turn)
        ensures
            final(self).same_host(old(self)),
            (final(self).table(), turn@) == react_to_dock(old(self).table(), icon),
    {
        if icon == NONE || self.table.get(icon).is_some() {
            return do_nothing();
        }
        let step = EmbedTask::start(icon);
        self.continue_embed(step)
    }

    /// Goes on with an embedding, and holds the icon once it is embedded.
    fn continue_embed(&mut self, step: EmbedStep) -> (turn: Turn)
        ensures
            final(self).same_host(old(self)),
            (final(self).table(), turn@) == embed_turn(old(self).table(), step@),
    {
        match step {
            EmbedStep::Ask { forget, requests, task } => put(
                forget,
                requests,
                Pending::Embed(task),
            ),
            EmbedStep::Embedded { state, meta, image } => {
                self.table.add_icon(meta.id, state);
                Turn {
                    forget: Vec::new(),
                    emit: Some(IconEvent::Added { meta, image }),
                    next: Next::Wait,
                }
            },
            EmbedStep::Failed => do_nothing(),
        }
    }

    /// Handles damage to an icon.
    fn on_damage(&mut self, damage: u32) -> (turn: Turn)
        ensures
            *final(self) == *old(self),
            turn@ == react_to_damage(old(self).table(), damage),
    {
        match self.table.damaged(damage) {
            Some(icon) => match self.table.get(icon) {
                Some(state) => {
                    let request = Request::GetGeometry { window: icon };
                    let requests: Vec<Request> = vec![request];
                    assert(requests@ =~= seq![request]);
                    put(
                        Some(Request::SubtractDamage { damage: state.damage }),
                        requests,
                        Pending::Measure { icon },
                    )
                },
                None => do_nothing(),
            },
            None => do_nothing(),
        }
    }

    /// Handles a changed property of an icon.
    fn on_property(&mut self, icon: u32, state: Icon, atom: u32) -> (turn: Turn)
        requires
            old(self).table().icons.contains_key(icon),
            old(self).table().icons[icon] == state,
        ensures
            *final(self) == *old(self),
            turn@ == react_to_property(old(self).desk(), old(self).table(), icon, atom),
    {
        if atom == self.desk.atoms.xembed_info {
            let request = props::ask_xembed_info(&self.desk.atoms, icon);
            let requests: Vec<Request> = vec![request];
            assert(requests@ =~= seq![request]);
            put(None, requests, Pending::Visibility { icon })
        } else if atom == self.desk.atoms.net_wm_icon {
            // The window icon changed; get the graphic anew (a capture first,
            // `_NET_WM_ICON` only as a fallback).
            self.refresh_icon(icon, state)
        } else if atom == self.desk.atoms.net_wm_name || atom == self.desk.atoms.wm_name {
            let step = TitleTask::start(&self.desk, icon);
            continue_title(icon, step)
        } else {
            do_nothing()
        }
    }

    /// Maps or unmaps an icon to match the visibility that it asks for.
    fn on_xembed_info(&mut self, icon: u32, reply: Reply) -> (turn: Turn)
        ensures
            final(self).same_host(old(self)),
            (final(self).table(), turn@) == react_to_info(old(self).table(), icon, reply),
    {
        match self.table.get(icon) {
            Some(state) => {
                let want: bool = props::want_mapped(&reply);
                if want == state.mapped {
                    return do_nothing();
                }
                self.table.change_icon(icon, Icon { mapped: want, ..state });
                let request = if want {
                    Request::MapWindow { window: icon }
                } else {
                    Request::UnmapWindow { window: icon }
                };
                let forget: Vec<Request> = vec![request, Request::Flush];
                assert(forget@ =~= seq![request, Request::Flush]);
                Turn {
                    forget,
                    emit: Some(IconEvent::VisibilityChanged { id: icon, visible: want }),
                    next: Next::Wait,
                }
            },
            None => do_nothing(),
        }
    }

    /// Starts to get an icon's graphic anew.
    fn refresh_icon(&mut self, icon: u32, state: Icon) -> (turn: Turn)
        requires
            old(self).table().icons.contains_key(icon),
            old(self).table().icons[icon] == state,
        ensures
            *final(self) == *old(self),
            turn@ == refresh_start(old(self).desk(), old(self).table(), icon),
    {
        let step = ImageTask::start(&self.desk, icon, &state);
        continue_refresh(icon, step)
    }

    /// Lets go of an icon.
    fn remove_icon(&mut self, icon: u32, state: Icon) -> (turn: Turn)
        requires
            old(self).table().icons.contains_key(icon),
            old(self).table().icons[icon] == state,
        ensures
            final(self).same_host(old(self)),
            (final(self).table(), turn@) == react_to_loss(old(self).table(), icon),
    {
        self.table.remove_icon(icon, state);
        let forget: Vec<Request> = vec![
            Request::DestroyDamage { damage: state.damage },
            Request::DestroyWindow { window: state.container },
            Request::Flush,
        ];
        assert(forget@ =~= release_requests(state));
        Turn { forget, emit: Some(IconEvent::Removed { id: icon }), next: Next::Wait }
    }

    /// On shutdown, rescues the icons that are left back onto the root window, in
    /// no particular order, so that their owners do not lose their windows.
    pub fn teardown(&mut self) -> (requests: Vec<Request>)
        ensures
            final(self).same_host(old(self)),
            final(self).table() == TableView::none(),
            exists|order: Seq<u32>|
                {
                    &&& order.no_duplicates()
                    &&& order.to_set() == old(self).table().icons.dom()
                    &&& requests@ == (#[trigger] rescue_all(
                        old(self).desk().root,
                        old(self).table().icons,
                        order,
                    )).push(Request::Flush)
                },
    {
        let root: u32 = self.desk.root;
        let mut requests: Vec<Request> = Vec::new();
        let ghost icons = self.table.icons@;
        let ghost mut order: Seq<u32> = Seq::empty();
        for icon in it: self.table.icons.keys()
            invariant
                icons == self.table.icons@,
                it.seq().no_duplicates(),
                it.seq().unref().to_set() == icons.dom(),
                order == it.seq().unref().take(it.index()),
                order.no_duplicates(),
                it.index() == it.seq().len() ==> order.to_set() == icons.dom(),
                requests@ == rescue_all(root, icons, order),
        {
            let ghost all = it.seq().unref();
            assert(all.to_set().contains(all[it.index()]));
            assert(!order.contains(*icon)) by {
                assert forall|i: int| 0 <= i < order.len() implies order[i] != *icon by {
                    assert(order[i] == *it.seq()[i]);
                }
            }
            let state: Icon = *self.table.icons.get(icon).unwrap();
            requests.push(Request::DestroyDamage { damage: state.damage });
            requests.push(Request::ReparentWindow { window: *icon, parent: root, x: 0, y: 0 });
            requests.push(Request::DestroyWindow { window: state.container });
            proof {
                let longer = order.push(*icon);
                assert(longer.drop_last() =~= order);
                assert(requests@ =~= rescue_all(root, icons, order) + rescue(root, *icon, state));
                assert(longer =~= all.take(it.index() + 1));
                assert(it.index() + 1 == all.len() ==> longer =~= all);
                order = longer;
            }
        }
        assert(icons == old(self).table().icons);
        requests.push(Request::Flush);
        self.table = IconTable::new();
        requests
    }
}

/// Does nothing but wait for the next event.
fn do_nothing() -> (turn: Turn)
    ensures
        turn@ == idle(),
{
    Turn { forget: Vec::new(), emit: None, next: Next::Wait }
}

/// Asks the server.
fn put(forget: Option<Request>, requests: Vec<Request>, pending: Pending) -> (turn: Turn)
    ensures
        turn@ == ask(forget, requests@, pending@),
{
    Turn { forget: one_or_none(forget), emit: None, next: Next::Ask { requests, pending } }
}

/// A list of at most one request.
fn one_or_none(request: Option<Request>) -> (requests: Vec<Request>)
    ensures
        requests@ == match request {
            Some(request) => seq![request],
            None => Seq::empty(),
        },
{
    let mut requests: Vec<Request> = Vec::new();
    if let Some(request) = request {
        requests.push(request);
        assert(requests@ =~= seq![request]);
    }
    requests
}

/// Goes on with the fetching of an icon's graphic, or reports it.
fn continue_refresh(icon: u32, step: ImageStep) -> (turn: Turn)
    ensures
        turn@ == refresh_turn(icon, step@),
{
    match step {
        ImageStep::Ask { forget, request, task } => {
            let requests: Vec<Request> = vec![request];
            assert(requests@ =~= seq![request]);
            put(forget, requests, Pending::Refresh { icon, task })
        },
        ImageStep::Got { forget, image } => Turn {
            forget: one_or_none(forget),
            emit: match image {
                Some(image) => Some(IconEvent::Updated { id: icon, image }),
                None => None,
            },
            next: Next::Wait,
        },
    }
}

/// Goes on with the search for an icon's title, or reports it.
fn continue_title(icon: u32, step: TitleStep) -> (turn: Turn)
    ensures
        turn@ == title_turn(icon, step@),
{
    match step {
        TitleStep::Ask(request, task) => {
            let requests: Vec<Request> = vec![request];
            assert(requests@ =~= seq![request]);
            put(None, requests, Pending::Title { icon, task })
        },
        TitleStep::Found(title) => Turn {
            forget: Vec::new(),
            emit: Some(IconEvent::TitleChanged { id: icon, title }),
            next: Next::Wait,
        },
    }
}

/// A handle used to interrupt a tray host.
#[derive(Clone, Copy, PartialEq, Eq)]
pub struct Waker {
    pub target: u32,
    pub wakeup_atom: u32,
}

impl Waker {
    /// The message that makes the host stop, and the flush that sends it.
    pub fn wake(&self) -> (requests: Vec<Request>)
        ensures
            requests@ == seq![
                Request::SendMessage {
                    destination: self.target,
                    event_mask: MASK_NONE,
                    message: ClientMessage {
                        window: self.target,
                        type_: self.wakeup_atom,
                        data: [0, 0, 0, 0, 0],
                    },
                },
                Request::Flush,
            ],
    {
        let requests: Vec<Request> = vec![
            Request::SendMessage {
                destination: self.target,
                event_mask: MASK_NONE,
                message: ClientMessage {
                    window: self.target,
                    type_: self.wakeup_atom,
                    data: [0, 0, 0, 0, 0],
                },
            },
            Request::Flush,
        ];
        requests
    }
}

} // verus!
