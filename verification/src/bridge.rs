//! Between the tray host and the bus.
//!
//! A [`Bridge`] takes the events of the tray host and keeps one published item
//! per icon. It says what is to be done on the bus; interactions go back to the
//! icons as [`Gesture`]s. Items are registered anew whenever a watcher appears,
//! so that it does not matter whether the bar or the bridge starts first.

use crate::control::{Gesture, TrayControl};
use crate::control;
use crate::host_laws;
use crate::icon::{IconEvent, IconEventView, IconId, IconImage, IconMeta, ImageView, MetaView};
use crate::request::{Desktop, Reply, ServerEvent};
use crate::sni::{ItemActions, ItemView, Pixmap, StatusNotifierItem, WATCHER_NAME};
use crate::sni;
use crate::text;
use std::collections::HashMap;
use vstd::prelude::*;
use vstd::string::*;

verus! {

broadcast use vstd::std_specs::hash::group_hash_axioms;

/// The category of every item.
pub const DEFAULT_CATEGORY: &'static str = "ApplicationStatus";

/// Forwards interactions to a specific icon.
#[derive(Clone, Copy, Debug, PartialEq, Eq)]
pub struct IconActions {
    pub control: TrayControl,
    pub icon: IconId,
}

/// A single click on an icon, at a place on the screen that is unknown.
pub open spec fn one_click(actions: IconActions, button: u8) -> Gesture {
    Gesture { root: actions.control.root, icon: actions.icon, button, x: 0, y: 0, clicks: 1 }
}

/// A scroll over an icon.
pub open spec fn scrolled(actions: IconActions, delta: i32, horizontal: bool) -> Gesture {
    Gesture {
        root: actions.control.root,
        icon: actions.icon,
        button: control::scroll_button(delta, horizontal),
        x: 0,
        y: 0,
        clicks: control::scroll_clicks(delta) as u32,
    }
}

impl ItemActions for IconActions {
    type Effect = Gesture;

    fn activate(&self) -> (effect: Gesture)
        ensures
            effect == one_click(*self, control::BUTTON_LEFT),
    {
        self.control.activate(self.icon, 0, 0)
    }

    fn secondary_activate(&self) -> (effect: Gesture)
        ensures
            effect == one_click(*self, control::BUTTON_MIDDLE),
    {
        self.control.secondary_activate(self.icon, 0, 0)
    }

    fn context_menu(&self) -> (effect: Gesture)
        ensures
            effect == one_click(*self, control::BUTTON_RIGHT),
    {
        self.control.context_menu(self.icon, 0, 0)
    }

    fn scroll(&self, delta: i32, horizontal: bool) -> (effect: Gesture)
        ensures
            effect == scrolled(*self, delta, horizontal),
    {
        self.control.scroll(self.icon, delta, horizontal)
    }
}

/// The pixmap that shows an image, or none.
pub open spec fn pixmap_of(image: Option<ImageView>) -> Seq<(i32, i32, Seq<u8>)> {
    match image {
        Some(image) => seq![(image.width as i32, image.height as i32, image.argb32)],
        None => Seq::empty(),
    }
}

/// The pixmap that shows an image.
pub fn to_pixmap(image: IconImage) -> (pixmap: Pixmap)
    ensures
        sni::pixmap_model(pixmap) == pixmap_of(Some(image@)),
{
    sni::one_image(image.width as i32, image.height as i32, image.argb32)
}

/// Something to do on the bus. Items are named by their numbers.
pub enum Action {
    /// Nothing.
    Nothing,
    /// Publish an item under this number, register it, and say by
    /// [`Bridge::published`] what became of it.
    Publish { id: IconId, seq: u64, item: StatusNotifierItem<IconActions> },
    /// Replace an item's icon.
    SetIcon { seq: u64, width: i32, height: i32, argb32: Vec<u8> },
    /// Replace an item's title.
    SetTitle { seq: u64, title: String },
    /// Set an item's status.
    SetStatus { seq: u64, status: String },
    /// Give an item up.
    Remove { seq: u64 },
}

/// The model of an [`Action`].
#[verifier::ext_equal]
pub enum ActionView {
    Nothing,
    Publish { id: IconId, seq: u64, item: ItemView<IconActions> },
    SetIcon { seq: u64, width: i32, height: i32, argb32: Seq<u8> },
    SetTitle { seq: u64, title: Seq<char> },
    SetStatus { seq: u64, status: Seq<char> },
    Remove { seq: u64 },
}

impl View for Action {
    type V = ActionView;

    open spec fn view(&self) -> ActionView {
        match *self {
            Action::Nothing => ActionView::Nothing,
            Action::Publish { id, seq, item } => ActionView::Publish { id, seq, item: item@ },
            Action::SetIcon { seq, width, height, argb32 } => ActionView::SetIcon {
                seq,
                width,
                height,
                argb32: argb32@,
            },
            Action::SetTitle { seq, title } => ActionView::SetTitle { seq, title: title@ },
            Action::SetStatus { seq, status } => ActionView::SetStatus { seq, status: status@ },
            Action::Remove { seq } => ActionView::Remove { seq },
        }
    }
}

/// Maps icons to published items.
pub struct Bridge {
    control: TrayControl,
    items: HashMap<u32, u64>,
    seq: u64,
}

/// The model of a [`Bridge`]: the number of each icon's item, and the number
/// that was given out last.
#[verifier::ext_equal]
pub struct BridgeView {
    pub control: TrayControl,
    pub items: Map<IconId, u64>,
    pub seq: u64,
}

impl View for Bridge {
    type V = BridgeView;

    closed spec fn view(&self) -> BridgeView {
        BridgeView { control: self.control, items: self.items@, seq: self.seq }
    }
}

impl BridgeView {
    /// The numbers in use were given out, each to one icon.
    pub open spec fn well_formed(self) -> bool {
        &&& forall|id: IconId| #[trigger]
            self.items.contains_key(id) ==> self.items[id] <= self.seq
        &&& forall|a: IconId, b: IconId| #[trigger]
            self.items.contains_key(a) && #[trigger] self.items.contains_key(b) && self.items[a]
                == self.items[b] ==> a == b
    }
}

/// The numbers of the items of some icons.
pub open spec fn numbers_of(order: Seq<IconId>, items: Map<IconId, u64>) -> Seq<u64> {
    Seq::new(order.len(), |i: int| items[order[i]])
}

/// Whether `numbers` are those of all items, icon by icon in some order.
pub open spec fn lists(numbers: Seq<u64>, items: Map<IconId, u64>) -> bool {
    exists|order: Seq<IconId>|
        {
            &&& order.no_duplicates()
            &&& order.to_set() == items.dom()
            &&& numbers == #[trigger] numbers_of(order, items)
        }
}

/// The item that shows an icon: its title is the icon's own, or else the
/// application's id.
pub open spec fn item_of(
    control: TrayControl,
    meta: MetaView,
    image: Option<ImageView>,
) -> ItemView<IconActions> {
    ItemView {
        id: meta.app_id,
        title: if meta.title.len() == 0 {
            meta.app_id
        } else {
            meta.title
        },
        category: DEFAULT_CATEGORY@,
        status: "Active"@,
        icon: pixmap_of(image),
        actions: IconActions { control, icon: meta.id },
    }
}

/// The status that says whether an icon is to be shown.
pub open spec fn status_of(visible: bool) -> Seq<char> {
    if visible {
        "Active"@
    } else {
        "Passive"@
    }
}

/// How a bridge reacts to an event of the tray host. What concerns an icon
/// without an item is ignored.
pub open spec fn respond(bridge: BridgeView, event: IconEventView) -> (BridgeView, ActionView) {
    match event {
        IconEventView::Added { meta, image } => {
            let seq = (bridge.seq + 1) as u64;
            (
                BridgeView { seq, ..bridge },
                ActionView::Publish {
                    id: meta.id,
                    seq,
                    item: item_of(bridge.control, meta, image),
                },
            )
        },
        IconEventView::Updated { id, image } => (
            bridge,
            if bridge.items.contains_key(id) {
                ActionView::SetIcon {
                    seq: bridge.items[id],
                    width: image.width as i32,
                    height: image.height as i32,
                    argb32: image.argb32,
                }
            } else {
                ActionView::Nothing
            },
        ),
        IconEventView::TitleChanged { id, title } => (
            bridge,
            if bridge.items.contains_key(id) {
                ActionView::SetTitle { seq: bridge.items[id], title }
            } else {
                ActionView::Nothing
            },
        ),
        IconEventView::VisibilityChanged { id, visible } => (
            bridge,
            if bridge.items.contains_key(id) {
                ActionView::SetStatus { seq: bridge.items[id], status: status_of(visible) }
            } else {
                ActionView::Nothing
            },
        ),
        IconEventView::Removed { id } => if bridge.items.contains_key(id) {
            (
                BridgeView { items: bridge.items.remove(id), ..bridge },
                ActionView::Remove { seq: bridge.items[id] },
            )
        } else {
            (bridge, ActionView::Nothing)
        },
        IconEventView::SelectionLost => (bridge, ActionView::Nothing),
    }
}

/// The bridge after an item was published, or failed to be. One that was
/// published takes the place of any that the icon had before; that one goes.
pub open spec fn enter(bridge: BridgeView, id: IconId, seq: u64, success: bool) -> (
    BridgeView,
    Option<u64>,
) {
    if success {
        (
            BridgeView { items: bridge.items.insert(id, seq), ..bridge },
            if bridge.items.contains_key(id) {
                Some(bridge.items[id])
            } else {
                None
            },
        )
    } else {
        (bridge, None)
    }
}

impl Bridge {
    /// A bridge without items.
    pub fn new(control: TrayControl) -> (bridge: Bridge)
        ensures
            bridge@ == (BridgeView { control, items: Map::empty(), seq: 0 }),
            bridge@.well_formed(),
    {
        Bridge { control, items: HashMap::new(), seq: 0 }
    }

    /// Whether there are no more numbers for items.
    pub fn exhausted(&self) -> (exhausted: bool)
        ensures
            exhausted == (self@.seq == u64::MAX),
    {
        self.seq == u64::MAX
    }

    /// The number of an icon's item.
    pub fn number(&self, id: IconId) -> (seq: Option<u64>)
        ensures
            seq == if self@.items.contains_key(id) {
                Some(self@.items[id])
            } else {
                None
            },
    {
        match self.items.get(&id) {
            Some(seq) => Some(*seq),
            None => None,
        }
    }

    /// Whether the bridge is to end: the events are over, or the tray selection
    /// was lost.
    pub fn is_over(event: &Option<IconEvent>) -> (over: bool)
        ensures
            over == match *event {
                Some(event) => event is SelectionLost,
                None => true,
            },
    {
        match event {
            Some(IconEvent::SelectionLost) => true,
            Some(_) => false,
            None => true,
        }
    }

    /// Reacts to an event of the tray host.
    pub fn handle_event(&mut self, event: IconEvent) -> (action: Action)
        requires
            event is Added ==> old(self)@.seq < u64::MAX,
        ensures
            (final(self)@, action@) == respond(old(self)@, event@),
            old(self)@.well_formed() ==> final(self)@.well_formed(),
    {
        match event {
            IconEvent::Added { meta, image } => self.add_item(meta, image),
            IconEvent::Updated { id, image } => match self.number(id) {
                Some(seq) => Action::SetIcon {
                    seq,
                    width: image.width as i32,
                    height: image.height as i32,
                    argb32: image.argb32,
                },
                None => Action::Nothing,
            },
            IconEvent::TitleChanged { id, title } => match self.number(id) {
                Some(seq) => Action::SetTitle { seq, title },
                None => Action::Nothing,
            },
            IconEvent::VisibilityChanged { id, visible } => match self.number(id) {
                Some(seq) => {
                    let status: String = if visible {
                        "Active".to_owned()
                    } else {
                        "Passive".to_owned()
                    };
                    Action::SetStatus { seq, status }
                },
                None => Action::Nothing,
            },
            IconEvent::Removed { id } => match self.number(id) {
                Some(seq) => {
                    self.items.remove(&id);
                    Action::Remove { seq }
                },
                None => Action::Nothing,
            },
            IconEvent::SelectionLost => Action::Nothing,
        }
    }

    /// Makes an item for an icon, under the next number.
    fn add_item(&mut self, meta: IconMeta, image: Option<IconImage>) -> (action: Action)
        requires
            old(self)@.seq < u64::MAX,
        ensures
            (final(self)@, action@) == respond(
                old(self)@,
                IconEventView::Added { meta: meta@, image: crate::icon::image_view(image) },
            ),
    {
        let actions = IconActions { control: self.control, icon: meta.id };
        let id: IconId = meta.id;
        let title: String = if text::same_text(meta.title.as_str(), "") {
            meta.app_id.clone()
        } else {
            meta.title
        };
        proof {
            reveal_strlit("");
            assert(meta@.title.len() == 0 <==> meta@.title =~= ""@);
        }
        let ghost shown = crate::icon::image_view(image);
        let pixmap: Pixmap = match image {
            Some(image) => to_pixmap(image),
            None => Vec::new(),
        };
        assert(sni::pixmap_model(pixmap) =~= pixmap_of(shown));
        let item = StatusNotifierItem::new(
            meta.app_id,
            title,
            DEFAULT_CATEGORY.to_owned(),
            pixmap,
            actions,
        );
        self.seq = self.seq + 1;
        Action::Publish { id, seq: self.seq, item }
    }

    /// Takes note of whether an item could be published, and says which other is
    /// to be given up for it.
    pub fn published(&mut self, id: IconId, seq: u64, success: bool) -> (replaced: Option<u64>)
        ensures
            (final(self)@, replaced) == enter(old(self)@, id, seq, success),
    {
        if !success {
            return None;
        }
        let replaced: Option<u64> = self.number(id);
        self.items.insert(id, seq);
        replaced
    }

    /// The items to register anew, now that a watcher appeared, in no particular
    /// order.
    pub fn reregister_all(&self) -> (numbers: Vec<u64>)
        ensures
            lists(numbers@, self@.items),
    {
        let mut numbers: Vec<u64> = Vec::new();
        let ghost items = self.items@;
        let ghost mut order: Seq<u32> = Seq::empty();
        for id in it: self.items.keys()
            invariant
                items == self.items@,
                it.seq().no_duplicates(),
                it.seq().unref().to_set() == items.dom(),
                order == it.seq().unref().take(it.index()),
                order.no_duplicates(),
                it.index() == it.seq().len() ==> order.to_set() == items.dom(),
                numbers@ == numbers_of(order, items),
        {
            let ghost all = it.seq().unref();
            assert(all.to_set().contains(all[it.index()]));
            assert(!order.contains(*id)) by {
                assert forall|i: int| 0 <= i < order.len() implies order[i] != *id by {
                    assert(order[i] == *it.seq()[i]);
                }
            }
            numbers.push(*self.items.get(id).unwrap());
            proof {
                let longer = order.push(*id);
                assert(longer =~= all.take(it.index() + 1));
                assert(it.index() + 1 == all.len() ==> longer =~= all);
                assert(numbers@ =~= numbers_of(longer, items));
                order = longer;
            }
        }
        assert(items == self@.items);
        numbers
    }

    /// Ends the bridge: these items are to be given up.
    pub fn shut_down(&mut self) -> (numbers: Vec<u64>)
        ensures
            lists(numbers@, old(self)@.items),
            final(self)@ == (BridgeView { items: Map::empty(), ..old(self)@ }),
    {
        let numbers: Vec<u64> = self.reregister_all();
        self.items = HashMap::new();
        numbers
    }
}

/// Whether a change of the owner of a bus name means that a watcher appeared.
pub fn watcher_appeared(name: &str, has_new_owner: bool) -> (appeared: bool)
    ensures
        appeared == (name@ == WATCHER_NAME@ && has_new_owner),
{
    has_new_owner && text::same_text(name, WATCHER_NAME)
}

/// Every item that is published has a number of its own, and keeps it until its
/// icon goes or gets another item; a number is never given out twice.
pub proof fn law_numbers_are_unique(bridge: BridgeView, event: IconEventView, success: bool)
    requires
        bridge.well_formed(),
        event is Added ==> bridge.seq < u64::MAX,
    ensures
        ({
            let (after, action) = respond(bridge, event);
            &&& after.well_formed()
            &&& action matches ActionView::Publish { id, seq, .. } ==> {
                &&& seq == bridge.seq + 1
                &&& after.seq == seq
                &&& !bridge.items.contains_value(seq)
                &&& enter(after, id, seq, success).0.well_formed()
            }
        }),
{
}

/// With every item that it is asked to publish published, the bridge has an item
/// for exactly the icons that the host holds, as the host's reports tell.
pub proof fn law_items_follow_reports(bridge: BridgeView, event: IconEventView)
    ensures
        ({
            let (after, action) = respond(bridge, event);
            let settled = match action {
                ActionView::Publish { id, seq, .. } => enter(after, id, seq, true).0,
                _ => after,
            };
            settled.items.dom() == host_laws::told(bridge.items.dom(), Some(event))
        }),
{
    let (after, action) = respond(bridge, event);
    if let IconEventView::Removed { id } = event {
        assert(bridge.items.remove(id).dom() =~= bridge.items.dom().remove(id));
        if !bridge.items.contains_key(id) {
            assert(bridge.items.dom().remove(id) =~= bridge.items.dom());
        }
    }
}

/// A bridge after some reports, each item that it is asked to publish published.
pub open spec fn respond_all(bridge: BridgeView, reports: Seq<IconEventView>) -> BridgeView
    decreases reports.len(),
{
    if reports.len() == 0 {
        bridge
    } else {
        let (after, action) = respond(respond_all(bridge, reports.drop_last()), reports.last());
        match action {
            ActionView::Publish { id, seq, .. } => enter(after, id, seq, true).0,
            _ => after,
        }
    }
}

/// Over a whole run, such a bridge that starts without items has one for exactly the
/// icons that the host holds.
pub proof fn law_items_follow_a_run(
    control: TrayControl,
    desk: Desktop,
    selection: u32,
    inputs: Seq<(ServerEvent, Reply)>,
)
    ensures
        respond_all(
            BridgeView { control, items: Map::empty(), seq: 0 },
            host_laws::run(desk, selection, inputs).reports,
        ).items.dom() == host_laws::run(desk, selection, inputs).table.icons.dom(),
{
    let reports = host_laws::run(desk, selection, inputs).reports;
    host_laws::law_run_is_orderly(desk, selection, inputs);
    lemma_items_follow(BridgeView { control, items: Map::empty(), seq: 0 }, reports);
}

/// A bridge that starts without items has one for each icon that was reported as
/// added and not as removed since.
proof fn lemma_items_follow(bridge: BridgeView, reports: Seq<IconEventView>)
    requires
        bridge.items == Map::<IconId, u64>::empty(),
    ensures
        respond_all(bridge, reports).items.dom() == host_laws::held_after(reports),
    decreases reports.len(),
{
    if reports.len() > 0 {
        lemma_items_follow(bridge, reports.drop_last());
        law_items_follow_reports(respond_all(bridge, reports.drop_last()), reports.last());
    } else {
        assert(bridge.items.dom() =~= Set::empty());
    }
}

/// A failed publication leaves the icon with what it had.
pub proof fn law_failed_publication_changes_nothing(bridge: BridgeView, id: IconId, seq: u64)
    ensures
        enter(bridge, id, seq, false) == (bridge, None::<u64>),
{
}

/// What concerns an icon is done to its item and to no other, and nothing is
/// done for an icon without one.
pub proof fn law_actions_hit_their_item(bridge: BridgeView, id: IconId, event: IconEventView)
    requires
        host_laws::spoken_of(Some(event)) == Some(id) || event == (IconEventView::Removed { id }),
    ensures
        !bridge.items.contains_key(id) ==> respond(bridge, event) == (bridge, ActionView::Nothing),
        bridge.items.contains_key(id) ==> match respond(bridge, event).1 {
            ActionView::SetIcon { seq, .. } => seq == bridge.items[id],
            ActionView::SetTitle { seq, .. } => seq == bridge.items[id],
            ActionView::SetStatus { seq, .. } => seq == bridge.items[id],
            ActionView::Remove { seq } => seq == bridge.items[id],
            _ => false,
        },
{
}

/// A list of all items names each of them once.
pub proof fn law_lists_are_complete(bridge: BridgeView, numbers: Seq<u64>)
    requires
        bridge.well_formed(),
        lists(numbers, bridge.items),
    ensures
        numbers.no_duplicates(),
        numbers.to_set() == bridge.items.values(),
{
    let items = bridge.items;
    let order = choose|order: Seq<IconId>|
        {
            &&& order.no_duplicates()
            &&& order.to_set() == items.dom()
            &&& numbers == #[trigger] numbers_of(order, items)
        };
    assert forall|i: int| 0 <= i < order.len() implies items.contains_key(#[trigger] order[i]) by {
        assert(order.to_set().contains(order[i]));
    }
    assert forall|n: u64| items.values().contains(n) implies numbers.contains(n) by {
        let id = choose|id: IconId| #[trigger] items.contains_key(id) && items[id] == n;
        assert(order.to_set().contains(id));
        let i = choose|i: int| 0 <= i < order.len() && order[i] == id;
        assert(numbers[i] == n);
    }
    assert forall|n: u64| numbers.contains(n) implies items.values().contains(n) by {
        let i = choose|i: int| 0 <= i < numbers.len() && numbers[i] == n;
        assert(items.contains_key(order[i]));
    }
    assert(numbers.to_set() =~= items.values());
}

/// An item that is added goes out under a title that is empty only where the
/// icon has neither a title nor an application id.
pub proof fn law_items_are_titled(control: TrayControl, meta: MetaView, image: Option<ImageView>)
    ensures
        item_of(control, meta, image).title.len() == 0 <==> meta.title.len() == 0
            && meta.app_id.len() == 0,
{
}

/// Interactions with an item go to the icon that it shows: a left, middle or
/// right click, or a scroll.
pub proof fn law_interactions_reach_icon(
    control: TrayControl,
    meta: MetaView,
    image: Option<ImageView>,
    delta: i32,
    horizontal: bool,
    gesture: Gesture,
)
    ensures
        ({
            let actions = item_of(control, meta, image).actions;
            &&& actions == IconActions { control, icon: meta.id }
            &&& call_ensures(<IconActions as ItemActions>::activate, (&actions,), gesture)
                ==> gesture == one_click(actions, control::BUTTON_LEFT)
            &&& call_ensures(<IconActions as ItemActions>::secondary_activate, (&actions,), gesture)
                ==> gesture == one_click(actions, control::BUTTON_MIDDLE)
            &&& call_ensures(<IconActions as ItemActions>::context_menu, (&actions,), gesture)
                ==> gesture == one_click(actions, control::BUTTON_RIGHT)
            &&& call_ensures(
                <IconActions as ItemActions>::scroll,
                (&actions, delta, horizontal),
                gesture,
            ) ==> gesture == scrolled(actions, delta, horizontal)
        }),
{
}

/// What an icon's item is told is what was reported of the icon: the very bytes and
/// size of the new image, the very title, and `Active` or `Passive` as the icon is
/// shown or hidden. Neither the items nor the numbers change.
pub proof fn law_changes_are_carried_over(
    bridge: BridgeView,
    id: IconId,
    image: ImageView,
    title: Seq<char>,
)
    requires
        bridge.items.contains_key(id),
    ensures
        ({
            let (after, action) = respond(bridge, IconEventView::Updated { id, image });
            &&& after == bridge
            &&& action matches ActionView::SetIcon { seq, width, height, argb32 } && seq
                == bridge.items[id] && width == image.width && height == image.height && argb32
                == image.argb32
        }),
        ({
            let (after, action) = respond(bridge, IconEventView::TitleChanged { id, title });
            &&& after == bridge
            &&& action matches ActionView::SetTitle { seq, title: shown } && seq
                == bridge.items[id] && shown == title
        }),
        ({
            let shown = IconEventView::VisibilityChanged { id, visible: true };
            let (after, action) = respond(bridge, shown);
            &&& after == bridge
            &&& action matches ActionView::SetStatus { seq, status } && seq == bridge.items[id]
                && status == "Active"@
        }),
        ({
            let hidden = IconEventView::VisibilityChanged { id, visible: false };
            let (after, action) = respond(bridge, hidden);
            &&& after == bridge
            &&& action matches ActionView::SetStatus { seq, status } && seq == bridge.items[id]
                && status == "Passive"@
        }),
{
}

/// An icon that is removed loses its item and no other icon does; an icon that has
/// none, and the loss of the selection, change nothing.
pub proof fn law_only_the_removed_item_goes(bridge: BridgeView, id: IconId, other: IconId)
    requires
        other != id,
    ensures
        ({
            let (after, action) = respond(bridge, IconEventView::Removed { id });
            &&& !after.items.contains_key(id)
            &&& after.items.contains_key(other) == bridge.items.contains_key(other)
            &&& bridge.items.contains_key(other) ==> after.items[other] == bridge.items[other]
            &&& after.seq == bridge.seq
            &&& after.control == bridge.control
            &&& bridge.items.contains_key(id) ==> action == (ActionView::Remove {
                seq: bridge.items[id],
            })
            &&& !bridge.items.contains_key(id) ==> action is Nothing && after == bridge
        }),
        respond(bridge, IconEventView::SelectionLost) == (bridge, ActionView::Nothing),
{
}

/// An icon that is added is shown under its application id, by its title or else by
/// that id, with the very image that was reported or none, as an active item of the
/// one category; its interactions go to that icon, through the bridge's control.
pub proof fn law_added_icon_is_shown(
    bridge: BridgeView,
    meta: MetaView,
    image: Option<ImageView>,
)
    requires
        bridge.seq < u64::MAX,
    ensures
        respond(bridge, IconEventView::Added { meta, image }).1 matches ActionView::Publish {
            id,
            seq,
            item,
        } && {
            &&& id == meta.id
            &&& seq == bridge.seq + 1
            &&& item.id == meta.app_id
            &&& meta.title.len() > 0 ==> item.title == meta.title
            &&& meta.title.len() == 0 ==> item.title == meta.app_id
            &&& item.category == "ApplicationStatus"@
            &&& item.status == "Active"@
            &&& item.actions.icon == meta.id
            &&& item.actions.control == bridge.control
            &&& image is None ==> item.icon.len() == 0
            &&& image matches Some(shown) ==> {
                &&& item.icon.len() == 1
                &&& item.icon[0].0 == shown.width
                &&& item.icon[0].1 == shown.height
                &&& item.icon[0].2 == shown.argb32
            }
        },
        respond(bridge, IconEventView::Added { meta, image }).0.items == bridge.items,
{
}

/// An item that was published is its icon's from then on, and every other icon keeps
/// its own. The one that it replaces, and only that, is to be given up.
pub proof fn law_published_item_takes_its_place(
    bridge: BridgeView,
    id: IconId,
    seq: u64,
    other: IconId,
)
    requires
        other != id,
    ensures
        ({
            let (after, replaced) = enter(bridge, id, seq, true);
            &&& after.items.contains_key(id) && after.items[id] == seq
            &&& after.items.contains_key(other) == bridge.items.contains_key(other)
            &&& bridge.items.contains_key(other) ==> after.items[other] == bridge.items[other]
            &&& after.seq == bridge.seq
            &&& bridge.items.contains_key(id) ==> replaced == Some(bridge.items[id])
            &&& !bridge.items.contains_key(id) ==> replaced is None
        }),
{
}

/// A click on an item is one click of the left, middle or right button on its icon,
/// at no particular place of the screen; a scroll by `delta` is as many clicks of the
/// wheel button of its direction.
pub proof fn law_what_interactions_come_to(
    actions: IconActions,
    delta: i32,
    horizontal: bool,
    gesture: Gesture,
)
    ensures
        call_ensures(<IconActions as ItemActions>::activate, (&actions,), gesture)
            ==> gesture.button == 1 && gesture.clicks == 1,
        call_ensures(<IconActions as ItemActions>::secondary_activate, (&actions,), gesture)
            ==> gesture.button == 2 && gesture.clicks == 1,
        call_ensures(<IconActions as ItemActions>::context_menu, (&actions,), gesture)
            ==> gesture.button == 3 && gesture.clicks == 1,
        call_ensures(
            <IconActions as ItemActions>::scroll,
            (&actions, delta, horizontal),
            gesture,
        ) ==> {
            &&& gesture.clicks == if delta < 0 {
                -delta
            } else {
                delta as int
            }
            &&& delta > 0 && !horizontal ==> gesture.button == 4
            &&& delta < 0 && !horizontal ==> gesture.button == 5
            &&& delta < 0 && horizontal ==> gesture.button == 6
            &&& delta > 0 && horizontal ==> gesture.button == 7
        },
        call_ensures(<IconActions as ItemActions>::activate, (&actions,), gesture) || call_ensures(
            <IconActions as ItemActions>::secondary_activate,
            (&actions,),
            gesture,
        ) || call_ensures(<IconActions as ItemActions>::context_menu, (&actions,), gesture)
            || call_ensures(
            <IconActions as ItemActions>::scroll,
            (&actions, delta, horizontal),
            gesture,
        ) ==> {
            &&& gesture.icon == actions.icon
            &&& gesture.root == actions.control.root
            &&& gesture.x == 0
            &&& gesture.y == 0
        },
{
}

/// What a bridge does at an event, in the bytes, texts and numbers that go in and come
/// out: an image goes out as it came in, and so does a title; an icon that is hidden is
/// passive, and one that is shown is active; an item goes with its icon.
pub proof fn law_events_come_out_as_they_came_in(
    bridge: &mut Bridge,
    id: IconId,
    image: IconImage,
    title: String,
    visible: bool,
    action: Action,
)
    requires
        old(bridge)@.items.contains_key(id),
    ensures
        call_ensures(Bridge::handle_event, (bridge, IconEvent::Updated { id, image }), action) ==> (
        action matches Action::SetIcon { seq, width, height, argb32 } && seq
            == old(bridge)@.items[id] && width == image.width && height == image.height && argb32@
            == image.argb32@),
        call_ensures(Bridge::handle_event, (bridge, IconEvent::TitleChanged { id, title }), action)
            ==> (action matches Action::SetTitle { seq, title: shown } && seq
            == old(bridge)@.items[id] && shown@ == title@),
        call_ensures(
            Bridge::handle_event,
            (bridge, IconEvent::VisibilityChanged { id, visible }),
            action,
        ) ==> (action matches Action::SetStatus { seq, status } && seq == old(bridge)@.items[id]
            && status@ == if visible {
            "Active"@
        } else {
            "Passive"@
        }),
        call_ensures(Bridge::handle_event, (bridge, IconEvent::Removed { id }), action) ==> (action
            matches Action::Remove { seq } && seq == old(bridge)@.items[id])
            && !final(bridge)@.items.contains_key(id),
{
}

/// An icon that is added comes out as an item of its application id and title, with its
/// image as it came in.
pub proof fn law_added_icon_comes_out(
    bridge: &mut Bridge,
    meta: IconMeta,
    image: Option<IconImage>,
    action: Action,
)
    requires
        old(bridge)@.seq < u64::MAX,
        call_ensures(Bridge::handle_event, (bridge, IconEvent::Added { meta, image }), action),
    ensures
        final(bridge)@.items == old(bridge)@.items,
        final(bridge)@.seq == old(bridge)@.seq + 1,
        action matches Action::Publish { id, seq, item } && {
            &&& id == meta.id
            &&& seq == old(bridge)@.seq + 1
            &&& item@.id == meta.app_id@
            &&& item@.title == if meta.title@.len() > 0 {
                meta.title@
            } else {
                meta.app_id@
            }
            &&& item@.actions.icon == meta.id
            &&& image matches Some(image) ==> item@.icon.len() == 1 && item@.icon[0].2
                == image.argb32@ && item@.icon[0].0 == image.width && item@.icon[0].1
                == image.height
            &&& image is None ==> item@.icon.len() == 0
        },
{
}

/// Clicks on a bridged item, and scrolls over it, go to the item's icon, with the button
/// that they are of; a scroll is horizontal if it says so, in capitals or not.
pub proof fn law_items_forward_interactions(
    item: StatusNotifierItem<IconActions>,
    x: i32,
    y: i32,
    delta: i32,
    orientation: String,
    gesture: Gesture,
)
    ensures
        call_ensures(StatusNotifierItem::<IconActions>::activate, (&item, x, y), gesture)
            ==> gesture.icon == item@.actions.icon && gesture.button == 1 && gesture.clicks == 1,
        call_ensures(StatusNotifierItem::<IconActions>::secondary_activate, (&item, x, y), gesture)
            ==> gesture.icon == item@.actions.icon && gesture.button == 2 && gesture.clicks == 1,
        call_ensures(StatusNotifierItem::<IconActions>::context_menu, (&item, x, y), gesture)
            ==> gesture.icon == item@.actions.icon && gesture.button == 3 && gesture.clicks == 1,
        call_ensures(
            StatusNotifierItem::<IconActions>::scroll,
            (&item, delta, orientation),
            gesture,
        ) ==> {
            &&& gesture.icon == item@.actions.icon
            &&& delta >= 0 ==> gesture.clicks == delta
            &&& delta < 0 ==> gesture.clicks == -delta
            &&& orientation@ == "horizontal"@ && delta > 0 ==> gesture.button == 7
            &&& orientation@ == "horizontal"@ && delta < 0 ==> gesture.button == 6
            &&& orientation@.len() != "horizontal"@.len() && delta > 0 ==> gesture.button == 4
            &&& orientation@.len() != "horizontal"@.len() && delta < 0 ==> gesture.button == 5
        },
{
    let wanted = "horizontal"@;
    text::law_only_case_is_ignored(orientation@, wanted);
}

/// A watcher has appeared when its very name has got an owner. A bridge ends when the
/// events do or the selection is lost, and at no other event.
pub proof fn law_what_ends_and_what_appears(
    name: &str,
    owned: bool,
    appeared: bool,
    event: Option<IconEvent>,
    over: bool,
    image: IconImage,
    pixmap: Pixmap,
)
    ensures
        call_ensures(watcher_appeared, (name, owned), appeared) ==> (appeared <==> owned && name@
            == "org.kde.StatusNotifierWatcher"@),
        call_ensures(Bridge::is_over, (&event,), over) ==> (over <==> event is None || event
            == Some(IconEvent::SelectionLost)),
        call_ensures(to_pixmap, (image,), pixmap) ==> pixmap@.len() == 1 && pixmap@[0].0
            == image.width && pixmap@[0].1 == image.height && pixmap@[0].2@ == image.argb32@,
{
    if call_ensures(to_pixmap, (image,), pixmap) {
        let model = sni::pixmap_model(pixmap);
        assert(model.len() == pixmap@.len());
        assert(model[0] == sni::image_model(pixmap@[0]));
    }
}

} // verus!
