//! StatusNotifierItems: what a host on the bus sees of an icon.
//!
//! Each icon is an `org.kde.StatusNotifierItem` of its own, under a bus name of
//! its own (`org.kde.StatusNotifierItem-<pid>-<n>`, at `/StatusNotifierItem`), as
//! normal applications have it. Giving up the name is then a clean removal.
//!
//! This knows nothing of X11: interactions are delivered through the
//! [`ItemActions`] trait, and icons are passed as raw ARGB32.

use crate::text;
use vstd::prelude::*;
use vstd::string::*;
use zbus::zvariant::OwnedObjectPath;

verus! {

/// The SNI `IconPixmap` wire type: a list of `(width, height, ARGB32 bytes)`.
pub type Pixmap = Vec<(i32, i32, Vec<u8>)>;

/// The bus name and the interface of the watcher that items register with.
pub const WATCHER_NAME: &'static str = "org.kde.StatusNotifierWatcher";

/// Where the watcher's object lives.
pub const WATCHER_PATH: &'static str = "/StatusNotifierWatcher";

/// Where an item's object lives.
pub const ITEM_PATH: &'static str = "/StatusNotifierItem";

/// The method by which items register.
pub const REGISTER_METHOD: &'static str = "RegisterStatusNotifierItem";

/// The path that says that an item has no menu on the bus.
pub const NO_MENU: &'static str = "/NO_DBUSMENU";

/// The model of one image of a [`Pixmap`].
pub open spec fn image_model(image: (i32, i32, Vec<u8>)) -> (i32, i32, Seq<u8>) {
    (image.0, image.1, image.2@)
}

/// The model of a [`Pixmap`].
pub open spec fn pixmap_model(pixmap: Pixmap) -> Seq<(i32, i32, Seq<u8>)> {
    Seq::new(pixmap@.len(), |i: int| image_model(pixmap@[i]))
}

/// Interactions that a host can trigger on an item, forwarded to the tray icon.
///
/// What an interaction comes to is up to the implementation.
pub trait ItemActions: Sized {
    /// What an interaction comes to.
    type Effect;

    fn activate(&self) -> Self::Effect;

    fn secondary_activate(&self) -> Self::Effect;

    fn context_menu(&self) -> Self::Effect;

    fn scroll(&self, delta: i32, horizontal: bool) -> Self::Effect;
}

/// The state and the bus interface of a single tray item.
pub struct StatusNotifierItem<A: ItemActions> {
    id: String,
    title: String,
    category: String,
    status: String,
    icon: Pixmap,
    actions: A,
}

/// The model of a [`StatusNotifierItem`].
#[verifier::ext_equal]
pub struct ItemView<A> {
    pub id: Seq<char>,
    pub title: Seq<char>,
    pub category: Seq<char>,
    pub status: Seq<char>,
    pub icon: Seq<(i32, i32, Seq<u8>)>,
    pub actions: A,
}

impl<A: ItemActions> View for StatusNotifierItem<A> {
    type V = ItemView<A>;

    closed spec fn view(&self) -> ItemView<A> {
        ItemView {
            id: self.id@,
            title: self.title@,
            category: self.category@,
            status: self.status@,
            icon: pixmap_model(self.icon),
            actions: self.actions,
        }
    }
}

/// Something that hosts are told of when an item changes.
#[derive(Clone, Debug, PartialEq, Eq)]
pub enum Signal {
    NewTitle,
    NewIcon,
    NewToolTip,
    NewStatus(String),
}

/// The model of a [`Signal`].
#[verifier::ext_equal]
pub enum SignalView {
    NewTitle,
    NewIcon,
    NewToolTip,
    NewStatus(Seq<char>),
}

impl View for Signal {
    type V = SignalView;

    open spec fn view(&self) -> SignalView {
        match *self {
            Signal::NewTitle => SignalView::NewTitle,
            Signal::NewIcon => SignalView::NewIcon,
            Signal::NewToolTip => SignalView::NewToolTip,
            Signal::NewStatus(status) => SignalView::NewStatus(status@),
        }
    }
}

/// A method call on the bus with one text argument.
#[derive(Clone, Debug, PartialEq, Eq)]
pub struct Call {
    pub destination: String,
    pub path: String,
    pub interface: String,
    pub method: String,
    pub argument: String,
}

/// Whether a character may stand in an object path beside the slash.
pub open spec fn is_path_char(c: char) -> bool {
    ||| 'a' <= c && c <= 'z'
    ||| 'A' <= c && c <= 'Z'
    ||| '0' <= c && c <= '9'
    ||| c == '_'
}

/// Whether a text is an object path: it starts with a slash, and consists of
/// names that single slashes set apart; a slash alone will do.
pub open spec fn is_object_path(path: Seq<char>) -> bool {
    &&& path.len() > 0
    &&& path[0] == '/'
    &&& path.len() > 1 ==> path.last() != '/'
    &&& forall|i: int|
        0 <= i < path.len() ==> #[trigger] path[i] == '/' || is_path_char(path[i])
    &&& forall|i: int, j: int|
        0 <= i && j == i + 1 && j < path.len() && #[trigger] path[i] == '/' ==> #[trigger] path[j]
            != '/'
}

/// Calls `OwnedObjectPath::try_from` of zbus's zvariant on a text, and gives the
/// text of the path that came of it. The claim is that it takes exactly the
/// texts that are object paths and keeps them as they are.
#[verifier::external_body]
fn object_path(text: &str) -> (path: Option<String>)
    ensures
        path is Some <==> is_object_path(text@),
        path matches Some(found) ==> found@ == text@,
{
    OwnedObjectPath::try_from(text).ok().map(|path| path.as_str().to_owned())
}

/// Copies a pixmap.
fn copy_pixmap(pixmap: &Pixmap) -> (copy: Pixmap)
    ensures
        pixmap_model(copy) == pixmap_model(*pixmap),
{
    let mut copy: Pixmap = Vec::new();
    let len: usize = pixmap.len();
    for i in 0..len
        invariant
            len == pixmap@.len(),
            copy@.len() == i,
            forall|k: int|
                0 <= k < i ==> image_model(#[trigger] copy@[k]) == image_model(pixmap@[k]),
    {
        let bytes: Vec<u8> = pixmap[i].2.clone();
        assert(bytes@ =~= pixmap@[i as int].2@);
        copy.push((pixmap[i].0, pixmap[i].1, bytes));
    }
    assert(pixmap_model(copy) =~= pixmap_model(*pixmap));
    copy
}

/// A pixmap of a single image.
pub(crate) fn one_image(width: i32, height: i32, argb32: Vec<u8>) -> (pixmap: Pixmap)
    ensures
        pixmap_model(pixmap) == seq![(width, height, argb32@)],
{
    let mut pixmap: Pixmap = Vec::new();
    pixmap.push((width, height, argb32));
    assert(pixmap_model(pixmap) =~= seq![(width, height, argb32@)]);
    pixmap
}

impl<A: ItemActions> StatusNotifierItem<A> {
    /// Builds an item from its initial state and interaction handler. It starts
    /// out active.
    pub fn new(
        id: String,
        title: String,
        category: String,
        icon: Pixmap,
        actions: A,
    ) -> (item: StatusNotifierItem<A>)
        ensures
            item@ == (ItemView {
                id: id@,
                title: title@,
                category: category@,
                status: "Active"@,
                icon: pixmap_model(icon),
                actions,
            }),
    {
        StatusNotifierItem { id, title, category, status: "Active".to_owned(), icon, actions }
    }

    pub fn category(&self) -> (category: &str)
        ensures
            category@ == self@.category,
    {
        self.category.as_str()
    }

    pub fn id(&self) -> (id: &str)
        ensures
            id@ == self@.id,
    {
        self.id.as_str()
    }

    pub fn title(&self) -> (title: &str)
        ensures
            title@ == self@.title,
    {
        self.title.as_str()
    }

    pub fn status(&self) -> (status: &str)
        ensures
            status@ == self@.status,
    {
        self.status.as_str()
    }

    /// No window: hosts have no use for the X11 one.
    pub fn window_id(&self) -> (id: u32)
        ensures
            id == 0,
    {
        0
    }

    /// No name: the icon is given by its pixels.
    pub fn icon_name(&self) -> (name: &str)
        ensures
            name@ == ""@,
    {
        ""
    }

    pub fn icon_pixmap(&self) -> (pixmap: Pixmap)
        ensures
            pixmap_model(pixmap) == self@.icon,
    {
        copy_pixmap(&self.icon)
    }

    pub fn overlay_icon_name(&self) -> (name: &str)
        ensures
            name@ == ""@,
    {
        ""
    }

    pub fn attention_icon_name(&self) -> (name: &str)
        ensures
            name@ == ""@,
    {
        ""
    }

    pub fn attention_movie_name(&self) -> (name: &str)
        ensures
            name@ == ""@,
    {
        ""
    }

    /// The tool tip: an icon's name and pixels, a heading and a text. The heading
    /// is the item's title, the rest is empty.
    pub fn tool_tip(&self) -> (tip: (String, Pixmap, String, String))
        ensures
            tip.0@ == Seq::<char>::empty(),
            tip.1@.len() == 0,
            tip.2@ == self@.title,
            tip.3@ == Seq::<char>::empty(),
    {
        (String::new(), Vec::new(), self.title.clone(), String::new())
    }

    /// Clicks are forwarded to the icon; there is no menu on the bus.
    pub fn item_is_menu(&self) -> (is_menu: bool)
        ensures
            !is_menu,
    {
        false
    }

    /// The path of the menu that there is none of.
    pub fn menu(&self) -> (path: String)
        ensures
            path@ == NO_MENU@,
            is_object_path(path@),
    {
        proof {
            reveal_strlit("/NO_DBUSMENU");
        }
        object_path(NO_MENU).unwrap()
    }

    /// The primary action: the handler is called. Where on the screen the action
    /// was asked for does not matter.
    pub fn activate(&self, _x: i32, _y: i32) -> (effect: A::Effect)
        ensures
            call_ensures(A::activate, (&self@.actions,), effect),
    {
        self.actions.activate()
    }

    /// The secondary action.
    pub fn secondary_activate(&self, _x: i32, _y: i32) -> (effect: A::Effect)
        ensures
            call_ensures(A::secondary_activate, (&self@.actions,), effect),
    {
        self.actions.secondary_activate()
    }

    /// The context menu.
    pub fn context_menu(&self, _x: i32, _y: i32) -> (effect: A::Effect)
        ensures
            call_ensures(A::context_menu, (&self@.actions,), effect),
    {
        self.actions.context_menu()
    }

    /// Scrolling: horizontal where the orientation says so, in whatever case, and
    /// vertical otherwise.
    pub fn scroll(&self, delta: i32, orientation: String) -> (effect: A::Effect)
        ensures
            call_ensures(
                A::scroll,
                (&self@.actions, delta, text::same_but_case(orientation@, "horizontal"@)),
                effect,
            ),
    {
        let horizontal: bool = text::eq_ignore_ascii_case(orientation.as_str(), "horizontal");
        self.actions.scroll(delta, horizontal)
    }
}

/// The bus name of an item of a process.
pub open spec fn item_name(pid: nat, seq: nat) -> Seq<char> {
    "org.kde.StatusNotifierItem-"@ + text::decimal(pid) + "-"@ + text::decimal(seq)
}

/// A published item: what it serves, and the name that it is served under.
///
/// Giving it up (by [`PublishedItem::remove`]) releases the name, and hosts see
/// the item disappear.
pub struct PublishedItem<A: ItemActions> {
    name: String,
    item: StatusNotifierItem<A>,
}

/// The model of a [`PublishedItem`].
#[verifier::ext_equal]
pub struct PublishedView<A> {
    pub name: Seq<char>,
    pub item: ItemView<A>,
}

impl<A: ItemActions> View for PublishedItem<A> {
    type V = PublishedView<A>;

    closed spec fn view(&self) -> PublishedView<A> {
        PublishedView { name: self.name@, item: self.item@ }
    }
}

/// The models of several signals.
pub open spec fn signals_model(signals: Seq<Signal>) -> Seq<SignalView> {
    Seq::new(signals.len(), |i: int| signals[i]@)
}

impl<A: ItemActions> PublishedItem<A> {
    /// An item under the name `org.kde.StatusNotifierItem-<pid>-<seq>`. Serving it
    /// and registering it with the watcher are up to the caller; that no watcher
    /// runs yet is not fatal, for an item can be registered later.
    pub fn publish(pid: u32, seq: u64, item: StatusNotifierItem<A>) -> (published: PublishedItem<A>)
        ensures
            published@ == (PublishedView { name: item_name(pid as nat, seq as nat), item: item@ }),
    {
        let mut name: String = "org.kde.StatusNotifierItem-".to_owned();
        let process: String = text::decimal_text(pid as u64);
        let number: String = text::decimal_text(seq);
        name.append(process.as_str());
        name.append("-");
        name.append(number.as_str());
        PublishedItem { name, item }
    }

    /// The well-known bus name that this item is published under.
    pub fn name(&self) -> (name: &str)
        ensures
            name@ == self@.name,
    {
        self.name.as_str()
    }

    /// The item that is published.
    pub fn item(&self) -> (item: &StatusNotifierItem<A>)
        ensures
            item@ == self@.item,
    {
        &self.item
    }

    /// The call that registers this item with the watcher, or does so again (for
    /// instance after a host appears).
    pub fn register(&self) -> (call: Call)
        ensures
            registers(call, self@.name),
    {
        register_with_watcher(self.name.as_str())
    }

    /// Replaces the item's icon; hosts are to be told by the signals.
    pub fn set_icon(&mut self, width: i32, height: i32, argb32: Vec<u8>) -> (signals: Vec<Signal>)
        ensures
            final(self)@ == (PublishedView {
                item: ItemView { icon: seq![(width, height, argb32@)], ..old(self)@.item },
                ..old(self)@
            }),
            signals_model(signals@) == seq![SignalView::NewIcon],
    {
        self.item.icon = one_image(width, height, argb32);
        let signals: Vec<Signal> = vec![Signal::NewIcon];
        assert(signals_model(signals@) =~= seq![SignalView::NewIcon]);
        signals
    }

    /// Replaces the item's title; hosts are to be told by the signals.
    pub fn set_title(&mut self, title: String) -> (signals: Vec<Signal>)
        ensures
            final(self)@ == (PublishedView {
                item: ItemView { title: title@, ..old(self)@.item },
                ..old(self)@
            }),
            signals_model(signals@) == seq![SignalView::NewTitle, SignalView::NewToolTip],
    {
        self.item.title = title;
        let signals: Vec<Signal> = vec![Signal::NewTitle, Signal::NewToolTip];
        assert(signals_model(signals@) =~= seq![SignalView::NewTitle, SignalView::NewToolTip]);
        signals
    }

    /// Sets the item's status (`Active`, `Passive` or `NeedsAttention`); hosts are
    /// to be told by the signals.
    pub fn set_status(&mut self, status: &str) -> (signals: Vec<Signal>)
        ensures
            final(self)@ == (PublishedView {
                item: ItemView { status: status@, ..old(self)@.item },
                ..old(self)@
            }),
            signals_model(signals@) == seq![SignalView::NewStatus(status@)],
    {
        self.item.status = status.to_owned();
        let signals: Vec<Signal> = vec![Signal::NewStatus(status.to_owned())];
        assert(signals_model(signals@) =~= seq![SignalView::NewStatus(status@)]);
        signals
    }

    /// Gives the item up: this is the name to release.
    pub fn remove(self) -> (name: String)
        ensures
            name@ == self@.name,
    {
        self.name
    }
}

/// Whether a call registers the item of the given name with the watcher.
pub open spec fn registers(call: Call, name: Seq<char>) -> bool {
    &&& call.destination@ == WATCHER_NAME@
    &&& call.path@ == WATCHER_PATH@
    &&& call.interface@ == WATCHER_NAME@
    &&& call.method@ == REGISTER_METHOD@
    &&& call.argument@ == name
}

/// The call of `RegisterStatusNotifierItem` on the watcher for `name`.
pub fn register_with_watcher(name: &str) -> (call: Call)
    ensures
        registers(call, name@),
{
    Call {
        destination: WATCHER_NAME.to_owned(),
        path: WATCHER_PATH.to_owned(),
        interface: WATCHER_NAME.to_owned(),
        method: REGISTER_METHOD.to_owned(),
        argument: name.to_owned(),
    }
}

/// No two items share a name, whatever processes they are of.
pub proof fn law_item_names_differ(p: nat, a: nat, q: nat, b: nat)
    requires
        p != q || a != b,
    ensures
        item_name(p, a) != item_name(q, b),
{
    let prefix = "org.kde.StatusNotifierItem-"@;
    let left = text::decimal(p) + "-"@ + text::decimal(a);
    let right = text::decimal(q) + "-"@ + text::decimal(b);
    reveal_strlit("-");
    if item_name(p, a) == item_name(q, b) {
        assert(left =~= item_name(p, a).skip(prefix.len() as int));
        assert(right =~= item_name(q, b).skip(prefix.len() as int));
        lemma_number_ends(p, a, q, b);
        lemma_number_ends(q, b, p, a);
        let len = text::decimal(p).len() as int;
        assert(text::decimal(p) =~= left.take(len));
        assert(text::decimal(q) =~= right.take(len));
        assert(text::decimal(a) =~= left.skip(len + 1));
        assert(text::decimal(b) =~= right.skip(len + 1));
        text::law_decimal_is_injective(p, q);
        text::law_decimal_is_injective(a, b);
    }
}

/// A number that a dash follows does not end after one that starts another such
/// text does.
proof fn lemma_number_ends(p: nat, a: nat, q: nat, b: nat)
    requires
        text::decimal(p) + "-"@ + text::decimal(a) == text::decimal(q) + "-"@ + text::decimal(b),
    ensures
        text::decimal(q).len() <= text::decimal(p).len(),
{
    reveal_strlit("-");
    let left = text::decimal(p) + "-"@ + text::decimal(a);
    let right = text::decimal(q) + "-"@ + text::decimal(b);
    let len = text::decimal(p).len() as int;
    if len < text::decimal(q).len() {
        assert(left[len] == '-');
        assert(right[len] == text::decimal(q)[len]);
        text::lemma_decimal_has_digits(q, len);
    }
}

/// An item's name is that of the interface, the number of the process and its own
/// number, in decimal and with dashes between.
pub proof fn law_how_items_are_named(pid: nat, seq: nat)
    ensures
        item_name(pid, seq) == "org.kde.StatusNotifierItem-"@ + text::decimal(pid) + "-"@
            + text::decimal(seq),
{
}

/// An item is registered by handing its name to the watcher's one method for that.
pub proof fn law_how_items_are_registered(call: Call, name: Seq<char>)
    requires
        registers(call, name),
    ensures
        call.destination@ == "org.kde.StatusNotifierWatcher"@,
        call.path@ == "/StatusNotifierWatcher"@,
        call.interface@ == "org.kde.StatusNotifierWatcher"@,
        call.method@ == "RegisterStatusNotifierItem"@,
        call.argument@ == name,
{
}

/// A pixmap is shown image by image, each with its size and its bytes.
pub proof fn law_pixmaps_are_shown_as_they_are(pixmap: Pixmap, i: int)
    requires
        0 <= i < pixmap@.len(),
    ensures
        pixmap_model(pixmap).len() == pixmap@.len(),
        pixmap_model(pixmap)[i].0 == pixmap@[i].0,
        pixmap_model(pixmap)[i].1 == pixmap@[i].1,
        pixmap_model(pixmap)[i].2 == pixmap@[i].2@,
{
}

/// A new item shows what it was made of, and is active. It has no window, no names of
/// icons and no menu, and its tool tip is headed by its title.
pub proof fn law_new_item_shows_what_it_is_made_of<A: ItemActions>(
    id: String,
    title: String,
    category: String,
    icon: Pixmap,
    actions: A,
    item: StatusNotifierItem<A>,
    text: &str,
    pixmap: Pixmap,
    tip: (String, Pixmap, String, String),
    path: String,
    number: u32,
    flag: bool,
)
    requires
        call_ensures(StatusNotifierItem::<A>::new, (id, title, category, icon, actions), item),
    ensures
        item@.actions == actions,
        call_ensures(StatusNotifierItem::<A>::id, (&item,), text) ==> text@ == id@,
        call_ensures(StatusNotifierItem::<A>::title, (&item,), text) ==> text@ == title@,
        call_ensures(StatusNotifierItem::<A>::category, (&item,), text) ==> text@ == category@,
        call_ensures(StatusNotifierItem::<A>::status, (&item,), text) ==> text@ == "Active"@,
        call_ensures(StatusNotifierItem::<A>::icon_name, (&item,), text) ==> text@ == ""@,
        call_ensures(StatusNotifierItem::<A>::overlay_icon_name, (&item,), text) ==> text@ == ""@,
        call_ensures(StatusNotifierItem::<A>::attention_icon_name, (&item,), text) ==> text@
            == ""@,
        call_ensures(StatusNotifierItem::<A>::attention_movie_name, (&item,), text) ==> text@
            == ""@,
        call_ensures(StatusNotifierItem::<A>::icon_pixmap, (&item,), pixmap) ==> {
            &&& pixmap@.len() == icon@.len()
            &&& forall|i: int|
                0 <= i < icon@.len() ==> {
                    &&& (#[trigger] pixmap@[i]).0 == icon@[i].0
                    &&& pixmap@[i].1 == icon@[i].1
                    &&& pixmap@[i].2@ == icon@[i].2@
                }
        },
        call_ensures(StatusNotifierItem::<A>::tool_tip, (&item,), tip) ==> tip.0@.len() == 0
            && tip.1@.len() == 0 && tip.2@ == title@ && tip.3@.len() == 0,
        call_ensures(StatusNotifierItem::<A>::menu, (&item,), path) ==> path@ == "/NO_DBUSMENU"@,
        call_ensures(StatusNotifierItem::<A>::window_id, (&item,), number) ==> number == 0,
        call_ensures(StatusNotifierItem::<A>::item_is_menu, (&item,), flag) ==> !flag,
{
    if call_ensures(StatusNotifierItem::<A>::icon_pixmap, (&item,), pixmap) {
        assert(pixmap_model(pixmap).len() == pixmap_model(icon).len());
        assert forall|i: int| 0 <= i < icon@.len() implies {
            &&& (#[trigger] pixmap@[i]).0 == icon@[i].0
            &&& pixmap@[i].1 == icon@[i].1
            &&& pixmap@[i].2@ == icon@[i].2@
        } by {
            assert(pixmap_model(pixmap)[i] == pixmap_model(icon)[i]);
        }
    }
}

/// What is set of a published item is what it shows from then on. The rest of it, and its
/// name, stay; and hosts are told of what changed, and of the tool tip where the title
/// did.
pub proof fn law_what_is_set_is_shown<A: ItemActions>(
    published: &mut PublishedItem<A>,
    width: i32,
    height: i32,
    argb32: Vec<u8>,
    title: String,
    status: &str,
    signals: Vec<Signal>,
)
    ensures
        call_ensures(
            PublishedItem::<A>::set_icon,
            (published, width, height, argb32),
            signals,
        ) ==> {
            &&& final(published)@.name == old(published)@.name
            &&& final(published)@.item.icon.len() == 1
            &&& final(published)@.item.icon[0].0 == width
            &&& final(published)@.item.icon[0].1 == height
            &&& final(published)@.item.icon[0].2 == argb32@
            &&& final(published)@.item.title == old(published)@.item.title
            &&& final(published)@.item.status == old(published)@.item.status
            &&& final(published)@.item.id == old(published)@.item.id
            &&& final(published)@.item.category == old(published)@.item.category
            &&& final(published)@.item.actions == old(published)@.item.actions
            &&& signals@.len() == 1 && signals@[0] is NewIcon
        },
        call_ensures(PublishedItem::<A>::set_title, (published, title), signals) ==> {
            &&& final(published)@.name == old(published)@.name
            &&& final(published)@.item.title == title@
            &&& final(published)@.item.icon == old(published)@.item.icon
            &&& final(published)@.item.status == old(published)@.item.status
            &&& final(published)@.item.id == old(published)@.item.id
            &&& final(published)@.item.category == old(published)@.item.category
            &&& final(published)@.item.actions == old(published)@.item.actions
            &&& signals@.len() == 2 && signals@[0] is NewTitle && signals@[1] is NewToolTip
        },
        call_ensures(PublishedItem::<A>::set_status, (published, status), signals) ==> {
            &&& final(published)@.name == old(published)@.name
            &&& final(published)@.item.status == status@
            &&& final(published)@.item.title == old(published)@.item.title
            &&& final(published)@.item.icon == old(published)@.item.icon
            &&& final(published)@.item.id == old(published)@.item.id
            &&& final(published)@.item.category == old(published)@.item.category
            &&& final(published)@.item.actions == old(published)@.item.actions
            &&& signals@.len() == 1
            &&& signals@[0] matches Signal::NewStatus(told) && told@ == status@
        },
{
    let model = signals_model(signals@);
    assert(model.len() == signals@.len());
    if signals@.len() > 0 {
        assert(model[0] == signals@[0]@);
    }
    if signals@.len() > 1 {
        assert(model[1] == signals@[1]@);
    }
}

/// An item is published under its name, shows what it did before, and gives that name
/// back in the end.
pub proof fn law_items_keep_their_names<A: ItemActions>(
    pid: u32,
    seq: u64,
    item: StatusNotifierItem<A>,
    published: PublishedItem<A>,
    name: &str,
    released: String,
    shown: &StatusNotifierItem<A>,
    call: Call,
)
    requires
        call_ensures(PublishedItem::<A>::publish, (pid, seq, item), published),
    ensures
        call_ensures(PublishedItem::<A>::item, (&published,), shown) ==> shown@ == item@,
        call_ensures(PublishedItem::<A>::name, (&published,), name) ==> name@
            == "org.kde.StatusNotifierItem-"@ + text::decimal(pid as nat) + "-"@ + text::decimal(
            seq as nat,
        ),
        call_ensures(PublishedItem::<A>::name, (&published,), name) && call_ensures(
            PublishedItem::<A>::remove,
            (published,),
            released,
        ) ==> released@ == name@,
        call_ensures(PublishedItem::<A>::name, (&published,), name) && call_ensures(
            PublishedItem::<A>::register,
            (&published,),
            call,
        ) ==> call.argument@ == name@ && call.destination@ == "org.kde.StatusNotifierWatcher"@
            && call.method@ == "RegisterStatusNotifierItem"@,
{
}

} // verus!
