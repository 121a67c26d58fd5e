//! What holds of a tray host as a whole.

use crate::capture::{Icon, ImageStepView, ImageTask, Target};
use crate::capture;
use crate::embed::{EmbedStepView, EmbedTaskView};
use crate::embed;
use crate::host;
use crate::host::{
    NextView, Pending, PendingView, TableView, TrayHost, Turn, TurnView, Waker,
};
use crate::icon::{IconEvent, IconEventView, ImageView};
use crate::net_icon;
use crate::props;
use crate::request::{Desktop, Reply, Request, ServerEvent, NONE};
use crate::title::TitleStepView;
use crate::title;
use crate::wire;
use vstd::prelude::*;

verus! {

/// The icons that are held, as far as one can tell from what was held before and
/// what was reported.
pub open spec fn told(held: Set<u32>, report: Option<IconEventView>) -> Set<u32> {
    match report {
        Some(IconEventView::Added { meta, .. }) => held.insert(meta.id),
        Some(IconEventView::Removed { id }) => held.remove(id),
        _ => held,
    }
}

/// The icon that a report about an icon that is already held names.
pub open spec fn spoken_of(report: Option<IconEventView>) -> Option<u32> {
    match report {
        Some(IconEventView::Updated { id, .. }) => Some(id),
        Some(IconEventView::TitleChanged { id, .. }) => Some(id),
        Some(IconEventView::VisibilityChanged { id, .. }) => Some(id),
        _ => None,
    }
}

/// The held icon that something pending is about.
pub open spec fn concerned(pending: PendingView) -> Option<u32> {
    match pending {
        PendingView::Embed(task) => None,
        PendingView::Measure { icon } => Some(icon),
        PendingView::Refresh { icon, .. } => Some(icon),
        PendingView::Visibility { icon } => Some(icon),
        PendingView::Title { icon, .. } => Some(icon),
    }
}

/// Whether an icon, where there is one, is held.
pub open spec fn is_held(table: TableView, icon: Option<u32>) -> bool {
    icon matches Some(icon) ==> table.icons.contains_key(icon)
}

/// Whether what a turn waits for is about an icon that is held, or about one to
/// be embedded that is not.
pub open spec fn waits_well(table: TableView, turn: TurnView) -> bool {
    match turn.next {
        NextView::Ask { pending, .. } => awaited_well(table, pending),
        _ => true,
    }
}

/// Whether something pending is about an icon that is held, or about one to be
/// embedded that is not.
pub open spec fn awaited_well(table: TableView, pending: PendingView) -> bool {
    match pending {
        PendingView::Embed(task) => !table.icons.contains_key(embed::task_icon(task)),
        _ => is_held(table, concerned(pending)),
    }
}

/// Whether a reply that completes an embedding names a damage object that no
/// held icon has; the server hands out each id once.
pub open spec fn fresh_damage(
    desk: Desktop,
    table: TableView,
    pending: PendingView,
    reply: Reply,
) -> bool {
    match pending {
        PendingView::Embed(task) => embed::embed_step(desk, task, reply) matches
            EmbedStepView::Embedded { state, .. } ==> !table.damages.contains_key(state.damage),
        _ => true,
    }
}

/// No event breaks the table: each damage object that is listed belongs to an
/// icon that is held, and each icon that is held has its damage object listed.
/// What is waited for afterwards is about such an icon.
pub proof fn law_events_keep_the_table(
    desk: Desktop,
    selection: u32,
    table: TableView,
    event: ServerEvent,
)
    requires
        table.well_formed(),
    ensures
        host::react(desk, selection, table, event).0.well_formed(),
        table.complete() ==> host::react(desk, selection, table, event).0.complete(),
        waits_well(
            host::react(desk, selection, table, event).0,
            host::react(desk, selection, table, event).1,
        ),
{
    match event {
        ServerEvent::DestroyNotify { window } => lemma_removal(table, window),
        ServerEvent::ReparentNotify { window, .. } => lemma_removal(table, window),
        _ => {},
    }
}

/// Neither does a reply. An icon that joins is listed in its turn, as the server
/// hands out each id once.
pub proof fn law_replies_keep_the_table(
    desk: Desktop,
    table: TableView,
    pending: PendingView,
    reply: Reply,
)
    requires
        table.well_formed(),
        awaited_well(table, pending),
    ensures
        host::go_on(desk, table, pending, reply).0.well_formed(),
        table.complete() && fresh_damage(desk, table, pending, reply) ==> host::go_on(desk, table, pending, reply).0.complete(),
        waits_well(
            host::go_on(desk, table, pending, reply).0,
            host::go_on(desk, table, pending, reply).1,
        ),
{
    if let PendingView::Embed(task) = pending {
        embed::law_embedding_keeps_icon(desk, task, reply);
    }
}

/// Letting go of an icon that is held keeps the table in order.
proof fn lemma_removal(table: TableView, icon: u32)
    requires
        table.well_formed(),
    ensures
        table.icons.contains_key(icon) ==> {
            &&& table.remove_icon(icon).well_formed()
            &&& table.complete() ==> table.remove_icon(icon).complete()
        },
{
}

/// What is reported tells exactly which icons are held: one joins when it is
/// reported as added and leaves when it is reported as removed, and only then.
/// Only an icon that is held is reported as removed. No event adds one by
/// itself.
pub proof fn law_events_are_told(
    desk: Desktop,
    selection: u32,
    table: TableView,
    event: ServerEvent,
)
    ensures
        host::react(desk, selection, table, event).0.icons.dom() == told(
            table.icons.dom(),
            host::react(desk, selection, table, event).1.emit,
        ),
        host::react(desk, selection, table, event).1.emit matches Some(
            IconEventView::Removed { id },
        ) ==> table.icons.contains_key(id),
        !(host::react(desk, selection, table, event).1.emit matches Some(
            IconEventView::Added { .. },
        )),
{
}

/// The same of replies: only an embedding adds an icon, and none removes one.
/// Every other report is about an icon that is held.
pub proof fn law_replies_are_told(
    desk: Desktop,
    table: TableView,
    pending: PendingView,
    reply: Reply,
)
    requires
        awaited_well(table, pending),
    ensures
        host::go_on(desk, table, pending, reply).0.icons.dom() == told(
            table.icons.dom(),
            host::go_on(desk, table, pending, reply).1.emit,
        ),
        host::go_on(desk, table, pending, reply).1.emit matches Some(
            IconEventView::Added { meta, .. },
        ) ==> pending is Embed && !table.icons.contains_key(meta.id),
        !(host::go_on(desk, table, pending, reply).1.emit matches Some(
            IconEventView::Removed { .. },
        )),
        is_held(table, spoken_of(host::go_on(desk, table, pending, reply).1.emit)),
{
    let after = host::go_on(desk, table, pending, reply).0;
    match pending {
        PendingView::Embed(task) => embed::law_embedding_keeps_icon(desk, task, reply),
        PendingView::Measure { icon } => {
            assert(after.icons.dom() =~= table.icons.dom());
        },
        PendingView::Visibility { icon } => {
            assert(after.icons.dom() =~= table.icons.dom());
        },
        _ => {},
    }
}

/// A request to dock no window, or one that is already held, changes nothing and
/// asks nothing.
pub proof fn law_nothing_is_docked_twice(
    desk: Desktop,
    selection: u32,
    table: TableView,
    data: [u32; 5],
)
    requires
        desk.atoms.net_system_tray_opcode != desk.atoms.xembsni_wakeup,
        data[1] == host::SYSTEM_TRAY_REQUEST_DOCK,
        data[2] == NONE || table.icons.contains_key(data[2]),
    ensures
        host::react(
            desk,
            selection,
            table,
            ServerEvent::ClientMessage { type_: desk.atoms.net_system_tray_opcode, data },
        ) == (table, host::idle()),
{
}

/// While an embedding goes on, and where it fails, the table stays as it was and
/// nothing is reported.
pub proof fn law_failed_dock_leaves_no_trace(
    desk: Desktop,
    table: TableView,
    task: EmbedTaskView,
    reply: Reply,
)
    ensures
        !(embed::embed_step(desk, task, reply) is Embedded) ==> {
            let (after, turn) = host::go_on(desk, table, PendingView::Embed(task), reply);
            after == table && turn.emit is None
        },
{
}

/// An icon that is embedded and then lost leaves the table as it was before.
pub proof fn law_loss_undoes_dock(table: TableView, icon: u32, state: Icon)
    requires
        !table.icons.contains_key(icon),
        !table.damages.contains_key(state.damage),
    ensures
        host::react_to_loss(table.add_icon(icon, state), icon).0 == table,
{
    assert(table.add_icon(icon, state).remove_icon(icon) =~= table);
}

/// A host stops when it is woken or when its selection is lost, and at no other
/// event; the loss is reported.
pub proof fn law_when_a_host_stops(
    desk: Desktop,
    selection: u32,
    table: TableView,
    event: ServerEvent,
)
    ensures
        host::react(desk, selection, table, event).1.next is Stop <==> {
            ||| event matches ServerEvent::ClientMessage { type_, .. } && type_
                == desk.atoms.xembsni_wakeup
            ||| event == ServerEvent::SelectionClear { selection }
        },
        host::react(desk, selection, table, event).1.emit == Some(IconEventView::SelectionLost)
            <==> event == (ServerEvent::SelectionClear { selection }),
{
}

/// No reply stops a host.
pub proof fn law_replies_do_not_stop(
    desk: Desktop,
    table: TableView,
    pending: PendingView,
    reply: Reply,
)
    ensures
        !(host::go_on(desk, table, pending, reply).1.next is Stop),
{
}

/// A change of visibility is reported exactly where an icon wants other than it
/// had. It is then mapped or unmapped, and what it has is what it wants.
pub proof fn law_visibility_follows_wish(table: TableView, icon: u32, reply: Reply)
    requires
        table.icons.contains_key(icon),
    ensures
        host::react_to_info(table, icon, reply).0.icons[icon].mapped == props::wants_mapped(reply),
        table.icons[icon].mapped == props::wants_mapped(reply) ==> host::react_to_info(
            table,
            icon,
            reply,
        ) == (table, host::idle()),
        table.icons[icon].mapped != props::wants_mapped(reply) ==> {
            let turn = host::react_to_info(table, icon, reply).1;
            &&& turn.emit == Some(
                IconEventView::VisibilityChanged {
                    id: icon,
                    visible: props::wants_mapped(reply),
                },
            )
            &&& turn.forget[0] == if props::wants_mapped(reply) {
                Request::MapWindow { window: icon }
            } else {
                Request::UnmapWindow { window: icon }
            }
        },
{
}

/// Whether a window is moved to the root at the `k`th request, and its container is
/// destroyed right after.
pub open spec fn moved_first(
    requests: Seq<Request>,
    root: u32,
    window: u32,
    container: u32,
    k: int,
) -> bool {
    &&& 0 <= k < requests.len() - 1
    &&& requests[k] == Request::ReparentWindow { window, parent: root, x: 0, y: 0 }
    &&& requests[k + 1] == Request::DestroyWindow { window: container }
}

/// On shutdown every icon is given back to the root window, before its container
/// goes.
pub proof fn law_every_icon_is_rescued(
    root: u32,
    icons: Map<u32, Icon>,
    order: Seq<u32>,
    icon: u32,
)
    requires
        order.contains(icon),
    ensures
        exists|k: int| #[trigger]
            moved_first(
                host::rescue_all(root, icons, order),
                root,
                icon,
                icons[icon].container,
                k,
            ),
        host::rescue_all(root, icons, order).contains(
            Request::DestroyDamage { damage: icons[icon].damage },
        ),
    decreases order.len(),
{
    let front = order.drop_last();
    let before = host::rescue_all(root, icons, front);
    let after = host::rescue(root, order.last(), icons[order.last()]);
    assert(host::rescue_all(root, icons, order) == before + after);
    if order.last() == icon {
        let k = before.len() as int + 1;
        assert((before + after)[k - 1] == after[0]);
        assert(moved_first(before + after, root, icon, icons[icon].container, k));
    } else {
        let i = choose|i: int| 0 <= i < order.len() && order[i] == icon;
        assert(front[i] == icon);
        law_every_icon_is_rescued(root, icons, front, icon);
        assert forall|request: Request| before.contains(request) implies (before
            + after).contains(request) by {
            let k = choose|k: int| 0 <= k < before.len() && before[k] == request;
            assert((before + after)[k] == request);
        }
        let container = icons[icon].container;
        let k = choose|k: int| moved_first(before, root, icon, container, k);
        assert((before + after)[k] == before[k] && (before + after)[k + 1] == before[k + 1]);
        assert(moved_first(before + after, root, icon, container, k));
    }
}

/// How a turn ends after at most `questions` more questions. The server answers the
/// `n`th question as `answers` says; `asked` were asked before.
pub open spec fn settle(
    desk: Desktop,
    answers: spec_fn(nat, Request) -> Reply,
    table: TableView,
    turn: TurnView,
    asked: nat,
    questions: nat,
) -> (TableView, TurnView)
    decreases questions,
{
    match turn.next {
        NextView::Ask { requests, pending } => if questions == 0 {
            (table, turn)
        } else {
            let (after, next) = host::go_on(
                desk,
                table,
                pending,
                answers(asked, requests.last()),
            );
            settle(desk, answers, after, next, asked + 1, (questions - 1) as nat)
        },
        _ => (table, turn),
    }
}

/// The report that an icon's graphic is worth.
pub open spec fn graphic_report(icon: u32, image: Option<ImageView>) -> Option<IconEventView> {
    match image {
        Some(image) => Some(IconEventView::Updated { id: icon, image }),
        None => None,
    }
}

/// Damage to an icon is acknowledged, and brings a report of what the icon now
/// shows, at the size that it now has.
pub proof fn law_damage_brings_graphic(
    desk: Desktop,
    answers: spec_fn(nat, Request) -> Reply,
    table: TableView,
    damage: u32,
    asked: nat,
    questions: nat,
)
    requires
        table.well_formed(),
        table.damages.contains_key(damage),
        questions >= 5,
    ensures
        ({
            let icon = table.damages[damage];
            let state = host::measured(
                table.icons[icon],
                answers(asked, Request::GetGeometry { window: icon }),
            );
            let turn = host::react_to_damage(table, damage);
            let (after, last) = settle(desk, answers, table, turn, asked, questions);
            &&& turn.forget == seq![Request::SubtractDamage { damage }]
            &&& after == table.change_icon(icon, state)
            &&& last.emit == graphic_report(
                icon,
                capture::graphic_of(desk.atoms, answers, icon, state, asked + 1).0,
            )
            &&& last.next is Wait
        }),
{
    let icon = table.damages[damage];
    let request = Request::GetGeometry { window: icon };
    let turn = host::react_to_damage(table, damage);
    let state = host::measured(table.icons[icon], answers(asked, request));
    let now = table.change_icon(icon, state);
    assert(turn.next == NextView::Ask {
        requests: seq![request],
        pending: PendingView::Measure { icon },
    });
    assert(seq![request].last() == request);
    lemma_refresh(desk, answers, now, icon, asked + 1, (questions - 1) as nat);
}

/// A changed `_NET_WM_ICON` brings a report of the icon's graphic.
pub proof fn law_window_icon_brings_graphic(
    desk: Desktop,
    answers: spec_fn(nat, Request) -> Reply,
    table: TableView,
    icon: u32,
    asked: nat,
    questions: nat,
)
    requires
        desk.atoms.net_wm_icon != desk.atoms.xembed_info,
        table.icons.contains_key(icon),
        questions >= 4,
    ensures
        ({
            let turn = host::react_to_property(desk, table, icon, desk.atoms.net_wm_icon);
            let (after, last) = settle(desk, answers, table, turn, asked, questions);
            &&& after == table
            &&& last.emit == graphic_report(
                icon,
                capture::graphic_of(desk.atoms, answers, icon, table.icons[icon], asked).0,
            )
            &&& last.next is Wait
        }),
{
    lemma_refresh(desk, answers, table, icon, asked, questions);
}

/// A refresh of an icon that is held brings a report of its graphic.
proof fn lemma_refresh(
    desk: Desktop,
    answers: spec_fn(nat, Request) -> Reply,
    table: TableView,
    icon: u32,
    asked: nat,
    questions: nat,
)
    requires
        table.icons.contains_key(icon),
        questions >= 4,
    ensures
        ({
            let turn = host::refresh_start(desk, table, icon);
            let (after, last) = settle(desk, answers, table, turn, asked, questions);
            &&& after == table
            &&& last.emit == graphic_report(
                icon,
                capture::graphic_of(desk.atoms, answers, icon, table.icons[icon], asked).0,
            )
            &&& last.next is Wait
        }),
{
    let state = table.icons[icon];
    capture::law_capture_first(desk.atoms, answers, icon, state, asked, 4);
    let (image, now) = capture::graphic_of(desk.atoms, answers, icon, state, asked);
    lemma_refresh_settles(
        desk,
        answers,
        table,
        icon,
        capture::image_start(desk.atoms, icon, state),
        image,
        asked,
        now,
        4,
        questions,
    );
}

/// A refresh ends with a report of the graphic that is pursued.
proof fn lemma_refresh_settles(
    desk: Desktop,
    answers: spec_fn(nat, Request) -> Reply,
    table: TableView,
    icon: u32,
    step: ImageStepView,
    image: Option<ImageView>,
    asked: nat,
    now: nat,
    needed: nat,
    questions: nat,
)
    requires
        capture::pursue(desk.atoms, answers, step, asked, needed) == Some((image, now)),
        questions >= needed,
    ensures
        ({
            let (after, last) = settle(
                desk,
                answers,
                table,
                host::refresh_turn(icon, step),
                asked,
                questions,
            );
            &&& after == table
            &&& last.emit == graphic_report(icon, image)
            &&& last.next is Wait
        }),
    decreases needed,
{
    if let ImageStepView::Ask { forget, request, task } = step {
        assert(seq![request].last() == request);
        lemma_refresh_settles(
            desk,
            answers,
            table,
            icon,
            capture::image_step(desk.atoms, task, answers(asked, request)),
            image,
            asked + 1,
            now,
            (needed - 1) as nat,
            (questions - 1) as nat,
        );
    }
}

/// A changed name of an icon brings a report of its human title.
pub proof fn law_name_brings_title(
    desk: Desktop,
    answers: spec_fn(nat, Request) -> Reply,
    table: TableView,
    icon: u32,
    atom: u32,
    asked: nat,
    questions: nat,
)
    requires
        atom == desk.atoms.net_wm_name || atom == desk.atoms.wm_name,
        atom != desk.atoms.xembed_info,
        atom != desk.atoms.net_wm_icon,
        questions >= 3 + 3 * title::top_level(desk, answers, asked).len(),
    ensures
        settle(
            desk,
            answers,
            table,
            host::react_to_property(desk, table, icon, atom),
            asked,
            questions,
        ) == (
            table,
            host::report(
                IconEventView::TitleChanged {
                    id: icon,
                    title: title::human_title(desk, answers, icon, asked),
                },
            ),
        ),
{
    title::law_title_search(desk, answers, icon, asked, questions);
    lemma_title_settles(
        desk,
        answers,
        table,
        icon,
        title::title_start(desk, icon),
        title::human_title(desk, answers, icon, asked),
        asked,
        questions,
    );
}

/// A search ends with a report of the title that is found.
proof fn lemma_title_settles(
    desk: Desktop,
    answers: spec_fn(nat, Request) -> Reply,
    table: TableView,
    icon: u32,
    step: TitleStepView,
    found: Seq<char>,
    asked: nat,
    questions: nat,
)
    requires
        title::search(desk, answers, step, asked, questions) == Some(found),
    ensures
        settle(desk, answers, table, host::title_turn(icon, step), asked, questions) == (
            table,
            host::report(IconEventView::TitleChanged { id: icon, title: found }),
        ),
    decreases questions,
{
    if let TitleStepView::Ask(request, task) = step {
        assert(seq![request].last() == request);
        lemma_title_settles(
            desk,
            answers,
            table,
            icon,
            title::title_step(desk, task, answers(asked, request)),
            found,
            asked + 1,
            (questions - 1) as nat,
        );
    }
}

/// A changed `_XEMBED_INFO` shows or hides the icon as it now asks.
pub proof fn law_info_sets_visibility(
    desk: Desktop,
    answers: spec_fn(nat, Request) -> Reply,
    table: TableView,
    icon: u32,
    asked: nat,
    questions: nat,
)
    requires
        questions >= 1,
    ensures
        settle(
            desk,
            answers,
            table,
            host::react_to_property(desk, table, icon, desk.atoms.xembed_info),
            asked,
            questions,
        ) == host::react_to_info(
            table,
            icon,
            answers(asked, props::xembed_info_request(desk.atoms, icon)),
        ),
{
    let request = props::xembed_info_request(desk.atoms, icon);
    assert(seq![request].last() == request);
    reveal_with_fuel(settle, 2);
}

/// A window that asks to be docked is embedded, and ends up held and reported as
/// added, or not at all.
pub proof fn law_dock_embeds(
    desk: Desktop,
    answers: spec_fn(nat, Request) -> Reply,
    table: TableView,
    icon: u32,
    asked: nat,
    questions: nat,
)
    requires
        icon != NONE,
        !table.icons.contains_key(icon),
    ensures
        settle(
            desk,
            answers,
            table,
            host::react_to_dock(table, icon).1,
            asked,
            questions,
        ) == host::embed_turn(
            table,
            embed::complete(desk, answers, embed::embed_start(icon), asked, questions),
        ),
{
    lemma_embedding_settles(desk, answers, table, embed::embed_start(icon), asked, questions);
}

/// A window that asks to be docked is held in the end, and reported as added with
/// its description, where the server goes along. Nothing else of the table changes.
pub proof fn law_dock_adds(
    desk: Desktop,
    selection: u32,
    answers: spec_fn(nat, Request) -> Reply,
    table: TableView,
    data: [u32; 5],
    asked: nat,
    width: u16,
    height: u16,
    visual: u32,
    container: u32,
    damage: u32,
    questions: nat,
)
    requires
        desk.atoms.net_system_tray_opcode != desk.atoms.xembsni_wakeup,
        data[1] == host::SYSTEM_TRAY_REQUEST_DOCK,
        data[2] != NONE,
        !table.icons.contains_key(data[2]),
        embed::goes_along(
            desk,
            answers,
            data[2],
            asked,
            width,
            height,
            visual,
            container,
            damage,
        ),
        questions >= 9 + embed::description_questions(
            desk,
            answers,
            data[2],
            embed::embedded_state(
                desk,
                width,
                height,
                visual,
                container,
                damage,
                answers(asked + 7, props::xembed_info_request(desk.atoms, data[2])),
            ),
            asked + 9,
        ),
    ensures
        ({
            let icon = data[2];
            let type_ = desk.atoms.net_system_tray_opcode;
            let info = answers(asked + 7, props::xembed_info_request(desk.atoms, icon));
            let state = embed::embedded_state(
                desk,
                width,
                height,
                visual,
                container,
                damage,
                info,
            );
            let (meta, image) = embed::described(desk, answers, icon, state, asked + 9);
            let event = ServerEvent::ClientMessage { type_, data };
            let (unchanged, turn) = host::react(desk, selection, table, event);
            &&& unchanged == table
            &&& settle(desk, answers, table, turn, asked, questions) == (
                table.add_icon(icon, state),
                host::report(IconEventView::Added { meta, image }),
            )
        }),
{
    law_dock_embeds(desk, answers, table, data[2], asked, questions);
    embed::law_embedding_succeeds(
        desk,
        answers,
        data[2],
        asked,
        width,
        height,
        visual,
        container,
        damage,
        questions,
    );
}

/// An embedding that waits goes on as the host does.
proof fn lemma_embedding_settles(
    desk: Desktop,
    answers: spec_fn(nat, Request) -> Reply,
    table: TableView,
    step: EmbedStepView,
    asked: nat,
    questions: nat,
)
    requires
        step is Ask,
    ensures
        settle(desk, answers, table, host::embed_turn(table, step).1, asked, questions)
            == host::embed_turn(table, embed::complete(desk, answers, step, asked, questions)),
    decreases questions,
{
    if questions > 0 {
        reveal_with_fuel(settle, 2);
        reveal_with_fuel(embed::complete, 2);
        if let EmbedStepView::Ask { requests, task, .. } = step {
            let next = embed::embed_step(desk, task, answers(asked, requests.last()));
            if next is Ask {
                lemma_embedding_settles(
                    desk,
                    answers,
                    table,
                    next,
                    asked + 1,
                    (questions - 1) as nat,
                );
            }
        }
    }
}

/// Whether the images that a report carries have four bytes for each pixel.
pub open spec fn reported_whole(report: Option<IconEventView>) -> bool {
    match report {
        Some(IconEventView::Added { image: Some(image), .. }) => image.well_formed(),
        Some(IconEventView::Updated { image, .. }) => image.well_formed(),
        _ => true,
    }
}

/// Whether the image that something pending carries has four bytes for each
/// pixel.
pub open spec fn carried_whole(pending: PendingView) -> bool {
    match pending {
        PendingView::Embed(EmbedTaskView::Class { image: Some(image), .. }) => image.well_formed(),
        PendingView::Embed(EmbedTaskView::Title { image: Some(image), .. }) => image.well_formed(),
        _ => true,
    }
}

/// Whether all images of a turn have four bytes for each pixel.
pub open spec fn turn_whole(turn: TurnView) -> bool {
    &&& reported_whole(turn.emit)
    &&& turn.next matches NextView::Ask { pending, .. } ==> carried_whole(pending)
}

/// Every image that is reported has four bytes for each of its pixels.
pub proof fn law_images_are_whole(
    desk: Desktop,
    selection: u32,
    table: TableView,
    event: ServerEvent,
    pending: PendingView,
    reply: Reply,
)
    requires
        carried_whole(pending),
    ensures
        turn_whole(host::react(desk, selection, table, event).1),
        turn_whole(host::go_on(desk, table, pending, reply).1),
{
    match pending {
        PendingView::Embed(EmbedTaskView::Image { task, .. }) => {
            lemma_graphic_is_whole(desk, task, reply);
        },
        PendingView::Refresh { task, .. } => {
            lemma_graphic_is_whole(desk, task, reply);
        },
        _ => {},
    }
}

/// A graphic that is got has four bytes for each of its pixels.
proof fn lemma_graphic_is_whole(desk: Desktop, task: ImageTask, reply: Reply)
    ensures
        capture::image_step(desk.atoms, task, reply) matches ImageStepView::Got {
            image: Some(image),
            ..
        } ==> image.well_formed(),
{
    match (task, reply) {
        (ImageTask::Contents { target, .. }, Reply::Image { data }) => {
            let count = target.width as nat * target.height as nat;
            assert(capture::captured(target, data@).argb32.len() == 4 * count);
        },
        (ImageTask::Fallback, Reply::Property { format, value }) => {
            assert(value@.len() == value.len());
            net_icon::law_icon_is_whole(wire::native_words(value@));
        },
        _ => {},
    }
}

/// A host that has been running for a while: what it holds, what it does next, and
/// all that it has reported.
#[verifier::ext_equal]
pub struct RunView {
    pub table: TableView,
    pub next: NextView,
    pub reports: Seq<IconEventView>,
}

/// The reports with one more, where there is one.
pub open spec fn with_report(
    reports: Seq<IconEventView>,
    report: Option<IconEventView>,
) -> Seq<IconEventView> {
    match report {
        Some(report) => reports.push(report),
        None => reports,
    }
}

/// One step of a run: a host that waits for an event takes the event, one that
/// waits for a reply takes the reply, and one that has stopped takes neither.
pub open spec fn run_step(
    desk: Desktop,
    selection: u32,
    state: RunView,
    event: ServerEvent,
    reply: Reply,
) -> RunView {
    match state.next {
        NextView::Wait => {
            let (table, turn) = host::react(desk, selection, state.table, event);
            RunView { table, next: turn.next, reports: with_report(state.reports, turn.emit) }
        },
        NextView::Ask { pending, .. } => {
            let (table, turn) = host::go_on(desk, state.table, pending, reply);
            RunView { table, next: turn.next, reports: with_report(state.reports, turn.emit) }
        },
        NextView::Stop => state,
    }
}

/// A host that starts without icons, after some steps, whatever the server says in
/// each of them.
pub open spec fn run(
    desk: Desktop,
    selection: u32,
    inputs: Seq<(ServerEvent, Reply)>,
) -> RunView
    decreases inputs.len(),
{
    if inputs.len() == 0 {
        RunView { table: TableView::none(), next: NextView::Wait, reports: Seq::empty() }
    } else {
        let (event, reply) = inputs.last();
        run_step(desk, selection, run(desk, selection, inputs.drop_last()), event, reply)
    }
}

/// The icons that are held after some reports.
pub open spec fn held_after(reports: Seq<IconEventView>) -> Set<u32>
    decreases reports.len(),
{
    if reports.len() == 0 {
        Set::empty()
    } else {
        told(held_after(reports.drop_last()), Some(reports.last()))
    }
}

/// Whether a report makes sense while these icons are held: only an icon that is
/// not held is added, and only one that is held changes or is removed.
pub open spec fn fits(held: Set<u32>, report: IconEventView) -> bool {
    match report {
        IconEventView::Added { meta, .. } => !held.contains(meta.id),
        IconEventView::Updated { id, .. } => held.contains(id),
        IconEventView::TitleChanged { id, .. } => held.contains(id),
        IconEventView::VisibilityChanged { id, .. } => held.contains(id),
        IconEventView::Removed { id } => held.contains(id),
        IconEventView::SelectionLost => true,
    }
}

/// Whether reports are in order: each icon is added, changes and is removed, in
/// this order and any number of times over, and nothing follows the loss of the
/// selection.
pub open spec fn orderly(reports: Seq<IconEventView>) -> bool {
    &&& forall|k: int|
        0 <= k < reports.len() ==> fits(held_after(reports.take(k)), #[trigger] reports[k])
    &&& forall|k: int|
        0 <= k < reports.len() && #[trigger] reports[k] is SelectionLost ==> k == reports.len() - 1
}

/// What may be relied on while a host runs.
spec fn run_invariant(state: RunView) -> bool {
    &&& orderly(state.reports)
    &&& state.table.icons.dom() == held_after(state.reports)
    &&& state.table.well_formed()
    &&& state.next matches NextView::Ask { pending, .. } ==> awaited_well(state.table, pending)
        && carried_whole(pending)
    &&& forall|k: int|
        0 <= k < state.reports.len() ==> reported_whole(Some(#[trigger] state.reports[k]))
    &&& !(state.next is Stop) ==> forall|k: int|
        0 <= k < state.reports.len() ==> !(#[trigger] state.reports[k] is SelectionLost)
}

/// Over a whole run, whatever the server says, the reports are in order, they tell
/// exactly which icons are held, every image in them has four bytes for each of its
/// pixels, and the table stays in order. Only a host that stops reports the loss of
/// its selection.
pub proof fn law_run_is_orderly(
    desk: Desktop,
    selection: u32,
    inputs: Seq<(ServerEvent, Reply)>,
)
    ensures
        ({
            let state = run(desk, selection, inputs);
            &&& orderly(state.reports)
            &&& state.table.icons.dom() == held_after(state.reports)
            &&& state.table.well_formed()
            &&& forall|k: int|
                0 <= k < state.reports.len() ==> reported_whole(
                    Some(#[trigger] state.reports[k]),
                )
            &&& forall|k: int|
                0 <= k < state.reports.len() && #[trigger] state.reports[k] is SelectionLost
                    ==> state.next is Stop
        }),
{
    lemma_run(desk, selection, inputs);
}

/// A run keeps what may be relied on.
proof fn lemma_run(desk: Desktop, selection: u32, inputs: Seq<(ServerEvent, Reply)>)
    ensures
        run_invariant(run(desk, selection, inputs)),
    decreases inputs.len(),
{
    if inputs.len() == 0 {
        assert(run(desk, selection, inputs).table.icons.dom() =~= Set::empty());
    } else {
        let before = run(desk, selection, inputs.drop_last());
        let (event, reply) = inputs.last();
        lemma_run(desk, selection, inputs.drop_last());
        match before.next {
            NextView::Wait => {
                law_events_keep_the_table(desk, selection, before.table, event);
                law_events_are_told(desk, selection, before.table, event);
                law_when_a_host_stops(desk, selection, before.table, event);
                law_images_are_whole(
                    desk,
                    selection,
                    before.table,
                    event,
                    PendingView::Measure { icon: 0 },
                    reply,
                );
                let turn = host::react(desk, selection, before.table, event).1;
                lemma_report(before.reports, turn.emit);
            },
            NextView::Ask { pending, .. } => {
                law_replies_keep_the_table(desk, before.table, pending, reply);
                law_replies_are_told(desk, before.table, pending, reply);
                law_replies_do_not_stop(desk, before.table, pending, reply);
                law_images_are_whole(desk, selection, before.table, event, pending, reply);
                let turn = host::go_on(desk, before.table, pending, reply).1;
                lemma_report(before.reports, turn.emit);
            },
            NextView::Stop => {},
        }
    }
}

/// A report that makes sense after reports that are in order, none of which is the
/// loss of the selection, leaves them in order.
proof fn lemma_report(reports: Seq<IconEventView>, report: Option<IconEventView>)
    requires
        orderly(reports),
        forall|k: int| 0 <= k < reports.len() ==> !(#[trigger] reports[k] is SelectionLost),
        report matches Some(report) ==> fits(held_after(reports), report),
    ensures
        orderly(with_report(reports, report)),
        held_after(with_report(reports, report)) == told(held_after(reports), report),
{
    if let Some(report) = report {
        let longer = reports.push(report);
        assert(longer.drop_last() =~= reports);
        assert forall|k: int| 0 <= k < longer.len() implies fits(
            held_after(longer.take(k)),
            #[trigger] longer[k],
        ) by {
            if k < reports.len() {
                assert(longer.take(k) =~= reports.take(k));
                assert(longer[k] == reports[k]);
            } else {
                assert(longer.take(k) =~= reports);
            }
        }
        assert forall|k: int|
            0 <= k < longer.len() && #[trigger] longer[k] is SelectionLost implies k
            == longer.len() - 1 by {
            if k < reports.len() {
                assert(longer[k] == reports[k]);
            }
        }
    }
}

/// Between two reports that an icon was added there is one that it was removed.
pub proof fn law_icons_leave_before_they_return(
    reports: Seq<IconEventView>,
    icon: u32,
    i: int,
    j: int,
)
    requires
        orderly(reports),
        0 <= i < j < reports.len(),
        reports[i] matches IconEventView::Added { meta, .. } && meta.id == icon,
        reports[j] matches IconEventView::Added { meta, .. } && meta.id == icon,
    ensures
        exists|k: int| i < k < j && #[trigger] reports[k] == (IconEventView::Removed { id: icon }),
{
    if forall|k: int|
        i < k < j ==> #[trigger] reports[k] != (IconEventView::Removed { id: icon }) {
        lemma_icon_stays(reports, icon, i, j);
        assert(fits(held_after(reports.take(j)), reports[j]));
    }
}

/// An icon that was added is held until it is removed.
proof fn lemma_icon_stays(reports: Seq<IconEventView>, icon: u32, i: int, j: int)
    requires
        0 <= i < j <= reports.len(),
        reports[i] matches IconEventView::Added { meta, .. } && meta.id == icon,
        forall|k: int|
            i < k < j ==> #[trigger] reports[k] != (IconEventView::Removed { id: icon }),
    ensures
        held_after(reports.take(j)).contains(icon),
    decreases j - i,
{
    let now = reports.take(j);
    assert(now.drop_last() =~= reports.take(j - 1));
    assert(now.last() == reports[j - 1]);
    if j > i + 1 {
        lemma_icon_stays(reports, icon, i, j - 1);
    }
}

/// Whether a turn sends, reports and asks nothing.
pub open spec fn quiet(turn: TurnView) -> bool {
    &&& turn.forget.len() == 0
    &&& turn.emit is None
    &&& turn.next is Wait
}

/// Whether a turn only asks these requests, and then waits as `pending`.
pub open spec fn only_asks(turn: TurnView, requests: Seq<Request>, pending: PendingView) -> bool {
    &&& turn.forget.len() == 0
    &&& turn.emit is None
    &&& turn.next matches NextView::Ask { requests: asked, pending: waiting } && asked == requests
        && waiting == pending
}

/// Whether two tables agree on all icons but one.
pub open spec fn same_but(one: TableView, other: TableView, icon: u32) -> bool {
    forall|i: u32|
        i != icon ==> {
            &&& #[trigger] one.icons.contains_key(i) == other.icons.contains_key(i)
            &&& one.icons.contains_key(i) ==> one.icons[i] == other.icons[i]
        }
}

/// The size that a damaged icon now has, whatever it had before, is what is kept of it,
/// and its contents are asked for at that size. Nothing else of it changes, nor any
/// other icon. A side of no length counts as one; where no size can be had, the old one
/// stays.
pub proof fn law_damage_takes_the_new_size(
    desk: Desktop,
    table: TableView,
    icon: u32,
    width: u16,
    height: u16,
    pixmap: u32,
    reply: Reply,
)
    requires
        table.icons.contains_key(icon),
    ensures
        ({
            let before = table.icons[icon];
            let pending = PendingView::Measure { icon };
            let (after, turn) = host::go_on(
                desk,
                table,
                pending,
                Reply::Geometry { width, height },
            );
            let now = after.icons[icon];
            &&& after.icons.contains_key(icon)
            &&& after.damages == table.damages
            &&& same_but(after, table, icon)
            &&& width > 0 ==> now.width == width
            &&& height > 0 ==> now.height == height
            &&& width == 0 ==> now.width == 1
            &&& height == 0 ==> now.height == 1
            &&& now.container == before.container
            &&& now.damage == before.damage
            &&& now.format == before.format
            &&& now.mapped == before.mapped
            &&& before.format is Some ==> {
                &&& turn.next matches NextView::Ask { requests, pending: first }
                &&& requests == seq![Request::GenerateId]
                &&& host::go_on(desk, after, first, Reply::Id(pixmap)).1.next matches
                    NextView::Ask { requests: naming, pending: second }
                &&& naming == seq![Request::NameWindowPixmap { window: icon, pixmap }]
                &&& host::go_on(desk, after, second, Reply::Done).1.next matches NextView::Ask {
                    requests: contents,
                    ..
                } && contents == seq![
                    Request::GetImage { drawable: pixmap, width: now.width, height: now.height },
                ]
            }
            &&& !(reply is Geometry) ==> host::go_on(desk, table, pending, reply).0.icons
                == table.icons
        }),
{
    assert(table.icons.insert(icon, table.icons[icon]) =~= table.icons);
}

/// An icon joins the table with its damage object, leaves it with it, and touches no
/// other when it does.
pub proof fn law_icons_join_and_leave_alone(
    table: TableView,
    icon: u32,
    state: Icon,
    other: u32,
    damage: u32,
)
    ensures
        ({
            let more = table.add_icon(icon, state);
            let less = table.remove_icon(icon);
            &&& more.icons.contains_key(icon) && more.icons[icon] == state
            &&& more.damages.contains_key(state.damage) && more.damages[state.damage] == icon
            &&& same_but(more, table, icon)
            &&& damage != state.damage ==> more.damages.contains_key(damage)
                == table.damages.contains_key(damage)
            &&& damage != state.damage && table.damages.contains_key(damage)
                ==> more.damages[damage] == table.damages[damage]
            &&& !less.icons.contains_key(icon)
            &&& same_but(less, table, icon)
            &&& table.icons.contains_key(icon) ==> !less.damages.contains_key(
                table.icons[icon].damage,
            )
            &&& damage != table.icons[icon].damage ==> less.damages.contains_key(damage)
                == table.damages.contains_key(damage)
            &&& damage != table.icons[icon].damage && table.damages.contains_key(damage)
                ==> less.damages[damage] == table.damages[damage]
        }),
{
}

/// Messages: a request to dock a window that is not held is followed by the question
/// for its size. The other messages of the tray protocol, and messages of other types,
/// do nothing, save for the one that wakes the host up.
pub proof fn law_what_messages_do(
    desk: Desktop,
    selection: u32,
    table: TableView,
    type_: u32,
    data: [u32; 5],
)
    ensures
        ({
            let event = ServerEvent::ClientMessage { type_, data };
            let (after, turn) = host::react(desk, selection, table, event);
            let icon = data[2];
            let docks = type_ == desk.atoms.net_system_tray_opcode && data[1] == 0;
            &&& after == table
            &&& type_ == desk.atoms.xembsni_wakeup ==> turn.forget.len() == 0 && turn.emit is None
                && turn.next is Stop
            &&& type_ != desk.atoms.xembsni_wakeup && docks && icon != 0
                && !table.icons.contains_key(icon) ==> only_asks(
                turn,
                seq![Request::GetGeometry { window: icon }],
                PendingView::Embed(EmbedTaskView::Geometry { icon }),
            )
            &&& type_ != desk.atoms.xembsni_wakeup && (!docks || icon == 0
                || table.icons.contains_key(icon)) ==> quiet(turn)
        }),
{
}

/// Damage to an icon that is held is acknowledged at once, and its size is asked for;
/// other damage does nothing.
pub proof fn law_what_damage_does(
    desk: Desktop,
    selection: u32,
    table: TableView,
    damage: u32,
)
    requires
        table.well_formed(),
    ensures
        ({
            let event = ServerEvent::DamageNotify { damage };
            let (after, turn) = host::react(desk, selection, table, event);
            &&& after == table
            &&& !table.damages.contains_key(damage) ==> quiet(turn)
            &&& table.damages.contains_key(damage) ==> {
                let icon = table.damages[damage];
                &&& turn.forget == seq![Request::SubtractDamage { damage }]
                &&& turn.emit is None
                &&& turn.next matches NextView::Ask { requests, pending } && requests == seq![
                    Request::GetGeometry { window: icon },
                ] && pending == (PendingView::Measure { icon })
            }
        }),
{
}

/// An icon that is held is let go of when its window is destroyed, or is moved to a
/// parent other than its container: its damage object and its container are destroyed,
/// and it is reported as removed. Windows that are not held do not matter, nor does the
/// move into the container.
pub proof fn law_how_icons_are_lost(
    desk: Desktop,
    selection: u32,
    table: TableView,
    icon: u32,
    parent: u32,
)
    ensures
        ({
            let (after, turn) = host::react(
                desk,
                selection,
                table,
                ServerEvent::DestroyNotify { window: icon },
            );
            &&& table.icons.contains_key(icon) ==> is_loss(table, icon, after, turn)
            &&& !table.icons.contains_key(icon) ==> after == table && quiet(turn)
        }),
        ({
            let (after, turn) = host::react(
                desk,
                selection,
                table,
                ServerEvent::ReparentNotify { window: icon, parent },
            );
            let moved_out = table.icons.contains_key(icon) && table.icons[icon].container != parent;
            &&& moved_out ==> is_loss(table, icon, after, turn)
            &&& !moved_out ==> after == table && quiet(turn)
        }),
{
}

/// Whether this is how a host lets go of an icon.
pub open spec fn is_loss(table: TableView, icon: u32, after: TableView, turn: TurnView) -> bool {
    &&& !after.icons.contains_key(icon)
    &&& same_but(after, table, icon)
    &&& turn.forget == seq![
        Request::DestroyDamage { damage: table.icons[icon].damage },
        Request::DestroyWindow { window: table.icons[icon].container },
        Request::Flush,
    ]
    &&& turn.emit == Some(IconEventView::Removed { id: icon })
    &&& turn.next is Wait
}

/// A change of a property of an icon that is held: `_XEMBED_INFO` is read again,
/// `_NET_WM_ICON` makes the graphic be got again, with a capture where the icon's format
/// is known, and a name makes the title be looked up again. Other properties, and other
/// windows, do nothing.
pub proof fn law_what_property_changes_do(
    desk: Desktop,
    selection: u32,
    table: TableView,
    icon: u32,
    atom: u32,
)
    requires
        desk.atoms.xembed_info != desk.atoms.net_wm_icon,
        desk.atoms.xembed_info != desk.atoms.net_wm_name,
        desk.atoms.xembed_info != desk.atoms.wm_name,
        desk.atoms.net_wm_icon != desk.atoms.net_wm_name,
        desk.atoms.net_wm_icon != desk.atoms.wm_name,
    ensures
        ({
            let event = ServerEvent::PropertyNotify { window: icon, atom };
            let (after, turn) = host::react(desk, selection, table, event);
            let held = table.icons.contains_key(icon);
            let named = atom == desk.atoms.net_wm_name || atom == desk.atoms.wm_name;
            &&& after == table
            &&& held && atom == desk.atoms.xembed_info ==> only_asks(
                turn,
                seq![
                    Request::GetProperty { window: icon, property: atom, type_: 0, length: 2 },
                ],
                PendingView::Visibility { icon },
            )
            &&& held && atom == desk.atoms.net_wm_icon ==> {
                &&& turn.forget.len() == 0
                &&& turn.emit is None
                &&& turn.next matches NextView::Ask { requests, .. } && requests == seq![
                    if table.icons[icon].format is Some {
                        Request::GenerateId
                    } else {
                        Request::GetProperty {
                            window: icon,
                            property: atom,
                            type_: desk.atoms.cardinal,
                            length: 0x10_0000,
                        }
                    },
                ]
            }
            &&& held && named ==> {
                &&& turn.forget.len() == 0
                &&& turn.emit is None
                &&& turn.next matches NextView::Ask { requests, .. } && requests == seq![
                    Request::GetProperty {
                        window: icon,
                        property: desk.atoms.net_wm_name,
                        type_: desk.atoms.utf8_string,
                        length: 1024,
                    },
                ]
            }
            &&& !held || (atom != desk.atoms.xembed_info && atom != desk.atoms.net_wm_icon
                && !named) ==> quiet(turn)
        }),
{
}

/// The loss of another selection, and events of other kinds, do nothing.
pub proof fn law_other_events_do_nothing(
    desk: Desktop,
    selection: u32,
    table: TableView,
    other: u32,
)
    requires
        other != selection,
    ensures
        ({
            let (after, turn) = host::react(
                desk,
                selection,
                table,
                ServerEvent::SelectionClear { selection: other },
            );
            after == table && quiet(turn)
        }),
        ({
            let (after, turn) = host::react(desk, selection, table, ServerEvent::Other);
            after == table && quiet(turn)
        }),
{
}

/// An icon that wants to be hidden is unmapped, and one that wants to be shown is
/// mapped, where that is news; that is all that changes. It wants what the lowest flag
/// of its `_XEMBED_INFO` says.
pub proof fn law_icons_show_and_hide(desk: Desktop, table: TableView, icon: u32, reply: Reply)
    requires
        table.icons.contains_key(icon),
    ensures
        ({
            let pending = PendingView::Visibility { icon };
            let (after, turn) = host::go_on(desk, table, pending, reply);
            let (before, now) = (table.icons[icon], after.icons[icon]);
            &&& after.icons.contains_key(icon)
            &&& after.damages == table.damages
            &&& same_but(after, table, icon)
            &&& now == (Icon { mapped: now.mapped, ..before })
            &&& now.mapped == before.mapped ==> after == table && quiet(turn)
            &&& now.mapped != before.mapped ==> {
                &&& turn.emit == Some(
                    IconEventView::VisibilityChanged { id: icon, visible: now.mapped },
                )
                &&& turn.next is Wait
                &&& turn.forget == seq![
                    if now.mapped {
                        Request::MapWindow { window: icon }
                    } else {
                        Request::UnmapWindow { window: icon }
                    },
                    Request::Flush,
                ]
            }
            &&& !(reply is Property) ==> now.mapped
            &&& reply matches Reply::Property { format, value } ==> {
                &&& format != 32 || value@.len() < 8 ==> now.mapped
                &&& format == 32 && value@.len() >= 8 && vstd::endian::endianness() is Little
                    ==> now.mapped == (value@[4] % 2 == 1)
                &&& format == 32 && value@.len() >= 8 && vstd::endian::endianness() is Big
                    ==> now.mapped == (value@[7] % 2 == 1)
            }
        }),
{
    props::law_lowest_flag_decides(reply);
}

/// A graphic or a title that was got is reported as that of its icon; where there is no
/// graphic, nothing is.
pub proof fn law_what_was_got_is_reported(
    desk: Desktop,
    table: TableView,
    icon: u32,
    task: ImageTask,
    search: crate::title::TitleTaskView,
    reply: Reply,
)
    ensures
        ({
            let pending = PendingView::Refresh { icon, task };
            let (after, turn) = host::go_on(desk, table, pending, reply);
            &&& after == table
            &&& capture::image_step(desk.atoms, task, reply) matches ImageStepView::Got {
                image,
                ..
            } ==> {
                &&& turn.next is Wait
                &&& image matches Some(image) ==> turn.emit == Some(
                    IconEventView::Updated { id: icon, image },
                )
                &&& image is None ==> turn.emit is None
            }
            &&& capture::image_step(desk.atoms, task, reply) matches ImageStepView::Ask {
                request,
                task: next,
                ..
            } ==> {
                &&& turn.emit is None
                &&& turn.next matches NextView::Ask { requests, pending: waiting } && requests
                    == seq![request] && waiting == (PendingView::Refresh { icon, task: next })
            }
            &&& turn.forget == match capture::image_step(desk.atoms, task, reply) {
                ImageStepView::Ask { forget: Some(request), .. } => seq![request],
                ImageStepView::Got { forget: Some(request), .. } => seq![request],
                _ => Seq::empty(),
            }
        }),
        ({
            let pending = PendingView::Title { icon, task: search };
            let (after, turn) = host::go_on(desk, table, pending, reply);
            &&& after == table
            &&& title::title_step(desk, search, reply) matches TitleStepView::Found(found)
                ==> turn.next is Wait && turn.emit == Some(
                IconEventView::TitleChanged { id: icon, title: found },
            )
            &&& title::title_step(desk, search, reply) matches TitleStepView::Ask(request, next)
                ==> only_asks(turn, seq![request], PendingView::Title { icon, task: next })
            &&& turn.forget.len() == 0
        }),
{
}

/// An icon that is embedded is held, in the state that its embedding gave and with its
/// damage object listed, and is reported as added, with what is known of it. While the
/// embedding asks, the host asks that; where it fails, nothing happens.
pub proof fn law_embedding_is_followed(
    desk: Desktop,
    table: TableView,
    task: EmbedTaskView,
    reply: Reply,
)
    ensures
        ({
            let (after, turn) = host::go_on(desk, table, PendingView::Embed(task), reply);
            match embed::embed_step(desk, task, reply) {
                EmbedStepView::Embedded { state, meta, image } => {
                    &&& after.icons.contains_key(meta.id)
                    &&& after.icons[meta.id] == state
                    &&& after.damages.contains_key(state.damage)
                    &&& after.damages[state.damage] == meta.id
                    &&& same_but(after, table, meta.id)
                    &&& turn.forget.len() == 0
                    &&& turn.emit == Some(IconEventView::Added { meta, image })
                    &&& turn.next is Wait
                },
                EmbedStepView::Ask { forget, requests, task: next } => {
                    &&& after == table
                    &&& turn.emit is None
                    &&& turn.forget == match forget {
                        Some(request) => seq![request],
                        None => Seq::empty(),
                    }
                    &&& turn.next matches NextView::Ask { requests: asked, pending } && asked
                        == requests && pending == PendingView::Embed(next)
                },
                EmbedStepView::Failed => after == table && quiet(turn),
            }
        }),
{
}

/// What is sent at the end is three requests for each icon that is left, and no other:
/// its damage object and its container go, and it is moved to the corner of the root
/// window.
pub proof fn law_rescue_touches_nothing_else(
    root: u32,
    icons: Map<u32, Icon>,
    order: Seq<u32>,
    i: int,
)
    requires
        0 <= i < order.len(),
    ensures
        ({
            let requests = host::rescue_all(root, icons, order);
            let icon = order[i];
            &&& requests.len() == 3 * order.len()
            &&& requests[3 * i] == Request::DestroyDamage { damage: icons[icon].damage }
            &&& requests[3 * i + 1] == Request::ReparentWindow {
                window: icon,
                parent: root,
                x: 0,
                y: 0,
            }
            &&& requests[3 * i + 2] == Request::DestroyWindow { window: icons[icon].container }
        }),
    decreases order.len(),
{
    let front = order.drop_last();
    let before = host::rescue_all(root, icons, front);
    let last = host::rescue(root, order.last(), icons[order.last()]);
    let all = host::rescue_all(root, icons, order);
    assert(all == before + last);
    if front.len() > 0 {
        law_rescue_touches_nothing_else(root, icons, front, 0);
    }
    if i < front.len() {
        law_rescue_touches_nothing_else(root, icons, front, i);
        assert(front[i] == order[i]);
        assert(all[3 * i] == before[3 * i]);
        assert(all[3 * i + 1] == before[3 * i + 1]);
        assert(all[3 * i + 2] == before[3 * i + 2]);
    } else {
        assert(before.len() == 3 * i);
        assert(all[3 * i] == last[0]);
        assert(all[3 * i + 1] == last[1]);
        assert(all[3 * i + 2] == last[2]);
    }
}

/// Waking a host up stops it: what its waker sends goes to the window that the host owns
/// its selection with, and is flushed; the host stops when it arrives.
pub proof fn law_waking_stops_a_host(host: TrayHost, waker: Waker, requests: Vec<Request>)
    requires
        call_ensures(TrayHost::waker, (&host,), waker),
        call_ensures(Waker::wake, (&waker,), requests),
    ensures
        requests@.len() == 2,
        requests@[1] == Request::Flush,
        requests@[0] matches Request::SendMessage { destination, message, .. } && {
            &&& destination == host.owner()
            &&& message.window == host.owner()
            &&& host::react(
                host.desk(),
                host.selection_atom(),
                host.table(),
                ServerEvent::ClientMessage { type_: message.type_, data: message.data },
            ).1.next is Stop
        },
{
}

/// When a host is torn down, each icon that it held is moved to the root window, before
/// its container goes, and none is held any more.
pub proof fn law_teardown_rescues_every_icon(
    host: &mut TrayHost,
    requests: Vec<Request>,
    icon: u32,
)
    requires
        call_ensures(TrayHost::teardown, (host,), requests),
        old(host).table().icons.contains_key(icon),
    ensures
        exists|k: int| #[trigger]
            moved_first(
                requests@,
                old(host).desk().root,
                icon,
                old(host).table().icons[icon].container,
                k,
            ),
        !final(host).table().icons.contains_key(icon),
        final(host).owner() == old(host).owner(),
{
    let root = old(host).desk().root;
    let icons = old(host).table().icons;
    let order = choose|order: Seq<u32>|
        {
            &&& order.no_duplicates()
            &&& order.to_set() == icons.dom()
            &&& requests@ == (#[trigger] host::rescue_all(root, icons, order)).push(Request::Flush)
        };
    assert(order.to_set().contains(icon));
    law_every_icon_is_rescued(root, icons, order, icon);
    let all = host::rescue_all(root, icons, order);
    let container = icons[icon].container;
    let k = choose|k: int| moved_first(all, root, icon, container, k);
    assert(requests@[k] == all[k] && requests@[k + 1] == all[k + 1]);
    assert(moved_first(requests@, root, icon, container, k));
}

/// A host that was told the present size of a damaged icon keeps that size of it.
pub proof fn law_host_keeps_the_present_size(
    host: &mut TrayHost,
    icon: u32,
    width: u16,
    height: u16,
    turn: Turn,
)
    requires
        old(host).table().icons.contains_key(icon),
        width > 0,
        height > 0,
        call_ensures(
            TrayHost::resume,
            (host, Pending::Measure { icon }, Reply::Geometry { width, height }),
            turn,
        ),
    ensures
        final(host).table().icons.contains_key(icon),
        final(host).table().icons[icon].width == width,
        final(host).table().icons[icon].height == height,
        turn.emit is None,
{
}

/// A host whose icon's window was destroyed says so of that icon, and does not hold it any
/// more; the others it still holds.
pub proof fn law_host_reports_the_lost_icon(
    host: &mut TrayHost,
    icon: u32,
    other: u32,
    turn: Turn,
)
    requires
        old(host).table().icons.contains_key(icon),
        other != icon,
        call_ensures(
            TrayHost::on_event,
            (host, ServerEvent::DestroyNotify { window: icon }),
            turn,
        ),
    ensures
        turn.emit == Some(IconEvent::Removed { id: icon }),
        !final(host).table().icons.contains_key(icon),
        final(host).table().icons.contains_key(other) == old(host).table().icons.contains_key(
            other,
        ),
{
    assert(turn@.emit == Some(IconEventView::Removed { id: icon }));
}

/// A graphic that was got from the server is reported by a host as it was got, of the icon
/// that it is of.
pub proof fn law_host_reports_the_captured_graphic(
    host: &mut TrayHost,
    icon: u32,
    target: Target,
    pixmap: u32,
    data: Vec<u8>,
    turn: Turn,
)
    requires
        target.width * target.height * 4 <= usize::MAX,
        call_ensures(
            TrayHost::resume,
            (
                host,
                Pending::Refresh { icon, task: ImageTask::Contents { target, pixmap } },
                Reply::Image { data },
            ),
            turn,
        ),
    ensures
        turn.forget@ == seq![Request::FreePixmap { pixmap }],
        turn.emit matches Some(IconEvent::Updated { id, image }) && {
            &&& id == icon
            &&& image.width == target.width
            &&& image.height == target.height
            &&& image.argb32@ == crate::image::argb_bytes(
                crate::image::icon_pixels(target.width, target.height, data@, target.format),
            )
        },
{
    assert(turn@.emit is Some);
}

} // verus!
