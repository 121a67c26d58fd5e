//! Finding a human title for an icon.
//!
//! Tray windows often have no title of their own (Wine tray icons, for one), so
//! the title of another top-level window of the same X client serves instead:
//! the largest one, which is usually the application's main window.

use crate::request::{Atoms, Desktop, Reply, Request};
use crate::text;
use vstd::prelude::*;
use vstd::string::*;

verus! {

/// How much of a title is read, in units of four bytes.
pub const TITLE_LENGTH: u32 = 1024;

/// The properties that may hold a window's title, in the order they are tried.
#[derive(Clone, Copy, Debug, PartialEq, Eq)]
pub enum NameProperty {
    /// `_NET_WM_NAME`, in UTF-8.
    NetWmName,
    /// `WM_NAME`, of type `STRING`.
    WmName,
}

/// A window whose title may serve, with the area that the window covers.
#[derive(Debug)]
pub struct Candidate {
    pub area: u64,
    pub title: String,
}

/// The model of a [`Candidate`].
#[verifier::ext_equal]
pub struct CandidateView {
    pub area: u64,
    pub title: Seq<char>,
}

impl View for Candidate {
    type V = CandidateView;

    open spec fn view(&self) -> CandidateView {
        CandidateView { area: self.area, title: self.title@ }
    }
}

/// The model of a candidate that may be missing.
pub open spec fn candidate_view(best: Option<Candidate>) -> Option<CandidateView> {
    match best {
        Some(best) => Some(best@),
        None => None,
    }
}

/// A search for the title of an icon that waits for an answer of the server.
#[derive(Debug)]
pub enum TitleTask {
    /// The icon's own title was asked for.
    Own { icon: u32, property: NameProperty },
    /// The top-level windows were asked for.
    Tree { icon: u32 },
    /// The title of a window of the same client was asked for; `children` from
    /// `next` on are still to be looked at.
    Name {
        icon: u32,
        window: u32,
        property: NameProperty,
        children: Vec<u32>,
        next: usize,
        best: Option<Candidate>,
    },
    /// The size of a window with the given title was asked for.
    Area { icon: u32, title: String, children: Vec<u32>, next: usize, best: Option<Candidate> },
}

/// The model of a [`TitleTask`].
#[verifier::ext_equal]
pub enum TitleTaskView {
    Own { icon: u32, property: NameProperty },
    Tree { icon: u32 },
    Name {
        icon: u32,
        window: u32,
        property: NameProperty,
        children: Seq<u32>,
        next: int,
        best: Option<CandidateView>,
    },
    Area {
        icon: u32,
        title: Seq<char>,
        children: Seq<u32>,
        next: int,
        best: Option<CandidateView>,
    },
}

impl View for TitleTask {
    type V = TitleTaskView;

    open spec fn view(&self) -> TitleTaskView {
        match *self {
            TitleTask::Own { icon, property } => TitleTaskView::Own { icon, property },
            TitleTask::Tree { icon } => TitleTaskView::Tree { icon },
            TitleTask::Name { icon, window, property, children, next, best } => {
                TitleTaskView::Name {
                    icon,
                    window,
                    property,
                    children: children@,
                    next: next as int,
                    best: candidate_view(best),
                }
            },
            TitleTask::Area { icon, title, children, next, best } => TitleTaskView::Area {
                icon,
                title: title@,
                children: children@,
                next: next as int,
                best: candidate_view(best),
            },
        }
    }
}

/// How a search for a title goes on.
#[derive(Debug)]
pub enum TitleStep {
    /// Ask the server, and resume the task with its reply.
    Ask(Request, TitleTask),
    /// The title is found; it may be empty.
    Found(String),
}

/// The model of a [`TitleStep`].
#[verifier::ext_equal]
pub enum TitleStepView {
    Ask(Request, TitleTaskView),
    Found(Seq<char>),
}

impl View for TitleStep {
    type V = TitleStepView;

    open spec fn view(&self) -> TitleStepView {
        match *self {
            TitleStep::Ask(request, task) => TitleStepView::Ask(request, task@),
            TitleStep::Found(title) => TitleStepView::Found(title@),
        }
    }
}

/// The request for a title property of a window.
pub open spec fn name_request(atoms: Atoms, window: u32, property: NameProperty) -> Request {
    match property {
        NameProperty::NetWmName => Request::GetProperty {
            window,
            property: atoms.net_wm_name,
            type_: atoms.utf8_string,
            length: TITLE_LENGTH,
        },
        NameProperty::WmName => Request::GetProperty {
            window,
            property: atoms.wm_name,
            type_: atoms.string,
            length: TITLE_LENGTH,
        },
    }
}

/// The title in the reply to a request for a title property, if it holds one.
pub open spec fn title_in(reply: Reply) -> Option<Seq<char>> {
    match reply {
        Reply::Property { format, value } => if value@.len() > 0 {
            Some(text::lossy_utf8(value@))
        } else {
            None
        },
        _ => None,
    }
}

/// Whether two windows belong to one client: the ids of a client's resources
/// agree outside the mask that the server gave out.
pub open spec fn same_client(window: u32, icon: u32, mask: u32) -> bool {
    window & !mask == icon & !mask
}

/// Whether a title is that of one of the helper windows that Wine creates for
/// each client.
pub open spec fn is_wine_helper(title: Seq<char>) -> bool {
    title == "Default IME"@ || title == "MSCTFIME UI"@
}

/// The length of a title in bytes.
pub open spec fn byte_length(title: Seq<char>) -> usize {
    vstd::utf8::encode_utf8(title).len() as usize
}

/// Whether one candidate beats another: by its area, or on equal areas by a
/// longer title.
pub open spec fn beats(challenger: CandidateView, best: CandidateView) -> bool {
    challenger.area > best.area || (challenger.area == best.area && byte_length(challenger.title)
        > byte_length(best.title))
}

/// The better of the best candidate so far and a new one.
pub open spec fn better(best: Option<CandidateView>, challenger: CandidateView) -> Option<
    CandidateView,
> {
    match best {
        Some(champion) => if beats(challenger, champion) {
            Some(challenger)
        } else {
            Some(champion)
        },
        None => Some(challenger),
    }
}

/// The area in the reply to a request for a geometry; none where it failed.
pub open spec fn area_in(reply: Reply) -> u64 {
    match reply {
        Reply::Geometry { width, height } => (width * height) as u64,
        _ => 0,
    }
}

/// Where the next window of the icon's client stands among the children.
pub open spec fn next_of_client(children: Seq<u32>, from: int, icon: u32, mask: u32) -> int
    decreases children.len() - from,
{
    if from < 0 || from >= children.len() {
        children.len() as int
    } else if same_client(children[from], icon, mask) {
        from
    } else {
        next_of_client(children, from + 1, icon, mask)
    }
}

/// The search among the children from `from` on.
pub open spec fn seek(
    desk: Desktop,
    icon: u32,
    children: Seq<u32>,
    from: int,
    best: Option<CandidateView>,
) -> TitleStepView {
    let i = next_of_client(children, from, icon, desk.setup.resource_id_mask);
    if i < children.len() {
        TitleStepView::Ask(
            name_request(desk.atoms, children[i], NameProperty::NetWmName),
            TitleTaskView::Name {
                icon,
                window: children[i],
                property: NameProperty::NetWmName,
                children,
                next: i + 1,
                best,
            },
        )
    } else {
        match best {
            Some(best) => TitleStepView::Found(best.title),
            None => TitleStepView::Found(Seq::empty()),
        }
    }
}

/// How the search for an icon's title starts.
pub open spec fn title_start(desk: Desktop, icon: u32) -> TitleStepView {
    TitleStepView::Ask(
        name_request(desk.atoms, icon, NameProperty::NetWmName),
        TitleTaskView::Own { icon, property: NameProperty::NetWmName },
    )
}

/// How the search goes on after a reply.
pub open spec fn title_step(desk: Desktop, task: TitleTaskView, reply: Reply) -> TitleStepView {
    match task {
        TitleTaskView::Own { icon, property } => match (title_in(reply), property) {
            (Some(title), _) => TitleStepView::Found(title),
            (None, NameProperty::NetWmName) => TitleStepView::Ask(
                name_request(desk.atoms, icon, NameProperty::WmName),
                TitleTaskView::Own { icon, property: NameProperty::WmName },
            ),
            (None, NameProperty::WmName) => TitleStepView::Ask(
                Request::QueryTree { window: desk.root },
                TitleTaskView::Tree { icon },
            ),
        },
        TitleTaskView::Tree { icon } => match reply {
            Reply::Tree { children } => seek(desk, icon, children@, 0, None),
            _ => TitleStepView::Found(Seq::empty()),
        },
        TitleTaskView::Name { icon, window, property, children, next, best } => match (
            title_in(reply),
            property,
        ) {
            (Some(title), _) => if is_wine_helper(title) {
                seek(desk, icon, children, next, best)
            } else {
                TitleStepView::Ask(
                    Request::GetGeometry { window },
                    TitleTaskView::Area { icon, title, children, next, best },
                )
            },
            (None, NameProperty::NetWmName) => TitleStepView::Ask(
                name_request(desk.atoms, window, NameProperty::WmName),
                TitleTaskView::Name {
                    icon,
                    window,
                    property: NameProperty::WmName,
                    children,
                    next,
                    best,
                },
            ),
            (None, NameProperty::WmName) => seek(desk, icon, children, next, best),
        },
        TitleTaskView::Area { icon, title, children, next, best } => seek(
            desk,
            icon,
            children,
            next,
            better(best, CandidateView { area: area_in(reply), title }),
        ),
    }
}

/// Asks for a title property of a window.
fn ask_name(atoms: &Atoms, window: u32, property: NameProperty) -> (request: Request)
    ensures
        request == name_request(*atoms, window, property),
{
    match property {
        NameProperty::NetWmName => Request::GetProperty {
            window,
            property: atoms.net_wm_name,
            type_: atoms.utf8_string,
            length: TITLE_LENGTH,
        },
        NameProperty::WmName => Request::GetProperty {
            window,
            property: atoms.wm_name,
            type_: atoms.string,
            length: TITLE_LENGTH,
        },
    }
}

/// Reads the title out of a reply: whatever is not empty counts, and valid UTF-8
/// is taken as it is.
pub fn window_title(reply: &Reply) -> (title: Option<String>)
    ensures
        title is Some <==> title_in(*reply) is Some,
        title matches Some(found) ==> found@ == title_in(*reply)->0 && found@.len() > 0,
        reply matches Reply::Property { format, value } ==> (value@.len() > 0
            && vstd::utf8::valid_utf8(value@) ==> (title matches Some(found) && found@
            == vstd::utf8::decode_utf8(value@))),
{
    match reply {
        Reply::Property { format: _, value } => {
            if value.len() > 0 {
                Some(text::from_utf8_lossy(value.as_slice()))
            } else {
                None
            }
        },
        _ => None,
    }
}

/// Tells the titles of Wine's helper windows.
fn wine_helper(title: &String) -> (is_helper: bool)
    ensures
        is_helper == is_wine_helper(title@),
{
    text::same_text(title.as_str(), "Default IME") || text::same_text(
        title.as_str(),
        "MSCTFIME UI",
    )
}

/// Keeps the better of two candidates.
fn keep_better(best: Option<Candidate>, area: u64, title: String) -> (kept: Option<Candidate>)
    ensures
        candidate_view(kept) == better(
            candidate_view(best),
            CandidateView { area, title: title@ },
        ),
{
    match best {
        Some(champion) => {
            if area > champion.area || (area == champion.area && title.as_str().len()
                > champion.title.as_str().len()) {
                Some(Candidate { area, title })
            } else {
                Some(champion)
            }
        },
        None => Some(Candidate { area, title }),
    }
}

/// Goes on to the next window of the icon's client, or ends the search.
fn seek_from(
    desk: &Desktop,
    icon: u32,
    children: Vec<u32>,
    from: usize,
    best: Option<Candidate>,
) -> (step: TitleStep)
    ensures
        step@ == seek(*desk, icon, children@, from as int, candidate_view(best)),
{
    let mask: u32 = desk.setup.resource_id_mask;
    let mut i: usize = from;
    while i < children.len()
        invariant
            mask == desk.setup.resource_id_mask,
            next_of_client(children@, from as int, icon, mask) == next_of_client(
                children@,
                i as int,
                icon,
                mask,
            ),
        decreases children@.len() - i,
    {
        let window: u32 = children[i];
        if window & !mask == icon & !mask {
            let request = ask_name(&desk.atoms, window, NameProperty::NetWmName);
            return TitleStep::Ask(
                request,
                TitleTask::Name {
                    icon,
                    window,
                    property: NameProperty::NetWmName,
                    children,
                    next: i + 1,
                    best,
                },
            );
        }
        i = i + 1;
    }
    match best {
        Some(best) => TitleStep::Found(best.title),
        None => TitleStep::Found(String::new()),
    }
}

impl TitleTask {
    /// Starts to look for a human title of the icon.
    pub fn start(desk: &Desktop, icon: u32) -> (step: TitleStep)
        ensures
            step@ == title_start(*desk, icon),
    {
        TitleStep::Ask(
            ask_name(&desk.atoms, icon, NameProperty::NetWmName),
            TitleTask::Own { icon, property: NameProperty::NetWmName },
        )
    }

    /// Takes the server's reply to the request that the task waits for.
    pub fn resume(self, desk: &Desktop, reply: Reply) -> (step: TitleStep)
        ensures
            step@ == title_step(*desk, self@, reply),
    {
        match self {
            TitleTask::Own { icon, property } => match window_title(&reply) {
                Some(title) => TitleStep::Found(title),
                None => match property {
                    NameProperty::NetWmName => TitleStep::Ask(
                        ask_name(&desk.atoms, icon, NameProperty::WmName),
                        TitleTask::Own { icon, property: NameProperty::WmName },
                    ),
                    NameProperty::WmName => TitleStep::Ask(
                        Request::QueryTree { window: desk.root },
                        TitleTask::Tree { icon },
                    ),
                },
            },
            TitleTask::Tree { icon } => match reply {
                Reply::Tree { children } => seek_from(desk, icon, children, 0, None),
                _ => TitleStep::Found(String::new()),
            },
            TitleTask::Name { icon, window, property, children, next, best } => {
                match window_title(&reply) {
                    Some(title) => {
                        if wine_helper(&title) {
                            seek_from(desk, icon, children, next, best)
                        } else {
                            TitleStep::Ask(
                                Request::GetGeometry { window },
                                TitleTask::Area { icon, title, children, next, best },
                            )
                        }
                    },
                    None => match property {
                        NameProperty::NetWmName => TitleStep::Ask(
                            ask_name(&desk.atoms, window, NameProperty::WmName),
                            TitleTask::Name {
                                icon,
                                window,
                                property: NameProperty::WmName,
                                children,
                                next,
                                best,
                            },
                        ),
                        NameProperty::WmName => seek_from(desk, icon, children, next, best),
                    },
                }
            },
            TitleTask::Area { icon, title, children, next, best } => {
                let area: u64 = match reply {
                    Reply::Geometry { width, height } => {
                        assert(width * height <= 0xffff * 0xffff) by (nonlinear_arith)
                            requires
                                width <= 0xffff,
                                height <= 0xffff,
                        ;
                        width as u64 * height as u64
                    },
                    _ => 0,
                };
                let kept = keep_better(best, area, title);
                seek_from(desk, icon, children, next, kept)
            },
        }
    }
}

/// What a window offers as a title, and how many questions were asked when that is
/// known. The server answers the `n`th question as `answers` says; `asked` were asked
/// before.
pub open spec fn title_of(
    desk: Desktop,
    answers: spec_fn(nat, Request) -> Reply,
    window: u32,
    asked: nat,
) -> (Option<Seq<char>>, nat) {
    let first = answers(asked, name_request(desk.atoms, window, NameProperty::NetWmName));
    let second = answers(asked + 1, name_request(desk.atoms, window, NameProperty::WmName));
    match title_in(first) {
        Some(title) => (Some(title), asked + 1),
        None => (title_in(second), asked + 2),
    }
}

/// What a top-level window offers for an icon: its area and its title, if it has
/// one, belongs to the icon's client and is no helper window of Wine. Windows of
/// other clients are not asked at all.
pub open spec fn offer_of(
    desk: Desktop,
    answers: spec_fn(nat, Request) -> Reply,
    icon: u32,
    window: u32,
    asked: nat,
) -> (Option<CandidateView>, nat) {
    if !same_client(window, icon, desk.setup.resource_id_mask) {
        (None, asked)
    } else {
        match title_of(desk, answers, window, asked) {
            (Some(title), now) => if is_wine_helper(title) {
                (None, now)
            } else {
                let area = area_in(answers(now, Request::GetGeometry { window }));
                (Some(CandidateView { area, title }), now + 1)
            },
            (None, now) => (None, now),
        }
    }
}

/// How many questions were asked when it is the turn of the `i`th child.
pub open spec fn asked_before(
    desk: Desktop,
    answers: spec_fn(nat, Request) -> Reply,
    icon: u32,
    children: Seq<u32>,
    asked: nat,
    i: int,
) -> nat
    decreases i,
{
    if i <= 0 {
        asked
    } else {
        offer_of(
            desk,
            answers,
            icon,
            children[i - 1],
            asked_before(desk, answers, icon, children, asked, i - 1),
        ).1
    }
}

/// What the children of the root window offer, each asked in its turn.
pub open spec fn offers(
    desk: Desktop,
    answers: spec_fn(nat, Request) -> Reply,
    icon: u32,
    children: Seq<u32>,
    asked: nat,
) -> Seq<Option<CandidateView>> {
    Seq::new(
        children.len(),
        |i: int|
            offer_of(
                desk,
                answers,
                icon,
                children[i],
                asked_before(desk, answers, icon, children, asked, i),
            ).0,
    )
}

/// The best of several offers.
pub open spec fn best_of(offers: Seq<Option<CandidateView>>) -> Option<CandidateView>
    decreases offers.len(),
{
    if offers.len() == 0 {
        None
    } else {
        match offers.last() {
            Some(challenger) => better(best_of(offers.drop_last()), challenger),
            None => best_of(offers.drop_last()),
        }
    }
}

/// The title of the best candidate, or an empty one.
pub open spec fn title_or_empty(best: Option<CandidateView>) -> Seq<char> {
    match best {
        Some(best) => best.title,
        None => Seq::empty(),
    }
}

/// The top-level windows, as far as the server tells them after an icon's own
/// titles.
pub open spec fn top_level(
    desk: Desktop,
    answers: spec_fn(nat, Request) -> Reply,
    asked: nat,
) -> Seq<u32> {
    match answers(asked + 2, Request::QueryTree { window: desk.root }) {
        Reply::Tree { children } => children@,
        _ => Seq::empty(),
    }
}

/// The title of an icon: its own, or else that of the best window of its client,
/// or else none.
pub open spec fn human_title(
    desk: Desktop,
    answers: spec_fn(nat, Request) -> Reply,
    icon: u32,
    asked: nat,
) -> Seq<char> {
    match title_of(desk, answers, icon, asked).0 {
        Some(title) => title,
        None => title_or_empty(
            best_of(
                offers(desk, answers, icon, top_level(desk, answers, asked), asked + 3),
            ),
        ),
    }
}

/// What a search finds that may ask at most `questions` more questions.
pub open spec fn search(
    desk: Desktop,
    answers: spec_fn(nat, Request) -> Reply,
    step: TitleStepView,
    asked: nat,
    questions: nat,
) -> Option<Seq<char>>
    decreases questions,
{
    match step {
        TitleStepView::Found(title) => Some(title),
        TitleStepView::Ask(request, task) => if questions == 0 {
            None
        } else {
            search(
                desk,
                answers,
                title_step(desk, task, answers(asked, request)),
                asked + 1,
                (questions - 1) as nat,
            )
        },
    }
}

/// A search finds the icon's own title, or else that of the best top-level
/// window of its client. It asks three questions for the icon and at most three
/// for each top-level window.
pub proof fn law_title_search(
    desk: Desktop,
    answers: spec_fn(nat, Request) -> Reply,
    icon: u32,
    asked: nat,
    questions: nat,
)
    requires
        questions >= 3 + 3 * top_level(desk, answers, asked).len(),
    ensures
        search(desk, answers, title_start(desk, icon), asked, questions) == Some(
            human_title(desk, answers, icon, asked),
        ),
{
    reveal_with_fuel(search, 4);
    if title_of(desk, answers, icon, asked).0 is None {
        let children = top_level(desk, answers, asked);
        let all = offers(desk, answers, icon, children, asked + 3);
        if answers(asked + 2, Request::QueryTree { window: desk.root }) is Tree {
            assert(all.take(0) =~= Seq::empty());
            lemma_seek(desk, answers, icon, children, 0, asked + 3, (questions - 3) as nat);
        } else {
            assert(all =~= Seq::empty());
        }
    }
}

/// The search among the children from `from` on, with the best of those before
/// in hand, finds the best of all.
proof fn lemma_seek(
    desk: Desktop,
    answers: spec_fn(nat, Request) -> Reply,
    icon: u32,
    children: Seq<u32>,
    from: int,
    asked: nat,
    questions: nat,
)
    requires
        0 <= from <= children.len(),
        questions >= 3 * (children.len() - from),
    ensures
        search(
            desk,
            answers,
            seek(
                desk,
                icon,
                children,
                from,
                best_of(offers(desk, answers, icon, children, asked).take(from)),
            ),
            asked_before(desk, answers, icon, children, asked, from),
            questions,
        ) == Some(title_or_empty(best_of(offers(desk, answers, icon, children, asked)))),
    decreases children.len() - from,
{
    let all = offers(desk, answers, icon, children, asked);
    let best = best_of(all.take(from));
    let now = asked_before(desk, answers, icon, children, asked, from);
    if from < children.len() {
        let window = children[from];
        let (offer, later) = offer_of(desk, answers, icon, window, now);
        let next = best_of(all.take(from + 1));
        assert(all.take(from + 1).drop_last() =~= all.take(from));
        assert(all.take(from + 1).last() == offer);
        assert(later == asked_before(desk, answers, icon, children, asked, from + 1));
        if same_client(window, icon, desk.setup.resource_id_mask) {
            reveal_with_fuel(search, 4);
            let left: nat = (questions - (later - now)) as nat;
            lemma_seek(desk, answers, icon, children, from + 1, asked, left);
            assert(search(desk, answers, seek(desk, icon, children, from, best), now, questions)
                == search(
                desk,
                answers,
                seek(desk, icon, children, from + 1, next),
                later,
                left,
            ));
        } else {
            lemma_seek(desk, answers, icon, children, from + 1, asked, questions);
        }
    } else {
        assert(all.take(from) =~= all);
    }
}

/// The offer that serves is one that no other beats, and that beats every one
/// before it; there is none only where nothing is offered.
pub proof fn law_best_window(offers: Seq<Option<CandidateView>>)
    ensures
        match best_of(offers) {
            None => forall|i: int| 0 <= i < offers.len() ==> #[trigger] offers[i] is None,
            Some(best) => exists|k: int| is_best(offers, k, best),
        },
    decreases offers.len(),
{
    if offers.len() > 0 {
        let front = offers.drop_last();
        law_best_window(front);
        if best_of(front) is None {
            assert forall|i: int| 0 <= i < front.len() implies #[trigger] offers[i] is None by {
                assert(front[i] == offers[i]);
            }
        }
        if let Some(best) = best_of(offers) {
            if best_of(front) == Some(best) {
                let k = choose|k: int| is_best(front, k, best);
                assert(front[k] == offers[k]);
                assert forall|i: int| 0 <= i < offers.len() && #[trigger] offers[i] is Some implies !beats(
                    offers[i]->0,
                    best,
                ) by {
                    if i < front.len() {
                        assert(front[i] == offers[i]);
                    }
                }
                assert forall|i: int| 0 <= i < k && #[trigger] offers[i] is Some implies beats(
                    best,
                    offers[i]->0,
                ) by {
                    assert(front[i] == offers[i]);
                }
                assert(is_best(offers, k, best));
            } else {
                let k = offers.len() - 1;
                if let Some(earlier) = best_of(front) {
                    let j = choose|j: int| is_best(front, j, earlier);
                    assert forall|i: int|
                        0 <= i < k && #[trigger] offers[i] is Some implies beats(
                        best,
                        offers[i]->0,
                    ) by {
                        assert(front[i] == offers[i]);
                        assert(!beats(front[i]->0, earlier));
                    }
                }
                assert(is_best(offers, k, best));
            }
        }
    }
}

/// Whether the `k`th offer is `best`, no offer beats it, and it beats every one
/// before it.
pub open spec fn is_best(offers: Seq<Option<CandidateView>>, k: int, best: CandidateView) -> bool {
    &&& 0 <= k < offers.len()
    &&& offers[k] == Some(best)
    &&& forall|i: int|
        0 <= i < offers.len() && #[trigger] offers[i] is Some ==> !beats(offers[i]->0, best)
    &&& forall|i: int| 0 <= i < k && #[trigger] offers[i] is Some ==> beats(best, offers[i]->0)
}

/// The window that serves covers the greatest area of all that offer a title, and
/// among those of that area none has a title of more bytes; of several alike it is
/// the first.
pub proof fn law_largest_window_serves(offers: Seq<Option<CandidateView>>)
    requires
        forall|i: int|
            0 <= i < offers.len() && #[trigger] offers[i] is Some ==> vstd::utf8::encode_utf8(
                offers[i]->0.title,
            ).len() <= usize::MAX,
    ensures
        best_of(offers) is None <==> forall|i: int|
            0 <= i < offers.len() ==> #[trigger] offers[i] is None,
        best_of(offers) matches Some(best) ==> {
            &&& forall|i: int|
                0 <= i < offers.len() && #[trigger] offers[i] is Some ==> offers[i]->0.area
                    <= best.area
            &&& forall|i: int|
                0 <= i < offers.len() && #[trigger] offers[i] is Some && offers[i]->0.area
                    == best.area ==> vstd::utf8::encode_utf8(offers[i]->0.title).len()
                    <= vstd::utf8::encode_utf8(best.title).len()
            &&& exists|k: int|
                {
                    &&& 0 <= k < offers.len()
                    &&& #[trigger] offers[k] == Some(best)
                    &&& forall|i: int|
                        0 <= i < k && #[trigger] offers[i] is Some && offers[i]->0.area
                            == best.area ==> vstd::utf8::encode_utf8(offers[i]->0.title).len()
                            < vstd::utf8::encode_utf8(best.title).len()
                }
        },
{
    law_best_window(offers);
    if let Some(best) = best_of(offers) {
        let k = choose|k: int| is_best(offers, k, best);
        assert(offers[k] == Some(best));
    }
}

/// The bytes that a reply holds, if it is a property that is not empty.
pub open spec fn bytes_in(reply: Reply) -> Option<Seq<u8>> {
    match reply {
        Reply::Property { format, value } if value@.len() > 0 => Some(value@),
        _ => None,
    }
}

/// A window's title is what `_NET_WM_NAME` holds, or else what `WM_NAME` holds, as
/// text; an empty property does not count. The second is only asked for where the
/// first gives nothing.
pub proof fn law_net_name_before_name(
    desk: Desktop,
    answers: spec_fn(nat, Request) -> Reply,
    window: u32,
    asked: nat,
)
    ensures
        ({
            let first = bytes_in(
                answers(
                    asked,
                    Request::GetProperty {
                        window,
                        property: desk.atoms.net_wm_name,
                        type_: desk.atoms.utf8_string,
                        length: 1024,
                    },
                ),
            );
            let second = bytes_in(
                answers(
                    asked + 1,
                    Request::GetProperty {
                        window,
                        property: desk.atoms.wm_name,
                        type_: desk.atoms.string,
                        length: 1024,
                    },
                ),
            );
            let (title, now) = title_of(desk, answers, window, asked);
            &&& first matches Some(bytes) ==> title == Some(text::lossy_utf8(bytes)) && now
                == asked + 1
            &&& first is None ==> now == asked + 2
            &&& first is None ==> (second matches Some(bytes) ==> title == Some(
                text::lossy_utf8(bytes),
            ))
            &&& first is None && second is None ==> title is None
        }),
{
}

/// A window offers its title, with the product of its width and height, if it is of
/// the icon's client: if the ids of the two differ in the bits of the mask alone. A
/// window of another client is not asked anything; the helper windows of Wine offer
/// nothing; a window whose size is unknown counts as without area.
pub proof fn law_what_a_window_offers(
    desk: Desktop,
    answers: spec_fn(nat, Request) -> Reply,
    icon: u32,
    window: u32,
    asked: nat,
)
    ensures
        ({
            let mask = desk.setup.resource_id_mask;
            let (title, now) = title_of(desk, answers, window, asked);
            let (offer, after) = offer_of(desk, answers, icon, window, asked);
            let size = answers(now, Request::GetGeometry { window });
            &&& (window & !mask) != (icon & !mask) ==> offer is None && after == asked
            &&& (window & !mask) == (icon & !mask) ==> match title {
                None => offer is None && after == now,
                Some(title) => if title == "Default IME"@ || title == "MSCTFIME UI"@ {
                    offer is None && after == now
                } else {
                    &&& after == now + 1
                    &&& offer matches Some(found) && found.title == title
                    &&& size matches Reply::Geometry { width, height } ==> offer->0.area == width
                        * height
                    &&& !(size is Geometry) ==> offer->0.area == 0
                },
            }
        }),
{
    let now = title_of(desk, answers, window, asked).1;
    if let Reply::Geometry { width, height } = answers(now, Request::GetGeometry { window }) {
        assert(0 <= width * height <= 0xffff * 0xffff) by (nonlinear_arith)
            requires
                width <= 0xffff,
                height <= 0xffff,
        ;
    }
}

/// Every child of the root window is looked at, once and in its turn.
pub proof fn law_children_are_asked_in_turn(
    desk: Desktop,
    answers: spec_fn(nat, Request) -> Reply,
    icon: u32,
    children: Seq<u32>,
    asked: nat,
    i: int,
)
    requires
        0 <= i < children.len(),
    ensures
        offers(desk, answers, icon, children, asked).len() == children.len(),
        asked_before(desk, answers, icon, children, asked, 0) == asked,
        ({
            let now = asked_before(desk, answers, icon, children, asked, i);
            let (offer, after) = offer_of(desk, answers, icon, children[i], now);
            &&& offers(desk, answers, icon, children, asked)[i] == offer
            &&& asked_before(desk, answers, icon, children, asked, i + 1) == after
        }),
{
}

/// An icon has its own title. Only without one does it get that of the best offer
/// of the root window's children, and an empty one where there is no offer.
pub proof fn law_own_title_first(
    desk: Desktop,
    answers: spec_fn(nat, Request) -> Reply,
    icon: u32,
    asked: nat,
)
    ensures
        ({
            let title = human_title(desk, answers, icon, asked);
            let tree = answers(asked + 2, Request::QueryTree { window: desk.root });
            match title_of(desk, answers, icon, asked).0 {
                Some(own) => title == own,
                None => match tree {
                    Reply::Tree { children } => match best_of(
                        offers(desk, answers, icon, children@, asked + 3),
                    ) {
                        Some(best) => title == best.title,
                        None => title.len() == 0,
                    },
                    _ => title.len() == 0,
                },
            }
        }),
{
    let all = offers(desk, answers, icon, top_level(desk, answers, asked), asked + 3);
    if !(answers(asked + 2, Request::QueryTree { window: desk.root }) is Tree) {
        assert(all =~= Seq::empty());
    }
}

} // verus!
