//! Taking ownership of the tray selection.
//!
//! The host needs the Composite and Damage extensions, interns its atoms, and
//! takes the selection of its screen unless another tray has it already. Then it
//! announces itself.

use crate::error::Error;
use crate::host::{TableView, TrayHost};
use crate::request::{
    Atoms, ClientMessage, Desktop, NewWindow, Reply, Request, CURRENT_TIME, MASK_PROPERTY_CHANGE,
    MASK_STRUCTURE_NOTIFY, NONE,
};
use crate::text;
use crate::visual::Setup;
use vstd::prelude::*;
use vstd::string::*;

verus! {

/// `_NET_SYSTEM_TRAY_ORIENTATION` value: icons are laid out horizontally.
pub const TRAY_ORIENTATION_HORZ: u32 = 0;

/// An acquisition that waits for an answer of the server.
#[derive(Debug)]
pub enum AcquireTask {
    /// The extensions are being negotiated.
    Extensions { screen: usize },
    /// The selection's atom was asked for.
    Selection { desk: Desktop, name: String },
    /// The selection's present owner was asked for.
    Present { desk: Desktop, name: String, selection: u32 },
    /// An id for the owner's window was asked for.
    OwnerId { desk: Desktop, name: String, selection: u32 },
    /// The selection is being taken.
    Claim { desk: Desktop, name: String, selection: u32, owner: u32 },
    /// The new tray is being announced.
    Announce { desk: Desktop, name: String, selection: u32, owner: u32 },
}

/// The model of an [`AcquireTask`].
#[verifier::ext_equal]
pub enum AcquireTaskView {
    Extensions { screen: usize },
    Selection { desk: Desktop, name: Seq<char> },
    Present { desk: Desktop, name: Seq<char>, selection: u32 },
    OwnerId { desk: Desktop, name: Seq<char>, selection: u32 },
    Claim { desk: Desktop, name: Seq<char>, selection: u32, owner: u32 },
    Announce { desk: Desktop, name: Seq<char>, selection: u32, owner: u32 },
}

impl View for AcquireTask {
    type V = AcquireTaskView;

    open spec fn view(&self) -> AcquireTaskView {
        match *self {
            AcquireTask::Extensions { screen } => AcquireTaskView::Extensions { screen },
            AcquireTask::Selection { desk, name } => AcquireTaskView::Selection {
                desk,
                name: name@,
            },
            AcquireTask::Present { desk, name, selection } => AcquireTaskView::Present {
                desk,
                name: name@,
                selection,
            },
            AcquireTask::OwnerId { desk, name, selection } => AcquireTaskView::OwnerId {
                desk,
                name: name@,
                selection,
            },
            AcquireTask::Claim { desk, name, selection, owner } => AcquireTaskView::Claim {
                desk,
                name: name@,
                selection,
                owner,
            },
            AcquireTask::Announce { desk, name, selection, owner } => AcquireTaskView::Announce {
                desk,
                name: name@,
                selection,
                owner,
            },
        }
    }
}

/// How an acquisition goes on.
pub enum AcquireStep {
    /// Send the requests in order up to the first that fails, and resume the
    /// task with the reply.
    Ask { requests: Vec<Request>, task: AcquireTask },
    /// Intern the host's atoms, and go on by [`AcquireTask::describe`].
    Learn { screen: usize },
    /// Intern this name, and resume the task with [`Reply::Atom`].
    Intern { name: String, task: AcquireTask },
    /// The host owns the selection.
    Acquired(TrayHost),
    /// The host could not take the selection.
    Failed(Error),
}

/// Why an acquisition fails.
#[verifier::ext_equal]
pub enum Refusal {
    AlreadyOwned(Seq<char>),
    AcquireFailed(Seq<char>),
    Other(Error),
}

/// The model of an error.
pub open spec fn refusal(error: Error) -> Refusal {
    match error {
        Error::AlreadyOwned(name) => Refusal::AlreadyOwned(name@),
        Error::AcquireFailed(name) => Refusal::AcquireFailed(name@),
        _ => Refusal::Other(error),
    }
}

/// A host that owns its selection.
#[verifier::ext_equal]
pub struct OwnedView {
    pub desk: Desktop,
    pub owner: u32,
    pub selection: Seq<char>,
    pub selection_atom: u32,
    pub table: TableView,
}

/// The model of a host.
pub open spec fn owned(host: TrayHost) -> OwnedView {
    OwnedView {
        desk: host.desk(),
        owner: host.owner(),
        selection: host.selection(),
        selection_atom: host.selection_atom(),
        table: host.table(),
    }
}

/// The model of an [`AcquireStep`].
#[verifier::ext_equal]
pub enum AcquireStepView {
    Ask { requests: Seq<Request>, task: AcquireTaskView },
    Learn { screen: usize },
    Intern { name: Seq<char>, task: AcquireTaskView },
    Acquired(OwnedView),
    Failed(Refusal),
}

impl View for AcquireStep {
    type V = AcquireStepView;

    open spec fn view(&self) -> AcquireStepView {
        match *self {
            AcquireStep::Ask { requests, task } => AcquireStepView::Ask {
                requests: requests@,
                task: task@,
            },
            AcquireStep::Learn { screen } => AcquireStepView::Learn { screen },
            AcquireStep::Intern { name, task } => AcquireStepView::Intern {
                name: name@,
                task: task@,
            },
            AcquireStep::Acquired(host) => AcquireStepView::Acquired(owned(host)),
            AcquireStep::Failed(error) => AcquireStepView::Failed(refusal(error)),
        }
    }
}

/// The name of a screen's tray selection.
pub open spec fn selection_of(screen: nat) -> Seq<char> {
    "_NET_SYSTEM_TRAY_S"@ + text::decimal(screen)
}

/// The negotiation of the extensions for offscreen capture and damage tracking.
pub open spec fn extension_requests() -> Seq<Request> {
    seq![
        Request::QueryComposite { major: 0, minor: 4 },
        Request::QueryDamage { major: 1, minor: 1 },
    ]
}

/// The taking of the selection, and the question whether it succeeded.
///
/// `_NET_SYSTEM_TRAY_VISUAL` is deliberately not advertised: Wine under Proton
/// renders its icon incorrectly into a 32-bit window, so it is left to use the
/// default visual, and the background is knocked out afterwards.
pub open spec fn claim_requests(desk: Desktop, selection: u32, owner: u32) -> Seq<Request> {
    seq![
        Request::CreateWindow(
            NewWindow {
                window: owner,
                parent: desk.root,
                x: 0,
                y: 0,
                width: 1,
                height: 1,
                visual: desk.root_visual,
                override_redirect: false,
                event_mask: MASK_PROPERTY_CHANGE,
                checked: false,
            },
        ),
        Request::ChangeProperty {
            window: owner,
            property: desk.atoms.net_system_tray_orientation,
            type_: desk.atoms.cardinal,
            value: TRAY_ORIENTATION_HORZ,
        },
        Request::SetSelectionOwner { owner, selection, time: CURRENT_TIME },
        Request::Flush,
        Request::GetSelectionOwner { selection },
    ]
}

/// The announcement of the new tray to all clients.
pub open spec fn announce_requests(desk: Desktop, selection: u32, owner: u32) -> Seq<Request> {
    seq![
        Request::SendMessage {
            destination: desk.root,
            event_mask: MASK_STRUCTURE_NOTIFY,
            message: ClientMessage {
                window: desk.root,
                type_: desk.atoms.manager,
                data: [CURRENT_TIME, selection, owner, 0, 0],
            },
        },
        Request::Flush,
    ]
}

/// How an acquisition starts.
pub open spec fn acquire_start(screen: usize) -> AcquireStepView {
    AcquireStepView::Ask {
        requests: extension_requests(),
        task: AcquireTaskView::Extensions { screen },
    }
}

/// How it goes on once the atoms are known, or could not be learnt.
pub open spec fn acquire_learnt(screen: usize, learnt: Result<(Atoms, Setup), Error>) ->
    AcquireStepView {
    match learnt {
        Ok((atoms, setup)) => AcquireStepView::Intern {
            name: selection_of(screen as nat),
            task: AcquireTaskView::Selection {
                desk: Desktop {
                    atoms,
                    root: setup.roots[screen as int].root,
                    root_visual: setup.roots[screen as int].root_visual,
                    setup,
                },
                name: selection_of(screen as nat),
            },
        },
        Err(error) => AcquireStepView::Failed(refusal(error)),
    }
}

/// How it goes on after a reply that is no failure. One that does not answer the
/// question is asked for again.
pub open spec fn acquire_answered(task: AcquireTaskView, reply: Reply) -> AcquireStepView {
    match task {
        AcquireTaskView::Extensions { screen } => AcquireStepView::Learn { screen },
        AcquireTaskView::Selection { desk, name } => match reply {
            Reply::Atom(selection) => AcquireStepView::Ask {
                requests: seq![Request::GetSelectionOwner { selection }],
                task: AcquireTaskView::Present { desk, name, selection },
            },
            _ => AcquireStepView::Intern { name, task },
        },
        AcquireTaskView::Present { desk, name, selection } => match reply {
            Reply::Owner(present) => if present != NONE {
                AcquireStepView::Failed(Refusal::AlreadyOwned(name))
            } else {
                AcquireStepView::Ask {
                    requests: seq![Request::GenerateId],
                    task: AcquireTaskView::OwnerId { desk, name, selection },
                }
            },
            _ => AcquireStepView::Ask {
                requests: seq![Request::GetSelectionOwner { selection }],
                task,
            },
        },
        AcquireTaskView::OwnerId { desk, name, selection } => match reply {
            Reply::Id(owner) => AcquireStepView::Ask {
                requests: claim_requests(desk, selection, owner),
                task: AcquireTaskView::Claim { desk, name, selection, owner },
            },
            _ => AcquireStepView::Ask { requests: seq![Request::GenerateId], task },
        },
        AcquireTaskView::Claim { desk, name, selection, owner } => match reply {
            Reply::Owner(present) => if present != owner {
                AcquireStepView::Failed(Refusal::AcquireFailed(name))
            } else {
                AcquireStepView::Ask {
                    requests: announce_requests(desk, selection, owner),
                    task: AcquireTaskView::Announce { desk, name, selection, owner },
                }
            },
            _ => AcquireStepView::Ask {
                requests: seq![Request::GetSelectionOwner { selection }],
                task,
            },
        },
        AcquireTaskView::Announce { desk, name, selection, owner } => AcquireStepView::Acquired(
            OwnedView {
                desk,
                owner,
                selection: name,
                selection_atom: selection,
                table: TableView::none(),
            },
        ),
    }
}

/// How it goes on after a reply: any failure ends it.
pub open spec fn acquire_step(task: AcquireTaskView, reply: Reply) -> AcquireStepView {
    match reply {
        Reply::Failed(error) => AcquireStepView::Failed(refusal(error)),
        _ => acquire_answered(task, reply),
    }
}

impl TrayHost {
    /// Starts to take ownership of the tray selection of a screen.
    pub fn acquire_on(screen: usize) -> (step: AcquireStep)
        ensures
            step@ == acquire_start(screen),
    {
        let requests: Vec<Request> = vec![
            Request::QueryComposite { major: 0, minor: 4 },
            Request::QueryDamage { major: 1, minor: 1 },
        ];
        assert(requests@ =~= extension_requests());
        AcquireStep::Ask { requests, task: AcquireTask::Extensions { screen } }
    }
}

/// Asks a single question.
fn ask_one(request: Request, task: AcquireTask) -> (step: AcquireStep)
    ensures
        step@ == (AcquireStepView::Ask { requests: seq![request], task: task@ }),
{
    let requests: Vec<Request> = vec![request];
    assert(requests@ =~= seq![request]);
    AcquireStep::Ask { requests, task }
}

/// Takes the selection.
fn claim(desk: &Desktop, selection: u32, owner: u32) -> (requests: Vec<Request>)
    ensures
        requests@ == claim_requests(*desk, selection, owner),
{
    let requests: Vec<Request> = vec![
        Request::CreateWindow(
            NewWindow {
                window: owner,
                parent: desk.root,
                x: 0,
                y: 0,
                width: 1,
                height: 1,
                visual: desk.root_visual,
                override_redirect: false,
                event_mask: MASK_PROPERTY_CHANGE,
                checked: false,
            },
        ),
        Request::ChangeProperty {
            window: owner,
            property: desk.atoms.net_system_tray_orientation,
            type_: desk.atoms.cardinal,
            value: TRAY_ORIENTATION_HORZ,
        },
        Request::SetSelectionOwner { owner, selection, time: CURRENT_TIME },
        Request::Flush,
        Request::GetSelectionOwner { selection },
    ];
    requests
}

/// Announces the new tray.
fn announce(desk: &Desktop, selection: u32, owner: u32) -> (requests: Vec<Request>)
    ensures
        requests@ == announce_requests(*desk, selection, owner),
{
    let requests: Vec<Request> = vec![
        Request::SendMessage {
            destination: desk.root,
            event_mask: MASK_STRUCTURE_NOTIFY,
            message: ClientMessage {
                window: desk.root,
                type_: desk.atoms.manager,
                data: [CURRENT_TIME, selection, owner, 0, 0],
            },
        },
        Request::Flush,
    ];
    requests
}

impl AcquireTask {
    /// Takes the atoms that the host asked for and what the server said of its
    /// screens when the connection was made, or the error that came instead.
    pub fn describe(screen: usize, learnt: Result<(Atoms, Setup), Error>) -> (step: AcquireStep)
        requires
            learnt matches Ok((atoms, setup)) ==> screen < setup.roots@.len(),
        ensures
            step@ == acquire_learnt(screen, learnt),
    {
        match learnt {
            Ok((atoms, setup)) => {
                let root: u32 = setup.roots[screen].root;
                let root_visual: u32 = setup.roots[screen].root_visual;
                let mut name: String = "_NET_SYSTEM_TRAY_S".to_owned();
                let number: String = text::decimal_text(screen as u64);
                name.append(number.as_str());
                AcquireStep::Intern {
                    name: name.clone(),
                    task: AcquireTask::Selection {
                        desk: Desktop { atoms, root, root_visual, setup },
                        name,
                    },
                }
            },
            Err(error) => AcquireStep::Failed(error),
        }
    }

    /// Takes the server's reply to what the task waits for.
    pub fn resume(self, reply: Reply) -> (step: AcquireStep)
        ensures
            step@ == acquire_step(self@, reply),
    {
        if let Reply::Failed(error) = reply {
            return AcquireStep::Failed(error);
        }
        match self {
            AcquireTask::Extensions { screen } => AcquireStep::Learn { screen },
            AcquireTask::Selection { desk, name } => match reply {
                Reply::Atom(selection) => ask_one(
                    Request::GetSelectionOwner { selection },
                    AcquireTask::Present { desk, name, selection },
                ),
                _ => AcquireStep::Intern {
                    name: name.clone(),
                    task: AcquireTask::Selection { desk, name },
                },
            },
            AcquireTask::Present { desk, name, selection } => match reply {
                Reply::Owner(present) => if present != NONE {
                    AcquireStep::Failed(Error::AlreadyOwned(name))
                } else {
                    ask_one(Request::GenerateId, AcquireTask::OwnerId { desk, name, selection })
                },
                _ => ask_one(
                    Request::GetSelectionOwner { selection },
                    AcquireTask::Present { desk, name, selection },
                ),
            },
            AcquireTask::OwnerId { desk, name, selection } => match reply {
                Reply::Id(owner) => {
                    let requests = claim(&desk, selection, owner);
                    AcquireStep::Ask {
                        requests,
                        task: AcquireTask::Claim { desk, name, selection, owner },
                    }
                },
                _ => ask_one(Request::GenerateId, AcquireTask::OwnerId { desk, name, selection }),
            },
            AcquireTask::Claim { desk, name, selection, owner } => match reply {
                Reply::Owner(present) => if present != owner {
                    AcquireStep::Failed(Error::AcquireFailed(name))
                } else {
                    let requests = announce(&desk, selection, owner);
                    AcquireStep::Ask {
                        requests,
                        task: AcquireTask::Announce { desk, name, selection, owner },
                    }
                },
                _ => ask_one(
                    Request::GetSelectionOwner { selection },
                    AcquireTask::Claim { desk, name, selection, owner },
                ),
            },
            AcquireTask::Announce { desk, name, selection, owner } => AcquireStep::Acquired(
                TrayHost::owning(desk, owner, name, selection),
            ),
        }
    }
}

/// The step after a reply to what a step asks or interns.
pub open spec fn advance(step: AcquireStepView, reply: Reply) -> AcquireStepView {
    match step {
        AcquireStepView::Ask { task, .. } => acquire_step(task, reply),
        AcquireStepView::Intern { task, .. } => acquire_step(task, reply),
        _ => step,
    }
}

/// A selection without an owner is taken, and the host then owns it under the
/// name of its screen and holds no icons.
pub proof fn law_free_selection_is_taken(
    screen: usize,
    atoms: Atoms,
    setup: Setup,
    selection: u32,
    owner: u32,
)
    ensures
        advance(acquire_start(screen), Reply::Done) == (AcquireStepView::Learn { screen }),
        ({
            let first = acquire_learnt(screen, Ok((atoms, setup)));
            let present = advance(first, Reply::Atom(selection));
            let free = advance(present, Reply::Owner(NONE));
            let claimed = advance(free, Reply::Id(owner));
            let confirmed = advance(claimed, Reply::Owner(owner));
            advance(confirmed, Reply::Done) == AcquireStepView::Acquired(
                OwnedView {
                    desk: Desktop {
                        atoms,
                        root: setup.roots[screen as int].root,
                        root_visual: setup.roots[screen as int].root_visual,
                        setup,
                    },
                    owner,
                    selection: selection_of(screen as nat),
                    selection_atom: selection,
                    table: TableView::none(),
                },
            )
        }),
{
}

/// A selection that another tray owns is left alone: the acquisition fails with
/// its name, and none of the steps before was more than a question.
pub proof fn law_owned_selection_is_left_alone(
    screen: usize,
    atoms: Atoms,
    setup: Setup,
    selection: u32,
    present: u32,
)
    requires
        present != NONE,
    ensures
        ({
            let first = acquire_learnt(screen, Ok((atoms, setup)));
            let asked = advance(first, Reply::Atom(selection));
            &&& asked matches AcquireStepView::Ask { requests, .. } && requests == seq![
                Request::GetSelectionOwner { selection },
            ]
            &&& advance(asked, Reply::Owner(present)) == AcquireStepView::Failed(
                Refusal::AlreadyOwned(selection_of(screen as nat)),
            )
        }),
{
}

/// A selection that someone else turns out to own after it was taken is given
/// up, with its name.
pub proof fn law_lost_race_is_admitted(
    desk: Desktop,
    name: Seq<char>,
    selection: u32,
    owner: u32,
    present: u32,
)
    requires
        present != owner,
    ensures
        acquire_step(
            AcquireTaskView::Claim { desk, name, selection, owner },
            Reply::Owner(present),
        ) == AcquireStepView::Failed(Refusal::AcquireFailed(name)),
{
}

/// The selection is only ever taken right after the server said that it has no
/// owner and gave an id for a window.
pub proof fn law_only_a_free_selection_is_taken(
    task: AcquireTaskView,
    reply: Reply,
    owner: u32,
    selection: u32,
    time: u32,
)
    ensures
        acquire_step(task, reply) matches AcquireStepView::Ask { requests, .. }
            && requests.contains(Request::SetSelectionOwner { owner, selection, time }) ==> task
            is OwnerId && reply is Id,
        acquire_step(task, reply) matches AcquireStepView::Ask { task: next, .. } && next
            is OwnerId && !(task is OwnerId) ==> task is Present && reply == Reply::Owner(NONE),
{
}

/// Each screen has a selection of its own.
pub proof fn law_selections_differ(a: nat, b: nat)
    requires
        a != b,
    ensures
        selection_of(a) != selection_of(b),
{
    let prefix = "_NET_SYSTEM_TRAY_S"@;
    if selection_of(a) == selection_of(b) {
        assert(text::decimal(a) =~= selection_of(a).skip(prefix.len() as int));
        assert(text::decimal(b) =~= selection_of(b).skip(prefix.len() as int));
        text::law_decimal_is_injective(a, b);
    }
}

/// What is sent to acquire a selection, reply by reply. The extensions come first; then
/// the name that the screen's number ends is interned, and its owner is asked for. Where
/// it has none, a window of one by one pixel in the corner of the screen is made, says
/// that icons are laid out horizontally and takes the selection, and its owner is asked
/// for again. Where that is the window, all clients are told on the root window.
pub proof fn law_what_acquiring_sends(
    screen: usize,
    atoms: Atoms,
    setup: Setup,
    selection: u32,
    owner: u32,
    desk: Desktop,
    name: Seq<char>,
)
    ensures
        acquire_start(screen) == (AcquireStepView::Ask {
            requests: seq![
                Request::QueryComposite { major: 0, minor: 4 },
                Request::QueryDamage { major: 1, minor: 1 },
            ],
            task: AcquireTaskView::Extensions { screen },
        }),
        acquire_learnt(screen, Ok((atoms, setup))) matches AcquireStepView::Intern {
            name: interned,
            task: AcquireTaskView::Selection { desk: found, name: kept },
        } && {
            &&& interned == "_NET_SYSTEM_TRAY_S"@ + text::decimal(screen as nat)
            &&& kept == interned
            &&& found.atoms == atoms
            &&& found.setup == setup
            &&& found.root == setup.roots@[screen as int].root
            &&& found.root_visual == setup.roots@[screen as int].root_visual
        },
        acquire_step(AcquireTaskView::Selection { desk, name }, Reply::Atom(selection)) == (
        AcquireStepView::Ask {
            requests: seq![Request::GetSelectionOwner { selection }],
            task: AcquireTaskView::Present { desk, name, selection },
        }),
        acquire_step(AcquireTaskView::Present { desk, name, selection }, Reply::Owner(0)) == (
        AcquireStepView::Ask {
            requests: seq![Request::GenerateId],
            task: AcquireTaskView::OwnerId { desk, name, selection },
        }),
        acquire_step(AcquireTaskView::OwnerId { desk, name, selection }, Reply::Id(owner)) == (
        AcquireStepView::Ask {
            requests: seq![
                Request::CreateWindow(
                    NewWindow {
                        window: owner,
                        parent: desk.root,
                        x: 0,
                        y: 0,
                        width: 1,
                        height: 1,
                        visual: desk.root_visual,
                        override_redirect: false,
                        event_mask: 0x40_0000,
                        checked: false,
                    },
                ),
                Request::ChangeProperty {
                    window: owner,
                    property: desk.atoms.net_system_tray_orientation,
                    type_: desk.atoms.cardinal,
                    value: 0,
                },
                Request::SetSelectionOwner { owner, selection, time: 0 },
                Request::Flush,
                Request::GetSelectionOwner { selection },
            ],
            task: AcquireTaskView::Claim { desk, name, selection, owner },
        }),
        acquire_step(
            AcquireTaskView::Claim { desk, name, selection, owner },
            Reply::Owner(owner),
        ) == (AcquireStepView::Ask {
            requests: seq![
                Request::SendMessage {
                    destination: desk.root,
                    event_mask: 0x2_0000,
                    message: ClientMessage {
                        window: desk.root,
                        type_: desk.atoms.manager,
                        data: [0, selection, owner, 0, 0],
                    },
                },
                Request::Flush,
            ],
            task: AcquireTaskView::Announce { desk, name, selection, owner },
        }),
{
}

/// Whatever fails on the way ends the acquisition with that very failure.
pub proof fn law_failures_are_passed_on(
    screen: usize,
    task: AcquireTaskView,
    error: Error,
)
    ensures
        ({
            let passed_on = match error {
                Error::AlreadyOwned(name) => Refusal::AlreadyOwned(name@),
                Error::AcquireFailed(name) => Refusal::AcquireFailed(name@),
                _ => Refusal::Other(error),
            };
            &&& acquire_step(task, Reply::Failed(error)) == AcquireStepView::Failed(passed_on)
            &&& acquire_learnt(screen, Err(error)) == AcquireStepView::Failed(passed_on)
        }),
{
}

} // verus!
