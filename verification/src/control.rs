//! [`TrayControl`]: pointer interactions with embedded icons.
//!
//! Interactions are delivered as synthetic `ButtonPress`/`ButtonRelease` events
//! sent directly to the icon's window, the least invasive approach: the user's
//! real pointer stays where it is.

use crate::error::Error;
use crate::icon::IconId;
use crate::request::{
    ButtonEvent, Reply, Request, CURRENT_TIME, MASK_BUTTON_PRESS, MASK_BUTTON_RELEASE, NONE,
};
use crate::visual::Setup;
use vstd::prelude::*;

verus! {

/// X11 button numbers.
pub const BUTTON_LEFT: u8 = 1;

pub const BUTTON_MIDDLE: u8 = 2;

pub const BUTTON_RIGHT: u8 = 3;

pub const BUTTON_SCROLL_UP: u8 = 4;

pub const BUTTON_SCROLL_DOWN: u8 = 5;

pub const BUTTON_SCROLL_LEFT: u8 = 6;

pub const BUTTON_SCROLL_RIGHT: u8 = 7;

/// A handle for delivering interactions to the icons of a screen.
#[derive(Clone, Copy, PartialEq, Eq)]
pub struct TrayControl {
    /// The screen's root window.
    pub root: u32,
}

/// An interaction with an icon: some clicks of one button.
#[derive(Clone, Copy, Debug, PartialEq, Eq)]
pub struct Gesture {
    pub root: u32,
    pub icon: IconId,
    pub button: u8,
    /// Where on the screen the user acted, or zeros if that is unknown.
    pub x: i32,
    pub y: i32,
    /// How many clicks there are.
    pub clicks: u32,
}

/// The button that scrolls by `delta` steps: positive is up or right.
pub open spec fn scroll_button(delta: i32, horizontal: bool) -> u8 {
    if horizontal {
        if delta > 0 {
            BUTTON_SCROLL_RIGHT
        } else {
            BUTTON_SCROLL_LEFT
        }
    } else {
        if delta > 0 {
            BUTTON_SCROLL_UP
        } else {
            BUTTON_SCROLL_DOWN
        }
    }
}

/// How many clicks a scroll by `delta` steps takes: one for each step.
pub open spec fn scroll_clicks(delta: i32) -> int {
    if delta < 0 {
        -delta
    } else {
        delta as int
    }
}

impl TrayControl {
    /// A handle for a screen of the display: the default one of a connection
    /// that was made for injecting events.
    pub fn connect(setup: &Setup, screen: usize) -> (control: TrayControl)
        requires
            screen < setup.roots@.len(),
        ensures
            control.root == setup.roots@[screen as int].root,
    {
        TrayControl { root: setup.roots[screen].root }
    }

    /// Primary action (left click). `x` and `y` are the screen coordinates of the
    /// interaction, where a resulting menu should appear.
    pub fn activate(&self, icon: IconId, x: i32, y: i32) -> (gesture: Gesture)
        ensures
            gesture == (Gesture { root: self.root, icon, button: BUTTON_LEFT, x, y, clicks: 1 }),
    {
        Gesture { root: self.root, icon, button: BUTTON_LEFT, x, y, clicks: 1 }
    }

    /// Secondary action (middle click).
    pub fn secondary_activate(&self, icon: IconId, x: i32, y: i32) -> (gesture: Gesture)
        ensures
            gesture == (Gesture { root: self.root, icon, button: BUTTON_MIDDLE, x, y, clicks: 1 }),
    {
        Gesture { root: self.root, icon, button: BUTTON_MIDDLE, x, y, clicks: 1 }
    }

    /// Context menu (right click): most legacy tray icons pop their own menu.
    pub fn context_menu(&self, icon: IconId, x: i32, y: i32) -> (gesture: Gesture)
        ensures
            gesture == (Gesture { root: self.root, icon, button: BUTTON_RIGHT, x, y, clicks: 1 }),
    {
        Gesture { root: self.root, icon, button: BUTTON_RIGHT, x, y, clicks: 1 }
    }

    /// Scroll by `delta` steps along the given axis (positive is up or right).
    pub fn scroll(&self, icon: IconId, delta: i32, horizontal: bool) -> (gesture: Gesture)
        ensures
            gesture == (Gesture {
                root: self.root,
                icon,
                button: scroll_button(delta, horizontal),
                x: 0,
                y: 0,
                clicks: scroll_clicks(delta) as u32,
            }),
            gesture.clicks == scroll_clicks(delta),
    {
        let button: u8 = match (horizontal, delta > 0) {
            (false, true) => BUTTON_SCROLL_UP,
            (false, false) => BUTTON_SCROLL_DOWN,
            (true, true) => BUTTON_SCROLL_RIGHT,
            (true, false) => BUTTON_SCROLL_LEFT,
        };
        let clicks: u32 = if delta < 0 {
            (-(delta as i64)) as u32
        } else {
            delta as u32
        };
        Gesture { root: self.root, icon, button, x: 0, y: 0, clicks }
    }
}

/// A gesture that waits for an answer of the server.
#[derive(Clone, Copy, Debug, PartialEq, Eq)]
pub enum ClickTask {
    /// The icon's size was asked for.
    Measure { gesture: Gesture },
    /// A click is being sent.
    Send { gesture: Gesture },
}

/// How a gesture goes on.
#[derive(Debug)]
pub enum ClickStep {
    /// Send the requests in order up to the first that fails, and resume the
    /// task with the reply.
    Ask { requests: Vec<Request>, task: ClickTask },
    /// All clicks were sent.
    Done,
    /// The gesture broke off.
    Failed(Error),
}

/// The model of a [`ClickStep`].
#[verifier::ext_equal]
pub enum ClickStepView {
    Ask { requests: Seq<Request>, task: ClickTask },
    Done,
    Failed(Error),
}

impl View for ClickStep {
    type V = ClickStepView;

    open spec fn view(&self) -> ClickStepView {
        match *self {
            ClickStep::Ask { requests, task } => ClickStepView::Ask { requests: requests@, task },
            ClickStep::Done => ClickStepView::Done,
            ClickStep::Failed(error) => ClickStepView::Failed(error),
        }
    }
}

/// The modifier that a held button shows as.
pub open spec fn held(button: u8) -> u16 {
    if button == BUTTON_LEFT {
        0x100
    } else if button == BUTTON_MIDDLE {
        0x200
    } else if button == BUTTON_RIGHT {
        0x400
    } else {
        0
    }
}

/// Whether it is known where on the screen the user acted.
pub open spec fn placed(gesture: Gesture) -> bool {
    gesture.x != 0 || gesture.y != 0
}

/// The press of a click on a window of the given size: at its centre, and on the
/// screen where the user acted, or at the centre too where that is unknown.
pub open spec fn press(gesture: Gesture, width: u16, height: u16) -> ButtonEvent {
    ButtonEvent {
        release: false,
        detail: gesture.button,
        time: CURRENT_TIME,
        root: gesture.root,
        event: gesture.icon,
        child: NONE,
        root_x: if placed(gesture) {
            gesture.x as i16
        } else {
            (width / 2) as i16
        },
        root_y: if placed(gesture) {
            gesture.y as i16
        } else {
            (height / 2) as i16
        },
        event_x: (width / 2) as i16,
        event_y: (height / 2) as i16,
        state: 0,
        same_screen: true,
    }
}

/// The release of a click: it shows the button as held.
pub open spec fn release(gesture: Gesture, width: u16, height: u16) -> ButtonEvent {
    ButtonEvent { release: true, state: held(gesture.button), ..press(gesture, width, height) }
}

/// A button event for the icon that a gesture is about.
pub open spec fn send(gesture: Gesture, event: ButtonEvent) -> Request {
    Request::SendButton {
        destination: gesture.icon,
        event_mask: MASK_BUTTON_PRESS | MASK_BUTTON_RELEASE,
        event,
    }
}

/// One click on a window of the given size.
pub open spec fn click_requests(gesture: Gesture, width: u16, height: u16) -> Seq<Request> {
    seq![
        send(gesture, press(gesture, width, height)),
        send(gesture, release(gesture, width, height)),
        Request::Flush,
    ]
}

/// The size of the window to click on. One that may have vanished gets harmless
/// coordinates.
pub open spec fn size_in(reply: Reply) -> (u16, u16) {
    match reply {
        Reply::Geometry { width, height } => (width, height),
        _ => (1, 1),
    }
}

/// Whether the question for the icon's size could not even be sent.
pub open spec fn unsent(reply: Reply) -> bool {
    reply matches Reply::Failed(error) && !(error is Reply)
}

/// How a gesture starts: with the size of the icon, if there is a click at all.
pub open spec fn gesture_start(gesture: Gesture) -> ClickStepView {
    if gesture.clicks == 0 {
        ClickStepView::Done
    } else {
        ClickStepView::Ask {
            requests: seq![Request::GetGeometry { window: gesture.icon }],
            task: ClickTask::Measure { gesture },
        }
    }
}

/// How a gesture goes on after a reply.
pub open spec fn gesture_step(task: ClickTask, reply: Reply) -> ClickStepView {
    match task {
        ClickTask::Measure { gesture } => if unsent(reply) {
            ClickStepView::Failed(reply->Failed_0)
        } else {
            ClickStepView::Ask {
                requests: click_requests(gesture, size_in(reply).0, size_in(reply).1),
                task: ClickTask::Send { gesture },
            }
        },
        ClickTask::Send { gesture } => match reply {
            Reply::Failed(error) => ClickStepView::Failed(error),
            _ => gesture_start(one_less(gesture)),
        },
    }
}

/// What is left of a gesture after a click.
pub open spec fn one_less(gesture: Gesture) -> Gesture {
    Gesture {
        clicks: if gesture.clicks == 0 {
            0
        } else {
            (gesture.clicks - 1) as u32
        },
        ..gesture
    }
}

impl ClickTask {
    /// Starts a gesture.
    pub fn start(gesture: Gesture) -> (step: ClickStep)
        ensures
            step@ == gesture_start(gesture),
    {
        if gesture.clicks == 0 {
            ClickStep::Done
        } else {
            let request = Request::GetGeometry { window: gesture.icon };
            let requests: Vec<Request> = vec![request];
            assert(requests@ =~= seq![request]);
            ClickStep::Ask { requests, task: ClickTask::Measure { gesture } }
        }
    }

    /// Takes the server's reply to the requests that the task waits for.
    pub fn resume(self, reply: Reply) -> (step: ClickStep)
        ensures
            step@ == gesture_step(self, reply),
    {
        match self {
            ClickTask::Measure { gesture } => match reply {
                Reply::Geometry { width, height } => click(gesture, width, height),
                Reply::Failed(error) => match error {
                    Error::Reply(_) => click(gesture, 1, 1),
                    _ => ClickStep::Failed(error),
                },
                _ => click(gesture, 1, 1),
            },
            ClickTask::Send { gesture } => match reply {
                Reply::Failed(error) => ClickStep::Failed(error),
                _ => {
                    let clicks: u32 = if gesture.clicks == 0 {
                        0
                    } else {
                        gesture.clicks - 1
                    };
                    ClickTask::start(Gesture { clicks, ..gesture })
                },
            },
        }
    }
}

/// Sends a press and a release of the gesture's button on the icon's window.
fn click(gesture: Gesture, width: u16, height: u16) -> (step: ClickStep)
    ensures
        step@ == (ClickStepView::Ask {
            requests: click_requests(gesture, width, height),
            task: ClickTask::Send { gesture },
        }),
{
    let event_x: i16 = (width / 2) as i16;
    let event_y: i16 = (height / 2) as i16;
    let known: bool = gesture.x != 0 || gesture.y != 0;
    let pressed = ButtonEvent {
        release: false,
        detail: gesture.button,
        time: CURRENT_TIME,
        root: gesture.root,
        event: gesture.icon,
        child: NONE,
        root_x: if known {
            #[verifier::truncate]
            (gesture.x as i16)
        } else {
            event_x
        },
        root_y: if known {
            #[verifier::truncate]
            (gesture.y as i16)
        } else {
            event_y
        },
        event_x,
        event_y,
        state: 0,
        same_screen: true,
    };
    // The release shows the held button in its modifier state.
    let state: u16 = match gesture.button {
        BUTTON_LEFT => 0x100,
        BUTTON_MIDDLE => 0x200,
        BUTTON_RIGHT => 0x400,
        _ => 0,
    };
    let released = ButtonEvent { release: true, state, ..pressed };
    let destination: u32 = gesture.icon;
    let event_mask: u32 = MASK_BUTTON_PRESS | MASK_BUTTON_RELEASE;
    let requests: Vec<Request> = vec![
        Request::SendButton { destination, event_mask, event: pressed },
        Request::SendButton { destination, event_mask, event: released },
        Request::Flush,
    ];
    assert(requests@ =~= click_requests(gesture, width, height));
    ClickStep::Ask { requests, task: ClickTask::Send { gesture } }
}

/// All that is sent in at most `turns` turns, while the server answers as
/// `answers` says.
pub open spec fn sent(
    answers: spec_fn(Request) -> Reply,
    step: ClickStepView,
    turns: nat,
) -> Seq<Request>
    decreases turns,
{
    match step {
        ClickStepView::Ask { requests, task } => if turns == 0 {
            Seq::empty()
        } else {
            requests + sent(
                answers,
                gesture_step(task, answers(requests.last())),
                (turns - 1) as nat,
            )
        },
        _ => Seq::empty(),
    }
}

/// The same click several times over, each after a look at the icon's size.
pub open spec fn repeated(gesture: Gesture, width: u16, height: u16, times: nat) -> Seq<Request>
    decreases times,
{
    if times == 0 {
        Seq::empty()
    } else {
        seq![Request::GetGeometry { window: gesture.icon }] + (click_requests(
            gesture,
            width,
            height,
        ) + repeated(gesture, width, height, (times - 1) as nat))
    }
}

/// A gesture sends as many clicks as it has, all alike, to the icon it is about
/// and to no other window. That the icon has vanished meanwhile does not stop it.
pub proof fn law_gesture_clicks(
    answers: spec_fn(Request) -> Reply,
    gesture: Gesture,
    turns: nat,
)
    requires
        turns >= 2 * gesture.clicks,
        !unsent(answers(Request::GetGeometry { window: gesture.icon })),
        !(answers(Request::Flush) is Failed),
    ensures
        ({
            let (width, height) = size_in(answers(Request::GetGeometry { window: gesture.icon }));
            sent(answers, gesture_start(gesture), turns) == repeated(
                gesture,
                width,
                height,
                gesture.clicks as nat,
            )
        }),
    decreases gesture.clicks,
{
    if gesture.clicks > 0 {
        let asked = Request::GetGeometry { window: gesture.icon };
        let (width, height) = size_in(answers(asked));
        let rest = one_less(gesture);
        reveal_with_fuel(sent, 3);
        assert(seq![asked].last() == asked);
        assert(click_requests(gesture, width, height).last() == Request::Flush);
        law_gesture_clicks(answers, rest, (turns - 2) as nat);
        lemma_repeated(gesture, rest, width, height, rest.clicks as nat);
        assert(sent(answers, gesture_start(gesture), turns) == seq![asked] + (click_requests(
            gesture,
            width,
            height,
        ) + sent(answers, gesture_start(rest), (turns - 2) as nat)));
    }
}

/// How many clicks a gesture has does not show in any of them.
proof fn lemma_repeated(a: Gesture, b: Gesture, width: u16, height: u16, times: nat)
    requires
        b == (Gesture { clicks: b.clicks, ..a }),
    ensures
        repeated(a, width, height, times) == repeated(b, width, height, times),
    decreases times,
{
    if times > 0 {
        lemma_repeated(a, b, width, height, (times - 1) as nat);
        assert(click_requests(a, width, height) =~= click_requests(b, width, height));
    }
}

/// Opposite scrolls use opposite buttons, each once per step.
pub proof fn law_scroll_is_symmetric(delta: i32, horizontal: bool)
    requires
        delta > 0,
    ensures
        scroll_clicks(delta) == scroll_clicks((-delta) as i32),
        scroll_button(delta, horizontal) != scroll_button((-delta) as i32, horizontal),
        scroll_clicks(delta) == delta,
{
}

/// A click is a press and a release of the gesture's button, sent to the icon and
/// flushed. Both are at the centre of the icon's window, as near as whole pixels come;
/// on the screen they are where the user acted, in the sixteen bits that the protocol
/// has for that, or at that centre where that is unknown. The release shows the button as held, and is like the press otherwise.
pub proof fn law_what_a_click_is(gesture: Gesture, width: u16, height: u16)
    ensures
        gesture_step(ClickTask::Measure { gesture }, Reply::Geometry { width, height }) matches
            ClickStepView::Ask { requests, task } && {
            &&& task == (ClickTask::Send { gesture })
            &&& requests.len() == 3
            &&& requests[2] == Request::Flush
            &&& requests[0] matches Request::SendButton { destination, event_mask, event: down }
            &&& destination == gesture.icon
            &&& event_mask == 12
            &&& !down.release
            &&& down.detail == gesture.button
            &&& down.event == gesture.icon
            &&& down.root == gesture.root
            &&& down.child == 0
            &&& down.time == 0
            &&& down.state == 0
            &&& down.same_screen
            &&& 2 * down.event_x <= width < 2 * down.event_x + 2
            &&& 2 * down.event_y <= height < 2 * down.event_y + 2
            &&& gesture.x == 0 && gesture.y == 0 ==> down.root_x == down.event_x && down.root_y
                == down.event_y
            &&& gesture.x != 0 || gesture.y != 0 ==> {
                &&& (gesture.x - down.root_x) % 0x1_0000 == 0
                &&& (gesture.y - down.root_y) % 0x1_0000 == 0
            }
            &&& requests[1] matches Request::SendButton {
                destination: again,
                event_mask: same_mask,
                event: up,
            }
            &&& again == gesture.icon
            &&& same_mask == 12
            &&& up.release
            &&& up == (ButtonEvent { release: true, state: up.state, ..down })
            &&& up.state == if gesture.button == 1 {
                0x100u16
            } else if gesture.button == 2 {
                0x200u16
            } else if gesture.button == 3 {
                0x400u16
            } else {
                0u16
            }
        },
{
    assert(MASK_BUTTON_PRESS | MASK_BUTTON_RELEASE == 12) by {
        assert(0x4u32 | 0x8u32 == 12u32) by (bit_vector);
    }
    let click = click_requests(gesture, width, height);
    assert(click[0] == send(gesture, press(gesture, width, height)));
    assert(click[1] == send(gesture, release(gesture, width, height)));
    let down = press(gesture, width, height);
    assert(down.event_x == width / 2 && down.event_y == height / 2);
    lemma_sixteen_bits(gesture.x);
    lemma_sixteen_bits(gesture.y);
}

/// A number and its lowest sixteen bits differ in whole turns.
proof fn lemma_sixteen_bits(n: i32)
    ensures
        (n - (n as i16)) % 0x1_0000 == 0,
{
    assert((n - (n as i16)) % 0x1_0000 == 0) by (bit_vector);
}

/// An icon that does not answer is clicked as if it were one pixel large. A gesture
/// breaks off where a request could not be sent, with that error, and otherwise has
/// one click less to go after each.
pub proof fn law_how_a_gesture_goes_on(gesture: Gesture, reply: Reply)
    ensures
        gesture.clicks == 0 ==> gesture_start(gesture) is Done,
        gesture.clicks > 0 ==> (gesture_start(gesture) matches ClickStepView::Ask { requests, task }
            && task == (ClickTask::Measure { gesture }) && requests == seq![
            Request::GetGeometry { window: gesture.icon },
        ]),
        !(reply is Geometry) && !(reply matches Reply::Failed(error) && !(error is Reply))
            ==> gesture_step(ClickTask::Measure { gesture }, reply) == gesture_step(
            ClickTask::Measure { gesture },
            Reply::Geometry { width: 1, height: 1 },
        ),
        reply matches Reply::Failed(error) ==> {
            &&& !(error is Reply) ==> gesture_step(ClickTask::Measure { gesture }, reply)
                == ClickStepView::Failed(error)
            &&& gesture_step(ClickTask::Send { gesture }, reply) == ClickStepView::Failed(error)
        },
        !(reply is Failed) && gesture.clicks > 0 ==> gesture_step(
            ClickTask::Send { gesture },
            reply,
        ) == gesture_start(Gesture { clicks: (gesture.clicks - 1) as u32, ..gesture }),
{
}

/// A gesture of so many clicks that every request succeeds of sends, for each of them,
/// a question for the icon's size and the three requests of a click, and nothing else.
pub proof fn law_gesture_sends_each_click(
    answers: spec_fn(Request) -> Reply,
    gesture: Gesture,
    turns: nat,
    k: int,
)
    requires
        turns >= 2 * gesture.clicks,
        answers(Request::GetGeometry { window: gesture.icon }) is Geometry,
        !(answers(Request::Flush) is Failed),
        0 <= k < gesture.clicks,
    ensures
        ({
            let all = sent(answers, gesture_start(gesture), turns);
            let size = answers(Request::GetGeometry { window: gesture.icon });
            &&& all.len() == 4 * gesture.clicks
            &&& all[4 * k] == Request::GetGeometry { window: gesture.icon }
            &&& gesture_step(ClickTask::Measure { gesture }, size) matches ClickStepView::Ask {
                requests,
                ..
            } && all.subrange(4 * k + 1, 4 * k + 4) == requests
        }),
{
    let (width, height) = size_in(answers(Request::GetGeometry { window: gesture.icon }));
    law_gesture_clicks(answers, gesture, turns);
    lemma_each_repetition(gesture, width, height, gesture.clicks as nat, k);
    let all = sent(answers, gesture_start(gesture), turns);
    assert(all.subrange(4 * k + 1, 4 * k + 4) =~= click_requests(gesture, width, height));
}

/// Where each repetition of a click stands.
proof fn lemma_each_repetition(gesture: Gesture, width: u16, height: u16, times: nat, k: int)
    requires
        0 <= k < times,
    ensures
        repeated(gesture, width, height, times).len() == 4 * times,
        repeated(gesture, width, height, times)[4 * k] == (Request::GetGeometry {
            window: gesture.icon,
        }),
        forall|j: int|
            0 <= j < 3 ==> #[trigger] click_requests(gesture, width, height)[j] == repeated(
                gesture,
                width,
                height,
                times,
            )[4 * k + 1 + j],
    decreases times,
{
    let rest = (times - 1) as nat;
    let head = seq![Request::GetGeometry { window: gesture.icon }];
    let click = click_requests(gesture, width, height);
    let later = repeated(gesture, width, height, rest);
    let all = repeated(gesture, width, height, times);
    assert(all == head + (click + later));
    if times > 1 {
        lemma_each_repetition(gesture, width, height, rest, 0);
    }
    if k > 0 {
        lemma_each_repetition(gesture, width, height, rest, k - 1);
        assert(all[4 * k] == later[4 * (k - 1)]);
        assert forall|j: int| 0 <= j < 3 implies #[trigger] click[j] == all[4 * k + 1 + j] by {
            assert(all[4 * k + 1 + j] == later[4 * (k - 1) + 1 + j]);
        }
    }
}

/// Scrolling up, down, left and right use the buttons four to seven, once per step.
pub proof fn law_scroll_directions(delta: i32)
    ensures
        delta > 0 ==> scroll_button(delta, false) == 4 && scroll_button(delta, true) == 7,
        delta < 0 ==> scroll_button(delta, false) == 5 && scroll_button(delta, true) == 6,
        delta >= 0 ==> scroll_clicks(delta) == delta,
        delta <= 0 ==> scroll_clicks(delta) == -delta,
{
}

/// Each action is one click of its button on the icon that it is about, where it was
/// asked for.
pub proof fn law_actions_are_clicks(
    control: TrayControl,
    icon: IconId,
    x: i32,
    y: i32,
    gesture: Gesture,
)
    ensures
        call_ensures(TrayControl::activate, (&control, icon, x, y), gesture) ==> gesture.button
            == 1,
        call_ensures(TrayControl::secondary_activate, (&control, icon, x, y), gesture)
            ==> gesture.button == 2,
        call_ensures(TrayControl::context_menu, (&control, icon, x, y), gesture) ==> gesture.button
            == 3,
        call_ensures(TrayControl::activate, (&control, icon, x, y), gesture) || call_ensures(
            TrayControl::secondary_activate,
            (&control, icon, x, y),
            gesture,
        ) || call_ensures(TrayControl::context_menu, (&control, icon, x, y), gesture) ==> {
            &&& gesture.root == control.root
            &&& gesture.icon == icon
            &&& gesture.x == x
            &&& gesture.y == y
            &&& gesture.clicks == 1
        },
{
}

} // verus!
