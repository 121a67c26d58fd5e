//! The tray host against a small make-believe X server.

use std::collections::HashMap;
use x11rb::errors::{ConnectionError, ReplyError, ReplyOrIdError};
use xembsni::acquire::{AcquireStep, AcquireTask};
use xembsni::bridge::{watcher_appeared, Action, Bridge};
use xembsni::control::{ClickStep, ClickTask, Gesture};
use xembsni::host::{Next, Turn};
use xembsni::request::{
    Atoms, ButtonEvent, ClientMessage, NewWindow, Reply, Request, ServerEvent,
};
use xembsni::sni::{PublishedItem, Signal};
use xembsni::visual::{Depth, PixmapFormat, Screen, Setup, Visual};
use xembsni::{Error, IconEvent, TrayControl, TrayHost};

const ROOT: u32 = 7;
const VISUAL: u32 = 33;
const SELECTION: u32 = 900;
const ICON: u32 = 0x40_0001;
const RED: u32 = 0x00ff_0000;

const ATOMS: Atoms = Atoms {
    manager: 101,
    net_system_tray_opcode: 102,
    net_system_tray_orientation: 103,
    xembed: 104,
    xembed_info: 105,
    net_wm_name: 106,
    net_wm_icon: 107,
    utf8_string: 108,
    xembsni_wakeup: 109,
    cardinal: 6,
    string: 31,
    wm_name: 39,
    wm_class: 67,
};

struct Window {
    parent: u32,
    width: u16,
    height: u16,
    visual: u32,
    mapped: bool,
    pixel: Option<u32>,
    properties: HashMap<u32, (u8, Vec<u8>)>,
}

struct Server {
    windows: HashMap<u32, Window>,
    children: Vec<u32>,
    selection_owner: u32,
    /// Whether whoever sets the selection's owner gets it.
    yields: bool,
    next_id: u32,
    log: Vec<Request>,
}

fn broken() -> Reply {
    Reply::Failed(Error::from(ReplyError::from(ConnectionError::UnknownError)))
}

fn setup() -> Setup {
    Setup {
        roots: vec![Screen {
            root: ROOT,
            root_visual: VISUAL,
            allowed_depths: vec![Depth {
                depth: 24,
                visuals: vec![Visual {
                    visual_id: VISUAL,
                    red_mask: 0xff_0000,
                    green_mask: 0xff00,
                    blue_mask: 0xff,
                }],
            }],
        }],
        pixmap_formats: vec![PixmapFormat { depth: 24, bits_per_pixel: 32 }],
        image_byte_order_msb: false,
        resource_id_mask: 0x1f_ffff,
    }
}

impl Server {
    fn new() -> Server {
        Server {
            windows: HashMap::new(),
            children: Vec::new(),
            selection_owner: 0,
            yields: true,
            next_id: 0x20_0000,
            log: Vec::new(),
        }
    }

    fn add(&mut self, window: u32, width: u16, height: u16, pixel: Option<u32>) {
        self.windows.insert(
            window,
            Window {
                parent: ROOT,
                width,
                height,
                visual: VISUAL,
                mapped: false,
                pixel,
                properties: HashMap::new(),
            },
        );
        self.children.push(window);
    }

    fn set(&mut self, window: u32, property: u32, format: u8, value: &[u8]) {
        let window = self.windows.get_mut(&window).unwrap();
        window.properties.insert(property, (format, value.to_vec()));
    }

    fn set_words(&mut self, window: u32, property: u32, words: &[u32]) {
        let value: Vec<u8> = words.iter().flat_map(|word| word.to_ne_bytes()).collect();
        self.set(window, property, 32, &value);
    }

    fn perform(&mut self, request: Request) -> Reply {
        self.log.push(request);
        match request {
            Request::GetSelectionOwner { selection } => {
                assert_eq!(selection, SELECTION);
                Reply::Owner(self.selection_owner)
            }
            Request::SetSelectionOwner { owner, selection, time } => {
                assert_eq!((selection, time), (SELECTION, 0));
                self.selection_owner = if self.yields { owner } else { 666 };
                Reply::Done
            }
            Request::GenerateId => {
                self.next_id += 1;
                Reply::Id(self.next_id)
            }
            Request::CreateWindow(new) => {
                self.add(new.window, new.width, new.height, None);
                Reply::Done
            }
            Request::DestroyWindow { window } => {
                self.windows.remove(&window);
                Reply::Done
            }
            Request::MapWindow { window } => match self.windows.get_mut(&window) {
                Some(window) => {
                    window.mapped = true;
                    Reply::Done
                }
                None => broken(),
            },
            Request::UnmapWindow { window } => match self.windows.get_mut(&window) {
                Some(window) => {
                    window.mapped = false;
                    Reply::Done
                }
                None => broken(),
            },
            Request::ReparentWindow { window, parent, .. } => {
                match self.windows.get_mut(&window) {
                    Some(window) => {
                        window.parent = parent;
                        Reply::Done
                    }
                    None => broken(),
                }
            }
            Request::GetProperty { window, property, .. } => match self.windows.get(&window) {
                Some(window) => match window.properties.get(&property) {
                    Some((format, value)) => {
                        Reply::Property { format: *format, value: value.clone() }
                    }
                    None => Reply::Property { format: 0, value: Vec::new() },
                },
                None => broken(),
            },
            Request::GetGeometry { window } => match self.windows.get(&window) {
                Some(window) => Reply::Geometry { width: window.width, height: window.height },
                None => broken(),
            },
            Request::GetWindowAttributes { window } => match self.windows.get(&window) {
                Some(window) => Reply::Visual(window.visual),
                None => broken(),
            },
            Request::QueryTree { window } => {
                assert_eq!(window, ROOT);
                Reply::Tree { children: self.children.clone() }
            }
            Request::NameWindowPixmap { window, pixmap } => match self.windows.get(&window) {
                Some(named) if named.mapped => {
                    let (width, height, pixel) = (named.width, named.height, named.pixel);
                    self.add(pixmap, width, height, pixel);
                    Reply::Done
                }
                _ => broken(),
            },
            Request::FreePixmap { pixmap } => {
                self.windows.remove(&pixmap);
                self.children.retain(|child| *child != pixmap);
                Reply::Done
            }
            Request::GetImage { drawable, width, height } => {
                match self.windows.get(&drawable).and_then(|drawable| drawable.pixel) {
                    Some(pixel) => {
                        let count = width as usize * height as usize;
                        Reply::Image { data: pixel.to_le_bytes().repeat(count) }
                    }
                    None => broken(),
                }
            }
            Request::SelectInput { window, .. } => {
                if self.windows.contains_key(&window) {
                    Reply::Done
                } else {
                    broken()
                }
            }
            _ => Reply::Done,
        }
    }

    fn perform_all(&mut self, requests: Vec<Request>) -> Reply {
        let mut last = Reply::Done;
        for request in requests {
            last = self.perform(request);
            if let Reply::Failed(_) = last {
                break;
            }
        }
        last
    }

    /// What the server was asked for since the last look.
    fn asked(&mut self) -> Vec<Request> {
        std::mem::take(&mut self.log)
    }
}

fn acquire(server: &mut Server) -> Result<TrayHost, Error> {
    let mut step = TrayHost::acquire_on(0);
    loop {
        step = match step {
            AcquireStep::Ask { requests, task } => task.resume(server.perform_all(requests)),
            AcquireStep::Learn { screen } => AcquireTask::describe(screen, Ok((ATOMS, setup()))),
            AcquireStep::Intern { name, task } => {
                assert_eq!(name, "_NET_SYSTEM_TRAY_S0");
                task.resume(Reply::Atom(SELECTION))
            }
            AcquireStep::Acquired(host) => return Ok(host),
            AcquireStep::Failed(error) => return Err(error),
        };
    }
}

/// Follows a turn to its end; gives what was reported, and whether the host
/// stops.
fn follow(host: &mut TrayHost, server: &mut Server, mut turn: Turn) -> (Vec<IconEvent>, bool) {
    let mut events = Vec::new();
    loop {
        for request in turn.forget {
            server.perform(request);
        }
        events.extend(turn.emit);
        match turn.next {
            Next::Wait => return (events, false),
            Next::Stop => return (events, true),
            Next::Ask { requests, pending } => {
                let reply = server.perform_all(requests);
                turn = host.resume(pending, reply);
            }
        }
    }
}

fn react(host: &mut TrayHost, server: &mut Server, event: ServerEvent) -> Vec<IconEvent> {
    let turn = host.on_event(event);
    let (events, stop) = follow(host, server, turn);
    assert!(!stop);
    events
}

fn dock_event(icon: u32) -> ServerEvent {
    ServerEvent::ClientMessage { type_: ATOMS.net_system_tray_opcode, data: [0, 0, icon, 0, 0] }
}

fn dock(host: &mut TrayHost, server: &mut Server, icon: u32) -> Vec<IconEvent> {
    react(host, server, dock_event(icon))
}

fn changed(window: u32, atom: u32) -> ServerEvent {
    ServerEvent::PropertyNotify { window, atom }
}

fn has_red(argb32: &[u8]) -> bool {
    argb32.chunks_exact(4).any(|p| p == [0xff, 0xff, 0x00, 0x00])
}

#[test]
fn icon_is_embedded_captured_and_removed() {
    let mut server = Server::new();
    let mut host = acquire(&mut server).unwrap();
    server.add(ICON, 24, 24, Some(RED));
    server.set(ICON, ATOMS.wm_class, 8, b"testicon\0TestIcon\0");

    let added = dock(&mut host, &mut server, ICON);
    assert_eq!(added.len(), 1);
    match &added[0] {
        IconEvent::Added { meta, image } => {
            assert_eq!(meta.id, ICON);
            assert_eq!(meta.app_id, "testicon");
            let image = image.as_ref().expect("never captured the icon's red pixels");
            assert_eq!((image.width, image.height), (24, 24));
            assert_eq!(image.argb32.len(), 24 * 24 * 4);
            assert!(has_red(&image.argb32), "never captured the icon's red pixels");
        }
        other => panic!("never received an Added event: {other:?}"),
    }
    let state = host.icon(ICON).unwrap();
    assert_eq!(server.windows[&ICON].parent, state.container);

    server.windows.remove(&ICON);
    let removed = react(&mut host, &mut server, ServerEvent::DestroyNotify { window: ICON });
    assert_eq!(removed, vec![IconEvent::Removed { id: ICON }]);
    assert!(host.icon(ICON).is_none());
    assert!(!server.windows.contains_key(&state.container));
}

#[test]
fn xembed_info_toggles_visibility() {
    let mut server = Server::new();
    let mut host = acquire(&mut server).unwrap();
    server.add(ICON, 24, 24, Some(RED));
    server.set_words(ICON, ATOMS.xembed_info, &[0, 1]);
    assert_eq!(dock(&mut host, &mut server, ICON).len(), 1, "icon was never embedded");
    assert!(server.windows[&ICON].mapped);

    server.set_words(ICON, ATOMS.xembed_info, &[0, 0]);
    let hidden = react(&mut host, &mut server, changed(ICON, ATOMS.xembed_info));
    assert_eq!(
        hidden,
        vec![IconEvent::VisibilityChanged { id: ICON, visible: false }],
        "hide not reported"
    );
    assert!(!server.windows[&ICON].mapped);

    // Saying the same again changes nothing.
    assert_eq!(react(&mut host, &mut server, changed(ICON, ATOMS.xembed_info)), vec![]);

    server.set_words(ICON, ATOMS.xembed_info, &[0, 1]);
    let shown = react(&mut host, &mut server, changed(ICON, ATOMS.xembed_info));
    assert_eq!(
        shown,
        vec![IconEvent::VisibilityChanged { id: ICON, visible: true }],
        "show not reported"
    );
    assert!(server.windows[&ICON].mapped);
}

#[test]
fn acquiring_takes_and_announces_the_selection() {
    let mut server = Server::new();
    let host = acquire(&mut server).unwrap();
    assert_eq!(host.selection_name(), "_NET_SYSTEM_TRAY_S0");
    let owner = server.selection_owner;
    assert_eq!(
        server.asked(),
        vec![
            Request::QueryComposite { major: 0, minor: 4 },
            Request::QueryDamage { major: 1, minor: 1 },
            Request::GetSelectionOwner { selection: SELECTION },
            Request::GenerateId,
            Request::CreateWindow(NewWindow {
                window: owner,
                parent: ROOT,
                x: 0,
                y: 0,
                width: 1,
                height: 1,
                visual: VISUAL,
                override_redirect: false,
                event_mask: 0x40_0000,
                checked: false,
            }),
            Request::ChangeProperty {
                window: owner,
                property: ATOMS.net_system_tray_orientation,
                type_: ATOMS.cardinal,
                value: 0,
            },
            Request::SetSelectionOwner { owner, selection: SELECTION, time: 0 },
            Request::Flush,
            Request::GetSelectionOwner { selection: SELECTION },
            Request::SendMessage {
                destination: ROOT,
                event_mask: 0x2_0000,
                message: ClientMessage {
                    window: ROOT,
                    type_: ATOMS.manager,
                    data: [0, SELECTION, owner, 0, 0],
                },
            },
            Request::Flush,
        ]
    );
}

#[test]
fn a_selection_with_an_owner_is_left_alone() {
    let mut server = Server::new();
    server.selection_owner = 5;
    match acquire(&mut server) {
        Err(Error::AlreadyOwned(name)) => assert_eq!(name, "_NET_SYSTEM_TRAY_S0"),
        _ => panic!("the selection was taken"),
    }
    assert_eq!(server.selection_owner, 5);
    assert!(server.windows.is_empty());
}

#[test]
fn a_selection_that_is_not_yielded_is_an_error() {
    let mut server = Server::new();
    server.yields = false;
    match acquire(&mut server) {
        Err(Error::AcquireFailed(name)) => assert_eq!(name, "_NET_SYSTEM_TRAY_S0"),
        _ => panic!("the selection was taken"),
    }
}

#[test]
fn each_failure_of_an_acquisition_is_passed_on() {
    let fails = |error: Error| match TrayHost::acquire_on(0) {
        AcquireStep::Ask { task, .. } => match task.resume(Reply::Failed(error)) {
            AcquireStep::Failed(error) => error,
            _ => panic!("the failure was ignored"),
        },
        _ => panic!("nothing was asked"),
    };
    assert!(matches!(fails(Error::from(ConnectionError::UnknownError)), Error::Connection(_)));
    assert!(matches!(
        fails(Error::from(ReplyError::from(ConnectionError::UnknownError))),
        Error::Reply(_)
    ));
    assert!(matches!(fails(Error::from(ReplyOrIdError::IdsExhausted)), Error::ReplyOrId(_)));
    assert!(matches!(
        fails(Error::from(x11rb::errors::ConnectError::InvalidScreen)),
        Error::Connect(_)
    ));
    match AcquireTask::describe(3, Err(Error::AcquireFailed("x".to_string()))) {
        AcquireStep::Failed(Error::AcquireFailed(name)) => assert_eq!(name, "x"),
        _ => panic!("the failure was ignored"),
    }
}

#[test]
fn the_selection_is_named_after_the_screen() {
    let mut roots = setup().roots;
    for root in 0..12 {
        roots.push(Screen { root, root_visual: 1, allowed_depths: vec![] });
    }
    match AcquireTask::describe(12, Ok((ATOMS, Setup { roots, ..setup() }))) {
        AcquireStep::Intern { name, .. } => assert_eq!(name, "_NET_SYSTEM_TRAY_S12"),
        _ => panic!("the selection has no name"),
    }
}

#[test]
fn embedding_asks_for_all_that_it_takes() {
    let mut server = Server::new();
    let mut host = acquire(&mut server).unwrap();
    server.add(ICON, 0, 16, Some(RED));
    server.set(ICON, ATOMS.wm_name, 8, b"Own Name");
    server.asked();
    dock(&mut host, &mut server, ICON);
    let state = host.icon(ICON).unwrap();
    assert_eq!((state.width, state.height, state.mapped), (1, 16, true));
    let (container, damage) = (state.container, state.damage);
    let pixmap = server.next_id;
    assert_eq!(
        server.asked(),
        vec![
            Request::GetGeometry { window: ICON },
            Request::GetWindowAttributes { window: ICON },
            Request::SelectInput { window: ICON, event_mask: 0x42_0000 },
            Request::GenerateId,
            Request::CreateWindow(NewWindow {
                window: container,
                parent: ROOT,
                x: -16000,
                y: -16000,
                width: 1,
                height: 16,
                visual: VISUAL,
                override_redirect: true,
                event_mask: 0x2_0000,
                checked: true,
            }),
            Request::ReparentWindow { window: ICON, parent: container, x: 0, y: 0 },
            Request::RedirectWindow { window: ICON },
            Request::GenerateId,
            Request::CreateDamage { damage, drawable: ICON },
            Request::GetProperty {
                window: ICON,
                property: ATOMS.xembed_info,
                type_: 0,
                length: 2,
            },
            Request::MapWindow { window: ICON },
            Request::MapWindow { window: container },
            Request::SendMessage {
                destination: ICON,
                event_mask: 0,
                message: ClientMessage {
                    window: ICON,
                    type_: ATOMS.xembed,
                    data: [0, 0, 0, container, 0],
                },
            },
            Request::Flush,
            Request::GenerateId,
            Request::NameWindowPixmap { window: ICON, pixmap },
            Request::GetImage { drawable: pixmap, width: 1, height: 16 },
            Request::FreePixmap { pixmap },
            Request::GetProperty {
                window: ICON,
                property: ATOMS.wm_class,
                type_: ATOMS.string,
                length: 256,
            },
            Request::GetProperty {
                window: ICON,
                property: ATOMS.net_wm_name,
                type_: ATOMS.utf8_string,
                length: 1024,
            },
            Request::GetProperty {
                window: ICON,
                property: ATOMS.wm_name,
                type_: ATOMS.string,
                length: 1024,
            },
        ]
    );
}

#[test]
fn a_hidden_icon_is_not_mapped_and_falls_back_to_its_window_icon() {
    let mut server = Server::new();
    let mut host = acquire(&mut server).unwrap();
    server.add(ICON, 24, 24, Some(RED));
    server.set_words(ICON, ATOMS.xembed_info, &[0, 0]);
    server.set_words(ICON, ATOMS.net_wm_icon, &[1, 1, 0x8011_2233]);
    match &dock(&mut host, &mut server, ICON)[..] {
        [IconEvent::Added { meta, image: Some(image) }] => {
            assert_eq!(image.argb32, vec![0x80, 0x11, 0x22, 0x33]);
            assert_eq!(meta.app_id, "xembsni-00400001");
            assert_eq!(meta.title, "");
        }
        other => panic!("unexpected events: {other:?}"),
    }
    assert!(!server.windows[&ICON].mapped);
    assert!(!host.icon(ICON).unwrap().mapped);
}

#[test]
fn an_icon_without_any_graphic_is_added_without_an_image() {
    let mut server = Server::new();
    let mut host = acquire(&mut server).unwrap();
    server.add(ICON, 24, 24, None);
    match &dock(&mut host, &mut server, ICON)[..] {
        [IconEvent::Added { image: None, .. }] => {}
        other => panic!("unexpected events: {other:?}"),
    }
    // The pixmap was freed although nothing came of it.
    assert_eq!(server.windows.len(), 3);
}

#[test]
fn docking_nothing_or_the_same_again_is_ignored() {
    let mut server = Server::new();
    let mut host = acquire(&mut server).unwrap();
    server.add(ICON, 24, 24, Some(RED));
    dock(&mut host, &mut server, ICON);
    server.asked();
    assert_eq!(dock(&mut host, &mut server, ICON), vec![]);
    assert_eq!(dock(&mut host, &mut server, 0), vec![]);
    assert_eq!(server.asked(), vec![]);
}

#[test]
fn a_window_that_does_not_exist_cannot_be_docked() {
    let mut server = Server::new();
    let mut host = acquire(&mut server).unwrap();
    assert_eq!(dock(&mut host, &mut server, ICON), vec![]);
    assert!(host.icon(ICON).is_none());
}

#[test]
fn other_messages_are_ignored() {
    let mut server = Server::new();
    let mut host = acquire(&mut server).unwrap();
    server.asked();
    let opcode = ATOMS.net_system_tray_opcode;
    for event in [
        ServerEvent::ClientMessage { type_: opcode, data: [0, 1, ICON, 0, 0] },
        ServerEvent::ClientMessage { type_: opcode, data: [0, 2, ICON, 0, 0] },
        ServerEvent::ClientMessage { type_: opcode, data: [0, 99, ICON, 0, 0] },
        ServerEvent::ClientMessage { type_: 1, data: [0, 0, ICON, 0, 0] },
        ServerEvent::DamageNotify { damage: 4 },
        ServerEvent::DestroyNotify { window: ICON },
        ServerEvent::ReparentNotify { window: ICON, parent: 4 },
        ServerEvent::PropertyNotify { window: ICON, atom: ATOMS.xembed_info },
        ServerEvent::SelectionClear { selection: 4 },
        ServerEvent::Other,
    ] {
        assert_eq!(react(&mut host, &mut server, event), vec![]);
    }
    assert_eq!(server.asked(), vec![]);
}

#[test]
fn damage_brings_the_new_graphic_at_the_new_size() {
    let mut server = Server::new();
    let mut host = acquire(&mut server).unwrap();
    server.add(ICON, 24, 24, Some(RED));
    dock(&mut host, &mut server, ICON);
    let damage = host.icon(ICON).unwrap().damage;
    let window = server.windows.get_mut(&ICON).unwrap();
    (window.width, window.height, window.pixel) = (2, 1, Some(0x0000_00ff));
    server.asked();
    match &react(&mut host, &mut server, ServerEvent::DamageNotify { damage })[..] {
        [IconEvent::Updated { id, image }] => {
            assert_eq!((*id, image.width, image.height), (ICON, 2, 1));
            assert_eq!(image.argb32, vec![0xff, 0, 0, 0xff, 0xff, 0, 0, 0xff]);
        }
        other => panic!("unexpected events: {other:?}"),
    }
    assert_eq!(server.asked()[0], Request::SubtractDamage { damage });
    let state = host.icon(ICON).unwrap();
    assert_eq!((state.width, state.height), (2, 1));
}

#[test]
fn a_changed_window_icon_refreshes_the_graphic() {
    let mut server = Server::new();
    let mut host = acquire(&mut server).unwrap();
    server.add(ICON, 24, 24, Some(RED));
    dock(&mut host, &mut server, ICON);
    match &react(&mut host, &mut server, changed(ICON, ATOMS.net_wm_icon))[..] {
        [IconEvent::Updated { image, .. }] => assert!(has_red(&image.argb32)),
        other => panic!("unexpected events: {other:?}"),
    }
}

#[test]
fn a_title_comes_from_the_icon_or_from_its_largest_sibling() {
    let mut server = Server::new();
    let mut host = acquire(&mut server).unwrap();
    server.add(ICON, 24, 24, Some(RED));
    // Of the same client: a helper of Wine, a small window and a large one.
    for (window, width, name) in [
        (0x40_0002, 900, "Default IME"),
        (0x40_0003, 10, "Small"),
        (0x40_0004, 300, "Battle.net"),
        (0x40_0005, 300, "Battle"),
    ] {
        server.add(window, width, 100, None);
        server.set(window, ATOMS.net_wm_name, 8, name.as_bytes());
    }
    // Of another client.
    server.add(0x60_0001, 5000, 5000, None);
    server.set(0x60_0001, ATOMS.wm_name, 8, b"Elsewhere");
    match &dock(&mut host, &mut server, ICON)[..] {
        [IconEvent::Added { meta, .. }] => assert_eq!(meta.title, "Battle.net"),
        other => panic!("unexpected events: {other:?}"),
    }
    server.set(ICON, ATOMS.wm_name, 8, &[b'O', b'w', b'n', 0xff]);
    for atom in [ATOMS.wm_name, ATOMS.net_wm_name] {
        assert_eq!(
            react(&mut host, &mut server, changed(ICON, atom)),
            vec![IconEvent::TitleChanged { id: ICON, title: "Own\u{fffd}".to_string() }]
        );
    }
}

#[test]
fn an_icon_that_is_pulled_out_is_let_go() {
    let mut server = Server::new();
    let mut host = acquire(&mut server).unwrap();
    server.add(ICON, 24, 24, Some(RED));
    dock(&mut host, &mut server, ICON);
    let state = host.icon(ICON).unwrap();
    let ours = ServerEvent::ReparentNotify { window: ICON, parent: state.container };
    assert_eq!(react(&mut host, &mut server, ours), vec![]);
    server.asked();
    let theirs = ServerEvent::ReparentNotify { window: ICON, parent: ROOT };
    assert_eq!(react(&mut host, &mut server, theirs), vec![IconEvent::Removed { id: ICON }]);
    assert_eq!(
        server.asked(),
        vec![
            Request::DestroyDamage { damage: state.damage },
            Request::DestroyWindow { window: state.container },
            Request::Flush,
        ]
    );
    // Its damage means nothing any more, and it can be docked again.
    let damage = ServerEvent::DamageNotify { damage: state.damage };
    assert_eq!(react(&mut host, &mut server, damage), vec![]);
    assert_eq!(dock(&mut host, &mut server, ICON).len(), 1);
}

#[test]
fn over_a_whole_run_the_reports_are_in_order() {
    let mut server = Server::new();
    let mut host = acquire(&mut server).unwrap();
    let icons = [ICON, ICON + 1, ICON + 2];
    let mut reports = Vec::new();
    let mut random: u32 = 1;
    for _ in 0..400 {
        random = random.wrapping_mul(1_664_525).wrapping_add(1_013_904_223);
        let icon = icons[(random >> 8) as usize % 3];
        if !server.windows.contains_key(&icon) && (random >> 12) % 4 != 0 {
            server.add(icon, 5, 5, Some(RED));
        }
        server_says(&mut server, icon, random);
        let damage = host.icon(icon).map_or(3, |state| state.damage);
        let event = match (random >> 16) % 8 {
            0 | 1 => dock_event(icon),
            2 => ServerEvent::DamageNotify { damage },
            3 => {
                server.windows.remove(&icon);
                ServerEvent::DestroyNotify { window: icon }
            }
            4 => ServerEvent::ReparentNotify { window: icon, parent: ROOT },
            5 => changed(icon, ATOMS.xembed_info),
            6 => changed(icon, ATOMS.net_wm_icon),
            _ => changed(icon, ATOMS.wm_name),
        };
        reports.extend(react(&mut host, &mut server, event));
    }
    let turn = host.on_event(ServerEvent::SelectionClear { selection: SELECTION });
    reports.extend(follow(&mut host, &mut server, turn).0);
    assert_eq!(reports.pop(), Some(IconEvent::SelectionLost));
    assert!(reports.len() > 100);
    let mut held: Vec<u32> = Vec::new();
    for report in reports {
        match report {
            IconEvent::Added { meta, .. } => {
                assert!(!held.contains(&meta.id));
                held.push(meta.id);
            }
            IconEvent::Removed { id } => {
                assert!(held.contains(&id));
                held.retain(|icon| *icon != id);
            }
            IconEvent::Updated { id, image } => {
                assert!(held.contains(&id));
                let pixels = image.width as usize * image.height as usize;
                assert_eq!(image.argb32.len(), 4 * pixels);
            }
            IconEvent::TitleChanged { id, .. } => assert!(held.contains(&id)),
            IconEvent::VisibilityChanged { id, .. } => assert!(held.contains(&id)),
            IconEvent::SelectionLost => panic!("the loss came too early"),
        }
    }
    for icon in icons {
        assert_eq!(held.contains(&icon), host.icon(icon).is_some());
    }
}

/// Lets an icon wish to be shown or not.
fn server_says(server: &mut Server, icon: u32, random: u32) {
    if server.windows.contains_key(&icon) {
        server.set_words(icon, ATOMS.xembed_info, &[0, (random >> 20) % 2]);
    }
}

#[test]
fn a_waker_stops_the_host() {
    let mut server = Server::new();
    let mut host = acquire(&mut server).unwrap();
    match &host.waker().wake()[..] {
        [Request::SendMessage { destination, event_mask: 0, message }, Request::Flush] => {
            assert_eq!(*destination, server.selection_owner);
            assert_eq!(message.window, server.selection_owner);
            let event =
                ServerEvent::ClientMessage { type_: message.type_, data: message.data };
            let turn = host.on_event(event);
            assert_eq!(follow(&mut host, &mut server, turn), (vec![], true));
        }
        other => panic!("unexpected requests: {other:?}"),
    }
}

#[test]
fn handles_show_what_they_are_known_by() {
    let mut server = Server::new();
    let host = acquire(&mut server).unwrap();
    server.selection_owner = host.waker().target;
    let owner = format!("{:#010x}", server.selection_owner);
    assert_eq!(
        format!("{host:?}"),
        format!("TrayHost {{ owner: {owner}, selection: \"_NET_SYSTEM_TRAY_S0\", .. }}")
    );
    assert_eq!(format!("{:?}", host.waker()), format!("Waker {{ target: {owner}, .. }}"));
    assert_eq!(format!("{:x?}", host.waker()), format!("Waker {{ target: {owner}, .. }}"));
    assert_eq!(format!("{:?}", TrayControl { root: 7 }), "TrayControl { .. }");
}

#[test]
fn losing_the_selection_stops_the_host() {
    let mut server = Server::new();
    let mut host = acquire(&mut server).unwrap();
    let turn = host.on_event(ServerEvent::SelectionClear { selection: SELECTION });
    assert_eq!(follow(&mut host, &mut server, turn), (vec![IconEvent::SelectionLost], true));
}

#[test]
fn surviving_icons_go_back_to_the_root() {
    let mut server = Server::new();
    let mut host = acquire(&mut server).unwrap();
    for icon in [ICON, ICON + 1, ICON + 2] {
        server.add(icon, 24, 24, Some(RED));
        dock(&mut host, &mut server, icon);
        assert_ne!(server.windows[&icon].parent, ROOT);
    }
    let containers: Vec<u32> =
        [ICON, ICON + 1, ICON + 2].iter().map(|icon| host.icon(*icon).unwrap().container).collect();
    let requests = host.teardown();
    assert_eq!(requests.len(), 10);
    for (window, container) in [ICON, ICON + 1, ICON + 2].into_iter().zip(containers) {
        let moved = Request::ReparentWindow { window, parent: ROOT, x: 0, y: 0 };
        let k = requests.iter().position(|request| *request == moved).unwrap();
        assert_eq!(requests[k + 1], Request::DestroyWindow { window: container });
    }
    assert_eq!(requests[9], Request::Flush);
    for request in requests {
        server.perform(request);
    }
    for icon in [ICON, ICON + 1, ICON + 2] {
        assert_eq!(server.windows[&icon].parent, ROOT);
        assert!(host.icon(icon).is_none());
    }
    // Besides the icons only the owner's window is left.
    assert_eq!(server.windows.len(), 4);
    assert_eq!(host.teardown(), vec![Request::Flush]);
}

#[test]
fn raw_client_messages_are_read_in_the_byte_order_of_the_machine() {
    let mut raw = [0u8; 20];
    for (i, word) in [1u32, 0, ICON, 4, 5].iter().enumerate() {
        raw[4 * i..4 * i + 4].copy_from_slice(&word.to_ne_bytes());
    }
    assert_eq!(
        ServerEvent::client_message(9, raw),
        ServerEvent::ClientMessage { type_: 9, data: [1, 0, ICON, 4, 5] }
    );
}

fn click(server: &mut Server, gesture: Gesture) -> Result<(), Error> {
    let mut step = ClickTask::start(gesture);
    loop {
        step = match step {
            ClickStep::Ask { requests, task } => task.resume(server.perform_all(requests)),
            ClickStep::Done => return Ok(()),
            ClickStep::Failed(error) => return Err(error),
        };
    }
}

/// The buttons that were pressed on a window.
fn pressed(requests: &[Request], window: u32) -> Vec<u8> {
    let press = |request: &Request| match request {
        Request::SendButton { destination, event, .. }
            if *destination == window && !event.release =>
        {
            Some(event.detail)
        }
        _ => None,
    };
    requests.iter().filter_map(press).collect()
}

#[test]
fn a_click_is_a_press_and_a_release_at_the_centre() {
    let mut server = Server::new();
    server.add(ICON, 25, 40, None);
    let control = TrayControl::connect(&setup(), 0);
    click(&mut server, control.activate(ICON, 0, 0)).unwrap();
    let press = ButtonEvent {
        release: false,
        detail: 1,
        time: 0,
        root: ROOT,
        event: ICON,
        child: 0,
        root_x: 12,
        root_y: 20,
        event_x: 12,
        event_y: 20,
        state: 0,
        same_screen: true,
    };
    let send = |event| Request::SendButton { destination: ICON, event_mask: 12, event };
    assert_eq!(
        server.asked(),
        vec![
            Request::GetGeometry { window: ICON },
            send(press),
            send(ButtonEvent { release: true, state: 0x100, ..press }),
            Request::Flush,
        ]
    );
}

#[test]
fn a_click_tells_where_on_the_screen_it_was() {
    let mut server = Server::new();
    server.add(ICON, 25, 40, None);
    let control = TrayControl::connect(&setup(), 0);
    for (gesture, button, held) in [
        (control.secondary_activate(ICON, 300, 0), 2, 0x200),
        (control.context_menu(ICON, 300, 0), 3, 0x400),
    ] {
        click(&mut server, gesture).unwrap();
        match server.asked()[2] {
            Request::SendButton { event, .. } => {
                assert_eq!((event.detail, event.state), (button, held));
                assert_eq!((event.root_x, event.root_y), (300, 0));
                assert_eq!((event.event_x, event.event_y), (12, 20));
            }
            ref other => panic!("unexpected request: {other:?}"),
        }
    }
}

#[test]
fn scrolling_clicks_the_right_button_often_enough() {
    let mut server = Server::new();
    server.add(ICON, 25, 40, None);
    let control = TrayControl::connect(&setup(), 0);
    for (delta, horizontal, button, times) in [
        (3, false, 4, 3),
        (-1, false, 5, 1),
        (-2, true, 6, 2),
        (2, true, 7, 2),
        (0, true, 6, 0),
        (11, true, 7, 11),
        (-11, false, 5, 11),
        (120, false, 4, 120),
    ] {
        click(&mut server, control.scroll(ICON, delta, horizontal)).unwrap();
        let requests = server.asked();
        assert_eq!(pressed(&requests, ICON), vec![button; times]);
        assert_eq!(requests.len(), 4 * times);
    }
}

#[test]
fn every_scroll_has_a_click_per_step() {
    let control = TrayControl::connect(&setup(), 0);
    let down = control.scroll(ICON, i32::MIN, false);
    assert_eq!((down.button, down.clicks), (5, 1 << 31));
    let right = control.scroll(ICON, i32::MAX, true);
    assert_eq!((right.button, right.clicks), (7, (1 << 31) - 1));
}

#[test]
fn interactions_name_the_root_of_the_screen_they_go_through() {
    let mut setup = setup();
    setup.roots.push(Screen { root: 77, root_visual: 1, allowed_depths: vec![] });
    let host = acquire(&mut Server::new()).unwrap();
    assert_eq!(host.control(&setup, 0), TrayControl { root: ROOT });
    assert_eq!(host.control(&setup, 1), TrayControl { root: 77 });
}

#[test]
fn a_vanished_icon_is_clicked_at_harmless_coordinates() {
    let mut server = Server::new();
    click(&mut server, TrayControl::connect(&setup(), 0).activate(ICON, 0, 0)).unwrap();
    match server.asked()[1] {
        Request::SendButton { event, .. } => assert_eq!((event.event_x, event.event_y), (0, 0)),
        ref other => panic!("unexpected request: {other:?}"),
    }
}

#[test]
fn a_lost_connection_breaks_a_gesture_off() {
    let gesture = TrayControl::connect(&setup(), 0).scroll(ICON, 5, false);
    let lost = || Reply::Failed(Error::from(ConnectionError::UnknownError));
    match ClickTask::start(gesture) {
        ClickStep::Ask { task, .. } => {
            assert!(matches!(task.resume(lost()), ClickStep::Failed(Error::Connection(_))));
        }
        other => panic!("unexpected step: {other:?}"),
    }
    let sending = ClickTask::Send { gesture };
    assert!(matches!(sending.resume(lost()), ClickStep::Failed(Error::Connection(_))));
}

#[test]
fn icon_is_published_and_interactive() {
    // The host and the bridge, with a bus that is a map of items.
    let mut server = Server::new();
    let mut host = acquire(&mut server).unwrap();
    let mut bridge = Bridge::new(host.control(&setup(), 0));
    let mut bus = HashMap::new();
    server.add(ICON, 24, 24, Some(RED));
    server.set(ICON, ATOMS.wm_class, 8, b"e2eicon\0E2eIcon\0");
    server.set(ICON, ATOMS.wm_name, 8, b"E2E Icon");

    for event in dock(&mut host, &mut server, ICON) {
        match bridge.handle_event(event) {
            Action::Publish { id, seq, item } => {
                bus.insert(seq, PublishedItem::publish(4711, seq, item));
                assert_eq!(bridge.published(id, seq, true), None);
            }
            _ => panic!("item was never registered with the watcher"),
        }
    }

    let published = bus.get_mut(&1).expect("item was never registered with the watcher");
    assert_eq!(published.name(), "org.kde.StatusNotifierItem-4711-1");
    let call = published.register();
    assert_eq!(call.destination, "org.kde.StatusNotifierWatcher");
    assert_eq!(call.path, "/StatusNotifierWatcher");
    assert_eq!(call.interface, "org.kde.StatusNotifierWatcher");
    assert_eq!(call.method, "RegisterStatusNotifierItem");
    assert_eq!(call.argument, "org.kde.StatusNotifierItem-4711-1");

    let item = published.item();
    assert_eq!(item.title(), "E2E Icon");
    assert_eq!(item.id(), "e2eicon");
    assert!(
        item.icon_pixmap().iter().any(|(_, _, bytes)| has_red(bytes)),
        "item never exposed the icon's red pixels"
    );

    server.asked();
    click(&mut server, item.activate(0, 0)).unwrap();
    assert!(
        pressed(&server.asked(), ICON).contains(&1),
        "Activate did not reach the icon as a click"
    );
    click(&mut server, item.context_menu(0, 0)).unwrap();
    assert!(
        pressed(&server.asked(), ICON).contains(&3),
        "ContextMenu did not reach the icon as a right click"
    );
    click(&mut server, item.secondary_activate(0, 0)).unwrap();
    assert_eq!(pressed(&server.asked(), ICON), vec![2]);
    click(&mut server, item.scroll(-2, "HoriZontal".to_string())).unwrap();
    assert_eq!(pressed(&server.asked(), ICON), vec![6, 6]);
    click(&mut server, item.scroll(1, "vertical".to_string())).unwrap();
    assert_eq!(pressed(&server.asked(), ICON), vec![4]);

    // The watcher comes back: the item is registered again.
    assert!(watcher_appeared("org.kde.StatusNotifierWatcher", true));
    assert_eq!(bridge.reregister_all(), vec![1]);

    // The icon hides, and goes.
    server.set_words(ICON, ATOMS.xembed_info, &[0, 0]);
    for event in react(&mut host, &mut server, changed(ICON, ATOMS.xembed_info)) {
        match bridge.handle_event(event) {
            Action::SetStatus { seq: 1, status } => {
                let signals = published.set_status(&status);
                assert_eq!(signals, vec![Signal::NewStatus("Passive".to_string())]);
            }
            _ => panic!("the item stayed visible"),
        }
    }
    assert_eq!(published.item().status(), "Passive");
    for event in react(&mut host, &mut server, ServerEvent::DestroyNotify { window: ICON }) {
        assert!(matches!(bridge.handle_event(event), Action::Remove { seq: 1 }));
    }
    assert_eq!(bridge.number(ICON), None);
}
