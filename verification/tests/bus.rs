use xembsni::bridge::{to_pixmap, watcher_appeared, Action, Bridge, IconActions};
use xembsni::control::{Gesture, TrayControl};
use xembsni::daemon::{
    parse_args, report_bridge, report_host, startup, wind_down, Cause, CliAction, Complaint,
    Startup, TaskEnd, WindDown, HELP,
};
use xembsni::sni::{
    register_with_watcher, ItemActions, PublishedItem, Signal, StatusNotifierItem, ITEM_PATH,
};
use xembsni::{IconEvent, IconImage, IconMeta};

fn control() -> TrayControl {
    TrayControl { root: 7 }
}

fn item() -> StatusNotifierItem<IconActions> {
    StatusNotifierItem::new(
        "app".to_string(),
        "Title".to_string(),
        "ApplicationStatus".to_string(),
        vec![(1, 2, vec![9; 8])],
        IconActions { control: control(), icon: 5 },
    )
}

#[test]
fn a_new_item_is_active_and_has_what_it_was_given() {
    let item = item();
    assert_eq!(item.id(), "app");
    assert_eq!(item.title(), "Title");
    assert_eq!(item.category(), "ApplicationStatus");
    assert_eq!(item.status(), "Active");
    assert_eq!(item.icon_pixmap(), vec![(1, 2, vec![9; 8])]);
    assert_eq!(item.window_id(), 0);
    assert_eq!(item.icon_name(), "");
    assert_eq!(item.overlay_icon_name(), "");
    assert_eq!(item.attention_icon_name(), "");
    assert_eq!(item.attention_movie_name(), "");
    let tip = (String::new(), vec![], "Title".to_string(), String::new());
    assert_eq!(item.tool_tip(), tip);
    assert!(!item.item_is_menu());
    assert_eq!(item.menu(), "/NO_DBUSMENU");
    assert_eq!(ITEM_PATH, "/StatusNotifierItem");
}

/// Writes down what it is asked for.
struct Scribe;

impl ItemActions for Scribe {
    type Effect = String;

    fn activate(&self) -> String {
        "activate".to_string()
    }

    fn secondary_activate(&self) -> String {
        "secondary".to_string()
    }

    fn context_menu(&self) -> String {
        "menu".to_string()
    }

    fn scroll(&self, delta: i32, horizontal: bool) -> String {
        format!("scroll {delta} {horizontal}")
    }
}

#[test]
fn interactions_go_to_the_handler() {
    let none = String::new;
    let item = StatusNotifierItem::new(none(), none(), none(), vec![], Scribe);
    assert_eq!(item.activate(3, 4), "activate");
    assert_eq!(item.secondary_activate(3, 4), "secondary");
    assert_eq!(item.context_menu(3, 4), "menu");
    assert_eq!(item.scroll(7, "HORIZONTAL".to_string()), "scroll 7 true");
    assert_eq!(item.scroll(-7, "horizonta".to_string()), "scroll -7 false");
    assert_eq!(item.scroll(-7, "horizont\u{e4}l".to_string()), "scroll -7 false");
    assert_eq!(item.scroll(1, "vertical".to_string()), "scroll 1 false");
}

#[test]
fn changes_of_an_item_are_signalled() {
    let mut published = PublishedItem::publish(12, 340, item());
    assert_eq!(published.name(), "org.kde.StatusNotifierItem-12-340");
    assert_eq!(published.set_icon(3, 1, vec![0; 12]), vec![Signal::NewIcon]);
    assert_eq!(published.item().icon_pixmap(), vec![(3, 1, vec![0; 12])]);
    assert_eq!(
        published.set_title("Other".to_string()),
        vec![Signal::NewTitle, Signal::NewToolTip]
    );
    assert_eq!(published.item().title(), "Other");
    assert_eq!(published.item().tool_tip().2, "Other");
    assert_eq!(
        published.set_status("NeedsAttention"),
        vec![Signal::NewStatus("NeedsAttention".to_string())]
    );
    assert_eq!(published.item().status(), "NeedsAttention");
    assert_eq!(published.item().id(), "app");
    assert_eq!(published.register(), register_with_watcher(published.name()));
    assert_eq!(published.remove(), "org.kde.StatusNotifierItem-12-340");
}

#[test]
fn a_published_item_shows_its_name() {
    let published = PublishedItem::publish(12, 340, item());
    assert_eq!(
        format!("{published:?}"),
        "PublishedItem { name: \"org.kde.StatusNotifierItem-12-340\" }"
    );
}

#[test]
fn items_of_all_processes_have_names_of_their_own() {
    let name = |pid, seq| PublishedItem::publish(pid, seq, item()).remove();
    assert_ne!(name(1, 11), name(11, 1));
    assert_ne!(name(1, 1), name(1, 2));
    assert_eq!(name(u32::MAX, u64::MAX), format!(
        "org.kde.StatusNotifierItem-{}-{}",
        u32::MAX,
        u64::MAX
    ));
}

fn added(id: u32, app_id: &str, title: &str, image: Option<IconImage>) -> IconEvent {
    let meta = IconMeta { id, app_id: app_id.to_string(), title: title.to_string() };
    IconEvent::Added { meta, image }
}

fn publish(bridge: &mut Bridge, event: IconEvent, success: bool) -> (u64, Option<u64>) {
    match bridge.handle_event(event) {
        Action::Publish { id, seq, .. } => (seq, bridge.published(id, seq, success)),
        _ => panic!("nothing was published"),
    }
}

#[test]
fn an_added_icon_is_published_under_the_next_number() {
    let mut bridge = Bridge::new(control());
    let image = IconImage { width: 1, height: 1, argb32: vec![1, 2, 3, 4] };
    assert_eq!(to_pixmap(image.clone()), vec![(1, 1, vec![1, 2, 3, 4])]);
    match bridge.handle_event(added(5, "app", "Title", Some(image))) {
        Action::Publish { id: 5, seq: 1, item } => {
            assert_eq!(item.id(), "app");
            assert_eq!(item.title(), "Title");
            assert_eq!(item.category(), "ApplicationStatus");
            assert_eq!(item.icon_pixmap(), vec![(1, 1, vec![1, 2, 3, 4])]);
            let left = Gesture { root: 7, icon: 5, button: 1, x: 0, y: 0, clicks: 1 };
            assert_eq!(item.activate(40, 50), left);
        }
        _ => panic!("nothing was published"),
    }
    // Until that is done there is no item.
    assert_eq!(bridge.number(5), None);
    match bridge.handle_event(added(6, "app", "", None)) {
        Action::Publish { id: 6, seq: 2, item } => {
            assert_eq!(item.title(), "app");
            assert_eq!(item.icon_pixmap(), vec![]);
        }
        _ => panic!("nothing was published"),
    }
}

#[test]
fn what_happens_to_an_icon_happens_to_its_item() {
    let mut bridge = Bridge::new(control());
    publish(&mut bridge, added(5, "a", "", None), true);
    publish(&mut bridge, added(6, "b", "", None), true);
    let image = IconImage { width: 2, height: 1, argb32: vec![0; 8] };
    match bridge.handle_event(IconEvent::Updated { id: 6, image }) {
        Action::SetIcon { seq, width, height, argb32 } => {
            assert_eq!((seq, width, height, argb32), (2, 2, 1, vec![0; 8]));
        }
        _ => panic!("the icon was not updated"),
    }
    match bridge.handle_event(IconEvent::TitleChanged { id: 5, title: "T".to_string() }) {
        Action::SetTitle { seq, title } => assert_eq!((seq, title), (1, "T".to_string())),
        _ => panic!("the title was not updated"),
    }
    for (visible, expected) in [(true, "Active"), (false, "Passive")] {
        match bridge.handle_event(IconEvent::VisibilityChanged { id: 5, visible }) {
            Action::SetStatus { seq: 1, status } => assert_eq!(status, expected),
            _ => panic!("the status was not updated"),
        }
    }
    assert!(matches!(bridge.handle_event(IconEvent::Removed { id: 5 }), Action::Remove { seq: 1 }));
    assert_eq!((bridge.number(5), bridge.number(6)), (None, Some(2)));
    // Numbers are not used again.
    assert_eq!(publish(&mut bridge, added(5, "a", "", None), true), (3, None));
}

#[test]
fn icons_without_an_item_are_ignored() {
    let mut bridge = Bridge::new(control());
    publish(&mut bridge, added(5, "a", "", None), false);
    let image = IconImage { width: 1, height: 1, argb32: vec![0; 4] };
    for event in [
        IconEvent::Updated { id: 5, image },
        IconEvent::TitleChanged { id: 5, title: "T".to_string() },
        IconEvent::VisibilityChanged { id: 5, visible: true },
        IconEvent::Removed { id: 5 },
        IconEvent::SelectionLost,
    ] {
        assert!(matches!(bridge.handle_event(event), Action::Nothing));
    }
    assert!(!bridge.exhausted());
}

#[test]
fn a_second_item_of_an_icon_replaces_the_first() {
    let mut bridge = Bridge::new(control());
    assert_eq!(publish(&mut bridge, added(5, "a", "", None), true), (1, None));
    assert_eq!(publish(&mut bridge, added(5, "a", "", None), false), (2, None));
    assert_eq!(bridge.number(5), Some(1));
    assert_eq!(publish(&mut bridge, added(5, "a", "", None), true), (3, Some(1)));
    assert_eq!(bridge.number(5), Some(3));
}

#[test]
fn all_items_are_registered_anew_and_given_up_at_the_end() {
    let mut bridge = Bridge::new(control());
    for id in 10..20 {
        publish(&mut bridge, added(id, "a", "", None), true);
    }
    bridge.handle_event(IconEvent::Removed { id: 12 });
    let expected = vec![1, 2, 4, 5, 6, 7, 8, 9, 10];
    let mut numbers = bridge.reregister_all();
    numbers.sort();
    assert_eq!(numbers, expected);
    let mut numbers = bridge.shut_down();
    numbers.sort();
    assert_eq!(numbers, expected);
    assert_eq!(bridge.reregister_all(), vec![]);
}

#[test]
fn the_bridge_ends_with_the_events_or_the_selection() {
    assert!(Bridge::is_over(&None));
    assert!(Bridge::is_over(&Some(IconEvent::SelectionLost)));
    assert!(!Bridge::is_over(&Some(IconEvent::Removed { id: 1 })));
}

#[test]
fn a_watcher_appears_when_its_name_gets_an_owner() {
    assert!(watcher_appeared("org.kde.StatusNotifierWatcher", true));
    assert!(!watcher_appeared("org.kde.StatusNotifierWatcher", false));
    assert!(!watcher_appeared("org.kde.StatusNotifierWatche", true));
}

fn args(texts: &[&str]) -> Vec<String> {
    texts.iter().map(|text| text.to_string()).collect()
}

#[test]
fn the_first_argument_decides() {
    assert_eq!(parse_args(&args(&[])), Ok(None));
    for help in ["-h", "--help"] {
        assert_eq!(parse_args(&args(&[help, "--version"])), Ok(Some(CliAction::Help)));
    }
    for version in ["-V", "--version"] {
        assert_eq!(parse_args(&args(&[version, "x"])), Ok(Some(CliAction::Version)));
    }
    assert_eq!(parse_args(&args(&["-v"])), Err("unknown argument: -v".to_string()));
    assert_eq!(parse_args(&args(&["", "-h"])), Err("unknown argument: ".to_string()));
}

#[test]
fn the_daemon_starts_as_it_is_told() {
    assert_eq!(startup(&args(&[]), "0.1.0"), Startup::Run);
    assert_eq!(startup(&args(&["-h"]), "0.1.0"), Startup::Print(HELP.to_string()));
    assert_eq!(startup(&args(&["-V"]), "0.1.0"), Startup::Print("xembsni 0.1.0\n".to_string()));
    assert_eq!(
        startup(&args(&["--what"]), "0.1.0"),
        Startup::Refuse { message: format!("unknown argument: --what\n\n{HELP}\n"), status: 2 }
    );
    assert!(HELP.starts_with("xembsni \u{2014} bridge XEmbed"));
    assert!(HELP.ends_with("It exits cleanly on SIGINT/SIGTERM.\n"));
}

#[test]
fn the_host_is_woken_before_it_is_waited_for() {
    assert_eq!(
        wind_down(Cause::Signal),
        vec![WindDown::Wake, WindDown::AwaitBridge, WindDown::Wake, WindDown::JoinHost]
    );
    assert_eq!(
        wind_down(Cause::Bridge(TaskEnd::Error)),
        vec![WindDown::Wake, WindDown::JoinHost]
    );
}

#[test]
fn only_what_went_wrong_is_reported() {
    assert_eq!(report_bridge(TaskEnd::Clean), None);
    assert_eq!(report_bridge(TaskEnd::Cancelled), None);
    assert_eq!(report_bridge(TaskEnd::Error), Some(Complaint::BridgeError));
    assert_eq!(report_bridge(TaskEnd::Panicked), Some(Complaint::BridgePanic));
    assert_eq!(report_host(TaskEnd::Clean), None);
    assert_eq!(report_host(TaskEnd::Error), Some(Complaint::HostError));
    assert_eq!(report_host(TaskEnd::Panicked), Some(Complaint::HostPanic));
    assert_eq!(Complaint::BridgeError.message(), "bridge exited with an error");
    assert_eq!(Complaint::BridgePanic.message(), "bridge task panicked");
    assert_eq!(Complaint::HostError.message(), "X11 event loop exited with an error");
    assert_eq!(Complaint::HostPanic.message(), "X11 thread panicked");
}
