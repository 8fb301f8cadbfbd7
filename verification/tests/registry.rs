use azalea::applet::connection::{BufConnection, Fill};
use azalea::applet::host::{event_pump, Delivery, EventStep};
use azalea::applet::interface::{
    Applet, AppletEvent, AppletInfo, AppletPosition, AppletRequest, Limits, Margin, Size,
};
use azalea::applet::launch::{LaunchCommand, LaunchError};
use azalea::applet::registry::{Registry, EVENT_CHANNEL_CAPACITY};
use azalea::applet::runtime::RuntimeRequest;
use std::cmp::Ordering;
use tokio::sync::broadcast::{channel, error::TryRecvError};

fn info(command: &str) -> AppletInfo {
    AppletInfo {
        id: String::from("clock"),
        name: String::from("Clock"),
        keywords: vec![String::from("time"), String::from("date")],
        command: String::from(command),
        icon: String::from("/usr/share/icons/clock.svg"),
    }
}

fn launch(command: &str, order: u32, position: AppletPosition) -> RuntimeRequest {
    RuntimeRequest::Launch { info: info(command), order, position }
}

fn applet(id: u32, order: u32, position: AppletPosition) -> Applet<&'static str> {
    Applet::new(info("clock"), order, position, id, "handle")
}

#[test]
fn a_new_registry_is_empty() {
    let registry: Registry<()> = Registry::new();
    assert_eq!(registry.len(), 0);
    assert!(registry.is_empty());
    assert!(!registry.contains(4242));
    assert!(registry.lookup(4242).is_none());
}

#[test]
fn a_launched_applet_is_found_by_its_process_id() {
    let mut registry = Registry::new();
    let announced = registry.register(launch("clock --utc", 3, AppletPosition::End), Some((4242, "tx")));
    assert_eq!(announced, Some(4242));
    assert_eq!(registry.len(), 1);
    assert!(registry.contains(4242));
    assert!(!registry.contains(4243));
    let found = registry.lookup(4242).unwrap();
    assert_eq!(found.id, 4242);
    assert_eq!(found.order, 3);
    assert_eq!(found.position, AppletPosition::End);
    assert_eq!(found.info, info("clock --utc"));
    assert_eq!(found.limits, None);
    assert_eq!(found.intrinsic, None);
    assert_eq!(found.size, None);
    assert_eq!(found.margin, Margin { top: 0, right: 0, bottom: 0, left: 0 });
    assert_eq!(found.handle, "tx");
}

#[test]
fn a_failed_start_leaves_the_registry_as_it_was() {
    let mut registry: Registry<u8> = Registry::new();
    assert_eq!(registry.register(launch("/no/such/program", 0, AppletPosition::Start), None), None);
    assert_eq!(registry.len(), 0);
    registry.register(launch("clock", 0, AppletPosition::Start), Some((10, 1)));
    assert_eq!(registry.register(launch("/no/such/program", 1, AppletPosition::Start), None), None);
    assert_eq!(registry.len(), 1);
    assert!(registry.contains(10));
    assert_eq!(registry.lookup(10).unwrap().handle, 1);
}

#[test]
fn a_description_without_a_command_cannot_be_launched() {
    assert_eq!(info("").launch().unwrap_err(), LaunchError::EmptyCommand);
    assert_eq!(info("  \t \n ").launch().unwrap_err(), LaunchError::EmptyCommand);
    assert_eq!(LaunchCommand::from_words(Vec::new()).unwrap_err(), LaunchError::EmptyCommand);
}

#[test]
fn a_command_line_is_a_program_and_its_arguments() {
    let plain = info("clock").launch().unwrap();
    assert_eq!(plain.program, "clock");
    assert!(plain.args.is_empty());
    let spaced = info("  /usr/bin/clock   --utc\t-f  %H:%M \n").launch().unwrap();
    assert_eq!(spaced.program, "/usr/bin/clock");
    assert_eq!(spaced.args, vec!["--utc", "-f", "%H:%M"]);
    let words = vec![String::from("a"), String::from("b"), String::from("c")];
    let command = LaunchCommand::from_words(words).unwrap();
    assert_eq!(command.program, "a");
    assert_eq!(command.args, vec!["b", "c"]);
}

#[test]
fn each_process_id_has_one_entry() {
    let mut registry = Registry::new();
    for pid in [5u32, 9, 7] {
        assert!(registry.insert(applet(pid, pid, AppletPosition::Center)).is_none());
    }
    assert_eq!(registry.len(), 3);
    let before = registry.insert(applet(9, 100, AppletPosition::End)).unwrap();
    assert_eq!(before.order, 9);
    assert_eq!(registry.len(), 3);
    assert_eq!(registry.lookup(9).unwrap().order, 100);
    assert_eq!(registry.lookup(5).unwrap().order, 5);
    assert_eq!(registry.lookup(7).unwrap().order, 7);
}

#[test]
fn closing_removes_only_the_entry_asked_for() {
    let mut registry = Registry::new();
    for pid in [5u32, 9, 7] {
        registry.insert(applet(pid, pid, AppletPosition::Center));
    }
    assert!(registry.close(6).is_none());
    assert_eq!(registry.len(), 3);
    let gone = registry.close(9).unwrap();
    assert_eq!(gone.id, 9);
    assert_eq!(registry.len(), 2);
    assert!(!registry.contains(9));
    assert!(registry.contains(5));
    assert!(registry.contains(7));
    assert!(registry.close(9).is_none());
    assert_eq!(registry.close(5).unwrap().id, 5);
    assert_eq!(registry.close(7).unwrap().id, 7);
    assert!(registry.is_empty());
}

#[test]
fn requests_are_noted_in_the_senders_entry() {
    let mut registry = Registry::new();
    registry.insert(applet(1, 0, AppletPosition::Start));
    registry.insert(applet(2, 0, AppletPosition::Start));
    let limits = Limits {
        min: Size { width: 1.0f32.to_bits(), height: 1.0f32.to_bits() },
        max: Size { width: 4.0f32.to_bits(), height: 1.0f32.to_bits() },
    };
    let size = Size { width: 2.0f32.to_bits(), height: 1.0f32.to_bits() };
    assert!(registry.apply_request(2, AppletRequest::Limits(limits)));
    assert!(registry.apply_request(2, AppletRequest::Intrinsic(size)));
    assert!(!registry.apply_request(3, AppletRequest::Intrinsic(size)));
    assert_eq!(registry.len(), 2);
    assert_eq!(registry.lookup(2).unwrap().limits, Some(limits));
    assert_eq!(registry.lookup(2).unwrap().intrinsic, Some(size));
    assert_eq!(registry.lookup(2).unwrap().handle, "handle");
    assert_eq!(registry.lookup(1).unwrap().limits, None);
    assert_eq!(registry.lookup(1).unwrap().intrinsic, None);
}

#[test]
fn applets_are_ordered_by_position_and_then_by_order() {
    let first = applet(1, 9, AppletPosition::Start);
    let second = applet(2, 0, AppletPosition::Center);
    let third = applet(3, 1, AppletPosition::Center);
    let last = applet(4, 0, AppletPosition::End);
    assert_eq!(first.partial_cmp(&second), Some(Ordering::Less));
    assert_eq!(second.partial_cmp(&third), Some(Ordering::Less));
    assert_eq!(third.partial_cmp(&second), Some(Ordering::Greater));
    assert_eq!(last.partial_cmp(&first), Some(Ordering::Greater));
    assert_eq!(second.partial_cmp(&applet(9, 0, AppletPosition::Center)), Some(Ordering::Equal));
    assert!(first < last);
    assert!(third > second);
    assert_eq!(AppletPosition::Start.to_rank(), 0);
    assert_eq!(AppletPosition::Center.to_rank(), 1);
    assert_eq!(AppletPosition::End.to_rank(), 2);
    assert!(AppletPosition::Start < AppletPosition::Center);
    assert!(AppletPosition::Center < AppletPosition::End);
}

#[test]
fn applets_are_equal_without_regard_to_what_the_host_gave() {
    let one = applet(1, 2, AppletPosition::Start);
    let mut other = applet(1, 2, AppletPosition::Start);
    other.size = Some(Size { width: 1, height: 1 });
    other.margin = Margin { top: 1, right: 2, bottom: 3, left: 4 };
    other.handle = "another handle";
    assert!(one == other);
    other.intrinsic = Some(Size { width: 1, height: 1 });
    assert!(one != other);
    assert!(one != applet(2, 2, AppletPosition::Start));
    assert!(one != applet(1, 3, AppletPosition::Start));
    assert!(one != applet(1, 2, AppletPosition::End));
    let mut renamed = applet(1, 2, AppletPosition::Start);
    renamed.info.keywords.push(String::from("alarm"));
    assert!(one != renamed);
    let mut limited = applet(1, 2, AppletPosition::Start);
    limited.limits = Some(Limits {
        min: Size { width: 0, height: 0 },
        max: Size { width: 9, height: 9 },
    });
    assert!(one != limited);
}

#[test]
fn descriptions_are_compared_field_by_field() {
    assert!(info("clock") == info("clock"));
    assert!(info("clock") != info("clock --utc"));
    let mut other = info("clock");
    other.keywords = vec![String::from("time")];
    assert!(info("clock") != other);
    other.keywords = vec![String::from("time"), String::from("day")];
    assert!(info("clock") != other);
    other.keywords = vec![String::from("time"), String::from("date")];
    assert!(info("clock") == other);
    other.icon = String::from("other.svg");
    assert!(info("clock") != other);
    let mut named = info("clock");
    named.name = String::from("Watch");
    assert!(info("clock") != named);
    let mut numbered = info("clock");
    numbered.id = String::from("watch");
    assert!(info("clock") != numbered);
}

#[test]
fn a_lagging_subscriber_loses_the_oldest_events_and_none_of_the_order() {
    assert_eq!(EVENT_CHANNEL_CAPACITY, 100);
    let (sender, mut receiver) = channel::<AppletEvent>(EVENT_CHANNEL_CAPACITY);
    for number in 0..150u32 {
        assert!(sender.send(AppletEvent::GridSize(number)).is_ok());
    }
    drop(sender);
    let mut reader = BufConnection::new();
    let mut lost = 0u64;
    loop {
        let delivery = match receiver.try_recv() {
            Ok(event) => Delivery::Event(event),
            Err(TryRecvError::Lagged(missed)) => Delivery::Lagged(missed),
            Err(TryRecvError::Closed) | Err(TryRecvError::Empty) => Delivery::Closed,
        };
        match event_pump(delivery) {
            EventStep::Write(bytes) => assert_eq!(reader.fill(&bytes), Ok(Fill::More)),
            EventStep::Skip => match delivery {
                Delivery::Lagged(missed) => lost += missed,
                _ => unreachable!(),
            },
            EventStep::Stop => break,
        }
    }
    let mut seen = Vec::new();
    while let Some(event) = reader.parse_frame::<AppletEvent>().unwrap() {
        seen.push(event);
    }
    assert!(seen.len() < 150);
    assert!(lost > 0);
    assert_eq!(seen.len() as u64 + lost, 150);
    let expected: Vec<AppletEvent> = (lost as u32..150).map(AppletEvent::GridSize).collect();
    assert_eq!(seen, expected);
}
