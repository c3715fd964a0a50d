use sim_cleaner::commands::{create_invocation, delete_invocation, list_invocation};
use sim_cleaner::listing::parse_listing;
use sim_cleaner::session::{Action, Event, SimCleanerCLI, Stage};

const LISTING: &str = r#"{"devices": {"com.apple.CoreSimulator.SimRuntime.iOS-17-0": [
  {"name": "iPhone 15", "state": "Shutdown", "udid": "AAAA-1111",
   "deviceTypeIdentifier": "com.apple.CoreSimulator.SimDeviceType.iPhone-15"},
  {"name": "iPad Air", "state": "Booted", "udid": "BBBB-2222",
   "deviceTypeIdentifier": "com.apple.CoreSimulator.SimDeviceType.iPad-Air"}
]}}"#;

const LISTING_AFTER: &str = r#"{"devices": {"com.apple.CoreSimulator.SimRuntime.iOS-17-0": [
  {"name": "iPad Air", "state": "Booted", "udid": "BBBB-2222",
   "deviceTypeIdentifier": "com.apple.CoreSimulator.SimDeviceType.iPad-Air"},
  {"name": "iPhone 15", "state": "Shutdown", "udid": "CCCC-3333",
   "deviceTypeIdentifier": "com.apple.CoreSimulator.SimDeviceType.iPhone-15"}
]}}"#;

fn words(items: &[&str]) -> Vec<String> {
    items.iter().map(|item| item.to_string()).collect()
}

fn at_menu() -> SimCleanerCLI {
    let mut session = SimCleanerCLI::new();
    assert_eq!(session.stage(), Stage::Start);
    assert_eq!(session.advance(Event::Begin), Some(Action::EnterDirectory));
    assert_eq!(session.advance(Event::DirectoryEntered), Some(Action::ListDevices));
    let devices = parse_listing(LISTING.as_bytes()).unwrap();
    assert_eq!(session.advance(Event::Listed(devices)), Some(Action::Select));
    assert_eq!(session.stage(), Stage::Selecting);
    session
}

#[test]
fn new_session_is_empty() {
    let session = SimCleanerCLI::new();
    assert_eq!(session.stage(), Stage::Start);
    assert!(session.devices().is_empty());
    assert!(session.victims().is_empty());
}

#[test]
fn parse_runtime_shows_text_after_last_dot() {
    let session = at_menu();
    assert_eq!(session.parse_runtime(0), "iOS-17-0");
    assert_eq!(session.parse_runtime(1), "iOS-17-0");
}

#[test]
fn menu_rows_follow_the_device_list() {
    let session = at_menu();
    let rows = session.menu_rows(&words(&["1.2G", "Directory not found"]));
    assert_eq!(
        rows,
        vec![
            "iPhone 15                      iOS-17-0        Shutdown   1.2G".to_string(),
            "iPad Air                       iOS-17-0        Booted     Directory not found"
                .to_string(),
        ]
    );
}

#[test]
fn cancelling_ends_the_run_without_commands() {
    let mut session = at_menu();
    assert_eq!(session.advance(Event::Selected(None)), Some(Action::Exit));
    assert_eq!(session.stage(), Stage::Finished);
    assert!(session.victims().is_empty());
    assert!(session.delete_commands().is_empty());
    assert!(session.create_commands().is_empty());
    assert_eq!(session.advance(Event::CommandsRun), None);
    assert_eq!(session.advance(Event::Answered(true)), None);
    assert_eq!(session.stage(), Stage::Finished);
}

#[test]
fn empty_selection_ends_the_run_without_commands() {
    let mut session = at_menu();
    assert_eq!(session.advance(Event::Selected(Some(vec![]))), Some(Action::Exit));
    assert_eq!(session.stage(), Stage::Finished);
    assert!(session.delete_commands().is_empty());
    assert!(session.create_commands().is_empty());
    assert_eq!(session.advance(Event::DirectoryEntered), None);
}

#[test]
fn selection_outside_the_list_is_refused() {
    let mut session = at_menu();
    assert_eq!(session.advance(Event::Selected(Some(vec![0, 2]))), None);
    assert_eq!(session.stage(), Stage::Selecting);
    assert!(session.victims().is_empty());
    assert_eq!(session.devices().len(), 2);
}

#[test]
fn event_out_of_turn_is_refused() {
    let mut session = SimCleanerCLI::new();
    assert_eq!(session.advance(Event::CommandsRun), None);
    assert_eq!(session.advance(Event::Answered(false)), None);
    assert_eq!(session.advance(Event::Selected(None)), None);
    assert_eq!(session.advance(Event::Listed(vec![])), None);
    assert_eq!(session.advance(Event::DirectoryEntered), None);
    assert_eq!(session.stage(), Stage::Start);
    assert_eq!(session.advance(Event::Begin), Some(Action::EnterDirectory));
    assert_eq!(session.advance(Event::Begin), None);
    assert_eq!(session.stage(), Stage::Resolving);
}

#[test]
fn selecting_both_devices_deletes_each_once() {
    let mut session = at_menu();
    assert_eq!(session.advance(Event::Selected(Some(vec![1, 0]))), Some(Action::Delete));
    assert_eq!(
        session.delete_commands(),
        vec![
            words(&["xcrun", "simctl", "delete", "BBBB-2222"]),
            words(&["xcrun", "simctl", "delete", "AAAA-1111"]),
        ]
    );
    assert_eq!(
        session.progress_lines(),
        words(&["  iPad Air [iOS-17-0]...", "  iPhone 15 [iOS-17-0]..."])
    );
}

#[test]
fn declining_recreation_goes_straight_to_the_listing() {
    let mut session = at_menu();
    assert_eq!(session.advance(Event::Selected(Some(vec![0]))), Some(Action::Delete));
    assert_eq!(session.advance(Event::CommandsRun), Some(Action::Confirm));
    assert_eq!(session.advance(Event::Answered(false)), Some(Action::ListDevices));
    assert_eq!(session.stage(), Stage::Relisting);
    assert_eq!(session.advance(Event::DirectoryEntered), None);
    assert_eq!(session.advance(Event::CommandsRun), None);
    let devices = parse_listing(LISTING_AFTER.as_bytes()).unwrap();
    assert_eq!(session.advance(Event::Listed(devices)), Some(Action::ShowListing));
    assert_eq!(session.stage(), Stage::Finished);
    assert!(session.victims().is_empty());
}

#[test]
fn two_devices_select_first_and_recreate() {
    let mut session = at_menu();
    assert_eq!(session.advance(Event::Selected(Some(vec![0]))), Some(Action::Delete));
    assert_eq!(session.stage(), Stage::Deleting);
    assert_eq!(session.victims(), &vec![0]);
    assert_eq!(
        session.delete_commands(),
        vec![words(&["xcrun", "simctl", "delete", "AAAA-1111"])]
    );
    assert_eq!(session.advance(Event::CommandsRun), Some(Action::Confirm));
    assert_eq!(session.advance(Event::Answered(true)), Some(Action::EnterDirectory));
    assert_eq!(session.advance(Event::DirectoryEntered), Some(Action::Recreate));
    assert_eq!(
        session.create_commands(),
        vec![words(&[
            "xcrun",
            "simctl",
            "create",
            "iPhone 15",
            "com.apple.CoreSimulator.SimDeviceType.iPhone-15",
            "com.apple.CoreSimulator.SimRuntime.iOS-17-0",
        ])]
    );
    assert_eq!(session.advance(Event::CommandsRun), Some(Action::ListDevices));
    let devices = parse_listing(LISTING_AFTER.as_bytes()).unwrap();
    assert_eq!(session.advance(Event::Listed(devices)), Some(Action::ShowListing));
    assert_eq!(session.stage(), Stage::Finished);
    assert!(session.victims().is_empty());
    assert_eq!(session.parse_runtime(0), "iOS-17-0");
    assert_eq!(session.parse_runtime(1), "iOS-17-0");
    assert_eq!(
        session.listing_rows(&words(&["812M", "4.0K"])),
        vec![
            "iPad Air                       iOS-17-0   812M".to_string(),
            "iPhone 15                      iOS-17-0   4.0K".to_string(),
        ]
    );
}

#[test]
fn command_lines_name_the_device_manager() {
    assert_eq!(
        list_invocation(),
        words(&["xcrun", "simctl", "list", "devices", "--json"])
    );
    let devices = parse_listing(LISTING.as_bytes()).unwrap();
    assert_eq!(
        delete_invocation(&devices[1]),
        words(&["xcrun", "simctl", "delete", "BBBB-2222"])
    );
    assert_eq!(
        create_invocation(&devices[1]),
        words(&[
            "xcrun",
            "simctl",
            "create",
            "iPad Air",
            "com.apple.CoreSimulator.SimDeviceType.iPad-Air",
            "com.apple.CoreSimulator.SimRuntime.iOS-17-0",
        ])
    );
}
