use incro::device::{is_absorbed, OUTPUT_DEVICE_NAME};
use incro::event::{InputEvent, EV_KEY, EV_REL, EV_SYN, SYN_REPORT};
use incro::fault::{respond, Condition, Fault, Response};
use incro::loader::LoadError;

#[test]
fn new_event_holds_its_triple() {
    let event = InputEvent::new(EV_KEY, 272, 1);
    assert_eq!(event.event_type, 1);
    assert_eq!(event.code, 272);
    assert_eq!(event.value, 1);
    assert_eq!(event, InputEvent { event_type: 1, code: 272, value: 1 });
}

#[test]
fn event_constants_match_the_kernel() {
    assert_eq!(EV_SYN, 0);
    assert_eq!(EV_KEY, 1);
    assert_eq!(EV_REL, 2);
    assert_eq!(SYN_REPORT, 0);
}

#[test]
fn sync_report_is_the_boundary_marker() {
    assert!(InputEvent::new(EV_SYN, SYN_REPORT, 0).is_sync_report());
    assert!(InputEvent::new(0, 0, 17).is_sync_report());
}

#[test]
fn other_synchronization_events_are_no_boundary() {
    assert!(!InputEvent::new(EV_SYN, 1, 0).is_sync_report());
    assert!(!InputEvent::new(EV_SYN, 2, 0).is_sync_report());
    assert!(!InputEvent::new(EV_SYN, 3, 0).is_sync_report());
    assert!(!InputEvent::new(EV_SYN, u16::MAX, 0).is_sync_report());
}

#[test]
fn events_of_other_types_are_no_boundary_even_with_code_zero() {
    assert!(!InputEvent::new(EV_KEY, 0, 0).is_sync_report());
    assert!(!InputEvent::new(EV_REL, 0, 0).is_sync_report());
    assert!(!InputEvent::new(3, 0, 0).is_sync_report());
    assert!(!InputEvent::new(0x15, 0, 0).is_sync_report());
    assert!(!InputEvent::new(0x0101, 0, 0).is_sync_report());
    assert!(!InputEvent::new(u16::MAX, 0, 0).is_sync_report());
}

#[test]
fn the_host_grabs_devices_with_keys() {
    let keyboard = "AT Translated Set 2 keyboard".to_string();
    assert!(is_absorbed(Some(&keyboard), true));
    assert!(is_absorbed(None, true));
}

#[test]
fn the_host_leaves_devices_without_keys() {
    let lid = "Lid Switch".to_string();
    assert!(!is_absorbed(Some(&lid), false));
    assert!(!is_absorbed(None, false));
}

#[test]
fn the_host_never_grabs_its_own_output_device() {
    assert_eq!(OUTPUT_DEVICE_NAME, "Incro");
    let own = "Incro".to_string();
    assert!(!is_absorbed(Some(&own), true));
    assert!(!is_absorbed(Some(&own), false));
    let near = "incro".to_string();
    assert!(is_absorbed(Some(&near), true));
}

#[test]
fn load_errors_are_reported_and_the_host_goes_on() {
    assert_eq!(respond(Condition::Load(LoadError::Open)), Response::Report);
    assert_eq!(respond(Condition::Load(LoadError::InvalidPath)), Response::Report);
    assert_eq!(respond(Condition::Load(LoadError::MissingSymbol)), Response::Report);
    assert_eq!(respond(Condition::Load(LoadError::VersionMismatch(2, 1))), Response::Report);
    assert_eq!(respond(Condition::Load(LoadError::AlreadyLoaded)), Response::Report);
}

#[test]
fn a_registry_inconsistency_is_a_warning() {
    assert_eq!(respond(Condition::RegistryInconsistency), Response::Warn);
}

#[test]
fn every_fault_shuts_the_host_down() {
    for fault in [
        Fault::DeviceReadFailure,
        Fault::DeviceWriteFailure,
        Fault::ChannelClosed,
        Fault::LockPoisoned,
    ] {
        assert_eq!(respond(Condition::Fatal(fault)), Response::Shutdown);
    }
}
