//! Input events as plain values.

use vstd::prelude::*;

verus! {

/// Event type of synchronization events.
pub const EV_SYN: u16 = 0x00;

/// Event type of key and button events.
pub const EV_KEY: u16 = 0x01;

/// Event type of relative axis events.
pub const EV_REL: u16 = 0x02;

/// Synchronization code that ends one atomic report of a device.
pub const SYN_REPORT: u16 = 0;

/// One input event: the `(type, code, value)` triple of the kernel's
/// `input_event`, without its timestamp.
#[derive(Clone, Copy, Debug, PartialEq, Eq, Structural)]
pub struct InputEvent {
    pub event_type: u16,
    pub code: u16,
    pub value: i32,
}

/// The synchronization code an event of the given type and code carries, if
/// it is a synchronization event at all.
pub open spec fn spec_sync_code(event_type: u16, code: u16) -> Option<u16> {
    if event_type == EV_SYN {
        Some(code)
    } else {
        None
    }
}

/// Makes an event of this type and code with `evdev::InputEvent::new` and
/// asks `evdev::InputEvent::kind` how it classifies it. Trusted: `kind`
/// answers `Synchronization` carrying the raw code exactly for events of type
/// `EV_SYN`, and another variant for every other type.
#[verifier::external_body]
fn sync_code(event_type: u16, code: u16) -> (r: Option<u16>)
    ensures
        r == spec_sync_code(event_type, code),
{
    match evdev::InputEvent::new(evdev::EventType(event_type), code, 0).kind() {
        evdev::InputEventKind::Synchronization(sync) => Some(sync.0),
        _ => None,
    }
}

impl InputEvent {
    /// True for the marker that closes a batch: a synchronization event whose
    /// code is `SYN_REPORT`.
    pub open spec fn spec_is_sync_report(self) -> bool {
        self.event_type == EV_SYN && self.code == SYN_REPORT
    }

    pub fn new(event_type: u16, code: u16, value: i32) -> (event: InputEvent)
        ensures
            event == (InputEvent { event_type, code, value }),
    {
        InputEvent { event_type, code, value }
    }

    /// Tells whether this event is a synchronization boundary marker.
    #[verifier::when_used_as_spec(spec_is_sync_report)]
    pub fn is_sync_report(self) -> (r: bool)
        ensures
            r == self.spec_is_sync_report(),
    {
        match sync_code(self.event_type, self.code) {
            Some(code) => code == SYN_REPORT,
            None => false,
        }
    }
}

} // verus!
