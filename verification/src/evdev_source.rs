//! Events read from evdev device nodes: which nodes are devices, which
//! events are motion, and where a motion event goes.

use crate::session::Session;
use crate::text::reads;
use evdev::{EventType, InputEvent, InputEventKind};
use vstd::prelude::*;
use vstd::string::*;

verus! {

/// Type field of a synchronization event.
pub const EV_SYN: u16 = 0x00;

/// Type field of a key event.
pub const EV_KEY: u16 = 0x01;

/// Type field of a movement on a relative axis.
pub const EV_REL: u16 = 0x02;

/// Type field of a movement on an absolute axis.
pub const EV_ABS: u16 = 0x03;

/// Type field of a miscellaneous event.
pub const EV_MSC: u16 = 0x04;

/// Type field of a switch event.
pub const EV_SW: u16 = 0x05;

/// Type field of an LED event.
pub const EV_LED: u16 = 0x11;

/// Type field of a sound event.
pub const EV_SND: u16 = 0x12;

/// Type field of a force feedback event.
pub const EV_FF: u16 = 0x15;

/// Type field of a force feedback status event.
pub const EV_FF_STATUS: u16 = 0x17;

/// Type field of an event that comes from uinput.
pub const EV_UINPUT: u16 = 0x0101;

/// Bit of a poll result that says that there is data to read.
pub const POLLIN: i16 = 0x001;

/// One input event as the kernel hands it out, without its time.
#[derive(Clone, Copy, Debug)]
pub struct InputRecord {
    pub event_type: u16,
    pub code: u16,
    pub value: i32,
}

/// What an input event is about.
#[derive(Clone, Copy, Debug, PartialEq, Eq, Structural)]
pub enum EventKind {
    Synchronization,
    Key,
    RelAxis,
    AbsAxis,
    Misc,
    Switch,
    Led,
    Sound,
    ForceFeedback,
    ForceFeedbackStatus,
    UInput,
    Other,
}

/// The kind of the events with a given type field.
pub open spec fn kind_of_type(event_type: u16) -> EventKind {
    if event_type == EV_SYN {
        EventKind::Synchronization
    } else if event_type == EV_KEY {
        EventKind::Key
    } else if event_type == EV_REL {
        EventKind::RelAxis
    } else if event_type == EV_ABS {
        EventKind::AbsAxis
    } else if event_type == EV_MSC {
        EventKind::Misc
    } else if event_type == EV_SW {
        EventKind::Switch
    } else if event_type == EV_LED {
        EventKind::Led
    } else if event_type == EV_SND {
        EventKind::Sound
    } else if event_type == EV_FF {
        EventKind::ForceFeedback
    } else if event_type == EV_FF_STATUS {
        EventKind::ForceFeedbackStatus
    } else if event_type == EV_UINPUT {
        EventKind::UInput
    } else {
        EventKind::Other
    }
}

/// Whether events with a given type field are motion: movement on a
/// relative or on an absolute axis.
pub open spec fn is_motion_type(event_type: u16) -> bool {
    event_type == EV_REL || event_type == EV_ABS
}

/// Whether `name` begins with the characters of `prefix`.
pub open spec fn begins_with(name: Seq<char>, prefix: Seq<char>) -> bool {
    prefix.len() <= name.len() && name.subrange(0, prefix.len() as int) == prefix
}

/// Calls `evdev::InputEvent::kind` on an event made by `evdev::InputEvent::new`
/// from the three fields of `record`. The contract claims what the source of
/// `kind` shows: the result is picked by the type field alone, one kind for
/// each of the eleven type values listed above and `Other` for the rest.
#[verifier::external_body]
fn event_kind(record: &InputRecord) -> (kind: EventKind)
    ensures
        kind == kind_of_type(record.event_type),
{
    match InputEvent::new(EventType(record.event_type), record.code, record.value).kind() {
        InputEventKind::Synchronization(_) => EventKind::Synchronization,
        InputEventKind::Key(_) => EventKind::Key,
        InputEventKind::RelAxis(_) => EventKind::RelAxis,
        InputEventKind::AbsAxis(_) => EventKind::AbsAxis,
        InputEventKind::Misc(_) => EventKind::Misc,
        InputEventKind::Switch(_) => EventKind::Switch,
        InputEventKind::Led(_) => EventKind::Led,
        InputEventKind::Sound(_) => EventKind::Sound,
        InputEventKind::ForceFeedback(_) => EventKind::ForceFeedback,
        InputEventKind::ForceFeedbackStatus(_) => EventKind::ForceFeedbackStatus,
        InputEventKind::UInput(_) => EventKind::UInput,
        InputEventKind::Other => EventKind::Other,
    }
}

/// What the event `record` is about.
pub fn classify(record: &InputRecord) -> (kind: EventKind)
    ensures
        kind == kind_of_type(record.event_type),
{
    event_kind(record)
}

/// Whether the event `record` counts as motion of its device.
pub fn is_motion(record: &InputRecord) -> (motion: bool)
    ensures
        motion == is_motion_type(record.event_type),
{
    match event_kind(record) {
        EventKind::RelAxis => true,
        EventKind::AbsAxis => true,
        _ => false,
    }
}

/// Whether a file in the directory of input devices is an event node, by its
/// name.
pub fn is_event_node(file_name: &str) -> (node: bool)
    ensures
        node == begins_with(file_name@, "event"@),
{
    proof {
        reveal_strlit("event");
    }
    if file_name.unicode_len() < 5 {
        return false;
    }
    let node = file_name.get_char(0) == 'e' && file_name.get_char(1) == 'v' && file_name.get_char(2)
        == 'e' && file_name.get_char(3) == 'n' && file_name.get_char(4) == 't';
    proof {
        let head = file_name@.subrange(0, 5);
        if node {
            assert(head =~= "event"@);
        } else {
            assert(head[0] == file_name@[0]);
            assert(head[1] == file_name@[1]);
            assert(head[2] == file_name@[2]);
            assert(head[3] == file_name@[3]);
            assert(head[4] == file_name@[4]);
        }
    }
    node
}

/// The label of a device: the name it gives itself, or `Unknown` if it gives
/// none.
pub fn device_label(name: Option<&str>) -> (label: String)
    ensures
        label@ == match name {
            Some(given) => given@,
            None => "Unknown"@,
        },
{
    match name {
        Some(given) => String::from_str(given),
        None => String::from_str("Unknown"),
    }
}

/// Whether a poll result says that the device has events to read.
pub fn is_readable(revents: i16) -> (readable: bool)
    ensures
        readable == (revents & POLLIN != 0),
{
    revents & POLLIN != 0
}

/// Takes in the event `record`, read at `now` from the device at position
/// `device`: a motion event is an event of that device, any other is passed
/// over. Returns the line to show, if there is one.
pub fn on_input(session: &mut Session, device: usize, record: &InputRecord, now: u64) -> (line:
    Option<String>)
    ensures
        is_motion_type(record.event_type) ==> final(session)@ == old(session)@.after_event(
            device as int,
            now,
        ) && reads(line, old(session)@.line_for(device as int, now)),
        !is_motion_type(record.event_type) ==> final(session)@ == old(session)@ && line is None,
{
    if is_motion(record) {
        session.record(device, now)
    } else {
        None
    }
}

} // verus!
