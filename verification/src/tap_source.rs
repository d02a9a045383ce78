//! Events delivered by an event tap: which of them belong to the mouse and
//! which to the keyboard.

use crate::session::{Session, KEYBOARD, MOUSE};
use crate::text::reads;
use vstd::prelude::*;

verus! {

/// Type code of a pointer movement with no button down.
pub const MOUSE_MOVED: u32 = 5;

/// Type code of a pointer movement with the left button down.
pub const LEFT_MOUSE_DRAGGED: u32 = 6;

/// Type code of a pointer movement with the right button down.
pub const RIGHT_MOUSE_DRAGGED: u32 = 7;

/// Type code of a key going down.
pub const KEY_DOWN: u32 = 10;

/// Type code of a key going up.
pub const KEY_UP: u32 = 11;

/// The position of the device that an event with the type code `event_type`
/// belongs to: pointer movements to the mouse, key changes to the keyboard,
/// anything else to neither.
pub open spec fn target_of(event_type: u32) -> Option<usize> {
    if event_type == MOUSE_MOVED || event_type == LEFT_MOUSE_DRAGGED || event_type
        == RIGHT_MOUSE_DRAGGED {
        Some(MOUSE)
    } else if event_type == KEY_DOWN || event_type == KEY_UP {
        Some(KEYBOARD)
    } else {
        None
    }
}

/// Finds the device that a tapped event belongs to.
pub fn tap_target(event_type: u32) -> (target: Option<usize>)
    ensures
        target == target_of(event_type),
{
    if event_type == MOUSE_MOVED || event_type == LEFT_MOUSE_DRAGGED || event_type
        == RIGHT_MOUSE_DRAGGED {
        Some(MOUSE)
    } else if event_type == KEY_DOWN || event_type == KEY_UP {
        Some(KEYBOARD)
    } else {
        None
    }
}

/// The type codes that a tap has to ask for: those of the events that belong
/// to a device.
pub fn watched_types() -> (types: Vec<u32>)
    ensures
        types@ == seq![MOUSE_MOVED, LEFT_MOUSE_DRAGGED, RIGHT_MOUSE_DRAGGED, KEY_DOWN, KEY_UP],
        forall|i: int| 0 <= i < types@.len() ==> target_of(#[trigger] types@[i]) is Some,
{
    let mut types: Vec<u32> = Vec::new();
    types.push(MOUSE_MOVED);
    types.push(LEFT_MOUSE_DRAGGED);
    types.push(RIGHT_MOUSE_DRAGGED);
    types.push(KEY_DOWN);
    types.push(KEY_UP);
    assert(types@ =~= seq![MOUSE_MOVED, LEFT_MOUSE_DRAGGED, RIGHT_MOUSE_DRAGGED, KEY_DOWN, KEY_UP]);
    types
}

/// Takes in a tapped event that arrived at `now`: it is an event of the
/// device it belongs to, or passed over if it belongs to none. Returns the
/// line to show, if there is one.
pub fn on_tap(session: &mut Session, event_type: u32, now: u64) -> (line: Option<String>)
    ensures
        match target_of(event_type) {
            Some(device) => final(session)@ == old(session)@.after_event(device as int, now)
                && reads(line, old(session)@.line_for(device as int, now)),
            None => final(session)@ == old(session)@ && line is None,
        },
{
    match tap_target(event_type) {
        Some(device) => session.record(device, now),
        None => None,
    }
}

} // verus!
