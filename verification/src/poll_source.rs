//! Events found by polling: the pointer has moved when its position differs
//! from the one seen last, and a key is pressed when it is down and was not
//! down at the poll before.

use crate::session::{Session, KEYBOARD, MOUSE};
use crate::text::reads;
use vstd::prelude::*;

verus! {

/// Number of virtual keys that a poll goes through.
pub const KEY_COUNT: usize = 256;

/// Whether a key state, as the system reports it, says that the key is down:
/// its most significant bit is set.
pub open spec fn is_down(state: i16) -> bool {
    state < 0
}

/// Tells whether the key with the reported `state` is down.
pub fn key_is_down(state: i16) -> (down: bool)
    ensures
        down == is_down(state),
{
    let down = (state as u16) & 0x8000 != 0;
    assert(((state as u16) & 0x8000 != 0) == (state < 0)) by (bit_vector);
    down
}

/// The position of the pointer at the last poll.
pub struct PointerScan {
    x: i32,
    y: i32,
}

impl View for PointerScan {
    type V = (i32, i32);

    closed spec fn view(&self) -> (i32, i32) {
        (self.x, self.y)
    }
}

impl PointerScan {
    /// Starts from the position `(x, y)`.
    pub fn new(x: i32, y: i32) -> (scan: PointerScan)
        ensures
            scan@ == (x, y),
    {
        PointerScan { x, y }
    }

    /// Takes in the position found by a poll. Tells whether the pointer has
    /// moved since the poll before, and remembers the position.
    pub fn observe(&mut self, x: i32, y: i32) -> (moved: bool)
        ensures
            moved == (old(self)@ != (x, y)),
            final(self)@ == (x, y),
    {
        let moved = x != self.x || y != self.y;
        if moved {
            self.x = x;
            self.y = y;
        }
        moved
    }
}

/// Which keys were down at the last poll.
pub struct KeyScan {
    down: [bool; KEY_COUNT],
}

impl View for KeyScan {
    type V = Seq<bool>;

    closed spec fn view(&self) -> Seq<bool> {
        self.down@
    }
}

impl KeyScan {
    /// Starts with no key down.
    pub fn new() -> (scan: KeyScan)
        ensures
            scan@.len() == KEY_COUNT,
            forall|key: int| 0 <= key < KEY_COUNT ==> !scan@[key],
    {
        KeyScan { down: [false;KEY_COUNT] }
    }

    /// Takes in the state of `key` found by a poll. Tells whether the key was
    /// pressed, that is, is down now and was not at the poll before, and
    /// remembers whether it is down. A `key` beyond the last one is passed
    /// over.
    pub fn observe(&mut self, key: usize, state: i16) -> (pressed: bool)
        ensures
            final(self)@.len() == KEY_COUNT,
            key < KEY_COUNT ==> final(self)@ == old(self)@.update(key as int, is_down(state))
                && pressed == (is_down(state) && !old(self)@[key as int]),
            key >= KEY_COUNT ==> final(self)@ == old(self)@ && !pressed,
    {
        if key >= KEY_COUNT {
            return false;
        }
        let down = key_is_down(state);
        let pressed = down && !self.down[key];
        self.down[key] = down;
        pressed
    }
}

/// Takes in the pointer position found by a poll at `now`: if the pointer
/// has moved, that is an event of the mouse. Returns the line to show, if
/// there is one.
pub fn on_pointer(session: &mut Session, scan: &mut PointerScan, x: i32, y: i32, now: u64) -> (line:
    Option<String>)
    ensures
        final(scan)@ == (x, y),
        old(scan)@ != (x, y) ==> final(session)@ == old(session)@.after_event(MOUSE as int, now)
            && reads(line, old(session)@.line_for(MOUSE as int, now)),
        old(scan)@ == (x, y) ==> final(session)@ == old(session)@ && line is None,
{
    if scan.observe(x, y) {
        session.record(MOUSE, now)
    } else {
        None
    }
}

/// Takes in the state of `key` found by a poll at `now`: if the key was
/// pressed, that is an event of the keyboard. Returns the line to show, if
/// there is one.
pub fn on_key(session: &mut Session, scan: &mut KeyScan, key: usize, state: i16, now: u64) -> (line:
    Option<String>)
    ensures
        final(scan)@.len() == KEY_COUNT,
        key < KEY_COUNT ==> final(scan)@ == old(scan)@.update(key as int, is_down(state)),
        key >= KEY_COUNT ==> final(scan)@ == old(scan)@,
        key < KEY_COUNT && is_down(state) && !old(scan)@[key as int] ==> final(session)@ == old(
            session,
        )@.after_event(KEYBOARD as int, now) && reads(
            line,
            old(session)@.line_for(KEYBOARD as int, now),
        ),
        !(key < KEY_COUNT && is_down(state) && !old(scan)@[key as int]) ==> final(session)@ == old(
            session,
        )@ && line is None,
{
    if scan.observe(key, state) {
        session.record(KEYBOARD, now)
    } else {
        None
    }
}

} // verus!
