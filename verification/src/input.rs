//! Keyboard and pointer state.
//!
//! Both types only store what they are told; nothing here talks to a
//! platform. Keys are named by plain integer identifiers, pointer positions
//! are whole pixels, and scroll is counted in millionths of a line.

use std::collections::HashMap;
use vstd::prelude::*;

verus! {

/// Identifier of the key that asks the loop to stop.
pub const KEY_ESCAPE: u32 = 27;

/// Identifier of the key that moves the camera along its front axis.
pub const KEY_FORWARD: u32 = 87;

/// Identifier of the key that moves the camera against its front axis.
pub const KEY_BACK: u32 = 83;

/// Identifier of the key that moves the camera against its right axis.
pub const KEY_LEFT: u32 = 65;

/// Identifier of the key that moves the camera along its right axis.
pub const KEY_RIGHT: u32 = 68;

/// Identifier of the key that moves the camera along its up axis.
pub const KEY_UP: u32 = 32;

/// Identifier of the key that moves the camera against its up axis.
pub const KEY_DOWN: u32 = 16;

/// The value nearest to `v` that an `i64` can hold.
pub open spec fn clip_i64(v: int) -> int {
    if v > i64::MAX {
        i64::MAX as int
    } else if v < i64::MIN {
        i64::MIN as int
    } else {
        v
    }
}

/// Which keys are held down.
///
/// The model is a map from key identifier to the last state written for it.
/// A key that was never written counts as released.
pub struct KeyState {
    keys: HashMap<u32, bool>,
}

impl View for KeyState {
    type V = Map<u32, bool>;

    closed spec fn view(&self) -> Map<u32, bool> {
        self.keys@
    }
}

/// Whether `id` is held down in the key map `keys`.
pub open spec fn key_down(keys: Map<u32, bool>, id: u32) -> bool {
    keys.contains_key(id) && keys[id]
}

impl KeyState {
    /// A state in which no key has been written.
    pub fn new() -> (state: KeyState)
        ensures
            state@ == Map::<u32, bool>::empty(),
    {
        KeyState { keys: HashMap::new() }
    }

    /// Overwrites the stored state of `id`; the last write wins.
    pub fn update_key(&mut self, id: u32, pressed: bool)
        ensures
            final(self)@ == old(self)@.insert(id, pressed),
    {
        self.keys.insert(id, pressed);
    }

    /// Whether the last state written for `id` was "pressed".
    pub fn is_pressed(&self, id: u32) -> (down: bool)
        ensures
            down == key_down(self@, id),
    {
        match self.keys.get(&id) {
            Some(pressed) => *pressed,
            None => false,
        }
    }
}

/// Pointer position, the movement since the previous sample, and the scroll
/// gathered since it was last consumed.
#[derive(Clone, Copy, Debug, PartialEq, Eq)]
pub struct MouseState {
    /// Last reported horizontal position, in pixels.
    pub x: i32,
    /// Last reported vertical position, in pixels.
    pub y: i32,
    /// Horizontal movement between the last two samples.
    pub dx: i64,
    /// Vertical movement between the last two samples.
    pub dy: i64,
    /// Scroll gathered since the last consumption, in millionths of a line.
    pub scroll: i64,
    /// Set while the next position sample must not produce a movement.
    pub first_sample: bool,
}

impl MouseState {
    /// The state before any sample: no movement, no scroll, and the next
    /// sample is a first one.
    pub open spec fn initial() -> MouseState {
        MouseState { x: 0, y: 0, dx: 0, dy: 0, scroll: 0, first_sample: true }
    }

    /// The state after the pointer was reported at `(x, y)`.
    ///
    /// A first sample stores the position and reports no movement; any other
    /// sample reports the difference to the previous position.
    pub open spec fn moved_to(self, x: i32, y: i32) -> MouseState {
        if self.first_sample {
            MouseState { x, y, dx: 0, dy: 0, first_sample: false, ..self }
        } else {
            MouseState { x, y, dx: (x - self.x) as i64, dy: (y - self.y) as i64, ..self }
        }
    }

    /// The state after the window gained focus or the pointer entered it.
    pub open spec fn rearmed(self) -> MouseState {
        MouseState { first_sample: true, ..self }
    }

    /// The state after `delta` more scroll; the sum stops at the ends of the
    /// `i64` range.
    pub open spec fn scrolled(self, delta: i64) -> MouseState {
        MouseState { scroll: clip_i64(self.scroll + delta) as i64, ..self }
    }

    /// The state after the movement was read.
    pub open spec fn without_delta(self) -> MouseState {
        MouseState { dx: 0, dy: 0, ..self }
    }

    /// The state after the scroll was read.
    pub open spec fn without_scroll(self) -> MouseState {
        MouseState { scroll: 0, ..self }
    }

    pub fn new() -> (state: MouseState)
        ensures
            state == MouseState::initial(),
    {
        MouseState { x: 0, y: 0, dx: 0, dy: 0, scroll: 0, first_sample: true }
    }

    /// Records the pointer at `(x, y)`.
    pub fn update_mouse_pos(&mut self, x: i32, y: i32)
        ensures
            *final(self) == old(self).moved_to(x, y),
    {
        if self.first_sample {
            self.dx = 0;
            self.dy = 0;
            self.first_sample = false;
        } else {
            self.dx = x as i64 - self.x as i64;
            self.dy = y as i64 - self.y as i64;
        }
        self.x = x;
        self.y = y;
    }

    /// Makes the next position sample a first one.
    pub fn rearm(&mut self)
        ensures
            *final(self) == old(self).rearmed(),
    {
        self.first_sample = true;
    }

    /// Adds `delta` to the gathered scroll.
    pub fn update_scroll(&mut self, delta: i64)
        ensures
            *final(self) == old(self).scrolled(delta),
    {
        let sum: i128 = self.scroll as i128 + delta as i128;
        if sum > i64::MAX as i128 {
            self.scroll = i64::MAX;
        } else if sum < i64::MIN as i128 {
            self.scroll = i64::MIN;
        } else {
            self.scroll = sum as i64;
        }
    }

    /// Hands out the movement and resets it to zero.
    pub fn take_delta(&mut self) -> (delta: (i64, i64))
        ensures
            delta == (old(self).dx, old(self).dy),
            *final(self) == old(self).without_delta(),
    {
        let delta = (self.dx, self.dy);
        self.dx = 0;
        self.dy = 0;
        delta
    }

    /// Hands out the gathered scroll and resets it to zero.
    pub fn take_scroll(&mut self) -> (scroll: i64)
        ensures
            scroll == old(self).scroll,
            *final(self) == old(self).without_scroll(),
    {
        let scroll = self.scroll;
        self.scroll = 0;
        scroll
    }
}

/// The first position sample after the pointer was re-armed reports no
/// movement, wherever the pointer was before; the sample after it reports
/// exactly the distance between the two.
pub proof fn lemma_first_sample_has_no_delta(
    before: MouseState,
    x1: i32,
    y1: i32,
    x2: i32,
    y2: i32,
)
    ensures
        before.rearmed().moved_to(x1, y1).dx == 0,
        before.rearmed().moved_to(x1, y1).dy == 0,
        before.rearmed().moved_to(x1, y1).moved_to(x2, y2).dx == x2 - x1,
        before.rearmed().moved_to(x1, y1).moved_to(x2, y2).dy == y2 - y1,
{
}

} // verus!
