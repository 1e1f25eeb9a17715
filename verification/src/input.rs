//! The input accumulator: where the pointer is, how it last moved, and how
//! far the wheel has been turned in all.
//!
//! Values are IEEE 754 bit patterns, as in the uniform block. The one sum the
//! accumulator needs is handed in by the caller as a function on single
//! precision bit patterns.

use vstd::prelude::*;

verus! {

/// The phase of a scroll gesture.
#[derive(Clone, Copy, Debug, PartialEq, Eq, Structural)]
pub enum ScrollPhase {
    Started,
    Moved,
    Ended,
    Cancelled,
}

/// An input event, reduced to what the accumulator reads.
#[derive(Clone, Copy, Debug, PartialEq, Eq, Structural)]
pub enum InputEvent {
    /// The pointing device moved by this much, single precision.
    MouseMotion { delta_x: u32, delta_y: u32 },
    /// The pointer is now here, window coordinates in double precision.
    CursorMoved { x: u64, y: u64 },
    /// The wheel turned by this much, single precision.
    MouseWheel { delta_x: u32, delta_y: u32, phase: ScrollPhase },
    /// Anything else.
    Other,
}

/// Pointer and wheel state gathered from the events so far.
#[derive(Clone, Copy, Debug, PartialEq, Eq, Structural)]
pub struct InputManager {
    pub delta_x: u32,
    pub delta_y: u32,
    pub x: u64,
    pub y: u64,
    pub wx: u32,
    pub wy: u32,
    pub sensitivity: u32,
}

impl InputManager {
    /// Whether `after` is what `event` makes of `self`, with `plus` as the
    /// sum of two single-precision values.
    ///
    /// Motion replaces the last deltas, a moved pointer replaces the
    /// position, and a turn of the wheel is added to the accumulated scroll
    /// unless its gesture has ended. Every other field stays.
    pub open spec fn processed<F: Fn(u32, u32) -> u32>(
        self,
        event: InputEvent,
        plus: F,
        after: Self,
    ) -> bool {
        match event {
            InputEvent::MouseMotion { delta_x, delta_y } => after == (InputManager {
                delta_x,
                delta_y,
                ..self
            }),
            InputEvent::CursorMoved { x, y } => after == (InputManager { x, y, ..self }),
            InputEvent::MouseWheel { delta_x, delta_y, phase } => if phase == ScrollPhase::Ended {
                after == self
            } else {
                &&& call_ensures(plus, (self.wx, delta_x), after.wx)
                &&& call_ensures(plus, (self.wy, delta_y), after.wy)
                &&& after == (InputManager { wx: after.wx, wy: after.wy, ..self })
            },
            InputEvent::Other => after == self,
        }
    }

    /// Takes one event in.
    pub fn process_events<F: Fn(u32, u32) -> u32>(&mut self, event: InputEvent, plus: &F)
        requires
            forall|a: u32, b: u32| call_requires(*plus, (a, b)),
        ensures
            old(self).processed(event, *plus, *final(self)),
    {
        match event {
            InputEvent::MouseMotion { delta_x, delta_y } => {
                self.delta_x = delta_x;
                self.delta_y = delta_y;
            },
            InputEvent::CursorMoved { x, y } => {
                self.x = x;
                self.y = y;
            },
            InputEvent::MouseWheel { delta_x, delta_y, phase } => {
                if phase != ScrollPhase::Ended {
                    let wx: u32 = plus(self.wx, delta_x);
                    let wy: u32 = plus(self.wy, delta_y);
                    self.wx = wx;
                    self.wy = wy;
                }
            },
            InputEvent::Other => {},
        }
    }
}

impl Default for InputManager {
    /// Every field zero.
    fn default() -> (m: Self)
        ensures
            m == (InputManager { delta_x: 0, delta_y: 0, x: 0, y: 0, wx: 0, wy: 0, sensitivity: 0 }),
    {
        InputManager { delta_x: 0, delta_y: 0, x: 0, y: 0, wx: 0, wy: 0, sensitivity: 0 }
    }
}

} // verus!
