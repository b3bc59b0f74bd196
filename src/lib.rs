//! The interface that every discrete mode of a game (a menu, the play
//! screen, a pause overlay) implements so that a driver can run it: advance
//! it by a time step, draw it, and tell it when it becomes active or
//! inactive.
use vstd::prelude::*;

verus! {

/// An elapsed-time step, held as a whole number of nanoseconds.
#[derive(Clone, Copy, Debug, PartialEq, Eq, Structural)]
pub struct Time {
    nanos: u64,
}

impl View for Time {
    type V = nat;

    /// The length of the step in nanoseconds.
    closed spec fn view(&self) -> nat {
        self.nanos as nat
    }
}

impl Time {
    /// The step of the given number of nanoseconds.
    pub fn from_nanos(nanos: u64) -> (r: Time)
        ensures
            r@ == nanos as nat,
    {
        Time { nanos }
    }

    /// The length of this step in nanoseconds.
    pub fn as_nanos(&self) -> (r: u64)
        ensures
            r as nat == self@,
    {
        self.nanos
    }
}

/// Something that a state draws itself with. The caller keeps ownership;
/// a state borrows it for the length of one `draw` call.
pub trait Renderer {
}

/// A discrete mode of the game. `update` and `draw` have to be provided;
/// the two lifecycle hooks do nothing unless an implementation overrides
/// them.
pub trait State {
    /// Advance the state's logic by the step `dt`.
    fn update(dt: Time);

    /// Draw the state with a renderer that is lent for this call only.
    fn draw(renderer: Box<&dyn Renderer>);

    /// Called once when the state becomes active. By default it changes
    /// nothing and returns nothing.
    fn on_enter() {
    }

    /// Called once when the state stops being active. By default it
    /// changes nothing and returns nothing.
    fn on_leave() {
    }
}

} // verus!
