//! The optional input-seat state: the seat and the keyboard obtained from
//! it are tracked, and no input is interpreted.

use vstd::prelude::*;

verus! {

/// The keyboard bound from a seat, if any.
#[derive(Clone, Copy, PartialEq, Eq, Structural, Debug)]
pub struct Keyboard {
    pub wl_keyboard: Option<u32>,
}

/// A bound input seat and the keyboard obtained from it.
#[derive(Clone, Copy, PartialEq, Eq, Structural, Debug)]
pub struct Seat {
    pub wl_seat: u32,
    pub keyboard: Option<Keyboard>,
}

} // verus!
