//! Player-intent capability markers.
//!
//! Like the stop marker on an animated entity, these are attachable,
//! removable per-entity markers: the host's input layer maps devices onto
//! them and gates behavior on their presence. The playback core carries them
//! opaquely and never interprets them.

use vstd::prelude::*;

verus! {

/// The intent to walk.
#[derive(Clone, Copy, Debug, PartialEq, Eq, Structural)]
pub struct Walk;

/// The intent to interact with something nearby.
#[derive(Clone, Copy, Debug, PartialEq, Eq, Structural)]
pub struct Interact;

} // verus!
