//! The event vocabulary of the picking protocol.
//!
//! Raw pointer input arrives as [`InputEvent`]s; the dispatcher reports how a
//! ray query cycle ended as a [`DispatchReport`]; a card answers its per-tick
//! reconciliation with an optional [`HoverEvent`]. Engine signals are modelled
//! as plain returned values, so every emission is visible to callers.

use vstd::prelude::*;
use crate::geometry::Vec2;

verus! {

/// A pointing-device button.
#[derive(Clone, Copy, PartialEq, Eq, Structural, Debug)]
pub enum PointerButton {
    /// The primary button; the only one the protocol reacts to.
    Left,
    /// Any other button, carried through but ignored.
    Other,
}

/// A pointing-device event, always carrying a viewport position.
#[derive(Clone, Copy, PartialEq, Eq, Structural, Debug)]
pub enum MouseEvent {
    /// The pointer moved to `position`.
    Motion { position: Vec2 },
    /// A button changed state while the pointer stood at `position`.
    Button { button: PointerButton, pressed: bool, position: Vec2 },
}

/// Any input event the windowing layer may deliver.
#[derive(Clone, Copy, PartialEq, Eq, Structural, Debug)]
pub enum InputEvent {
    /// A pointing-device event.
    Mouse { event: MouseEvent },
    /// Anything else (keys, window focus, ...), ignored by the protocol.
    Other,
}

/// The hover transition a card reports from its per-tick reconciliation.
#[derive(Clone, Copy, PartialEq, Eq, Structural, Debug)]
pub enum HoverEvent {
    /// The pointer settled on the card this tick.
    Entered,
    /// The pointer left the card this tick.
    Exited,
}

/// How a ray query cycle ended.
#[derive(Clone, Copy, PartialEq, Eq, Structural, Debug)]
pub enum RayOutcome {
    /// The ray ran out without meeting any collider.
    Miss,
    /// A collider with no owning card blocked the ray; nobody was notified.
    Blocked { collider: u64 },
    /// The card at this index accepted the hit.
    Delivered { card: usize },
}

/// What one dispatch cycle did: how many times the collision backend was
/// queried, and how the cycle ended.
#[derive(Clone, Copy, PartialEq, Eq, Structural, Debug)]
pub struct DispatchReport {
    pub queries: usize,
    pub outcome: RayOutcome,
}

} // verus!
