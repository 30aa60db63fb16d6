//! Collision events, as the physics step reports them once per tick.

use vstd::prelude::*;
use crate::layers::CollisionLayers;

verus! {

/// Two shapes began or stopped overlapping. An event lives for one tick.
#[derive(Clone, Copy, Debug, PartialEq, Eq)]
pub struct CollisionEvent {
    /// Layers of the first participant.
    pub first: CollisionLayers,
    /// Layers of the second participant.
    pub second: CollisionLayers,
    /// `true` when the overlap began, `false` when it ended.
    pub is_start: bool,
}

impl CollisionEvent {
    /// The event for two shapes that began to overlap.
    pub fn started(first: CollisionLayers, second: CollisionLayers) -> (e: CollisionEvent)
        ensures
            e == (CollisionEvent { first, second, is_start: true }),
    {
        CollisionEvent { first, second, is_start: true }
    }

    /// The event for two shapes that stopped overlapping.
    pub fn stopped(first: CollisionLayers, second: CollisionLayers) -> (e: CollisionEvent)
        ensures
            e == (CollisionEvent { first, second, is_start: false }),
    {
        CollisionEvent { first, second, is_start: false }
    }

    /// Whether the overlap began.
    pub fn is_started(&self) -> (r: bool)
        ensures
            r == self.is_start,
    {
        self.is_start
    }

    /// Whether the overlap ended.
    pub fn is_stopped(&self) -> (r: bool)
        ensures
            r == !self.is_start,
    {
        !self.is_start
    }

    /// The layers of both participants, first and second.
    pub fn collision_layers(&self) -> (r: (CollisionLayers, CollisionLayers))
        ensures
            r == (self.first, self.second),
    {
        (self.first, self.second)
    }
}

} // verus!
