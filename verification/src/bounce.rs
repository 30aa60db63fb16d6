//! The bounce response: which collision events make the player bounce, and
//! what a tick's events do to its velocity.
//!
//! The velocity and the orientation are values of the caller's own types.
//! The formula that turns an incoming velocity into an outgoing one is the
//! caller's too: a kernel, called once for every event that triggers a
//! bounce, in the order of the events.

use vstd::prelude::*;
use crate::event::CollisionEvent;
use crate::layers::{is_player, is_player_spec};

verus! {

/// Speed after a steered bounce, in hundredths of a distance unit per second.
pub const BOUNCE_HEIGHT: i32 = 35_000;

/// How strongly a steered bounce bends toward the facing direction, in
/// hundredths.
pub const TURN_RATIO: i32 = 100;

/// What the vertical speed is divided by in a damped bounce, in hundredths.
pub const DAMPING: i32 = 110;

/// How a bounce turns the incoming velocity into the outgoing one.
#[derive(Clone, Copy, Debug, PartialEq, Eq)]
pub enum BounceStrategy {
    /// Flip the vertical component, add the facing direction scaled by the
    /// incoming speed and by `turn_ratio`, then rescale to speed `height`
    /// (a zero sum stays zero).
    Steered { height: i32, turn_ratio: i32 },
    /// Flip the vertical component and divide it by `damping`.
    Damped { damping: i32 },
}

impl BounceStrategy {
    /// The steered bounce with its usual tuning.
    pub fn steered() -> (s: BounceStrategy)
        ensures
            s == (BounceStrategy::Steered { height: BOUNCE_HEIGHT, turn_ratio: TURN_RATIO }),
    {
        BounceStrategy::Steered { height: BOUNCE_HEIGHT, turn_ratio: TURN_RATIO }
    }

    /// The damped bounce with its usual tuning.
    pub fn damped() -> (s: BounceStrategy)
        ensures
            s == (BounceStrategy::Damped { damping: DAMPING }),
    {
        BounceStrategy::Damped { damping: DAMPING }
    }
}

impl Default for BounceStrategy {
    /// The steered bounce is the one the game is tuned for.
    fn default() -> (s: BounceStrategy)
        ensures
            s == (BounceStrategy::Steered { height: BOUNCE_HEIGHT, turn_ratio: TURN_RATIO }),
    {
        BounceStrategy::steered()
    }
}

/// Where the engine stands while it looks at one event.
#[derive(Clone, Copy, Debug, PartialEq, Eq)]
pub enum BounceState {
    /// Nothing to do: the state between events, and after any event that
    /// does not trigger a bounce.
    Airborne,
    /// A bounce is being applied. Left again before the next event.
    ResolvingBounce,
}

/// An event triggers a bounce when it is a start and its second participant
/// is the player's contact shape.
pub open spec fn triggers_bounce(event: CollisionEvent) -> bool {
    event.is_start && is_player_spec(event.second)
}

/// How many events of a tick trigger a bounce.
pub open spec fn bounce_count(events: Seq<CollisionEvent>) -> nat
    decreases events.len(),
{
    if events.len() == 0 {
        0
    } else {
        bounce_count(events.drop_last()) + if triggers_bounce(events.last()) {
            1nat
        } else {
            0nat
        }
    }
}

/// `after` is a possible outcome of running the kernel `times` times in a
/// row, starting from `before`.
pub open spec fn bounced<V, O, F: Fn(BounceStrategy, V, O) -> V>(
    kernel: F,
    strategy: BounceStrategy,
    orientation: O,
    times: nat,
    before: V,
    after: V,
) -> bool
    decreases times,
{
    if times == 0 {
        after == before
    } else {
        exists|mid: V|
            bounced(kernel, strategy, orientation, (times - 1) as nat, before, mid)
                && #[trigger] call_ensures(kernel, (strategy, mid, orientation), after)
    }
}

/// The kernel can be run on `start`, and on whatever it hands back, as
/// often as events ask for: it accepts `start`, and it accepts every outcome
/// of an input that it accepts.
pub open spec fn accepts_in_a_row<V, O, F: Fn(BounceStrategy, V, O) -> V>(
    kernel: F,
    strategy: BounceStrategy,
    orientation: O,
    start: V,
) -> bool {
    &&& call_requires(kernel, (strategy, start, orientation))
    &&& forall|v: V, w: V|
        call_requires(kernel, (strategy, v, orientation)) && #[trigger] call_ensures(
            kernel,
            (strategy, v, orientation),
            w,
        ) ==> call_requires(kernel, (strategy, w, orientation))
}

/// `step` applied `times` times in a row to `start`.
pub open spec fn iterate<V>(step: spec_fn(V) -> V, times: nat, start: V) -> V
    decreases times,
{
    if times == 0 {
        start
    } else {
        step(iterate(step, (times - 1) as nat, start))
    }
}

/// One more run of the kernel extends a chain of bounces by one.
pub proof fn lemma_bounced_step<V, O, F: Fn(BounceStrategy, V, O) -> V>(
    kernel: F,
    strategy: BounceStrategy,
    orientation: O,
    times: nat,
    before: V,
    mid: V,
    after: V,
)
    requires
        bounced(kernel, strategy, orientation, times, before, mid),
        call_ensures(kernel, (strategy, mid, orientation), after),
    ensures
        bounced(kernel, strategy, orientation, times + 1, before, after),
{
    assert(((times + 1) - 1) as nat == times);
}

impl BounceState {
    /// The state that `event` puts the engine in.
    pub fn on_event(event: &CollisionEvent) -> (s: BounceState)
        ensures
            s == (if triggers_bounce(*event) {
                BounceState::ResolvingBounce
            } else {
                BounceState::Airborne
            }),
    {
        let (_, player_layers) = event.collision_layers();
        if event.is_started() && is_player(player_layers) {
            BounceState::ResolvingBounce
        } else {
            BounceState::Airborne
        }
    }
}

/// Drains one tick's events and returns the player's velocity after them.
///
/// Every event that triggers a bounce replaces the velocity by what the
/// kernel makes of it, one event after the other; every other event leaves
/// it alone.
pub fn handle_collision<V, O: Copy, F: Fn(BounceStrategy, V, O) -> V>(
    events: &Vec<CollisionEvent>,
    strategy: BounceStrategy,
    orientation: O,
    velocity: V,
    kernel: F,
) -> (out: V)
    requires
        accepts_in_a_row(kernel, strategy, orientation, velocity),
    ensures
        bounced(kernel, strategy, orientation, bounce_count(events@), velocity, out),
{
    let mut current = velocity;
    let mut i: usize = 0;
    while i < events.len()
        invariant
            i <= events.len(),
            accepts_in_a_row(kernel, strategy, orientation, current),
            bounced(
                kernel,
                strategy,
                orientation,
                bounce_count(events@.take(i as int)),
                velocity,
                current,
            ),
        decreases events.len() - i,
    {
        let ghost seen = events@.take(i as int);
        proof {
            assert(events@.take(i + 1).drop_last() =~= seen);
        }
        match BounceState::on_event(&events[i]) {
            BounceState::ResolvingBounce => {
                let ghost mid = current;
                current = kernel(strategy, current, orientation);
                proof {
                    lemma_bounced_step(
                        kernel,
                        strategy,
                        orientation,
                        bounce_count(seen),
                        velocity,
                        mid,
                        current,
                    );
                }
            },
            BounceState::Airborne => {},
        }
        i += 1;
    }
    proof {
        assert(events@.take(i as int) =~= events@);
    }
    current
}

/// A tick without a triggering event counts no bounce.
pub proof fn lemma_count_zero(events: Seq<CollisionEvent>)
    requires
        forall|i: int| 0 <= i < events.len() ==> !triggers_bounce(#[trigger] events[i]),
    ensures
        bounce_count(events) == 0,
    decreases events.len(),
{
    if events.len() > 0 {
        lemma_count_zero(events.drop_last());
    }
}

/// A tick in which every event triggers counts one bounce per event.
pub proof fn lemma_count_all(events: Seq<CollisionEvent>)
    requires
        forall|i: int| 0 <= i < events.len() ==> triggers_bounce(#[trigger] events[i]),
    ensures
        bounce_count(events) == events.len(),
    decreases events.len(),
{
    if events.len() > 0 {
        lemma_count_all(events.drop_last());
    }
}

/// The events of a tick are counted one by one: a tick made of two runs of
/// events counts the bounces of both.
pub proof fn lemma_count_concat(head: Seq<CollisionEvent>, tail: Seq<CollisionEvent>)
    ensures
        bounce_count(head + tail) == bounce_count(head) + bounce_count(tail),
    decreases tail.len(),
{
    if tail.len() == 0 {
        assert(head + tail =~= head);
    } else {
        lemma_count_concat(head, tail.drop_last());
        assert((head + tail).drop_last() =~= head + tail.drop_last());
    }
}

/// End events, alone, never change the velocity: whatever the kernel, the
/// velocity after a tick of end events is the velocity before it.
pub proof fn lemma_end_events_change_nothing<V, O, F: Fn(BounceStrategy, V, O) -> V>(
    kernel: F,
    strategy: BounceStrategy,
    orientation: O,
    events: Seq<CollisionEvent>,
    before: V,
    after: V,
)
    requires
        forall|i: int| 0 <= i < events.len() ==> !(#[trigger] events[i]).is_start,
        bounced(kernel, strategy, orientation, bounce_count(events), before, after),
    ensures
        after == before,
{
    lemma_count_zero(events);
}

/// Events whose second participant is not the player's contact shape never
/// change the velocity, starts included.
pub proof fn lemma_scenery_events_change_nothing<V, O, F: Fn(BounceStrategy, V, O) -> V>(
    kernel: F,
    strategy: BounceStrategy,
    orientation: O,
    events: Seq<CollisionEvent>,
    before: V,
    after: V,
)
    requires
        forall|i: int| 0 <= i < events.len() ==> !is_player_spec((#[trigger] events[i]).second),
        bounced(kernel, strategy, orientation, bounce_count(events), before, after),
    ensures
        after == before,
{
    lemma_count_zero(events);
}

/// Bounces are applied one after the other: running the kernel `first`
/// times and then `second` times on the outcome is one way of running it
/// `first + second` times.
pub proof fn lemma_bounced_chain<V, O, F: Fn(BounceStrategy, V, O) -> V>(
    kernel: F,
    strategy: BounceStrategy,
    orientation: O,
    first: nat,
    second: nat,
    before: V,
    mid: V,
    after: V,
)
    requires
        bounced(kernel, strategy, orientation, first, before, mid),
        bounced(kernel, strategy, orientation, second, mid, after),
    ensures
        bounced(kernel, strategy, orientation, first + second, before, after),
    decreases second,
{
    if second > 0 {
        let last = choose|last: V|
            bounced(kernel, strategy, orientation, (second - 1) as nat, mid, last)
                && #[trigger] call_ensures(kernel, (strategy, last, orientation), after);
        lemma_bounced_chain(
            kernel,
            strategy,
            orientation,
            first,
            (second - 1) as nat,
            before,
            mid,
            last,
        );
        lemma_bounced_step(
            kernel,
            strategy,
            orientation,
            (first + second - 1) as nat,
            before,
            last,
            after,
        );
    }
}

/// With a kernel whose outcome is fixed by its input, the velocity after
/// any number of bounces is fixed too: `outcome` applied that many times.
pub proof fn lemma_bounced_exact<V, O, F: Fn(BounceStrategy, V, O) -> V>(
    kernel: F,
    strategy: BounceStrategy,
    orientation: O,
    outcome: spec_fn(V) -> V,
    times: nat,
    before: V,
    after: V,
)
    requires
        forall|v: V, w: V| #[trigger]
            call_ensures(kernel, (strategy, v, orientation), w) ==> w == outcome(v),
        bounced(kernel, strategy, orientation, times, before, after),
    ensures
        after == iterate(outcome, times, before),
    decreases times,
{
    if times > 0 {
        let mid = choose|mid: V|
            bounced(kernel, strategy, orientation, (times - 1) as nat, before, mid)
                && #[trigger] call_ensures(kernel, (strategy, mid, orientation), after);
        lemma_bounced_exact(
            kernel,
            strategy,
            orientation,
            outcome,
            (times - 1) as nat,
            before,
            mid,
        );
    }
}

/// Repeated starts on the contact shape apply one after the other: with a
/// kernel whose outcome is fixed by its input, the velocity after a tick in
/// which every event triggers is `outcome` applied once per event.
pub proof fn lemma_repeated_starts_apply_in_order<V, O, F: Fn(BounceStrategy, V, O) -> V>(
    kernel: F,
    strategy: BounceStrategy,
    orientation: O,
    outcome: spec_fn(V) -> V,
    events: Seq<CollisionEvent>,
    before: V,
    after: V,
)
    requires
        forall|i: int| 0 <= i < events.len() ==> triggers_bounce(#[trigger] events[i]),
        forall|v: V, w: V| #[trigger]
            call_ensures(kernel, (strategy, v, orientation), w) ==> w == outcome(v),
        bounced(kernel, strategy, orientation, bounce_count(events), before, after),
    ensures
        after == iterate(outcome, events.len(), before),
{
    lemma_count_all(events);
    lemma_bounced_exact(kernel, strategy, orientation, outcome, events.len(), before, after);
}

} // verus!
