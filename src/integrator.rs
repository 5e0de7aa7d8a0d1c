//! Control of a single light path: when to trace, when to stop, and what
//! the path's colour is made of when it stops.
//!
//! The caller owns the rays and colours. It asks `begin` what to do with a
//! fresh camera ray, performs each `Trace` (intersect the scene, scatter at
//! the hit, multiply the material's attenuation into the running product),
//! reports what happened as an `Event`, and asks `advance` again. A path
//! that ends in `Background` has the sky colour multiplied into that running
//! product; a path that ends in `Black` contributes nothing.

use vstd::prelude::*;

verus! {

/// What one trace query of a path found.
#[derive(Clone, Copy, Debug, PartialEq, Eq, Structural)]
pub enum Event {
    /// The ray left the scene without hitting anything.
    Miss,
    /// The ray hit a surface whose material absorbed it.
    Absorbed,
    /// The ray hit a surface and was scattered onward.
    Scattered,
}

/// What the path does next.
#[derive(Clone, Copy, Debug, PartialEq, Eq, Structural)]
pub enum Next {
    /// The path ends and contributes black.
    Black,
    /// The path ends on the sky gradient, seen through the attenuations
    /// gathered so far.
    Background,
    /// Trace the current ray, with `depth` bounces still allowed.
    Trace { depth: u32 },
}

impl Next {
    /// Whether the path has ended.
    pub open spec fn is_end(self) -> bool {
        !(self is Trace)
    }
}

/// A path given `depth` bounces: nothing at all is traced once the budget
/// is spent.
pub open spec fn begin_spec(depth: u32) -> Next {
    if depth == 0 {
        Next::Black
    } else {
        Next::Trace { depth }
    }
}

/// The step after a trace at `depth` reported `event`.
pub open spec fn advance_spec(depth: u32, event: Event) -> Next
    recommends
        depth > 0,
{
    match event {
        Event::Miss => Next::Background,
        Event::Absorbed => Next::Black,
        Event::Scattered => begin_spec((depth - 1) as u32),
    }
}

/// How a path given `depth` bounces ends, and how many trace queries it
/// makes, when the scene answers those queries with `events` in order.
/// `None` when `events` runs out before the path ends.
pub open spec fn path_end(depth: u32, events: Seq<Event>) -> Option<(Next, nat)>
    decreases depth,
{
    if depth == 0 {
        Some((Next::Black, 0))
    } else if events.len() == 0 {
        None
    } else {
        match events[0] {
            Event::Miss => Some((Next::Background, 1)),
            Event::Absorbed => Some((Next::Black, 1)),
            Event::Scattered => match path_end((depth - 1) as u32, events.drop_first()) {
                Some((end, n)) => Some((end, n + 1)),
                None => None,
            },
        }
    }
}

/// First step of a path with `depth` bounces allowed.
pub fn begin(depth: u32) -> (n: Next)
    ensures
        n == begin_spec(depth),
{
    if depth == 0 {
        Next::Black
    } else {
        Next::Trace { depth }
    }
}

/// Next step after tracing at `depth` produced `event`: a miss shows the
/// sky, an absorption ends in black, a scattering goes on with one bounce
/// fewer (and ends in black once none is left).
pub fn advance(depth: u32, event: Event) -> (n: Next)
    requires
        depth > 0,
    ensures
        n == advance_spec(depth, event),
{
    match event {
        Event::Miss => Next::Background,
        Event::Absorbed => Next::Black,
        Event::Scattered => begin(depth - 1),
    }
}

/// A path with no bounces left is black and traces nothing, whatever the
/// scene would report.
pub proof fn lemma_zero_depth_is_black(events: Seq<Event>)
    ensures
        begin_spec(0) == Next::Black,
        path_end(0, events) == Some((Next::Black, 0nat)),
{
}

/// Every path ends after at most `depth` trace queries, in black or on the
/// background: the bounce budget alone guarantees termination.
pub proof fn lemma_path_terminates(depth: u32, events: Seq<Event>)
    requires
        events.len() >= depth,
    ensures
        match path_end(depth, events) {
            Some((end, n)) => end.is_end() && n <= depth,
            None => false,
        },
    decreases depth,
{
    if depth > 0 && events[0] == Event::Scattered {
        lemma_path_terminates((depth - 1) as u32, events.drop_first());
    }
}

/// The shape of every finished path. All its queries but the last
/// scattered, so a path that reaches the sky carries exactly one attenuation
/// factor per scattering. It ends on the background only by a miss, and in
/// black only by an absorption or by spending its whole budget on
/// scatterings.
pub proof fn lemma_path_shape(depth: u32, events: Seq<Event>)
    requires
        path_end(depth, events) is Some,
    ensures
        match path_end(depth, events) {
            Some((end, n)) => {
                &&& n <= depth
                &&& n <= events.len()
                &&& forall|k: int| 0 <= k < n - 1 ==> events[k] == Event::Scattered
                &&& end == Next::Background ==> n >= 1 && events[n - 1] == Event::Miss
                &&& end == Next::Black ==> (n >= 1 && events[n - 1] == Event::Absorbed) || (n
                    == depth && (n == 0 || events[n - 1] == Event::Scattered))
                &&& end.is_end()
            },
            None => false,
        },
    decreases depth,
{
    if depth > 0 && events[0] == Event::Scattered {
        let rest = events.drop_first();
        lemma_path_shape((depth - 1) as u32, rest);
        let (_end, m) = path_end((depth - 1) as u32, rest)->Some_0;
        assert forall|k: int| 0 <= k < m implies events[k] == Event::Scattered by {
            if 0 < k < m {
                assert(events[k] == rest[k - 1]);
            }
        }
        if m >= 1 {
            assert(events[m as int] == rest[m - 1]);
        }
    }
}

/// Stepping with `begin` and `advance` follows `path_end`: after a trace
/// at `depth` reports `events[0]`, the rest of the path is the path that the
/// next step starts, with one more query counted.
pub proof fn lemma_steps_follow_path(depth: u32, events: Seq<Event>)
    requires
        depth > 0,
        events.len() > 0,
    ensures
        begin_spec(depth) == (Next::Trace { depth }),
        path_end(depth, events) == match advance_spec(depth, events[0]) {
            Next::Trace { depth: d } => match path_end(d, events.drop_first()) {
                Some((end, n)) => Some((end, n + 1)),
                None => None,
            },
            end => Some((end, 1nat)),
        },
{
    if events[0] == Event::Scattered && depth == 1 {
        assert(path_end(0, events.drop_first()) == Some((Next::Black, 0nat)));
    }
}

} // verus!
