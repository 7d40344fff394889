//! Which lights of a scene reach which light buffer of a shaded pass.
//!
//! Point and spot lights are placed by their entity's transform and are left
//! out without one; a directional light has no place and always counts.

use vstd::prelude::*;

verus! {

/// The kinds of light, one buffer each.
#[derive(Clone, Copy, Debug, PartialEq, Eq, Structural)]
pub enum LightKind {
    Point,
    Directional,
    Spot,
}

/// What a pass knows of one light of the scene.
#[derive(Clone, Copy, Debug, PartialEq, Eq, Structural)]
pub struct LightEntry {
    pub kind: LightKind,
    /// The light's entity has a transform.
    pub has_transform: bool,
}

/// The numbers of lights in the three light buffers.
#[derive(Clone, Copy, Debug, PartialEq, Eq, Structural)]
pub struct FragmentArgs {
    pub point_light_count: u32,
    pub directional_light_count: u32,
    pub spot_light_count: u32,
}

/// The buffer that a light goes to, if it goes to any.
pub open spec fn buffer_of(entry: LightEntry) -> Option<LightKind> {
    if entry.kind == LightKind::Directional || entry.has_transform {
        Some(entry.kind)
    } else {
        None
    }
}

/// How many of `lights` go to the buffer of `kind`.
pub open spec fn lights_in(lights: Seq<LightEntry>, kind: LightKind) -> nat
    decreases lights.len(),
{
    if lights.len() == 0 {
        0
    } else {
        lights_in(lights.drop_last(), kind) + if buffer_of(lights.last()) == Some(kind) {
            1nat
        } else {
            0nat
        }
    }
}

/// No buffer holds more lights than there are.
pub proof fn lemma_lights_in_bound(lights: Seq<LightEntry>, kind: LightKind)
    ensures
        lights_in(lights, kind) <= lights.len(),
    decreases lights.len(),
{
    if lights.len() > 0 {
        lemma_lights_in_bound(lights.drop_last(), kind);
    }
}

/// Every light is in at most one buffer: the three counts together do not
/// exceed the number of lights.
pub proof fn lemma_buffers_are_disjoint(lights: Seq<LightEntry>)
    ensures
        lights_in(lights, LightKind::Point) + lights_in(lights, LightKind::Directional)
            + lights_in(lights, LightKind::Spot) <= lights.len(),
    decreases lights.len(),
{
    if lights.len() > 0 {
        lemma_buffers_are_disjoint(lights.drop_last());
    }
}

/// Tells which buffer a light goes to, if it goes to any.
pub fn light_buffer(entry: LightEntry) -> (buffer: Option<LightKind>)
    ensures
        buffer == buffer_of(entry),
{
    match entry.kind {
        LightKind::Directional => Some(LightKind::Directional),
        LightKind::Point => if entry.has_transform {
            Some(LightKind::Point)
        } else {
            None
        },
        LightKind::Spot => if entry.has_transform {
            Some(LightKind::Spot)
        } else {
            None
        },
    }
}

/// Counts the lights of each buffer.
pub fn fragment_args(lights: &Vec<LightEntry>) -> (args: FragmentArgs)
    requires
        lights@.len() <= u32::MAX,
    ensures
        args.point_light_count == lights_in(lights@, LightKind::Point),
        args.directional_light_count == lights_in(lights@, LightKind::Directional),
        args.spot_light_count == lights_in(lights@, LightKind::Spot),
{
    let mut args = FragmentArgs {
        point_light_count: 0,
        directional_light_count: 0,
        spot_light_count: 0,
    };
    let mut k: usize = 0;
    while k < lights.len()
        invariant
            k <= lights@.len(),
            lights@.len() <= u32::MAX,
            args.point_light_count == lights_in(lights@.take(k as int), LightKind::Point),
            args.directional_light_count == lights_in(
                lights@.take(k as int),
                LightKind::Directional,
            ),
            args.spot_light_count == lights_in(lights@.take(k as int), LightKind::Spot),
        decreases lights@.len() - k,
    {
        proof {
            let seen = lights@.take(k as int);
            lemma_lights_in_bound(seen, LightKind::Point);
            lemma_lights_in_bound(seen, LightKind::Directional);
            lemma_lights_in_bound(seen, LightKind::Spot);
            assert(lights@.take(k + 1).drop_last() =~= seen);
            assert(lights@.take(k + 1).last() == lights@[k as int]);
        }
        match light_buffer(lights[k]) {
            Some(LightKind::Point) => {
                args.point_light_count = args.point_light_count + 1;
            },
            Some(LightKind::Directional) => {
                args.directional_light_count = args.directional_light_count + 1;
            },
            Some(LightKind::Spot) => {
                args.spot_light_count = args.spot_light_count + 1;
            },
            None => {},
        }
        k = k + 1;
    }
    proof {
        assert(lights@.take(k as int) =~= lights@);
    }
    args
}

} // verus!
