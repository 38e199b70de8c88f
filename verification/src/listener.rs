//! The listener in the scene: global gain, position, velocity, orientation.
//!
//! Every operation first verifies that a valid audio context exists. Absent
//! one, setters are no-ops and getters return zero values; no error is
//! raised, by design, so these calls are infallible. Scalars are bit
//! patterns of single-precision floats (see [`crate::context`]); no clamping
//! is performed, out-of-range values pass through to the external system.

use vstd::prelude::*;

use crate::context::{v3_zero, AudioContext, CtxView, V3};

verus! {

/// What setting the global volume does to the subsystem state.
pub open spec fn spec_set_volume(c: CtxView, volume: u32) -> CtxView {
    if c.valid {
        CtxView { gain: volume, ..c }
    } else {
        c
    }
}

/// What reading the global volume returns.
pub open spec fn spec_get_volume(c: CtxView) -> u32 {
    if c.valid {
        c.gain
    } else {
        0
    }
}

pub open spec fn spec_set_position(c: CtxView, position: V3) -> CtxView {
    if c.valid {
        CtxView { position: position, ..c }
    } else {
        c
    }
}

pub open spec fn spec_get_position(c: CtxView) -> V3 {
    if c.valid {
        c.position
    } else {
        v3_zero()
    }
}

pub open spec fn spec_set_velocity(c: CtxView, velocity: V3) -> CtxView {
    if c.valid {
        CtxView { velocity: velocity, ..c }
    } else {
        c
    }
}

pub open spec fn spec_get_velocity(c: CtxView) -> V3 {
    if c.valid {
        c.velocity
    } else {
        v3_zero()
    }
}

pub open spec fn spec_set_orientation(c: CtxView, at: V3, up: V3) -> CtxView {
    if c.valid {
        CtxView { at: at, up: up, ..c }
    } else {
        c
    }
}

pub open spec fn spec_get_orientation(c: CtxView) -> (V3, V3) {
    if c.valid {
        (c.at, c.up)
    } else {
        (v3_zero(), v3_zero())
    }
}

/// Sets the global volume of the scene.
///
/// A value of (the bit pattern of) 1.0 means unattenuated; each halving is
/// about -6dB, each doubling about +6dB. The value is stored as given.
pub fn set_volume(ctx: &mut AudioContext, volume: u32)
    ensures
        final(ctx)@ == spec_set_volume(old(ctx)@, volume),
{
    if ctx.is_valid() {
        ctx.set_listener_gain(volume);
    }
}

/// Gets the global volume of the scene, or (the bit pattern of) 0.0 when no
/// valid context exists.
pub fn get_volume(ctx: &AudioContext) -> (r: u32)
    ensures
        r == spec_get_volume(ctx@),
{
    if ctx.is_valid() {
        ctx.listener_gain()
    } else {
        0
    }
}

/// Sets the listener location in three dimensional space: a right-handed
/// coordinate system, X right, Y up, Z toward the viewer. Default is the
/// zero vector.
pub fn set_position(ctx: &mut AudioContext, position: V3)
    ensures
        final(ctx)@ == spec_set_position(old(ctx)@, position),
{
    if ctx.is_valid() {
        ctx.set_listener_position(position);
    }
}

/// Gets the listener location, or the zero vector when no valid context
/// exists.
pub fn get_position(ctx: &AudioContext) -> (r: V3)
    ensures
        r == spec_get_position(ctx@),
{
    if ctx.is_valid() {
        ctx.listener_position()
    } else {
        V3 { x: 0, y: 0, z: 0 }
    }
}

/// Sets the orientation of the listener: the front as `orientation_at`, the
/// top as `orientation_up`. Default is at (0, 0, -1), up (0, 1, 0).
pub fn set_orientation(ctx: &mut AudioContext, orientation_at: V3, orientation_up: V3)
    ensures
        final(ctx)@ == spec_set_orientation(old(ctx)@, orientation_at, orientation_up),
{
    if ctx.is_valid() {
        ctx.set_listener_orientation(orientation_at, orientation_up);
    }
}

/// Gets the orientation of the listener as (at, up), or zero vectors when no
/// valid context exists.
pub fn get_orientation(ctx: &AudioContext) -> (r: (V3, V3))
    ensures
        r == spec_get_orientation(ctx@),
{
    if ctx.is_valid() {
        ctx.listener_orientation()
    } else {
        (V3 { x: 0, y: 0, z: 0 }, V3 { x: 0, y: 0, z: 0 })
    }
}

/// Sets the velocity of the listener. Default is the zero vector.
pub fn set_velocity(ctx: &mut AudioContext, velocity: V3)
    ensures
        final(ctx)@ == spec_set_velocity(old(ctx)@, velocity),
{
    if ctx.is_valid() {
        ctx.set_listener_velocity(velocity);
    }
}

/// Gets the velocity of the listener, or the zero vector when no valid
/// context exists.
pub fn get_velocity(ctx: &AudioContext) -> (r: V3)
    ensures
        r == spec_get_velocity(ctx@),
{
    if ctx.is_valid() {
        ctx.listener_velocity()
    } else {
        V3 { x: 0, y: 0, z: 0 }
    }
}

/// Round trip: under a valid context, reading the position after setting it
/// returns the vector that was set; absent a context, the read returns the
/// zero vector regardless of prior calls.
pub proof fn lemma_position_round_trip(c: CtxView, v: V3)
    ensures
        c.valid ==> spec_get_position(spec_set_position(c, v)) == v,
        !c.valid ==> spec_get_position(spec_set_position(c, v)) == v3_zero(),
{
}

/// Round trip: under a valid context, reading the volume after setting it
/// returns the gain that was set.
pub proof fn lemma_volume_round_trip(c: CtxView, g: u32)
    ensures
        c.valid ==> spec_get_volume(spec_set_volume(c, g)) == g,
{
}

/// Round trip: under a valid context, reading the orientation after setting
/// it returns the pair (at, up) unchanged.
pub proof fn lemma_orientation_round_trip(c: CtxView, at: V3, up: V3)
    requires
        c.valid,
    ensures
        spec_get_orientation(spec_set_orientation(c, at, up)) == (at, up),
{
}

} // verus!
