//! Reverb effect lifecycle: an effect object paired with an auxiliary
//! effect slot.
//!
//! Construction allocates both handles, tags the effect object as reverb,
//! and checks the error flag once; [`ReverbEffect::preset`] additionally
//! writes thirteen named reverb parameters and loads the configured effect
//! into the slot. Teardown ([`ReverbEffect::release`]) unloads the slot and
//! releases both handles unconditionally; a failure there is reported as a
//! diagnostic value only, never raised.

use vstd::prelude::*;

use crate::context::{
    spec_delete_effect, spec_delete_slot, spec_effectf, spec_effecti, spec_slot_set_effect,
    with_fparam, AlError, AudioContext, CtxView, EffectFParam, EffectIParam, EffectRecord,
    ReverbProperties, SlotRecord, EFFECT_REVERB,
};

verus! {

/// All possible errors when constructing a reverb effect.
#[derive(Clone, Copy, PartialEq, Eq, Structural, Debug)]
pub enum ReverbEffectError {
    /// No valid audio context exists.
    InvalidOpenALContext,
    /// The audio subsystem's error flag was set when checked.
    InternalOpenALError(AlError),
}

/// A configured audio-processing effect together with the mix bus (the
/// auxiliary effect slot) that applies it.
///
/// The object owns both handles for its whole lifetime; a sound may
/// reference the slot handle by value, without taking ownership. Both
/// handles are released together by [`ReverbEffect::release`].
pub struct ReverbEffect {
    effect_id: u32,
    effect_slot_id: u32,
}

/// What a plain construction does to the subsystem state, given a valid
/// context: one slot and one reverb-typed effect are allocated, and the
/// aggregate error check clears the flag.
pub open spec fn spec_new_ctx(c: CtxView) -> CtxView {
    CtxView {
        slots: c.slots.push(SlotRecord { live: true, effect: 0 }),
        effects: c.effects.push(
            EffectRecord {
                live: true,
                effect_type: EFFECT_REVERB,
                params: crate::context::zero_properties(),
            },
        ),
        error: None,
        ..c
    }
}

/// What a preset construction does to the subsystem state, given a valid
/// context with a clear error flag: as [`spec_new_ctx`], but the effect
/// carries the given parameters and is loaded into the slot.
pub open spec fn spec_preset_ctx(c: CtxView, p: ReverbProperties) -> CtxView {
    CtxView {
        slots: c.slots.push(
            SlotRecord { live: true, effect: (c.effects.len() + 1) as u32 },
        ),
        effects: c.effects.push(
            EffectRecord { live: true, effect_type: EFFECT_REVERB, params: p },
        ),
        error: None,
        ..c
    }
}

/// What teardown does to the subsystem state, given a valid context: the
/// slot is unloaded, then both handles are released, in that order; the
/// final aggregate error read is not part of this state (it clears the
/// flag and yields the diagnostic).
pub open spec fn spec_release_ctx(c: CtxView, effect_id: u32, slot_id: u32) -> CtxView {
    spec_delete_slot(
        spec_delete_effect(spec_slot_set_effect(c, slot_id, 0), effect_id),
        slot_id,
    )
}

impl ReverbEffect {
    pub closed spec fn spec_effect_id(self) -> u32 {
        self.effect_id
    }

    pub closed spec fn spec_slot_id(self) -> u32 {
        self.effect_slot_id
    }

    /// Creates a reverb effect: verifies the context, allocates an auxiliary
    /// effect slot and an effect object, tags the object as reverb, and
    /// checks the error flag once. On an internal error the allocated
    /// handles are left live and unlinked.
    pub fn new(ctx: &mut AudioContext) -> (r: Result<ReverbEffect, ReverbEffectError>)
        requires
            old(ctx)@.valid ==> old(ctx)@.can_gen(),
        ensures
            !old(ctx)@.valid ==> final(ctx)@ == old(ctx)@
                && r == Err::<ReverbEffect, ReverbEffectError>(
                ReverbEffectError::InvalidOpenALContext,
            ),
            old(ctx)@.valid ==> final(ctx)@ == spec_new_ctx(old(ctx)@),
            old(ctx)@.valid ==> (old(ctx)@.error matches Some(e) ==> r
                == Err::<ReverbEffect, ReverbEffectError>(
                ReverbEffectError::InternalOpenALError(e),
            )),
            old(ctx)@.valid && old(ctx)@.error is None ==> (r matches Ok(effect)
                && effect.spec_effect_id() == old(ctx)@.effects.len() + 1
                && effect.spec_slot_id() == old(ctx)@.slots.len() + 1
                && final(ctx)@.effect_live(effect.spec_effect_id())
                && final(ctx)@.slot_live(effect.spec_slot_id())),
    {
        if !ctx.is_valid() {
            return Err(ReverbEffectError::InvalidOpenALContext);
        }

        // Create the auxiliary effect slot
        let effect_slot_id = ctx.gen_aux_slot();

        // Create the effect
        let effect_id = ctx.gen_effect();

        // Only standard reverb: tag the effect object accordingly
        ctx.effecti(effect_id, EffectIParam::EffectType, EFFECT_REVERB);

        proof {
            assert(ctx@.effects =~= spec_new_ctx(old(ctx)@).effects);
        }

        // Check if there is an internal error
        if let Some(err) = ctx.openal_has_error() {
            proof {
                assert(ctx@ =~= spec_new_ctx(old(ctx)@));
            }
            return Err(ReverbEffectError::InternalOpenALError(err));
        }

        proof {
            assert(ctx@ =~= spec_new_ctx(old(ctx)@));
        }
        Ok(ReverbEffect { effect_id, effect_slot_id })
    }

    /// Creates a reverb effect and applies the thirteen named reverb
    /// parameters, each guarded by the context check, followed by one
    /// aggregate error check and the step that loads the configured effect
    /// into the auxiliary slot (the slot is inert until then).
    pub fn preset(ctx: &mut AudioContext, reverb_properties: ReverbProperties) -> (r: Result<
        ReverbEffect,
        ReverbEffectError,
    >)
        requires
            old(ctx)@.valid ==> old(ctx)@.can_gen(),
        ensures
            !old(ctx)@.valid ==> final(ctx)@ == old(ctx)@
                && r == Err::<ReverbEffect, ReverbEffectError>(
                ReverbEffectError::InvalidOpenALContext,
            ),
            old(ctx)@.valid ==> (old(ctx)@.error matches Some(e) ==> final(ctx)@ == spec_new_ctx(
                old(ctx)@,
            ) && r == Err::<ReverbEffect, ReverbEffectError>(
                ReverbEffectError::InternalOpenALError(e),
            )),
            old(ctx)@.valid && old(ctx)@.error is None ==> (r matches Ok(effect) && final(ctx)@
                == spec_preset_ctx(
                old(ctx)@,
                reverb_properties,
            ) && effect.spec_effect_id() == old(ctx)@.effects.len() + 1
                && effect.spec_slot_id() == old(ctx)@.slots.len() + 1
                && effect.spec_slot_id() >= 1
                && final(ctx)@.effect_live(effect.spec_effect_id())
                && final(ctx)@.slot_live(effect.spec_slot_id())
                && final(ctx)@.slots[effect.spec_slot_id() - 1].effect
                == effect.spec_effect_id()
                && final(ctx)@.effects[effect.spec_effect_id() - 1].params
                == reverb_properties),
    {
        match Self::new(ctx) {
            Ok(effect) => {
                effect.set_density(ctx, reverb_properties.density);
                effect.set_diffusion(ctx, reverb_properties.diffusion);
                effect.set_gain(ctx, reverb_properties.gain);
                effect.set_gainhf(ctx, reverb_properties.gainhf);
                effect.set_decay_time(ctx, reverb_properties.decay_time);
                effect.set_decay_hfratio(ctx, reverb_properties.decay_hfratio);
                effect.set_reflections_gain(ctx, reverb_properties.reflections_gain);
                effect.set_reflections_delay(ctx, reverb_properties.reflections_delay);
                effect.set_late_reverb_gain(ctx, reverb_properties.late_reverb_gain);
                effect.set_late_reverb_delay(ctx, reverb_properties.late_reverb_delay);
                effect.set_air_absorption_gainhf(ctx, reverb_properties.air_absorption_gainhf);
                effect.set_room_rolloff_factor(ctx, reverb_properties.room_rolloff_factor);
                effect.set_decay_hflimit(ctx, reverb_properties.decay_hflimit);

                proof {
                    assert(ctx@.effects =~= spec_preset_ctx(old(ctx)@, reverb_properties).effects);
                }

                // Check if there is an internal error
                if let Some(err) = ctx.openal_has_error() {
                    return Err(ReverbEffectError::InternalOpenALError(err));
                }

                effect.update_slot(ctx);

                proof {
                    assert(ctx@ =~= spec_preset_ctx(old(ctx)@, reverb_properties));
                }

                Ok(effect)
            },
            Err(e) => Err(e),
        }
    }

    /// Exposes the auxiliary effect slot handle by value, for a sound to
    /// reference without taking ownership.
    pub fn slot(&self) -> (r: u32)
        ensures
            r == self.spec_slot_id(),
    {
        self.effect_slot_id
    }

    /// Loads the configured effect object into the auxiliary slot.
    fn update_slot(&self, ctx: &mut AudioContext)
        ensures
            final(ctx)@ == (if old(ctx)@.valid {
                spec_slot_set_effect(old(ctx)@, self.spec_slot_id(), self.spec_effect_id())
            } else {
                old(ctx)@
            }),
    {
        if ctx.is_valid() {
            ctx.aux_slot_set_effect(self.effect_slot_id, self.effect_id);
        }
    }

    fn set_density(&self, ctx: &mut AudioContext, density: u32)
        ensures
            final(ctx)@ == (if old(ctx)@.valid {
                spec_effectf(old(ctx)@, self.spec_effect_id(), EffectFParam::Density, density)
            } else {
                old(ctx)@
            }),
    {
        if ctx.is_valid() {
            ctx.effectf(self.effect_id, EffectFParam::Density, density);
        }
    }

    fn set_diffusion(&self, ctx: &mut AudioContext, diffusion: u32)
        ensures
            final(ctx)@ == (if old(ctx)@.valid {
                spec_effectf(old(ctx)@, self.spec_effect_id(), EffectFParam::Diffusion, diffusion)
            } else {
                old(ctx)@
            }),
    {
        if ctx.is_valid() {
            ctx.effectf(self.effect_id, EffectFParam::Diffusion, diffusion);
        }
    }

    fn set_gain(&self, ctx: &mut AudioContext, gain: u32)
        ensures
            final(ctx)@ == (if old(ctx)@.valid {
                spec_effectf(old(ctx)@, self.spec_effect_id(), EffectFParam::Gain, gain)
            } else {
                old(ctx)@
            }),
    {
        if ctx.is_valid() {
            ctx.effectf(self.effect_id, EffectFParam::Gain, gain);
        }
    }

    fn set_gainhf(&self, ctx: &mut AudioContext, gainhf: u32)
        ensures
            final(ctx)@ == (if old(ctx)@.valid {
                spec_effectf(old(ctx)@, self.spec_effect_id(), EffectFParam::Gainhf, gainhf)
            } else {
                old(ctx)@
            }),
    {
        if ctx.is_valid() {
            ctx.effectf(self.effect_id, EffectFParam::Gainhf, gainhf);
        }
    }

    fn set_decay_time(&self, ctx: &mut AudioContext, decay_time: u32)
        ensures
            final(ctx)@ == (if old(ctx)@.valid {
                spec_effectf(old(ctx)@, self.spec_effect_id(), EffectFParam::DecayTime, decay_time)
            } else {
                old(ctx)@
            }),
    {
        if ctx.is_valid() {
            ctx.effectf(self.effect_id, EffectFParam::DecayTime, decay_time);
        }
    }

    fn set_decay_hfratio(&self, ctx: &mut AudioContext, decay_hfratio: u32)
        ensures
            final(ctx)@ == (if old(ctx)@.valid {
                spec_effectf(
                    old(ctx)@,
                    self.spec_effect_id(),
                    EffectFParam::DecayHfratio,
                    decay_hfratio,
                )
            } else {
                old(ctx)@
            }),
    {
        if ctx.is_valid() {
            ctx.effectf(self.effect_id, EffectFParam::DecayHfratio, decay_hfratio);
        }
    }

    fn set_reflections_gain(&self, ctx: &mut AudioContext, reflections_gain: u32)
        ensures
            final(ctx)@ == (if old(ctx)@.valid {
                spec_effectf(
                    old(ctx)@,
                    self.spec_effect_id(),
                    EffectFParam::ReflectionsGain,
                    reflections_gain,
                )
            } else {
                old(ctx)@
            }),
    {
        if ctx.is_valid() {
            ctx.effectf(self.effect_id, EffectFParam::ReflectionsGain, reflections_gain);
        }
    }

    fn set_reflections_delay(&self, ctx: &mut AudioContext, reflections_delay: u32)
        ensures
            final(ctx)@ == (if old(ctx)@.valid {
                spec_effectf(
                    old(ctx)@,
                    self.spec_effect_id(),
                    EffectFParam::ReflectionsDelay,
                    reflections_delay,
                )
            } else {
                old(ctx)@
            }),
    {
        if ctx.is_valid() {
            ctx.effectf(self.effect_id, EffectFParam::ReflectionsDelay, reflections_delay);
        }
    }

    fn set_late_reverb_gain(&self, ctx: &mut AudioContext, late_reverb_gain: u32)
        ensures
            final(ctx)@ == (if old(ctx)@.valid {
                spec_effectf(
                    old(ctx)@,
                    self.spec_effect_id(),
                    EffectFParam::LateReverbGain,
                    late_reverb_gain,
                )
            } else {
                old(ctx)@
            }),
    {
        if ctx.is_valid() {
            ctx.effectf(self.effect_id, EffectFParam::LateReverbGain, late_reverb_gain);
        }
    }

    fn set_late_reverb_delay(&self, ctx: &mut AudioContext, late_reverb_delay: u32)
        ensures
            final(ctx)@ == (if old(ctx)@.valid {
                spec_effectf(
                    old(ctx)@,
                    self.spec_effect_id(),
                    EffectFParam::LateReverbDelay,
                    late_reverb_delay,
                )
            } else {
                old(ctx)@
            }),
    {
        if ctx.is_valid() {
            ctx.effectf(self.effect_id, EffectFParam::LateReverbDelay, late_reverb_delay);
        }
    }

    fn set_air_absorption_gainhf(&self, ctx: &mut AudioContext, air_absorption_gainhf: u32)
        ensures
            final(ctx)@ == (if old(ctx)@.valid {
                spec_effectf(
                    old(ctx)@,
                    self.spec_effect_id(),
                    EffectFParam::AirAbsorptionGainhf,
                    air_absorption_gainhf,
                )
            } else {
                old(ctx)@
            }),
    {
        if ctx.is_valid() {
            ctx.effectf(self.effect_id, EffectFParam::AirAbsorptionGainhf, air_absorption_gainhf);
        }
    }

    fn set_room_rolloff_factor(&self, ctx: &mut AudioContext, room_rolloff_factor: u32)
        ensures
            final(ctx)@ == (if old(ctx)@.valid {
                spec_effectf(
                    old(ctx)@,
                    self.spec_effect_id(),
                    EffectFParam::RoomRolloffFactor,
                    room_rolloff_factor,
                )
            } else {
                old(ctx)@
            }),
    {
        if ctx.is_valid() {
            ctx.effectf(self.effect_id, EffectFParam::RoomRolloffFactor, room_rolloff_factor);
        }
    }

    fn set_decay_hflimit(&self, ctx: &mut AudioContext, decay_hflimit: i32)
        ensures
            final(ctx)@ == (if old(ctx)@.valid {
                spec_effecti(
                    old(ctx)@,
                    self.spec_effect_id(),
                    EffectIParam::DecayHflimit,
                    decay_hflimit,
                )
            } else {
                old(ctx)@
            }),
    {
        if ctx.is_valid() {
            ctx.effecti(self.effect_id, EffectIParam::DecayHflimit, decay_hflimit);
        }
    }

    /// Tears the effect down: unloads the slot, then releases the effect
    /// object and the auxiliary effect slot. Release is unconditional; if
    /// the error flag is set afterwards (typically because something still
    /// references the slot), the failure comes back as a diagnostic value
    /// only — teardown never raises.
    pub fn release(self, ctx: &mut AudioContext) -> (diag: Option<AlError>)
        ensures
            !old(ctx)@.valid ==> final(ctx)@ == old(ctx)@ && diag is None,
            old(ctx)@.valid ==> final(ctx)@ == spec_release_ctx(
                old(ctx)@,
                self.spec_effect_id(),
                self.spec_slot_id(),
            ).cleared() && diag == spec_release_ctx(
                old(ctx)@,
                self.spec_effect_id(),
                self.spec_slot_id(),
            ).error,
            old(ctx)@.valid && old(ctx)@.effect_live(self.spec_effect_id())
                && old(ctx)@.slot_live(self.spec_slot_id()) && old(ctx)@.error is None ==> diag
                is None && !final(ctx)@.effect_live(self.spec_effect_id())
                && !final(ctx)@.slot_live(self.spec_slot_id()),
    {
        if !ctx.is_valid() {
            return None;
        }

        // Unload the effect from the slot
        ctx.aux_slot_set_effect(self.effect_slot_id, 0);

        // Release both handles
        ctx.delete_effect(self.effect_id);
        ctx.delete_aux_slot(self.effect_slot_id);

        // The caller may report this diagnostic; release never fails.
        ctx.openal_has_error()
    }
}

/// Teardown under a valid context with both handles live and no pending
/// error frees both handles, exactly once: afterwards neither handle is
/// live, the flag is clear, and a further release of either handle would
/// only set the error flag — nothing is freed twice.
pub proof fn lemma_release_frees_handles_once(c: CtxView, effect_id: u32, slot_id: u32)
    requires
        c.valid,
        c.effect_live(effect_id),
        c.slot_live(slot_id),
        c.error is None,
    ensures
        spec_release_ctx(c, effect_id, slot_id).error is None,
        !spec_release_ctx(c, effect_id, slot_id).cleared().effect_live(effect_id),
        !spec_release_ctx(c, effect_id, slot_id).cleared().slot_live(slot_id),
        spec_delete_effect(spec_release_ctx(c, effect_id, slot_id).cleared(), effect_id).error
            == Some(AlError::InvalidName),
        spec_delete_slot(spec_release_ctx(c, effect_id, slot_id).cleared(), slot_id).error
            == Some(AlError::InvalidName),
        spec_release_ctx(c, effect_id, slot_id).cleared().buffers == c.buffers,
{
}

} // verus!
