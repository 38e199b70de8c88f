use ears::context::{AlError, AudioContext, ReverbProperties, EFFECT_REVERB};
use ears::reverb_effect::{ReverbEffect, ReverbEffectError};

fn cave_like_properties() -> ReverbProperties {
    ReverbProperties {
        density: 1.0f32.to_bits(),
        diffusion: 1.0f32.to_bits(),
        gain: 0.316f32.to_bits(),
        gainhf: 1.0f32.to_bits(),
        decay_time: 2.91f32.to_bits(),
        decay_hfratio: 1.3f32.to_bits(),
        reflections_gain: 0.5f32.to_bits(),
        reflections_delay: 0.015f32.to_bits(),
        late_reverb_gain: 0.706f32.to_bits(),
        late_reverb_delay: 0.022f32.to_bits(),
        air_absorption_gainhf: 0.994f32.to_bits(),
        room_rolloff_factor: 0.0f32.to_bits(),
        decay_hflimit: 1,
    }
}

#[test]
fn reverb_new_without_context_fails() {
    let mut ctx = AudioContext::absent();
    let r = ReverbEffect::new(&mut ctx);
    assert!(matches!(r, Err(ReverbEffectError::InvalidOpenALContext)));
}

#[test]
fn reverb_new_allocates_reverb_typed_handles() {
    let mut ctx = AudioContext::new();
    let effect = ReverbEffect::new(&mut ctx).unwrap();
    assert_eq!(effect.slot(), 1);
    assert!(ctx.slot_is_live(effect.slot()));
    assert!(ctx.effect_is_live(1));
    let record = ctx.effect_state(1).unwrap();
    assert_eq!(record.effect_type, EFFECT_REVERB);
    // The slot is inert until a preset binds the effect into it.
    assert_eq!(ctx.slot_binding(effect.slot()), Some(0));
    assert_eq!(ctx.error_flag(), None);
}

#[test]
fn reverb_new_surfaces_pending_internal_error() {
    let mut ctx = AudioContext::new();
    ctx.raise_error(AlError::InvalidOperation);
    let r = ReverbEffect::new(&mut ctx);
    assert!(matches!(
        r,
        Err(ReverbEffectError::InternalOpenALError(AlError::InvalidOperation))
    ));
    // The aggregate check consumed the flag.
    assert_eq!(ctx.error_flag(), None);
}

#[test]
fn preset_binds_effect_into_slot() {
    let mut ctx = AudioContext::new();
    let props = cave_like_properties();
    let effect = ReverbEffect::preset(&mut ctx, props).unwrap();
    assert_ne!(effect.slot(), 0);
    assert_eq!(ctx.slot_binding(effect.slot()), Some(1));
    let record = ctx.effect_state(1).unwrap();
    assert_eq!(record.effect_type, EFFECT_REVERB);
    assert_eq!(record.params, props);
    assert_eq!(ctx.error_flag(), None);
}

#[test]
fn preset_without_context_fails() {
    let mut ctx = AudioContext::absent();
    let r = ReverbEffect::preset(&mut ctx, cave_like_properties());
    assert!(matches!(r, Err(ReverbEffectError::InvalidOpenALContext)));
}

#[test]
fn preset_surfaces_pending_internal_error() {
    let mut ctx = AudioContext::new();
    ctx.raise_error(AlError::OutOfMemory);
    let r = ReverbEffect::preset(&mut ctx, cave_like_properties());
    assert!(matches!(
        r,
        Err(ReverbEffectError::InternalOpenALError(AlError::OutOfMemory))
    ));
}

#[test]
fn release_frees_both_handles_once() {
    let mut ctx = AudioContext::new();
    let effect = ReverbEffect::preset(&mut ctx, cave_like_properties()).unwrap();
    let slot = effect.slot();
    let diag = effect.release(&mut ctx);
    assert_eq!(diag, None);
    assert!(!ctx.effect_is_live(1));
    assert!(!ctx.slot_is_live(slot));
    assert_eq!(ctx.error_flag(), None);
}

#[test]
fn release_without_context_is_a_no_op() {
    let mut ctx = AudioContext::new();
    let effect = ReverbEffect::new(&mut ctx).unwrap();
    let slot = effect.slot();
    let mut gone = AudioContext::absent();
    let diag = effect.release(&mut gone);
    assert_eq!(diag, None);
    // The handles in the real context were not touched.
    assert!(ctx.effect_is_live(1));
    assert!(ctx.slot_is_live(slot));
}
