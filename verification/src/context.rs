//! An explicit model of the externally owned audio subsystem.
//!
//! The native audio runtime owns all real state: the listener, the effect
//! objects, the auxiliary effect slots and the sample buffers, together with
//! a single sticky error flag. This module represents that state as a value,
//! [`AudioContext`], handed explicitly to every operation, so that the rest
//! of the library can be specified and checked against it. "No context" is a
//! represented value (see [`AudioContext::absent`]) rather than an ambient
//! global.
//!
//! Scalars that the native side treats as single-precision floating point
//! (gains, positions, reverb parameters) are carried as their IEEE 754 bit
//! patterns: this layer only stores and returns them, it never computes with
//! them.

use vstd::prelude::*;

verus! {

/// The error codes the audio subsystem records in its error flag.
#[derive(Clone, Copy, PartialEq, Eq, Structural, Debug)]
pub enum AlError {
    InvalidName,
    InvalidEnum,
    InvalidValue,
    InvalidOperation,
    OutOfMemory,
}

/// A three-component vector; each component is the bit pattern of a
/// single-precision float.
#[derive(Clone, Copy, PartialEq, Eq, Structural, Debug)]
pub struct V3 {
    pub x: u32,
    pub y: u32,
    pub z: u32,
}

/// Bit pattern of the single-precision float `1.0`.
pub const ONE_BITS: u32 = 0x3F80_0000;

/// Bit pattern of the single-precision float `-1.0`.
pub const NEG_ONE_BITS: u32 = 0xBF80_0000;

/// The effect-type value meaning "no effect".
pub const EFFECT_NULL: i32 = 0;

/// The effect-type value selecting standard reverb.
pub const EFFECT_REVERB: i32 = 1;

pub open spec fn v3_zero() -> V3 {
    V3 { x: 0, y: 0, z: 0 }
}

/// The parameters of a reverb effect object, as the subsystem holds them.
/// All but `decay_hflimit` are bit patterns of single-precision floats.
#[derive(Clone, Copy, PartialEq, Eq, Structural, Debug)]
pub struct ReverbProperties {
    pub density: u32,
    pub diffusion: u32,
    pub gain: u32,
    pub gainhf: u32,
    pub decay_time: u32,
    pub decay_hfratio: u32,
    pub reflections_gain: u32,
    pub reflections_delay: u32,
    pub late_reverb_gain: u32,
    pub late_reverb_delay: u32,
    pub air_absorption_gainhf: u32,
    pub room_rolloff_factor: u32,
    pub decay_hflimit: i32,
}

pub open spec fn zero_properties() -> ReverbProperties {
    ReverbProperties {
        density: 0,
        diffusion: 0,
        gain: 0,
        gainhf: 0,
        decay_time: 0,
        decay_hfratio: 0,
        reflections_gain: 0,
        reflections_delay: 0,
        late_reverb_gain: 0,
        late_reverb_delay: 0,
        air_absorption_gainhf: 0,
        room_rolloff_factor: 0,
        decay_hflimit: 0,
    }
}

/// The float-valued parameters an effect object accepts.
#[derive(Clone, Copy, PartialEq, Eq, Structural, Debug)]
pub enum EffectFParam {
    Density,
    Diffusion,
    Gain,
    Gainhf,
    DecayTime,
    DecayHfratio,
    ReflectionsGain,
    ReflectionsDelay,
    LateReverbGain,
    LateReverbDelay,
    AirAbsorptionGainhf,
    RoomRolloffFactor,
}

/// The integer-valued parameters an effect object accepts.
#[derive(Clone, Copy, PartialEq, Eq, Structural, Debug)]
pub enum EffectIParam {
    EffectType,
    DecayHflimit,
}

pub open spec fn with_fparam(p: ReverbProperties, param: EffectFParam, value: u32) -> ReverbProperties {
    match param {
        EffectFParam::Density => ReverbProperties { density: value, ..p },
        EffectFParam::Diffusion => ReverbProperties { diffusion: value, ..p },
        EffectFParam::Gain => ReverbProperties { gain: value, ..p },
        EffectFParam::Gainhf => ReverbProperties { gainhf: value, ..p },
        EffectFParam::DecayTime => ReverbProperties { decay_time: value, ..p },
        EffectFParam::DecayHfratio => ReverbProperties { decay_hfratio: value, ..p },
        EffectFParam::ReflectionsGain => ReverbProperties { reflections_gain: value, ..p },
        EffectFParam::ReflectionsDelay => ReverbProperties { reflections_delay: value, ..p },
        EffectFParam::LateReverbGain => ReverbProperties { late_reverb_gain: value, ..p },
        EffectFParam::LateReverbDelay => ReverbProperties { late_reverb_delay: value, ..p },
        EffectFParam::AirAbsorptionGainhf => ReverbProperties { air_absorption_gainhf: value, ..p },
        EffectFParam::RoomRolloffFactor => ReverbProperties { room_rolloff_factor: value, ..p },
    }
}

pub open spec fn with_iparam(r: EffectRecord, param: EffectIParam, value: i32) -> EffectRecord {
    match param {
        EffectIParam::EffectType => EffectRecord { effect_type: value, ..r },
        EffectIParam::DecayHflimit => EffectRecord {
            params: ReverbProperties { decay_hflimit: value, ..r.params },
            ..r
        },
    }
}

/// One effect object as the subsystem holds it. Handles are never reused:
/// a deleted object stays in place, marked dead.
#[derive(Clone, Copy, PartialEq, Eq, Structural, Debug)]
pub struct EffectRecord {
    pub live: bool,
    pub effect_type: i32,
    pub params: ReverbProperties,
}

/// One auxiliary effect slot. `effect` is the handle of the effect loaded
/// into the slot, or `0` for none.
#[derive(Clone, Copy, PartialEq, Eq, Structural, Debug)]
pub struct SlotRecord {
    pub live: bool,
    pub effect: u32,
}

/// The sample formats a buffer upload accepts.
#[derive(Clone, Copy, PartialEq, Eq, Structural, Debug)]
pub enum BufferFormat {
    Mono16,
    Stereo16,
}

/// One sample buffer. `format` is `None` until data has been uploaded.
pub struct BufferRecord {
    pub live: bool,
    pub samplerate: i32,
    pub format: Option<BufferFormat>,
    pub samples: Vec<i16>,
}

/// Specification-level image of one sample buffer.
#[verifier::ext_equal]
pub ghost struct BufView {
    pub live: bool,
    pub samplerate: i32,
    pub format: Option<BufferFormat>,
    pub samples: Seq<i16>,
}

impl View for BufferRecord {
    type V = BufView;

    open spec fn view(&self) -> BufView {
        BufView {
            live: self.live,
            samplerate: self.samplerate,
            format: self.format,
            samples: self.samples@,
        }
    }
}

pub open spec fn bufs_view(s: Seq<BufferRecord>) -> Seq<BufView> {
    s.map_values(|b: BufferRecord| b@)
}

/// Specification-level image of the whole audio subsystem.
#[verifier::ext_equal]
pub ghost struct CtxView {
    pub valid: bool,
    pub gain: u32,
    pub position: V3,
    pub velocity: V3,
    pub at: V3,
    pub up: V3,
    pub effects: Seq<EffectRecord>,
    pub slots: Seq<SlotRecord>,
    pub buffers: Seq<BufView>,
    pub error: Option<AlError>,
}

impl CtxView {
    /// Handle `h` names a live effect object.
    pub open spec fn effect_live(self, h: u32) -> bool {
        1 <= h && h <= self.effects.len() && self.effects[h - 1].live
    }

    /// Handle `h` names a live auxiliary effect slot.
    pub open spec fn slot_live(self, h: u32) -> bool {
        1 <= h && h <= self.slots.len() && self.slots[h - 1].live
    }

    /// Handle `h` names a live sample buffer.
    pub open spec fn buffer_live(self, h: u32) -> bool {
        1 <= h && h <= self.buffers.len() && self.buffers[h - 1].live
    }

    /// Room to hand out one more handle of each kind.
    pub open spec fn can_gen(self) -> bool {
        self.effects.len() < u32::MAX && self.slots.len() < u32::MAX
            && self.buffers.len() < u32::MAX
    }

    /// The same state with the error flag set.
    pub open spec fn with_error(self, e: AlError) -> CtxView {
        CtxView { error: Some(e), ..self }
    }

    /// The same state with the error flag cleared.
    pub open spec fn cleared(self) -> CtxView {
        CtxView { error: None, ..self }
    }
}

/// The state of a freshly created context: unit gain, zero position and
/// velocity, the conventional default orientation, no objects, no error.
pub open spec fn init_view() -> CtxView {
    CtxView {
        valid: true,
        gain: ONE_BITS,
        position: v3_zero(),
        velocity: v3_zero(),
        at: V3 { x: 0, y: 0, z: NEG_ONE_BITS },
        up: V3 { x: 0, y: ONE_BITS, z: 0 },
        effects: Seq::empty(),
        slots: Seq::empty(),
        buffers: Seq::empty(),
        error: None,
    }
}

/// The capability object standing for the externally owned audio runtime.
///
/// Every operation of the library takes one. A valid context models a live
/// runtime session; an absent one models "no context", under which setters
/// are no-ops and getters return zero values.
pub struct AudioContext {
    valid: bool,
    gain: u32,
    position: V3,
    velocity: V3,
    at: V3,
    up: V3,
    effects: Vec<EffectRecord>,
    slots: Vec<SlotRecord>,
    buffers: Vec<BufferRecord>,
    error: Option<AlError>,
}

impl View for AudioContext {
    type V = CtxView;

    closed spec fn view(&self) -> CtxView {
        CtxView {
            valid: self.valid,
            gain: self.gain,
            position: self.position,
            velocity: self.velocity,
            at: self.at,
            up: self.up,
            effects: self.effects@,
            slots: self.slots@,
            buffers: bufs_view(self.buffers@),
            error: self.error,
        }
    }
}

impl AudioContext {
    /// A live context in its initial state.
    pub fn new() -> (c: AudioContext)
        ensures
            c@ == init_view(),
    {
        let c = AudioContext {
            valid: true,
            gain: ONE_BITS,
            position: V3 { x: 0, y: 0, z: 0 },
            velocity: V3 { x: 0, y: 0, z: 0 },
            at: V3 { x: 0, y: 0, z: NEG_ONE_BITS },
            up: V3 { x: 0, y: ONE_BITS, z: 0 },
            effects: Vec::new(),
            slots: Vec::new(),
            buffers: Vec::new(),
            error: None,
        };
        proof {
            assert(c@ =~= init_view());
        }
        c
    }

    /// The represented value for "no context".
    pub fn absent() -> (c: AudioContext)
        ensures
            c@ == (CtxView { valid: false, ..init_view() }),
    {
        let mut c = AudioContext::new();
        c.valid = false;
        proof {
            assert(c@ =~= (CtxView { valid: false, ..init_view() }));
        }
        c
    }

    /// The context-validity query that guards every public entry point.
    pub fn is_valid(&self) -> (r: bool)
        ensures
            r == self@.valid,
    {
        self.valid
    }

    /// Records a failure raised on the external side, as the runtime itself
    /// would; lets callers and tests exercise the error paths.
    pub fn raise_error(&mut self, err: AlError)
        ensures
            final(self)@ == old(self)@.with_error(err),
    {
        self.error = Some(err);
    }

    /// Reads and clears the error flag: the aggregate "did the last call
    /// raise an error" check.
    pub fn openal_has_error(&mut self) -> (r: Option<AlError>)
        ensures
            r == old(self)@.error,
            final(self)@ == old(self)@.cleared(),
    {
        let r = self.error;
        self.error = None;
        r
    }

    /// Reads the error flag without clearing it.
    pub fn error_flag(&self) -> (r: Option<AlError>)
        ensures
            r == self@.error,
    {
        self.error
    }

    pub fn set_listener_gain(&mut self, value: u32)
        requires
            old(self)@.valid,
        ensures
            final(self)@ == (CtxView { gain: value, ..old(self)@ }),
    {
        self.gain = value;
    }

    pub fn listener_gain(&self) -> (r: u32)
        requires
            self@.valid,
        ensures
            r == self@.gain,
    {
        self.gain
    }

    pub fn set_listener_position(&mut self, value: V3)
        requires
            old(self)@.valid,
        ensures
            final(self)@ == (CtxView { position: value, ..old(self)@ }),
    {
        self.position = value;
    }

    pub fn listener_position(&self) -> (r: V3)
        requires
            self@.valid,
        ensures
            r == self@.position,
    {
        self.position
    }

    pub fn set_listener_velocity(&mut self, value: V3)
        requires
            old(self)@.valid,
        ensures
            final(self)@ == (CtxView { velocity: value, ..old(self)@ }),
    {
        self.velocity = value;
    }

    pub fn listener_velocity(&self) -> (r: V3)
        requires
            self@.valid,
        ensures
            r == self@.velocity,
    {
        self.velocity
    }

    pub fn set_listener_orientation(&mut self, at: V3, up: V3)
        requires
            old(self)@.valid,
        ensures
            final(self)@ == (CtxView { at: at, up: up, ..old(self)@ }),
    {
        self.at = at;
        self.up = up;
    }

    pub fn listener_orientation(&self) -> (r: (V3, V3))
        requires
            self@.valid,
        ensures
            r == (self@.at, self@.up),
    {
        (self.at, self.up)
    }

    /// Allocates a fresh effect object. Handles are consecutive from 1 and
    /// never reused.
    pub fn gen_effect(&mut self) -> (h: u32)
        requires
            old(self)@.valid,
            old(self)@.effects.len() < u32::MAX,
        ensures
            h == old(self)@.effects.len() + 1,
            final(self)@ == (CtxView {
                effects: old(self)@.effects.push(
                    EffectRecord { live: true, effect_type: EFFECT_NULL, params: zero_properties() },
                ),
                ..old(self)@
            }),
            final(self)@.effect_live(h),
    {
        let h = self.effects.len() + 1;
        self.effects.push(EffectRecord {
            live: true,
            effect_type: EFFECT_NULL,
            params: ReverbProperties {
                density: 0,
                diffusion: 0,
                gain: 0,
                gainhf: 0,
                decay_time: 0,
                decay_hfratio: 0,
                reflections_gain: 0,
                reflections_delay: 0,
                late_reverb_gain: 0,
                late_reverb_delay: 0,
                air_absorption_gainhf: 0,
                room_rolloff_factor: 0,
                decay_hflimit: 0,
            },
        });
        h as u32
    }

    /// Allocates a fresh auxiliary effect slot, initially holding no effect.
    pub fn gen_aux_slot(&mut self) -> (h: u32)
        requires
            old(self)@.valid,
            old(self)@.slots.len() < u32::MAX,
        ensures
            h == old(self)@.slots.len() + 1,
            final(self)@ == (CtxView {
                slots: old(self)@.slots.push(SlotRecord { live: true, effect: 0 }),
                ..old(self)@
            }),
            final(self)@.slot_live(h),
    {
        let h = self.slots.len() + 1;
        self.slots.push(SlotRecord { live: true, effect: 0 });
        h as u32
    }

    /// Allocates a fresh sample buffer, initially empty.
    pub fn gen_buffer(&mut self) -> (h: u32)
        requires
            old(self)@.valid,
            old(self)@.buffers.len() < u32::MAX,
        ensures
            h == old(self)@.buffers.len() + 1,
            final(self)@ == (CtxView {
                buffers: old(self)@.buffers.push(
                    BufView { live: true, samplerate: 0, format: None, samples: Seq::empty() },
                ),
                ..old(self)@
            }),
            final(self)@.buffer_live(h),
    {
        let h = self.buffers.len() + 1;
        self.buffers.push(BufferRecord {
            live: true,
            samplerate: 0,
            format: None,
            samples: Vec::new(),
        });
        proof {
            assert(bufs_view(self.buffers@) =~= bufs_view(old(self).buffers@).push(
                BufView { live: true, samplerate: 0, format: None, samples: Seq::empty() },
            ));
        }
        h as u32
    }

    /// Writes a float-valued parameter of an effect object; a dead handle
    /// sets the error flag instead.
    pub fn effectf(&mut self, effect: u32, param: EffectFParam, value: u32)
        requires
            old(self)@.valid,
        ensures
            final(self)@ == spec_effectf(old(self)@, effect, param, value),
    {
        if 1 <= effect && (effect as usize) <= self.effects.len()
            && self.effects[(effect - 1) as usize].live {
            let i = (effect - 1) as usize;
            let mut r = self.effects[i];
            match param {
                EffectFParam::Density => { r.params.density = value; }
                EffectFParam::Diffusion => { r.params.diffusion = value; }
                EffectFParam::Gain => { r.params.gain = value; }
                EffectFParam::Gainhf => { r.params.gainhf = value; }
                EffectFParam::DecayTime => { r.params.decay_time = value; }
                EffectFParam::DecayHfratio => { r.params.decay_hfratio = value; }
                EffectFParam::ReflectionsGain => { r.params.reflections_gain = value; }
                EffectFParam::ReflectionsDelay => { r.params.reflections_delay = value; }
                EffectFParam::LateReverbGain => { r.params.late_reverb_gain = value; }
                EffectFParam::LateReverbDelay => { r.params.late_reverb_delay = value; }
                EffectFParam::AirAbsorptionGainhf => { r.params.air_absorption_gainhf = value; }
                EffectFParam::RoomRolloffFactor => { r.params.room_rolloff_factor = value; }
            }
            let elem = &mut self.effects[i];
            *elem = r;
        } else {
            self.error = Some(AlError::InvalidName);
        }
    }

    /// Writes an integer-valued parameter of an effect object; a dead handle
    /// sets the error flag instead.
    pub fn effecti(&mut self, effect: u32, param: EffectIParam, value: i32)
        requires
            old(self)@.valid,
        ensures
            final(self)@ == spec_effecti(old(self)@, effect, param, value),
    {
        if 1 <= effect && (effect as usize) <= self.effects.len()
            && self.effects[(effect - 1) as usize].live {
            let i = (effect - 1) as usize;
            let mut r = self.effects[i];
            match param {
                EffectIParam::EffectType => { r.effect_type = value; }
                EffectIParam::DecayHflimit => { r.params.decay_hflimit = value; }
            }
            let elem = &mut self.effects[i];
            *elem = r;
        } else {
            self.error = Some(AlError::InvalidName);
        }
    }

    /// Loads effect `effect` into slot `slot`; `0` unloads. A dead slot
    /// handle sets `InvalidName`, a dead nonzero effect handle `InvalidValue`.
    pub fn aux_slot_set_effect(&mut self, slot: u32, effect: u32)
        requires
            old(self)@.valid,
        ensures
            final(self)@ == spec_slot_set_effect(old(self)@, slot, effect),
    {
        if !(1 <= slot && (slot as usize) <= self.slots.len()
            && self.slots[(slot - 1) as usize].live) {
            self.error = Some(AlError::InvalidName);
        } else if effect != 0
            && !(1 <= effect && (effect as usize) <= self.effects.len()
                && self.effects[(effect - 1) as usize].live) {
            self.error = Some(AlError::InvalidValue);
        } else {
            let i = (slot - 1) as usize;
            let elem = &mut self.slots[i];
            *elem = SlotRecord { live: true, effect: effect };
        }
    }

    /// Releases an effect object; a dead handle sets the error flag.
    pub fn delete_effect(&mut self, effect: u32)
        requires
            old(self)@.valid,
        ensures
            final(self)@ == spec_delete_effect(old(self)@, effect),
    {
        if 1 <= effect && (effect as usize) <= self.effects.len()
            && self.effects[(effect - 1) as usize].live {
            let i = (effect - 1) as usize;
            let mut r = self.effects[i];
            r.live = false;
            let elem = &mut self.effects[i];
            *elem = r;
        } else {
            self.error = Some(AlError::InvalidName);
        }
    }

    /// Releases an auxiliary effect slot; a dead handle sets the error flag.
    pub fn delete_aux_slot(&mut self, slot: u32)
        requires
            old(self)@.valid,
        ensures
            final(self)@ == spec_delete_slot(old(self)@, slot),
    {
        if 1 <= slot && (slot as usize) <= self.slots.len()
            && self.slots[(slot - 1) as usize].live {
            let i = (slot - 1) as usize;
            let mut r = self.slots[i];
            r.live = false;
            let elem = &mut self.slots[i];
            *elem = r;
        } else {
            self.error = Some(AlError::InvalidName);
        }
    }

    /// Uploads samples into a buffer: the one write a buffer ever sees.
    /// `size` is the byte length of the payload, as the native call takes it.
    pub fn buffer_data(&mut self, buffer: u32, format: BufferFormat, data: &Vec<i16>, size: i32, samplerate: i32)
        requires
            old(self)@.valid,
            size == 2 * data@.len(),
        ensures
            final(self)@ == spec_buffer_data(old(self)@, buffer, format, data@, samplerate),
    {
        if 1 <= buffer && (buffer as usize) <= self.buffers.len()
            && self.buffers[(buffer - 1) as usize].live {
            let i = (buffer - 1) as usize;
            let copied = clone_samples(data);
            let elem = &mut self.buffers[i];
            *elem = BufferRecord {
                live: true,
                samplerate: samplerate,
                format: Some(format),
                samples: copied,
            };
            proof {
                assert(bufs_view(self.buffers@) =~= spec_buffer_data(old(self)@, buffer, format, data@, samplerate).buffers);
            }
        } else {
            self.error = Some(AlError::InvalidName);
        }
    }

    /// Releases a sample buffer; a dead handle sets the error flag.
    pub fn delete_buffer(&mut self, buffer: u32)
        requires
            old(self)@.valid,
        ensures
            final(self)@ == spec_delete_buffer(old(self)@, buffer),
    {
        if 1 <= buffer && (buffer as usize) <= self.buffers.len()
            && self.buffers[(buffer - 1) as usize].live {
            let i = (buffer - 1) as usize;
            let elem = &mut self.buffers[i];
            elem.live = false;
            proof {
                assert(bufs_view(self.buffers@) =~= spec_delete_buffer(old(self)@, buffer).buffers);
            }
        } else {
            self.error = Some(AlError::InvalidName);
        }
    }

    pub fn effect_is_live(&self, h: u32) -> (r: bool)
        ensures
            r == self@.effect_live(h),
    {
        1 <= h && (h as usize) <= self.effects.len() && self.effects[(h - 1) as usize].live
    }

    pub fn slot_is_live(&self, h: u32) -> (r: bool)
        ensures
            r == self@.slot_live(h),
    {
        1 <= h && (h as usize) <= self.slots.len() && self.slots[(h - 1) as usize].live
    }

    pub fn buffer_is_live(&self, h: u32) -> (r: bool)
        ensures
            r == self@.buffer_live(h),
    {
        1 <= h && (h as usize) <= self.buffers.len() && self.buffers[(h - 1) as usize].live
    }

    /// The state of a live effect object, for inspection.
    pub fn effect_state(&self, h: u32) -> (r: Option<EffectRecord>)
        ensures
            r == (if self@.effect_live(h) {
                Some(self@.effects[h - 1])
            } else {
                None::<EffectRecord>
            }),
    {
        if self.effect_is_live(h) {
            Some(self.effects[(h - 1) as usize])
        } else {
            None
        }
    }

    /// The effect loaded into a live slot (`0` for none), for inspection.
    pub fn slot_binding(&self, h: u32) -> (r: Option<u32>)
        ensures
            r == (if self@.slot_live(h) {
                Some(self@.slots[h - 1].effect)
            } else {
                None::<u32>
            }),
    {
        if self.slot_is_live(h) {
            Some(self.slots[(h - 1) as usize].effect)
        } else {
            None
        }
    }

    /// How many buffer handles have ever been allocated.
    pub fn buffer_count(&self) -> (r: usize)
        ensures
            r == self@.buffers.len(),
    {
        self.buffers.len()
    }

    /// Sample rate, format and sample count of a live buffer, for inspection.
    pub fn buffer_state(&self, h: u32) -> (r: Option<(i32, Option<BufferFormat>, usize)>)
        ensures
            r == (if self@.buffer_live(h) {
                Some(
                    (
                        self@.buffers[h - 1].samplerate,
                        self@.buffers[h - 1].format,
                        self@.buffers[h - 1].samples.len() as usize,
                    ),
                )
            } else {
                None::<(i32, Option<BufferFormat>, usize)>
            }),
    {
        if self.buffer_is_live(h) {
            let b = &self.buffers[(h - 1) as usize];
            Some((b.samplerate, b.format, b.samples.len()))
        } else {
            None
        }
    }
}

/// Maps a channel count to the buffer format the subsystem accepts for it.
pub open spec fn spec_channels_format(channels: i32) -> Option<BufferFormat> {
    if channels == 1 {
        Some(BufferFormat::Mono16)
    } else if channels == 2 {
        Some(BufferFormat::Stereo16)
    } else {
        None
    }
}

pub fn get_channels_format(channels: i32) -> (r: Option<BufferFormat>)
    ensures
        r == spec_channels_format(channels),
{
    if channels == 1 {
        Some(BufferFormat::Mono16)
    } else if channels == 2 {
        Some(BufferFormat::Stereo16)
    } else {
        None
    }
}

pub open spec fn spec_effectf(c: CtxView, effect: u32, param: EffectFParam, value: u32) -> CtxView {
    if c.effect_live(effect) {
        CtxView {
            effects: c.effects.update(
                effect - 1,
                EffectRecord {
                    params: with_fparam(c.effects[effect - 1].params, param, value),
                    ..c.effects[effect - 1]
                },
            ),
            ..c
        }
    } else {
        c.with_error(AlError::InvalidName)
    }
}

pub open spec fn spec_effecti(c: CtxView, effect: u32, param: EffectIParam, value: i32) -> CtxView {
    if c.effect_live(effect) {
        CtxView {
            effects: c.effects.update(
                effect - 1,
                with_iparam(c.effects[effect - 1], param, value),
            ),
            ..c
        }
    } else {
        c.with_error(AlError::InvalidName)
    }
}

pub open spec fn spec_slot_set_effect(c: CtxView, slot: u32, effect: u32) -> CtxView {
    if !c.slot_live(slot) {
        c.with_error(AlError::InvalidName)
    } else if effect != 0 && !c.effect_live(effect) {
        c.with_error(AlError::InvalidValue)
    } else {
        CtxView {
            slots: c.slots.update(slot - 1, SlotRecord { live: true, effect: effect }),
            ..c
        }
    }
}

pub open spec fn spec_delete_effect(c: CtxView, effect: u32) -> CtxView {
    if c.effect_live(effect) {
        CtxView {
            effects: c.effects.update(
                effect - 1,
                EffectRecord { live: false, ..c.effects[effect - 1] },
            ),
            ..c
        }
    } else {
        c.with_error(AlError::InvalidName)
    }
}

pub open spec fn spec_delete_slot(c: CtxView, slot: u32) -> CtxView {
    if c.slot_live(slot) {
        CtxView {
            slots: c.slots.update(slot - 1, SlotRecord { live: false, ..c.slots[slot - 1] }),
            ..c
        }
    } else {
        c.with_error(AlError::InvalidName)
    }
}

pub open spec fn spec_buffer_data(c: CtxView, buffer: u32, format: BufferFormat, data: Seq<i16>, samplerate: i32) -> CtxView {
    if c.buffer_live(buffer) {
        CtxView {
            buffers: c.buffers.update(
                buffer - 1,
                BufView { live: true, samplerate: samplerate, format: Some(format), samples: data },
            ),
            ..c
        }
    } else {
        c.with_error(AlError::InvalidName)
    }
}

pub open spec fn spec_delete_buffer(c: CtxView, buffer: u32) -> CtxView {
    if c.buffer_live(buffer) {
        CtxView {
            buffers: c.buffers.update(
                buffer - 1,
                BufView { live: false, ..c.buffers[buffer - 1] },
            ),
            ..c
        }
    } else {
        c.with_error(AlError::InvalidName)
    }
}

fn clone_samples(data: &Vec<i16>) -> (r: Vec<i16>)
    ensures
        r@ == data@,
{
    let mut r: Vec<i16> = Vec::new();
    let mut i: usize = 0;
    while i < data.len()
        invariant
            i <= data@.len(),
            r@ == data@.subrange(0, i as int),
        decreases data@.len() - i,
    {
        r.push(data[i]);
        proof {
            assert(r@ =~= data@.subrange(0, i + 1 as int));
        }
        i = i + 1;
    }
    proof {
        assert(r@ =~= data@);
    }
    r
}

} // verus!
