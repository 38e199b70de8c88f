//! The samples extracted from a sound file, uploaded once into an external
//! buffer and shared read-only thereafter.
//!
//! Decoding itself belongs to an external sound-file collaborator; this
//! module takes the decoded form — metadata, the full block of 16-bit
//! samples, and the tag metadata — computes the total sample count, maps
//! the channel count to a buffer format, uploads, and checks the error flag
//! once.

use vstd::prelude::*;

use crate::context::{
    get_channels_format, spec_channels_format, spec_delete_buffer, AlError, AudioContext, BufView,
    CtxView,
};

verus! {

/// All possible errors when building a `SoundData`.
#[derive(Clone, PartialEq, Eq, Debug)]
pub enum SoundError {
    /// No valid audio context exists.
    InvalidOpenALContext,
    /// The sound-file decoder failed to open or read the file; carries its
    /// diagnostic.
    LoadError(String),
    /// The channel count maps to no supported buffer format.
    InvalidFormat,
    /// The audio subsystem's error flag was set when checked.
    InternalOpenALError(AlError),
}

/// The sample information of a decoded sound file, as the decoder reports
/// it.
#[derive(Clone, Copy, PartialEq, Eq, Structural, Debug)]
pub struct SndInfo {
    pub frames: i64,
    pub samplerate: i32,
    pub channels: i32,
    pub format: i32,
    pub sections: i32,
    pub seekable: i32,
}

/// Tag metadata extracted from a sound file's embedded comments.
#[derive(Clone, PartialEq, Eq, Debug)]
pub struct Tags {
    pub title: String,
    pub copyright: String,
    pub software: String,
    pub artist: String,
    pub comment: String,
    pub date: String,
    pub album: String,
    pub license: String,
    pub track_number: String,
    pub genre: String,
}

/// A sound file decoded eagerly and fully into memory: sample information,
/// every 16-bit sample, and the tag metadata.
pub struct DecodedFile {
    pub info: SndInfo,
    pub samples: Vec<i16>,
    pub tags: Tags,
}

impl DecodedFile {
    /// A faithful decode: non-negative counts, exactly channels × frames
    /// samples read, and a payload whose byte length the upload call can
    /// carry.
    pub open spec fn wf(self) -> bool {
        &&& 0 <= self.info.channels
        &&& 0 <= self.info.frames
        &&& self.samples@.len() == self.info.channels * self.info.frames
        &&& 2 * self.samples@.len() <= i32::MAX
    }
}

/// Samples extracted from a file, held in one externally allocated buffer.
///
/// The buffer is populated exactly once, at construction, and never mutated
/// afterwards, so it can back several simultaneous playback instances.
pub struct SoundData {
    /// The tags that contain all the information of the sound
    sound_tags: Tags,
    /// The decoder's sample information
    snd_info: SndInfo,
    /// The total sample count of the sound
    nb_sample: i64,
    /// The subsystem's identifier for the buffer
    al_buffer: u32,
}

impl SoundData {
    pub closed spec fn spec_tags(self) -> Tags {
        self.sound_tags
    }

    pub closed spec fn spec_info(self) -> SndInfo {
        self.snd_info
    }

    pub closed spec fn spec_nb_sample(self) -> i64 {
        self.nb_sample
    }

    pub closed spec fn spec_buffer(self) -> u32 {
        self.al_buffer
    }

    /// Builds a `SoundData` from a decoded file: verifies the context,
    /// computes the total sample count as channels × frames, maps the
    /// channel count to a buffer format (failing with `InvalidFormat`
    /// before any buffer is allocated), allocates one buffer, uploads the
    /// raw sample bytes with the given sample rate, and checks the error
    /// flag once. On an internal error the allocated buffer is left
    /// unlinked.
    pub fn new(ctx: &mut AudioContext, file: &DecodedFile) -> (r: Result<SoundData, SoundError>)
        requires
            file.wf(),
            old(ctx)@.valid ==> old(ctx)@.buffers.len() < u32::MAX,
        ensures
            !old(ctx)@.valid ==> final(ctx)@ == old(ctx)@
                && r == Err::<SoundData, SoundError>(SoundError::InvalidOpenALContext),
            old(ctx)@.valid && spec_channels_format(file.info.channels) is None ==> final(ctx)@
                == old(ctx)@ && r == Err::<SoundData, SoundError>(SoundError::InvalidFormat),
            old(ctx)@.valid ==> (spec_channels_format(file.info.channels) matches Some(fmt)
                ==> final(ctx)@ == (CtxView {
                buffers: old(ctx)@.buffers.push(
                    BufView {
                        live: true,
                        samplerate: file.info.samplerate,
                        format: Some(fmt),
                        samples: file.samples@,
                    },
                ),
                error: None,
                ..old(ctx)@
            })),
            old(ctx)@.valid && spec_channels_format(file.info.channels) is Some ==> (old(
                ctx,
            )@.error matches Some(e) ==> r == Err::<SoundData, SoundError>(
                SoundError::InternalOpenALError(e),
            )),
            old(ctx)@.valid && spec_channels_format(file.info.channels) is Some && old(
                ctx,
            )@.error is None ==> (r matches Ok(sd) && sd.spec_info() == file.info
                && sd.spec_tags() == file.tags
                && sd.spec_nb_sample() == file.info.channels * file.info.frames
                && sd.spec_buffer() == old(ctx)@.buffers.len() + 1
                && final(ctx)@.buffer_live(sd.spec_buffer())),
            old(ctx)@.valid && spec_channels_format(file.info.channels) is Some && old(
                ctx,
            )@.error is None && file.info.frames > 0 ==> (r matches Ok(sd)
                && sd.spec_nb_sample() > 0),
    {
        if !ctx.is_valid() {
            return Err(SoundError::InvalidOpenALContext);
        }

        let infos = file.info;

        proof {
            assert(infos.channels * infos.frames == file.samples@.len());
        }
        let nb_sample: i64 = (infos.channels as i64) * infos.frames;

        // Retrieve format information; unsupported channel counts fail
        // before any buffer is allocated.
        let format = match get_channels_format(infos.channels) {
            Some(fmt) => fmt,
            None => {
                return Err(SoundError::InvalidFormat);
            },
        };

        let len: usize = 2 * file.samples.len();

        let buffer_id = ctx.gen_buffer();
        ctx.buffer_data(buffer_id, format, &file.samples, len as i32, infos.samplerate);

        proof {
            assert(ctx@.buffers =~= (CtxView {
                buffers: old(ctx)@.buffers.push(
                    BufView {
                        live: true,
                        samplerate: infos.samplerate,
                        format: Some(format),
                        samples: file.samples@,
                    },
                ),
                error: None,
                ..old(ctx)@
            }).buffers);
        }

        if let Some(err) = ctx.openal_has_error() {
            return Err(SoundError::InternalOpenALError(err));
        }

        let sound_data = SoundData {
            sound_tags: clone_tags(&file.tags),
            snd_info: infos,
            nb_sample: nb_sample,
            al_buffer: buffer_id,
        };

        proof {
            if file.info.frames > 0 {
                assert(nb_sample > 0) by (nonlinear_arith)
                    requires
                        nb_sample == infos.channels as int * infos.frames as int,
                        infos.channels >= 1,
                        infos.frames > 0,
                ;
            }
        }

        Ok(sound_data)
    }

    /// The total sample count, channels × frames.
    pub fn sample_count(&self) -> (r: i64)
        ensures
            r == self.spec_nb_sample(),
    {
        self.nb_sample
    }

    /// The tags of the sound.
    pub fn get_tags(&self) -> (r: Tags)
        ensures
            r == self.spec_tags(),
    {
        clone_tags(&self.sound_tags)
    }

    /// Releases the external buffer. Release is unconditional under a valid
    /// context; teardown never raises.
    pub fn release(self, ctx: &mut AudioContext)
        ensures
            !old(ctx)@.valid ==> final(ctx)@ == old(ctx)@,
            old(ctx)@.valid ==> final(ctx)@ == spec_delete_buffer(old(ctx)@, self.spec_buffer()),
    {
        if ctx.is_valid() {
            ctx.delete_buffer(self.al_buffer);
        }
    }
}

/// Gets the sound file information.
pub fn get_sndinfo<'r>(s_data: &'r SoundData) -> (r: &'r SndInfo)
    ensures
        *r == s_data.spec_info(),
{
    &s_data.snd_info
}

/// Gets the subsystem's identifier for the samples buffer of the sound.
pub fn get_buffer(s_data: &SoundData) -> (r: u32)
    ensures
        r == s_data.spec_buffer(),
{
    s_data.al_buffer
}

fn clone_tags(t: &Tags) -> (r: Tags)
    ensures
        r == *t,
{
    Tags {
        title: t.title.clone(),
        copyright: t.copyright.clone(),
        software: t.software.clone(),
        artist: t.artist.clone(),
        comment: t.comment.clone(),
        date: t.date.clone(),
        album: t.album.clone(),
        license: t.license.clone(),
        track_number: t.track_number.clone(),
        genre: t.genre.clone(),
    }
}

} // verus!
