use ears::context::{AlError, AudioContext, BufferFormat};
use ears::sound_data::{get_buffer, get_sndinfo, DecodedFile, SndInfo, SoundData, SoundError, Tags};

fn info(channels: i32, frames: i64, samplerate: i32) -> SndInfo {
    SndInfo { frames, samplerate, channels, format: 0x010002, sections: 1, seekable: 1 }
}

fn tags(title: &str, artist: &str) -> Tags {
    Tags {
        title: title.to_string(),
        copyright: String::new(),
        software: String::new(),
        artist: artist.to_string(),
        comment: String::new(),
        date: String::new(),
        album: String::new(),
        license: String::new(),
        track_number: String::new(),
        genre: String::new(),
    }
}

fn mono_file() -> DecodedFile {
    DecodedFile {
        info: info(1, 4, 44100),
        samples: vec![10, -20, 30, -40],
        tags: tags("shot", "someone"),
    }
}

#[test]
#[allow(non_snake_case)]
fn sounddata_create_OK() {
    let mut ctx = AudioContext::new();
    let snd_data = SoundData::new(&mut ctx, &mono_file()).unwrap();
    assert_eq!(snd_data.sample_count(), 4);
    let i = get_sndinfo(&snd_data);
    assert_eq!(i.channels, 1);
    assert_eq!(i.frames, 4);
    assert_eq!(i.samplerate, 44100);
    let buffer = get_buffer(&snd_data);
    assert!(ctx.buffer_is_live(buffer));
    assert_eq!(
        ctx.buffer_state(buffer),
        Some((44100, Some(BufferFormat::Mono16), 4))
    );
    assert_eq!(ctx.error_flag(), None);
}

#[test]
fn sounddata_create_stereo_counts_both_channels() {
    let mut ctx = AudioContext::new();
    let file = DecodedFile {
        info: info(2, 3, 48000),
        samples: vec![1, 2, 3, 4, 5, 6],
        tags: tags("", ""),
    };
    let snd_data = SoundData::new(&mut ctx, &file).unwrap();
    assert_eq!(snd_data.sample_count(), 6);
    assert_eq!(
        ctx.buffer_state(get_buffer(&snd_data)),
        Some((48000, Some(BufferFormat::Stereo16), 6))
    );
}

#[test]
fn sounddata_unsupported_channel_count_fails_before_upload() {
    let mut ctx = AudioContext::new();
    let file = DecodedFile {
        info: info(3, 2, 44100),
        samples: vec![0; 6],
        tags: tags("", ""),
    };
    let r = SoundData::new(&mut ctx, &file);
    assert_eq!(r.err(), Some(SoundError::InvalidFormat));
    // No buffer was allocated, let alone written.
    assert_eq!(ctx.buffer_count(), 0);
}

#[test]
fn sounddata_without_context_fails() {
    let mut ctx = AudioContext::absent();
    let r = SoundData::new(&mut ctx, &mono_file());
    assert_eq!(r.err(), Some(SoundError::InvalidOpenALContext));
}

#[test]
fn sounddata_surfaces_pending_internal_error() {
    let mut ctx = AudioContext::new();
    ctx.raise_error(AlError::OutOfMemory);
    let r = SoundData::new(&mut ctx, &mono_file());
    assert_eq!(
        r.err(),
        Some(SoundError::InternalOpenALError(AlError::OutOfMemory))
    );
    // The buffer allocated before the aggregate check leaked, unlinked.
    assert_eq!(ctx.buffer_count(), 1);
}

#[test]
fn sounddata_tags_are_kept() {
    let mut ctx = AudioContext::new();
    let snd_data = SoundData::new(&mut ctx, &mono_file()).unwrap();
    let t = snd_data.get_tags();
    assert_eq!(t.title, "shot");
    assert_eq!(t.artist, "someone");
}

#[test]
fn sounddata_release_frees_the_buffer() {
    let mut ctx = AudioContext::new();
    let snd_data = SoundData::new(&mut ctx, &mono_file()).unwrap();
    let buffer = get_buffer(&snd_data);
    snd_data.release(&mut ctx);
    assert!(!ctx.buffer_is_live(buffer));
}

#[test]
fn sounddata_empty_file_has_zero_samples() {
    let mut ctx = AudioContext::new();
    let file = DecodedFile { info: info(1, 0, 22050), samples: vec![], tags: tags("", "") };
    let snd_data = SoundData::new(&mut ctx, &file).unwrap();
    assert_eq!(snd_data.sample_count(), 0);
}
