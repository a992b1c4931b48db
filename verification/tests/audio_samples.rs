use vidplayer::{
    AudioFrame, ChannelLayout, Error, Rational, ResamplerInput, SampleFormat,
    check_audio_transform_input, copy_audio_data, copy_audio_data_from_frame,
    copy_audio_data_to_frame, estimate_output_samples, resampler_needs_init,
};

fn frame(data: Vec<u8>, samples: usize) -> AudioFrame {
    AudioFrame::new(
        data,
        samples,
        48000,
        ChannelLayout::Stereo,
        SampleFormat::S16,
        None,
        Rational::new(1, 48000),
    )
}

#[test]
fn copy_audio_data_interleaves_planes() {
    let planes = vec![vec![1, 2, 3, 4], vec![5, 6, 7, 8]];
    let out = copy_audio_data(&planes, true, SampleFormat::S16, 2, 2).unwrap();
    assert_eq!(out, vec![1, 2, 5, 6, 3, 4, 7, 8]);
}

#[test]
fn copy_audio_data_planes_too_short() {
    let planes = vec![vec![1, 2], vec![5, 6]];
    let r = copy_audio_data(&planes, true, SampleFormat::S16, 2, 2);
    assert!(matches!(r, Err(Error::InvalidData)));
}

#[test]
fn copy_audio_data_packed_takes_prefix() {
    let planes = vec![vec![1, 2, 3, 4, 5, 6, 7, 8, 9, 10]];
    let out = copy_audio_data(&planes, false, SampleFormat::U8, 4, 2).unwrap();
    assert_eq!(out, vec![1, 2, 3, 4, 5, 6, 7, 8]);
    let short = copy_audio_data(&planes, false, SampleFormat::S16, 4, 2);
    assert!(matches!(short, Err(Error::InvalidData)));
}

#[test]
fn copy_audio_data_planar_without_enough_planes_reads_first_plane() {
    let planes = vec![vec![1, 2, 3, 4]];
    let out = copy_audio_data(&planes, true, SampleFormat::U8, 2, 2).unwrap();
    assert_eq!(out, vec![1, 2, 3, 4]);
}

#[test]
fn copy_audio_data_to_frame_writes_prefix() {
    let src = frame(vec![1, 2, 3, 4, 5, 6, 7, 8], 2);
    let mut dst = vec![0u8; 10];
    assert!(copy_audio_data_to_frame(&mut dst, &src).is_ok());
    assert_eq!(dst, vec![1, 2, 3, 4, 5, 6, 7, 8, 0, 0]);
}

#[test]
fn copy_audio_data_to_frame_refuses_small_plane() {
    let src = frame(vec![1, 2, 3, 4, 5, 6, 7, 8], 2);
    let mut dst = vec![0u8; 4];
    let r = copy_audio_data_to_frame(&mut dst, &src);
    assert!(matches!(r, Err(Error::InvalidData)));
    assert_eq!(dst, vec![0, 0, 0, 0]);
}

#[test]
fn copy_audio_data_from_frame_takes_prefix() {
    let plane = vec![9, 8, 7, 6, 5, 4, 3, 2, 1];
    let out = copy_audio_data_from_frame(&plane, 2, SampleFormat::S16, ChannelLayout::Stereo);
    assert_eq!(out, vec![9, 8, 7, 6, 5, 4, 3, 2]);
}

#[test]
fn estimate_output_samples_formula() {
    assert_eq!(estimate_output_samples(1024, 48000, 48000), 1024);
    assert_eq!(estimate_output_samples(1024, 44100, 48000), 1114 + 64);
    assert_eq!(estimate_output_samples(1000, 48000, 24000), 500 + 64);
}

#[test]
fn check_audio_transform_input_errors() {
    assert!(check_audio_transform_input(&frame(vec![1, 2, 3, 4], 1)).is_ok());
    assert!(matches!(check_audio_transform_input(&frame(vec![1, 2, 3, 4], 0)), Err(Error::InvalidData)));
    assert!(matches!(check_audio_transform_input(&frame(vec![], 1)), Err(Error::InvalidData)));
}

#[test]
fn resampler_rebuilt_on_change() {
    let f = frame(vec![0; 4], 1);
    assert!(resampler_needs_init(None, &f));
    let same = ResamplerInput {
        sample_rate: 48000,
        channels: ChannelLayout::Stereo,
        format: SampleFormat::S16,
    };
    assert!(!resampler_needs_init(Some(same), &f));
    let other = ResamplerInput { sample_rate: 44100, ..same };
    assert!(resampler_needs_init(Some(other), &f));
    let other_format = ResamplerInput { format: SampleFormat::F32, ..same };
    assert!(resampler_needs_init(Some(other_format), &f));
}

#[test]
fn interleave_places_each_byte() {
    let planes = vec![vec![10, 11, 12, 13], vec![20, 21, 22, 23], vec![30, 31, 32, 33]];
    let out = copy_audio_data(&planes, true, SampleFormat::S16, 2, 3).unwrap();
    assert_eq!(out.len(), 2 * 3 * 2);
    for s in 0..2 {
        for ch in 0..3 {
            for j in 0..2 {
                assert_eq!(out[(s * 3 + ch) * 2 + j], planes[ch][s * 2 + j]);
            }
        }
    }
}
