use vidplayer::{
    LibChannelLayout, channel_layout_from_ffmpeg, channel_layout_to_ffmpeg, encoder_channel_layout,
    ffmpeg_channel_layout_to_ours,
};
use vidplayer::{
    AudioStreamInfo, Rational, VideoStreamInfo, audio_mux_params, probed_audio_codec,
    probed_video_codec, video_mux_params,
};
use vidplayer::{
    AudioError, AudioTransformConfig, ChannelLayout, CodecId, Error, LibCodecId, LibPixelFormat,
    LibSampleFormat, LibSampleLayout, PixelFormat, SampleFormat, ScalingAlgorithm,
    VideoTransformConfig, after_resampler_flush, codec_id_from_ffmpeg, decoded_pixel_format,
    encoder_pixel_format, ffmpeg_pixel_format_to_ours, ffmpeg_sample_format_to_ours,
    pixel_format_from_ffmpeg, pixel_format_to_ffmpeg, poll_new_videos, sample_format_from_ffmpeg,
    sample_format_to_ffmpeg,
};

const ALL_PIXEL_FORMATS: [PixelFormat; 10] = [
    PixelFormat::Yuv420p,
    PixelFormat::Nv12,
    PixelFormat::Bgra,
    PixelFormat::Rgba,
    PixelFormat::Rgb24,
    PixelFormat::Bgr24,
    PixelFormat::Yuv422p,
    PixelFormat::Yuv444p,
    PixelFormat::Yuv420p10,
    PixelFormat::P010le,
];

#[test]
fn pixel_formats_round_trip_through_library_names() {
    for f in ALL_PIXEL_FORMATS {
        assert_eq!(decoded_pixel_format(pixel_format_to_ffmpeg(f)), Some(f));
    }
    assert_eq!(pixel_format_to_ffmpeg(PixelFormat::Yuv420p10), LibPixelFormat::Yuv420p10le);
}

#[test]
fn pixel_format_stage_differences() {
    assert_eq!(pixel_format_from_ffmpeg(LibPixelFormat::P010le), None);
    assert_eq!(decoded_pixel_format(LibPixelFormat::P010be), Some(PixelFormat::P010le));
    assert_eq!(pixel_format_from_ffmpeg(LibPixelFormat::Yuv420p10be), Some(PixelFormat::Yuv420p10));
    assert_eq!(pixel_format_from_ffmpeg(LibPixelFormat::Other), None);
    assert_eq!(encoder_pixel_format(PixelFormat::P010le), Err(Error::UnsupportedFormat));
    assert_eq!(encoder_pixel_format(PixelFormat::Nv12), Ok(LibPixelFormat::Nv12));
    assert_eq!(ffmpeg_pixel_format_to_ours(LibPixelFormat::Other), PixelFormat::Yuv420p);
    assert_eq!(ffmpeg_pixel_format_to_ours(LibPixelFormat::P010le), PixelFormat::Yuv420p);
    assert_eq!(ffmpeg_pixel_format_to_ours(LibPixelFormat::Bgra), PixelFormat::Bgra);
}

#[test]
fn sample_format_names() {
    assert_eq!(sample_format_to_ffmpeg(SampleFormat::S16), LibSampleFormat::I16(LibSampleLayout::Packed));
    assert_eq!(sample_format_to_ffmpeg(SampleFormat::F64), LibSampleFormat::F64(LibSampleLayout::Packed));
    assert_eq!(
        sample_format_from_ffmpeg(LibSampleFormat::F32(LibSampleLayout::Planar)),
        Some(SampleFormat::F32)
    );
    assert_eq!(sample_format_from_ffmpeg(LibSampleFormat::I32(LibSampleLayout::Packed)), Some(SampleFormat::S32));
    assert_eq!(sample_format_from_ffmpeg(LibSampleFormat::Other), None);
    assert_eq!(ffmpeg_sample_format_to_ours(LibSampleFormat::Other), SampleFormat::F32);
    assert_eq!(ffmpeg_sample_format_to_ours(LibSampleFormat::U8(LibSampleLayout::Planar)), SampleFormat::U8);
    for f in [SampleFormat::U8, SampleFormat::S16, SampleFormat::S32, SampleFormat::F32, SampleFormat::F64] {
        assert_eq!(sample_format_from_ffmpeg(sample_format_to_ffmpeg(f)), Some(f));
    }
}

#[test]
fn codec_ids_from_library() {
    assert_eq!(codec_id_from_ffmpeg(LibCodecId::Hevc), Some(CodecId::H265));
    assert_eq!(codec_id_from_ffmpeg(LibCodecId::PcmF32le), Some(CodecId::PcmF32Le));
    assert_eq!(codec_id_from_ffmpeg(LibCodecId::Ac3), Some(CodecId::Ac3));
    assert_eq!(codec_id_from_ffmpeg(LibCodecId::Other), None);
}

#[test]
fn transform_configs() {
    assert_eq!(ScalingAlgorithm::default(), ScalingAlgorithm::Bilinear);
    let v = VideoTransformConfig::to_bgra(640, 360);
    assert_eq!((v.width, v.height, v.format, v.algorithm), (640, 360, PixelFormat::Bgra, ScalingAlgorithm::Bilinear));
    let v = VideoTransformConfig::to_rgba(1, 2).with_algorithm(ScalingAlgorithm::Lanczos);
    assert_eq!((v.format, v.algorithm), (PixelFormat::Rgba, ScalingAlgorithm::Lanczos));
    let a = AudioTransformConfig::playback();
    assert_eq!((a.sample_rate, a.channels, a.format), (48000, ChannelLayout::Stereo, SampleFormat::F32));
    let c = AudioTransformConfig::cd_quality();
    assert_eq!((c.sample_rate, c.channels, c.format), (44100, ChannelLayout::Stereo, SampleFormat::S16));
    let n = AudioTransformConfig::new(22050, ChannelLayout::Mono, SampleFormat::U8);
    assert_eq!(n.sample_rate, 22050);
}

#[test]
fn resampler_flush_outcomes() {
    assert_eq!(after_resampler_flush(0, false, 0), Ok(None));
    assert_eq!(after_resampler_flush(10, false, 0), Ok(None));
    assert_eq!(after_resampler_flush(10, true, 0), Ok(None));
    assert_eq!(after_resampler_flush(10, true, 5), Err(Error::Codec));
    assert_eq!(after_resampler_flush(10, false, 5), Ok(Some(5)));
}

#[test]
fn audio_error_messages() {
    assert_eq!(AudioError::NoDevice.message(), "No audio output device found");
    assert_eq!(AudioError::DeviceError("busy".to_string()).message(), "Audio device error: busy");
    assert_eq!(AudioError::StreamError("x".to_string()).message(), "Audio stream error: x");
}

#[test]
fn polling_for_new_videos() {
    let s = poll_new_videos(3, 1, 4);
    assert!(s.refill);
    assert_eq!(s.last_count, 3);
    assert!(!s.stop);
    let s = poll_new_videos(4, 4, 4);
    assert!(!s.refill);
    assert_eq!(s.last_count, 4);
    assert!(s.stop);
    assert!(!poll_new_videos(5, 5, 0).stop);
}

#[test]
fn probed_codecs_fall_back() {
    assert_eq!(probed_video_codec(LibCodecId::Other), CodecId::H264);
    assert_eq!(probed_video_codec(LibCodecId::Vp8), CodecId::Vp8);
    assert_eq!(probed_audio_codec(LibCodecId::Other), CodecId::Aac);
    assert_eq!(probed_audio_codec(LibCodecId::Flac), CodecId::Flac);
}

#[test]
fn mux_parameters() {
    let video = VideoStreamInfo {
        width: 1280,
        height: 720,
        pixel_format: PixelFormat::Yuv422p,
        frame_rate: None,
        time_base: Rational::new(1, 90000),
        duration: None,
        codec_id: CodecId::H265,
        extradata: Some(vec![1, 2, 3]),
        bitrate: Some(4_000_000),
        profile: Some(1),
        level: None,
    };
    let p = video_mux_params(&video).unwrap();
    assert_eq!(p.codec, LibCodecId::Hevc);
    assert_eq!((p.width, p.height), (1280, 720));
    assert_eq!(p.format, LibPixelFormat::Yuv420p);
    assert_eq!(p.extradata, Some(vec![1, 2, 3]));
    assert_eq!(p.bitrate, Some(4_000_000));
    assert_eq!(p.profile, Some(1));
    let nv12 = VideoStreamInfo { pixel_format: PixelFormat::Nv12, extradata: Some(vec![]), ..video.clone() };
    let q = video_mux_params(&nv12).unwrap();
    assert_eq!(q.format, LibPixelFormat::Nv12);
    assert_eq!(q.extradata, None);
    let vp8 = VideoStreamInfo { codec_id: CodecId::Vp8, ..video };
    assert!(matches!(video_mux_params(&vp8), Err(Error::UnsupportedFormat)));

    let audio = AudioStreamInfo {
        sample_rate: 48000,
        channels: ChannelLayout::Surround5_1,
        sample_format: SampleFormat::S16,
        time_base: Rational::new(1, 48000),
        duration: None,
        codec_id: CodecId::Opus,
        extradata: None,
        bitrate: None,
        profile: Some(2),
    };
    let a = audio_mux_params(&audio).unwrap();
    assert_eq!(a.codec, LibCodecId::Opus);
    assert_eq!(a.channels, 6);
    assert_eq!(a.format, LibSampleFormat::I16(LibSampleLayout::Packed));
    assert_eq!(a.extradata, None);
    assert_eq!(a.profile, Some(2));
    let flac = AudioStreamInfo { codec_id: CodecId::Flac, ..audio };
    assert!(matches!(audio_mux_params(&flac), Err(Error::UnsupportedFormat)));
}

#[test]
fn channel_layout_names() {
    assert_eq!(channel_layout_to_ffmpeg(ChannelLayout::Surround7_1), LibChannelLayout::Surround7_1);
    assert_eq!(channel_layout_to_ffmpeg(ChannelLayout::Mono), LibChannelLayout::Mono);
    assert_eq!(encoder_channel_layout(ChannelLayout::Surround5_1), LibChannelLayout::Stereo);
    assert_eq!(encoder_channel_layout(ChannelLayout::Mono), LibChannelLayout::Mono);
    assert_eq!(ffmpeg_channel_layout_to_ours(LibChannelLayout::Surround7_1), ChannelLayout::Stereo);
    assert_eq!(ffmpeg_channel_layout_to_ours(LibChannelLayout::Mono), ChannelLayout::Mono);
    assert_eq!(channel_layout_from_ffmpeg(LibChannelLayout::Stereo), Some(ChannelLayout::Stereo));
    assert_eq!(channel_layout_from_ffmpeg(LibChannelLayout::Surround5_1), None);
}
