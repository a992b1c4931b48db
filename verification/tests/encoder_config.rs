use vidplayer::{
    AudioEncoderConfig, ChannelLayout, CodecId, EncoderPreset, Error, HwEncoder, PixelFormat, Pts,
    RateControl, RateSettings, Rational, SampleFormat, VideoEncoderConfig,
    LibCodecId, audio_encoder_time_base, audio_frame_size, check_frame_dimensions,
    codec_id_to_ffmpeg_audio, codec_id_to_ffmpeg_video, next_frame_pts, rate_control_settings,
};

#[test]
fn preset_names() {
    assert_eq!(EncoderPreset::Ultrafast.as_str(), "ultrafast");
    assert_eq!(EncoderPreset::Superfast.as_str(), "superfast");
    assert_eq!(EncoderPreset::Veryfast.as_str(), "veryfast");
    assert_eq!(EncoderPreset::Faster.as_str(), "faster");
    assert_eq!(EncoderPreset::Fast.as_str(), "fast");
    assert_eq!(EncoderPreset::Medium.as_str(), "medium");
    assert_eq!(EncoderPreset::Slow.as_str(), "slow");
    assert_eq!(EncoderPreset::Slower.as_str(), "slower");
    assert_eq!(EncoderPreset::Veryslow.as_str(), "veryslow");
    assert_eq!(EncoderPreset::default(), EncoderPreset::Medium);
    assert_eq!(RateControl::default(), RateControl::Crf(23));
}

#[test]
fn video_config_defaults() {
    let c = VideoEncoderConfig::h264(1280, 720, Rational::new(30, 1));
    assert_eq!(c.codec, CodecId::H264);
    assert_eq!(c.width, 1280);
    assert_eq!(c.height, 720);
    assert_eq!(c.pixel_format, PixelFormat::Yuv420p);
    assert_eq!(c.rate_control, RateControl::Crf(23));
    assert_eq!(c.preset, EncoderPreset::Medium);
    assert_eq!(c.keyframe_interval, None);
    assert!(!c.prefer_hw);
    assert_eq!(c.hw_encoder, None);
    assert_eq!(VideoEncoderConfig::h265(1, 1, Rational::new(25, 1)).codec, CodecId::H265);
}

#[test]
fn video_config_builders() {
    let c = VideoEncoderConfig::new(CodecId::Vp9, 640, 480, Rational::new(25, 1))
        .with_crf(60)
        .with_preset(EncoderPreset::Slow)
        .with_keyframe_interval(50)
        .with_pixel_format(PixelFormat::Nv12)
        .with_hw_encoder(HwEncoder::Vaapi);
    assert_eq!(c.rate_control, RateControl::Crf(51));
    assert_eq!(c.preset, EncoderPreset::Slow);
    assert_eq!(c.keyframe_interval, Some(50));
    assert_eq!(c.pixel_format, PixelFormat::Nv12);
    assert!(c.prefer_hw);
    assert_eq!(c.hw_encoder, Some(HwEncoder::Vaapi));
    assert_eq!(c.with_crf(18).rate_control, RateControl::Crf(18));
    assert_eq!(c.with_bitrate(2_000_000).rate_control, RateControl::Cbr(2_000_000));
    assert_eq!(
        c.with_rate_control(RateControl::Vbr(5)).rate_control,
        RateControl::Vbr(5)
    );
    let hw = VideoEncoderConfig::h264(2, 2, Rational::new(1, 1)).with_hw_accel();
    assert!(hw.prefer_hw);
    assert_eq!(hw.hw_encoder, None);
}

#[test]
fn audio_config_builders() {
    let c = AudioEncoderConfig::aac(48000, ChannelLayout::Stereo);
    assert_eq!(c.codec, CodecId::Aac);
    assert_eq!(c.sample_format, SampleFormat::F32);
    assert_eq!(c.bitrate, None);
    let c = c.with_bitrate(128_000).with_sample_format(SampleFormat::S16);
    assert_eq!(c.bitrate, Some(128_000));
    assert_eq!(c.sample_format, SampleFormat::S16);
    let o = AudioEncoderConfig::opus(24000, ChannelLayout::Mono);
    assert_eq!(o.codec, CodecId::Opus);
    assert_eq!(o.sample_rate, 24000);
    assert_eq!(o.channels, ChannelLayout::Mono);
}

#[test]
fn rate_control_settings_per_mode() {
    assert_eq!(
        rate_control_settings(RateControl::Crf(20)),
        RateSettings { crf: Some(20), bit_rate: None, max_bit_rate: None, constant_bitrate: false }
    );
    assert_eq!(
        rate_control_settings(RateControl::Cbr(1000)),
        RateSettings {
            crf: None,
            bit_rate: Some(1000),
            max_bit_rate: Some(1000),
            constant_bitrate: true
        }
    );
    assert_eq!(
        rate_control_settings(RateControl::Vbr(7)),
        RateSettings { crf: None, bit_rate: Some(7), max_bit_rate: None, constant_bitrate: false }
    );
}

#[test]
fn encoder_codec_checks() {
    assert_eq!(codec_id_to_ffmpeg_video(CodecId::H264), Ok(LibCodecId::H264));
    assert_eq!(codec_id_to_ffmpeg_video(CodecId::H265), Ok(LibCodecId::Hevc));
    assert_eq!(codec_id_to_ffmpeg_video(CodecId::Vp9), Ok(LibCodecId::Vp9));
    assert_eq!(codec_id_to_ffmpeg_video(CodecId::Av1), Ok(LibCodecId::Av1));
    assert_eq!(codec_id_to_ffmpeg_video(CodecId::Vp8), Err(Error::UnsupportedFormat));
    assert_eq!(codec_id_to_ffmpeg_video(CodecId::Aac), Err(Error::UnsupportedFormat));
    assert_eq!(codec_id_to_ffmpeg_audio(CodecId::Aac), Ok(LibCodecId::Aac));
    assert_eq!(codec_id_to_ffmpeg_audio(CodecId::Opus), Ok(LibCodecId::Opus));
    assert_eq!(codec_id_to_ffmpeg_audio(CodecId::Mp3), Ok(LibCodecId::Mp3));
    assert_eq!(codec_id_to_ffmpeg_audio(CodecId::Flac), Err(Error::UnsupportedFormat));
    assert_eq!(codec_id_to_ffmpeg_audio(CodecId::H264), Err(Error::UnsupportedFormat));
}

#[test]
fn encoder_frame_bookkeeping() {
    assert_eq!(audio_encoder_time_base(44100), Rational::new(1, 44100));
    assert_eq!(check_frame_dimensions(4, 4, 4, 4), Ok(()));
    assert_eq!(check_frame_dimensions(4, 3, 4, 4), Err(Error::InvalidData));
    assert_eq!(next_frame_pts(Some(Pts(100)), 7), (100, 8));
    assert_eq!(next_frame_pts(None, 7), (7, 8));
    assert_eq!(audio_frame_size(0), None);
    assert_eq!(audio_frame_size(1024), Some(1024));
}
