use vidplayer::{
    ChannelLayout, CodecStatus, DecodedVideoFrame, DurationSource, Error, FlushAction, FrameShape,
    MediaDuration, PixelFormat, Pts, Rational, ReceiveAction, RetryAction, SampleFormat,
    ScalerAction, ScalerInput, SendAction, after_flush_signal, after_receive, after_retry,
    after_send, channel_layout_from_count, check_decoded_audio, check_decoded_video,
    check_video_transform_input, choose_frame_rate, duration_from_raw, media_duration_source,
    pts_from_raw, reported_bitrate, reported_code, scaler_action, scaler_needs_init,
};

fn shape(format: i32, width: u32, height: u32) -> FrameShape {
    FrameShape { format, width, height }
}

#[test]
fn scaler_action_decisions() {
    let f = shape(0, 640, 360);
    assert_eq!(scaler_action(None, f, true, None, None, true), ScalerAction::Rebuild { width: 640, height: 360 });
    assert_eq!(scaler_action(Some(f), f, true, None, None, true), ScalerAction::Reuse);
    assert_eq!(
        scaler_action(Some(shape(0, 320, 180)), f, true, Some(100), Some(50), true),
        ScalerAction::Rebuild { width: 100, height: 50 }
    );
    assert_eq!(scaler_action(None, shape(0, 0, 360), true, None, None, true), ScalerAction::Skip);
    assert_eq!(scaler_action(None, f, false, None, None, true), ScalerAction::Skip);
    assert_eq!(scaler_action(None, f, true, Some(0), None, true), ScalerAction::Skip);
    assert_eq!(
        scaler_action(None, f, false, Some(0), None, false),
        ScalerAction::Rebuild { width: 0, height: 360 }
    );
}

#[test]
fn video_transform_checks() {
    let ok = DecodedVideoFrame::new(vec![0; 6], 2, 2, PixelFormat::Yuv420p, None, Rational::new(1, 25));
    assert_eq!(check_video_transform_input(&ok), Ok(()));
    let empty = DecodedVideoFrame::new(vec![], 2, 2, PixelFormat::Yuv420p, None, Rational::new(1, 25));
    assert_eq!(check_video_transform_input(&empty), Err(Error::InvalidData));
    let zero = DecodedVideoFrame::new(vec![1], 0, 2, PixelFormat::Yuv420p, None, Rational::new(1, 25));
    assert_eq!(check_video_transform_input(&zero), Err(Error::InvalidData));
    assert!(scaler_needs_init(None, &ok));
    let same = ScalerInput { width: 2, height: 2, format: PixelFormat::Yuv420p };
    assert!(!scaler_needs_init(Some(same), &ok));
    assert!(scaler_needs_init(Some(ScalerInput { format: PixelFormat::Nv12, ..same }), &ok));
}

#[test]
fn decoded_frame_checks() {
    assert_eq!(check_decoded_video(0, 10, Some(PixelFormat::Nv12)), Err(Error::InvalidData));
    assert_eq!(check_decoded_video(10, 10, None), Err(Error::UnsupportedFormat));
    assert_eq!(check_decoded_video(10, 10, Some(PixelFormat::Nv12)), Ok(PixelFormat::Nv12));
    assert_eq!(check_decoded_audio(0, 1, Some(SampleFormat::F32), 2), Err(Error::InvalidData));
    assert_eq!(check_decoded_audio(10, 0, Some(SampleFormat::F32), 2), Err(Error::InvalidData));
    assert_eq!(check_decoded_audio(10, 1, None, 2), Err(Error::UnsupportedFormat));
    assert_eq!(
        check_decoded_audio(10, 2, Some(SampleFormat::F32), 4),
        Ok((SampleFormat::F32, ChannelLayout::Surround5_1))
    );
}

#[test]
fn codec_status_steps() {
    assert_eq!(after_send(CodecStatus::Done), SendAction::ReceiveAll);
    assert_eq!(after_send(CodecStatus::Again), SendAction::DrainThenRetry);
    assert_eq!(after_send(CodecStatus::Eof), SendAction::Fail);
    assert_eq!(after_send(CodecStatus::Failed), SendAction::Fail);
    assert_eq!(after_retry(CodecStatus::Done), RetryAction::ReceiveMore);
    assert_eq!(after_retry(CodecStatus::Again), RetryAction::ReturnDrained);
    assert_eq!(after_retry(CodecStatus::Failed), RetryAction::Fail);
    assert_eq!(after_flush_signal(CodecStatus::Done), FlushAction::ReceiveRest);
    assert_eq!(after_flush_signal(CodecStatus::Eof), FlushAction::ReceiveRest);
    assert_eq!(after_flush_signal(CodecStatus::Again), FlushAction::DrainThenRetry);
    assert_eq!(after_flush_signal(CodecStatus::Failed), FlushAction::Fail);
    assert_eq!(after_receive(CodecStatus::Done, 0, false), ReceiveAction::Convert);
    assert_eq!(after_receive(CodecStatus::Again, 0, false), ReceiveAction::Stop);
    assert_eq!(after_receive(CodecStatus::Eof, 3, true), ReceiveAction::Stop);
    assert_eq!(after_receive(CodecStatus::Failed, 3, true), ReceiveAction::Stop);
    assert_eq!(after_receive(CodecStatus::Failed, 0, true), ReceiveAction::Fail);
    assert_eq!(after_receive(CodecStatus::Failed, 3, false), ReceiveAction::Fail);
}

#[test]
fn probe_reports() {
    let avg = Rational::new(30000, 1001);
    let base = Rational::new(30, 1);
    assert_eq!(choose_frame_rate(avg, base), Some(avg));
    assert_eq!(choose_frame_rate(Rational::new(0, 1), base), Some(base));
    assert_eq!(choose_frame_rate(Rational::new(0, 1), Rational::new(0, 1)), None);
    assert_eq!(reported_bitrate(128_000), Some(128_000));
    assert_eq!(reported_bitrate(0), None);
    assert_eq!(reported_bitrate(-1), None);
    assert_eq!(reported_code(-99, -99), None);
    assert_eq!(reported_code(100, -99), Some(100));
    assert_eq!(media_duration_source(5_000_000, true, true), DurationSource::Container(5_000_000));
    assert_eq!(media_duration_source(0, true, true), DurationSource::Video);
    assert_eq!(media_duration_source(-1, false, true), DurationSource::Audio);
    assert_eq!(media_duration_source(0, false, false), DurationSource::Unknown);
    assert_eq!(channel_layout_from_count(1), ChannelLayout::Mono);
    assert_eq!(channel_layout_from_count(6), ChannelLayout::Stereo);
    assert_eq!(pts_from_raw(Some(42)), Some(Pts(42)));
    assert_eq!(pts_from_raw(None), None);
    assert_eq!(duration_from_raw(7), MediaDuration(7));
}
