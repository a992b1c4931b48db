//! Media pipeline core of a video player: pixel and sample formats, stream
//! descriptions, encoder and source configuration, frame-plane packing,
//! bounded frame and packet queues, grid layout and playback bookkeeping.

mod audio_clock;
mod audio_data;
mod codec_names;
mod decode_flow;
mod encode_config;
mod error;
mod format;
mod frame;
mod frame_queue;
mod grid;
mod media_files;
mod packet_queue;
mod planes;
mod playback;
mod probe;
mod random;
mod ready_videos;
mod selection;
mod sink;
mod source_config;
mod stream;
mod text;
mod transform_config;
mod time_specs;

pub use error::{AudioError, Error};
pub use format::{ChannelLayout, PixelFormat, SampleFormat};
pub use planes::{
    PlaneData, PlaneGeometry, copy_data_from_frame_planes, copy_data_to_frame_planes,
    copy_frame_data, plane_layout, planes_fit,
};
pub use stream::{
    AudioFrame, AudioStreamInfo, CodecId, DecodedVideoFrame, MediaDuration, MediaInfo, Packet, Pts,
    Rational, StreamType, VideoStreamInfo,
};
pub use audio_data::{
    ResamplerInput, check_audio_transform_input, copy_audio_data, copy_audio_data_from_frame,
    copy_audio_data_to_frame, estimate_output_samples, resampler_needs_init,
};
pub use encode_config::{
    AudioEncoderConfig, EncoderPreset, HwEncoder, RateControl, RateSettings, VideoEncoderConfig,
    audio_encoder_time_base, audio_frame_size, check_frame_dimensions, next_frame_pts,
    rate_control_settings,
};
pub use source_config::{
    NetworkOptions, SourceConfig, StreamFilter, UrlOpenOptions, check_seekable, is_url,
    route_packet, stream_selection, url_open_options,
};
pub use sink::{
    AudioMuxParams, VideoMuxParams, audio_mux_params, packet_timing, rescale_ts, sink_route,
    video_mux_params,
};
pub use frame::VideoFrame;
pub use frame_queue::{FrameQueue, PushOutcome};
pub use packet_queue::{PacketQueue, PopOutcome};
pub use grid::{CANDIDATE_GRIDS, GridConfig, PollStep, VideoOrientation, poll_new_videos};
pub use ready_videos::{ReadyVideos, VideoInfo};
pub use media_files::{VIDEO_EXTENSIONS, is_video_extension, is_video_file};
pub use selection::{choose_replacement, pick_random_videos};
pub use audio_clock::{AudioStreamClock, FillPlan, plan_grid_fill, plan_player_fill};
pub use playback::{
    PlaybackState, frame_due, grid_frame_due, grid_playback_ended, pause_transition,
    playback_ended, resume_transition, seek_backward_position, seek_forward_position, seek_target,
    seek_transition, toggle_pause_transition,
};
pub use decode_flow::{
    CodecStatus, FlushAction, FrameShape, ReceiveAction, RetryAction, ScalerAction, ScalerInput,
    SendAction, after_flush_signal, after_receive, after_retry, after_send, check_decoded_audio,
    check_decoded_video, check_video_transform_input, scaler_action, scaler_needs_init,
};
pub use probe::{
    DurationSource, channel_layout_from_count, choose_frame_rate, duration_from_raw,
    media_duration_source, pts_from_raw, reported_bitrate, reported_code,
};
pub use codec_names::{
    LibChannelLayout, channel_layout_from_ffmpeg, channel_layout_to_ffmpeg, encoder_channel_layout,
    ffmpeg_channel_layout_to_ours,
};
pub use codec_names::{
    LibCodecId, LibPixelFormat, LibSampleFormat, LibSampleLayout, codec_id_from_ffmpeg,
    codec_id_to_ffmpeg_audio, codec_id_to_ffmpeg_video, decoded_pixel_format, encoder_pixel_format,
    ffmpeg_pixel_format_to_ours, ffmpeg_sample_format_to_ours, pixel_format_from_ffmpeg,
    pixel_format_to_ffmpeg, probed_audio_codec, probed_video_codec, sample_format_from_ffmpeg,
    sample_format_to_ffmpeg,
};
pub use transform_config::{
    AudioTransformConfig, ScalingAlgorithm, VideoTransformConfig, after_resampler_flush,
};
