use vidplayer::{ChannelLayout, PixelFormat, SampleFormat};

#[test]
fn pixel_format_bits_per_pixel() {
    assert_eq!(PixelFormat::Yuv420p.bits_per_pixel(), 12);
    assert_eq!(PixelFormat::Bgra.bits_per_pixel(), 32);
    assert_eq!(PixelFormat::Rgb24.bits_per_pixel(), 24);
}

#[test]
fn pixel_format_is_planar() {
    assert!(PixelFormat::Yuv420p.is_planar());
    assert!(PixelFormat::Nv12.is_planar());
    assert!(!PixelFormat::Bgra.is_planar());
    assert!(!PixelFormat::Rgb24.is_planar());
}

#[test]
fn sample_format_bytes_per_sample() {
    assert_eq!(SampleFormat::U8.bytes_per_sample(), 1);
    assert_eq!(SampleFormat::S16.bytes_per_sample(), 2);
    assert_eq!(SampleFormat::F32.bytes_per_sample(), 4);
    assert_eq!(SampleFormat::F64.bytes_per_sample(), 8);
}

#[test]
fn sample_format_is_float() {
    assert!(SampleFormat::F32.is_float());
    assert!(SampleFormat::F64.is_float());
    assert!(!SampleFormat::S16.is_float());
    assert!(!SampleFormat::S32.is_float());
}

#[test]
fn channel_layout_channels() {
    assert_eq!(ChannelLayout::Mono.channels(), 1);
    assert_eq!(ChannelLayout::Stereo.channels(), 2);
}

#[test]
fn pixel_format_bits_of_every_format() {
    assert_eq!(PixelFormat::Nv12.bits_per_pixel(), 12);
    assert_eq!(PixelFormat::Yuv420p10.bits_per_pixel(), 15);
    assert_eq!(PixelFormat::P010le.bits_per_pixel(), 15);
    assert_eq!(PixelFormat::Yuv422p.bits_per_pixel(), 16);
    assert_eq!(PixelFormat::Yuv444p.bits_per_pixel(), 24);
    assert_eq!(PixelFormat::Bgr24.bits_per_pixel(), 24);
    assert_eq!(PixelFormat::Rgba.bits_per_pixel(), 32);
}

#[test]
fn channel_layout_from_count_picks_closest() {
    assert_eq!(ChannelLayout::from_count(1), ChannelLayout::Mono);
    assert_eq!(ChannelLayout::from_count(2), ChannelLayout::Stereo);
    assert_eq!(ChannelLayout::from_count(3), ChannelLayout::Surround5_1);
    assert_eq!(ChannelLayout::from_count(5), ChannelLayout::Surround5_1);
    assert_eq!(ChannelLayout::from_count(6), ChannelLayout::Surround5_1);
    assert_eq!(ChannelLayout::from_count(7), ChannelLayout::Surround7_1);
    assert_eq!(ChannelLayout::from_count(8), ChannelLayout::Surround7_1);
    assert_eq!(ChannelLayout::from_count(0), ChannelLayout::Mono);
    assert_eq!(ChannelLayout::from_count(12), ChannelLayout::Surround7_1);
}

#[test]
fn channel_layout_round_trips_through_its_count() {
    for layout in [
        ChannelLayout::Mono,
        ChannelLayout::Stereo,
        ChannelLayout::Surround5_1,
        ChannelLayout::Surround7_1,
    ] {
        assert_eq!(ChannelLayout::from_count(layout.channels()), layout);
    }
}

#[test]
fn sample_format_remaining_sizes() {
    assert_eq!(SampleFormat::S32.bytes_per_sample(), 4);
    assert!(!SampleFormat::U8.is_float());
}
