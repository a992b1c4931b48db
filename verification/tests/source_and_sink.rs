use std::time::Duration;

use vidplayer::{
    Error, MediaDuration, NetworkOptions, Packet, Pts, Rational, SourceConfig, StreamFilter,
    StreamType, check_seekable, is_url, packet_timing, rescale_ts, route_packet, sink_route,
    stream_selection, url_open_options,
};

#[test]
fn is_url_accepts_network_schemes() {
    assert!(is_url("http://example.com/a.mp4"));
    assert!(is_url("https://example.com/live.m3u8"));
    assert!(is_url("rtmp://server/app"));
    assert!(!is_url("/home/user/video.mp4"));
    assert!(!is_url("file:///tmp/a.mp4"));
    assert!(!is_url("HTTP://EXAMPLE.COM"));
    assert!(!is_url("http:/"));
    assert!(!is_url(""));
}

#[test]
fn network_options_builders() {
    let n = NetworkOptions::with_timeout(Duration::from_secs(5))
        .user_agent("player/1.0")
        .header("Referer", "https://a.example")
        .header("X-Token", "abc")
        .hls()
        .reconnect();
    assert_eq!(n.timeout, Some(Duration::from_secs(5)));
    assert_eq!(n.user_agent.as_deref(), Some("player/1.0"));
    assert_eq!(
        n.headers,
        Some(vec![
            ("Referer".to_string(), "https://a.example".to_string()),
            ("X-Token".to_string(), "abc".to_string()),
        ])
    );
    assert!(n.is_hls);
    assert!(n.reconnect);
    let d = NetworkOptions::default();
    assert!(d.timeout.is_none() && d.user_agent.is_none() && d.headers.is_none());
    assert!(!d.is_hls && !d.reconnect);
}

#[test]
fn source_config_defaults_and_filter() {
    let c = SourceConfig::default();
    assert!(c.stream_filter.is_none());
    assert!(c.network_options.is_none());
    let c = c.with_network_options(NetworkOptions::default().hls());
    assert!(c.network_options.as_ref().unwrap().is_hls);
    assert_eq!(StreamFilter::default(), StreamFilter::Both);
    assert_eq!(stream_selection(None), (true, true));
    assert_eq!(stream_selection(Some(StreamFilter::Both)), (true, true));
    assert_eq!(stream_selection(Some(StreamFilter::VideoOnly)), (true, false));
    assert_eq!(stream_selection(Some(StreamFilter::AudioOnly)), (false, true));
}

#[test]
fn url_open_options_from_network_options() {
    let config = SourceConfig::default().with_network_options(
        NetworkOptions::with_timeout(Duration::from_millis(1500))
            .user_agent("ua")
            .header("A", "1")
            .header("B", "2")
            .reconnect(),
    );
    let o = url_open_options("https://host/stream.m3u8?x=1", &config);
    assert_eq!(o.timeout, Some(Duration::from_millis(1500)));
    assert_eq!(o.user_agent.as_deref(), Some("ua"));
    assert_eq!(o.headers.as_deref(), Some("A: 1\r\nB: 2"));
    assert!(o.reconnect);
    assert!(o.allow_all_extensions);
}

#[test]
fn url_open_options_without_network_options() {
    let o = url_open_options("http://host/video.mp4", &SourceConfig::default());
    assert!(o.timeout.is_none());
    assert!(o.user_agent.is_none());
    assert!(o.headers.is_none());
    assert!(!o.reconnect);
    assert!(!o.allow_all_extensions);
    let p = url_open_options("http://host/list.m3u8", &SourceConfig::default());
    assert!(p.allow_all_extensions);
    let forced = SourceConfig::default().with_network_options(NetworkOptions::default().hls());
    let f = url_open_options("http://host/live", &forced);
    assert!(f.allow_all_extensions);
    let empty = SourceConfig::default().with_network_options(NetworkOptions {
        headers: Some(vec![]),
        ..NetworkOptions::default()
    });
    assert!(url_open_options("http://host/a", &empty).headers.is_none());
}

#[test]
fn route_packet_to_kept_streams() {
    let vtb = Rational::new(1, 90000);
    let atb = Rational::new(1, 48000);
    assert_eq!(route_packet(0, Some(0), Some(1), Some(vtb), Some(atb)), Some((StreamType::Video, vtb)));
    assert_eq!(route_packet(1, Some(0), Some(1), Some(vtb), Some(atb)), Some((StreamType::Audio, atb)));
    assert_eq!(route_packet(2, Some(0), Some(1), Some(vtb), Some(atb)), None);
    assert_eq!(route_packet(0, None, Some(1), None, Some(atb)), None);
}

#[test]
fn check_seekable_errors() {
    assert_eq!(check_seekable(true), Ok(()));
    assert_eq!(check_seekable(false), Err(Error::UnsupportedFormat));
}

#[test]
fn rescale_ts_values() {
    let ms = Rational::new(1, 1000);
    let tb90k = Rational::new(1, 90000);
    assert_eq!(rescale_ts(1000, ms, tb90k), 90000);
    assert_eq!(rescale_ts(90000, tb90k, ms), 1000);
    assert_eq!(rescale_ts(1, tb90k, ms), 0);
    assert_eq!(rescale_ts(-3000, tb90k, ms), -33);
    assert_eq!(rescale_ts(12345, ms, ms), 12345);
    assert_eq!(rescale_ts(7, Rational::new(1001, 24000), Rational::new(1, 24000)), 7007);
}

#[test]
fn sink_route_refusals() {
    let vtb = Rational::new(1, 90000);
    assert_eq!(sink_route(false, StreamType::Video, Some(0), None, Some(vtb), None), Err(Error::InvalidData));
    assert_eq!(sink_route(true, StreamType::Video, Some(0), None, Some(vtb), None), Ok((0, vtb)));
    assert_eq!(sink_route(true, StreamType::Audio, Some(0), None, Some(vtb), None), Err(Error::InvalidData));
}

#[test]
fn packet_timing_rescales_all_fields() {
    let p = Packet::new(
        vec![],
        Some(Pts(2000)),
        None,
        MediaDuration(40),
        Rational::new(1, 1000),
        true,
        StreamType::Video,
    );
    assert_eq!(packet_timing(&p, Rational::new(1, 90000)), (Some(180000), None, 3600));
}

#[test]
fn rescale_to_finer_base_and_back() {
    let coarse = Rational::new(1, 25);
    let fine = Rational::new(1, 25 * 3600);
    for ts in [-7i64, 0, 1, 12345] {
        let up = rescale_ts(ts, coarse, fine);
        assert_eq!(up, ts * 3600);
        assert_eq!(rescale_ts(up, fine, coarse), ts);
    }
}
