//! Configuration of media sources and the decisions taken when one is opened
//! and read: which streams to keep, which open options a network location
//! gets, and to which stream a demuxed packet belongs.
use std::time::Duration;

use vstd::prelude::*;

use crate::error::Error;
use crate::stream::{Rational, StreamType};
use crate::text::{contains_text, has_prefix, owned, push_text, spec_contains, spec_has_prefix};

verus! {

/// The characters of an optional string.
pub open spec fn spec_opt_text(s: Option<String>) -> Option<Seq<char>> {
    match s {
        Some(t) => Some(t@),
        None => None,
    }
}

/// The header list as pairs of character sequences.
pub open spec fn spec_header_pairs(h: Seq<(String, String)>) -> Seq<(Seq<char>, Seq<char>)> {
    h.map_values(|p: (String, String)| (p.0@, p.1@))
}

/// The optional header list as pairs of character sequences.
pub open spec fn spec_opt_headers(h: Option<Vec<(String, String)>>) -> Option<
    Seq<(Seq<char>, Seq<char>)>,
> {
    match h {
        Some(v) => Some(spec_header_pairs(v@)),
        None => None,
    }
}

/// Network-specific options for HTTP/HLS sources.
#[derive(Clone, Debug)]
pub struct NetworkOptions {
    /// Connection/read timeout.
    pub timeout: Option<Duration>,
    /// Custom User-Agent header.
    pub user_agent: Option<String>,
    /// Custom HTTP headers (key-value pairs).
    pub headers: Option<Vec<(String, String)>>,
    /// Force HLS mode (for URLs that don't end in .m3u8).
    pub is_hls: bool,
    /// Reconnect on error (for live streams).
    pub reconnect: bool,
}

impl Default for NetworkOptions {
    fn default() -> (r: NetworkOptions)
        ensures
            r.timeout is None,
            r.user_agent is None,
            r.headers is None,
            !r.is_hls,
            !r.reconnect,
    {
        NetworkOptions { timeout: None, user_agent: None, headers: None, is_hls: false, reconnect: false }
    }
}

impl NetworkOptions {
    /// Create new network options with a timeout and nothing else set.
    pub fn with_timeout(timeout: Duration) -> (r: Self)
        ensures
            r.timeout == Some(timeout),
            r.user_agent is None,
            r.headers is None,
            !r.is_hls,
            !r.reconnect,
    {
        NetworkOptions {
            timeout: Some(timeout),
            user_agent: None,
            headers: None,
            is_hls: false,
            reconnect: false,
        }
    }

    /// Set the User-Agent header.
    pub fn user_agent(self, user_agent: &str) -> (r: Self)
        ensures
            spec_opt_text(r.user_agent) == Some(user_agent@),
            r.timeout == self.timeout,
            spec_opt_headers(r.headers) == spec_opt_headers(self.headers),
            r.is_hls == self.is_hls,
            r.reconnect == self.reconnect,
    {
        NetworkOptions { user_agent: Some(owned(user_agent)), ..self }
    }

    /// Add a custom HTTP header after those already set.
    pub fn header(self, key: &str, value: &str) -> (r: Self)
        ensures
            spec_opt_headers(r.headers) == Some(
                match spec_opt_headers(self.headers) {
                    Some(h) => h,
                    None => Seq::empty(),
                }.push((key@, value@)),
            ),
            r.timeout == self.timeout,
            spec_opt_text(r.user_agent) == spec_opt_text(self.user_agent),
            r.is_hls == self.is_hls,
            r.reconnect == self.reconnect,
    {
        let NetworkOptions { timeout, user_agent, headers, is_hls, reconnect } = self;
        let mut list = match headers {
            Some(h) => h,
            None => Vec::new(),
        };
        let ghost before = list@;
        list.push((owned(key), owned(value)));
        proof {
            assert(spec_header_pairs(list@) =~= spec_header_pairs(before).push((key@, value@)));
        }
        NetworkOptions { timeout, user_agent, headers: Some(list), is_hls, reconnect }
    }

    /// Enable HLS mode.
    pub fn hls(self) -> (r: Self)
        ensures
            r.is_hls,
            r.timeout == self.timeout,
            spec_opt_text(r.user_agent) == spec_opt_text(self.user_agent),
            spec_opt_headers(r.headers) == spec_opt_headers(self.headers),
            r.reconnect == self.reconnect,
    {
        NetworkOptions { is_hls: true, ..self }
    }

    /// Enable reconnection on error.
    pub fn reconnect(self) -> (r: Self)
        ensures
            r.reconnect,
            r.timeout == self.timeout,
            spec_opt_text(r.user_agent) == spec_opt_text(self.user_agent),
            spec_opt_headers(r.headers) == spec_opt_headers(self.headers),
            r.is_hls == self.is_hls,
    {
        NetworkOptions { reconnect: true, ..self }
    }
}

/// Filter for selecting which streams to demux.
#[derive(Clone, Copy, Debug, PartialEq, Eq, Structural)]
pub enum StreamFilter {
    /// Only demux video streams.
    VideoOnly,
    /// Only demux audio streams.
    AudioOnly,
    /// Demux both video and audio streams.
    Both,
}

impl Default for StreamFilter {
    fn default() -> (r: StreamFilter)
        ensures
            r == StreamFilter::Both,
    {
        StreamFilter::Both
    }
}

/// Configuration for opening a media source.
#[derive(Clone, Debug)]
pub struct SourceConfig {
    /// Filter which streams to demux (None = all available).
    pub stream_filter: Option<StreamFilter>,
    /// Network options for HTTP/HLS sources.
    pub network_options: Option<NetworkOptions>,
}

impl Default for SourceConfig {
    fn default() -> (r: SourceConfig)
        ensures
            r.stream_filter is None,
            r.network_options is None,
    {
        SourceConfig { stream_filter: None, network_options: None }
    }
}

impl SourceConfig {
    /// Set network options for HTTP/HLS sources.
    pub fn with_network_options(self, opts: NetworkOptions) -> (r: Self)
        ensures
            r.network_options == Some(opts),
            r.stream_filter == self.stream_filter,
    {
        SourceConfig { network_options: Some(opts), ..self }
    }
}

/// Locations opened as network URLs rather than as files.
pub open spec fn spec_is_url(s: Seq<char>) -> bool {
    spec_has_prefix(s, "http://"@) || spec_has_prefix(s, "https://"@) || spec_has_prefix(
        s,
        "rtmp://"@,
    )
}

/// Check if a string looks like a URL.
pub fn is_url(s: &str) -> (r: bool)
    ensures
        r == spec_is_url(s@),
{
    has_prefix(s, "http://") || has_prefix(s, "https://") || has_prefix(s, "rtmp://")
}

/// Which streams a source keeps under a filter, as (video, audio).
pub open spec fn spec_stream_selection(filter: Option<StreamFilter>) -> (bool, bool) {
    match filter {
        None => (true, true),
        Some(StreamFilter::Both) => (true, true),
        Some(StreamFilter::VideoOnly) => (true, false),
        Some(StreamFilter::AudioOnly) => (false, true),
    }
}

/// Whether a source opened with `filter` looks for a video and an audio stream.
pub fn stream_selection(filter: Option<StreamFilter>) -> (r: (bool, bool))
    ensures
        r == spec_stream_selection(filter),
{
    let want_video = match filter {
        None | Some(StreamFilter::Both) | Some(StreamFilter::VideoOnly) => true,
        Some(StreamFilter::AudioOnly) => false,
    };
    let want_audio = match filter {
        None | Some(StreamFilter::Both) | Some(StreamFilter::AudioOnly) => true,
        Some(StreamFilter::VideoOnly) => false,
    };
    (want_video, want_audio)
}

/// The options a network location is opened with.
#[derive(Clone, Debug)]
pub struct UrlOpenOptions {
    /// Connection/read timeout.
    pub timeout: Option<Duration>,
    /// User-Agent header.
    pub user_agent: Option<String>,
    /// All custom headers as one text, one `key: value` line per header.
    pub headers: Option<String>,
    /// Reconnect on error, also while streaming, waiting at most 5 seconds.
    pub reconnect: bool,
    /// Accept every segment extension of an HLS playlist.
    pub allow_all_extensions: bool,
}

/// `key: value` for each header, joined by CR LF.
pub open spec fn spec_header_lines(h: Seq<(Seq<char>, Seq<char>)>) -> Seq<char>
    decreases h.len(),
{
    if h.len() == 0 {
        Seq::empty()
    } else if h.len() == 1 {
        h[0].0 + ": "@ + h[0].1
    } else {
        spec_header_lines(h.drop_last()) + "\r\n"@ + h.last().0 + ": "@ + h.last().1
    }
}

/// The open options for `url` under `config`: timeout and User-Agent from the
/// network options; the header text when it is not empty; reconnection when
/// asked for; all HLS segment extensions when the URL names an `.m3u8`
/// playlist or HLS mode was forced.
pub open spec fn spec_url_open_options(url: Seq<char>, config: SourceConfig) -> (
    Option<Duration>,
    Option<Seq<char>>,
    Option<Seq<char>>,
    bool,
    bool,
) {
    match config.network_options {
        Some(n) => (
            n.timeout,
            spec_opt_text(n.user_agent),
            match spec_opt_headers(n.headers) {
                Some(h) => if spec_header_lines(h).len() > 0 {
                    Some(spec_header_lines(h))
                } else {
                    None
                },
                None => None,
            },
            n.reconnect,
            spec_contains(url, ".m3u8"@) || n.is_hls,
        ),
        None => (None, None, None, false, spec_contains(url, ".m3u8"@)),
    }
}

fn header_lines(headers: &Vec<(String, String)>) -> (r: String)
    ensures
        r@ == spec_header_lines(spec_header_pairs(headers@)),
{
    let ghost pairs = spec_header_pairs(headers@);
    let mut out = owned("");
    proof {
        reveal_strlit("");
        assert(out@ =~= Seq::<char>::empty());
        assert(pairs.subrange(0, 0) =~= Seq::<(Seq<char>, Seq<char>)>::empty());
    }
    let mut i: usize = 0;
    while i < headers.len()
        invariant
            i <= headers@.len(),
            pairs == spec_header_pairs(headers@),
            out@ == spec_header_lines(pairs.subrange(0, i as int)),
        decreases headers@.len() - i,
    {
        proof {
            assert(pairs.subrange(0, i + 1).drop_last() =~= pairs.subrange(0, i as int));
        }
        if i > 0 {
            push_text(&mut out, "\r\n");
        }
        push_text(&mut out, headers[i].0.as_str());
        push_text(&mut out, ": ");
        push_text(&mut out, headers[i].1.as_str());
        i = i + 1;
        proof {
            let sub = pairs.subrange(0, i as int);
            assert(out@ =~= spec_header_lines(sub));
        }
    }
    proof {
        assert(pairs.subrange(0, headers@.len() as int) =~= pairs);
    }
    out
}

fn clone_text(s: &Option<String>) -> (r: Option<String>)
    ensures
        spec_opt_text(r) == spec_opt_text(*s),
{
    match s {
        Some(t) => Some(owned(t.as_str())),
        None => None,
    }
}

/// The options to open `url` with under `config`.
pub fn url_open_options(url: &str, config: &SourceConfig) -> (r: UrlOpenOptions)
    ensures
        (r.timeout, spec_opt_text(r.user_agent), spec_opt_text(r.headers), r.reconnect,
            r.allow_all_extensions) == spec_url_open_options(url@, *config),
{
    let playlist = contains_text(url, ".m3u8");
    match &config.network_options {
        Some(n) => {
            let headers = match &n.headers {
                Some(h) => {
                    let text = header_lines(h);
                    if text.as_str().unicode_len() > 0 {
                        Some(text)
                    } else {
                        None
                    }
                },
                None => None,
            };
            UrlOpenOptions {
                timeout: n.timeout,
                user_agent: clone_text(&n.user_agent),
                headers,
                reconnect: n.reconnect,
                allow_all_extensions: playlist || n.is_hls,
            }
        },
        None => UrlOpenOptions {
            timeout: None,
            user_agent: None,
            headers: None,
            reconnect: false,
            allow_all_extensions: playlist,
        },
    }
}

/// The stream a demuxed packet belongs to, with that stream's time base:
/// `None` for a stream the source does not keep.
pub open spec fn spec_route_packet(
    stream_index: usize,
    video_index: Option<usize>,
    audio_index: Option<usize>,
    video_time_base: Option<Rational>,
    audio_time_base: Option<Rational>,
) -> Option<(StreamType, Rational)> {
    if video_index == Some(stream_index) {
        Some((StreamType::Video, video_time_base.unwrap()))
    } else if audio_index == Some(stream_index) {
        Some((StreamType::Audio, audio_time_base.unwrap()))
    } else {
        None
    }
}

/// Assigns a demuxed packet to the kept video or audio stream.
pub fn route_packet(
    stream_index: usize,
    video_index: Option<usize>,
    audio_index: Option<usize>,
    video_time_base: Option<Rational>,
    audio_time_base: Option<Rational>,
) -> (r: Option<(StreamType, Rational)>)
    requires
        video_index is Some ==> video_time_base is Some,
        audio_index is Some ==> audio_time_base is Some,
    ensures
        r == spec_route_packet(
            stream_index,
            video_index,
            audio_index,
            video_time_base,
            audio_time_base,
        ),
{
    match (video_index, video_time_base) {
        (Some(v), Some(tb)) if v == stream_index => {
            return Some((StreamType::Video, tb));
        },
        _ => {},
    }
    match (audio_index, audio_time_base) {
        (Some(a), Some(tb)) if a == stream_index => Some((StreamType::Audio, tb)),
        _ => None,
    }
}

/// A source can only seek when its input is seekable.
pub fn check_seekable(seekable: bool) -> (r: Result<(), Error>)
    ensures
        r is Ok <==> seekable,
        r matches Err(e) ==> e is UnsupportedFormat,
{
    if seekable {
        Ok(())
    } else {
        Err(Error::UnsupportedFormat)
    }
}

/// A demuxed packet of the kept video stream is routed as video with the
/// video time base, one of the kept audio stream as audio with the audio
/// time base, and any other packet is dropped.
pub proof fn lemma_route_packet_by_index(
    stream_index: usize,
    video_index: Option<usize>,
    audio_index: Option<usize>,
    video_time_base: Option<Rational>,
    audio_time_base: Option<Rational>,
)
    requires
        video_index is Some ==> video_time_base is Some,
        audio_index is Some ==> audio_time_base is Some,
    ensures
        ({
            let r = spec_route_packet(
                stream_index,
                video_index,
                audio_index,
                video_time_base,
                audio_time_base,
            );
            &&& video_index == Some(stream_index) ==> r == Some(
                (StreamType::Video, video_time_base.unwrap()),
            )
            &&& video_index != Some(stream_index) && audio_index == Some(stream_index) ==> r
                == Some((StreamType::Audio, audio_time_base.unwrap()))
            &&& video_index != Some(stream_index) && audio_index != Some(stream_index) ==> r is None
            &&& r matches Some((t, tb)) ==> (t == StreamType::Video ==> Some(tb)
                == video_time_base) && (t == StreamType::Audio ==> Some(tb) == audio_time_base)
        }),
{
}

/// Which streams are kept: the video stream unless only audio is asked for,
/// the audio stream unless only video is asked for.
pub proof fn lemma_stream_selection(filter: Option<StreamFilter>)
    ensures
        spec_stream_selection(filter).0 <==> filter != Some(StreamFilter::AudioOnly),
        spec_stream_selection(filter).1 <==> filter != Some(StreamFilter::VideoOnly),
{
}

/// Network locations are exactly those with an `http://`, `https://` or
/// `rtmp://` scheme; nothing shorter than a scheme is one.
pub proof fn lemma_is_url_scheme(s: Seq<char>)
    ensures
        spec_is_url(s) ==> s.len() >= 7,
        spec_has_prefix(s, "https://"@) ==> spec_is_url(s),
{
    reveal_strlit("http://");
    reveal_strlit("https://");
    reveal_strlit("rtmp://");
}

/// A URL naming an `.m3u8` playlist is always opened accepting every
/// segment extension; without network options nothing else is set, and with
/// them the timeout, User-Agent and reconnection are theirs, and the header
/// text is present exactly when some header gives it characters.
pub proof fn lemma_url_open_options_law(url: Seq<char>, config: SourceConfig)
    ensures
        ({
            let r = spec_url_open_options(url, config);
            &&& spec_contains(url, ".m3u8"@) ==> r.4
            &&& config.network_options is None ==> r == (
                None::<Duration>,
                None::<Seq<char>>,
                None::<Seq<char>>,
                false,
                spec_contains(url, ".m3u8"@),
            )
            &&& config.network_options matches Some(n) ==> {
                &&& r.0 == n.timeout
                &&& r.1 == spec_opt_text(n.user_agent)
                &&& r.3 == n.reconnect
                &&& (n.is_hls ==> r.4)
                &&& (r.2 matches Some(t) ==> t.len() > 0)
                &&& (n.headers is None ==> r.2 is None)
            }
        }),
{
}

/// Header text lists the headers in order, one `key: value` per line: one
/// header gives its own line, and each further header adds a line break and
/// its line at the end.
pub proof fn lemma_header_lines_law(
    h: Seq<(Seq<char>, Seq<char>)>,
    key: Seq<char>,
    value: Seq<char>,
)
    ensures
        spec_header_lines(seq![(key, value)]) == key + ": "@ + value,
        h.len() > 0 ==> spec_header_lines(h.push((key, value))) == spec_header_lines(h) + "\r\n"@
            + key + ": "@ + value,
{
    assert(h.push((key, value)).drop_last() =~= h);
}

} // verus!
