use std::time::Duration;

use vidplayer::{
    AudioStreamClock, CANDIDATE_GRIDS, FillPlan, GridConfig, PlaybackState, ReadyVideos,
    VIDEO_EXTENSIONS, VideoInfo, VideoOrientation, choose_replacement, frame_due, grid_frame_due,
    grid_playback_ended, is_video_extension, is_video_file, pause_transition, pick_random_videos,
    plan_grid_fill, plan_player_fill, playback_ended, resume_transition, seek_backward_position,
    seek_forward_position, seek_target, seek_transition, toggle_pause_transition,
};

fn info(path: &str, orientation: VideoOrientation) -> VideoInfo {
    VideoInfo {
        path: path.to_string(),
        duration: Duration::from_secs(10),
        width: 1920,
        height: 1080,
        has_audio: true,
        orientation,
    }
}

fn paths(v: &[&str]) -> Vec<String> {
    v.iter().map(|s| s.to_string()).collect()
}

#[test]
fn grid_config_slots_and_default() {
    assert_eq!(GridConfig::new(3, 1, VideoOrientation::Portrait).total_slots(), 3);
    let d = GridConfig::default();
    assert_eq!((d.cols, d.rows, d.orientation), (2, 2, VideoOrientation::Landscape));
    assert_eq!(d.total_slots(), 4);
    assert_eq!(CANDIDATE_GRIDS.len(), 6);
    assert!(CANDIDATE_GRIDS.iter().all(|&(c, r)| c * r <= 4 && c <= 3 && r <= 3));
}

#[test]
fn video_files_by_extension() {
    assert!(is_video_file("/movies/clip.mp4"));
    assert!(is_video_file("a/b.MP4"));
    assert!(is_video_file("show.Mkv"));
    assert!(is_video_file("x.ts"));
    assert!(!is_video_file("notes.txt"));
    assert!(!is_video_file("mp4"));
    assert!(!is_video_file("dir/.mp4"));
    assert!(!is_video_file("archive.mp4.zip"));
    assert!(is_video_extension("webm"));
    assert!(!is_video_extension("WEBM"));
    assert_eq!(VIDEO_EXTENSIONS.len(), 13);
}

#[test]
fn ready_videos_by_orientation() {
    let mut r = ReadyVideos::new();
    assert!(r.is_empty());
    r.push(info("a.mp4", VideoOrientation::Landscape));
    r.push(info("b.mp4", VideoOrientation::Portrait));
    r.push(info("c.mp4", VideoOrientation::Portrait));
    assert!(!r.is_empty());
    assert_eq!(r.len(), 3);
    assert_eq!(r.len_for_orientation(VideoOrientation::Landscape), 1);
    assert_eq!(r.len_for_orientation(VideoOrientation::Portrait), 2);
    assert!(r.has_videos_for_orientation(VideoOrientation::Portrait));
    let l = r.pick_random_for_orientation(VideoOrientation::Landscape).unwrap();
    assert_eq!(l.path, "a.mp4");
    assert_eq!(l.orientation(), VideoOrientation::Landscape);
    let p = r.pick_random_for_orientation(VideoOrientation::Portrait).unwrap();
    assert!(p.path == "b.mp4" || p.path == "c.mp4");
    assert!(ReadyVideos::default().pick_random_for_orientation(VideoOrientation::Portrait).is_none());
}

#[test]
fn ready_videos_pick_except() {
    let mut r = ReadyVideos::new();
    r.push(info("b.mp4", VideoOrientation::Portrait));
    r.push(info("c.mp4", VideoOrientation::Portrait));
    for _ in 0..20 {
        let v = r
            .pick_random_except_for_orientation(VideoOrientation::Portrait, &paths(&["b.mp4"]))
            .unwrap();
        assert_eq!(v.path, "c.mp4");
    }
    let all = r
        .pick_random_except_for_orientation(VideoOrientation::Portrait, &paths(&["b.mp4", "c.mp4"]))
        .unwrap();
    assert!(all.path == "b.mp4" || all.path == "c.mp4");
    assert!(r
        .pick_random_except_for_orientation(VideoOrientation::Landscape, &paths(&[]))
        .is_none());
}

#[test]
fn pick_random_videos_counts() {
    let v = paths(&["a", "b", "c"]);
    let two = pick_random_videos(&v, 2);
    assert_eq!(two.len(), 2);
    assert_ne!(two[0], two[1]);
    assert!(two.iter().all(|p| v.contains(p)));
    let all = pick_random_videos(&v, 3);
    let mut sorted = all.clone();
    sorted.sort();
    assert_eq!(sorted, v);
    let five = pick_random_videos(&paths(&["only"]), 5);
    assert_eq!(five, paths(&["only"; 5]));
    assert!(pick_random_videos(&paths(&[]), 0).is_empty());
}

#[test]
fn choose_replacement_prefers_unplayed() {
    let v = paths(&["a", "b", "c"]);
    for _ in 0..20 {
        assert_eq!(choose_replacement(&v, &paths(&["a", "c"])), Some("b".to_string()));
    }
    let any = choose_replacement(&v, &paths(&["a", "b", "c"])).unwrap();
    assert!(v.contains(&any));
    assert_eq!(choose_replacement(&paths(&[]), &paths(&["a"])), None);
}

#[test]
fn audio_clock_counts_samples() {
    let mut c = AudioStreamClock::new(48000, 2);
    assert_eq!(c.samples_consumed(), 0);
    c.add_samples(960);
    c.add_samples(40);
    assert_eq!(c.samples_consumed(), 1000);
    assert_eq!(c.audio_frames(), 500);
    assert_eq!(c.sample_rate(), 48000);
    assert_eq!(c.channels(), 2);
    let mut w = AudioStreamClock::new(1, 1);
    w.add_samples(u64::MAX);
    w.add_samples(2);
    assert_eq!(w.samples_consumed(), 1);
}

#[test]
fn fill_plans() {
    assert_eq!(
        plan_player_fill(512, 100, false, false, false),
        FillPlan { read: 100, silence_read: false, clock_advance: 100, mark_finished: false }
    );
    assert_eq!(
        plan_player_fill(512, 1000, false, true, false),
        FillPlan { read: 512, silence_read: true, clock_advance: 512, mark_finished: false }
    );
    assert_eq!(
        plan_player_fill(512, 1000, true, false, true),
        FillPlan { read: 0, silence_read: false, clock_advance: 0, mark_finished: false }
    );
    assert_eq!(
        plan_player_fill(512, 0, false, false, true),
        FillPlan { read: 0, silence_read: false, clock_advance: 0, mark_finished: true }
    );
    assert_eq!(
        plan_grid_fill(512, 100),
        FillPlan { read: 100, silence_read: false, clock_advance: 512, mark_finished: false }
    );
}

#[test]
fn playback_transitions() {
    assert_eq!(pause_transition(PlaybackState::Playing), (PlaybackState::Paused, true));
    assert_eq!(pause_transition(PlaybackState::Ended), (PlaybackState::Ended, false));
    assert_eq!(resume_transition(PlaybackState::Paused), (PlaybackState::Playing, true));
    assert_eq!(resume_transition(PlaybackState::Error), (PlaybackState::Error, false));
    assert_eq!(toggle_pause_transition(PlaybackState::Playing), (PlaybackState::Paused, true));
    assert_eq!(toggle_pause_transition(PlaybackState::Paused), (PlaybackState::Playing, true));
    let (s, _) = toggle_pause_transition(PlaybackState::Playing);
    assert_eq!(toggle_pause_transition(s).0, PlaybackState::Playing);
    assert_eq!(seek_transition(PlaybackState::Ended), PlaybackState::Playing);
    assert_eq!(seek_transition(PlaybackState::Error), PlaybackState::Playing);
    assert_eq!(seek_transition(PlaybackState::Paused), PlaybackState::Paused);
}

#[test]
fn seek_positions() {
    assert_eq!(seek_target(5, 10), 5);
    assert_eq!(seek_target(15, 10), 10);
    assert_eq!(seek_forward_position(5, 3, 100), 8);
    assert_eq!(seek_forward_position(98, 3, 100), 100);
    assert_eq!(seek_backward_position(5, 3), 2);
    assert_eq!(seek_backward_position(2, 3), 0);
}

#[test]
fn frame_timing() {
    assert!(frame_due(100, None, 100));
    assert!(!frame_due(101, None, 100));
    assert!(frame_due(1_000, Some(1_000), 0));
    assert!(frame_due(1_500, Some(1_000), 1_500));
    assert!(!frame_due(1_500, Some(1_000), 1_400));
    assert!(grid_frame_due(1_500, Some(1_000), 500));
    assert!(!grid_frame_due(1_500, Some(1_000), 499));
}

#[test]
fn end_of_playback() {
    assert!(playback_ended(None, None, 0, false, true, true));
    assert!(!playback_ended(None, None, 0, true, true, true));
    assert!(!playback_ended(None, None, 0, false, false, true));
    assert!(!playback_ended(None, None, 0, false, true, false));
    assert!(playback_ended(Some(2_000), Some(1_000), 2_001, false, true, true));
    assert!(!playback_ended(Some(2_000), Some(1_000), 2_000, false, true, true));
    assert!(grid_playback_ended(Some(2_000), Some(1_000), 1_001, false, true, true));
    assert!(!grid_playback_ended(Some(2_000), Some(1_000), 1_000, false, true, true));
}

#[test]
fn due_frames_stay_due_and_come_in_order() {
    let base = Some(1_000u128);
    for later in [1_500u128, 2_000, 10_000] {
        assert!(frame_due(1_500, base, later));
        assert!(grid_frame_due(1_500, base, later - 1_000));
    }
    assert!(frame_due(1_400, base, 1_450));
    assert!(!frame_due(1_500, base, 1_450));
}

#[test]
fn paths_compare_by_component() {
    let v = paths(&["a/b.mp4", "c.mp4"]);
    for _ in 0..20 {
        assert_eq!(choose_replacement(&v, &paths(&["a//b.mp4"])), Some("c.mp4".to_string()));
    }
    let mut r = ReadyVideos::new();
    r.push(info("dir/x.mp4", VideoOrientation::Landscape));
    r.push(info("y.mp4", VideoOrientation::Landscape));
    for _ in 0..20 {
        let v = r
            .pick_random_except_for_orientation(VideoOrientation::Landscape, &paths(&["dir//x.mp4"]))
            .unwrap();
        assert_eq!(v.path, "y.mp4");
    }
}

#[test]
fn pick_random_videos_uses_distinct_positions() {
    let v = paths(&["x", "x", "y"]);
    for _ in 0..20 {
        let mut got = pick_random_videos(&v, 3);
        got.sort();
        assert_eq!(got, paths(&["x", "x", "y"]));
    }
}
