//! Storage of the videos that passed validation, sorted by orientation, and
//! the random choice of the next video to show.
use std::time::Duration;

use vstd::prelude::*;

use crate::grid::VideoOrientation;
use crate::media_files::{same_path, spec_same_path};
use crate::random::choose_one;
use crate::selection::positions;

verus! {

/// Information about a validated video file.
pub struct VideoInfo {
    /// Location of the file.
    pub path: String,
    /// Duration of the video.
    pub duration: Duration,
    /// Frame width in pixels.
    pub width: u32,
    /// Frame height in pixels.
    pub height: u32,
    /// Whether the file has an audio stream.
    pub has_audio: bool,
    /// Orientation the video was classified as.
    pub orientation: VideoOrientation,
}

impl VideoInfo {
    /// Both describe the same video.
    pub open spec fn same(&self, other: &VideoInfo) -> bool {
        &&& self.path@ == other.path@
        &&& self.duration == other.duration
        &&& self.width == other.width
        &&& self.height == other.height
        &&& self.has_audio == other.has_audio
        &&& self.orientation == other.orientation
    }

    /// The orientation the video was classified as.
    pub fn orientation(&self) -> (r: VideoOrientation)
        ensures
            r == self.orientation,
    {
        self.orientation
    }
}

impl Clone for VideoInfo {
    fn clone(&self) -> (r: Self)
        ensures
            r.same(self),
    {
        VideoInfo {
            path: self.path.clone(),
            duration: self.duration.clone(),
            width: self.width,
            height: self.height,
            has_audio: self.has_audio,
            orientation: self.orientation,
        }
    }
}

/// Storage for validated video files, organized by orientation.
pub struct ReadyVideos {
    landscape: Vec<VideoInfo>,
    portrait: Vec<VideoInfo>,
}

impl ReadyVideos {
    /// The videos stored for an orientation, oldest first.
    pub closed spec fn videos(&self, orientation: VideoOrientation) -> Seq<VideoInfo> {
        match orientation {
            VideoOrientation::Landscape => self.landscape@,
            VideoOrientation::Portrait => self.portrait@,
        }
    }

    /// Create a new empty storage.
    pub fn new() -> (r: Self)
        ensures
            r.videos(VideoOrientation::Landscape) == Seq::<VideoInfo>::empty(),
            r.videos(VideoOrientation::Portrait) == Seq::<VideoInfo>::empty(),
    {
        ReadyVideos { landscape: Vec::new(), portrait: Vec::new() }
    }

    /// Add a validated video to the storage of its orientation.
    pub fn push(&mut self, info: VideoInfo)
        ensures
            final(self).videos(info.orientation) == old(self).videos(info.orientation).push(info),
            final(self).videos(other_orientation(info.orientation)) == old(self).videos(
                other_orientation(info.orientation),
            ),
    {
        match info.orientation() {
            VideoOrientation::Landscape => self.landscape.push(info),
            VideoOrientation::Portrait => self.portrait.push(info),
        }
    }

    /// Get the total number of ready videos (both orientations).
    pub fn len(&self) -> (r: usize)
        requires
            self.videos(VideoOrientation::Landscape).len() + self.videos(
                VideoOrientation::Portrait,
            ).len() <= usize::MAX,
        ensures
            r == self.videos(VideoOrientation::Landscape).len() + self.videos(
                VideoOrientation::Portrait,
            ).len(),
    {
        self.landscape.len() + self.portrait.len()
    }

    /// Get the number of videos for a specific orientation.
    pub fn len_for_orientation(&self, orientation: VideoOrientation) -> (r: usize)
        ensures
            r == self.videos(orientation).len(),
    {
        match orientation {
            VideoOrientation::Landscape => self.landscape.len(),
            VideoOrientation::Portrait => self.portrait.len(),
        }
    }

    /// Check if the storage is empty (both orientations).
    pub fn is_empty(&self) -> (r: bool)
        ensures
            r == (self.videos(VideoOrientation::Landscape).len() == 0 && self.videos(
                VideoOrientation::Portrait,
            ).len() == 0),
    {
        self.landscape.len() == 0 && self.portrait.len() == 0
    }

    /// Check if a specific orientation has videos.
    pub fn has_videos_for_orientation(&self, orientation: VideoOrientation) -> (r: bool)
        ensures
            r == (self.videos(orientation).len() > 0),
    {
        match orientation {
            VideoOrientation::Landscape => self.landscape.len() > 0,
            VideoOrientation::Portrait => self.portrait.len() > 0,
        }
    }

    fn videos_of(&self, orientation: VideoOrientation) -> (r: &Vec<VideoInfo>)
        ensures
            r@ == self.videos(orientation),
    {
        match orientation {
            VideoOrientation::Landscape => &self.landscape,
            VideoOrientation::Portrait => &self.portrait,
        }
    }

    /// Pick a random video of the specified orientation.
    ///
    /// Returns None if no videos of that orientation are available.
    pub fn pick_random_for_orientation(&self, orientation: VideoOrientation) -> (r: Option<
        VideoInfo,
    >)
        ensures
            r is None <==> self.videos(orientation).len() == 0,
            r matches Some(v) ==> exists|i: int|
                0 <= i < self.videos(orientation).len() && v.same(
                    &#[trigger] self.videos(orientation)[i],
                ),
    {
        let videos = self.videos_of(orientation);
        let all = positions(videos.len());
        match choose_one(all.as_slice()) {
            Some(i) => {
                let v = videos[i].clone();
                proof {
                    assert(v.same(&self.videos(orientation)[i as int]));
                }
                Some(v)
            },
            None => None,
        }
    }

    /// Pick a random video of the specified orientation whose path is not in
    /// the exclusion list.
    ///
    /// If all videos of that orientation are excluded, falls back to picking
    /// any video of that orientation. Returns None if no videos of that
    /// orientation are available.
    pub fn pick_random_except_for_orientation(
        &self,
        orientation: VideoOrientation,
        exclude: &Vec<String>,
    ) -> (r: Option<VideoInfo>)
        ensures
            r is None <==> self.videos(orientation).len() == 0,
            r matches Some(v) ==> exists|i: int|
                0 <= i < self.videos(orientation).len() && v.same(
                    &#[trigger] self.videos(orientation)[i],
                ),
            r matches Some(v) ==> (!spec_excluded(v.path@, exclude@) || forall|i: int|
                0 <= i < self.videos(orientation).len() ==> spec_excluded(
                    (#[trigger] self.videos(orientation)[i]).path@,
                    exclude@,
                )),
    {
        let videos = self.videos_of(orientation);
        if videos.len() == 0 {
            return None;
        }
        let mut available: Vec<usize> = Vec::new();
        let mut i: usize = 0;
        while i < videos.len()
            invariant
                i <= videos@.len(),
                videos@ == self.videos(orientation),
                forall|k: int|
                    0 <= k < available@.len() ==> (#[trigger] available@[k]) < videos@.len()
                        && !spec_excluded(videos@[available@[k] as int].path@, exclude@),
                forall|j: int|
                    0 <= j < i && !spec_excluded(videos@[j].path@, exclude@) ==> available@.contains(
                        j as usize,
                    ),
            decreases videos@.len() - i,
        {
            let ghost prev = available@;
            let excluded = is_excluded(&videos[i].path, exclude);
            if !excluded {
                available.push(i);
            }
            proof {
                assert forall|j: int|
                    0 <= j < i + 1 && !spec_excluded(videos@[j].path@, exclude@) implies available@.contains(
                    j as usize,
                ) by {
                    if j < i {
                        let w = choose|w: int| 0 <= w < prev.len() && prev[w] == j as usize;
                        assert(available@[w] == j as usize);
                    } else {
                        assert(available@[available@.len() - 1] == i);
                    }
                }
            }
            i = i + 1;
        }
        if available.len() == 0 {
            proof {
                assert forall|j: int| 0 <= j < videos@.len() implies spec_excluded(
                    (#[trigger] videos@[j]).path@,
                    exclude@,
                ) by {
                    if !spec_excluded(videos@[j].path@, exclude@) {
                        assert(available@.contains(j as usize));
                    }
                }
            }
            let all = positions(videos.len());
            match choose_one(all.as_slice()) {
                Some(k) => {
                    let v = videos[k].clone();
                    proof {
                        assert(v.same(&self.videos(orientation)[k as int]));
                    }
                    Some(v)
                },
                None => None,
            }
        } else {
            match choose_one(available.as_slice()) {
                Some(k) => {
                    proof {
                        let p = choose|p: int| 0 <= p < available@.len() && available@[p] == k;
                        assert(available@[p] < videos@.len());
                    }
                    let v = videos[k].clone();
                    proof {
                        assert(v.same(&self.videos(orientation)[k as int]));
                    }
                    Some(v)
                },
                None => None,
            }
        }
    }
}

impl Default for ReadyVideos {
    fn default() -> (r: Self)
        ensures
            r.videos(VideoOrientation::Landscape) == Seq::<VideoInfo>::empty(),
            r.videos(VideoOrientation::Portrait) == Seq::<VideoInfo>::empty(),
    {
        ReadyVideos::new()
    }
}

/// The orientation that is not `o`.
pub open spec fn other_orientation(o: VideoOrientation) -> VideoOrientation {
    match o {
        VideoOrientation::Landscape => VideoOrientation::Portrait,
        VideoOrientation::Portrait => VideoOrientation::Landscape,
    }
}

/// `path` is, as a path, one of the paths in `exclude`.
pub open spec fn spec_excluded(path: Seq<char>, exclude: Seq<String>) -> bool {
    exists|k: int| 0 <= k < exclude.len() && spec_same_path((#[trigger] exclude[k])@, path)
}

/// Whether `path` is in the exclusion list.
fn is_excluded(path: &String, exclude: &Vec<String>) -> (r: bool)
    ensures
        r == spec_excluded(path@, exclude@),
{
    let mut k: usize = 0;
    while k < exclude.len()
        invariant
            k <= exclude@.len(),
            forall|j: int| 0 <= j < k ==> !spec_same_path((#[trigger] exclude@[j])@, path@),
        decreases exclude@.len() - k,
    {
        if same_path(exclude[k].as_str(), path.as_str()) {
            return true;
        }
        k = k + 1;
    }
    false
}

} // verus!
