//! Layout of the video grid.
use vstd::prelude::*;

verus! {

/// Video orientation category based on aspect ratio.
#[derive(Debug, Clone, Copy, PartialEq, Eq, Hash, Structural)]
pub enum VideoOrientation {
    /// Landscape videos (aspect ratio above 0.8, typically 16:9)
    Landscape,
    /// Portrait videos (aspect ratio at most 0.8, typically 9:16)
    Portrait,
}

/// Configuration for a video grid layout.
#[derive(Debug, Clone, Copy, PartialEq, Eq, Structural)]
pub struct GridConfig {
    /// Number of columns in the grid
    pub cols: u32,
    /// Number of rows in the grid
    pub rows: u32,
    /// Video orientation for this grid
    pub orientation: VideoOrientation,
}

/// All candidate grid configurations as (columns, rows): at most four videos
/// in all and at most three along either axis.
pub const CANDIDATE_GRIDS: [(u32, u32); 6] = [(1, 1), (2, 1), (1, 2), (2, 2), (3, 1), (1, 3)];

impl GridConfig {
    /// Create a new grid configuration.
    pub fn new(cols: u32, rows: u32, orientation: VideoOrientation) -> (r: Self)
        ensures
            r == (GridConfig { cols, rows, orientation }),
    {
        GridConfig { cols, rows, orientation }
    }

    /// Get the total number of slots in this grid.
    pub fn total_slots(&self) -> (r: u32)
        requires
            self.cols * self.rows <= u32::MAX,
        ensures
            r == self.cols * self.rows,
    {
        self.cols * self.rows
    }
}

impl Default for GridConfig {
    fn default() -> (r: Self)
        ensures
            r == (GridConfig { cols: 2, rows: 2, orientation: VideoOrientation::Landscape }),
    {
        GridConfig::new(2, 2, VideoOrientation::Landscape)
    }
}

/// What one poll for newly validated videos does.
#[derive(Debug, Clone, Copy, PartialEq, Eq, Structural)]
pub struct PollStep {
    /// Whether empty grid slots are filled again.
    pub refill: bool,
    /// The video count remembered for the next poll.
    pub last_count: usize,
    /// Whether polling stops.
    pub stop: bool,
}

/// One poll: empty slots are filled again when more videos are ready than at
/// the last poll, and polling stops once there are ready videos for every
/// slot of a grid that has slots.
pub fn poll_new_videos(current_count: usize, last_count: usize, grid_slots: usize) -> (r: PollStep)
    ensures
        r.refill == (current_count > last_count),
        r.last_count == if current_count > last_count {
            current_count
        } else {
            last_count
        },
        r.stop == (current_count >= grid_slots && grid_slots > 0),
{
    let refill = current_count > last_count;
    PollStep {
        refill,
        last_count: if refill {
            current_count
        } else {
            last_count
        },
        stop: current_count >= grid_slots && grid_slots > 0,
    }
}

} // verus!
