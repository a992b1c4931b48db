//! The audio clock that drives audio/video synchronisation, and what the
//! audio callback does with one output buffer.
use vstd::prelude::*;

verus! {

/// Counts the interleaved samples the audio output has consumed; the
/// playback position is derived from it.
pub struct AudioStreamClock {
    samples_consumed: u64,
    sample_rate: u32,
    channels: u16,
}

impl AudioStreamClock {
    /// Samples consumed so far, interleaved (a stereo frame counts twice).
    pub closed spec fn consumed(&self) -> u64 {
        self.samples_consumed
    }

    /// The sample rate the clock was made with.
    pub closed spec fn rate(&self) -> u32 {
        self.sample_rate
    }

    /// The channel count the clock was made with.
    pub closed spec fn channel_count(&self) -> u16 {
        self.channels
    }

    /// Create a new audio clock with the given sample rate and channel count,
    /// at position zero.
    pub fn new(sample_rate: u32, channels: u16) -> (r: Self)
        ensures
            r.consumed() == 0,
            r.rate() == sample_rate,
            r.channel_count() == channels,
    {
        AudioStreamClock { samples_consumed: 0, sample_rate, channels }
    }

    /// Get the total number of samples consumed (raw count).
    pub fn samples_consumed(&self) -> (r: u64)
        ensures
            r == self.consumed(),
    {
        self.samples_consumed
    }

    /// Add to the consumed sample count, wrapping around at 2^64.
    pub fn add_samples(&mut self, count: u64)
        ensures
            final(self).consumed() == (old(self).consumed() + count) % 0x1_0000_0000_0000_0000,
            final(self).rate() == old(self).rate(),
            final(self).channel_count() == old(self).channel_count(),
    {
        self.samples_consumed = self.samples_consumed.wrapping_add(count);
    }

    /// Number of whole audio frames (one sample of every channel) consumed:
    /// the playback position in units of the sample rate.
    pub fn audio_frames(&self) -> (r: u64)
        requires
            self.channel_count() > 0,
        ensures
            r == self.consumed() / (self.channel_count() as u64),
    {
        self.samples_consumed / (self.channels as u64)
    }

    /// Get the sample rate.
    pub fn sample_rate(&self) -> (r: u32)
        ensures
            r == self.rate(),
    {
        self.sample_rate
    }

    /// Get the channel count.
    pub fn channels(&self) -> (r: u16)
        ensures
            r == self.channel_count(),
    {
        self.channels
    }
}

/// What the audio callback does with an output buffer.
#[derive(Clone, Copy, Debug, PartialEq, Eq, Structural)]
pub struct FillPlan {
    /// Samples taken from the ring buffer into the front of the output; the
    /// rest of the output is silence.
    pub read: usize,
    /// Whether the samples read are silenced rather than scaled by the volume.
    pub silence_read: bool,
    /// Samples by which the audio clock advances.
    pub clock_advance: u64,
    /// Whether the clock is told that the stream has finished.
    pub mark_finished: bool,
}

/// The plan of a single-video player's callback: nothing is read and the
/// clock stands still while paused; otherwise as many samples as both the
/// buffer and the ring hold are read, the clock advances by what was read,
/// and a closed, drained stream marks the clock finished.
pub open spec fn spec_player_fill(
    output_len: usize,
    available: usize,
    paused: bool,
    muted: bool,
    closed: bool,
) -> FillPlan {
    let to_read = if output_len < available {
        output_len
    } else {
        available
    };
    if paused {
        FillPlan { read: 0, silence_read: false, clock_advance: 0, mark_finished: false }
    } else if to_read > 0 {
        FillPlan { read: to_read, silence_read: muted, clock_advance: to_read as u64, mark_finished: false }
    } else {
        FillPlan { read: 0, silence_read: false, clock_advance: 0, mark_finished: closed }
    }
}

/// Plans one callback of a single-video player.
pub fn plan_player_fill(output_len: usize, available: usize, paused: bool, muted: bool, closed: bool) -> (r:
    FillPlan)
    ensures
        r == spec_player_fill(output_len, available, paused, muted, closed),
{
    if paused {
        return FillPlan { read: 0, silence_read: false, clock_advance: 0, mark_finished: false };
    }
    let to_read = if output_len < available {
        output_len
    } else {
        available
    };
    if to_read > 0 {
        FillPlan { read: to_read, silence_read: muted, clock_advance: to_read as u64, mark_finished: false }
    } else {
        FillPlan { read: 0, silence_read: false, clock_advance: 0, mark_finished: closed }
    }
}

/// Plans one callback of a grid player's stream: as many samples as both the
/// buffer and the ring hold are read, and the clock always advances by the
/// whole buffer, since real time passes whether or not samples were there.
pub fn plan_grid_fill(output_len: usize, available: usize) -> (r: FillPlan)
    ensures
        r.read == if output_len < available {
            output_len
        } else {
            available
        },
        !r.silence_read,
        r.clock_advance == output_len,
        !r.mark_finished,
{
    let to_read = if output_len < available {
        output_len
    } else {
        available
    };
    FillPlan { read: to_read, silence_read: false, clock_advance: output_len as u64, mark_finished: false }
}

/// A plan never reads more samples than the output holds or the ring has,
/// and while paused neither reads nor moves the clock.
pub proof fn lemma_player_fill_bounds(output_len: usize, available: usize, paused: bool, muted: bool, closed: bool)
    ensures
        spec_player_fill(output_len, available, paused, muted, closed).read <= output_len,
        spec_player_fill(output_len, available, paused, muted, closed).read <= available,
        spec_player_fill(output_len, available, paused, muted, closed).clock_advance
            == spec_player_fill(output_len, available, paused, muted, closed).read,
        paused ==> spec_player_fill(output_len, available, paused, muted, closed).read == 0
            && spec_player_fill(output_len, available, paused, muted, closed).clock_advance == 0,
{
}

/// While playing, a callback reads as many samples as both the output
/// buffer and the ring hold: it fills the buffer when the ring has enough,
/// and drains the ring otherwise.
pub proof fn lemma_player_fill_reads_all_it_can(
    output_len: usize,
    available: usize,
    muted: bool,
    closed: bool,
)
    ensures
        ({
            let plan = spec_player_fill(output_len, available, false, muted, closed);
            &&& plan.read == output_len || plan.read == available
            &&& available >= output_len ==> plan.read == output_len
            &&& available <= output_len ==> plan.read == available
        }),
{
}

/// The stream is marked finished only once playback is running, the
/// decoder has closed the stream and nothing is left to read; a callback
/// that still plays samples never marks it finished.
pub proof fn lemma_player_fill_finishes_only_when_drained(
    output_len: usize,
    available: usize,
    paused: bool,
    muted: bool,
    closed: bool,
)
    ensures
        spec_player_fill(output_len, available, paused, muted, closed).mark_finished ==> spec_player_fill(
            output_len,
            available,
            paused,
            muted,
            closed,
        ).read == 0 && closed && !paused,
        spec_player_fill(output_len, available, paused, muted, closed).mark_finished <==> (!paused
            && closed && (output_len == 0 || available == 0)),
{
}

/// Muting silences exactly the samples read; an unmuted stream, a paused
/// one, or a callback that reads nothing silences nothing.
pub proof fn lemma_player_fill_silence_only_when_muted(
    output_len: usize,
    available: usize,
    paused: bool,
    muted: bool,
    closed: bool,
)
    ensures
        spec_player_fill(output_len, available, paused, muted, closed).silence_read <==> (muted
            && spec_player_fill(output_len, available, paused, muted, closed).read > 0),
{
}

/// What is read and how the clock moves do not depend on muting or on
/// whether the stream was closed: muting only silences, closing only marks
/// the end.
pub proof fn lemma_player_fill_independent_of_mute_and_close(
    output_len: usize,
    available: usize,
    paused: bool,
    muted1: bool,
    closed1: bool,
    muted2: bool,
    closed2: bool,
)
    ensures
        spec_player_fill(output_len, available, paused, muted1, closed1).read == spec_player_fill(
            output_len,
            available,
            paused,
            muted2,
            closed2,
        ).read,
        spec_player_fill(output_len, available, paused, muted1, closed1).clock_advance
            == spec_player_fill(output_len, available, paused, muted2, closed2).clock_advance,
{
}

} // verus!
