//! Decisions of the decode and encode loops: which decoded frames are kept,
//! when a scaler or resampler is rebuilt, and what each status reported by
//! the codec library leads to.
use vstd::prelude::*;

use crate::error::Error;
use crate::format::{ChannelLayout, PixelFormat, SampleFormat};
use crate::stream::DecodedVideoFrame;

verus! {

/// Pixel format code and size of a decoded frame, as a scaler sees them.
#[derive(Clone, Copy, Debug, PartialEq, Eq, Structural)]
pub struct FrameShape {
    pub format: i32,
    pub width: u32,
    pub height: u32,
}

/// What to do with a decoded frame before converting it for display.
#[derive(Clone, Copy, Debug, PartialEq, Eq, Structural)]
pub enum ScalerAction {
    /// Drop the frame.
    Skip,
    /// Convert it with the scaler already built.
    Reuse,
    /// Build a scaler for this frame's shape producing `width` x `height`.
    Rebuild { width: u32, height: u32 },
}

/// The decision for one decoded frame. With `validate`, frames of zero size
/// or of a pixel format the scaler does not know are dropped, and so are
/// frames whose output size would be zero. A scaler is built when there is
/// none yet or the frame's shape differs from the one it was built for; its
/// output size is the target size where one is given, else the frame's size.
pub open spec fn spec_scaler_action(
    current: Option<FrameShape>,
    frame: FrameShape,
    known_format: bool,
    target_width: Option<u32>,
    target_height: Option<u32>,
    validate: bool,
) -> ScalerAction {
    let dst_w = match target_width {
        Some(w) => w,
        None => frame.width,
    };
    let dst_h = match target_height {
        Some(h) => h,
        None => frame.height,
    };
    if validate && (frame.width == 0 || frame.height == 0 || !known_format) {
        ScalerAction::Skip
    } else if current == Some(frame) {
        ScalerAction::Reuse
    } else if validate && (dst_w == 0 || dst_h == 0) {
        ScalerAction::Skip
    } else {
        ScalerAction::Rebuild { width: dst_w, height: dst_h }
    }
}

/// Decides what happens to a decoded frame on its way to the display.
pub fn scaler_action(
    current: Option<FrameShape>,
    frame: FrameShape,
    known_format: bool,
    target_width: Option<u32>,
    target_height: Option<u32>,
    validate: bool,
) -> (r: ScalerAction)
    ensures
        r == spec_scaler_action(current, frame, known_format, target_width, target_height, validate),
{
    if validate && (frame.width == 0 || frame.height == 0 || !known_format) {
        return ScalerAction::Skip;
    }
    let needs_new = match current {
        None => true,
        Some(c) => c.format != frame.format || c.width != frame.width || c.height != frame.height,
    };
    if !needs_new {
        return ScalerAction::Reuse;
    }
    let dst_w = match target_width {
        Some(w) => w,
        None => frame.width,
    };
    let dst_h = match target_height {
        Some(h) => h,
        None => frame.height,
    };
    if validate && (dst_w == 0 || dst_h == 0) {
        return ScalerAction::Skip;
    }
    ScalerAction::Rebuild { width: dst_w, height: dst_h }
}

/// The input a video converter's scaler was built for.
#[derive(Clone, Copy, Debug, PartialEq, Eq, Structural)]
pub struct ScalerInput {
    pub width: u32,
    pub height: u32,
    pub format: PixelFormat,
}

/// Checks a video frame before conversion: it must have a size and data.
pub fn check_video_transform_input(frame: &DecodedVideoFrame) -> (r: Result<(), Error>)
    ensures
        r is Ok <==> (frame.width != 0 && frame.height != 0 && frame.data@.len() != 0),
        r matches Err(e) ==> e is InvalidData,
{
    if frame.width == 0 || frame.height == 0 {
        return Err(Error::InvalidData);
    }
    if frame.data.len() == 0 {
        return Err(Error::InvalidData);
    }
    Ok(())
}

/// Whether the video converter's scaler must be (re)built for `frame`.
pub fn scaler_needs_init(current: Option<ScalerInput>, frame: &DecodedVideoFrame) -> (r: bool)
    ensures
        r == match current {
            None => true,
            Some(c) => c.width != frame.width || c.height != frame.height || c.format
                != frame.format,
        },
{
    match current {
        None => true,
        Some(c) => c.width != frame.width || c.height != frame.height || c.format != frame.format,
    }
}

/// Checks a frame coming out of the video decoder: it must have a size and a
/// pixel format the pipeline knows.
pub fn check_decoded_video(width: u32, height: u32, format: Option<PixelFormat>) -> (r: Result<
    PixelFormat,
    Error,
>)
    ensures
        (width == 0 || height == 0) ==> r == Err::<PixelFormat, Error>(Error::InvalidData),
        width != 0 && height != 0 && format is None ==> r == Err::<PixelFormat, Error>(
            Error::UnsupportedFormat,
        ),
        width != 0 && height != 0 && format is Some ==> r == Ok::<PixelFormat, Error>(
            format.unwrap(),
        ),
{
    if width == 0 || height == 0 {
        return Err(Error::InvalidData);
    }
    match format {
        Some(f) => Ok(f),
        None => Err(Error::UnsupportedFormat),
    }
}

/// Checks a frame coming out of the audio decoder: it must hold samples and
/// data planes in a sample format the pipeline knows; its layout is the one
/// chosen for its channel count.
pub fn check_decoded_audio(
    samples: usize,
    planes: usize,
    format: Option<SampleFormat>,
    channel_count: u16,
) -> (r: Result<(SampleFormat, ChannelLayout), Error>)
    ensures
        samples == 0 ==> r == Err::<(SampleFormat, ChannelLayout), Error>(Error::InvalidData),
        samples != 0 && planes == 0 ==> r == Err::<(SampleFormat, ChannelLayout), Error>(
            Error::InvalidData,
        ),
        samples != 0 && planes != 0 && format is None ==> r == Err::<
            (SampleFormat, ChannelLayout),
            Error,
        >(Error::UnsupportedFormat),
        samples != 0 && planes != 0 && format is Some ==> r == Ok::<
            (SampleFormat, ChannelLayout),
            Error,
        >((format.unwrap(), ChannelLayout::spec_from_count(channel_count))),
{
    if samples == 0 {
        return Err(Error::InvalidData);
    }
    if planes == 0 {
        return Err(Error::InvalidData);
    }
    match format {
        Some(f) => Ok((f, ChannelLayout::from_count(channel_count))),
        None => Err(Error::UnsupportedFormat),
    }
}

/// What the codec library reported for a send or receive call.
#[derive(Clone, Copy, Debug, PartialEq, Eq, Structural)]
pub enum CodecStatus {
    /// The call succeeded.
    Done,
    /// Try again later: output must be drained first, or more input is needed.
    Again,
    /// End of stream.
    Eof,
    /// Any other failure.
    Failed,
}

/// What a decoder does after sending a packet.
#[derive(Clone, Copy, Debug, PartialEq, Eq, Structural)]
pub enum SendAction {
    /// Receive every frame now available.
    ReceiveAll,
    /// The decoder is full: drain its frames, then send the packet again.
    DrainThenRetry,
    /// Report a codec error.
    Fail,
}

/// After the first attempt to send a packet.
pub fn after_send(status: CodecStatus) -> (r: SendAction)
    ensures
        status == CodecStatus::Done ==> r == SendAction::ReceiveAll,
        status == CodecStatus::Again ==> r == SendAction::DrainThenRetry,
        (status == CodecStatus::Eof || status == CodecStatus::Failed) ==> r == SendAction::Fail,
{
    match status {
        CodecStatus::Done => SendAction::ReceiveAll,
        CodecStatus::Again => SendAction::DrainThenRetry,
        _ => SendAction::Fail,
    }
}

/// What a decoder does after sending a packet again, with drained frames in hand.
#[derive(Clone, Copy, Debug, PartialEq, Eq, Structural)]
pub enum RetryAction {
    /// Receive the frames now available and add them to the drained ones.
    ReceiveMore,
    /// The decoder is still full: return the drained frames; the packet is lost.
    ReturnDrained,
    /// Report a codec error.
    Fail,
}

/// After the second attempt to send a packet.
pub fn after_retry(status: CodecStatus) -> (r: RetryAction)
    ensures
        status == CodecStatus::Done ==> r == RetryAction::ReceiveMore,
        status == CodecStatus::Again ==> r == RetryAction::ReturnDrained,
        (status == CodecStatus::Eof || status == CodecStatus::Failed) ==> r == RetryAction::Fail,
{
    match status {
        CodecStatus::Done => RetryAction::ReceiveMore,
        CodecStatus::Again => RetryAction::ReturnDrained,
        _ => RetryAction::Fail,
    }
}

/// What a decoder does after signalling the end of the stream.
#[derive(Clone, Copy, Debug, PartialEq, Eq, Structural)]
pub enum FlushAction {
    /// Receive the remaining frames.
    ReceiveRest,
    /// Drain frames, signal the end again (ignoring its outcome), then
    /// receive the remaining frames.
    DrainThenRetry,
    /// Report a codec error.
    Fail,
}

/// After the first end-of-stream signal; an end already signalled is fine.
pub fn after_flush_signal(status: CodecStatus) -> (r: FlushAction)
    ensures
        (status == CodecStatus::Done || status == CodecStatus::Eof) ==> r == FlushAction::ReceiveRest,
        status == CodecStatus::Again ==> r == FlushAction::DrainThenRetry,
        status == CodecStatus::Failed ==> r == FlushAction::Fail,
{
    match status {
        CodecStatus::Done | CodecStatus::Eof => FlushAction::ReceiveRest,
        CodecStatus::Again => FlushAction::DrainThenRetry,
        CodecStatus::Failed => FlushAction::Fail,
    }
}

/// What a receive loop does with one result of the codec library.
#[derive(Clone, Copy, Debug, PartialEq, Eq, Structural)]
pub enum ReceiveAction {
    /// Convert the received output and keep receiving.
    Convert,
    /// Stop and return what was collected.
    Stop,
    /// Stop and report a codec error.
    Fail,
}

/// One step of a receive loop. A failure is reported, except that a video
/// decoder (`lenient`) that already collected frames returns those instead.
pub fn after_receive(status: CodecStatus, collected: usize, lenient: bool) -> (r: ReceiveAction)
    ensures
        status == CodecStatus::Done ==> r == ReceiveAction::Convert,
        (status == CodecStatus::Again || status == CodecStatus::Eof) ==> r == ReceiveAction::Stop,
        status == CodecStatus::Failed ==> r == if lenient && collected > 0 {
            ReceiveAction::Stop
        } else {
            ReceiveAction::Fail
        },
{
    match status {
        CodecStatus::Done => ReceiveAction::Convert,
        CodecStatus::Again | CodecStatus::Eof => ReceiveAction::Stop,
        CodecStatus::Failed => if lenient && collected > 0 {
            ReceiveAction::Stop
        } else {
            ReceiveAction::Fail
        },
    }
}

/// The scaler is rebuilt exactly when there is none or the frame's shape
/// differs from the one it was built for (unless the frame is dropped); a
/// rebuilt scaler produces the target size where one is given and the
/// frame's own size otherwise; with validation no frame of zero size or
/// unknown format, and no zero output size, gets through.
pub proof fn lemma_scaler_action_law(
    current: Option<FrameShape>,
    frame: FrameShape,
    known_format: bool,
    target_width: Option<u32>,
    target_height: Option<u32>,
    validate: bool,
)
    ensures
        ({
            let r = spec_scaler_action(
                current,
                frame,
                known_format,
                target_width,
                target_height,
                validate,
            );
            &&& r == ScalerAction::Reuse ==> current == Some(frame)
            &&& current == Some(frame) ==> r == ScalerAction::Reuse || r == ScalerAction::Skip
            &&& !validate ==> r != ScalerAction::Skip
            &&& validate && (frame.width == 0 || frame.height == 0 || !known_format) ==> r
                == ScalerAction::Skip
            &&& r matches ScalerAction::Rebuild { width, height } ==> {
                &&& current != Some(frame)
                &&& width == (match target_width {
                    Some(w) => w,
                    None => frame.width,
                })
                &&& height == (match target_height {
                    Some(h) => h,
                    None => frame.height,
                })
                &&& validate ==> width > 0 && height > 0
            }
            &&& current != Some(frame) && r != ScalerAction::Skip ==> r is Rebuild
        }),
{
}

} // verus!
