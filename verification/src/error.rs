//! Error kinds of the media pipeline and of the audio output.
use vstd::prelude::*;

use crate::text::{owned, push_text};

verus! {

/// What went wrong in a media operation.
#[derive(Clone, Copy, Debug, PartialEq, Eq, Structural)]
pub enum Error {
    /// The codec library failed or refused an operation.
    Codec,
    /// The input data is malformed or inconsistent.
    InvalidData,
    /// The format, codec or operation is not supported.
    UnsupportedFormat,
    /// Reading or writing failed.
    Io,
}

/// What went wrong while opening the audio output.
#[derive(Clone, Debug)]
pub enum AudioError {
    /// The host has no default output device.
    NoDevice,
    /// The device refused a query or a configuration; the device's own words.
    DeviceError(String),
    /// The output stream could not be built or started; the host's own words.
    StreamError(String),
}

impl AudioError {
    /// The text shown to the user for this error.
    pub open spec fn spec_message(&self) -> Seq<char> {
        match self {
            AudioError::NoDevice => "No audio output device found"@,
            AudioError::DeviceError(e) => "Audio device error: "@ + e@,
            AudioError::StreamError(e) => "Audio stream error: "@ + e@,
        }
    }

    /// The text shown to the user for this error.
    pub fn message(&self) -> (r: String)
        ensures
            r@ == self.spec_message(),
    {
        match self {
            AudioError::NoDevice => owned("No audio output device found"),
            AudioError::DeviceError(e) => {
                let mut r = owned("Audio device error: ");
                push_text(&mut r, e.as_str());
                r
            },
            AudioError::StreamError(e) => {
                let mut r = owned("Audio stream error: ");
                push_text(&mut r, e.as_str());
                r
            },
        }
    }
}

} // verus!
