//! The native codec context as the facade sees it: the fields it reads and
//! writes, held as plain values, and the handle of a context that has been
//! opened.

use crate::channel_layout::{ChannelLayout, ChannelOrder};
use crate::generation::Generation;
use libc::c_int;
use vstd::prelude::*;

verus! {

/// The fields of a native audio codec context that the facade touches.
///
/// A field that the context's generation does not have is carried along and
/// never read.
#[derive(Debug)]
pub struct Context {
    /// The generation of the native library that owns the context.
    pub generation: Generation,
    /// Samples per second; 0 while unset.
    pub sample_rate: c_int,
    /// Number of channels.
    pub channels: c_int,
    /// Code of the active sample format.
    pub sample_fmt: c_int,
    /// Code of the sample format the caller would like to get.
    pub request_sample_fmt: c_int,
    /// Frames processed so far.
    pub frame_number: c_int,
    /// Smallest meaningful chunk.
    pub block_align: c_int,
    /// Legacy channel layout, one bit per speaker position.
    pub channel_layout: u64,
    /// Legacy channel layout the caller would like to get.
    pub request_channel_layout: u64,
    /// Structured channel layout.
    pub ch_layout: ChannelLayout,
    /// Code of the service the stream provides.
    pub audio_service_type: c_int,
    /// Ceiling of the rate control, in bits per second.
    pub rc_max_rate: i64,
    /// Samples per channel in one frame; 0 where it varies.
    pub frame_size: c_int,
    /// Timecode of the first frame; -1 where there is none.
    pub timecode_frame_start: i64,
}

impl Context {
    /// A context as the native library hands it out before anything is
    /// configured: no sample format, no frame-start timecode, an unspecified
    /// layout without channels, and zero everywhere else.
    pub fn new(generation: Generation) -> (r: Context)
        ensures
            r.generation == generation,
            r.sample_rate == 0,
            r.channels == 0,
            r.sample_fmt == -1,
            r.request_sample_fmt == -1,
            r.frame_number == 0,
            r.block_align == 0,
            r.channel_layout == 0,
            r.request_channel_layout == 0,
            r.ch_layout@.order == ChannelOrder::Unspecified,
            r.ch_layout@.nb_channels == 0,
            r.ch_layout@.mask == 0,
            r.ch_layout@.map == Seq::<c_int>::empty(),
            r.audio_service_type == 0,
            r.rc_max_rate == 0,
            r.frame_size == 0,
            r.timecode_frame_start == -1,
    {
        Context {
            generation,
            sample_rate: 0,
            channels: 0,
            sample_fmt: -1,
            request_sample_fmt: -1,
            frame_number: 0,
            block_align: 0,
            channel_layout: 0,
            request_channel_layout: 0,
            ch_layout: ChannelLayout::unspecified(0),
            audio_service_type: 0,
            rc_max_rate: 0,
            frame_size: 0,
            timecode_frame_start: -1,
        }
    }
}

/// A codec context that has been opened. Whoever opened it closes it; the
/// facade only looks through it.
#[derive(Debug)]
pub struct Opened(pub Context);

} // verus!
