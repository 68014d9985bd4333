//! The audio view of an opened codec context.

use crate::audio_service::{service_of, AudioService};
use crate::channel_layout::{truncated, ChannelLayout, ChannelLayoutMask, ChannelLayoutView};
use crate::context::{Context, Opened};
use crate::error::Error;
use crate::format::{code_of, sample_of, Sample};
use crate::numeric::{
    i64_to_usize, int_to_u16, int_to_u32, int_to_usize, wrap_u16, wrap_u32, wrap_usize,
};
use libc::c_int;
use vstd::prelude::*;

verus! {

/// An opened codec context, seen as an audio decoder.
#[derive(Debug)]
pub struct Audio(pub Opened);

/// What the frame-start field stands for: -1 means that there is no
/// timecode, anything else is the timecode.
pub open spec fn frame_start_of(raw: i64) -> Option<usize> {
    if raw == -1 {
        None
    } else {
        Some(wrap_usize(raw as int) as usize)
    }
}

/// What a single-call decode reports, given the status and the "got frame"
/// flag that the native call returned.
pub open spec fn decode_outcome(status: c_int, got: c_int) -> Result<bool, Error> {
    if status < 0 {
        Err(Error { code: status })
    } else {
        Ok(got != 0)
    }
}

impl Audio {
    /// The native context behind the view.
    pub open spec fn native(self) -> Context {
        self.0.0
    }

    /// The view of the same handle with another native context behind it.
    pub open spec fn over(native: Context) -> Audio {
        Audio(Opened(native))
    }

    /// The sample format that the context holds.
    pub open spec fn read_format(self) -> Sample {
        sample_of(self.native().sample_fmt as int)
    }

    /// The view after `value` was written as the sample format.
    pub open spec fn with_format(self, value: Sample) -> Audio {
        Audio::over(Context { sample_fmt: code_of(value) as c_int, ..self.native() })
    }

    /// The view after `value` was written as the requested sample format.
    pub open spec fn with_requested_format(self, value: Sample) -> Audio {
        Audio::over(Context { request_sample_fmt: code_of(value) as c_int, ..self.native() })
    }

    /// The legacy flag set that the context holds, unknown bits dropped.
    pub open spec fn read_channel_layout(self) -> u64 {
        truncated(self.native().channel_layout)
    }

    /// The view after the bit pattern `bits` was written as the legacy
    /// layout.
    pub open spec fn with_channel_layout(self, bits: u64) -> Audio {
        Audio::over(Context { channel_layout: bits, ..self.native() })
    }

    /// The view after the bit pattern `bits` was written as the requested
    /// legacy layout.
    pub open spec fn with_requested_channel_layout(self, bits: u64) -> Audio {
        Audio::over(Context { request_channel_layout: bits, ..self.native() })
    }

    /// The structured layout that the context holds.
    pub open spec fn read_ch_layout(self) -> ChannelLayoutView {
        self.native().ch_layout@
    }

    /// The view after `value` was moved into the context as its structured
    /// layout.
    pub open spec fn with_ch_layout(self, value: ChannelLayout) -> Audio {
        Audio::over(Context { ch_layout: value, ..self.native() })
    }

    /// Reports the outcome of one single-call decode: `status` and `got` are
    /// what the native entry point returned for the packet. A negative
    /// status is handed on as the error that carries it; otherwise the
    /// result tells whether a whole frame was produced. The output frame may
    /// be read only after `Ok(true)`. The context is left as it is.
    pub fn decode(&mut self, status: c_int, got: c_int) -> (r: Result<bool, Error>)
        requires
            old(self).native().generation.has_single_call_decode(),
        ensures
            r == decode_outcome(status, got),
            *final(self) == *old(self),
    {
        if status < 0 {
            Err(Error::from(status))
        } else {
            Ok(got != 0)
        }
    }

    /// The sample rate in Hz, 0 while unset. A non-negative native value is
    /// returned as it is.
    pub fn rate(&self) -> (r: u32)
        ensures
            r as int == wrap_u32(self.native().sample_rate as int),
            self.native().sample_rate >= 0 ==> r as int == self.native().sample_rate as int,
    {
        int_to_u32(self.0.0.sample_rate)
    }

    /// The number of channels.
    pub fn channels(&self) -> (r: u16)
        requires
            self.native().generation.has_legacy_layout(),
        ensures
            r as int == wrap_u16(self.native().channels as int),
            0 <= self.native().channels <= u16::MAX ==> r as int == self.native().channels as int,
    {
        int_to_u16(self.0.0.channels)
    }

    /// The active sample format.
    pub fn format(&self) -> (r: Sample)
        ensures
            r == self.read_format(),
    {
        Sample::from_code(self.0.0.sample_fmt)
    }

    /// Sets the active sample format. Nothing is checked.
    pub fn set_format(&mut self, value: Sample)
        ensures
            *final(self) == old(self).with_format(value),
    {
        self.0.0.sample_fmt = value.code();
    }

    /// Sets the sample format the caller would like to get; the active
    /// format stays.
    pub fn request_format(&mut self, value: Sample)
        ensures
            *final(self) == old(self).with_requested_format(value),
    {
        self.0.0.request_sample_fmt = value.code();
    }

    /// The number of frames processed so far.
    pub fn frames(&self) -> (r: usize)
        requires
            self.native().generation.has_legacy_layout(),
        ensures
            r as int == wrap_usize(self.native().frame_number as int),
            self.native().frame_number >= 0 ==> r as int == self.native().frame_number as int,
    {
        int_to_usize(self.0.0.frame_number)
    }

    /// The smallest meaningful chunk.
    pub fn align(&self) -> (r: usize)
        ensures
            r as int == wrap_usize(self.native().block_align as int),
            self.native().block_align >= 0 ==> r as int == self.native().block_align as int,
    {
        int_to_usize(self.0.0.block_align)
    }

    /// The legacy channel layout. Bits of the native field that name no flag
    /// are dropped without notice.
    pub fn channel_layout(&self) -> (r: ChannelLayoutMask)
        requires
            self.native().generation.has_legacy_layout(),
        ensures
            r.spec_bits() == self.read_channel_layout(),
            r.recognized(),
    {
        ChannelLayoutMask::from_bits_truncate(self.0.0.channel_layout)
    }

    /// Sets the legacy channel layout to the bit pattern of `value`, as it
    /// is.
    pub fn set_channel_layout(&mut self, value: ChannelLayoutMask)
        requires
            old(self).native().generation.has_legacy_layout(),
        ensures
            *final(self) == old(self).with_channel_layout(value.spec_bits()),
    {
        self.0.0.channel_layout = value.bits();
    }

    /// Sets the legacy channel layout the caller would like to get; the
    /// active layout stays.
    pub fn request_channel_layout(&mut self, value: ChannelLayoutMask)
        requires
            old(self).native().generation.has_legacy_layout(),
        ensures
            *final(self) == old(self).with_requested_channel_layout(value.spec_bits()),
    {
        self.0.0.request_channel_layout = value.bits();
    }

    /// An independently owned copy of the structured channel layout.
    pub fn ch_layout(&self) -> (r: ChannelLayout)
        requires
            self.native().generation.has_structured_layout(),
        ensures
            r@ == self.read_ch_layout(),
    {
        self.0.0.ch_layout.duplicate()
    }

    /// Moves `value` into the context as its structured channel layout; the
    /// layout that was there is released.
    pub fn set_ch_layout(&mut self, value: ChannelLayout)
        requires
            old(self).native().generation.has_structured_layout(),
        ensures
            *final(self) == old(self).with_ch_layout(value),
    {
        self.0.0.ch_layout = value;
    }

    /// The service the stream provides. The context is left as it is.
    pub fn audio_service(&mut self) -> (r: AudioService)
        ensures
            r == service_of(old(self).native().audio_service_type as int),
            *final(self) == *old(self),
    {
        AudioService::from_code(self.0.0.audio_service_type)
    }

    /// The ceiling of the rate control.
    pub fn max_bit_rate(&self) -> (r: usize)
        ensures
            r as int == wrap_usize(self.native().rc_max_rate as int),
            0 <= self.native().rc_max_rate <= usize::MAX ==> r as int
                == self.native().rc_max_rate as int,
    {
        i64_to_usize(self.0.0.rc_max_rate)
    }

    /// The number of samples per channel in one frame; 0 where it varies.
    pub fn frame_size(&self) -> (r: u32)
        ensures
            r as int == wrap_u32(self.native().frame_size as int),
            self.native().frame_size >= 0 ==> r as int == self.native().frame_size as int,
    {
        int_to_u32(self.0.0.frame_size)
    }

    /// The timecode of the first frame: `None` where the native field holds
    /// -1, else the field's value. A value from 0 to `usize::MAX` comes back
    /// unchanged; any other keeps the low bits that fit.
    pub fn frame_start(&self) -> (r: Option<usize>)
        requires
            self.native().generation.has_frame_start(),
        ensures
            r == frame_start_of(self.native().timecode_frame_start),
            self.native().timecode_frame_start == -1 <==> r.is_none(),
            0 <= self.native().timecode_frame_start <= usize::MAX ==> r == Some(
                self.native().timecode_frame_start as usize,
            ),
    {
        let raw: i64 = self.0.0.timecode_frame_start;
        if raw == -1 {
            None
        } else {
            Some(i64_to_usize(raw))
        }
    }
}

impl std::ops::Deref for Audio {
    type Target = Opened;

    /// The opened context behind the view.
    fn deref(&self) -> (r: &Opened)
        ensures
            *r == self.0,
    {
        &self.0
    }
}

impl std::ops::DerefMut for Audio {
    /// The opened context behind the view, to be changed in place.
    fn deref_mut(&mut self) -> (r: &mut Opened)
        ensures
            *r == old(self).0,
            *final(self) == Audio(*final(r)),
    {
        &mut self.0
    }
}

impl AsRef<Context> for Audio {
    /// The codec context behind the view.
    fn as_ref(&self) -> (r: &Context)
        ensures
            *r == self.native(),
    {
        &self.0.0
    }
}

impl AsMut<Context> for Audio {
    /// The codec context behind the view, to be changed in place.
    fn as_mut(&mut self) -> (r: &mut Context)
        ensures
            *r == old(self).native(),
            *final(self) == Audio::over(*final(r)),
    {
        &mut self.0.0
    }
}

} // verus!
