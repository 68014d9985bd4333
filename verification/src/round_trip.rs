//! What holds between the setters and the getters of the audio view.

use crate::audio::Audio;
use crate::channel_layout::{
    lemma_mask_determined_by_bits, lemma_truncated_is_stable, ChannelLayout, ChannelLayoutMask,
};
use crate::format::{lemma_sample_code_round_trip, Sample};
use vstd::prelude::*;

verus! {

/// Reading the sample format after setting it gives the format that was set,
/// whatever the context held before and whatever the format is.
pub proof fn lemma_format_round_trip(audio: Audio, value: Sample)
    ensures
        audio.with_format(value).read_format() == value,
{
    lemma_sample_code_round_trip(value);
}

/// Setting the active sample format twice leaves what the second call set.
pub proof fn lemma_format_last_write_wins(audio: Audio, first: Sample, second: Sample)
    ensures
        audio.with_format(first).with_format(second) == audio.with_format(second),
{
}

/// Requesting a sample format leaves the active format as it is.
pub proof fn lemma_request_format_keeps_format(audio: Audio, value: Sample)
    ensures
        audio.with_requested_format(value).read_format() == audio.read_format(),
{
}

/// Reading the legacy channel layout after setting it gives the flag set
/// that was set, provided every bit of that set names a flag: any flag set
/// `read` that holds what the getter reports is `value` itself.
pub proof fn lemma_channel_layout_round_trip(
    audio: Audio,
    value: ChannelLayoutMask,
    read: ChannelLayoutMask,
)
    requires
        value.recognized(),
        read.spec_bits() == audio.with_channel_layout(value.spec_bits()).read_channel_layout(),
    ensures
        read == value,
{
    lemma_mask_determined_by_bits(read, value);
}

/// One round trip through the legacy channel layout may lose the bits that
/// name no flag, and a second one loses nothing more: writing back what was
/// read, and reading again, gives what was read the first time. What is read
/// never holds a bit that was not written.
pub proof fn lemma_channel_layout_settles(audio: Audio, bits: u64)
    ensures
        ({
            let written = audio.with_channel_layout(bits);
            let read = written.read_channel_layout();
            &&& written.with_channel_layout(read).read_channel_layout() == read
            &&& read & bits == read
        }),
{
    lemma_truncated_is_stable(bits);
}

/// Requesting a legacy channel layout leaves the active layout as it is.
pub proof fn lemma_request_channel_layout_keeps_layout(audio: Audio, bits: u64)
    ensures
        audio.with_requested_channel_layout(bits).read_channel_layout()
            == audio.read_channel_layout(),
{
}

/// Reading the structured channel layout after setting it gives a layout
/// equal to the one that was set.
pub proof fn lemma_ch_layout_round_trip(audio: Audio, value: ChannelLayout)
    ensures
        audio.with_ch_layout(value).read_ch_layout() == value@,
{
}

/// However often the structured channel layout is set, the context holds
/// the layout of the last call and nothing of the earlier ones.
pub proof fn lemma_ch_layout_last_write_wins(
    audio: Audio,
    first: ChannelLayout,
    second: ChannelLayout,
)
    ensures
        audio.with_ch_layout(first).with_ch_layout(second) == audio.with_ch_layout(second),
{
}

/// The legacy mask and the structured layout are independent fields: setting
/// one leaves the other as it is.
pub proof fn lemma_layouts_are_independent(audio: Audio, bits: u64, value: ChannelLayout)
    ensures
        audio.with_channel_layout(bits).read_ch_layout() == audio.read_ch_layout(),
        audio.with_ch_layout(value).read_channel_layout() == audio.read_channel_layout(),
{
}

} // verus!
