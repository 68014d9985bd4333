use audio_decoder_context::audio::Audio;
use audio_decoder_context::audio_service::{AudioService, AUDIO_SERVICE_TYPE_NB};
use audio_decoder_context::context::{Context, Opened};
use audio_decoder_context::format::{
    Sample, Type, SAMPLE_FMT_DBLP, SAMPLE_FMT_NB, SAMPLE_FMT_NONE, SAMPLE_FMT_S16,
};
use audio_decoder_context::generation::Generation;
use audio_decoder_context::numeric::{i64_to_usize, int_to_u16, int_to_u32, int_to_usize};

fn audio(generation: Generation) -> Audio {
    Audio(Opened(Context::new(generation)))
}

#[test]
fn fresh_context_holds_the_defaults() {
    let mut a = audio(Generation::V4);
    assert_eq!(a.rate(), 0);
    assert_eq!(a.channels(), 0);
    assert_eq!(a.format(), Sample::Unset);
    assert_eq!(a.frames(), 0);
    assert_eq!(a.align(), 0);
    assert_eq!(a.channel_layout().bits(), 0);
    assert_eq!(a.audio_service(), AudioService::Main);
    assert_eq!(a.max_bit_rate(), 0);
    assert_eq!(a.frame_size(), 0);
    assert_eq!(a.frame_start(), None);
    assert_eq!(a.0 .0.request_sample_fmt, SAMPLE_FMT_NONE);
}

#[test]
fn rate_returns_what_setup_wrote() {
    for hz in [0, 1, 8000, 44100, 48000, 192000, i32::MAX] {
        let mut a = audio(Generation::V7_0);
        a.0 .0.sample_rate = hz;
        assert_eq!(a.rate(), hz as u32);
        assert_eq!(a.rate() as i64, hz as i64);
    }
}

#[test]
fn rate_of_a_negative_field_wraps() {
    let mut a = audio(Generation::V5_0);
    a.0 .0.sample_rate = -1;
    assert_eq!(a.rate(), u32::MAX);
    a.0 .0.sample_rate = i32::MIN;
    assert_eq!(a.rate(), 0x8000_0000);
}

#[test]
fn channels_keeps_sixteen_bits() {
    let mut a = audio(Generation::V5_1);
    a.0 .0.channels = 2;
    assert_eq!(a.channels(), 2);
    a.0 .0.channels = 65535;
    assert_eq!(a.channels(), 65535);
    a.0 .0.channels = 65536 + 6;
    assert_eq!(a.channels(), 6);
    a.0 .0.channels = -1;
    assert_eq!(a.channels(), 65535);
}

#[test]
fn frames_align_and_frame_size_read_their_fields() {
    let mut a = audio(Generation::V4);
    a.0 .0.frame_number = 1234;
    a.0 .0.block_align = 4;
    a.0 .0.frame_size = 1024;
    assert_eq!(a.frames(), 1234);
    assert_eq!(a.align(), 4);
    assert_eq!(a.frame_size(), 1024);
    a.0 .0.block_align = -1;
    assert_eq!(a.align(), usize::MAX);
    a.0 .0.frame_size = -2;
    assert_eq!(a.frame_size(), u32::MAX - 1);
}

#[test]
fn max_bit_rate_reads_the_ceiling() {
    let mut a = audio(Generation::V7_0);
    a.0 .0.rc_max_rate = 320_000;
    assert_eq!(a.max_bit_rate(), 320_000);
    a.0 .0.rc_max_rate = -1;
    assert_eq!(a.max_bit_rate(), usize::MAX);
}

#[test]
fn frame_start_absent_on_the_sentinel() {
    let mut a = audio(Generation::V4);
    a.0 .0.timecode_frame_start = -1;
    assert_eq!(a.frame_start(), None);
}

#[test]
fn frame_start_present_otherwise() {
    let mut a = audio(Generation::V4);
    for n in [0i64, 1, 25, 90_000, i32::MAX as i64] {
        a.0 .0.timecode_frame_start = n;
        assert_eq!(a.frame_start(), Some(n as usize));
    }
    a.0 .0.timecode_frame_start = -2;
    assert_eq!(a.frame_start(), Some(usize::MAX - 1));
}

#[test]
fn format_round_trips_for_every_format() {
    let kinds = [Type::Packed, Type::Planar];
    let mut all = vec![Sample::Unset];
    for t in kinds {
        all.push(Sample::U8(t));
        all.push(Sample::I16(t));
        all.push(Sample::I32(t));
        all.push(Sample::I64(t));
        all.push(Sample::F32(t));
        all.push(Sample::F64(t));
    }
    assert_eq!(all.len(), 13);
    for s in all {
        let mut a = audio(Generation::V7_0);
        a.set_format(s);
        assert_eq!(a.format(), s);
        assert_eq!(a.0 .0.sample_fmt, s.code());
        assert_eq!(Sample::from_code(s.code()), s);
    }
}

#[test]
fn format_codes_are_the_native_ones() {
    assert_eq!(Sample::Unset.code(), -1);
    assert_eq!(Sample::U8(Type::Packed).code(), 0);
    assert_eq!(Sample::I16(Type::Packed).code(), SAMPLE_FMT_S16);
    assert_eq!(Sample::I32(Type::Packed).code(), 2);
    assert_eq!(Sample::F32(Type::Packed).code(), 3);
    assert_eq!(Sample::F64(Type::Packed).code(), 4);
    assert_eq!(Sample::U8(Type::Planar).code(), 5);
    assert_eq!(Sample::I16(Type::Planar).code(), 6);
    assert_eq!(Sample::I32(Type::Planar).code(), 7);
    assert_eq!(Sample::F32(Type::Planar).code(), 8);
    assert_eq!(Sample::F64(Type::Planar).code(), SAMPLE_FMT_DBLP);
    assert_eq!(Sample::I64(Type::Packed).code(), 10);
    assert_eq!(Sample::I64(Type::Planar).code(), 11);
    assert_eq!(Sample::from_code(SAMPLE_FMT_NB), Sample::Unset);
    assert_eq!(Sample::from_code(77), Sample::Unset);
    assert_eq!(Sample::from_code(-9), Sample::Unset);
    assert!(Sample::F32(Type::Planar).is_planar());
    assert!(!Sample::F32(Type::Packed).is_planar());
    assert!(!Sample::Unset.is_planar());
}

#[test]
fn request_format_writes_only_the_hint() {
    let mut a = audio(Generation::V5_1);
    a.set_format(Sample::F32(Type::Planar));
    a.request_format(Sample::I16(Type::Packed));
    assert_eq!(a.0 .0.request_sample_fmt, 1);
    assert_eq!(a.format(), Sample::F32(Type::Planar));
    assert_eq!(a.0 .0.sample_fmt, 8);
}

#[test]
fn audio_service_reads_every_code() {
    let expected = [
        AudioService::Main,
        AudioService::Effects,
        AudioService::VisuallyImpaired,
        AudioService::HearingImpaired,
        AudioService::Dialogue,
        AudioService::Commentary,
        AudioService::Emergency,
        AudioService::VoiceOver,
        AudioService::Karaoke,
    ];
    let mut a = audio(Generation::V7_0);
    for (code, service) in expected.iter().enumerate() {
        a.0 .0.audio_service_type = code as i32;
        assert_eq!(a.audio_service(), *service);
        assert_eq!(service.code(), code as i32);
        assert_eq!(a.0 .0.audio_service_type, code as i32);
    }
    a.0 .0.audio_service_type = AUDIO_SERVICE_TYPE_NB;
    assert_eq!(a.audio_service(), AudioService::Main);
    a.0 .0.audio_service_type = -3;
    assert_eq!(a.audio_service(), AudioService::Main);
}

#[test]
fn numeric_conversions_keep_the_low_bits() {
    assert_eq!(int_to_u16(0), 0);
    assert_eq!(int_to_u16(65535), 65535);
    assert_eq!(int_to_u16(65536), 0);
    assert_eq!(int_to_u16(-1), 65535);
    assert_eq!(int_to_u16(i32::MIN), 0);
    assert_eq!(int_to_u16(i32::MAX), 65535);
    assert_eq!(int_to_u32(0), 0);
    assert_eq!(int_to_u32(i32::MAX), 2147483647);
    assert_eq!(int_to_u32(-1), 4294967295);
    assert_eq!(int_to_u32(i32::MIN), 2147483648);
    assert_eq!(int_to_usize(7), 7);
    assert_eq!(int_to_usize(-1), usize::MAX);
    assert_eq!(int_to_usize(i32::MIN), (i32::MIN as i64) as usize);
    assert_eq!(i64_to_usize(0), 0);
    assert_eq!(i64_to_usize(i64::MAX), i64::MAX as usize);
    assert_eq!(i64_to_usize(i64::MIN), i64::MIN as usize);
    assert_eq!(i64_to_usize(-1), usize::MAX);
    assert_eq!(i64_to_usize(0x1_0000_0005), 0x1_0000_0005i64 as usize);
}

#[test]
fn generations_expose_what_they_have() {
    let table = [
        (Generation::V4, true, true, true, false),
        (Generation::V5_0, false, false, true, false),
        (Generation::V5_1, false, false, true, true),
        (Generation::V7_0, false, false, false, true),
    ];
    for (g, decode, start, legacy, structured) in table {
        assert_eq!(g.supports_single_call_decode(), decode);
        assert_eq!(g.supports_frame_start(), start);
        assert_eq!(g.supports_legacy_layout(), legacy);
        assert_eq!(g.supports_structured_layout(), structured);
    }
}

#[test]
fn views_reach_the_context_behind() {
    let mut a = audio(Generation::V7_0);
    {
        let opened: &mut Opened = &mut a;
        opened.0.sample_rate = 22050;
    }
    assert_eq!(a.rate(), 22050);
    {
        let ctx: &mut Context = a.as_mut();
        ctx.frame_size = 960;
    }
    assert_eq!(a.frame_size(), 960);
    let ctx: &Context = a.as_ref();
    assert_eq!(ctx.sample_rate, 22050);
    let opened: &Opened = &a;
    assert_eq!(opened.0.frame_size, 960);
    assert_eq!(a.0 .0.generation, Generation::V7_0);
}
