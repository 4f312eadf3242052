use stream_view::aspect::{reduce, REDUCE_BOUND};
use stream_view::desc::{Context, Dictionary, Parameters, StreamDesc};
use stream_view::discard::Discard;
use stream_view::disposition::{
    Disposition, DISPOSITION_ATTACHED_PIC, DISPOSITION_DEFAULT, DISPOSITION_DUB,
    DISPOSITION_FORCED, DISPOSITION_ORIGINAL,
};
use stream_view::rational::Rational;
use stream_view::stream::Stream;

fn video_desc(sar: Rational, width: i32, height: i32) -> StreamDesc {
    StreamDesc {
        id: 1,
        index: 0,
        time_base: Rational::new(1, 25),
        start_time: 0,
        duration: 0,
        frames: 0,
        disposition: 0,
        discard: 0,
        sample_aspect_ratio: sar,
        r_frame_rate: Rational::new(25, 1),
        avg_frame_rate: Rational::new(25, 1),
        codecpar: Parameters { width, height },
        side_data: Vec::new(),
        metadata: Dictionary { entries: Vec::new() },
    }
}

#[test]
fn display_aspect_ratio_is_reduced_exactly() {
    let ctx = Context { streams: vec![video_desc(Rational::new(1, 1), 1920, 1080)] };
    let v = Stream::wrap(&ctx, 0);
    let (ratio, w, h) = v.get_display_aspect_ratio();
    assert_eq!(ratio, Rational::new(16, 9));
    assert_eq!(w, 1920);
    assert_eq!(h, 1080);
}

#[test]
fn anamorphic_sample_ratio_scales_the_display_ratio() {
    // 720x576 with a 16/15 sample aspect ratio shows as 4/3
    let ctx = Context { streams: vec![video_desc(Rational::new(16, 15), 720, 576)] };
    let v = Stream::wrap(&ctx, 0);
    let (ratio, w, h) = v.get_display_aspect_ratio();
    assert_eq!(ratio, Rational::new(4, 3));
    assert_eq!(w, 720);
    assert_eq!(h, 576);
}

#[test]
fn zero_sample_ratio_gives_a_zero_display_ratio() {
    let ctx = Context { streams: vec![video_desc(Rational::new(0, 1), 1920, 1080)] };
    let v = Stream::wrap(&ctx, 0);
    let (ratio, _, _) = v.get_display_aspect_ratio();
    assert_eq!(ratio.num, 0);
    assert_eq!(ratio.den, 1);
}

#[test]
fn negative_dimensions_pass_through() {
    let ctx = Context { streams: vec![video_desc(Rational::new(1, 1), -1920, 1080)] };
    let v = Stream::wrap(&ctx, 0);
    let (ratio, w, h) = v.get_display_aspect_ratio();
    assert_eq!(w, -1920);
    assert_eq!(h, 1080);
    assert_eq!(ratio, Rational::new(-16, 9));
}

#[test]
fn reduction_degrades_gracefully_at_the_bound() {
    // a sample aspect ratio with a denominator far beyond the bound still
    // terminates and stays within the bound
    let ctx = Context { streams: vec![video_desc(Rational::new(1, 2147483647), 1, 1)] };
    let v = Stream::wrap(&ctx, 0);
    let (ratio, _, _) = v.get_display_aspect_ratio();
    assert!(ratio.num.abs() as i64 <= REDUCE_BOUND);
    assert!(0 <= ratio.den && ratio.den as i64 <= REDUCE_BOUND);
    assert_eq!(ratio, Rational::new(0, 1));
}

#[test]
fn reduce_keeps_exact_fractions_exact() {
    let (r, exact) = reduce(1920, 1080, REDUCE_BOUND);
    assert!(exact);
    assert_eq!(r, Rational::new(16, 9));
    let (r, exact) = reduce(0, 0, REDUCE_BOUND);
    assert!(exact);
    assert_eq!(r, Rational::new(0, 0));
    let (r, exact) = reduce(4, -6, REDUCE_BOUND);
    assert!(exact);
    assert_eq!(r, Rational::new(-2, 3));
    let (r, exact) = reduce(-4, -6, REDUCE_BOUND);
    assert!(exact);
    assert_eq!(r, Rational::new(2, 3));
}

#[test]
fn reduce_clamps_an_oversized_numerator() {
    let (r, exact) = reduce(2147483647, 1, REDUCE_BOUND);
    assert!(!exact);
    assert_eq!(r, Rational::new(1048576, 1));
}

#[test]
fn disposition_decode_is_truncating() {
    // bit 0 (default) plus an undefined high bit: the default flag is kept,
    // the unknown bit is silently dropped, and nothing fails
    let raw = DISPOSITION_DEFAULT | (1 << 30);
    let d = Disposition::from_bits_truncate(raw);
    assert!(d.contains(DISPOSITION_DEFAULT));
    assert_eq!(d.bits(), DISPOSITION_DEFAULT);
}

#[test]
fn disposition_keeps_every_named_flag() {
    let raw = DISPOSITION_DEFAULT | DISPOSITION_DUB | DISPOSITION_FORCED
        | DISPOSITION_ATTACHED_PIC;
    let d = Disposition::from_bits_truncate(raw);
    assert_eq!(d.bits(), raw);
    assert!(d.contains(DISPOSITION_DUB));
    assert!(d.contains(DISPOSITION_FORCED));
    assert!(!d.contains(DISPOSITION_ORIGINAL));
}

#[test]
fn disposition_reached_through_a_view_is_decoded() {
    let mut desc = video_desc(Rational::new(1, 1), 640, 480);
    desc.disposition = DISPOSITION_DEFAULT | (1 << 25);
    let ctx = Context { streams: vec![desc] };
    let v = Stream::wrap(&ctx, 0);
    assert_eq!(v.disposition().bits(), DISPOSITION_DEFAULT);
}

#[test]
fn discard_decodes_every_policy() {
    assert_eq!(Discard::from_raw(-16), Discard::Nothing);
    assert_eq!(Discard::from_raw(0), Discard::Default);
    assert_eq!(Discard::from_raw(8), Discard::NonRef);
    assert_eq!(Discard::from_raw(16), Discard::Bidirectional);
    assert_eq!(Discard::from_raw(24), Discard::NonIntra);
    assert_eq!(Discard::from_raw(32), Discard::NonKey);
    assert_eq!(Discard::from_raw(48), Discard::All);
    // unknown raw values fall back to the default policy
    assert_eq!(Discard::from_raw(5), Discard::Default);
    assert_eq!(Discard::from_raw(-1), Discard::Default);
}

#[test]
fn discard_raw_round_trips() {
    let all = [
        Discard::Nothing,
        Discard::Default,
        Discard::NonRef,
        Discard::Bidirectional,
        Discard::NonIntra,
        Discard::NonKey,
        Discard::All,
    ];
    for d in all {
        assert_eq!(Discard::from_raw(d.raw()), d);
    }
}

#[test]
fn discard_reached_through_a_view_is_decoded() {
    let mut desc = video_desc(Rational::new(1, 1), 640, 480);
    desc.discard = 48;
    let ctx = Context { streams: vec![desc] };
    let v = Stream::wrap(&ctx, 0);
    assert_eq!(v.discard(), Discard::All);
}
