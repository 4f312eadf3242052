use stream_view::desc::{Context, Dictionary, Parameters, SideDataEntry, StreamDesc};
use stream_view::rational::Rational;
use stream_view::stream::Stream;

fn plain_desc(index: i32) -> StreamDesc {
    StreamDesc {
        id: 100 + index,
        index,
        time_base: Rational::new(1, 90000),
        start_time: 0,
        duration: 9000,
        frames: 250,
        disposition: 0x1,
        discard: 0,
        sample_aspect_ratio: Rational::new(1, 1),
        r_frame_rate: Rational::new(25, 1),
        avg_frame_rate: Rational::new(30000, 1001),
        codecpar: Parameters { width: 1920, height: 1080 },
        side_data: Vec::new(),
        metadata: Dictionary { entries: Vec::new() },
    }
}

fn table(n: i32) -> Context {
    let mut streams = Vec::new();
    for i in 0..n {
        streams.push(plain_desc(i));
    }
    Context { streams }
}

#[test]
fn view_index_matches_slot() {
    let ctx = table(4);
    for i in 0..4usize {
        let v = Stream::wrap(&ctx, i);
        assert_eq!(v.index(), i);
    }
}

#[test]
fn index_reads_descriptor_field() {
    let mut streams = Vec::new();
    let mut d = plain_desc(0);
    d.index = 7;
    streams.push(d);
    let ctx = Context { streams };
    let v = Stream::wrap(&ctx, 0);
    assert_eq!(v.index(), 7);
}

#[test]
fn scalar_accessors_read_the_descriptor() {
    let ctx = table(2);
    let v = Stream::wrap(&ctx, 1);
    assert_eq!(v.id(), 101);
    assert_eq!(v.start_time(), 0);
    assert_eq!(v.duration(), 9000);
    assert_eq!(v.frames(), 250);
    assert_eq!(v.time_base(), Rational::new(1, 90000));
    assert_eq!(v.rate(), Rational::new(25, 1));
    assert_eq!(v.avg_frame_rate(), Rational::new(30000, 1001));
    assert_eq!(v.parameters().width, 1920);
    assert_eq!(v.parameters().height, 1080);
    assert_eq!(v.metadata().len(), 0);
    assert_eq!(v.descriptor().id, 101);
    assert_eq!(ctx.nb_streams(), 2);
}

#[test]
fn duration_is_raw_time_base_units() {
    // start_time = 0, duration = 9000, time base 1/90000: the accessor
    // returns the raw 9000, conversion to seconds is the caller's business
    let ctx = table(1);
    let v = Stream::wrap(&ctx, 0);
    assert_eq!(v.start_time(), 0);
    assert_eq!(v.duration(), 9000);
    assert_eq!(v.time_base(), Rational::new(1, 90000));
}

#[test]
fn views_equal_iff_same_slot() {
    let ctx = table(3);
    let a = Stream::wrap(&ctx, 1);
    let b = Stream::wrap(&ctx, 1);
    let c = Stream::wrap(&ctx, 2);
    assert!(a == b);
    assert!(a != c);
    assert!(b != c);
}

#[test]
fn side_data_iteration_is_exhaustive_with_exact_size_hints() {
    let mut d = plain_desc(0);
    for k in 0..3 {
        d.side_data.push(SideDataEntry { kind: k, data: vec![k as u8; 4] });
    }
    let ctx = Context { streams: vec![d] };
    let v = Stream::wrap(&ctx, 0);
    let mut it = v.side_data();
    for k in 0..3 {
        let left = 3 - k as usize;
        assert_eq!(it.size_hint(), (left, Some(left)));
        let entry = it.next().expect("an entry before exhaustion");
        assert_eq!(entry.kind, k);
        assert_eq!(entry.data, vec![k as u8; 4]);
    }
    assert_eq!(it.size_hint(), (0, Some(0)));
    assert!(it.next().is_none());
}

#[test]
fn side_data_exhaustion_is_terminal() {
    let mut d = plain_desc(0);
    d.side_data.push(SideDataEntry { kind: 9, data: Vec::new() });
    let ctx = Context { streams: vec![d] };
    let v = Stream::wrap(&ctx, 0);
    let mut it = v.side_data();
    assert!(it.next().is_some());
    assert!(it.next().is_none());
    assert!(it.next().is_none());
    assert!(it.next().is_none());
    assert_eq!(it.size_hint(), (0, Some(0)));
}

#[test]
fn each_call_yields_a_fresh_iterator() {
    let mut d = plain_desc(0);
    d.side_data.push(SideDataEntry { kind: 1, data: Vec::new() });
    let ctx = Context { streams: vec![d] };
    let v = Stream::wrap(&ctx, 0);
    let mut first = v.side_data();
    assert!(first.next().is_some());
    assert!(first.next().is_none());
    let mut second = v.side_data();
    assert_eq!(second.size_hint(), (1, Some(1)));
    assert!(second.next().is_some());
}
