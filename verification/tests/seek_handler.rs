use gstplugins::uridecodepool::seek_handler::{
    NleCompositionSeekResult, Placement, SeekHandler, SeekInfo, SourceRange, State,
};
use gstplugins::values::{
    Buffer, FlowError, Fraction, Position, Rate, Sample, Seek, SeekEvent, SeekType, Segment,
    FORMAT_TIME, SECOND,
};

fn rate(value: f64) -> Rate {
    Rate { bits: value.to_bits() }
}

fn segment(start: u64, stop: u64) -> Segment {
    Segment {
        flags: 0,
        rate: rate(1.0),
        applied_rate: rate(1.0),
        format: FORMAT_TIME,
        base: Some(0),
        offset: Some(0),
        start: Some(start),
        stop: Some(stop),
        time: Some(start),
        position: Some(start),
        duration: None,
    }
}

fn reversed(start: u64, stop: u64) -> Segment {
    Segment { rate: rate(-1.0), ..segment(start, stop) }
}

fn sample(handle: u64, segment: Option<Segment>) -> Sample {
    Sample {
        handle,
        buffer: Some(Buffer { handle: handle + 1000, pts: Some(0), duration: Some(10) }),
        buffer_list: None,
        caps: Some(1),
        framerate: None,
        segment,
    }
}

fn seek(seqnum: u32, rate_value: f64, start: u64, stop: u64) -> SeekEvent {
    SeekEvent {
        seqnum,
        seek: Seek {
            rate: rate(rate_value),
            flags: 3,
            start_type: SeekType::Absolute,
            start: Position { format: FORMAT_TIME, value: Some(start) },
            stop_type: SeekType::Absolute,
            stop: Position { format: FORMAT_TIME, value: Some(stop) },
        },
    }
}

const FORWARD: SourceRange = SourceRange {
    inpoint: Some(100),
    duration: Some(50),
    reverse: false,
};

fn handler_in(seek_info: SeekInfo) -> SeekHandler {
    let mut handler = SeekHandler::new("pipeline");
    handler.state.seek_info = seek_info;
    handler
}

#[test]
fn new_handler_knows_no_seek() {
    let handler = SeekHandler::new("pipeline-3");
    assert_eq!(handler.name, "pipeline-3");
    assert!(!handler.has_eos_sample());
    assert_eq!(handler.get_eos_sample(), Ok(None));
    assert!(!handler.is_waiting());
    assert!(!handler.needs_placement());
    assert_eq!(handler.needs_segment(), None);
}

#[test]
fn reset_forgets_everything() {
    let mut handler = handler_in(SeekInfo::PreviousSeekDone(sample(1, None), None));
    handler.state.stream_time = Some(4);
    handler.state.nle_seek = Some(seek(1, 1.0, 0, 1));
    handler.state.handled_composition_seek = true;
    handler.state.probe_id = Some(9);
    assert!(handler.has_eos_sample());
    assert_eq!(handler.reset(true), Some(9));
    assert_eq!(handler.state, SeekHandler::new("x").state);
    handler.state.probe_id = Some(9);
    assert_eq!(handler.reset(false), None);
    assert_eq!(handler.state.probe_id, None);
}

#[test]
fn sample_lasts_as_long_as_its_buffer_or_a_frame() {
    let timed = |duration: Option<u64>, framerate: Option<Fraction>| Sample {
        buffer: Some(Buffer { handle: 1, pts: Some(5), duration }),
        framerate,
        ..sample(1, Some(segment(0, 10)))
    };
    let fraction = |numer: i32, denom: i32| Some(Fraction { numer, denom });
    assert_eq!(SeekHandler::sample_bounds(&timed(Some(7), fraction(30, 1))), Ok((5, 12)));
    assert_eq!(SeekHandler::sample_bounds(&timed(None, fraction(30, 1))), Ok((5, 33333338)));
    assert_eq!(
        SeekHandler::sample_bounds(&timed(None, fraction(30000, 1001))),
        Ok((5, 5 + SECOND * 1001 / 30000))
    );
    assert_eq!(SeekHandler::sample_bounds(&timed(None, fraction(0, 1))), Ok((5, 5)));
    assert_eq!(SeekHandler::sample_bounds(&timed(None, None)), Ok((5, 5)));
    // The frame rate counts only where it is needed.
    assert!(SeekHandler::can_tell_bounds(&timed(Some(7), fraction(30, 0))));
    assert_eq!(SeekHandler::sample_bounds(&timed(Some(7), fraction(30, 0))), Ok((5, 12)));
    assert!(!SeekHandler::can_tell_bounds(&timed(None, fraction(30, 0))));
    assert!(SeekHandler::can_tell_bounds(&timed(Some(u64::MAX - 6), None)));
    assert!(!SeekHandler::can_tell_bounds(&timed(Some(u64::MAX - 5), None)));
    assert!(SeekHandler::can_tell_bounds(&Sample { segment: None, ..timed(Some(u64::MAX), None) }));
}

#[test]
fn sample_without_a_place_is_an_error() {
    let whole = sample(1, Some(segment(0, 10)));
    let unplaced = [
        Sample { buffer: None, ..whole },
        Sample { segment: None, ..whole },
        Sample { segment: Some(Segment { format: 2, ..segment(0, 10) }), ..whole },
        Sample { buffer: Some(Buffer { handle: 1, pts: None, duration: None }), ..whole },
    ];
    for sample in unplaced {
        assert_eq!(SeekHandler::sample_bounds(&sample), Err(FlowError::Error));
    }
}

fn ends(segment: Segment, start: u64, stop: u64) -> bool {
    let mut handler = handler_in(SeekInfo::SeekSegment(1, segment));
    let last = sample(1, None);
    let r = handler.check_eos(&last, Placement::Between(start, stop), false);
    if r.is_err() {
        assert_eq!(r, Err(FlowError::Eos));
        assert_eq!(
            handler.state.seek_info,
            SeekInfo::PreviousSeekDone(last, Some(segment))
        );
    } else {
        assert_eq!(handler.state.seek_info, SeekInfo::SeekSegment(1, segment));
    }
    r.is_err()
}

#[test]
fn forward_playback_ends_at_the_stop() {
    assert!(!ends(segment(10, 20), 0, 5));
    assert!(!ends(segment(10, 20), 5, 10));
    assert!(!ends(segment(10, 20), 19, 29));
    assert!(ends(segment(10, 20), 20, 30));
    assert!(ends(segment(10, 20), 25, 30));
    // An empty segment is over at once, unless the buffer ends where it starts.
    assert!(ends(segment(20, 20), 20, 30));
    assert!(ends(segment(20, 20), 20, 20));
    assert!(!ends(Segment { stop: None, ..segment(10, 20) }, 25, 30));
    assert!(ends(Segment { start: None, ..segment(10, 20) }, 20, 30));
}

#[test]
fn reverse_playback_ends_at_the_start() {
    assert!(!ends(reversed(10, 20), 21, 30));
    assert!(!ends(reversed(10, 20), 20, 30));
    assert!(!ends(reversed(10, 20), 9, 11));
    assert!(ends(reversed(10, 20), 5, 10));
    assert!(ends(reversed(10, 20), 0, 5));
    assert!(ends(reversed(20, 20), 20, 20));
}

#[test]
fn clipper_sees_to_the_end_before_anything_was_pushed() {
    let last = sample(1, None);
    let past = Placement::Between(25, 30);
    let mut handler = handler_in(SeekInfo::SeekSegment(1, segment(10, 20)));
    assert_eq!(handler.check_eos(&last, past, true), Ok(()));
    handler.state.pushed_buffer_in_segment = true;
    assert_eq!(handler.check_eos(&last, past, true), Err(FlowError::Eos));
}

#[test]
fn samples_without_a_place_do_not_end_a_seek() {
    let last = sample(1, None);
    let mut handler = handler_in(SeekInfo::SeekSegment(1, segment(10, 20)));
    assert_eq!(handler.check_eos(&last, Placement::Outside, false), Ok(()));
    assert_eq!(
        handler.check_eos(&last, Placement::Unplaceable, false),
        Err(FlowError::Error)
    );
    let mut handler = handler_in(SeekInfo::NoSeek);
    assert_eq!(handler.check_eos(&last, Placement::Unplaceable, false), Ok(()));
}

#[test]
fn without_a_seek_samples_pass() {
    let mut handler = handler_in(SeekInfo::NoSeek);
    let first = sample(1, Some(segment(0, 5)));
    assert!(handler.can_process(&FORWARD, &first, Placement::Outside, None, false));
    assert_eq!(
        handler.process(&FORWARD, &first, Placement::Outside, None, false),
        Ok(SeekInfo::NoSeek)
    );
}

#[test]
fn sample_segments_are_moved_onto_the_seek() {
    let seek_segment = segment(100, 150);
    let mut handler = handler_in(SeekInfo::SeekSegment(7, seek_segment));
    // The samples are in the segment of a nested timeline, which starts 30
    // after the inpoint.
    let first = sample(1, Some(segment(130, 400)));
    let inside = Placement::Between(110, 120);
    assert!(handler.needs_placement());
    assert!(handler.can_process(&FORWARD, &first, inside, None, false));
    let moved = Segment { start: Some(130), stop: Some(180), ..seek_segment };
    assert_eq!(
        handler.process(&FORWARD, &first, inside, None, false),
        Ok(SeekInfo::SeekSegment(7, moved))
    );
    assert!(handler.state.pushed_buffer_in_segment);
    // The next sample of the segment gets the same one, wherever the source
    // starts by then.
    let elsewhere = SourceRange { inpoint: Some(3), ..FORWARD };
    let second = sample(2, Some(segment(130, 400)));
    assert_eq!(
        handler.process(&elsewhere, &second, inside, None, false),
        Ok(SeekInfo::SeekSegment(7, moved))
    );
}

#[test]
fn moved_segments_do_not_start_before_zero() {
    let range = SourceRange { inpoint: Some(100), ..FORWARD };
    let inside = Placement::Between(40, 41);
    let moved = |sample_start: u64, seek_start: u64| {
        let mut handler = handler_in(SeekInfo::SeekSegment(7, segment(seek_start, 60)));
        match handler.process(&range, &sample(1, Some(segment(sample_start, 900))), inside, None, false)
        {
            Ok(SeekInfo::SeekSegment(7, s)) => (s.start.unwrap(), s.stop.unwrap()),
            other => panic!("{other:?}"),
        }
    };
    assert_eq!(moved(80, 50), (30, 40));
    assert_eq!(moved(50, 50), (0, 10));
    assert_eq!(moved(49, 50), (49, 59));
}

#[test]
fn segments_that_are_the_seek_stay() {
    let seek_segment = segment(100, 150);
    let mut handler = handler_in(SeekInfo::SeekSegment(7, seek_segment));
    let inside = Placement::Between(110, 120);
    assert_eq!(
        handler.process(&FORWARD, &sample(1, Some(seek_segment)), inside, None, false),
        Ok(SeekInfo::SeekSegment(7, seek_segment))
    );
    assert_eq!(handler.state.last_remapped_segment, None);
    assert_eq!(
        handler.process(&FORWARD, &sample(1, None), Placement::Unplaceable, None, false),
        Ok(SeekInfo::SeekSegment(7, seek_segment))
    );
}

#[test]
fn samples_in_another_format_are_an_error() {
    let mut handler = handler_in(SeekInfo::SeekSegment(7, segment(100, 150)));
    let bytes = sample(1, Some(Segment { format: 2, ..segment(0, 1) }));
    assert_eq!(
        handler.process(&FORWARD, &bytes, Placement::Unplaceable, None, false),
        Err((FlowError::Error, None))
    );
    assert!(!handler.state.pushed_buffer_in_segment);
}

#[test]
fn rates_that_differ_cannot_be_processed() {
    let handler = handler_in(SeekInfo::SeekSegment(7, segment(100, 150)));
    let fast = sample(1, Some(Segment { rate: rate(2.0), ..segment(0, 1) }));
    assert!(!handler.can_process(&FORWARD, &fast, Placement::Outside, None, false));
    let no_inpoint = SourceRange { inpoint: None, ..FORWARD };
    let other = sample(1, Some(segment(0, 1)));
    assert!(!handler.can_process(&no_inpoint, &other, Placement::Outside, None, false));
    assert!(handler.can_process(&FORWARD, &other, Placement::Outside, None, false));
    let open = handler_in(SeekInfo::SeekSegment(7, Segment { stop: None, ..reversed(1, 2) }));
    assert!(!open.can_process(&FORWARD, &other, Placement::Between(1, 2), None, false));
}

#[test]
fn composition_plays_on_with_the_kept_sample() {
    // The first seek is announced, and comes.
    let mut handler = SeekHandler::new("pipeline");
    let first = seek(1, 1.0, 100, 120);
    assert!(handler.can_announce(&FORWARD, &first));
    assert_eq!(
        handler.handle_nlecomposition_seek(&FORWARD, &first),
        NleCompositionSeekResult::Expected
    );
    assert_eq!(handler.get_eos_sample(), Err(FlowError::Eos));
    assert!(handler.handle_seek(&first, segment(100, 120)));
    assert_eq!(handler.get_eos_sample(), Ok(None));

    // It ends at a sample.
    let last = sample(5, Some(segment(100, 120)));
    assert_eq!(
        handler.process(&FORWARD, &last, Placement::Between(120, 130), None, false),
        Err((FlowError::Eos, Some(1)))
    );
    assert!(handler.has_eos_sample());
    assert_eq!(handler.get_eos_sample(), Ok(Some(last)));

    // The next one continues where it ended.
    let second = seek(2, 1.0, 120, 150);
    assert_eq!(
        handler.handle_nlecomposition_seek(&FORWARD, &second),
        NleCompositionSeekResult::Expected
    );
    assert_eq!(handler.get_eos_sample(), Err(FlowError::Eos));
    assert!(handler.handle_seek(&second, segment(120, 150)));
    assert_eq!(handler.get_eos_sample(), Ok(Some(last)));
    assert_eq!(handler.needs_segment(), Some(second));
    let inside = Placement::Between(120, 130);
    assert!(!handler.can_process(&FORWARD, &last, inside, None, false));
    assert!(handler.can_process(&FORWARD, &last, inside, Some(segment(120, 150)), false));
    let answer = handler.process(&FORWARD, &last, inside, Some(segment(120, 150)), false);
    assert!(matches!(answer, Ok(SeekInfo::SeekSegment(2, _))));
    assert_eq!(handler.get_eos_sample(), Ok(None));
}

#[test]
fn samples_before_the_announced_seek_end_the_stream() {
    let mut handler = SeekHandler::new("pipeline");
    handler.handle_nlecomposition_seek(&FORWARD, &seek(1, 1.0, 100, 120));
    let early = sample(5, Some(segment(0, 9)));
    assert_eq!(
        handler.process(&FORWARD, &early, Placement::Outside, None, false),
        Err((FlowError::Eos, None))
    );
    assert_eq!(
        handler.state.seek_info,
        SeekInfo::PreviousSeekDone(early, Some(segment(0, 9)))
    );
    assert_eq!(handler.get_eos_sample(), Err(FlowError::Eos));
}

#[test]
fn samples_that_end_the_stream_are_kept() {
    let playing = SeekInfo::SeekSegment(1, segment(100, 120));
    for (handle, stop, ends) in [(5, 119, false), (6, 120, true)] {
        let mut handler = handler_in(playing);
        let next = sample(handle, Some(segment(100, 120)));
        let placement = Placement::Between(stop, stop + 10);
        let answer = handler.process(&FORWARD, &next, placement, None, false);
        assert_eq!(matches!(answer, Err((FlowError::Eos, _))), ends);
        assert_eq!(handler.has_eos_sample(), ends);
        if ends {
            assert_eq!(handler.get_eos_sample(), Ok(Some(next)));
        }
    }
}

fn announce(handler: &mut SeekHandler, range: &SourceRange, event: &SeekEvent) -> NleCompositionSeekResult {
    assert!(handler.can_announce(range, event));
    handler.handle_nlecomposition_seek(range, event)
}

#[test]
fn odd_seeks_are_unexpected() {
    let good = seek(1, 1.0, 100, 150);
    let mut bytes = good;
    bytes.seek.start.format = 2;
    let mut fast = good;
    fast.seek.rate = rate(2.0);
    let mut relative = good;
    relative.seek.stop_type = SeekType::FromEnd;
    let backward = seek(1, -1.0, 100, 150);
    let elsewhere = seek(1, 1.0, 101, 150);
    for event in [bytes, fast, relative, backward, elsewhere] {
        let mut handler = SeekHandler::new("pipeline");
        handler.state.nle_seek = Some(good);
        assert_eq!(
            announce(&mut handler, &FORWARD, &event),
            NleCompositionSeekResult::Unexpected
        );
        assert_eq!(handler.state, SeekHandler::new("pipeline").state);
    }
    let mut handler = SeekHandler::new("pipeline");
    assert_eq!(announce(&mut handler, &FORWARD, &good), NleCompositionSeekResult::Expected);
}

#[test]
fn nested_timelines_seek_themselves() {
    let nested = SourceRange { duration: None, ..FORWARD };
    let mut handler = SeekHandler::new("pipeline");
    assert_eq!(
        announce(&mut handler, &nested, &seek(8, 1.0, 1, 2)),
        NleCompositionSeekResult::UseSeqnum(8)
    );
    assert_eq!(handler.state.nle_seek, None);
    let mut handler = handler_in(SeekInfo::SeekSegment(1, segment(1, 2)));
    assert_eq!(
        announce(&mut handler, &nested, &seek(8, 1.0, 1, 2)),
        NleCompositionSeekResult::Unexpected
    );
}

#[test]
fn reverse_seeks_are_expected_at_the_end() {
    let empty = SourceRange { inpoint: Some(100), duration: Some(0), reverse: true };
    let mut handler = SeekHandler::new("pipeline");
    assert_eq!(
        announce(&mut handler, &empty, &seek(1, -1.0, 50, 100)),
        NleCompositionSeekResult::Expected
    );
    let range = SourceRange { duration: Some(50), ..empty };
    assert_eq!(
        announce(&mut handler, &range, &seek(1, -1.0, 100, 150)),
        NleCompositionSeekResult::Expected
    );
    let seconds = SourceRange {
        inpoint: Some(2_000_000_000),
        duration: Some(3_000_000_000),
        reverse: true,
    };
    assert_eq!(
        announce(&mut handler, &seconds, &seek(1, -1.0, 2_000_000_000, 5_000_000_000)),
        NleCompositionSeekResult::Expected
    );
    for (start, stop) in [(101, 150), (100, 149), (100, 151)] {
        assert_eq!(
            announce(&mut handler, &range, &seek(1, -1.0, start, stop)),
            NleCompositionSeekResult::Unexpected
        );
    }
    let done = SeekInfo::PreviousSeekDone(sample(1, None), Some(reversed(120, 150)));
    let mut handler = handler_in(done);
    assert_eq!(
        announce(&mut handler, &range, &seek(2, -1.0, 100, 120)),
        NleCompositionSeekResult::Expected
    );
    assert!(handler.has_eos_sample());
}

#[test]
fn seeks_that_do_not_continue_drop_the_sample() {
    let done = SeekInfo::PreviousSeekDone(sample(1, None), Some(segment(100, 120)));
    let mut handler = handler_in(done);
    assert_eq!(
        announce(&mut handler, &FORWARD, &seek(2, 1.0, 100, 150)),
        NleCompositionSeekResult::Unexpected
    );
    assert_eq!(handler.state.seek_info, SeekInfo::NoSeek);
    let unknown = handler_in(SeekInfo::PreviousSeekDone(sample(1, None), None));
    assert!(!unknown.can_announce(&FORWARD, &seek(2, 1.0, 100, 150)));
}

#[test]
fn unannounced_seeks_are_left_to_others() {
    let mut handler = handler_in(SeekInfo::SeekSegment(1, segment(1, 2)));
    assert!(!handler.handle_seek(&seek(2, 1.0, 1, 2), segment(1, 2)));
    assert_eq!(handler.state.seek_info, SeekInfo::NoSeek);

    let mut handler = handler_in(SeekInfo::PreviousSeekDone(sample(1, None), None));
    handler.state.nle_seek = Some(seek(3, 1.0, 1, 2));
    assert!(!handler.handle_seek(&seek(2, 1.0, 1, 2), segment(1, 2)));
    assert_eq!(handler.state, SeekHandler::new("x").state);

    let mut handler = SeekHandler::new("pipeline");
    handler.state.nle_seek = Some(seek(3, 1.0, 1, 2));
    handler.state.handled_composition_seek = true;
    assert!(!handler.handle_seek(&seek(3, 1.0, 1, 2), segment(1, 2)));
}

#[test]
fn flushes_tell_whether_a_seek_was_handled() {
    let event = seek(3, 1.0, 1, 2);
    let mut handler = SeekHandler::new("pipeline");
    handler.state.nle_seek = Some(event);
    handler.handle_flush_event_probe(3, &event, segment(1, 2));
    assert_eq!(
        handler.state,
        State {
            seek_info: SeekInfo::SeekSegment(3, segment(1, 2)),
            nle_seek: Some(event),
            handled_composition_seek: true,
            ..SeekHandler::new("x").state
        }
    );
    // Whatever the segment is, if the flush is another one.
    handler.handle_flush_event_probe(4, &event, Segment { format: 2, ..segment(1, 2) });
    assert_eq!(handler.state, SeekHandler::new("x").state);

    let done = SeekInfo::PreviousSeekDone(sample(1, None), None);
    let mut handler = handler_in(done);
    handler.handle_flush_event_probe(3, &event, segment(1, 2));
    assert_eq!(handler.state.seek_info, done);
    assert!(handler.state.handled_composition_seek);
}

#[test]
fn samples_set_the_stream_time() {
    let mut handler = SeekHandler::new("pipeline");
    let timed = sample(1, Some(segment(1, 2)));
    assert_eq!(handler.handle_sample(&timed, Some(6)), timed.buffer);
    assert_eq!(handler.state.stream_time, Some(6));
    let untimed = sample(2, None);
    assert_eq!(handler.handle_sample(&untimed, Some(7)), untimed.buffer);
    assert_eq!(handler.state.stream_time, Some(6));
    let empty = Sample { buffer: None, ..timed };
    assert_eq!(handler.handle_sample(&empty, Some(8)), None);
    assert_eq!(handler.state.stream_time, Some(6));
}

#[test]
fn initialization_seeks_do_not_go_to_nested_timelines() {
    let handler = SeekHandler::new("pipeline");
    let timeline = vec![None, Some(false), Some(true)];
    let plain = vec![None, Some(false)];
    assert!(!handler.should_send_seek(Some(true), &timeline));
    assert!(handler.should_send_seek(Some(true), &plain));
    assert!(handler.should_send_seek(Some(true), &vec![]));
    assert!(handler.should_send_seek(Some(false), &timeline));
    assert!(handler.should_send_seek(None, &timeline));
}

#[test]
fn announced_seeks_are_waited_for() {
    let mut handler = SeekHandler::new("pipeline");
    let event = seek(9, 1.0, 100, 150);
    assert_eq!(announce(&mut handler, &FORWARD, &event), NleCompositionSeekResult::Expected);
    assert!(handler.is_waiting());
    assert!(handler.handle_seek(&event, segment(100, 150)));
    assert!(!handler.is_waiting());
}
