use gstplugins::playbinpool::imp::{DoSeek as PlaybinDoSeek, PlaybinPoolSrc};
use gstplugins::pull::{
    Created, Object, Pulled, QueryAction, QueryKind, SegmentProbe, SourceMessage,
    SourceMessageAction, StartError, Step, StreamStartProbe, Wanted,
};
use gstplugins::uridecodepool::imp::{
    DoSeek, EventAction, NextSample, SeekEventAction, Started, UriDecodePoolSrc,
};
use gstplugins::uridecodepool::seek_handler::{
    NleCompositionSeekResult, Placement, SeekHandler, SeekInfo,
};
use gstplugins::values::{
    Buffer, FlowError, Position, Rate, Sample, Seek, SeekEvent, SeekType, Segment, Stream,
    FORMAT_TIME, STREAM_TYPE_VIDEO,
};

fn segment(start: u64) -> Segment {
    Segment {
        flags: 0,
        rate: Rate { bits: 1f64.to_bits() },
        applied_rate: Rate { bits: 1f64.to_bits() },
        format: FORMAT_TIME,
        base: Some(0),
        offset: Some(0),
        start: Some(start),
        stop: Some(start + 100),
        time: Some(start),
        position: Some(start),
        duration: None,
    }
}

fn bytes() -> Segment {
    Segment { format: 2, ..segment(0) }
}

fn sample(handle: u64) -> Sample {
    Sample {
        handle,
        buffer: Some(Buffer { handle: handle + 1000, pts: Some(0), duration: Some(1) }),
        buffer_list: None,
        caps: Some(3),
        framerate: None,
        segment: Some(segment(0)),
    }
}

fn seek(seqnum: u32, flags: u32) -> SeekEvent {
    let position = Position { format: FORMAT_TIME, value: Some(7) };
    SeekEvent {
        seqnum,
        seek: Seek {
            rate: Rate { bits: 1f64.to_bits() },
            flags,
            start_type: SeekType::Absolute,
            start: position,
            stop_type: SeekType::Unchanged,
            stop: position,
        },
    }
}

fn uri_src() -> UriDecodePoolSrc {
    let mut src = UriDecodePoolSrc::new(40);
    src.settings.uri = Some("file:///a".to_string());
    src
}

#[test]
fn sources_have_defaults() {
    let src = PlaybinPoolSrc::new();
    assert_eq!(src.settings.stream_type, STREAM_TYPE_VIDEO);
    assert_eq!(src.settings.uri, None);
    assert_eq!(src.settings.stream_id, None);
    let src = UriDecodePoolSrc::new(40);
    assert_eq!(src.settings.caps.name.as_deref(), Some("video/x-raw"));
    assert_eq!(src.settings.caps.handle, 40);
    assert!(!src.settings.reverse);
}

#[test]
fn what_the_pad_shows_is_enough() {
    let mut playbin = PlaybinPoolSrc::new();
    let mut uri = uri_src();
    let s = Some(segment(1));
    for (wanted, step) in [
        (Wanted::Caps, Step::Found(Object::Caps(5))),
        (Wanted::Segment, Step::Found(Object::Segment(segment(1)))),
        (Wanted::Sample, Step::Pull),
    ] {
        assert_eq!(playbin.process_objects_begin(wanted, true, Some(5), s), step);
        assert_eq!(uri.process_objects_begin(wanted, true, Some(5), s), step);
        assert_eq!(playbin.process_objects_begin(wanted, false, Some(5), s), Step::Pull);
        assert_eq!(uri.process_objects_begin(wanted, false, Some(5), s), Step::Pull);
        assert_eq!(playbin.process_objects_begin(wanted, true, None, None), Step::Pull);
        assert_eq!(uri.process_objects_begin(wanted, true, None, None), Step::Pull);
    }
    playbin.state.seek_seqnum = Some(1);
    uri.state.seek_seqnum = Some(1);
    assert_eq!(playbin.process_objects_begin(Wanted::Caps, true, Some(5), s), Step::Pull);
    assert_eq!(uri.process_objects_begin(Wanted::Caps, true, Some(5), s), Step::Pull);
    playbin.unlock();
    uri.unlock();
    let flushing = Step::Fail(FlowError::Flushing);
    assert_eq!(playbin.process_objects_begin(Wanted::Sample, true, None, None), flushing);
    assert_eq!(uri.process_objects_begin(Wanted::Sample, true, None, None), flushing);
    playbin.unlock_stop();
    uri.unlock_stop();
    assert_eq!(playbin.process_objects_begin(Wanted::Sample, true, None, None), Step::Pull);
    assert_eq!(uri.process_objects_begin(Wanted::Sample, true, None, None), Step::Pull);
}

#[test]
fn pulled_objects_are_sorted_out() {
    let found = Step::Found(Object::Sample(sample(1)));
    let cases = [
        (Wanted::Sample, Pulled::Sample(sample(1)), true, found),
        (Wanted::Sample, Pulled::Sample(sample(1)), false, Step::Again),
        (Wanted::Caps, Pulled::Sample(sample(1)), true, Step::Again),
        (Wanted::Sample, Pulled::Caps(4), true, Step::SetCaps(4)),
        (Wanted::Sample, Pulled::Caps(4), false, Step::Again),
        (Wanted::Caps, Pulled::Caps(4), true, Step::Found(Object::Caps(4))),
        (Wanted::Sample, Pulled::Tag(6), false, Step::ForwardTag(6)),
        (Wanted::Sample, Pulled::OtherEvent, true, Step::Again),
        (Wanted::Sample, Pulled::OtherObject, true, Step::Again),
        (Wanted::Sample, Pulled::FlushStop(1), true, Step::Again),
        (Wanted::Sample, Pulled::Nothing { eos: true }, true, Step::Fail(FlowError::Eos)),
        (Wanted::Sample, Pulled::Nothing { eos: false }, true, Step::Again),
    ];
    for (wanted, pulled, started, step) in cases {
        let mut playbin = PlaybinPoolSrc::new();
        assert_eq!(playbin.process_objects_pulled(wanted, pulled, started), step, "{pulled:?}");
        let mut uri = uri_src();
        let got = uri.process_objects_pulled(wanted, pulled, started, None);
        assert_eq!(got, step, "{pulled:?}");
    }
}

#[test]
fn flushing_sources_hand_nothing_out() {
    let flushing = Step::Fail(FlowError::Flushing);
    for (wanted, pulled) in [
        (Wanted::Sample, Pulled::Sample(sample(1))),
        (Wanted::Caps, Pulled::Caps(4)),
        (Wanted::Sample, Pulled::Nothing { eos: false }),
    ] {
        let mut playbin = PlaybinPoolSrc::new();
        playbin.unlock();
        assert_eq!(playbin.process_objects_pulled(wanted, pulled, true), flushing);
        let mut uri = uri_src();
        uri.unlock();
        assert_eq!(uri.process_objects_pulled(wanted, pulled, true, None), flushing);
    }
}

#[test]
fn playbin_source_waits_for_its_flush() {
    let mut src = PlaybinPoolSrc::new();
    assert_eq!(src.do_seek(), PlaybinDoSeek::Ignored);
    src.event(Some(seek(5, 1)));
    assert_eq!(src.do_seek(), PlaybinDoSeek::NoPipeline);
    assert_eq!(src.state.seek_event, None);
    src.set_playbin(9);
    assert_eq!(src.playbin(), Some(9));
    src.event(Some(seek(5, 1)));
    src.event(None);
    assert_eq!(src.do_seek(), PlaybinDoSeek::Send(9, seek(5, 1)));

    for pulled in [
        Pulled::Sample(sample(1)),
        Pulled::Nothing { eos: true },
        Pulled::FlushStop(4),
        Pulled::Sample(sample(2)),
    ] {
        assert_eq!(src.process_objects_pulled(Wanted::Sample, pulled, true), Step::Again);
    }
    assert_eq!(
        src.process_objects_pulled(Wanted::Sample, Pulled::FlushStop(5), true),
        Step::Again
    );
    assert_eq!(
        src.process_objects_pulled(Wanted::Sample, Pulled::Sample(sample(3)), true),
        Step::Found(Object::Sample(sample(3)))
    );
    // A seek that does not flush is not waited for.
    src.event(Some(seek(6, 0)));
    assert_eq!(src.do_seek(), PlaybinDoSeek::Send(9, seek(6, 0)));
    assert_eq!(src.state.seek_seqnum, None);
    assert_eq!(src.state.segment_seqnum, Some(5));
}

#[test]
fn decode_source_waits_for_its_flush() {
    let mut src = uri_src();
    assert_eq!(src.do_seek(&segment(7)), DoSeek::Done);
    assert_eq!(src.handle_seek_event(seek(5, 1)), SeekEventAction::Postpone(None));
    assert_eq!(src.do_seek(&segment(7)), DoSeek::NoPipeline);
    src.set_decoderpipe(9);
    assert_eq!(src.decoderpipe(), Some(9));
    assert_eq!(src.handle_seek_event(seek(5, 1)), SeekEventAction::Postpone(Some(9)));
    assert_eq!(src.do_seek(&segment(7)), DoSeek::Send(9, seek(5, 1)));
    assert_eq!(src.state.seek_segment, Some(segment(7)));

    let again = [
        (Pulled::Sample(sample(1)), Step::Again),
        (Pulled::Nothing { eos: true }, Step::WaitAgain),
        (Pulled::FlushStop(4), Step::Again),
    ];
    for (pulled, step) in again {
        assert_eq!(src.process_objects_pulled(Wanted::Sample, pulled, true, None), step);
    }
    assert!(matches!(src.stream_start_probe(&None, None), StreamStartProbe::Discard));
    assert_eq!(src.segment_probe(0, 1), SegmentProbe::Discard);
    src.process_objects_pulled(Wanted::Sample, Pulled::FlushStop(5), true, None);
    assert_eq!(
        src.process_objects_pulled(Wanted::Sample, Pulled::Sample(sample(3)), true, None),
        Step::Found(Object::Sample(sample(3)))
    );
}

#[test]
fn own_seeks_are_not_sent_to_the_pipeline() {
    let mut src = uri_src();
    src.set_decoderpipe(9);
    src.set_ignore_seek(true);
    src.handle_seek_event(seek(5, 1));
    assert_eq!(src.do_seek(&segment(7)), DoSeek::Done);
    assert_eq!(src.state.seek_seqnum, None);
    assert_eq!(src.state.segment_seqnum, Some(5));
    src.set_ignore_seek(false);
    src.handle_seek_event(seek(6, 0));
    assert_eq!(src.do_seek(&segment(7)), DoSeek::Send(9, seek(6, 0)));
}

#[test]
fn segment_comes_before_the_end_of_the_stream() {
    let eos = Pulled::Nothing { eos: true };
    let mut src = uri_src();
    src.set_decoderpipe(9);
    // Neither the sink nor a seek has a segment.
    assert_eq!(
        src.process_objects_pulled(Wanted::Sample, eos, true, None),
        Step::Fail(FlowError::Eos)
    );
    src.state.seek_segment = Some(segment(7));
    assert_eq!(
        src.process_objects_pulled(Wanted::Sample, eos, true, None),
        Step::PushSegmentThenEos(segment(7))
    );
    assert_eq!(src.state.current_segment, Some(segment(7)));
    assert_eq!(
        src.process_objects_pulled(Wanted::Sample, eos, true, Some(segment(8))),
        Step::PushSegmentThenEos(segment(8))
    );
    assert_eq!(
        src.process_objects_pulled(Wanted::Sample, eos, true, Some(bytes())),
        Step::ReportThenFail(FlowError::Error)
    );
    // Pushing it passes the probe, which takes note.
    assert_eq!(
        src.segment_probe(-3, 11),
        SegmentProbe::Replace { segment: segment(8), running_time_offset: -3, seqnum: Some(11) }
    );
    assert_eq!(
        src.process_objects_pulled(Wanted::Sample, eos, true, Some(segment(9))),
        Step::Fail(FlowError::Eos)
    );
}

#[test]
fn segments_carry_the_number_of_the_seek() {
    let mut src = uri_src();
    assert_eq!(src.segment_probe(0, 11), SegmentProbe::Discard);
    src.state.current_segment = Some(segment(1));
    src.state.segment_seqnum = Some(22);
    assert_eq!(
        src.segment_probe(0, 11),
        SegmentProbe::Replace { segment: segment(1), running_time_offset: 0, seqnum: Some(22) }
    );
    let mut src = PlaybinPoolSrc::new();
    assert_eq!(src.segment_probe(0), SegmentProbe::Discard);
    src.state.segment = Some(segment(1));
    assert_eq!(
        src.segment_probe(4),
        SegmentProbe::Replace { segment: segment(1), running_time_offset: 4, seqnum: None }
    );
}

#[test]
fn stream_starts_carry_the_requested_identifier() {
    let stream = Some(Stream { id: Some("own".to_string()), stream_type: STREAM_TYPE_VIDEO });
    let mut src = uri_src();
    let mut playbin = PlaybinPoolSrc::new();
    assert!(matches!(src.stream_start_probe(&None, Some(1)), StreamStartProbe::Pass));
    assert!(matches!(playbin.stream_start_probe(&None, Some(1)), StreamStartProbe::Pass));
    for probe in [src.stream_start_probe(&stream, Some(1)), playbin.stream_start_probe(&stream, Some(1))] {
        assert!(matches!(
            probe,
            StreamStartProbe::Replace { stream_id, group_id: Some(1) } if stream_id == "own"
        ));
    }
    src.settings.stream_id = Some("asked".to_string());
    playbin.settings.stream_id = Some("asked".to_string());
    for probe in [src.stream_start_probe(&stream, None), playbin.stream_start_probe(&stream, None)] {
        assert!(matches!(
            probe,
            StreamStartProbe::Replace { stream_id, group_id: None } if stream_id == "asked"
        ));
    }
}

#[test]
fn playbin_source_starts_and_stops() {
    let mut src = PlaybinPoolSrc::new();
    assert_eq!(src.start(), Err(StartError::NoUri));
    src.settings.uri = Some("file:///a".to_string());
    assert_eq!(src.start(), Ok(()));
    let ready = SourceMessage::StateChanged { of_pipeline: true, settled: true };
    assert_eq!(src.handle_bus_message(ready), SourceMessageAction::Ignore);
    src.set_playbin(3);
    assert_eq!(src.started(None), Err(StartError::Play));
    assert_eq!(src.started(Some(false)), Ok(false));
    assert_eq!(src.handle_bus_message(SourceMessage::Element), SourceMessageAction::Forward);
    assert_eq!(src.handle_bus_message(SourceMessage::Error), SourceMessageAction::Ignore);
    let early = SourceMessage::StateChanged { of_pipeline: true, settled: false };
    assert_eq!(src.handle_bus_message(early), SourceMessageAction::Ignore);
    let inner = SourceMessage::StateChanged { of_pipeline: false, settled: true };
    assert_eq!(src.handle_bus_message(inner), SourceMessageAction::Ignore);
    assert_eq!(src.handle_bus_message(ready), SourceMessageAction::StartComplete);
    assert_eq!(src.handle_bus_message(ready), SourceMessageAction::Ignore);
    src.state.segment = Some(segment(1));
    src.state.seek_seqnum = Some(1);
    assert_eq!(src.stop(), 3);
    assert_eq!(src.state, PlaybinPoolSrc::new().state);
    assert_eq!(src.started(Some(true)), Ok(true));
    assert!(src.state.start_completed);
}

#[test]
fn decode_source_starts_and_stops() {
    let mut src = UriDecodePoolSrc::new(40);
    assert_eq!(src.start(), Err(StartError::NoUri));
    assert!(!src.accepts_composition_seek());
    let mut src = uri_src();
    assert!(src.accepts_composition_seek());
    assert_eq!(src.start(), Ok(None));
    src.set_composition_pipeline(3);
    assert!(!src.state.needs_segment);
    assert_eq!(src.start(), Ok(Some(3)));
    src.set_decoderpipe(3);
    assert!(src.state.needs_segment);
    assert_eq!(src.started(None), Err(StartError::Play));
    assert_eq!(src.started(Some(false)), Ok(Started { complete: false, seek: None }));
    src.state.pending_seek = Some(seek(1, 1));
    assert_eq!(src.started(Some(true)), Ok(Started { complete: true, seek: Some(seek(1, 1)) }));
    assert_eq!(src.started(Some(true)), Ok(Started { complete: false, seek: None }));
    src.state.current_segment = Some(segment(1));
    src.state.segment_seqnum = Some(4);
    assert_eq!(src.stop(), 3);
    assert_eq!(src.state.current_segment, None);
    assert_eq!(src.state.segment_seqnum, None);
    assert!(!src.state.start_completed);
    assert_eq!(src.decoderpipe(), None);
    assert_eq!(src.change_state(true), None);
    src.set_decoderpipe(4);
    assert_eq!(src.change_state(false), None);
    assert_eq!(src.change_state(true), Some(4));
    assert_eq!(src.decoderpipe(), None);
}

#[test]
fn decode_source_listens_to_its_own_pipeline() {
    let mut src = uri_src();
    let ready = SourceMessage::StateChanged { of_pipeline: true, settled: true };
    assert_eq!(src.handle_bus_message(ready, false), SourceMessageAction::Disconnect);
    assert_eq!(src.handle_bus_message(SourceMessage::Error, true), SourceMessageAction::Forward);
    assert_eq!(src.handle_bus_message(SourceMessage::Element, true), SourceMessageAction::Ignore);
    assert_eq!(src.handle_bus_message(ready, true), SourceMessageAction::StartComplete);
    assert_eq!(src.handle_bus_message(ready, true), SourceMessageAction::Ignore);
    // Seeks go to the base class from then on.
    assert_eq!(src.handle_seek_event(seek(1, 1)), SeekEventAction::Forward);
    assert_eq!(
        src.event(seek(2, 1), false),
        EventAction::Seek(SeekEventAction::Forward)
    );
    assert_eq!(src.state.seek_event, Some(seek(2, 1)));
    assert_eq!(src.event(seek(3, 1), true), EventAction::Handled);
    assert_eq!(src.state.seek_event, Some(seek(2, 1)));
}

#[test]
fn announced_seeks_are_handled_unless_unexpected() {
    let handled = UriDecodePoolSrc::composition_seek_handled;
    assert!(handled(&NleCompositionSeekResult::Expected));
    assert!(handled(&NleCompositionSeekResult::UseSeqnum(1)));
    assert!(!handled(&NleCompositionSeekResult::Unexpected));
}

#[test]
fn seqnum_of_a_nested_timeline_is_taken_over() {
    let mut src = uri_src();
    src.use_announced_seqnum(&NleCompositionSeekResult::Expected);
    assert_eq!(src.state.segment_seqnum, None);
    src.use_announced_seqnum(&NleCompositionSeekResult::UseSeqnum(9));
    assert_eq!(src.state.segment_seqnum, Some(9));
    src.use_announced_seqnum(&NleCompositionSeekResult::Unexpected);
    assert_eq!(src.state.segment_seqnum, Some(9));
}

#[test]
fn playbin_source_pushes_segments_once() {
    let mut src = PlaybinPoolSrc::new();
    let first = sample(1);
    assert_eq!(src.create(&first), (first.segment, Ok(Created::Buffer(1001))));
    assert_eq!(src.create(&sample(2)), (None, Ok(Created::Buffer(1002))));
    let list = Sample { buffer: None, buffer_list: Some(8), segment: Some(bytes()), ..sample(3) };
    assert_eq!(src.create(&list), (Some(bytes()), Ok(Created::BufferList(8))));
    let empty = Sample { buffer: None, segment: None, ..sample(4) };
    assert_eq!(src.create(&empty), (None, Err(FlowError::Error)));
}

#[test]
fn decode_source_pushes_segments_once() {
    let mut src = uri_src();
    let mut handler = SeekHandler::new("pipeline");
    assert_eq!(UriDecodePoolSrc::create_begin(&handler, None), Ok(NextSample::FromSink));
    let first = sample(1);
    assert_eq!(
        src.create_process(&mut handler, &first, Placement::Outside, None, false),
        Ok(first.segment)
    );
    assert_eq!(
        src.create_finish(&mut handler, &first, first.segment, Some(5)),
        (first.segment, Ok(Created::Buffer(1001)))
    );
    assert_eq!(handler.state.stream_time, Some(5));
    assert_eq!(
        src.create_finish(&mut handler, &sample(2), first.segment, Some(6)),
        (None, Ok(Created::Buffer(1002)))
    );
    let other = Sample { segment: Some(bytes()), ..sample(3) };
    assert_eq!(
        src.create_finish(&mut handler, &other, other.segment, None),
        (None, Err(FlowError::Error))
    );
    assert_eq!(handler.state.stream_time, Some(6));
    // So is a list of buffers in another format.
    let list = Sample { buffer: None, buffer_list: Some(8), ..other };
    assert_eq!(
        src.create_finish(&mut handler, &list, list.segment, None),
        (None, Err(FlowError::Error))
    );
    let empty = Sample { buffer: None, segment: None, ..sample(4) };
    assert_eq!(
        src.create_finish(&mut handler, &empty, None, None),
        (None, Err(FlowError::Error))
    );
}

#[test]
fn decode_source_uses_the_segment_of_the_seek() {
    let mut src = uri_src();
    src.settings.inpoint = Some(0);
    let mut handler = SeekHandler::new("pipeline");
    handler.state.seek_info = SeekInfo::SeekSegment(12, segment(0));
    assert_eq!(
        src.create_process(&mut handler, &sample(1), Placement::Between(0, 1), None, false),
        Ok(Some(segment(0)))
    );
    assert_eq!(src.state.segment_seqnum, Some(12));
    assert_eq!(
        src.create_process(&mut handler, &sample(2), Placement::Between(100, 101), None, false),
        Err(FlowError::Eos)
    );
    assert!(!UriDecodePoolSrc::needs_caps(Some(&handler)));
    assert!(UriDecodePoolSrc::needs_caps(Some(&SeekHandler::new("x"))));
    assert!(UriDecodePoolSrc::needs_caps(None));
    assert_eq!(
        UriDecodePoolSrc::create_begin(&handler, None),
        Ok(NextSample::Kept(sample(2), 3))
    );
}

#[test]
fn kept_samples_need_caps() {
    let bare = Sample { caps: None, ..sample(1) };
    assert_eq!(UriDecodePoolSrc::eos_sample_caps(&sample(1), Some(9)), Ok(3));
    assert_eq!(UriDecodePoolSrc::eos_sample_caps(&bare, Some(9)), Ok(9));
    assert_eq!(UriDecodePoolSrc::eos_sample_caps(&bare, None), Err(FlowError::NotNegotiated));
    let mut handler = SeekHandler::new("pipeline");
    handler.state.seek_info = SeekInfo::PreviousSeekDone(bare, None);
    assert_eq!(
        UriDecodePoolSrc::create_begin(&handler, None),
        Err(FlowError::NotNegotiated)
    );
    handler.state.nle_seek = Some(seek(1, 1));
    assert_eq!(UriDecodePoolSrc::create_begin(&handler, Some(9)), Err(FlowError::Eos));
}

#[test]
fn caps_are_negotiated() {
    assert_eq!(UriDecodePoolSrc::negotiated(Ok(4), Some(5)), Ok(Some(4)));
    assert_eq!(UriDecodePoolSrc::negotiated(Err(FlowError::Eos), Some(5)), Ok(Some(5)));
    assert_eq!(UriDecodePoolSrc::negotiated(Err(FlowError::Eos), None), Ok(None));
    assert_eq!(
        UriDecodePoolSrc::negotiated(Err(FlowError::Flushing), Some(5)),
        Err(FlowError::Flushing)
    );
    let src = uri_src();
    assert_eq!(src.set_caps(true, true), Ok(()));
    assert_eq!(src.set_caps(false, true), Err(FlowError::Flushing));
    assert_eq!(src.set_caps(false, false), Err(FlowError::NotNegotiated));
}

#[test]
fn initial_seek_plays_the_range() {
    let mut src = uri_src();
    assert_eq!(src.initial_seek_event(4), None);
    src.settings.inpoint = Some(10);
    assert!(src.has_range_end());
    let open = src.initial_seek_event(4).unwrap();
    assert_eq!(open.seqnum, 4);
    assert_eq!(open.seek.flags, 3);
    assert_eq!(open.seek.rate.bits, 1f64.to_bits());
    assert_eq!(open.seek.start, Position { format: FORMAT_TIME, value: Some(10) });
    assert_eq!(open.seek.stop, Position { format: FORMAT_TIME, value: None });
    src.settings.duration = Some(5);
    src.settings.reverse = true;
    let closed = src.initial_seek_event(4).unwrap();
    assert_eq!(closed.seek.rate.bits, (-1f64).to_bits());
    assert_eq!(closed.seek.stop, Position { format: FORMAT_TIME, value: Some(15) });
    assert_eq!(src.source_range().duration, Some(5));

    for (duration, ends) in [(u64::MAX - 11, true), (u64::MAX - 10, false)] {
        src.settings.duration = Some(duration);
        assert_eq!(src.has_range_end(), ends);
    }
    src.settings.duration = Some(5);

    // It is a seek that the pipeline expects.
    for reverse in [false, true] {
        src.settings.reverse = reverse;
        let event = src.initial_seek_event(4).unwrap();
        let mut handler = SeekHandler::new("pipeline");
        assert!(handler.can_announce(&src.source_range(), &event));
        assert_eq!(
            handler.handle_nlecomposition_seek(&src.source_range(), &event),
            NleCompositionSeekResult::Expected
        );
    }
}

#[test]
fn pipelines_are_numbered() {
    let mut src = uri_src();
    assert_eq!(src.prepare_pipeline_next_number(), 0);
    assert_eq!(src.prepare_pipeline_next_number(), 1);
    src.n_pipelines = u32::MAX;
    assert_eq!(src.prepare_pipeline_next_number(), u32::MAX);
    assert_eq!(src.prepare_pipeline_next_number(), 0);
}

#[test]
fn questions_are_answered() {
    let named = |name: &str| QueryKind::Custom(Some(name.to_string()));
    let mut uri = uri_src();
    let mut playbin = PlaybinPoolSrc::new();
    assert!(matches!(
        uri.query(&QueryKind::Uri),
        QueryAction::SetUri { uri: Some(uri), done: true } if uri == "file:///a"
    ));
    assert!(matches!(
        playbin.query(&QueryKind::Uri),
        QueryAction::SetUri { uri: None, done: false }
    ));
    for action in [uri.query(&QueryKind::Duration), playbin.query(&QueryKind::Duration)] {
        assert!(matches!(action, QueryAction::Parent));
    }
    uri.set_decoderpipe(3);
    playbin.set_playbin(3);
    for action in [
        uri.query(&QueryKind::Duration),
        playbin.query(&QueryKind::Duration),
        uri.query(&named("else")),
        playbin.query(&named("else")),
        uri.query(&QueryKind::Custom(None)),
        playbin.query(&QueryKind::Custom(None)),
    ] {
        assert!(matches!(action, QueryAction::Pipeline(3)));
    }
    for action in [uri.query(&named("can-seek-in-null")), playbin.query(&named("can-seek-in-null"))] {
        assert!(matches!(action, QueryAction::CanSeekInNull));
    }
    for action in [uri.query(&QueryKind::Other), playbin.query(&QueryKind::Other)] {
        assert!(matches!(action, QueryAction::Parent));
    }
}
