use gstplugins::uridecodepool::decoderpipeline::{
    BusAction, BusMessage, DecoderPipeline, PadAdded, PadRemoved, PipelineState, SeekAction,
    Selection, TargetSrcState, AUDIO_FILTER, VIDEO_FILTER,
};
use gstplugins::uridecodepool::imp::Caps;
use gstplugins::values::{
    Position, Rate, Seek, SeekEvent, SeekType, Stream, FORMAT_TIME, STREAM_TYPE_AUDIO,
    STREAM_TYPE_TEXT, STREAM_TYPE_UNKNOWN, STREAM_TYPE_VIDEO,
};

fn caps(name: Option<&str>) -> Caps {
    Caps { handle: 1, name: name.map(String::from) }
}

fn seek(seqnum: u32) -> SeekEvent {
    let position = Position { format: FORMAT_TIME, value: Some(0) };
    SeekEvent {
        seqnum,
        seek: Seek {
            rate: Rate { bits: 1f64.to_bits() },
            flags: 1,
            start_type: SeekType::Absolute,
            start: position,
            stop_type: SeekType::Absolute,
            stop: position,
        },
    }
}

fn pipeline(initial_seek: Option<SeekEvent>) -> DecoderPipeline {
    DecoderPipeline::new(
        "src0_1",
        "file:///a",
        &caps(Some("video/x-raw")),
        &None,
        initial_seek,
        50,
        51,
    )
}

fn stream(id: &str, stream_type: u32) -> Stream {
    Stream { id: Some(id.to_string()), stream_type }
}

const PLAYING: BusMessage = BusMessage::StateChanged { of_pipeline: true, playing: true };

#[test]
fn caps_select_a_type_of_stream() {
    for (name, stream_type) in [
        (Some("video/x-raw"), STREAM_TYPE_VIDEO),
        (Some("audio/x-raw"), STREAM_TYPE_AUDIO),
        (Some("text/x-raw"), STREAM_TYPE_TEXT),
        (Some("video/x-h264"), STREAM_TYPE_UNKNOWN),
        (None, STREAM_TYPE_UNKNOWN),
    ] {
        let p = DecoderPipeline::new("n", "u", &caps(name), &None, None, 0, 1);
        assert_eq!(p.stream_type(), stream_type, "{name:?}");
    }
}

#[test]
fn collections_lead_to_a_selection() {
    let mut p = pipeline(None);
    let streams = vec![stream("a", STREAM_TYPE_AUDIO), stream("v", STREAM_TYPE_VIDEO)];
    let message = BusMessage::StreamCollection(streams);
    assert!(matches!(
        p.handle_bus_message(&message, true),
        BusAction::SelectStream { stream_id, seqnum: 50 } if stream_id == "v"
    ));
    assert!(p.requested_stream_started(&Some("v".to_string())));
    assert!(!p.requested_stream_started(&Some("a".to_string())));
    assert!(!p.reset("file:///b", &caps(None), &Some("a".to_string()), 60));
    assert_eq!(p.requested_stream_id().as_deref(), Some("a"));
    assert_eq!(p.uri, "file:///b");
    assert!(matches!(
        p.handle_bus_message(&message, true),
        BusAction::SelectStream { stream_id, seqnum: 60 } if stream_id == "a"
    ));
    p.reset("file:///b", &caps(None), &None, 61);
    assert!(matches!(p.handle_bus_message(&message, true), BusAction::Nothing));
    assert!(p.stream.is_none());
}

#[test]
fn selections_wait_for_the_lock_unless_torn_down() {
    let mut p = pipeline(None);
    assert_eq!(p.try_selection(true), Selection::Send);
    assert_eq!(p.try_selection(false), Selection::Retry);
    p.tear_down(70);
    assert_eq!(p.stream_selection_seqnum, 70);
    assert_eq!(p.try_selection(true), Selection::Send);
    assert_eq!(p.try_selection(false), Selection::GiveUp);
    assert!(p.play(Some(PipelineState::Null)));
    assert_eq!(p.try_selection(false), Selection::Retry);
}

#[test]
fn context_messages_are_posted() {
    let mut p = pipeline(None);
    assert!(matches!(p.handle_bus_message(&BusMessage::Context, true), BusAction::PostToPool));
    assert!(matches!(p.handle_bus_message(&BusMessage::Context, false), BusAction::Nothing));
    p.set_target_src(TargetSrcState::InUse(3));
    assert!(matches!(
        p.handle_bus_message(&BusMessage::Context, false),
        BusAction::PostToTarget(3)
    ));
    assert!(matches!(p.handle_bus_message(&BusMessage::Error, false), BusAction::ReportError));
    assert!(matches!(p.handle_bus_message(&BusMessage::Other, false), BusAction::Nothing));
}

#[test]
fn early_seeks_are_kept() {
    let mut p = pipeline(None);
    assert!(matches!(p.handle_bus_message(&PLAYING, false), BusAction::Nothing));
    assert_eq!(p.seek(seek(1), Some(PipelineState::Ready)), SeekAction::Postponed);
    assert_eq!(p.seek(seek(2), Some(PipelineState::Paused)), SeekAction::Postponed);
    let inner = BusMessage::StateChanged { of_pipeline: false, playing: true };
    assert!(matches!(p.handle_bus_message(&inner, false), BusAction::Nothing));
    let paused = BusMessage::StateChanged { of_pipeline: true, playing: false };
    assert!(matches!(p.handle_bus_message(&paused, false), BusAction::Nothing));
    assert!(matches!(p.handle_bus_message(&PLAYING, false), BusAction::SeekInThread));
    assert_eq!(p.take_pending_seek(), Some(seek(2)));
    assert_eq!(p.take_pending_seek(), None);
    assert!(matches!(p.handle_bus_message(&PLAYING, false), BusAction::Nothing));
}

#[test]
fn repeated_seeks_are_ignored() {
    let mut p = pipeline(None);
    assert_eq!(p.seek(seek(1), Some(PipelineState::Null)), SeekAction::Postponed);
    assert_eq!(p.seek(seek(2), Some(PipelineState::Playing)), SeekAction::Send(seek(2)));
    assert_eq!(p.take_pending_seek(), None);
    assert_eq!(p.seek(seek(2), None), SeekAction::Ignored);
    assert_eq!(p.seek(seek(2), Some(PipelineState::Paused)), SeekAction::Ignored);
    assert_eq!(p.seek(seek(3), None), SeekAction::Failed);
    assert_eq!(p.seek(seek(3), Some(PipelineState::Playing)), SeekAction::Send(seek(3)));
}

#[test]
fn initial_seek_is_sent_by_new_pipelines() {
    let mut p = pipeline(Some(seek(9)));
    assert!(!p.play(None));
    assert_eq!(p.pending_seek, None);
    assert!(p.play(Some(PipelineState::Playing)));
    assert!(p.play(Some(PipelineState::Paused)));
    assert_eq!(p.pending_seek, None);
    for state in [PipelineState::VoidPending, PipelineState::Null, PipelineState::Ready] {
        assert!(p.play(Some(state)));
        assert_eq!(p.take_pending_seek(), Some(seek(9)));
    }
    let mut p = pipeline(None);
    p.pending_seek = Some(seek(8));
    assert!(p.play(Some(PipelineState::Null)));
    assert_eq!(p.pending_seek, Some(seek(8)));
}

#[test]
fn targets_come_and_go() {
    let mut p = pipeline(None);
    p.torn_down(5);
    p.mark_target_src_pending();
    p.mark_target_src_in_use();
    assert_eq!(p.target_src, TargetSrcState::Free);
    assert_eq!(p.unused_since, Some(5));
    p.set_target_src(TargetSrcState::InUse(3));
    assert_eq!(p.unused_since, None);
    assert!(p.target_src.has_target(3));
    assert!(!p.target_src.has_target(4));
    assert_eq!(p.target_src.pending_src(), None);
    p.mark_target_src_pending();
    assert!(p.target_src.has_target(3));
    assert_eq!(p.target_src.pending_src(), Some(3));
    assert_eq!(p.target_src.src(), Some(3));
    p.mark_target_src_in_use();
    assert_eq!(p.target_src, TargetSrcState::InUse(3));
    p.stream = Some(stream("v", STREAM_TYPE_VIDEO));
    p.release();
    assert_eq!(p.target_src, TargetSrcState::Free);
    assert!(p.stream.is_none());
}

#[test]
fn pads_are_linked_by_type() {
    let added = DecoderPipeline::pad_added;
    assert_eq!(added(true, Some(STREAM_TYPE_VIDEO)), PadAdded::AlreadyLinked);
    assert_eq!(added(false, Some(STREAM_TYPE_VIDEO)), PadAdded::VideoFilter);
    assert_eq!(added(false, Some(STREAM_TYPE_AUDIO)), PadAdded::AudioFilter);
    assert_eq!(added(false, Some(STREAM_TYPE_VIDEO | STREAM_TYPE_AUDIO)), PadAdded::Link);
    assert_eq!(added(false, Some(STREAM_TYPE_TEXT)), PadAdded::Link);
    assert_eq!(added(false, None), PadAdded::Link);
    assert_eq!(AUDIO_FILTER, "audioconvert ! scaletempo ! audioconvert");
    assert_eq!(
        VIDEO_FILTER,
        "glupload ! glcolorconvert ! capsfilter caps=\"video/x-raw(memory:GLMemory),format=RGBA\""
    );
    assert_eq!(DecoderPipeline::pad_removed(None), PadRemoved::Nothing);
    assert_eq!(DecoderPipeline::pad_removed(Some(false)), PadRemoved::Unlink);
    assert_eq!(DecoderPipeline::pad_removed(Some(true)), PadRemoved::UnlinkAndRemove);
}

#[test]
fn stopped_pipelines_forget_their_seeks() {
    let mut p = pipeline(None);
    assert!(p.link_failure_is_error());
    p.seek_handler.state.stream_time = Some(4);
    p.seek_handler.state.probe_id = Some(6);
    assert!(p.stop());
    assert!(!p.stop());
    assert!(!p.link_failure_is_error());
    assert_eq!(p.stopped(true), Some(6));
    assert!(p.tearing_down);
    assert_eq!(p.seek_handler.state, pipeline(None).seek_handler.state);
    assert!(p.reset("file:///b", &caps(None), &None, 1));
}
