use gstplugins::playbinpool::pool::{Acquired, Origin, PlaybinPool, DEFAULT_CLEANUP_TIMEOUT_SEC};
use gstplugins::playbinpool::pooledplaybin::{PooledPlayBin, Request};
use gstplugins::uridecodepool::decoderpipeline::TargetSrcState;
use gstplugins::uridecodepool::imp::{Caps, UriDecodePoolSrc};
use gstplugins::uridecodepool::pool::{
    Acquired as DecodeAcquired, DeferredRelease, Origin as DecodeOrigin, Released,
    Request as DecodeRequest, UriDecodePool,
};
use gstplugins::uridecodepool::seek_handler::SeekInfo;
use gstplugins::values::{Sample, Stream, SECOND, STREAM_TYPE_AUDIO, STREAM_TYPE_VIDEO};

fn request(src: u64, stream_id: Option<&str>) -> Request {
    Request {
        src,
        uri: format!("file:///{src}"),
        stream_type: STREAM_TYPE_VIDEO,
        stream_id: stream_id.map(String::from),
    }
}

fn created(id: u64) -> Acquired {
    Acquired { id, origin: Origin::Created }
}

#[test]
fn playbins_are_created_for_sources() {
    let mut pool = PlaybinPool::new();
    assert_eq!(pool.cleanup_timeout, DEFAULT_CLEANUP_TIMEOUT_SEC);
    assert!(pool.is_drained());
    assert_eq!(pool.get(&request(7, Some("v"))), created(0));
    assert_eq!(pool.get(&request(8, Some("v"))), created(1));
    assert_eq!(pool.running, [0, 1]);
    assert_eq!(pool.outstandings, 2);
    assert!(!pool.is_drained());
    let record = pool.pipeline(0).unwrap();
    assert_eq!(record.target_src, Some(7));
    assert_eq!(record.uri, "file:///7");
    assert_eq!(record.stream_id.as_deref(), Some("v"));
    assert_eq!(record.unused_since, None);
    assert!(pool.pipeline(2).is_none());
}

#[test]
fn prepared_playbins_are_used() {
    let mut pool = PlaybinPool::new();
    assert_eq!(pool.prepare_pipeline(&request(7, None)), Some(created(0)));
    assert!(pool.pipeline_prepared(0, true));
    // One is enough.
    assert_eq!(pool.prepare_pipeline(&request(7, Some("v"))), None);
    assert_eq!(pool.prepare_pipeline(&request(8, None)), Some(created(1)));
    assert!(pool.pipeline_prepared(1, true));
    assert_eq!(
        pool.get(&request(8, Some("else"))),
        Acquired { id: 1, origin: Origin::Prepared }
    );
    assert_eq!(pool.prepared, [0]);
    assert_eq!(pool.running, [1]);
    assert_eq!(pool.unprepare_pipeline(8), None);
    assert_eq!(pool.unprepare_pipeline(7), Some(0));
    assert_eq!(pool.pipeline(0).unwrap().target_src, None);
    assert_eq!(pool.unprepare_pipeline(7), None);
}

#[test]
fn playbins_that_do_not_play_are_not_prepared() {
    let mut pool = PlaybinPool::new();
    assert_eq!(pool.prepare_pipeline(&request(7, None)), Some(created(0)));
    assert!(!pool.pipeline_prepared(0, false));
    assert!(pool.prepared.is_empty());
    assert_eq!(pool.outstandings, 1);
    assert_eq!(pool.prepare_pipeline(&request(7, None)), Some(created(1)));
}

#[test]
fn playbins_are_reused_for_the_same_stream() {
    let mut pool = PlaybinPool::new();
    pool.get(&request(7, Some("v")));
    pool.get(&request(8, Some("w")));
    pool.get(&request(9, None));
    for id in [0, 1, 2] {
        pool.release(id);
        assert_eq!(pool.pipeline(id).unwrap().target_src, None);
        assert_eq!(pool.released(id, 5), 15);
    }
    assert!(pool.running.is_empty());
    assert_eq!(pool.unused, [2, 1, 0]);
    assert_eq!(
        pool.get(&request(10, Some("v"))),
        Acquired { id: 0, origin: Origin::Reused }
    );
    assert_eq!(pool.unused, [2, 1]);
    let record = pool.pipeline(0).unwrap();
    assert_eq!(record.target_src, Some(10));
    assert_eq!(record.uri, "file:///10");
    assert_eq!(record.unused_since, None);
    assert_eq!(pool.outstandings, 3);
}

#[test]
fn playbins_are_reused_for_another_location() {
    let mut pool = PlaybinPool::new();
    pool.get(&request(7, Some("v")));
    pool.get(&request(8, None));
    for id in [0, 1] {
        pool.release(id);
        pool.released(id, 5);
    }
    // The one that played the location before is passed over.
    assert_eq!(pool.get(&request(8, None)), Acquired { id: 0, origin: Origin::Reused });
    assert_eq!(pool.pipeline(0).unwrap().uri, "file:///8");
    assert_eq!(pool.get(&request(8, Some("w"))), created(2));
    assert_eq!(pool.unused, [1]);
    assert_eq!(
        pool.prepare_pipeline(&request(9, Some("x"))),
        Some(Acquired { id: 1, origin: Origin::Reused })
    );
    assert_eq!(pool.outstandings, 3);
}

#[test]
fn playbins_are_kept_for_the_timeout() {
    let mut pool = PlaybinPool::new();
    for src in 0..4 {
        pool.get(&request(src, None));
    }
    for (id, now) in [(0, 0), (1, SECOND), (2, 2 * SECOND), (3, 3 * SECOND)] {
        pool.release(id);
        pool.released(id, now);
    }
    assert!(pool.cleanup(15 * SECOND).is_empty());
    assert_eq!(pool.cleanup(17 * SECOND), [0, 1]);
    assert_eq!(pool.unused, [3, 2]);
    assert_eq!(pool.outstandings, 2);
    assert!(pool.pipeline(0).is_none());
    // A clock that runs backward expires nothing.
    assert!(pool.cleanup(0).is_empty());
    assert_eq!(pool.set_cleanup_timeout(14, 17 * SECOND), [2]);
    assert_eq!(pool.cleanup_timeout, 14);
    assert_eq!(pool.set_cleanup_timeout(0, 3 * SECOND + 1), [3]);
    assert!(pool.is_drained());
    assert!(pool.set_cleanup_timeout(u64::MAX, u64::MAX).is_empty());
}

#[test]
fn playbin_pool_shuts_down() {
    let mut pool = PlaybinPool::new();
    pool.get(&request(0, None));
    for src in [1, 2] {
        let prepared = pool.prepare_pipeline(&request(src, None)).unwrap();
        pool.pipeline_prepared(prepared.id, true);
    }
    pool.release(0);
    pool.released(0, 10);
    let (stopped, released) = pool.deinit(20);
    assert_eq!(stopped, [0]);
    assert_eq!(released, [2, 1]);
    assert!(pool.prepared.is_empty());
    assert_eq!(pool.pipeline(1).unwrap().target_src, None);
    assert!(!pool.is_drained());
    for id in released {
        assert_eq!(pool.released(id, 30), 0);
    }
    assert!(pool.cleanup(30).is_empty());
    assert_eq!(pool.cleanup(31), [2, 1]);
    assert!(pool.is_drained());
}

fn streams() -> Vec<Stream> {
    vec![
        Stream { id: Some("a".to_string()), stream_type: STREAM_TYPE_AUDIO },
        Stream { id: Some("v".to_string()), stream_type: STREAM_TYPE_VIDEO },
    ]
}

#[test]
fn playbins_select_their_stream() {
    let mut pool = PlaybinPool::new();
    pool.get(&request(0, Some("a")));
    pool.get(&request(1, Some("nope")));
    assert_eq!(pool.select_stream(0, &streams()).as_deref(), Some("a"));
    // The type does not count where a stream was asked for.
    assert_eq!(pool.select_stream(1, &streams()), None);
    assert!(pool.pipeline(1).unwrap().stream.is_none());
    pool.get(&request(2, None));
    assert_eq!(pool.select_stream(2, &streams()).as_deref(), Some("v"));
    assert_eq!(pool.select_stream(2, &vec![]), None);
    let selected = pool.pipeline(2).unwrap().stream.as_ref().unwrap();
    assert_eq!(selected.id.as_deref(), Some("v"));
    pool.release(2);
    assert!(pool.pipeline(2).unwrap().stream.is_none());
}

#[test]
fn playbin_records_are_set_up_again() {
    let mut record = PooledPlayBin::new("file:///a", STREAM_TYPE_VIDEO, &None);
    assert!(record.pad_added(false));
    assert!(!record.pad_added(true));
    record.handle_bus_message(&streams());
    assert!(record.stream.is_some());
    assert!(!record.reset("file:///b", STREAM_TYPE_AUDIO, &Some("a".to_string())));
    assert!(record.stream.is_none());
    assert_eq!(record.uri, "file:///b");
    assert!(record.stop());
    assert!(!record.stop());
    assert!(record.reset("file:///c", STREAM_TYPE_AUDIO, &None));
    record.torn_down(4);
    record.set_target_src(None);
    assert_eq!(record.unused_since, Some(4));
    record.set_target_src(Some(1));
    assert_eq!(record.unused_since, None);
}

fn decode_request(src: u64, number: u32) -> DecodeRequest {
    DecodeRequest {
        src,
        src_name: format!("src{src}"),
        number,
        uri: format!("file:///{src}"),
        caps: Caps { handle: 1, name: Some("video/x-raw".to_string()) },
        stream_id: None,
        initial_seek: None,
        stream_selection_seqnum: 100,
        last_seek_seqnum: 101,
    }
}

fn decoder(id: u64, origin: DecodeOrigin) -> DecodeAcquired {
    DecodeAcquired { id, origin }
}

fn end_seek(pool: &mut UriDecodePool, id: u64) {
    let mut record = pool.take_pipeline(id).unwrap();
    let sample = Sample {
        handle: 77,
        buffer: None,
        buffer_list: None,
        caps: None,
        framerate: None,
        segment: None,
    };
    record.seek_handler.state.seek_info = SeekInfo::PreviousSeekDone(sample, None);
    pool.put_pipeline(id, record);
}

#[test]
fn decoders_are_created_for_sources() {
    let mut pool = UriDecodePool::new();
    assert_eq!(pool.cleanup_timeout, 15);
    assert!(!pool.deinitialized());
    assert!(pool.is_drained());
    assert_eq!(
        pool.get(&decode_request(7, 12)),
        decoder(0, DecodeOrigin::Created)
    );
    let record = pool.pipeline(0).unwrap();
    assert_eq!(record.name, "src7_12");
    assert_eq!(record.seek_handler.name, "src7_12");
    assert_eq!(record.uri, "file:///7");
    assert_eq!(record.target_src, TargetSrcState::InUse(7));
    assert_eq!(pool.running, [0]);
    assert_eq!(pool.get(&decode_request(8, 0)).id, 1);
    assert_eq!(pool.pipelines, [1, 0]);
    assert!(pool.take_pipeline(5).is_none());
}

#[test]
fn prepared_decoders_are_used() {
    let mut pool = UriDecodePool::new();
    assert_eq!(
        pool.prepare_pipeline(&decode_request(7, 0)),
        Some(decoder(0, DecodeOrigin::Created))
    );
    assert!(pool.pipeline_prepared(0, true));
    assert_eq!(pool.prepare_pipeline(&decode_request(7, 1)), None);
    assert_eq!(
        pool.get(&decode_request(7, 2)),
        decoder(0, DecodeOrigin::Prepared)
    );
    // Nothing is prepared for a source that plays.
    assert_eq!(pool.prepare_pipeline(&decode_request(7, 3)), None);
    assert_eq!(
        pool.prepare_pipeline(&decode_request(8, 0)),
        Some(decoder(1, DecodeOrigin::Created))
    );
    assert!(!pool.pipeline_prepared(1, false));
    assert_eq!(pool.pipeline(1).unwrap().target_src, TargetSrcState::Free);
    assert_eq!(
        pool.prepare_pipeline(&decode_request(9, 0)),
        Some(decoder(2, DecodeOrigin::Created))
    );
    assert!(pool.pipeline_prepared(2, true));
    assert_eq!(pool.unprepare_pipeline(7), None);
    assert_eq!(pool.unprepare_pipeline(9), Some(2));
    assert_eq!(pool.unprepare_pipeline(9), None);
}

#[test]
fn decoders_that_ended_a_seek_go_on() {
    let mut pool = UriDecodePool::new();
    pool.get(&decode_request(7, 0));
    end_seek(&mut pool, 0);
    assert_eq!(pool.release(0, 1000), Released::Deferred(15));
    assert!(pool.running.is_empty());
    assert_eq!(pool.prepared, [0]);
    assert_eq!(pool.pipeline(0).unwrap().target_src, TargetSrcState::Pending(7));
    // It is not given up on demand, as it was played.
    assert_eq!(pool.unprepare_pipeline(7), None);
    assert_eq!(
        pool.get(&decode_request(7, 1)),
        decoder(0, DecodeOrigin::Prepared)
    );
    assert_eq!(pool.pipeline(0).unwrap().target_src, TargetSrcState::InUse(7));
    assert!(pool.pipeline(0).unwrap().seek_handler.has_eos_sample());
    assert!(matches!(pool.deferred_release(0, 1000, 2000), DeferredRelease::Kept));
    assert!(matches!(pool.deferred_release(0, 1000, 2000), DeferredRelease::Stale));
    assert_eq!(pool.running, [0]);
}

#[test]
fn decoders_that_are_not_wanted_again_are_given_up() {
    let mut pool = UriDecodePool::new();
    pool.get(&decode_request(7, 0));
    end_seek(&mut pool, 0);
    pool.release(0, 1000);
    // Given back a second time, its time starts anew.
    pool.get(&decode_request(7, 1));
    pool.release(0, 2000);
    assert!(matches!(pool.deferred_release(0, 1000, 3000), DeferredRelease::Stale));
    match pool.deferred_release(0, 2000, 3000) {
        DeferredRelease::TearDown { src: Some(7), stopped } => assert!(stopped.is_empty()),
        other => panic!("{other:?}"),
    }
    assert_eq!(pool.pipeline(0).unwrap().target_src, TargetSrcState::Free);
    // It stays where it was listed, but not for the source.
    assert_eq!(pool.prepared, [0]);
    assert_eq!(pool.get(&decode_request(7, 2)), decoder(1, DecodeOrigin::Created));
    // Torn down, it is there for others.
    pool.pipeline_released(0, 4000);
    assert_eq!(pool.get(&decode_request(8, 0)), decoder(0, DecodeOrigin::Reused));
    assert_eq!(pool.running, [1, 0]);
}

#[test]
fn shut_down_pools_give_up_what_they_kept() {
    let mut pool = UriDecodePool::new();
    pool.get(&decode_request(7, 0));
    end_seek(&mut pool, 0);
    pool.release(0, 1000);
    let (stopped, released) = pool.deinit(1500);
    assert!(stopped.is_empty());
    assert_eq!(released, [(0, Some(7))]);
    assert!(pool.deinitialized());
    assert!(matches!(
        pool.deferred_release(0, 1000, 2000),
        DeferredRelease::TearDown { src: None, .. }
    ));
    assert_eq!(pool.pipeline_released(0, 3000), 0);
    assert_eq!(pool.cleanup(3001), [0]);
    pool.pipeline_stopped(0);
    assert!(pool.is_drained());
    assert_eq!(pool.prepared, [0]);
    assert!(pool.pipeline(0).is_some());
}

#[test]
fn short_timeouts_leave_a_second() {
    let mut pool = UriDecodePool::new();
    pool.set_cleanup_timeout(0, 0);
    pool.get(&decode_request(7, 0));
    end_seek(&mut pool, 0);
    assert_eq!(pool.release(0, 1000), Released::Deferred(1));
}

#[test]
fn decoders_are_kept_for_the_timeout() {
    let mut pool = UriDecodePool::new();
    for src in 0..3 {
        pool.get(&decode_request(src, 0));
    }
    for (id, now) in [(0, 0), (1, SECOND), (2, 20 * SECOND)] {
        assert_eq!(pool.release(id, now), Released::TearDown);
        assert_eq!(pool.pipeline_released(id, now), 15);
    }
    assert_eq!(pool.pooled, [2, 1, 0]);
    // Torn down once more, a pipeline is kept once, and longer.
    pool.pipeline_released(0, 2 * SECOND);
    assert_eq!(pool.pooled, [2, 1, 0]);
    assert_eq!(pool.cleanup(16 * SECOND + 1), [1]);
    assert!(!pool.pipeline(1).unwrap().listening);
    assert!(pool.pipeline(0).unwrap().listening);
    assert_eq!(pool.cleanup(35 * SECOND), [0]);
    // What is left plays the location that is asked for.
    assert_eq!(pool.pooled, [2]);
    assert_eq!(pool.get(&decode_request(2, 1)), decoder(3, DecodeOrigin::Created));
    pool.pipeline_stopped(1);
    assert_eq!(pool.pipelines, [3, 2, 0]);
    assert!(pool.pipeline(1).is_none());
    // A pipeline that is pooled again is remembered until it is stopped again.
    pool.pipeline_released(0, 36 * SECOND);
    pool.pipeline_stopped(0);
    assert_eq!(pool.pipelines, [3, 2]);
    assert!(pool.pipeline(0).is_some());
}

#[test]
fn pools_may_have_a_bus() {
    let mut pool = UriDecodePool::new();
    assert_eq!(pool.bus, None);
    pool.bus = Some(4);
    pool.deinit(0);
    assert_eq!(pool.bus, Some(4));
}

#[test]
fn shut_down_playbin_pools_stop_what_comes_back() {
    let mut pool = PlaybinPool::new();
    pool.get(&request(7, Some("v")));
    pool.deinit(5);
    assert!(!pool.is_drained());
    pool.release(0);
    assert_eq!(pool.released(0, 10), 0);
    assert!(pool.cleanup(10).is_empty());
    assert_eq!(pool.cleanup(11), [0]);
    assert!(pool.is_drained());
}

#[test]
fn shut_down_decoder_pools_stop_what_comes_back() {
    let mut pool = UriDecodePool::new();
    pool.get(&decode_request(7, 0));
    pool.get(&decode_request(8, 0));
    let (stopped, released) = pool.deinit(5);
    assert!(stopped.is_empty());
    assert_eq!(released, [(1, Some(8)), (0, Some(7))]);
    for id in [0, 1] {
        assert_eq!(pool.pipeline_released(id, 10), 0);
    }
    assert_eq!(pool.cleanup(11), [0, 1]);
    pool.pipeline_stopped(1);
    assert_eq!(pool.pipelines, [0]);
    assert!(!pool.is_drained());
    pool.pipeline_stopped(0);
    assert!(pool.is_drained());
    // The sources still have theirs.
    assert_eq!(pool.running, [0, 1]);
    assert!(pool.pipeline(0).is_some());
    assert_eq!(pool.release(0, 20), Released::TearDown);
    assert_eq!(pool.running, [1]);
    pool.pipeline_stopped(0);
    assert!(pool.pipeline(0).is_none());
}

#[test]
fn torn_down_decoders_stay_listed() {
    let mut pool = UriDecodePool::new();
    pool.get(&decode_request(7, 0));
    end_seek(&mut pool, 0);
    // Torn down under its source, it is played and unused at once.
    pool.pipeline_released(0, 5);
    assert_eq!(pool.running, [0]);
    assert_eq!(pool.pooled, [0]);
    // And kept for the source, once that gives it back.
    assert_eq!(pool.release(0, 10), Released::Deferred(15));
    assert_eq!(pool.pooled, [0]);
    assert_eq!(pool.prepared, [0]);
    // Given back again, it is kept twice.
    assert_eq!(pool.release(0, 11), Released::Deferred(15));
    assert_eq!(pool.prepared, [0, 0]);
    assert_eq!(pool.get(&decode_request(7, 1)), decoder(0, DecodeOrigin::Prepared));
    assert_eq!(pool.prepared, [0]);
    assert_eq!(pool.get(&decode_request(8, 0)), decoder(0, DecodeOrigin::Reused));
    assert_eq!(pool.running, [0, 0]);
    pool.pipeline_stopped(0);
    assert!(pool.pipeline(0).is_some());
}

#[test]
fn decoders_are_listed_once_in_turn() {
    let mut pool = UriDecodePool::new();
    pool.get(&decode_request(7, 0));
    assert_eq!((pool.running.len(), pool.prepared.len(), pool.pooled.len()), (1, 0, 0));
    end_seek(&mut pool, 0);
    pool.release(0, 1);
    assert_eq!((pool.running.len(), pool.prepared.len(), pool.pooled.len()), (0, 1, 0));
    pool.get(&decode_request(7, 1));
    assert_eq!((pool.running.len(), pool.prepared.len(), pool.pooled.len()), (1, 0, 0));
    let mut record = pool.take_pipeline(0).unwrap();
    record.seek_handler.state.seek_info = SeekInfo::NoSeek;
    pool.put_pipeline(0, record);
    assert_eq!(pool.release(0, 2), Released::TearDown);
    pool.pipeline_released(0, 3);
    assert_eq!((pool.running.len(), pool.prepared.len(), pool.pooled.len()), (0, 0, 1));
}

#[test]
fn decoders_that_stop_while_they_play_are_remembered() {
    let mut pool = UriDecodePool::new();
    pool.get(&decode_request(7, 0));
    pool.pipeline_stopped(0);
    assert!(pool.pipelines.is_empty());
    assert!(pool.pipeline(0).is_some());
    assert_eq!(pool.release(0, 20), Released::TearDown);
    pool.pipeline_stopped(0);
    assert!(pool.pipeline(0).is_none());
}

#[test]
fn torn_down_decoders_are_used_for_other_locations() {
    let mut pool = UriDecodePool::new();
    pool.get(&decode_request(7, 0));
    pool.release(0, 1000);
    pool.pipeline_released(0, 1000);
    let name = pool.pipeline(0).unwrap().name.clone();
    // Not for the location that it played.
    assert_eq!(pool.get(&decode_request(7, 1)), decoder(1, DecodeOrigin::Created));
    let mut other = decode_request(8, 0);
    other.stream_id = Some("else".to_string());
    other.stream_selection_seqnum = 77;
    assert_eq!(pool.prepare_pipeline(&other), Some(decoder(0, DecodeOrigin::Reused)));
    assert!(pool.pooled.is_empty());
    assert_eq!(pool.pipelines, [1, 0]);
    assert_eq!(pool.next_id, 2);
    let record = pool.pipeline(0).unwrap();
    assert_eq!(record.uri, "file:///8");
    assert_eq!(record.stream_id.as_deref(), Some("else"));
    assert_eq!(record.stream_selection_seqnum, 77);
    assert_eq!(record.target_src, TargetSrcState::InUse(8));
    assert_eq!(record.unused_since, None);
    assert_eq!(record.name, name);
    assert!(pool.pipeline_prepared(0, true));
    assert_eq!(pool.get(&decode_request(8, 1)), decoder(0, DecodeOrigin::Prepared));
}

#[test]
fn torn_down_decoders_start_as_the_source_does() {
    let start = |seqnum: u32, inpoint: u64| {
        let mut src = UriDecodePoolSrc::new(1);
        src.settings.inpoint = Some(inpoint);
        src.initial_seek_event(seqnum)
    };
    let mut pool = UriDecodePool::new();
    let mut first = decode_request(7, 0);
    first.initial_seek = start(1, 5);
    pool.get(&first);
    pool.release(0, 1000);
    pool.pipeline_released(0, 1000);
    let mut next = decode_request(8, 0);
    next.initial_seek = None;
    assert_eq!(pool.get(&next), decoder(1, DecodeOrigin::Created));
    next.initial_seek = start(2, 6);
    assert_eq!(pool.get(&next), decoder(2, DecodeOrigin::Created));
    // The sequence number is no part of what a seek asks for.
    next.initial_seek = start(3, 5);
    assert_eq!(pool.get(&next), decoder(0, DecodeOrigin::Reused));
    // A pipeline without a seek of its own serves any.
    pool.release(1, 2000);
    pool.pipeline_released(1, 2000);
    let mut last = decode_request(9, 0);
    last.initial_seek = start(4, 9);
    assert_eq!(pool.get(&last), decoder(1, DecodeOrigin::Reused));
}
