//! The decisions of a source that plays through a pooled pipeline: what it
//! hands out of what the pipeline's sink holds, and how it seeks.
use vstd::prelude::*;

use crate::pull::{
    announce_stream, announced_id, text_eq, Created, Object, Pulled, QueryAction, QueryKind,
    SegmentProbe, SourceMessage, SourceMessageAction, StartError, Step, StreamStartProbe, Wanted,
};
use crate::values::{copy_string, FlowError, Sample, SeekEvent, Segment, Stream, STREAM_TYPE_VIDEO};

verus! {

/// What the source is asked to play.
#[derive(Debug)]
pub struct Settings {
    pub uri: Option<String>,
    /// The type of stream to be used if no identifier is given.
    pub stream_type: u32,
    pub stream_id: Option<String>,
}

#[derive(Clone, Copy, Debug, PartialEq, Eq, Structural)]
pub struct State {
    /// The pipeline that is being played.
    pub playbin: Option<u64>,
    pub start_completed: bool,
    /// The segment that was pushed last.
    pub segment: Option<Segment>,
    /// The seek that the base class is about to perform.
    pub seek_event: Option<SeekEvent>,
    pub flushing: bool,
    /// The flushing seek whose end is waited for.
    pub seek_seqnum: Option<u32>,
    /// The sequence number of the segments of the last flushing seek.
    pub segment_seqnum: Option<u32>,
}

/// How a seek goes on.
#[derive(Clone, Copy, Debug, PartialEq, Eq, Structural)]
pub enum DoSeek {
    /// There is nothing to do.
    Ignored,
    /// The seek is to be sent to the pipeline; it succeeds if the pipeline
    /// takes it.
    Send(u64, SeekEvent),
    /// There is no pipeline, so the seek fails.
    NoPipeline,
}

impl State {
    pub open spec fn initial() -> State {
        State {
            playbin: None,
            start_completed: false,
            segment: None,
            seek_event: None,
            flushing: false,
            seek_seqnum: None,
            segment_seqnum: None,
        }
    }

    /// What was found is handed out unless the source is being flushed.
    pub open spec fn found(self, object: Object) -> Step {
        if self.flushing {
            Step::Fail(FlowError::Flushing)
        } else {
            Step::Found(object)
        }
    }

    /// What to do before pulling: what the sink already shows is enough once
    /// the selected stream plays and no flush is waited for.
    pub open spec fn begin_step(
        self,
        wanted: Wanted,
        started: bool,
        caps: Option<u64>,
        segment: Option<Segment>,
    ) -> Step {
        if self.flushing {
            Step::Fail(FlowError::Flushing)
        } else if started && self.seek_seqnum is None && wanted is Caps && caps is Some {
            Step::Found(Object::Caps(caps->0))
        } else if started && self.seek_seqnum is None && wanted is Segment && segment is Some {
            Step::Found(Object::Segment(segment->0))
        } else {
            Step::Pull
        }
    }

    /// What to do with what was pulled.
    pub open spec fn pulled_step(self, wanted: Wanted, pulled: Pulled, started: bool) -> Step {
        match pulled {
            Pulled::Nothing { eos } => if eos {
                if self.seek_seqnum is Some {
                    Step::Again
                } else {
                    Step::Fail(FlowError::Eos)
                }
            } else if self.flushing {
                Step::Fail(FlowError::Flushing)
            } else {
                Step::Again
            },
            Pulled::Tag(tag) => Step::ForwardTag(tag),
            Pulled::Caps(caps) => if !started {
                Step::Again
            } else if wanted is Caps {
                self.found(Object::Caps(caps))
            } else {
                Step::SetCaps(caps)
            },
            Pulled::Sample(sample) => if started && wanted is Sample && self.seek_seqnum is None {
                self.found(Object::Sample(sample))
            } else {
                Step::Again
            },
            Pulled::FlushStop(_) | Pulled::OtherEvent | Pulled::OtherObject => Step::Again,
        }
    }

    /// The end of the flush that is waited for ends the wait; nothing else
    /// that is pulled changes anything.
    pub open spec fn after_pull(self, pulled: Pulled) -> State {
        match pulled {
            Pulled::FlushStop(seqnum) => if self.seek_seqnum == Some(seqnum) {
                State { seek_seqnum: None, ..self }
            } else {
                self
            },
            _ => self,
        }
    }

    /// The segment is the one that was pushed last.
    pub open spec fn pushed(self, segment: Segment) -> bool {
        self.segment matches Some(last) && segment.same(last)
    }
}

/// A source that plays one stream of a location through a pooled pipeline.
#[derive(Debug)]
pub struct PlaybinPoolSrc {
    pub settings: Settings,
    pub state: State,
}

impl PlaybinPoolSrc {
    pub fn new() -> (r: Self)
        ensures
            r.state == State::initial(),
            r.settings.uri is None,
            r.settings.stream_type == STREAM_TYPE_VIDEO,
            r.settings.stream_id is None,
    {
        PlaybinPoolSrc {
            settings: Settings { uri: None, stream_type: STREAM_TYPE_VIDEO, stream_id: None },
            state: State {
                playbin: None,
                start_completed: false,
                segment: None,
                seek_event: None,
                flushing: false,
                seek_seqnum: None,
                segment_seqnum: None,
            },
        }
    }

    /// What to do about a message on the bus of the pipeline.
    pub fn handle_bus_message(&mut self, message: SourceMessage) -> (r: SourceMessageAction)
        ensures
            final(self).settings == old(self).settings,
            r == (if old(self).state.playbin is None {
                SourceMessageAction::Ignore
            } else if message is Element {
                SourceMessageAction::Forward
            } else if !old(self).state.start_completed && message == (
            SourceMessage::StateChanged { of_pipeline: true, settled: true }) {
                SourceMessageAction::StartComplete
            } else {
                SourceMessageAction::Ignore
            }),
            final(self).state == (if r is StartComplete {
                State { start_completed: true, ..old(self).state }
            } else {
                old(self).state
            }),
    {
        if self.state.playbin.is_none() {
            return SourceMessageAction::Ignore;
        }
        match message {
            SourceMessage::Element => SourceMessageAction::Forward,
            SourceMessage::StateChanged { of_pipeline, settled } => {
                if !self.state.start_completed && of_pipeline && settled {
                    self.state.start_completed = true;
                    SourceMessageAction::StartComplete
                } else {
                    SourceMessageAction::Ignore
                }
            },
            _ => SourceMessageAction::Ignore,
        }
    }

    /// What to do before pulling on the sink. `stream_started` tells whether
    /// the selected stream plays, `caps` and `segment` are what the sink's pad
    /// shows.
    pub fn process_objects_begin(
        &self,
        wanted: Wanted,
        stream_started: bool,
        caps: Option<u64>,
        segment: Option<Segment>,
    ) -> (r: Step)
        ensures
            r == self.state.begin_step(wanted, stream_started, caps, segment),
    {
        if self.state.flushing {
            return Step::Fail(FlowError::Flushing);
        }
        if stream_started && self.state.seek_seqnum.is_none() {
            match wanted {
                Wanted::Caps => {
                    if let Some(caps) = caps {
                        return Step::Found(Object::Caps(caps));
                    }
                },
                Wanted::Segment => {
                    if let Some(segment) = segment {
                        return Step::Found(Object::Segment(segment));
                    }
                },
                Wanted::Sample => {},
            }
        }
        Step::Pull
    }

    /// What to do with what was pulled out of the sink.
    pub fn process_objects_pulled(
        &mut self,
        wanted: Wanted,
        pulled: Pulled,
        stream_started: bool,
    ) -> (r: Step)
        ensures
            final(self).settings == old(self).settings,
            final(self).state == old(self).state.after_pull(pulled),
            r == old(self).state.pulled_step(wanted, pulled, stream_started),
    {
        match pulled {
            Pulled::Nothing { eos } => {
                if eos {
                    if self.state.seek_seqnum.is_some() {
                        return Step::Again;
                    }
                    return Step::Fail(FlowError::Eos);
                }
                if self.state.flushing {
                    return Step::Fail(FlowError::Flushing);
                }
                Step::Again
            },
            Pulled::Tag(tag) => Step::ForwardTag(tag),
            Pulled::FlushStop(seqnum) => {
                if let Some(expected) = self.state.seek_seqnum {
                    if seqnum == expected {
                        self.state.seek_seqnum = None;
                    }
                }
                Step::Again
            },
            Pulled::Caps(caps) => {
                if !stream_started {
                    return Step::Again;
                }
                match wanted {
                    Wanted::Caps => self.return_object(Object::Caps(caps)),
                    _ => Step::SetCaps(caps),
                }
            },
            Pulled::Sample(sample) => {
                if !stream_started {
                    return Step::Again;
                }
                match wanted {
                    Wanted::Sample => {},
                    _ => {
                        return Step::Again;
                    },
                }
                if self.state.seek_seqnum.is_some() {
                    return Step::Again;
                }
                self.return_object(Object::Sample(sample))
            },
            Pulled::OtherEvent | Pulled::OtherObject => Step::Again,
        }
    }

    fn return_object(&self, object: Object) -> (r: Step)
        ensures
            r == self.state.found(object),
    {
        if self.state.flushing {
            Step::Fail(FlowError::Flushing)
        } else {
            Step::Found(object)
        }
    }

    pub fn set_playbin(&mut self, playbin: u64)
        ensures
            final(self).settings == old(self).settings,
            final(self).state == (State { playbin: Some(playbin), ..old(self).state }),
    {
        self.state.playbin = Some(playbin);
    }

    pub fn playbin(&self) -> (r: Option<u64>)
        ensures
            r == self.state.playbin,
    {
        self.state.playbin
    }

    /// Takes note of a seek before the base class handles it.
    pub fn event(&mut self, seek: Option<SeekEvent>)
        ensures
            final(self).settings == old(self).settings,
            final(self).state == (if seek is Some {
                State { seek_event: seek, ..old(self).state }
            } else {
                old(self).state
            }),
    {
        if seek.is_some() {
            self.state.seek_event = seek;
        }
    }

    pub fn unlock(&mut self)
        ensures
            final(self).settings == old(self).settings,
            final(self).state == (State { flushing: true, ..old(self).state }),
    {
        self.state.flushing = true;
    }

    pub fn unlock_stop(&mut self)
        ensures
            final(self).settings == old(self).settings,
            final(self).state == (State { flushing: false, ..old(self).state }),
    {
        self.state.flushing = false;
    }

    /// Performs the seek that was taken note of. One that flushes is waited
    /// for, and the segments after it carry its sequence number.
    pub fn do_seek(&mut self) -> (r: DoSeek)
        ensures
            final(self).settings == old(self).settings,
            r == (match (old(self).state.seek_event, old(self).state.playbin) {
                (None, _) => DoSeek::Ignored,
                (Some(_), None) => DoSeek::NoPipeline,
                (Some(seek), Some(playbin)) => DoSeek::Send(playbin, seek),
            }),
            final(self).state == (if r is Send && old(self).state.seek_event->0.seek.flushing() {
                State {
                    seek_event: None,
                    seek_seqnum: Some(old(self).state.seek_event->0.seqnum),
                    segment_seqnum: Some(old(self).state.seek_event->0.seqnum),
                    ..old(self).state
                }
            } else {
                State { seek_event: None, ..old(self).state }
            }),
    {
        let seek_event = match self.state.seek_event.take() {
            Some(seek_event) => seek_event,
            None => {
                return DoSeek::Ignored;
            },
        };
        match self.state.playbin {
            Some(playbin) => {
                if seek_event.seek.is_flushing() {
                    self.state.seek_seqnum = Some(seek_event.seqnum);
                    self.state.segment_seqnum = Some(seek_event.seqnum);
                }
                DoSeek::Send(playbin, seek_event)
            },
            None => DoSeek::NoPipeline,
        }
    }

    /// Whether the source may start: it needs a location.
    pub fn start(&self) -> (r: Result<(), StartError>)
        ensures
            r == (if self.settings.uri is Some {
                Ok::<(), StartError>(())
            } else {
                Err(StartError::NoUri)
            }),
    {
        if self.settings.uri.is_some() {
            Ok(())
        } else {
            Err(StartError::NoUri)
        }
    }

    /// Takes note of how setting the pipeline to play went: `Some(true)` where
    /// it plays already, `Some(false)` where it will later on, `None` where it
    /// failed. Tells whether the base class is to be told that starting is
    /// complete.
    pub fn started(&mut self, played: Option<bool>) -> (r: Result<bool, StartError>)
        ensures
            final(self).settings == old(self).settings,
            r == (match played {
                Some(ready) => Ok::<bool, StartError>(ready),
                None => Err(StartError::Play),
            }),
            final(self).state == (if played == Some(true) {
                State { start_completed: true, ..old(self).state }
            } else {
                old(self).state
            }),
    {
        match played {
            Some(ready) => {
                if ready {
                    self.state.start_completed = true;
                }
                Ok(ready)
            },
            None => Err(StartError::Play),
        }
    }

    /// What is pushed and handed out for a sample: its segment, if it is not
    /// the one that was pushed last, and its buffer or its buffers.
    pub fn create(&mut self, sample: &Sample) -> (r: (Option<Segment>, Result<Created, FlowError>))
        ensures
            final(self).settings == old(self).settings,
            r.0 == (match sample.segment {
                Some(segment) => if old(self).state.pushed(segment) {
                    None
                } else {
                    Some(segment)
                },
                None => None,
            }),
            final(self).state == (if r.0 is Some {
                State { segment: r.0, ..old(self).state }
            } else {
                old(self).state
            }),
            r.1 == (match (sample.buffer, sample.buffer_list) {
                (Some(buffer), _) => Ok::<Created, FlowError>(Created::Buffer(buffer.handle)),
                (None, Some(list)) => Ok(Created::BufferList(list)),
                (None, None) => Err(FlowError::Error),
            }),
    {
        let push = match sample.segment {
            Some(segment) => {
                let pushed = match self.state.segment {
                    Some(last) => segment.equals(&last),
                    None => false,
                };
                if pushed {
                    None
                } else {
                    self.state.segment = Some(segment);
                    Some(segment)
                }
            },
            None => None,
        };
        let created = match sample.buffer {
            Some(buffer) => Ok(Created::Buffer(buffer.handle)),
            None => match sample.buffer_list {
                Some(list) => Ok(Created::BufferList(list)),
                None => Err(FlowError::Error),
            },
        };
        (push, created)
    }

    /// Forgets what was played. The pipeline is to be released to the pool.
    pub fn stop(&mut self) -> (r: u64)
        requires
            old(self).state.playbin is Some,
        ensures
            final(self).settings == old(self).settings,
            final(self).state == (State {
                flushing: old(self).state.flushing,
                ..State::initial()
            }),
            old(self).state.playbin == Some(r),
    {
        self.state.segment = None;
        self.state.seek_seqnum = None;
        self.state.segment_seqnum = None;
        self.state.seek_event = None;
        self.state.start_completed = false;
        self.state.playbin.take().unwrap()
    }

    /// How to answer a question.
    pub fn query(&self, query: &QueryKind) -> (r: QueryAction)
        ensures
            match *query {
                QueryKind::Uri => r matches QueryAction::SetUri { uri, done } && uri
                    == self.settings.uri && !done,
                QueryKind::Duration => r == (match self.state.playbin {
                    Some(playbin) => QueryAction::Pipeline(playbin),
                    None => QueryAction::Parent,
                }),
                QueryKind::Custom(name) => r == (if name matches Some(name) && name@
                    == "can-seek-in-null"@ {
                    QueryAction::CanSeekInNull
                } else {
                    match self.state.playbin {
                        Some(playbin) => QueryAction::Pipeline(playbin),
                        None => QueryAction::Parent,
                    }
                }),
                QueryKind::Other => r is Parent,
            },
    {
        match query {
            QueryKind::Uri => QueryAction::SetUri {
                uri: copy_string(&self.settings.uri),
                done: false,
            },
            QueryKind::Duration => self.query_pipeline(),
            QueryKind::Custom(name) => {
                let can_seek = match name {
                    Some(name) => text_eq(name.as_str(), "can-seek-in-null"),
                    None => false,
                };
                if can_seek {
                    QueryAction::CanSeekInNull
                } else {
                    self.query_pipeline()
                }
            },
            QueryKind::Other => QueryAction::Parent,
        }
    }

    fn query_pipeline(&self) -> (r: QueryAction)
        ensures
            r == (match self.state.playbin {
                Some(playbin) => QueryAction::Pipeline(playbin),
                None => QueryAction::Parent,
            }),
    {
        match self.state.playbin {
            Some(playbin) => QueryAction::Pipeline(playbin),
            None => QueryAction::Parent,
        }
    }

    /// What to do with the start of a stream, when `stream` is the selected
    /// one.
    pub fn stream_start_probe(&self, stream: &Option<Stream>, group_id: Option<u32>) -> (r:
        StreamStartProbe)
        requires
            stream is Some ==> stream->0.id is Some,
        ensures
            match *stream {
                None => r is Pass,
                Some(stream) => r matches StreamStartProbe::Replace { stream_id, group_id: g }
                    && stream_id@ == announced_id(self.settings.stream_id, stream) && g
                    == group_id,
            },
    {
        match stream {
            Some(stream) => announce_stream(&self.settings.stream_id, stream, group_id),
            None => StreamStartProbe::Pass,
        }
    }

    /// What to do with a segment event: the last segment of a sample takes its
    /// place.
    pub fn segment_probe(&self, running_time_offset: i64) -> (r: SegmentProbe)
        ensures
            r == (match self.state.segment {
                Some(segment) => SegmentProbe::Replace {
                    segment,
                    running_time_offset,
                    seqnum: self.state.segment_seqnum,
                },
                None => SegmentProbe::Discard,
            }),
    {
        match self.state.segment {
            Some(segment) => SegmentProbe::Replace {
                segment,
                running_time_offset,
                seqnum: self.state.segment_seqnum,
            },
            None => SegmentProbe::Discard,
        }
    }
}

/// The state after a number of pulls.
pub open spec fn after_pulls(state: State, pulls: Seq<(Pulled, bool)>) -> State
    decreases pulls.len(),
{
    if pulls.len() == 0 {
        state
    } else {
        after_pulls(state, pulls.drop_last()).after_pull(pulls.last().0)
    }
}

/// After a flushing seek, nothing that was pulled is handed out, and the end
/// of the stream is not reported, before the end of that very flush was
/// pulled.
pub proof fn law_no_sample_before_flush_stop(
    state: State,
    seqnum: u32,
    pulls: Seq<(Pulled, bool)>,
    next: Pulled,
    started: bool,
)
    requires
        state.seek_seqnum == Some(seqnum),
        forall|i: int|
            #![trigger pulls[i]]
            0 <= i < pulls.len() ==> pulls[i].0 != Pulled::FlushStop(seqnum),
    ensures
        ({
            let before = after_pulls(state, pulls);
            let step = before.pulled_step(Wanted::Sample, next, started);
            &&& before.seek_seqnum == Some(seqnum)
            &&& !(step is Found)
            &&& step != Step::Fail(FlowError::Eos)
            &&& next == Pulled::FlushStop(seqnum) ==> before.after_pull(next).seek_seqnum is None
        }),
    decreases pulls.len(),
{
    if pulls.len() > 0 {
        law_no_sample_before_flush_stop(state, seqnum, pulls.drop_last(), next, started);
        assert(pulls.last() == pulls[pulls.len() - 1]);
    }
}

/// A seek that was taken note of is sent to the pipeline once, as it is; without a
/// pipeline it fails, and is forgotten all the same.
pub proof fn law_noted_seek_is_sent_once(
    first: &mut PlaybinPoolSrc,
    second: &mut PlaybinPoolSrc,
    third: &mut PlaybinPoolSrc,
    seek: SeekEvent,
    r: DoSeek,
    again: DoSeek,
)
    requires
        call_ensures(PlaybinPoolSrc::event, (first, Some(seek)), ()),
        *second == *final(first),
        call_ensures(PlaybinPoolSrc::do_seek, (second,), r),
        *third == *final(second),
        call_ensures(PlaybinPoolSrc::do_seek, (third,), again),
    ensures
        old(first).state.playbin is None ==> r is NoPipeline,
        old(first).state.playbin matches Some(playbin) ==> r == DoSeek::Send(playbin, seek),
        again is Ignored && *final(third) == *final(second),
        final(second).state.seek_event is None,
        final(second).settings == old(first).settings,
        final(second).state.playbin == old(first).state.playbin,
        final(second).state.segment == old(first).state.segment,
        final(second).state.start_completed == old(first).state.start_completed,
        final(second).state.flushing == old(first).state.flushing,
        final(first).settings == old(first).settings,
        final(second).settings == old(second).settings,
        final(third).settings == old(third).settings,
{
}

/// The end of a seek is waited for where the seek flushes and is sent, and only there:
/// another leaves what is waited for, and the number of the segments, as they are.
pub proof fn law_only_flushing_seeks_are_waited_for(
    source: &mut PlaybinPoolSrc,
    seek: SeekEvent,
    r: DoSeek,
)
    requires
        old(source).state.seek_event == Some(seek),
        call_ensures(PlaybinPoolSrc::do_seek, (source,), r),
    ensures
        seek.seek.flags % 2 == 1 && old(source).state.playbin is Some
            ==> final(source).state.seek_seqnum == Some(seek.seqnum)
            && final(source).state.segment_seqnum
            == Some(seek.seqnum),
        seek.seek.flags % 2 == 0 || old(source).state.playbin is None
            ==> final(source).state.seek_seqnum == old(source).state.seek_seqnum
            && final(source).state.segment_seqnum == old(source).state.segment_seqnum,
        final(source).settings == old(source).settings,
{
    let flags = seek.seek.flags;
    assert(flags & 1 == 1u32 <==> flags % 2 == 1u32) by (bit_vector);
}

/// Between a flushing seek and the end of its flush nothing is handed out, and the end of
/// the stream is not reported; after it samples are handed out again.
pub proof fn law_samples_wait_for_the_flush(
    first: &mut PlaybinPoolSrc,
    second: &mut PlaybinPoolSrc,
    third: &mut PlaybinPoolSrc,
    seqnum: u32,
    wanted: Wanted,
    pulled: Pulled,
    started: bool,
    sample: Sample,
    r: Step,
    ended: Step,
    handed_out: Step,
)
    requires
        old(first).state.seek_seqnum == Some(seqnum),
        !old(first).state.flushing,
        pulled != Pulled::FlushStop(seqnum),
        call_ensures(PlaybinPoolSrc::process_objects_pulled, (first, wanted, pulled, started), r),
        *second == *final(first),
        call_ensures(
            PlaybinPoolSrc::process_objects_pulled,
            (second, wanted, Pulled::FlushStop(seqnum), started),
            ended,
        ),
        *third == *final(second),
        call_ensures(
            PlaybinPoolSrc::process_objects_pulled,
            (third, Wanted::Sample, Pulled::Sample(sample), true),
            handed_out,
        ),
    ensures
        !(r matches Step::Found(Object::Sample(_))),
        r != Step::Fail(FlowError::Eos),
        *final(first) == *old(first),
        ended is Again,
        final(second).state == (State { seek_seqnum: None, ..old(first).state }),
        handed_out == Step::Found(Object::Sample(sample)),
        *final(third) == *final(second),
        final(second).settings == old(first).settings,
        final(first).settings == old(first).settings,
        final(second).settings == old(second).settings,
        final(third).settings == old(third).settings,
{
}

/// Caps and samples count once the selected stream plays: caps go on, unless they are
/// what is wanted; samples are handed out where they are wanted. Tags go on in any case.
pub proof fn law_pulled_objects_are_sorted(
    source: &mut PlaybinPoolSrc,
    wanted: Wanted,
    pulled: Pulled,
    started: bool,
    r: Step,
)
    requires
        old(source).state.seek_seqnum is None,
        !old(source).state.flushing,
        call_ensures(PlaybinPoolSrc::process_objects_pulled, (source, wanted, pulled, started), r),
    ensures
        *final(source) == *old(source),
        pulled matches Pulled::Tag(tag) ==> r == Step::ForwardTag(tag),
        pulled matches Pulled::Caps(caps) ==> {
            &&& !started ==> r is Again
            &&& started && wanted is Caps ==> r == Step::Found(Object::Caps(caps))
            &&& started && !(wanted is Caps) ==> r == Step::SetCaps(caps)
        },
        pulled matches Pulled::Sample(sample) ==> {
            &&& started && wanted is Sample ==> r == Step::Found(Object::Sample(sample))
            &&& !(started && wanted is Sample) ==> r is Again
        },
        pulled matches Pulled::Nothing { eos } ==> {
            &&& eos ==> r == Step::Fail(FlowError::Eos)
            &&& !eos ==> r is Again
        },
        pulled is FlushStop || pulled is OtherEvent || pulled is OtherObject ==> r is Again,
        final(source).settings == old(source).settings,
{
}

/// A source that is being flushed hands nothing out.
pub proof fn law_flushed_source_hands_nothing_out(
    first: &mut PlaybinPoolSrc,
    second: &mut PlaybinPoolSrc,
    third: &mut PlaybinPoolSrc,
    wanted: Wanted,
    pulled: Pulled,
    started: bool,
    caps: Option<u64>,
    segment: Option<Segment>,
    begun: Step,
    r: Step,
)
    requires
        call_ensures(PlaybinPoolSrc::unlock, (first,), ()),
        call_ensures(
            PlaybinPoolSrc::process_objects_begin,
            (&*final(first), wanted, started, caps, segment),
            begun,
        ),
        *second == *final(first),
        call_ensures(PlaybinPoolSrc::process_objects_pulled, (second, wanted, pulled, started), r),
        *third == *final(first),
        call_ensures(PlaybinPoolSrc::unlock_stop, (third,), ()),
    ensures
        begun == Step::Fail(FlowError::Flushing),
        !(r is Found),
        pulled == (Pulled::Nothing { eos: false }) ==> r == Step::Fail(FlowError::Flushing),
        pulled == (Pulled::Nothing { eos: true }) && old(first).state.seek_seqnum is None ==> r
            == Step::Fail(FlowError::Eos),
        pulled is Sample && started && wanted is Sample && old(first).state.seek_seqnum is None
            ==> r == Step::Fail(FlowError::Flushing),
        pulled is Caps && started && wanted is Caps ==> r == Step::Fail(FlowError::Flushing),
        pulled matches Pulled::Tag(tag) ==> r == Step::ForwardTag(tag),
        final(first).state == (State { flushing: true, ..old(first).state }),
        final(first).settings == old(first).settings,
        final(third).state == (State { flushing: false, ..old(first).state }),
        final(third).settings == old(first).settings,
        final(second).settings == old(second).settings,
        final(third).settings == old(third).settings,
{
}

/// What the sink shows is enough where caps or a segment are wanted, once the selected
/// stream plays and no flush is waited for; a sample has to be pulled.
pub proof fn law_what_is_shown_is_enough(
    source: PlaybinPoolSrc,
    wanted: Wanted,
    started: bool,
    caps: Option<u64>,
    segment: Option<Segment>,
    r: Step,
)
    requires
        !source.state.flushing,
        call_ensures(
            PlaybinPoolSrc::process_objects_begin,
            (&source, wanted, started, caps, segment),
            r,
        ),
    ensures
        r is Found || r is Pull,
        r is Found <==> started && source.state.seek_seqnum is None && (wanted is Caps && caps
            is Some || wanted is Segment && segment is Some),
        r is Found && wanted is Caps ==> r == Step::Found(Object::Caps(caps->0)),
        r is Found && wanted is Segment ==> r == Step::Found(Object::Segment(segment->0)),
{
}

/// A segment is pushed before the first sample that has it, and not before the next one;
/// every sample has its buffer, or its buffers, handed out.
pub proof fn law_new_segment_is_pushed_once(
    first: &mut PlaybinPoolSrc,
    second: &mut PlaybinPoolSrc,
    sample: Sample,
    r: (Option<Segment>, Result<Created, FlowError>),
    again: (Option<Segment>, Result<Created, FlowError>),
    equal: bool,
)
    requires
        call_ensures(PlaybinPoolSrc::create, (first, &sample), r),
        *second == *final(first),
        call_ensures(PlaybinPoolSrc::create, (second, &sample), again),
        sample.segment is Some && old(first).state.segment is Some ==> call_ensures(
            Segment::equals,
            (&sample.segment->0, &old(first).state.segment->0),
            equal,
        ),
    ensures
        sample.segment is None ==> r.0 is None,
        sample.segment is Some && old(first).state.segment is None ==> r.0 == sample.segment,
        sample.segment is Some && old(first).state.segment is Some ==> (r.0 is None <==> equal),
        r.0 is Some ==> r.0 == sample.segment && final(first).state.segment == sample.segment,
        r.0 is None ==> *final(first) == *old(first),
        sample.segment is Some && sample.segment->0.same(sample.segment->0) ==> again.0 is None,
        sample.buffer matches Some(buffer) ==> r.1 == Ok::<Created, FlowError>(
            Created::Buffer(buffer.handle),
        ),
        sample.buffer is None && sample.buffer_list is Some ==> r.1 == Ok::<Created, FlowError>(
            Created::BufferList(sample.buffer_list->0),
        ),
        sample.buffer is None && sample.buffer_list is None ==> r.1 is Err && r.1->Err_0 is Error,
        again.1 == r.1,
        final(first).settings == old(first).settings,
        final(first).state == (State {
            segment: final(first).state.segment,
            ..old(first).state
        }),
        final(second).settings == old(second).settings,
{
}

/// The segment event that goes on has the segment of the last sample, the number of the
/// last flushing seek, and its own offset; before any sample none goes on.
pub proof fn law_segment_of_the_last_sample_goes_on(
    source: &mut PlaybinPoolSrc,
    sample: Sample,
    r: (Option<Segment>, Result<Created, FlowError>),
    offset: i64,
    before: SegmentProbe,
    after: SegmentProbe,
)
    requires
        call_ensures(PlaybinPoolSrc::segment_probe, (&*old(source), offset), before),
        call_ensures(PlaybinPoolSrc::create, (source, &sample), r),
        call_ensures(PlaybinPoolSrc::segment_probe, (&*final(source), offset), after),
    ensures
        before is Discard <==> old(source).state.segment is None,
        r.0 matches Some(segment) ==> after == (SegmentProbe::Replace {
            segment,
            running_time_offset: offset,
            seqnum: old(source).state.segment_seqnum,
        }),
        r.0 is None ==> after == before,
        before matches SegmentProbe::Replace { segment, running_time_offset, seqnum }
            ==> old(source).state.segment == Some(segment) && running_time_offset == offset
            && seqnum == old(source).state.segment_seqnum,
        final(source).settings == old(source).settings,
{
}

/// A source starts if it has a location; it is told to be complete once, when its
/// pipeline has settled.
pub proof fn law_source_starts_once(
    first: &mut PlaybinPoolSrc,
    second: &mut PlaybinPoolSrc,
    third: &mut PlaybinPoolSrc,
    played: Option<bool>,
    may: Result<(), StartError>,
    r: Result<bool, StartError>,
    told: SourceMessageAction,
    again: SourceMessageAction,
)
    requires
        old(first).state.playbin is Some,
        !old(first).state.start_completed,
        call_ensures(PlaybinPoolSrc::start, (&*old(first),), may),
        call_ensures(PlaybinPoolSrc::started, (first, played), r),
        *second == *final(first),
        call_ensures(
            PlaybinPoolSrc::handle_bus_message,
            (second, SourceMessage::StateChanged { of_pipeline: true, settled: true }),
            told,
        ),
        *third == *final(second),
        call_ensures(
            PlaybinPoolSrc::handle_bus_message,
            (third, SourceMessage::StateChanged { of_pipeline: true, settled: true }),
            again,
        ),
    ensures
        may is Ok <==> old(first).settings.uri is Some,
        may is Err ==> may->Err_0 is NoUri,
        played is None <==> r is Err,
        played is None ==> r->Err_0 is Play,
        played matches Some(ready) ==> r == Ok::<bool, StartError>(ready),
        played == Some(true) ==> told is Ignore,
        played != Some(true) ==> told is StartComplete,
        again is Ignore,
        final(third).state == (State { start_completed: true, ..old(first).state }),
        final(third).settings == old(first).settings,
        final(first).settings == old(first).settings,
        final(second).settings == old(second).settings,
        final(third).settings == old(third).settings,
{
}

/// Messages of elements go on while there is a pipeline; other messages, and those of
/// other elements' states, change nothing.
pub proof fn law_element_messages_go_on(
    source: &mut PlaybinPoolSrc,
    message: SourceMessage,
    r: SourceMessageAction,
)
    requires
        message != (SourceMessage::StateChanged { of_pipeline: true, settled: true }),
        call_ensures(PlaybinPoolSrc::handle_bus_message, (source, message), r),
    ensures
        *final(source) == *old(source),
        r is Forward <==> message is Element && old(source).state.playbin is Some,
        !(r is Forward) ==> r is Ignore,
        final(source).settings == old(source).settings,
{
}

/// A source that stops gives its pipeline back and forgets all it played, but for what it
/// is to play; it is flushing exactly if it was.
pub proof fn law_stopped_source_forgets(
    first: &mut PlaybinPoolSrc,
    second: &mut PlaybinPoolSrc,
    playbin: u64,
    r: u64,
    before: Option<u64>,
    after: Option<u64>,
)
    requires
        call_ensures(PlaybinPoolSrc::set_playbin, (first, playbin), ()),
        call_ensures(PlaybinPoolSrc::playbin, (&*final(first),), before),
        *second == *final(first),
        call_ensures(PlaybinPoolSrc::stop, (second,), r),
        call_ensures(PlaybinPoolSrc::playbin, (&*final(second),), after),
    ensures
        before == Some(playbin) && r == playbin && after is None,
        final(first).state == (State { playbin: Some(playbin), ..old(first).state }),
        final(first).settings == old(first).settings,
        final(second).settings == old(first).settings,
        final(second).state.segment is None && final(second).state.seek_event is None,
        final(second).state.seek_seqnum is None && final(second).state.segment_seqnum is None,
        !final(second).state.start_completed,
        final(second).state.flushing == old(first).state.flushing,
        final(second).settings == old(second).settings,
{
}

/// The location is answered by the source itself, and goes on; the duration and custom
/// questions go to the pipeline, where there is one, but for whether it can seek before
/// it plays; everything else goes to the base class.
pub proof fn law_questions_go_where_they_belong(
    source: PlaybinPoolSrc,
    query: QueryKind,
    r: QueryAction,
)
    requires
        call_ensures(PlaybinPoolSrc::query, (&source, &query), r),
    ensures
        query is Uri ==> r == (QueryAction::SetUri { uri: source.settings.uri, done: false }),
        query is Other ==> r is Parent,
        r is CanSeekInNull <==> (query matches QueryKind::Custom(Some(name)) && name@
            == "can-seek-in-null"@),
        (query is Duration || query is Custom) && !(r is CanSeekInNull) ==> {
            &&& source.state.playbin is None ==> r is Parent
            &&& source.state.playbin matches Some(playbin) ==> r == QueryAction::Pipeline(playbin)
        },
{
}

/// The start of the selected stream goes on under the identifier that was asked for, or
/// else under its own; without one it passes as it is.
pub proof fn law_stream_starts_as_asked_for(
    source: PlaybinPoolSrc,
    stream: Option<Stream>,
    group: Option<u32>,
    r: StreamStartProbe,
)
    requires
        stream is Some ==> stream->0.id is Some,
        call_ensures(PlaybinPoolSrc::stream_start_probe, (&source, &stream, group), r),
    ensures
        r is Pass <==> stream is None,
        r matches StreamStartProbe::Replace { stream_id, group_id } ==> {
            &&& group_id == group
            &&& source.settings.stream_id is Some ==> stream_id@ == source.settings.stream_id->0@
            &&& source.settings.stream_id is None ==> stream_id@ == stream->0.id->0@
        },
{
}

/// A new source plays nothing, and is for the video of a location that is not known yet.
/// What is no seek is not taken note of.
pub proof fn law_new_source_is_for_video(fresh: PlaybinPoolSrc, source: &mut PlaybinPoolSrc)
    requires
        call_ensures(PlaybinPoolSrc::new, (), fresh),
        call_ensures(PlaybinPoolSrc::event, (source, None), ()),
    ensures
        fresh.settings.uri is None && fresh.settings.stream_id is None,
        fresh.settings.stream_type == 4,
        fresh.state.playbin is None && fresh.state.segment is None,
        fresh.state.seek_event is None && fresh.state.seek_seqnum is None,
        fresh.state.segment_seqnum is None,
        !fresh.state.start_completed && !fresh.state.flushing,
        *final(source) == *old(source),
        final(source).settings == old(source).settings,
{
}

/// The pipeline that a source is given is the one that it plays; nothing else changes.
pub proof fn law_given_pipeline_is_played(
    source: &mut PlaybinPoolSrc,
    playbin: u64,
    before: Option<u64>,
    after: Option<u64>,
)
    requires
        call_ensures(PlaybinPoolSrc::playbin, (&*old(source),), before),
        call_ensures(PlaybinPoolSrc::set_playbin, (source, playbin), ()),
        call_ensures(PlaybinPoolSrc::playbin, (&*final(source),), after),
    ensures
        before == old(source).state.playbin,
        after == Some(playbin),
        final(source).state == (State { playbin: Some(playbin), ..old(source).state }),
        final(source).settings == old(source).settings,
{
}

} // verus!
