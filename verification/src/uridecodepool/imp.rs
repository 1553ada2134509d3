//! The decisions of a source that plays through a pooled decoding pipeline:
//! what it hands out of what the pipeline's sink holds, how it seeks, and
//! which segments it pushes.
use vstd::prelude::*;

use crate::pull::{
    announce_stream, announced_id, set_caps_error, text_eq, Created, Object, Pulled, QueryAction,
    QueryKind, SegmentProbe, SourceMessage, SourceMessageAction, StartError, Step,
    StreamStartProbe, Wanted,
};
use crate::uridecodepool::seek_handler::{
    NleCompositionSeekResult, Placement, SeekHandler, SeekInfo, SourceRange,
};
use crate::values::{
    copy_string, Buffer, FlowError, Position, Rate, Sample, Seek, SeekEvent, SeekType, Segment,
    Stream, FORMAT_TIME, RATE_MINUS_ONE, RATE_ONE, SEEK_FLAG_ACCURATE, SEEK_FLAG_FLUSH,
};

verus! {

/// Caps: a handle, and the media type of the first structure.
#[derive(Debug)]
pub struct Caps {
    pub handle: u64,
    pub name: Option<String>,
}

impl Clone for Caps {
    fn clone(&self) -> (r: Self)
        ensures
            r == *self,
    {
        Caps { handle: self.handle, name: copy_string(&self.name) }
    }
}

/// What the source is asked to play.
#[derive(Debug)]
pub struct Settings {
    pub uri: Option<String>,
    pub caps: Caps,
    pub stream_id: Option<String>,
    pub inpoint: Option<u64>,
    pub duration: Option<u64>,
    pub reverse: bool,
}

#[derive(Clone, Copy, Debug, PartialEq, Eq, Structural)]
pub struct State {
    /// The pipeline that is being played.
    pub decoderpipe: Option<u64>,
    /// The segment that was pushed last.
    pub current_segment: Option<Segment>,
    /// The seek that the base class is about to perform.
    pub seek_event: Option<SeekEvent>,
    /// The seek to be processed as soon as the pipeline is ready.
    pub pending_seek: Option<SeekEvent>,
    pub flushing: bool,
    /// The flushing seek whose end is waited for.
    pub seek_seqnum: Option<u32>,
    /// The sequence number that segments are to carry.
    pub segment_seqnum: Option<u32>,
    /// Downstream has to get a segment before the end of the stream.
    pub needs_segment: bool,
    /// The segment of the last flushing seek.
    pub seek_segment: Option<Segment>,
    /// The source itself sends the seek, so the pipeline is not to get it.
    pub ignore_seek: bool,
    /// The base class was told that starting is complete.
    pub start_completed: bool,
}

/// How a seek goes on.
#[derive(Clone, Copy, Debug, PartialEq, Eq, Structural)]
pub enum DoSeek {
    /// The seek succeeded, with nothing more to do.
    Done,
    /// The seek is to be sent to the pipeline, and succeeds.
    Send(u64, SeekEvent),
    /// There is no pipeline, so the seek fails.
    NoPipeline,
}

/// What to do with a seek that came in.
#[derive(Clone, Copy, Debug, PartialEq, Eq, Structural)]
pub enum SeekEventAction {
    /// Let the base class handle it.
    Forward,
    /// Hand it to the pipeline, if there is one, and to the base class for
    /// when starting is complete.
    Postpone(Option<u64>),
}

/// What to do with a seek that came from downstream.
#[derive(Clone, Copy, Debug, PartialEq, Eq, Structural)]
pub enum EventAction {
    /// It was handled.
    Handled,
    /// It is handled otherwise.
    Seek(SeekEventAction),
}

/// Where the next sample to hand out comes from.
#[derive(Clone, Copy, Debug, PartialEq, Eq, Structural)]
pub enum NextSample {
    /// The sample that ended the previous seek; these caps are to be set for
    /// it.
    Kept(Sample, u64),
    /// The sink.
    FromSink,
}

/// What is left to do once the pipeline was set to play.
#[derive(Clone, Copy, Debug, PartialEq, Eq, Structural)]
pub struct Started {
    /// Tell the base class that starting is complete.
    pub complete: bool,
    /// Then handle this seek.
    pub seek: Option<SeekEvent>,
}

impl State {
    pub open spec fn initial() -> State {
        State {
            decoderpipe: None,
            current_segment: None,
            seek_event: None,
            pending_seek: None,
            flushing: false,
            seek_seqnum: None,
            segment_seqnum: None,
            needs_segment: false,
            seek_segment: None,
            ignore_seek: false,
            start_completed: false,
        }
    }

    /// What was found is handed out unless the source is being flushed.
    pub open spec fn found(self, object: Object) -> Step {
        if self.flushing {
            Step::Fail(FlowError::Flushing)
        } else {
            Step::Found(object)
        }
    }

    /// What to do before pulling: what the sink already shows is enough once
    /// the selected stream plays and no flush is waited for.
    pub open spec fn begin_step(
        self,
        wanted: Wanted,
        started: bool,
        caps: Option<u64>,
        segment: Option<Segment>,
    ) -> Step {
        if self.flushing {
            Step::Fail(FlowError::Flushing)
        } else if started && self.seek_seqnum is None && wanted is Caps && caps is Some {
            Step::Found(Object::Caps(caps->0))
        } else if started && self.seek_seqnum is None && wanted is Segment && segment is Some {
            Step::Found(Object::Segment(segment->0))
        } else {
            Step::Pull
        }
    }

    /// The segment that downstream lacks at the end of the stream: the one the
    /// sink shows, or else that of the last seek.
    pub open spec fn missing_segment(self, sticky: Option<Segment>) -> Option<Segment> {
        if !self.needs_segment {
            None
        } else if sticky is Some {
            sticky
        } else {
            self.seek_segment
        }
    }

    /// What to do with what was pulled; `sticky` is the segment that the sink
    /// shows.
    pub open spec fn pulled_step(
        self,
        wanted: Wanted,
        pulled: Pulled,
        started: bool,
        sticky: Option<Segment>,
    ) -> Step {
        match pulled {
            Pulled::Nothing { eos } => if eos {
                if self.seek_seqnum is Some {
                    Step::WaitAgain
                } else {
                    match self.missing_segment(sticky) {
                        Some(segment) => if segment.timed() {
                            Step::PushSegmentThenEos(segment)
                        } else {
                            Step::ReportThenFail(FlowError::Error)
                        },
                        None => Step::Fail(FlowError::Eos),
                    }
                }
            } else if self.flushing {
                Step::Fail(FlowError::Flushing)
            } else {
                Step::Again
            },
            Pulled::Tag(tag) => Step::ForwardTag(tag),
            Pulled::Caps(caps) => if !started {
                Step::Again
            } else if wanted is Caps {
                self.found(Object::Caps(caps))
            } else {
                Step::SetCaps(caps)
            },
            Pulled::Sample(sample) => if started && wanted is Sample && self.seek_seqnum is None {
                self.found(Object::Sample(sample))
            } else {
                Step::Again
            },
            Pulled::FlushStop(_) | Pulled::OtherEvent | Pulled::OtherObject => Step::Again,
        }
    }

    /// The end of the flush that is waited for ends the wait, and a segment
    /// that is pushed at the end of the stream is the current one.
    pub open spec fn after_pull(
        self,
        wanted: Wanted,
        pulled: Pulled,
        started: bool,
        sticky: Option<Segment>,
    ) -> State {
        match self.pulled_step(wanted, pulled, started, sticky) {
            Step::PushSegmentThenEos(segment) => State { current_segment: Some(segment), ..self },
            _ => if pulled matches Pulled::FlushStop(seqnum) && self.seek_seqnum == Some(seqnum) {
                State { seek_seqnum: None, ..self }
            } else {
                self
            },
        }
    }

    /// The segment is the one that was pushed last.
    pub open spec fn pushed(self, segment: Segment) -> bool {
        self.current_segment matches Some(last) && segment.same(last)
    }

    /// How the seek that was taken note of goes on.
    pub open spec fn do_seek_action(self) -> DoSeek {
        match (self.seek_event, self.decoderpipe) {
            (None, _) => DoSeek::Done,
            (Some(_), None) => DoSeek::NoPipeline,
            (Some(event), Some(decoderpipe)) => if event.seek.flushing() && self.ignore_seek {
                DoSeek::Done
            } else {
                DoSeek::Send(decoderpipe, event)
            },
        }
    }

    /// The state after the seek to `segment` was performed. After a flushing
    /// one, downstream needs a segment with its sequence number; the end of
    /// the flush is waited for if the pipeline got the seek.
    pub open spec fn after_do_seek(self, segment: Segment) -> State {
        let taken = State { seek_event: None, ..self };
        match (self.seek_event, self.decoderpipe) {
            (Some(event), Some(_)) => if event.seek.flushing() {
                State {
                    segment_seqnum: Some(event.seqnum),
                    needs_segment: true,
                    seek_segment: Some(segment),
                    seek_seqnum: if self.ignore_seek {
                        self.seek_seqnum
                    } else {
                        Some(event.seqnum)
                    },
                    ..taken
                }
            } else {
                taken
            },
            _ => taken,
        }
    }
}

/// The seek that makes a pipeline play the given range; `None` when there is
/// nowhere to start from.
pub open spec fn range_seek(range: SourceRange, seqnum: u32) -> Option<SeekEvent> {
    match range.inpoint {
        Some(inpoint) => Some(
            SeekEvent {
                seqnum,
                seek: Seek {
                    rate: Rate {
                        bits: if range.reverse {
                            RATE_MINUS_ONE
                        } else {
                            RATE_ONE
                        },
                    },
                    flags: SEEK_FLAG_FLUSH | SEEK_FLAG_ACCURATE,
                    start_type: SeekType::Absolute,
                    start: Position { format: FORMAT_TIME, value: Some(inpoint) },
                    stop_type: SeekType::Absolute,
                    stop: Position {
                        format: FORMAT_TIME,
                        value: match range.duration {
                            Some(duration) => Some((inpoint + duration) as u64),
                            None => None,
                        },
                    },
                },
            },
        ),
        None => None,
    }
}

/// The sample can be handed out in `segment`: where that is in time, so is
/// the sample's own segment.
pub open spec fn finishable(sample: Sample, segment: Option<Segment>) -> bool {
    (segment matches Some(s) ==> s.timed()) ==> (sample.segment matches Some(s) ==> s.timed())
}

/// A source that plays a range of one stream of a location through a pooled
/// decoding pipeline.
#[derive(Debug)]
pub struct UriDecodePoolSrc {
    pub settings: Settings,
    pub state: State,
    /// How many pipelines were named after the source.
    pub n_pipelines: u32,
}

impl UriDecodePoolSrc {
    /// The range that the source plays.
    pub open spec fn range(&self) -> SourceRange {
        SourceRange {
            inpoint: self.settings.inpoint,
            duration: self.settings.duration,
            reverse: self.settings.reverse,
        }
    }

    /// A source for raw video, whose caps have the given handle.
    pub fn new(video_caps: u64) -> (r: Self)
        ensures
            r.state == State::initial(),
            r.n_pipelines == 0,
            r.settings.uri is None,
            r.settings.caps.handle == video_caps,
            r.settings.caps.name matches Some(name) && name@ == "video/x-raw"@,
            r.settings.stream_id is None,
            r.range() == (SourceRange { inpoint: None, duration: None, reverse: false }),
    {
        UriDecodePoolSrc {
            settings: Settings {
                uri: None,
                caps: Caps { handle: video_caps, name: Some("video/x-raw".to_owned()) },
                stream_id: None,
                inpoint: None,
                duration: None,
                reverse: false,
            },
            state: State {
                decoderpipe: None,
                current_segment: None,
                seek_event: None,
                pending_seek: None,
                flushing: false,
                seek_seqnum: None,
                segment_seqnum: None,
                needs_segment: false,
                seek_segment: None,
                ignore_seek: false,
                start_completed: false,
            },
            n_pipelines: 0,
        }
    }

    pub fn source_range(&self) -> (r: SourceRange)
        ensures
            r == self.range(),
    {
        SourceRange {
            inpoint: self.settings.inpoint,
            duration: self.settings.duration,
            reverse: self.settings.reverse,
        }
    }

    /// The number by which the next pipeline is named after the source.
    pub fn prepare_pipeline_next_number(&mut self) -> (r: u32)
        ensures
            r == old(self).n_pipelines,
            final(self).n_pipelines == old(self).n_pipelines.wrapping_add(1),
            final(self).settings == old(self).settings,
            final(self).state == old(self).state,
    {
        let n: u32 = self.n_pipelines;
        self.n_pipelines = n.wrapping_add(1);
        n
    }

    /// Marks the seeks that follow as sent by the source itself, or not.
    pub fn set_ignore_seek(&mut self, ignore_seek: bool)
        ensures
            final(self).state == (State { ignore_seek, ..old(self).state }),
            final(self).settings == old(self).settings,
            final(self).n_pipelines == old(self).n_pipelines,
    {
        self.state.ignore_seek = ignore_seek;
    }

    /// Whether the source's range has an end that is a time, if it has one.
    pub fn has_range_end(&self) -> (r: bool)
        ensures
            r == (self.settings.inpoint is Some && self.settings.duration is Some
                ==> self.settings.inpoint->0 + self.settings.duration->0 < u64::MAX),
    {
        match (self.settings.inpoint, self.settings.duration) {
            (Some(inpoint), Some(duration)) => duration < u64::MAX - inpoint,
            _ => true,
        }
    }

    /// The seek that makes a pipeline play the source's range.
    pub fn initial_seek_event(&self, seqnum: u32) -> (r: Option<SeekEvent>)
        requires
            self.settings.inpoint is Some && self.settings.duration is Some
                ==> self.settings.inpoint->0 + self.settings.duration->0 < u64::MAX,
        ensures
            r == range_seek(self.range(), seqnum),
    {
        let inpoint: u64 = match self.settings.inpoint {
            Some(inpoint) => inpoint,
            None => {
                return None;
            },
        };
        let stop: Option<u64> = match self.settings.duration {
            Some(duration) => Some(inpoint + duration),
            None => None,
        };
        let rate = Rate {
            bits: if self.settings.reverse {
                RATE_MINUS_ONE
            } else {
                RATE_ONE
            },
        };
        Some(
            SeekEvent {
                seqnum,
                seek: Seek {
                    rate,
                    flags: SEEK_FLAG_FLUSH | SEEK_FLAG_ACCURATE,
                    start_type: SeekType::Absolute,
                    start: Position { format: FORMAT_TIME, value: Some(inpoint) },
                    stop_type: SeekType::Absolute,
                    stop: Position { format: FORMAT_TIME, value: stop },
                },
            },
        )
    }

    /// What to do about a message on the bus of a pipeline, which is the
    /// source's own or not.
    pub fn handle_bus_message(&mut self, message: SourceMessage, own_pipeline: bool) -> (r:
        SourceMessageAction)
        ensures
            final(self).settings == old(self).settings,
            final(self).n_pipelines == old(self).n_pipelines,
            r == (if !own_pipeline {
                SourceMessageAction::Disconnect
            } else if message is Error {
                SourceMessageAction::Forward
            } else if !old(self).state.start_completed && message == (
            SourceMessage::StateChanged { of_pipeline: true, settled: true }) {
                SourceMessageAction::StartComplete
            } else {
                SourceMessageAction::Ignore
            }),
            final(self).state == (if r is StartComplete {
                State { start_completed: true, ..old(self).state }
            } else {
                old(self).state
            }),
    {
        if !own_pipeline {
            return SourceMessageAction::Disconnect;
        }
        match message {
            SourceMessage::StateChanged { of_pipeline, settled } => {
                if !self.state.start_completed && of_pipeline && settled {
                    self.state.start_completed = true;
                    SourceMessageAction::StartComplete
                } else {
                    SourceMessageAction::Ignore
                }
            },
            SourceMessage::Error => SourceMessageAction::Forward,
            _ => SourceMessageAction::Ignore,
        }
    }

    /// Takes note of a seek. It is postponed while starting is not complete:
    /// the base class would start its task, which then waits for the start to
    /// complete.
    pub fn handle_seek_event(&mut self, event: SeekEvent) -> (r: SeekEventAction)
        ensures
            final(self).settings == old(self).settings,
            final(self).n_pipelines == old(self).n_pipelines,
            final(self).state == (State { seek_event: Some(event), ..old(self).state }),
            r == (if old(self).state.start_completed {
                SeekEventAction::Forward
            } else {
                SeekEventAction::Postpone(old(self).state.decoderpipe)
            }),
    {
        self.state.seek_event = Some(event);
        if !self.state.start_completed {
            SeekEventAction::Postpone(self.state.decoderpipe)
        } else {
            SeekEventAction::Forward
        }
    }

    /// What to do with a seek that came from downstream: nothing if it is the
    /// one that the pipeline was told of before, which `announced` tells.
    pub fn event(&mut self, event: SeekEvent, announced: bool) -> (r: EventAction)
        ensures
            final(self).settings == old(self).settings,
            final(self).n_pipelines == old(self).n_pipelines,
            final(self).state == (if announced {
                old(self).state
            } else {
                State { seek_event: Some(event), ..old(self).state }
            }),
            r == (if announced {
                EventAction::Handled
            } else if old(self).state.start_completed {
                EventAction::Seek(SeekEventAction::Forward)
            } else {
                EventAction::Seek(SeekEventAction::Postpone(old(self).state.decoderpipe))
            }),
    {
        if announced {
            EventAction::Handled
        } else {
            EventAction::Seek(self.handle_seek_event(event))
        }
    }

    /// What to do before pulling on the sink. `stream_started` tells whether
    /// the selected stream plays, `caps` and `segment` are what the sink's pad
    /// shows.
    pub fn process_objects_begin(
        &self,
        wanted: Wanted,
        stream_started: bool,
        caps: Option<u64>,
        segment: Option<Segment>,
    ) -> (r: Step)
        ensures
            r == self.state.begin_step(wanted, stream_started, caps, segment),
    {
        if self.state.flushing {
            return Step::Fail(FlowError::Flushing);
        }
        if stream_started && self.state.seek_seqnum.is_none() {
            match wanted {
                Wanted::Caps => {
                    if let Some(caps) = caps {
                        return Step::Found(Object::Caps(caps));
                    }
                },
                Wanted::Segment => {
                    if let Some(segment) = segment {
                        return Step::Found(Object::Segment(segment));
                    }
                },
                Wanted::Sample => {},
            }
        }
        Step::Pull
    }

    /// What to do with what was pulled out of the sink, which shows the
    /// segment `sticky_segment`.
    pub fn process_objects_pulled(
        &mut self,
        wanted: Wanted,
        pulled: Pulled,
        stream_started: bool,
        sticky_segment: Option<Segment>,
    ) -> (r: Step)
        ensures
            final(self).settings == old(self).settings,
            final(self).n_pipelines == old(self).n_pipelines,
            final(self).state == old(self).state.after_pull(
                wanted,
                pulled,
                stream_started,
                sticky_segment,
            ),
            r == old(self).state.pulled_step(wanted, pulled, stream_started, sticky_segment),
    {
        match pulled {
            Pulled::Nothing { eos } => {
                if eos {
                    return self.pulled_eos(sticky_segment);
                }
                if self.state.flushing {
                    return Step::Fail(FlowError::Flushing);
                }
                Step::Again
            },
            Pulled::Tag(tag) => Step::ForwardTag(tag),
            Pulled::FlushStop(seqnum) => {
                if let Some(expected) = self.state.seek_seqnum {
                    if seqnum == expected {
                        self.state.seek_seqnum = None;
                    }
                }
                Step::Again
            },
            Pulled::Caps(caps) => {
                if !stream_started {
                    return Step::Again;
                }
                match wanted {
                    Wanted::Caps => self.return_object(Object::Caps(caps)),
                    _ => Step::SetCaps(caps),
                }
            },
            Pulled::Sample(sample) => {
                if !stream_started {
                    return Step::Again;
                }
                match wanted {
                    Wanted::Sample => {},
                    _ => {
                        return Step::Again;
                    },
                }
                if self.state.seek_seqnum.is_some() {
                    return Step::Again;
                }
                self.return_object(Object::Sample(sample))
            },
            Pulled::OtherEvent | Pulled::OtherObject => Step::Again,
        }
    }

    /// What to do at the end of the sink: downstream may lack a segment with
    /// the right sequence number.
    fn pulled_eos(&mut self, sticky_segment: Option<Segment>) -> (r: Step)
        ensures
            final(self).settings == old(self).settings,
            final(self).n_pipelines == old(self).n_pipelines,
            r == (if old(self).state.seek_seqnum is Some {
                Step::WaitAgain
            } else {
                match old(self).state.missing_segment(sticky_segment) {
                    Some(segment) => if segment.timed() {
                        Step::PushSegmentThenEos(segment)
                    } else {
                        Step::ReportThenFail(FlowError::Error)
                    },
                    None => Step::Fail(FlowError::Eos),
                }
            }),
            final(self).state == (match r {
                Step::PushSegmentThenEos(segment) => State {
                    current_segment: Some(segment),
                    ..old(self).state
                },
                _ => old(self).state,
            }),
    {
        if self.state.seek_seqnum.is_some() {
            return Step::WaitAgain;
        }
        if self.state.needs_segment {
            let segment = match sticky_segment {
                Some(segment) => Some(segment),
                None => self.state.seek_segment,
            };
            if let Some(segment) = segment {
                if !segment.is_time() {
                    return Step::ReportThenFail(FlowError::Error);
                }
                self.state.current_segment = Some(segment);
                return Step::PushSegmentThenEos(segment);
            }
        }
        Step::Fail(FlowError::Eos)
    }

    fn return_object(&self, object: Object) -> (r: Step)
        ensures
            r == self.state.found(object),
    {
        if self.state.flushing {
            Step::Fail(FlowError::Flushing)
        } else {
            Step::Found(object)
        }
    }

    /// Plays through a pipeline from now on: downstream needs its segment.
    pub fn set_decoderpipe(&mut self, decoderpipe: u64)
        ensures
            final(self).settings == old(self).settings,
            final(self).n_pipelines == old(self).n_pipelines,
            final(self).state == (State {
                needs_segment: true,
                decoderpipe: Some(decoderpipe),
                ..old(self).state
            }),
    {
        self.state.needs_segment = true;
        self.state.decoderpipe = Some(decoderpipe);
    }

    pub fn decoderpipe(&self) -> (r: Option<u64>)
        ensures
            r == self.state.decoderpipe,
    {
        self.state.decoderpipe
    }

    /// What to do with the start of a stream, when `stream` is the selected
    /// one.
    pub fn stream_start_probe(&self, stream: &Option<Stream>, group_id: Option<u32>) -> (r:
        StreamStartProbe)
        requires
            self.state.seek_seqnum is None ==> (stream is Some ==> stream->0.id is Some),
        ensures
            if self.state.seek_seqnum is Some {
                r is Discard
            } else {
                match *stream {
                    None => r is Pass,
                    Some(stream) => r matches StreamStartProbe::Replace { stream_id, group_id: g }
                        && stream_id@ == announced_id(self.settings.stream_id, stream) && g
                        == group_id,
                }
            },
    {
        if self.state.seek_seqnum.is_some() {
            return StreamStartProbe::Discard;
        }
        match stream {
            Some(stream) => announce_stream(&self.settings.stream_id, stream, group_id),
            None => StreamStartProbe::Pass,
        }
    }

    /// What to do with a segment event: the current segment takes its place,
    /// with the sequence number of the last seek. Segments of before the end
    /// of a flush do not go on.
    pub fn segment_probe(&mut self, running_time_offset: i64, seqnum: u32) -> (r: SegmentProbe)
        ensures
            final(self).settings == old(self).settings,
            final(self).n_pipelines == old(self).n_pipelines,
            r == (if old(self).state.seek_seqnum is Some {
                SegmentProbe::Discard
            } else {
                match old(self).state.current_segment {
                    Some(segment) => SegmentProbe::Replace {
                        segment,
                        running_time_offset,
                        seqnum: Some(
                            match old(self).state.segment_seqnum {
                                Some(wanted) => wanted,
                                None => seqnum,
                            },
                        ),
                    },
                    None => SegmentProbe::Discard,
                }
            }),
            final(self).state == (if r is Discard {
                old(self).state
            } else {
                State { needs_segment: false, ..old(self).state }
            }),
    {
        if self.state.seek_seqnum.is_some() {
            return SegmentProbe::Discard;
        }
        match self.state.current_segment {
            Some(segment) => {
                let seqnum: u32 = match self.state.segment_seqnum {
                    Some(wanted) => wanted,
                    None => seqnum,
                };
                self.state.needs_segment = false;
                SegmentProbe::Replace { segment, running_time_offset, seqnum: Some(seqnum) }
            },
            None => SegmentProbe::Discard,
        }
    }

    /// How setting caps downstream went.
    pub fn set_caps(&self, accepted: bool, pad_flushing: bool) -> (r: Result<(), FlowError>)
        ensures
            r == (if accepted {
                Ok::<(), FlowError>(())
            } else if pad_flushing {
                Err(FlowError::Flushing)
            } else {
                Err(FlowError::NotNegotiated)
            }),
    {
        if accepted {
            Ok(())
        } else {
            Err(set_caps_error(pad_flushing))
        }
    }

    /// The pipeline to release once the element is torn down.
    pub fn change_state(&mut self, ready_to_null: bool) -> (r: Option<u64>)
        ensures
            final(self).settings == old(self).settings,
            final(self).n_pipelines == old(self).n_pipelines,
            r == (if ready_to_null {
                old(self).state.decoderpipe
            } else {
                None
            }),
            final(self).state == (if ready_to_null {
                State { decoderpipe: None, ..old(self).state }
            } else {
                old(self).state
            }),
    {
        if ready_to_null {
            self.state.decoderpipe.take()
        } else {
            None
        }
    }

    /// Whether a seek that a composition announces is looked at: without a
    /// location there is nothing to seek in.
    pub fn accepts_composition_seek(&self) -> (r: bool)
        ensures
            r == self.settings.uri is Some,
    {
        self.settings.uri.is_some()
    }

    /// Takes the pipeline that is to play the seek which a composition
    /// announces.
    pub fn set_composition_pipeline(&mut self, decoderpipe: u64)
        ensures
            final(self).settings == old(self).settings,
            final(self).n_pipelines == old(self).n_pipelines,
            final(self).state == (State { decoderpipe: Some(decoderpipe), ..old(self).state }),
    {
        self.state.decoderpipe = Some(decoderpipe);
    }

    /// Whether the announced seek needs nothing more of the base class.
    pub fn composition_seek_handled(result: &NleCompositionSeekResult) -> (r: bool)
        ensures
            r == !(*result is Unexpected),
    {
        match result {
            NleCompositionSeekResult::Unexpected => false,
            _ => true,
        }
    }

    /// Takes over the sequence number of a seek that a nested timeline is going
    /// to perform: segments carry it from then on.
    pub fn use_announced_seqnum(&mut self, result: &NleCompositionSeekResult)
        ensures
            final(self).settings == old(self).settings,
            final(self).n_pipelines == old(self).n_pipelines,
            final(self).state == (match *result {
                NleCompositionSeekResult::UseSeqnum(seqnum) => State {
                    segment_seqnum: Some(seqnum),
                    ..old(self).state
                },
                _ => old(self).state,
            }),
    {
        if let NleCompositionSeekResult::UseSeqnum(seqnum) = result {
            self.state.segment_seqnum = Some(*seqnum);
        }
    }

    pub fn unlock(&mut self)
        ensures
            final(self).settings == old(self).settings,
            final(self).n_pipelines == old(self).n_pipelines,
            final(self).state == (State { flushing: true, ..old(self).state }),
    {
        self.state.flushing = true;
    }

    pub fn unlock_stop(&mut self)
        ensures
            final(self).settings == old(self).settings,
            final(self).n_pipelines == old(self).n_pipelines,
            final(self).state == (State { flushing: false, ..old(self).state }),
    {
        self.state.flushing = false;
    }

    /// Performs the seek that was taken note of, to `segment`.
    pub fn do_seek(&mut self, segment: &Segment) -> (r: DoSeek)
        ensures
            final(self).settings == old(self).settings,
            final(self).n_pipelines == old(self).n_pipelines,
            final(self).state == old(self).state.after_do_seek(*segment),
            r == old(self).state.do_seek_action(),
    {
        let seek_event = match self.state.seek_event.take() {
            Some(seek_event) => seek_event,
            None => {
                return DoSeek::Done;
            },
        };
        match self.state.decoderpipe {
            Some(decoderpipe) => {
                if seek_event.seek.is_flushing() {
                    self.state.segment_seqnum = Some(seek_event.seqnum);
                    self.state.needs_segment = true;
                    self.state.seek_segment = Some(*segment);
                    if self.state.ignore_seek {
                        return DoSeek::Done;
                    }
                    self.state.seek_seqnum = Some(seek_event.seqnum);
                }
                DoSeek::Send(decoderpipe, seek_event)
            },
            None => DoSeek::NoPipeline,
        }
    }

    /// The pipeline to start with: the one the source has, or else one of the
    /// pool, for which it needs a location.
    pub fn start(&self) -> (r: Result<Option<u64>, StartError>)
        ensures
            r == (if self.state.decoderpipe is None && self.settings.uri is None {
                Err::<Option<u64>, StartError>(StartError::NoUri)
            } else {
                Ok(self.state.decoderpipe)
            }),
    {
        match self.state.decoderpipe {
            Some(decoderpipe) => Ok(Some(decoderpipe)),
            None => if self.settings.uri.is_some() {
                Ok(None)
            } else {
                Err(StartError::NoUri)
            },
        }
    }

    /// Takes note of how setting the pipeline to play went: `Some(true)` where
    /// it plays already, `Some(false)` where it will later on, `None` where it
    /// failed.
    pub fn started(&mut self, played: Option<bool>) -> (r: Result<Started, StartError>)
        ensures
            final(self).settings == old(self).settings,
            final(self).n_pipelines == old(self).n_pipelines,
            r == (match played {
                Some(ready) => Ok::<Started, StartError>(
                    if ready && !old(self).state.start_completed {
                        Started { complete: true, seek: old(self).state.pending_seek }
                    } else {
                        Started { complete: false, seek: None }
                    },
                ),
                None => Err(StartError::Play),
            }),
            final(self).state == (if r matches Ok(s) && s.complete {
                State { start_completed: true, pending_seek: None, ..old(self).state }
            } else {
                old(self).state
            }),
    {
        match played {
            Some(ready) => {
                if ready && !self.state.start_completed {
                    self.state.start_completed = true;
                    let seek = self.state.pending_seek.take();
                    Ok(Started { complete: true, seek })
                } else {
                    Ok(Started { complete: false, seek: None })
                }
            },
            None => Err(StartError::Play),
        }
    }

    /// Whether caps are to be looked for: not while a sample is kept, which
    /// brings its own.
    pub fn needs_caps(handler: Option<&SeekHandler>) -> (r: bool)
        ensures
            r == !(handler matches Some(h) && h.state.eos_sample() is Some),
    {
        match handler {
            Some(handler) => !handler.has_eos_sample(),
            None => true,
        }
    }

    /// The caps to set after looking for them, or `None` to leave things as
    /// they are: at the end of the stream, those that the sink shows will do,
    /// and none at all is no failure.
    pub fn negotiated(found: Result<u64, FlowError>, sink_caps: Option<u64>) -> (r: Result<
        Option<u64>,
        FlowError,
    >)
        ensures
            r == (match found {
                Ok(caps) => Ok::<Option<u64>, FlowError>(Some(caps)),
                Err(e) => if e is Eos {
                    Ok(sink_caps)
                } else {
                    Err(e)
                },
            }),
    {
        match found {
            Ok(caps) => Ok(Some(caps)),
            Err(FlowError::Eos) => Ok(sink_caps),
            Err(e) => Err(e),
        }
    }

    /// The caps to set before the sample that ended the previous seek is
    /// played: its own, or those that the sink shows.
    pub fn eos_sample_caps(sample: &Sample, sink_caps: Option<u64>) -> (r: Result<u64, FlowError>)
        ensures
            r == (match (sample.caps, sink_caps) {
                (Some(caps), _) => Ok::<u64, FlowError>(caps),
                (None, Some(caps)) => Ok(caps),
                (None, None) => Err(FlowError::NotNegotiated),
            }),
    {
        match sample.caps {
            Some(caps) => Ok(caps),
            None => match sink_caps {
                Some(caps) => Ok(caps),
                None => Err(FlowError::NotNegotiated),
            },
        }
    }

    /// The segment of a sample that belongs to `info`: that of the seek, whose
    /// sequence number segments carry from then on, or else the sample's own.
    pub fn segment_for(&mut self, sample: &Sample, info: &SeekInfo) -> (r: Option<Segment>)
        requires
            info is NoSeek || info is SeekSegment,
        ensures
            final(self).settings == old(self).settings,
            final(self).n_pipelines == old(self).n_pipelines,
            match *info {
                SeekInfo::SeekSegment(seqnum, segment) => r == Some(segment) && final(self).state
                    == (State { segment_seqnum: Some(seqnum), ..old(self).state }),
                _ => r == sample.segment && final(self).state == old(self).state,
            },
    {
        match info {
            SeekInfo::SeekSegment(seqnum, segment) => {
                self.state.segment_seqnum = Some(*seqnum);
                Some(*segment)
            },
            _ => sample.segment,
        }
    }

    /// The segment to push before a buffer of `segment`: none if it was pushed
    /// last. Segments other than in time are not handled.
    pub fn push_segment(&mut self, segment: Option<Segment>) -> (r: Result<
        Option<Segment>,
        FlowError,
    >)
        ensures
            final(self).settings == old(self).settings,
            final(self).n_pipelines == old(self).n_pipelines,
            r == (match segment {
                None => Ok::<Option<Segment>, FlowError>(None),
                Some(s) => if !s.timed() {
                    Err(FlowError::Error)
                } else if old(self).state.pushed(s) {
                    Ok(None)
                } else {
                    Ok(Some(s))
                },
            }),
            final(self).state == (match r {
                Ok(Some(s)) => State { current_segment: Some(s), ..old(self).state },
                _ => old(self).state,
            }),
    {
        let segment = match segment {
            Some(segment) => segment,
            None => {
                return Ok(None);
            },
        };
        if !segment.is_time() {
            return Err(FlowError::Error);
        }
        let pushed = match self.state.current_segment {
            Some(current) => segment.equals(&current),
            None => false,
        };
        if pushed {
            Ok(None)
        } else {
            self.state.current_segment = Some(segment);
            Ok(Some(segment))
        }
    }

    /// Where the next sample comes from. Inside of a composition it is the one
    /// that ended the previous seek, under its caps.
    pub fn create_begin(handler: &SeekHandler, sink_caps: Option<u64>) -> (r: Result<
        NextSample,
        FlowError,
    >)
        ensures
            r == (if handler.state.waiting() {
                Err::<NextSample, FlowError>(FlowError::Eos)
            } else {
                match handler.state.eos_sample() {
                    Some(sample) => match (sample.caps, sink_caps) {
                        (Some(caps), _) => Ok(NextSample::Kept(sample, caps)),
                        (None, Some(caps)) => Ok(NextSample::Kept(sample, caps)),
                        (None, None) => Err(FlowError::NotNegotiated),
                    },
                    None => Ok(NextSample::FromSink),
                }
            }),
    {
        match handler.get_eos_sample() {
            Err(e) => Err(e),
            Ok(Some(sample)) => match Self::eos_sample_caps(&sample, sink_caps) {
                Ok(caps) => Ok(NextSample::Kept(sample, caps)),
                Err(e) => Err(e),
            },
            Ok(None) => Ok(NextSample::FromSink),
        }
    }

    /// The segment of the next sample, or why it is not handed out. See
    /// `SeekHandler::process` for the arguments.
    pub fn create_process(
        &mut self,
        handler: &mut SeekHandler,
        sample: &Sample,
        placement: Placement,
        nle_segment: Option<Segment>,
        has_clipper: bool,
    ) -> (r: Result<Option<Segment>, FlowError>)
        requires
            old(handler).state.wf(),
            old(handler).state.can_process(
                old(self).range(),
                *sample,
                placement,
                nle_segment,
                has_clipper,
            ),
        ensures
            final(self).settings == old(self).settings,
            final(self).n_pipelines == old(self).n_pipelines,
            final(handler).name == old(handler).name,
            final(handler).state.wf(),
            final(handler).state == old(handler).state.processed(
                old(self).range(),
                *sample,
                placement,
                nle_segment,
                has_clipper,
            ),
            match old(handler).state.process_result(
                old(self).range(),
                *sample,
                placement,
                nle_segment,
                has_clipper,
            ) {
                Ok(SeekInfo::SeekSegment(seqnum, segment)) => {
                    &&& r == Ok::<Option<Segment>, FlowError>(Some(segment))
                    &&& final(self).state == (State {
                        segment_seqnum: Some(seqnum),
                        ..old(self).state
                    })
                },
                Ok(_) => {
                    &&& r == Ok::<Option<Segment>, FlowError>(sample.segment)
                    &&& final(self).state == old(self).state
                },
                Err(e) => {
                    &&& r == Err::<Option<Segment>, FlowError>(e.0)
                    &&& final(self).state == old(self).state
                },
            },
            r matches Ok(segment) ==> finishable(*sample, segment),
    {
        let range = self.source_range();
        match handler.process(&range, sample, placement, nle_segment, has_clipper) {
            Ok(info) => Ok(self.segment_for(sample, &info)),
            Err(e) => Err(e.0),
        }
    }

    /// What is pushed and handed out for a sample of `segment`, whose stream
    /// time is `stream_time`.
    pub fn create_finish(
        &mut self,
        handler: &mut SeekHandler,
        sample: &Sample,
        segment: Option<Segment>,
        stream_time: Option<u64>,
    ) -> (r: (Option<Segment>, Result<Created, FlowError>))
        requires
            finishable(*sample, segment),
            !(segment matches Some(s) && !s.timed()) ==> (sample.buffer is None
                ==> sample.buffer_list is None),
        ensures
            final(self).settings == old(self).settings,
            final(self).n_pipelines == old(self).n_pipelines,
            final(handler).name == old(handler).name,
            ({
                let handled = !(segment matches Some(s) && !s.timed());
                &&& r.0 == (match segment {
                    Some(s) => if handled && !old(self).state.pushed(s) {
                        Some(s)
                    } else {
                        None
                    },
                    None => None,
                })
                &&& r.1 == (match sample.buffer {
                    Some(buffer) => if handled {
                        Ok::<Created, FlowError>(Created::Buffer(buffer.handle))
                    } else {
                        Err(FlowError::Error)
                    },
                    None => Err(FlowError::Error),
                })
                &&& final(self).state == (if r.0 is Some {
                    State { current_segment: r.0, ..old(self).state }
                } else {
                    old(self).state
                })
                &&& final(handler).state == (if handled && sample.buffer is Some && sample.segment
                    is Some {
                    crate::uridecodepool::seek_handler::State {
                        stream_time,
                        ..old(handler).state
                    }
                } else {
                    old(handler).state
                })
            }),
    {
        let push = match self.push_segment(segment) {
            Ok(push) => push,
            Err(e) => {
                return (None, Err(e));
            },
        };
        let buffer = handler.handle_sample(sample, stream_time);
        (push, Self::created(buffer))
    }

    /// What is handed out for a sample with the given buffer, if any.
    pub fn created(buffer: Option<Buffer>) -> (r: Result<Created, FlowError>)
        ensures
            r == (match buffer {
                Some(buffer) => Ok::<Created, FlowError>(Created::Buffer(buffer.handle)),
                None => Err(FlowError::Error),
            }),
    {
        match buffer {
            Some(buffer) => Ok(Created::Buffer(buffer.handle)),
            None => Err(FlowError::Error),
        }
    }

    /// Forgets what was played. The pipeline is to be released to the pool.
    pub fn stop(&mut self) -> (r: u64)
        requires
            old(self).state.decoderpipe is Some,
        ensures
            final(self).settings == old(self).settings,
            final(self).n_pipelines == old(self).n_pipelines,
            final(self).state == (State {
                current_segment: None,
                seek_seqnum: None,
                segment_seqnum: None,
                seek_event: None,
                pending_seek: None,
                decoderpipe: None,
                start_completed: false,
                ..old(self).state
            }),
            old(self).state.decoderpipe == Some(r),
    {
        self.state.current_segment = None;
        self.state.seek_seqnum = None;
        self.state.segment_seqnum = None;
        self.state.seek_event = None;
        self.state.pending_seek = None;
        self.state.start_completed = false;
        self.state.decoderpipe.take().unwrap()
    }

    /// How to answer a question.
    pub fn query(&self, query: &QueryKind) -> (r: QueryAction)
        ensures
            match *query {
                QueryKind::Uri => r matches QueryAction::SetUri { uri, done } && uri
                    == self.settings.uri && done,
                QueryKind::Duration => r == (match self.state.decoderpipe {
                    Some(decoderpipe) => QueryAction::Pipeline(decoderpipe),
                    None => QueryAction::Parent,
                }),
                QueryKind::Custom(name) => r == (if name matches Some(name) && name@
                    == "can-seek-in-null"@ {
                    QueryAction::CanSeekInNull
                } else {
                    match self.state.decoderpipe {
                        Some(decoderpipe) => QueryAction::Pipeline(decoderpipe),
                        None => QueryAction::Parent,
                    }
                }),
                QueryKind::Other => r is Parent,
            },
    {
        match query {
            QueryKind::Uri => QueryAction::SetUri {
                uri: copy_string(&self.settings.uri),
                done: true,
            },
            QueryKind::Duration => self.query_pipeline(),
            QueryKind::Custom(name) => {
                let can_seek = match name {
                    Some(name) => text_eq(name.as_str(), "can-seek-in-null"),
                    None => false,
                };
                if can_seek {
                    QueryAction::CanSeekInNull
                } else {
                    self.query_pipeline()
                }
            },
            QueryKind::Other => QueryAction::Parent,
        }
    }

    fn query_pipeline(&self) -> (r: QueryAction)
        ensures
            r == (match self.state.decoderpipe {
                Some(decoderpipe) => QueryAction::Pipeline(decoderpipe),
                None => QueryAction::Parent,
            }),
    {
        match self.state.decoderpipe {
            Some(decoderpipe) => QueryAction::Pipeline(decoderpipe),
            None => QueryAction::Parent,
        }
    }
}

/// One pull: what was pulled, whether the selected stream played, and the
/// segment that the sink showed.
pub type Pull = (Pulled, bool, Option<Segment>);

/// The state after a number of pulls for samples.
pub open spec fn after_pulls(state: State, pulls: Seq<Pull>) -> State
    decreases pulls.len(),
{
    if pulls.len() == 0 {
        state
    } else {
        let last = pulls.last();
        after_pulls(state, pulls.drop_last()).after_pull(Wanted::Sample, last.0, last.1, last.2)
    }
}

/// While the flush of a seek is waited for, no sample is handed out, and the
/// end of the stream is not reported, before the end of that very flush was
/// pulled.
pub proof fn law_no_sample_before_flush_stop(
    state: State,
    seqnum: u32,
    pulls: Seq<Pull>,
    next: Pull,
)
    requires
        state.seek_seqnum == Some(seqnum),
        forall|i: int|
            #![trigger pulls[i]]
            0 <= i < pulls.len() ==> pulls[i].0 != Pulled::FlushStop(seqnum),
    ensures
        ({
            let before = after_pulls(state, pulls);
            let step = before.pulled_step(Wanted::Sample, next.0, next.1, next.2);
            &&& before.seek_seqnum == Some(seqnum)
            &&& !(step is Found)
            &&& step != Step::Fail(FlowError::Eos)
            &&& !(step is PushSegmentThenEos)
            &&& next.0 == Pulled::FlushStop(seqnum) ==> before.after_pull(
                Wanted::Sample,
                next.0,
                next.1,
                next.2,
            ).seek_seqnum is None
        }),
    decreases pulls.len(),
{
    if pulls.len() > 0 {
        law_no_sample_before_flush_stop(state, seqnum, pulls.drop_last(), next);
        assert(pulls.last() == pulls[pulls.len() - 1]);
    }
}

/// The flush of a flushing seek that is sent to the pipeline is waited for.
pub proof fn law_sent_flush_is_waited_for(state: State, event: SeekEvent, segment: Segment)
    requires
        state.seek_event == Some(event),
        state.do_seek_action() is Send,
        event.seek.flushing(),
    ensures
        state.after_do_seek(segment).seek_seqnum == Some(event.seqnum),
{
}

/// A flushing seek that the source sends itself is not waited for, and the
/// pipeline does not get it; still downstream gets a segment with its
/// sequence number.
pub proof fn law_own_seek_stays(state: State, event: SeekEvent, segment: Segment)
    requires
        state.seek_event == Some(event),
        event.seek.flushing(),
        state.ignore_seek,
        state.decoderpipe is Some,
    ensures
        state.do_seek_action() is Done,
        state.after_do_seek(segment).seek_seqnum == state.seek_seqnum,
        state.after_do_seek(segment).segment_seqnum == Some(event.seqnum),
        state.after_do_seek(segment).needs_segment,
{
}

/// Downstream never sees the end of the stream after a flushing seek without
/// a segment: it is pushed first, as long as the sink or the seek has one in
/// time.
pub proof fn law_segment_before_eos(
    state: State,
    event: SeekEvent,
    segment: Segment,
    sticky: Option<Segment>,
    started: bool,
)
    requires
        state.seek_event == Some(event),
        state.decoderpipe is Some,
        event.seek.flushing(),
        segment.timed(),
        sticky matches Some(s) ==> s.timed(),
    ensures
        ({
            let sought = state.after_do_seek(segment);
            let flushed = State { seek_seqnum: None, ..sought };
            flushed.pulled_step(Wanted::Sample, Pulled::Nothing { eos: true }, started, sticky)
                == Step::PushSegmentThenEos(
                match sticky {
                    Some(s) => s,
                    None => segment,
                },
            )
        }),
{
}

/// The initial seek of a source is one that its own seek handling takes for a
/// seek which opens its range, forward and in reverse.
pub proof fn law_initial_seek_opens_range(range: SourceRange, seqnum: u32)
    requires
        range.inpoint is Some,
        range.duration is Some,
        range.inpoint->0 + range.duration->0 < u64::MAX,
    ensures
        range_seek(range, seqnum) matches Some(seek) && {
            &&& crate::uridecodepool::seek_handler::well_posed(seek, range)
            &&& crate::uridecodepool::seek_handler::opens_range(seek, range)
            &&& seek.seek.flushing()
        },
{
    assert((1u32 | 2u32) & 1u32 == 1u32) by (bit_vector);
}

/// The initial seek plays exactly the source's range, in either direction: it
/// goes from the inpoint to the inpoint and the duration, or on to the end where
/// there is no duration. There is one exactly where there is an inpoint.
pub proof fn law_initial_seek_covers_the_range(
    src: UriDecodePoolSrc,
    seqnum: u32,
    r: Option<SeekEvent>,
)
    requires
        src.settings.inpoint is Some && src.settings.duration is Some ==> src.settings.inpoint->0
            + src.settings.duration->0 < u64::MAX,
        call_ensures(UriDecodePoolSrc::initial_seek_event, (&src, seqnum), r),
    ensures
        r is Some <==> src.settings.inpoint is Some,
        r matches Some(event) ==> {
            let seek = event.seek;
            &&& event.seqnum == seqnum
            &&& seek.start.value == src.settings.inpoint
            &&& src.settings.duration is None ==> seek.stop.value is None
            &&& src.settings.duration is Some ==> (seek.stop.value matches Some(stop) && stop
                - seek.start.value->0 == src.settings.duration->0)
            &&& seek.start.format == FORMAT_TIME && seek.stop.format == FORMAT_TIME
            &&& seek.start_type is Absolute && seek.stop_type is Absolute
            &&& seek.rate.unit()
            &&& seek.rate.positive() <==> !src.settings.reverse
            &&& seek.rate.negative() <==> src.settings.reverse
            &&& seek.flags == 3
        },
{
    assert(1u32 | 2u32 == 3u32) by (bit_vector);
}

/// The direction of playback is the rate of the initial seek, and nothing else
/// of it.
pub proof fn law_direction_is_the_rate(
    forward: UriDecodePoolSrc,
    backward: UriDecodePoolSrc,
    seqnum: u32,
    a: SeekEvent,
    b: SeekEvent,
)
    requires
        forward.settings.inpoint == backward.settings.inpoint,
        forward.settings.duration == backward.settings.duration,
        call_ensures(UriDecodePoolSrc::initial_seek_event, (&forward, seqnum), Some(a)),
        call_ensures(UriDecodePoolSrc::initial_seek_event, (&backward, seqnum), Some(b)),
    ensures
        a == (SeekEvent { seek: Seek { rate: a.seek.rate, ..b.seek }, ..b }),
        a.seek.rate == b.seek.rate <==> forward.settings.reverse == backward.settings.reverse,
{
}

/// A seek that comes in is the one that is sent to the pipeline, once.
pub proof fn law_seek_is_sent_once(
    first: &mut UriDecodePoolSrc,
    second: &mut UriDecodePoolSrc,
    third: &mut UriDecodePoolSrc,
    event: SeekEvent,
    segment: Segment,
    action: SeekEventAction,
    sent: DoSeek,
    again: DoSeek,
)
    requires
        call_ensures(UriDecodePoolSrc::handle_seek_event, (first, event), action),
        *second == *final(first),
        call_ensures(UriDecodePoolSrc::do_seek, (second, &segment), sent),
        *third == *final(second),
        call_ensures(UriDecodePoolSrc::do_seek, (third, &segment), again),
    ensures
        action is Forward <==> old(first).state.start_completed,
        action matches SeekEventAction::Postpone(pipeline)
            ==> pipeline == old(first).state.decoderpipe,
        old(first).state.decoderpipe is None ==> sent is NoPipeline,
        old(first).state.decoderpipe is Some && !(event.seek.flushing()
            && old(first).state.ignore_seek)
            ==> sent == DoSeek::Send(old(first).state.decoderpipe->0, event),
        old(first).state.decoderpipe is Some && event.seek.flushing()
            && old(first).state.ignore_seek ==> sent is Done,
        again is Done,
        *final(third) == *final(second),
        final(first).settings == old(first).settings,
        final(first).n_pipelines == old(first).n_pipelines,
        final(second).settings == old(second).settings,
        final(second).n_pipelines == old(second).n_pipelines,
        final(third).settings == old(third).settings,
        final(third).n_pipelines == old(third).n_pipelines,
{
}

/// A seek that flushes nothing leaves no trace but that it is performed: no flush
/// is waited for, and downstream gets no other segment.
pub proof fn law_plain_seek_is_not_waited_for(
    src: &mut UriDecodePoolSrc,
    event: SeekEvent,
    segment: Segment,
    r: DoSeek,
)
    requires
        old(src).state.seek_event == Some(event),
        !event.seek.flushing(),
        call_ensures(UriDecodePoolSrc::do_seek, (src, &segment), r),
    ensures
        final(src).state == (State { seek_event: None, ..old(src).state }),
        final(src).settings == old(src).settings,
        old(src).state.decoderpipe is Some ==> r == DoSeek::Send(
            old(src).state.decoderpipe->0,
            event,
        ),
        final(src).n_pipelines == old(src).n_pipelines,
{
}

/// After a seek that flushes nothing, a source that waited for no flush hands
/// out the next sample of the stream that plays.
pub proof fn law_plain_seek_lets_samples_pass(
    first: &mut UriDecodePoolSrc,
    second: &mut UriDecodePoolSrc,
    event: SeekEvent,
    segment: Segment,
    sample: Sample,
    sticky: Option<Segment>,
    sent: DoSeek,
    step: Step,
)
    requires
        old(first).state.seek_event == Some(event),
        !event.seek.flushing(),
        old(first).state.seek_seqnum is None,
        !old(first).state.flushing,
        call_ensures(UriDecodePoolSrc::do_seek, (first, &segment), sent),
        *second == *final(first),
        call_ensures(
            UriDecodePoolSrc::process_objects_pulled,
            (second, Wanted::Sample, Pulled::Sample(sample), true, sticky),
            step,
        ),
    ensures
        step == Step::Found(Object::Sample(sample)),
        *final(second) == *final(first),
        final(first).settings == old(first).settings,
        final(first).n_pipelines == old(first).n_pipelines,
        final(second).settings == old(second).settings,
        final(second).n_pipelines == old(second).n_pipelines,
{
}

/// Of a flushing seek, downstream gets a segment with its sequence number; its
/// flush is waited for exactly where the pipeline got the seek. Nothing else
/// changes, and without a pipeline nothing does.
pub proof fn law_flushing_seek_asks_for_a_segment(
    src: &mut UriDecodePoolSrc,
    event: SeekEvent,
    segment: Segment,
    r: DoSeek,
)
    requires
        old(src).state.seek_event == Some(event),
        event.seek.flushing(),
        call_ensures(UriDecodePoolSrc::do_seek, (src, &segment), r),
    ensures
        final(src).state.seek_event is None,
        final(src).settings == old(src).settings,
        old(src).state.decoderpipe is None ==> final(src).state == (State {
            seek_event: None,
            ..old(src).state
        }),
        old(src).state.decoderpipe is Some ==> {
            &&& final(src).state.segment_seqnum == Some(event.seqnum)
            &&& final(src).state.needs_segment
            &&& final(src).state.seek_segment == Some(segment)
            &&& r is Send <==> !old(src).state.ignore_seek
            &&& r is Send ==> final(src).state.seek_seqnum == Some(event.seqnum)
            &&& !(r is Send) ==> final(src).state.seek_seqnum == old(src).state.seek_seqnum
        },
        final(src).state.decoderpipe == old(src).state.decoderpipe,
        final(src).state.current_segment == old(src).state.current_segment,
        final(src).state.pending_seek == old(src).state.pending_seek,
        final(src).state.flushing == old(src).state.flushing,
        final(src).state.ignore_seek == old(src).state.ignore_seek,
        final(src).state.start_completed == old(src).state.start_completed,
        final(src).n_pipelines == old(src).n_pipelines,
{
}

/// The source waits from when it sends a flushing seek until the end of that
/// flush is pulled: a sample before it is dropped, one after it is handed out.
pub proof fn law_samples_come_back_after_the_flush(
    first: &mut UriDecodePoolSrc,
    second: &mut UriDecodePoolSrc,
    third: &mut UriDecodePoolSrc,
    fourth: &mut UriDecodePoolSrc,
    event: SeekEvent,
    segment: Segment,
    early: Sample,
    late: Sample,
    sent: DoSeek,
    dropped: Step,
    flushed: Step,
    found: Step,
)
    requires
        old(first).state.seek_event == Some(event),
        event.seek.flushing(),
        !old(first).state.flushing,
        call_ensures(UriDecodePoolSrc::do_seek, (first, &segment), sent),
        sent is Send,
        *second == *final(first),
        call_ensures(
            UriDecodePoolSrc::process_objects_pulled,
            (second, Wanted::Sample, Pulled::Sample(early), true, None),
            dropped,
        ),
        *third == *final(second),
        call_ensures(
            UriDecodePoolSrc::process_objects_pulled,
            (third, Wanted::Sample, Pulled::FlushStop(event.seqnum), true, None),
            flushed,
        ),
        *fourth == *final(third),
        call_ensures(
            UriDecodePoolSrc::process_objects_pulled,
            (fourth, Wanted::Sample, Pulled::Sample(late), true, None),
            found,
        ),
    ensures
        dropped is Again,
        *final(second) == *final(first),
        flushed is Again,
        found == Step::Found(Object::Sample(late)),
        final(first).settings == old(first).settings,
        final(first).n_pipelines == old(first).n_pipelines,
        final(second).settings == old(second).settings,
        final(second).n_pipelines == old(second).n_pipelines,
        final(third).settings == old(third).settings,
        final(third).n_pipelines == old(third).n_pipelines,
        final(fourth).settings == old(fourth).settings,
        final(fourth).n_pipelines == old(fourth).n_pipelines,
{
}

/// What one pull means for a source: objects are looked at only once the
/// selected stream plays; what is wanted is handed out unless the source is
/// flushed or waits; other caps are set; tags always go on; and the end of
/// another flush changes nothing.
pub proof fn law_pulled_objects_are_sorted_out(
    src: &mut UriDecodePoolSrc,
    wanted: Wanted,
    pulled: Pulled,
    started: bool,
    sticky: Option<Segment>,
    r: Step,
)
    requires
        call_ensures(
            UriDecodePoolSrc::process_objects_pulled,
            (src, wanted, pulled, started, sticky),
            r,
        ),
    ensures
        pulled matches Pulled::Tag(tag) ==> r == Step::ForwardTag(tag),
        pulled matches Pulled::Caps(caps) ==> {
            &&& !started ==> r is Again
            &&& started && !(wanted is Caps) ==> r == Step::SetCaps(caps)
            &&& started && wanted is Caps && old(src).state.flushing ==> r == Step::Fail(
                FlowError::Flushing,
            )
            &&& started && wanted is Caps && !old(src).state.flushing ==> r == Step::Found(
                Object::Caps(caps),
            )
        },
        pulled matches Pulled::Sample(sample) ==> {
            &&& !started || !(wanted is Sample) || old(src).state.seek_seqnum is Some ==> r is Again
            &&& started && wanted is Sample && old(src).state.seek_seqnum is None
                ==> r == (if old(src).state.flushing {
                Step::Fail(FlowError::Flushing)
            } else {
                Step::Found(Object::Sample(sample))
            })
        },
        pulled is OtherEvent || pulled is OtherObject || pulled is FlushStop ==> r is Again,
        pulled == (Pulled::Nothing { eos: false }) ==> r == (if old(src).state.flushing {
            Step::Fail(FlowError::Flushing)
        } else {
            Step::Again
        }),
        !(pulled is FlushStop) && pulled != (Pulled::Nothing { eos: true })
            ==> *final(src) == *old(src),
        pulled matches Pulled::FlushStop(seqnum) ==> final(src).state == (State {
            seek_seqnum: if old(src).state.seek_seqnum == Some(seqnum) {
                None
            } else {
                old(src).state.seek_seqnum
            },
            ..old(src).state
        }),
        final(src).settings == old(src).settings,
        final(src).n_pipelines == old(src).n_pipelines,
{
}

/// At the end of the sink, a flush is still waited for; else the end is reported,
/// behind the segment that downstream lacks, which is the one of the sink before
/// that of the last seek.
pub proof fn law_end_of_the_sink(
    src: &mut UriDecodePoolSrc,
    wanted: Wanted,
    started: bool,
    sticky: Option<Segment>,
    r: Step,
)
    requires
        call_ensures(
            UriDecodePoolSrc::process_objects_pulled,
            (src, wanted, Pulled::Nothing { eos: true }, started, sticky),
            r,
        ),
    ensures
        old(src).state.seek_seqnum is Some ==> r is WaitAgain && *final(src) == *old(src),
        old(src).state.seek_seqnum is None && (!old(src).state.needs_segment || (sticky is None
            && old(src).state.seek_segment is None)) ==> r == Step::Fail(FlowError::Eos)
            && *final(src) == *old(src),
        old(src).state.seek_seqnum is None && old(src).state.needs_segment && sticky is Some ==> {
            &&& sticky->0.format == FORMAT_TIME ==> r == Step::PushSegmentThenEos(sticky->0)
            &&& sticky->0.format != FORMAT_TIME ==> r == Step::ReportThenFail(FlowError::Error)
        },
        old(src).state.seek_seqnum is None && old(src).state.needs_segment && sticky is None
            && old(src).state.seek_segment is Some ==> {
            let segment = old(src).state.seek_segment->0;
            &&& segment.format == FORMAT_TIME ==> r == Step::PushSegmentThenEos(segment)
            &&& segment.format != FORMAT_TIME ==> r == Step::ReportThenFail(FlowError::Error)
        },
        r matches Step::PushSegmentThenEos(segment) ==> final(src).state == (State {
            current_segment: Some(segment),
            ..old(src).state
        }),
        !(r is PushSegmentThenEos) ==> *final(src) == *old(src),
        final(src).settings == old(src).settings,
        final(src).n_pipelines == old(src).n_pipelines,
{
}

/// Before pulling, nothing is found but what is wanted, what the sink shows, and
/// only while the selected stream plays and no flush is waited for; samples are
/// never shown.
pub proof fn law_shown_objects_are_enough(
    src: UriDecodePoolSrc,
    wanted: Wanted,
    started: bool,
    caps: Option<u64>,
    segment: Option<Segment>,
    r: Step,
)
    requires
        call_ensures(
            UriDecodePoolSrc::process_objects_begin,
            (&src, wanted, started, caps, segment),
            r,
        ),
    ensures
        src.state.flushing <==> r == Step::Fail(FlowError::Flushing),
        r is Found || r is Pull || src.state.flushing,
        !started || src.state.seek_seqnum is Some || wanted is Sample ==> !(r is Found),
        !src.state.flushing && started && src.state.seek_seqnum is None && wanted is Caps ==> {
            &&& caps is Some ==> r == Step::Found(Object::Caps(caps->0))
            &&& caps is None ==> r is Pull
        },
        !src.state.flushing && started && src.state.seek_seqnum is None && wanted is Segment ==> {
            &&& segment is Some ==> r == Step::Found(Object::Segment(segment->0))
            &&& segment is None ==> r is Pull
        },
{
}

/// Starting is complete once: the first settled state of the pipeline tells, and
/// no later one does. A pipeline that is not the source's own is given up.
pub proof fn law_start_completes_once(
    first: &mut UriDecodePoolSrc,
    second: &mut UriDecodePoolSrc,
    message: SourceMessage,
    other: SourceMessage,
    own: bool,
    r: SourceMessageAction,
    again: SourceMessageAction,
)
    requires
        call_ensures(UriDecodePoolSrc::handle_bus_message, (first, message, own), r),
        *second == *final(first),
        call_ensures(UriDecodePoolSrc::handle_bus_message, (second, other, true), again),
    ensures
        !own <==> r is Disconnect,
        own && message is Error <==> r is Forward,
        r is StartComplete <==> own && !old(first).state.start_completed && message == (
        SourceMessage::StateChanged { of_pipeline: true, settled: true }),
        r is StartComplete ==> !(again is StartComplete),
        final(first).state == (State {
            start_completed: old(first).state.start_completed || r is StartComplete,
            ..old(first).state
        }),
        final(first).settings == old(first).settings,
        final(first).n_pipelines == old(first).n_pipelines,
        final(second).settings == old(second).settings,
        final(second).n_pipelines == old(second).n_pipelines,
{
}

/// A pipeline that plays at once completes the start, and then the seek that
/// waited for it is handed out, once.
pub proof fn law_pending_seek_is_handed_out_once(
    first: &mut UriDecodePoolSrc,
    second: &mut UriDecodePoolSrc,
    played: Option<bool>,
    later: Option<bool>,
    r: Result<Started, StartError>,
    again: Result<Started, StartError>,
)
    requires
        call_ensures(UriDecodePoolSrc::started, (first, played), r),
        *second == *final(first),
        call_ensures(UriDecodePoolSrc::started, (second, later), again),
    ensures
        played is None <==> r is Err,
        r is Err ==> r->Err_0 is Play && *final(first) == *old(first),
        r matches Ok(started) ==> {
            &&& started.complete <==> played == Some(true) && !old(first).state.start_completed
            &&& started.complete ==> started.seek == old(first).state.pending_seek
                && final(first).state
                == (State { start_completed: true, pending_seek: None, ..old(first).state })
            &&& !started.complete ==> started.seek is None && *final(first) == *old(first)
            &&& started.complete && again is Ok ==> !again->Ok_0.complete && again->Ok_0.seek
                is None
        },
        final(first).settings == old(first).settings,
        final(first).n_pipelines == old(first).n_pipelines,
        final(second).settings == old(second).settings,
        final(second).n_pipelines == old(second).n_pipelines,
{
}

/// A seek that was announced to the pipeline is taken for handled; any other one
/// is taken note of, and postponed until starting is complete.
pub proof fn law_announced_seek_is_not_taken_note_of(
    src: &mut UriDecodePoolSrc,
    event: SeekEvent,
    announced: bool,
    r: EventAction,
)
    requires
        call_ensures(UriDecodePoolSrc::event, (src, event, announced), r),
    ensures
        announced <==> r is Handled,
        announced ==> *final(src) == *old(src),
        !announced ==> final(src).state == (State { seek_event: Some(event), ..old(src).state }),
        r == EventAction::Seek(SeekEventAction::Forward) ==> old(src).state.start_completed,
        r matches EventAction::Seek(SeekEventAction::Postpone(pipeline))
            ==> !old(src).state.start_completed && pipeline == old(src).state.decoderpipe,
        final(src).settings == old(src).settings,
        final(src).n_pipelines == old(src).n_pipelines,
{
}

/// A segment goes downstream once, until another one does; one that is not in
/// time does not.
pub proof fn law_segment_is_pushed_once(
    first: &mut UriDecodePoolSrc,
    second: &mut UriDecodePoolSrc,
    segment: Segment,
    r: Result<Option<Segment>, FlowError>,
    again: Result<Option<Segment>, FlowError>,
)
    requires
        segment.same(segment),
        call_ensures(UriDecodePoolSrc::push_segment, (first, Some(segment)), r),
        *second == *final(first),
        call_ensures(UriDecodePoolSrc::push_segment, (second, Some(segment)), again),
    ensures
        segment.format != FORMAT_TIME ==> r == Err::<Option<Segment>, FlowError>(FlowError::Error)
            && *final(first) == *old(first),
        segment.format == FORMAT_TIME ==> {
            &&& r is Ok
            &&& old(first).state.current_segment is None ==> r == Ok::<Option<Segment>, FlowError>(
                Some(segment),
            )
            &&& r->Ok_0 is Some ==> r->Ok_0->0 == segment && final(first).state == (State {
                current_segment: Some(segment),
                ..old(first).state
            })
            &&& r->Ok_0 is None ==> *final(first) == *old(first) && segment.same(
                old(first).state.current_segment->0,
            )
            &&& again == Ok::<Option<Segment>, FlowError>(None)
            &&& *final(second) == *final(first)
        },
        final(first).settings == old(first).settings,
        final(first).n_pipelines == old(first).n_pipelines,
        final(second).settings == old(second).settings,
        final(second).n_pipelines == old(second).n_pipelines,
{
}

/// The segment that was pushed is the one that goes downstream, with the sequence
/// number of the last seek, once no flush is waited for.
pub proof fn law_pushed_segment_goes_on(
    first: &mut UriDecodePoolSrc,
    second: &mut UriDecodePoolSrc,
    segment: Segment,
    offset: i64,
    seqnum: u32,
    r: SegmentProbe,
)
    requires
        call_ensures(
            UriDecodePoolSrc::push_segment,
            (first, Some(segment)),
            Ok::<Option<Segment>, FlowError>(Some(segment)),
        ),
        *second == *final(first),
        call_ensures(UriDecodePoolSrc::segment_probe, (second, offset, seqnum), r),
    ensures
        old(first).state.seek_seqnum is Some ==> r is Discard && *final(second) == *final(first),
        old(first).state.seek_seqnum is None ==> {
            &&& r == (SegmentProbe::Replace {
                segment,
                running_time_offset: offset,
                seqnum: Some(
                    if old(first).state.segment_seqnum is Some {
                        old(first).state.segment_seqnum->0
                    } else {
                        seqnum
                    },
                ),
            })
            &&& final(second).state == (State { needs_segment: false, ..final(first).state })
        },
        final(first).settings == old(first).settings,
        final(first).n_pipelines == old(first).n_pipelines,
        final(second).settings == old(second).settings,
        final(second).n_pipelines == old(second).n_pipelines,
{
}

/// Without a segment that was pushed none goes on, and downstream lacks one as
/// before.
pub proof fn law_unknown_segment_is_held_back(
    src: &mut UriDecodePoolSrc,
    offset: i64,
    seqnum: u32,
    r: SegmentProbe,
)
    requires
        old(src).state.current_segment is None,
        call_ensures(UriDecodePoolSrc::segment_probe, (src, offset, seqnum), r),
    ensures
        r is Discard,
        *final(src) == *old(src),
        final(src).settings == old(src).settings,
        final(src).n_pipelines == old(src).n_pipelines,
{
}

/// Segments carry the sequence number of a seek that a nested timeline is going to
/// perform.
pub proof fn law_announced_seqnum_is_carried(
    first: &mut UriDecodePoolSrc,
    second: &mut UriDecodePoolSrc,
    result: NleCompositionSeekResult,
    offset: i64,
    own: u32,
    r: SegmentProbe,
    handled: bool,
)
    requires
        call_ensures(UriDecodePoolSrc::use_announced_seqnum, (first, &result), ()),
        *second == *final(first),
        call_ensures(UriDecodePoolSrc::segment_probe, (second, offset, own), r),
        call_ensures(UriDecodePoolSrc::composition_seek_handled, (&result,), handled),
    ensures
        handled <==> result is Expected || result is UseSeqnum,
        !(result is UseSeqnum) ==> *final(first) == *old(first),
        result matches NleCompositionSeekResult::UseSeqnum(seqnum) ==> {
            &&& final(first).state == (State { segment_seqnum: Some(seqnum), ..old(first).state })
            &&& r matches SegmentProbe::Replace { segment, running_time_offset, seqnum: carried }
                ==> carried == Some(seqnum)
        },
        final(first).settings == old(first).settings,
        final(first).n_pipelines == old(first).n_pipelines,
        final(second).settings == old(second).settings,
        final(second).n_pipelines == old(second).n_pipelines,
{
}

/// A stream starts under the identifier that was asked for, or else under its own,
/// and not before the flush that is waited for ended.
pub proof fn law_stream_starts_under_its_identifier(
    src: UriDecodePoolSrc,
    stream: Option<Stream>,
    group: Option<u32>,
    r: StreamStartProbe,
)
    requires
        stream is Some ==> stream->0.id is Some,
        call_ensures(UriDecodePoolSrc::stream_start_probe, (&src, &stream, group), r),
    ensures
        src.state.seek_seqnum is Some <==> r is Discard,
        src.state.seek_seqnum is None && stream is None <==> r is Pass,
        r matches StreamStartProbe::Replace { stream_id, group_id } ==> {
            &&& group_id == group
            &&& src.settings.stream_id is Some ==> stream_id@ == src.settings.stream_id->0@
            &&& src.settings.stream_id is None ==> stream_id@ == stream->0.id->0@
        },
{
}

/// A sample that belongs to a seek is pushed in the segment of the seek, and
/// segments carry its number from then on; any other sample in its own.
pub proof fn law_sample_has_the_segment_of_its_seek(
    src: &mut UriDecodePoolSrc,
    sample: Sample,
    info: SeekInfo,
    r: Option<Segment>,
)
    requires
        info is NoSeek || info is SeekSegment,
        call_ensures(UriDecodePoolSrc::segment_for, (src, &sample, &info), r),
    ensures
        info is NoSeek ==> r == sample.segment && *final(src) == *old(src),
        info matches SeekInfo::SeekSegment(seqnum, segment)
            ==> r == Some(segment)
            && final(src).state == (State { segment_seqnum: Some(seqnum), ..old(src).state }),
        final(src).settings == old(src).settings,
        final(src).n_pipelines == old(src).n_pipelines,
{
}

/// The kept sample comes first, under its own caps or those of the sink, but not
/// before an announced seek came; without one, the sink is asked.
pub proof fn law_kept_sample_comes_first(
    handler: SeekHandler,
    sink_caps: Option<u64>,
    r: Result<NextSample, FlowError>,
)
    requires
        call_ensures(UriDecodePoolSrc::create_begin, (&handler, sink_caps), r),
    ensures
        ({
            let waiting = handler.state.nle_seek is Some
                && !handler.state.handled_composition_seek;
            &&& waiting ==> r == Err::<NextSample, FlowError>(FlowError::Eos)
            &&& !waiting && !(handler.state.seek_info is PreviousSeekDone) ==> r == Ok::<
                NextSample,
                FlowError,
            >(NextSample::FromSink)
            &&& !waiting && handler.state.seek_info is PreviousSeekDone ==> {
                let sample = handler.state.seek_info->PreviousSeekDone_0;
                &&& sample.caps is Some ==> r == Ok::<NextSample, FlowError>(
                    NextSample::Kept(sample, sample.caps->0),
                )
                &&& sample.caps is None && sink_caps is Some ==> r == Ok::<NextSample, FlowError>(
                    NextSample::Kept(sample, sink_caps->0),
                )
                &&& sample.caps is None && sink_caps is None ==> r == Err::<NextSample, FlowError>(
                    FlowError::NotNegotiated,
                )
            }
        }),
{
}

/// What is handed out for a sample is its buffer; its segment goes first, unless
/// it was pushed last, and the stream time is taken note of.
pub proof fn law_buffer_is_handed_out(
    src: &mut UriDecodePoolSrc,
    handler: &mut SeekHandler,
    sample: Sample,
    segment: Option<Segment>,
    time: Option<u64>,
    r: (Option<Segment>, Result<Created, FlowError>),
)
    requires
        call_ensures(
            UriDecodePoolSrc::create_finish,
            (src, handler, &sample, segment, time),
            r,
        ),
    ensures
        segment is Some && segment->0.format != FORMAT_TIME ==> {
            &&& r.0 is None
            &&& r.1 == Err::<Created, FlowError>(FlowError::Error)
            &&& *final(src) == *old(src)
            &&& final(handler).state == old(handler).state
        },
        segment is None || segment->0.format == FORMAT_TIME ==> {
            &&& sample.buffer is Some ==> r.1 == Ok::<Created, FlowError>(
                Created::Buffer(sample.buffer->0.handle),
            )
            &&& sample.buffer is None ==> r.1 == Err::<Created, FlowError>(FlowError::Error)
            &&& r.0 is Some ==> r.0 == segment && final(src).state == (State {
                current_segment: segment,
                ..old(src).state
            })
            &&& r.0 is None ==> *final(src) == *old(src)
            &&& segment is Some && old(src).state.current_segment is None ==> r.0 == segment
            &&& segment is Some && old(src).state.current_segment is Some ==> (r.0 is None
                <==> segment->0.same(old(src).state.current_segment->0))
            &&& segment is None ==> r.0 is None
            &&& sample.buffer is Some && sample.segment is Some ==> final(handler).state.stream_time
                == time
            &&& final(handler).state.seek_info == old(handler).state.seek_info
        },
        final(src).settings == old(src).settings,
        final(src).n_pipelines == old(src).n_pipelines,
        final(handler).name == old(handler).name,
{
}

/// A source that stopped is as one that was never started, and gives its pipeline
/// back; only what the flush and the segments of before left behind stays.
pub proof fn law_stopped_source_starts_anew(src: &mut UriDecodePoolSrc, r: u64)
    requires
        call_ensures(UriDecodePoolSrc::stop, (src,), r),
        old(src).state.decoderpipe is Some,
    ensures
        Some(r) == old(src).state.decoderpipe,
        final(src).state.decoderpipe is None,
        final(src).state.current_segment is None,
        final(src).state.seek_event is None,
        final(src).state.pending_seek is None,
        final(src).state.seek_seqnum is None,
        final(src).state.segment_seqnum is None,
        !final(src).state.start_completed,
        final(src).state.flushing == old(src).state.flushing,
        final(src).state.needs_segment == old(src).state.needs_segment,
        final(src).state.seek_segment == old(src).state.seek_segment,
        final(src).state.ignore_seek == old(src).state.ignore_seek,
        final(src).settings == old(src).settings,
        final(src).n_pipelines == old(src).n_pipelines,
{
}

/// Flushing lasts from when the source is unlocked until that ends, and leaves
/// everything else as it was.
pub proof fn law_flushing_comes_to_an_end(
    first: &mut UriDecodePoolSrc,
    second: &mut UriDecodePoolSrc,
)
    requires
        call_ensures(UriDecodePoolSrc::unlock, (first,), ()),
        *second == *final(first),
        call_ensures(UriDecodePoolSrc::unlock_stop, (second,), ()),
    ensures
        final(first).state.flushing,
        final(second).state == (State { flushing: false, ..old(first).state }),
        final(second).settings == old(first).settings,
        final(first).settings == old(first).settings,
        final(first).n_pipelines == old(first).n_pipelines,
        final(second).settings == old(second).settings,
        final(second).n_pipelines == old(second).n_pipelines,
{
}

/// A source needs a location or a pipeline to start, and starts with the pipeline
/// that it was given.
pub proof fn law_source_starts_with_its_pipeline(
    first: &mut UriDecodePoolSrc,
    pipeline: u64,
    before: Result<Option<u64>, StartError>,
    after: Result<Option<u64>, StartError>,
)
    requires
        call_ensures(UriDecodePoolSrc::start, (&*old(first),), before),
        call_ensures(UriDecodePoolSrc::set_decoderpipe, (first, pipeline), ()),
        call_ensures(UriDecodePoolSrc::start, (&*final(first),), after),
    ensures
        after == Ok::<Option<u64>, StartError>(Some(pipeline)),
        before is Err <==> old(first).state.decoderpipe is None && old(first).settings.uri is None,
        before is Err ==> before->Err_0 is NoUri,
        before is Ok ==> before->Ok_0 == old(first).state.decoderpipe,
        final(first).state == (State {
            decoderpipe: Some(pipeline),
            needs_segment: true,
            ..old(first).state
        }),
        final(first).settings == old(first).settings,
        final(first).n_pipelines == old(first).n_pipelines,
{
}

/// A pipeline that was taken for a composition is the one that is played; the one
/// that an element has is released when the element is torn down, and only then.
pub proof fn law_element_releases_its_pipeline(
    first: &mut UriDecodePoolSrc,
    second: &mut UriDecodePoolSrc,
    pipeline: u64,
    torn_down: bool,
    has: Option<u64>,
    r: Option<u64>,
)
    requires
        call_ensures(UriDecodePoolSrc::set_composition_pipeline, (first, pipeline), ()),
        call_ensures(UriDecodePoolSrc::decoderpipe, (&*final(first),), has),
        *second == *final(first),
        call_ensures(UriDecodePoolSrc::change_state, (second, torn_down), r),
    ensures
        final(first).state == (State { decoderpipe: Some(pipeline), ..old(first).state }),
        has == Some(pipeline),
        torn_down ==> r == Some(pipeline) && final(second).state == (State {
            decoderpipe: None,
            ..old(first).state
        }),
        !torn_down ==> r is None && *final(second) == *final(first),
        final(first).settings == old(first).settings,
        final(first).n_pipelines == old(first).n_pipelines,
        final(second).settings == old(second).settings,
        final(second).n_pipelines == old(second).n_pipelines,
{
}

/// Caps that were refused stop the flow, for want of agreement unless the pad
/// flushes.
pub proof fn law_refused_caps_stop_the_flow(
    src: UriDecodePoolSrc,
    accepted: bool,
    flushing: bool,
    r: Result<(), FlowError>,
)
    requires
        call_ensures(UriDecodePoolSrc::set_caps, (&src, accepted, flushing), r),
    ensures
        accepted <==> r is Ok,
        r is Err ==> (flushing <==> r->Err_0 is Flushing),
        r is Err ==> (!flushing <==> r->Err_0 is NotNegotiated),
{
}

/// Caps that were found are set. The end of the stream is no failure: then those
/// that the sink shows are set, if any. Caps are not looked for while a sample is
/// kept.
pub proof fn law_end_of_stream_is_no_failure_to_negotiate(
    found: Result<u64, FlowError>,
    shown: Option<u64>,
    handler: SeekHandler,
    r: Result<Option<u64>, FlowError>,
    needed: bool,
    unknown: bool,
)
    requires
        call_ensures(UriDecodePoolSrc::negotiated, (found, shown), r),
        call_ensures(UriDecodePoolSrc::needs_caps, (Some(&handler),), needed),
        call_ensures(UriDecodePoolSrc::needs_caps, (None,), unknown),
    ensures
        found is Ok ==> r == Ok::<Option<u64>, FlowError>(Some(found->Ok_0)),
        found is Err && found->Err_0 is Eos ==> r == Ok::<Option<u64>, FlowError>(shown),
        found is Err && !(found->Err_0 is Eos) ==> r == Err::<Option<u64>, FlowError>(
            found->Err_0,
        ),
        needed <==> !(handler.state.seek_info is PreviousSeekDone),
        unknown,
{
}

/// Pipelines are numbered one after the other, and nothing else changes.
pub proof fn law_pipelines_are_numbered_in_turn(
    first: &mut UriDecodePoolSrc,
    second: &mut UriDecodePoolSrc,
    a: u32,
    b: u32,
)
    requires
        call_ensures(UriDecodePoolSrc::prepare_pipeline_next_number, (first,), a),
        *second == *final(first),
        call_ensures(UriDecodePoolSrc::prepare_pipeline_next_number, (second,), b),
    ensures
        a < u32::MAX ==> b == a + 1,
        a == u32::MAX ==> b == 0,
        a == old(first).n_pipelines,
        final(second).state == old(first).state,
        final(second).settings == old(first).settings,
{
}

/// Seeks are marked as the source's own until that is taken back.
pub proof fn law_own_seeks_are_marked(src: &mut UriDecodePoolSrc, ignore: bool)
    requires
        call_ensures(UriDecodePoolSrc::set_ignore_seek, (src, ignore), ()),
    ensures
        final(src).state == (State { ignore_seek: ignore, ..old(src).state }),
        final(src).settings == old(src).settings,
        final(src).n_pipelines == old(src).n_pipelines,
{
}

/// The location is answered by the source itself, the duration by its pipeline,
/// and whatever else is not known by the base class.
pub proof fn law_questions_are_answered(src: UriDecodePoolSrc, query: QueryKind, r: QueryAction)
    requires
        call_ensures(UriDecodePoolSrc::query, (&src, &query), r),
    ensures
        query is Uri ==> (r matches QueryAction::SetUri { uri, done } && uri == src.settings.uri
            && done),
        query is Duration && src.state.decoderpipe is Some ==> r == QueryAction::Pipeline(
            src.state.decoderpipe->0,
        ),
        query is Duration && src.state.decoderpipe is None ==> r is Parent,
        query is Other ==> r is Parent,
        r is CanSeekInNull <==> (query matches QueryKind::Custom(Some(name)) && name@
            == "can-seek-in-null"@),
        query is Custom && !(r is CanSeekInNull) ==> (r is Parent <==> src.state.decoderpipe
            is None),
        r matches QueryAction::Pipeline(pipeline) ==> src.state.decoderpipe == Some(pipeline),
        !(query is Uri) ==> !(r is SetUri),
{
}

/// A source plays the range of its settings, and knows whether it has an end.
pub proof fn law_source_plays_its_range(
    src: UriDecodePoolSrc,
    r: SourceRange,
    ends: bool,
    accepts: bool,
)
    requires
        call_ensures(UriDecodePoolSrc::source_range, (&src,), r),
        call_ensures(UriDecodePoolSrc::has_range_end, (&src,), ends),
        call_ensures(UriDecodePoolSrc::accepts_composition_seek, (&src,), accepts),
    ensures
        r.inpoint == src.settings.inpoint,
        r.duration == src.settings.duration,
        r.reverse == src.settings.reverse,
        !ends <==> r.inpoint is Some && r.duration is Some && r.inpoint->0 + r.duration->0
            >= u64::MAX,
        accepts <==> src.settings.uri is Some,
{
}

/// A new source plays raw video forward, from the start, of no location yet.
pub proof fn law_new_source_plays_nothing(caps: u64, r: UriDecodePoolSrc)
    requires
        call_ensures(UriDecodePoolSrc::new, (caps,), r),
    ensures
        r.settings.uri is None && r.settings.stream_id is None,
        r.settings.inpoint is None && r.settings.duration is None && !r.settings.reverse,
        r.settings.caps.handle == caps,
        r.settings.caps.name is Some && r.settings.caps.name->0@ == "video/x-raw"@,
        r.n_pipelines == 0,
        r.state.decoderpipe is None && r.state.current_segment is None && r.state.seek_event is None
            && r.state.pending_seek is None && r.state.seek_seqnum is None
            && r.state.segment_seqnum is None && r.state.seek_segment is None,
        !r.state.flushing && !r.state.needs_segment && !r.state.ignore_seek
            && !r.state.start_completed,
{
}

/// The next sample is what the seeks make of it: a sample of a seek has that seek's
/// segment, whose number segments carry from then on; any other has its own segment; and
/// what the seeks do not let pass is not handed out.
pub proof fn law_next_sample_is_what_the_seeks_make_of_it(
    source: &mut UriDecodePoolSrc,
    handler: &mut SeekHandler,
    other: &mut SeekHandler,
    range: SourceRange,
    sample: Sample,
    placement: Placement,
    nle_segment: Option<Segment>,
    has_clipper: bool,
    r: Result<Option<Segment>, FlowError>,
    info: Result<SeekInfo, (FlowError, Option<u32>)>,
)
    requires
        *other == *old(handler),
        call_ensures(UriDecodePoolSrc::source_range, (&*old(source),), range),
        call_ensures(
            UriDecodePoolSrc::create_process,
            (source, handler, &sample, placement, nle_segment, has_clipper),
            r,
        ),
        call_ensures(
            SeekHandler::process,
            (other, &range, &sample, placement, nle_segment, has_clipper),
            info,
        ),
    ensures
        final(handler).state == final(other).state,
        final(handler).name == old(handler).name,
        info matches Err(e) ==> r == Err::<Option<Segment>, FlowError>(e.0) && *final(source)
            == *old(source),
        info matches Ok(SeekInfo::SeekSegment(seqnum, segment)) ==> r == Ok::<
            Option<Segment>,
            FlowError,
        >(Some(segment)) && final(source).state == (State {
            segment_seqnum: Some(seqnum),
            ..old(source).state
        }),
        info matches Ok(SeekInfo::NoSeek) ==> r == Ok::<Option<Segment>, FlowError>(sample.segment)
            && final(source).state == old(source).state,
        final(source).settings == old(source).settings,
        final(source).n_pipelines == old(source).n_pipelines,
        final(other).name == old(other).name,
{
}

/// Before the sample that was kept is played its own caps are set, or else those that the
/// sink shows; a sample is handed out as its buffer.
pub proof fn law_own_caps_come_first(
    sample: Sample,
    sink_caps: Option<u64>,
    caps: Result<u64, FlowError>,
    buffer: Option<Buffer>,
    r: Result<Created, FlowError>,
    copied: Caps,
    original: Caps,
)
    requires
        call_ensures(UriDecodePoolSrc::eos_sample_caps, (&sample, sink_caps), caps),
        call_ensures(UriDecodePoolSrc::created, (buffer,), r),
        call_ensures(Caps::clone, (&original,), copied),
    ensures
        caps is Ok <==> sample.caps is Some || sink_caps is Some,
        caps is Ok && sample.caps is Some ==> caps->Ok_0 == sample.caps->0,
        caps is Ok && sample.caps is None ==> caps->Ok_0 == sink_caps->0,
        caps is Err ==> caps->Err_0 is NotNegotiated,
        r is Ok <==> buffer is Some,
        r is Ok ==> r->Ok_0 == Created::Buffer(buffer->0.handle),
        r is Err ==> r->Err_0 is Error,
        copied.handle == original.handle && copied.name == original.name,
{
}

/// Pushing a segment is what handing out a sample begins with; without a segment there is
/// nothing to push. Of the seeks, only the stream time is taken note of.
pub proof fn law_handing_out_begins_with_the_segment(
    source: &mut UriDecodePoolSrc,
    other: &mut UriDecodePoolSrc,
    handler: &mut SeekHandler,
    sample: Sample,
    segment: Option<Segment>,
    time: Option<u64>,
    r: (Option<Segment>, Result<Created, FlowError>),
    pushed: Result<Option<Segment>, FlowError>,
)
    requires
        *other == *old(source),
        call_ensures(UriDecodePoolSrc::push_segment, (other, segment), pushed),
        call_ensures(
            UriDecodePoolSrc::create_finish,
            (source, handler, &sample, segment, time),
            r,
        ),
    ensures
        segment is None ==> pushed == Ok::<Option<Segment>, FlowError>(None) && *final(other)
            == *old(other),
        pushed is Ok ==> r.0 == pushed->Ok_0,
        pushed is Err ==> r.0 is None && r.1 == Err::<Created, FlowError>(pushed->Err_0),
        final(source).state == final(other).state,
        final(source).settings == old(source).settings,
        final(source).n_pipelines == old(source).n_pipelines,
        pushed is Ok && sample.buffer is Some && sample.segment is Some ==> final(handler).state
            == (crate::uridecodepool::seek_handler::State {
            stream_time: time,
            ..old(handler).state
        }),
        !(pushed is Ok && sample.buffer is Some && sample.segment is Some) ==> final(handler).state
            == old(handler).state,
        final(handler).name == old(handler).name,
        final(other).settings == old(other).settings,
        final(other).n_pipelines == old(other).n_pipelines,
{
}

} // verus!
