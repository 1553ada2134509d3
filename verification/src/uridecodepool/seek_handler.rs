//! What a decoding pipeline does about seeks: it recognises the seeks that a
//! composition announces before it relinks its stack, keeps the sample that
//! ended the previous seek, and maps sample segments onto seek segments.
use vstd::prelude::*;

use crate::values::{
    Buffer, FlowError, Fraction, Sample, SeekEvent, SeekType, Segment, FORMAT_TIME, SECOND,
    same_time,
};

verus! {

/// The part of its media that a source plays.
#[derive(Clone, Copy, Debug, PartialEq, Eq, Structural)]
pub struct SourceRange {
    pub inpoint: Option<u64>,
    pub duration: Option<u64>,
    pub reverse: bool,
}

/// A sample segment and the segment that was pushed in its place.
#[derive(Clone, Copy, Debug, PartialEq, Eq, Structural)]
pub struct RemappedSegment {
    pub sample_segment: Segment,
    pub remapped_segment: Segment,
}

/// Which seek the samples belong to.
#[derive(Clone, Copy, Debug, PartialEq, Eq, Structural)]
pub enum SeekInfo {
    /// No seek of the composition is being played.
    NoSeek,
    /// Samples belong to the seek with this sequence number and segment.
    SeekSegment(u32, Segment),
    /// The previous seek ended at this sample, with this segment.
    PreviousSeekDone(Sample, Option<Segment>),
}

/// The answer to a seek that a composition announces.
#[derive(Clone, Copy, Debug, PartialEq, Eq, Structural)]
pub enum NleCompositionSeekResult {
    /// The seek is unexpected or invalid: handle it as a regular seek.
    Unexpected,
    /// The seek matches expectations: use it as our seek.
    Expected,
    /// The seek is expected but there was no initialization seek. The
    /// underlying pipeline is taken for a nested timeline, which will be the
    /// one that seeks.
    UseSeqnum(u32),
}

/// Where a sample lies in stream time.
#[derive(Clone, Copy, Debug, PartialEq, Eq, Structural)]
pub enum Placement {
    /// The sample lacks what it takes to be placed.
    Unplaceable,
    /// The sample lies outside of its own segment.
    Outside,
    /// The sample starts and stops at these times.
    Between(u64, u64),
}

#[derive(Clone, Copy, Debug, PartialEq, Eq, Structural)]
pub struct State {
    pub stream_time: Option<u64>,
    pub seek_info: SeekInfo,
    pub last_remapped_segment: Option<RemappedSegment>,
    pub pushed_buffer_in_segment: bool,
    /// Seek event announced by the composition while relinking its stack.
    pub nle_seek: Option<SeekEvent>,
    /// The announced seek event has been handled.
    pub handled_composition_seek: bool,
    pub probe_id: Option<u64>,
}

/// What a frame lasts at a frame rate, in nanoseconds; zero where the rate is
/// unknown or variable.
pub open spec fn frame_duration(framerate: Option<Fraction>) -> int {
    match framerate {
        Some(f) => if f.numer > 0 {
            SECOND * f.denom / f.numer as int
        } else {
            0
        },
        None => 0,
    }
}

/// How long the buffer of a sample lasts.
pub open spec fn buffer_duration(buffer: Buffer, framerate: Option<Fraction>) -> int {
    match buffer.duration {
        Some(d) => d as int,
        None => frame_duration(framerate),
    }
}

/// The sample has what it takes to be placed: a buffer with a timestamp and a
/// segment in time.
pub open spec fn placeable(sample: Sample) -> bool {
    &&& sample.buffer matches Some(buffer)
    &&& buffer.pts is Some
    &&& sample.segment matches Some(segment)
    &&& segment.timed()
}

/// The end of the sample's buffer is a time. Where the buffer has no duration,
/// its frame rate is a proper fraction.
pub open spec fn has_end(sample: Sample) -> bool {
    let buffer = sample.buffer->0;
    &&& buffer.duration is None ==> (sample.framerate matches Some(f) ==> f.denom > 0)
    &&& buffer.pts->0 + buffer_duration(buffer, sample.framerate) < u64::MAX
}

/// The sample, which is between `start` and `stop` in stream time, lies past
/// the end of `segment` in the direction of playback.
pub open spec fn past_end(segment: Segment, start: u64, stop: u64) -> bool {
    if segment.rate.positive() {
        &&& segment.stop matches Some(end)
        &&& start >= end
        &&& !(segment.start matches Some(begin) && (stop < begin || (stop == begin && start
            != stop)))
    } else {
        &&& segment.stop matches Some(end)
        &&& start <= end
        &&& !(start == end && segment.start != segment.stop)
        &&& segment.start matches Some(begin)
        &&& stop <= begin
    }
}

/// Reverse playback needs both ends of the segment: the end always, the
/// beginning where the sample starts before the end.
pub open spec fn bounded(segment: Segment, start: u64) -> bool {
    segment.rate.positive() || (segment.stop matches Some(end) && (segment.start is Some || start
        >= end))
}

/// Where the samples of `sample` start once they are moved from the source's
/// inpoint to the start of the seek; where that would be before zero they
/// stay.
pub open spec fn shifted_start(inpoint: u64, seek: Segment, sample: Segment) -> int {
    let start = sample.start->0 - (inpoint - seek.start->0);
    if start >= 0 {
        start
    } else {
        sample.start->0 as int
    }
}

/// The seek segment moved to where the samples are.
pub open spec fn shifted(inpoint: u64, seek: Segment, sample: Segment) -> Segment {
    let start = shifted_start(inpoint, seek, sample);
    Segment {
        start: Some(start as u64),
        stop: Some((start + (seek.stop->0 - seek.start->0)) as u64),
        ..seek
    }
}

/// The seek segment can be moved to where the samples are.
pub open spec fn shiftable(source: SourceRange, seek: Segment, sample: Segment) -> bool {
    &&& seek.rate.same(sample.rate)
    &&& source.inpoint is Some
    &&& seek.start is Some
    &&& seek.stop is Some
    &&& seek.start->0 <= seek.stop->0
    &&& sample.start is Some
    &&& shifted_start(source.inpoint->0, seek, sample) + (seek.stop->0 - seek.start->0) < u64::MAX
}

/// The announced seek is one that a source could play as its own.
pub open spec fn well_posed(seek: SeekEvent, source: SourceRange) -> bool {
    let s = seek.seek;
    &&& s.start.format == FORMAT_TIME
    &&& s.stop.format == FORMAT_TIME
    &&& s.rate.unit()
    &&& s.start_type == SeekType::Absolute
    &&& s.stop_type == SeekType::Absolute
    &&& if source.reverse {
        !s.rate.positive()
    } else {
        !s.rate.negative()
    }
}

/// The seek starts where a previous segment ended.
pub open spec fn continues(seek: SeekEvent, source: SourceRange, previous: Segment) -> bool {
    if source.reverse {
        seek.seek.stop.value == previous.start
    } else {
        seek.seek.start.value == previous.stop
    }
}

/// The seek starts where the source's range does: at the inpoint, or in reverse
/// at the end of the range, with a start that is not past the inpoint.
pub open spec fn opens_range(seek: SeekEvent, source: SourceRange) -> bool {
    let inpoint = match source.inpoint {
        Some(t) => t as int,
        None => 0,
    };
    if source.reverse {
        &&& seek.seek.stop.value matches Some(stop)
        &&& stop == inpoint + source.duration->0
        &&& !(seek.seek.start.value matches Some(start) && start > inpoint)
    } else {
        seek.seek.start.value matches Some(start) && start == inpoint
    }
}

impl State {
    /// Nothing is known of any seek.
    pub open spec fn initial() -> State {
        State {
            stream_time: None,
            seek_info: SeekInfo::NoSeek,
            last_remapped_segment: None,
            pushed_buffer_in_segment: false,
            nle_seek: None,
            handled_composition_seek: false,
            probe_id: None,
        }
    }

    /// Seek segments are measured in time.
    pub open spec fn wf(self) -> bool {
        self.seek_info matches SeekInfo::SeekSegment(_, segment) ==> segment.timed()
    }

    /// The same state with another seek, nothing of which has been pushed.
    pub open spec fn with_seek_info(self, seek_info: SeekInfo) -> State {
        State {
            seek_info,
            last_remapped_segment: None,
            pushed_buffer_in_segment: false,
            ..self
        }
    }

    /// A seek was announced and has not come yet.
    pub open spec fn waiting(self) -> bool {
        self.nle_seek is Some && !self.handled_composition_seek
    }

    /// The sample that ended the previous seek.
    pub open spec fn eos_sample(self) -> Option<Sample> {
        match self.seek_info {
            SeekInfo::PreviousSeekDone(sample, _) => Some(sample),
            _ => None,
        }
    }

    /// The state in which a sample is looked at: a seek that is done gives way
    /// to the announced one, whose segment is `nle_segment`.
    pub open spec fn settled(self, nle_segment: Option<Segment>) -> State {
        if self.seek_info is PreviousSeekDone {
            self.with_seek_info(
                match self.nle_seek {
                    Some(seek) => SeekInfo::SeekSegment(seek.seqnum, nle_segment->0),
                    None => SeekInfo::NoSeek,
                },
            )
        } else {
            self
        }
    }

    /// A sample at `placement` ends the current seek. Before anything was
    /// pushed it does not, where a clipper in the pipeline will see to it.
    pub open spec fn at_end(self, placement: Placement, has_clipper: bool) -> bool {
        &&& self.seek_info matches SeekInfo::SeekSegment(_, segment)
        &&& placement matches Placement::Between(start, stop)
        &&& past_end(segment, start, stop)
        &&& self.pushed_buffer_in_segment || !has_clipper
    }

    /// The current seek ended at `sample`.
    pub open spec fn ended(self, sample: Sample) -> State {
        let done = self.with_seek_info(
            SeekInfo::PreviousSeekDone(sample, Some(self.seek_info->SeekSegment_1)),
        );
        State { handled_composition_seek: false, nle_seek: None, ..done }
    }

    /// The segment to push for samples of `sample_segment`, and whether it is
    /// a new one to remember.
    pub open spec fn remapped(
        self,
        source: SourceRange,
        segment: Segment,
        sample_segment: Segment,
    ) -> (Segment, bool) {
        if self.remembers(sample_segment) {
            (self.last_remapped_segment->0.remapped_segment, false)
        } else if segment.same(sample_segment) {
            (segment, false)
        } else {
            (shifted(source.inpoint->0, segment, sample_segment), true)
        }
    }

    /// The segment was the last one to be remapped.
    pub open spec fn remembers(self, sample_segment: Segment) -> bool {
        self.last_remapped_segment matches Some(last) && last.sample_segment.same(sample_segment)
    }

    /// Everything that looking at a sample relies on.
    pub open spec fn can_process(
        self,
        source: SourceRange,
        sample: Sample,
        placement: Placement,
        nle_segment: Option<Segment>,
        has_clipper: bool,
    ) -> bool {
        let settled = self.settled(nle_segment);
        self.waiting() || {
            &&& self.seek_info is PreviousSeekDone && self.nle_seek is Some ==> (nle_segment matches
                Some(s) && s.timed())
            &&& settled.seek_info matches SeekInfo::SeekSegment(_, segment) ==> {
                &&& placement matches Placement::Between(start, _) ==> bounded(segment, start)
                &&& !settled.at_end(placement, has_clipper) ==> {
                    sample.segment matches Some(s) ==> s.timed() ==> {
                        ||| settled.remembers(s)
                        ||| segment.same(s)
                        ||| shiftable(source, segment, s)
                    }
                }
            }
        }
    }

    /// The state after a sample was looked at.
    pub open spec fn processed(
        self,
        source: SourceRange,
        sample: Sample,
        placement: Placement,
        nle_segment: Option<Segment>,
        has_clipper: bool,
    ) -> State {
        let settled = self.settled(nle_segment);
        if self.waiting() {
            self.with_seek_info(SeekInfo::PreviousSeekDone(sample, sample.segment))
        } else if settled.at_end(placement, has_clipper) {
            settled.ended(sample)
        } else {
            match settled.seek_info {
                SeekInfo::SeekSegment(_, segment) => match sample.segment {
                    Some(s) => if s.timed() {
                        let (remapped_segment, fresh) = settled.remapped(source, segment, s);
                        State {
                            last_remapped_segment: if fresh {
                                Some(RemappedSegment { sample_segment: s, remapped_segment })
                            } else {
                                settled.last_remapped_segment
                            },
                            pushed_buffer_in_segment: true,
                            ..settled
                        }
                    } else {
                        settled
                    },
                    None => State { pushed_buffer_in_segment: true, ..settled },
                },
                _ => settled,
            }
        }
    }

    /// What looking at a sample answers: the seek it belongs to, with the
    /// segment to push for it, or the end of the stream.
    pub open spec fn process_result(
        self,
        source: SourceRange,
        sample: Sample,
        placement: Placement,
        nle_segment: Option<Segment>,
        has_clipper: bool,
    ) -> Result<SeekInfo, (FlowError, Option<u32>)> {
        let settled = self.settled(nle_segment);
        if self.waiting() {
            Err((FlowError::Eos, None))
        } else if settled.at_end(placement, has_clipper) {
            Err(
                (
                    FlowError::Eos,
                    match self.nle_seek {
                        Some(seek) => Some(seek.seqnum),
                        None => None,
                    },
                ),
            )
        } else {
            match settled.seek_info {
                SeekInfo::SeekSegment(seqnum, segment) => match sample.segment {
                    Some(s) => if s.timed() {
                        Ok(SeekInfo::SeekSegment(seqnum, settled.remapped(source, segment, s).0))
                    } else {
                        Err((FlowError::Error, None))
                    },
                    None => Ok(SeekInfo::SeekSegment(seqnum, segment)),
                },
                _ => Ok(SeekInfo::NoSeek),
            }
        }
    }

    /// Everything that an announced seek relies on: the segment of a seek that
    /// is done is known, and the source's range fits.
    pub open spec fn can_announce(self, source: SourceRange, seek: SeekEvent) -> bool {
        well_posed(seek, source) && source.duration is Some ==> match self.seek_info {
            SeekInfo::PreviousSeekDone(_, segment) => segment matches Some(s) && s.timed(),
            _ => source.duration->0 + (match source.inpoint {
                Some(t) => t as int,
                None => 0,
            }) <= u64::MAX,
        }
    }

    /// What a composition is told about the seek that it announces.
    pub open spec fn announce_result(
        self,
        source: SourceRange,
        seek: SeekEvent,
    ) -> NleCompositionSeekResult {
        if !well_posed(seek, source) {
            NleCompositionSeekResult::Unexpected
        } else if source.duration is None {
            if self.seek_info is NoSeek {
                NleCompositionSeekResult::UseSeqnum(seek.seqnum)
            } else {
                NleCompositionSeekResult::Unexpected
            }
        } else {
            let follows = match self.seek_info {
                SeekInfo::PreviousSeekDone(_, segment) => continues(seek, source, segment->0),
                _ => opens_range(seek, source),
            };
            if follows {
                NleCompositionSeekResult::Expected
            } else {
                NleCompositionSeekResult::Unexpected
            }
        }
    }

    /// The state once a seek was announced: an expected one is waited for; one
    /// that does not continue the seek that is done drops its last sample.
    pub open spec fn announced(self, source: SourceRange, seek: SeekEvent) -> State {
        let forgotten = State { nle_seek: None, ..self };
        if self.announce_result(source, seek) is Expected {
            State { nle_seek: Some(seek), ..self }
        } else if well_posed(seek, source) && source.duration is Some && self.seek_info
            is PreviousSeekDone {
            forgotten.with_seek_info(SeekInfo::NoSeek)
        } else {
            forgotten
        }
    }

    /// The seek is the announced one.
    pub open spec fn expects(self, seqnum: u32) -> bool {
        self.waiting() && self.nle_seek->0.seqnum == seqnum
    }

    /// The announced seek came, with its segment. The sample of a seek that is
    /// done is kept for it.
    pub open spec fn reached(self, seek: SeekEvent, segment: Segment) -> State {
        let handled = State { handled_composition_seek: true, ..self };
        if self.seek_info is PreviousSeekDone {
            handled
        } else {
            handled.with_seek_info(SeekInfo::SeekSegment(seek.seqnum, segment))
        }
    }

    /// The announced seek was given up.
    pub open spec fn dropped(self) -> State {
        let forgotten = State { nle_seek: None, handled_composition_seek: false, ..self };
        forgotten.with_seek_info(SeekInfo::NoSeek)
    }

    /// The state after a seek came.
    pub open spec fn sought(self, seek: SeekEvent, segment: Segment) -> State {
        if self.expects(seek.seqnum) {
            self.reached(seek, segment)
        } else if self.waiting() {
            self.dropped()
        } else {
            self.with_seek_info(SeekInfo::NoSeek)
        }
    }

    fn set_seek_info(&mut self, seek_info: SeekInfo)
        ensures
            *final(self) == old(self).with_seek_info(seek_info),
    {
        self.seek_info = seek_info;
        self.last_remapped_segment = None;
        self.pushed_buffer_in_segment = false;
    }
}

/// The seek state of one decoding pipeline.
#[derive(Debug)]
pub struct SeekHandler {
    pub state: State,
    pub name: String,
}

impl SeekHandler {
    pub fn new(name: &str) -> (r: Self)
        ensures
            r.state == State::initial(),
            r.name@ == name@,
    {
        SeekHandler {
            state: State {
                stream_time: None,
                seek_info: SeekInfo::NoSeek,
                last_remapped_segment: None,
                pushed_buffer_in_segment: false,
                nle_seek: None,
                handled_composition_seek: false,
                probe_id: None,
            },
            name: name.to_owned(),
        }
    }

    /// Forgets every seek. The probe to take off the pad is returned where
    /// there is one and the pad is still there.
    pub fn reset(&mut self, pad_alive: bool) -> (r: Option<u64>)
        ensures
            final(self).state == State::initial(),
            final(self).name == old(self).name,
            r == (if pad_alive {
                old(self).state.probe_id
            } else {
                None
            }),
    {
        self.state.stream_time = None;
        self.state.set_seek_info(SeekInfo::NoSeek);
        self.state.handled_composition_seek = false;
        self.state.nle_seek = None;
        let probe_id = self.state.probe_id.take();
        if pad_alive {
            probe_id
        } else {
            None
        }
    }

    /// Whether a seek was announced and has not come yet.
    pub fn is_waiting(&self) -> (r: bool)
        ensures
            r == self.state.waiting(),
    {
        self.state.nle_seek.is_some() && !self.state.handled_composition_seek
    }

    /// Whether the previous seek ended at a sample that is still to be used.
    pub fn has_eos_sample(&self) -> (r: bool)
        ensures
            r == self.state.eos_sample() is Some,
    {
        matches!(self.state.seek_info, SeekInfo::PreviousSeekDone(_, _))
    }

    /// The timestamp of a sample and where its buffer ends, before clipping
    /// to the sample's segment.
    pub fn sample_bounds(sample: &Sample) -> (r: Result<(u64, u64), FlowError>)
        requires
            placeable(*sample) ==> has_end(*sample),
        ensures
            placeable(*sample) ==> r == Ok::<(u64, u64), FlowError>(
                (
                    sample.buffer->0.pts->0,
                    (sample.buffer->0.pts->0 + buffer_duration(
                        sample.buffer->0,
                        sample.framerate,
                    )) as u64,
                ),
            ),
            !placeable(*sample) ==> r == Err::<(u64, u64), FlowError>(FlowError::Error),
    {
        let (buffer, segment) = match (sample.buffer, sample.segment) {
            (Some(buffer), Some(segment)) => (buffer, segment),
            _ => {
                return Err(FlowError::Error);
            },
        };
        if !segment.is_time() {
            return Err(FlowError::Error);
        }
        let start: u64 = match buffer.pts {
            Some(pts) => pts,
            None => {
                return Err(FlowError::Error);
            },
        };
        let duration: u64 = match buffer.duration {
            Some(duration) => duration,
            None => match sample.framerate {
                Some(framerate) => if framerate.numer > 0 {
                    SECOND * (framerate.denom as u64) / (framerate.numer as u64)
                } else {
                    0
                },
                None => 0,
            },
        };
        Ok((start, start + duration))
    }

    /// Whether `sample_bounds` may be called.
    pub fn can_tell_bounds(sample: &Sample) -> (r: bool)
        ensures
            r == (placeable(*sample) ==> has_end(*sample)),
    {
        let (buffer, segment) = match (sample.buffer, sample.segment) {
            (Some(buffer), Some(segment)) => (buffer, segment),
            _ => {
                return true;
            },
        };
        if !segment.is_time() {
            return true;
        }
        let start: u64 = match buffer.pts {
            Some(pts) => pts,
            None => {
                return true;
            },
        };
        let duration: u64 = match (buffer.duration, sample.framerate) {
            (Some(duration), _) => duration,
            (None, Some(framerate)) => {
                if framerate.denom <= 0 {
                    return false;
                }
                if framerate.numer > 0 {
                    SECOND * (framerate.denom as u64) / (framerate.numer as u64)
                } else {
                    0
                }
            },
            (None, None) => 0,
        };
        duration < u64::MAX - start
    }

    /// Whether `process` will look at where the sample lies.
    pub fn needs_placement(&self) -> (r: bool)
        ensures
            r == (!self.state.waiting() && (self.state.seek_info is SeekSegment || (
            self.state.seek_info is PreviousSeekDone && self.state.nle_seek is Some))),
    {
        if self.is_waiting() {
            return false;
        }
        match self.state.seek_info {
            SeekInfo::SeekSegment(_, _) => true,
            SeekInfo::PreviousSeekDone(_, _) => self.state.nle_seek.is_some(),
            SeekInfo::NoSeek => false,
        }
    }

    /// The announced seek whose segment `process` will need.
    pub fn needs_segment(&self) -> (r: Option<SeekEvent>)
        ensures
            r == (if !self.state.waiting() && self.state.seek_info is PreviousSeekDone {
                self.state.nle_seek
            } else {
                None
            }),
    {
        if self.is_waiting() {
            return None;
        }
        match self.state.seek_info {
            SeekInfo::PreviousSeekDone(_, _) => self.state.nle_seek,
            _ => None,
        }
    }

    /// Whether what is between `start` and `stop` lies past the end of the
    /// segment in the direction of playback.
    fn is_past_end(segment: &Segment, start: u64, stop: u64) -> (r: bool)
        ensures
            r == past_end(*segment, start, stop),
    {
        let buffer_ends_at_start_of_segment = match segment.start {
            Some(begin) => start != stop && stop == begin,
            None => false,
        };
        let buffer_starts_at_end_of_segment = match segment.stop {
            Some(end) => !same_time(segment.start, segment.stop) && start == end,
            None => false,
        };
        if segment.rate.is_positive() {
            let before = match segment.start {
                Some(begin) => stop < begin,
                None => false,
            } || buffer_ends_at_start_of_segment;
            match segment.stop {
                Some(end) => !before && start >= end,
                None => false,
            }
        } else {
            match (segment.start, segment.stop) {
                (Some(begin), Some(end)) => start <= end && !buffer_starts_at_end_of_segment
                    && stop <= begin,
                _ => false,
            }
        }
    }

    /// Ends the current seek where the sample at `placement` lies past its
    /// segment.
    pub fn check_eos(
        &mut self,
        sample: &Sample,
        placement: Placement,
        has_clipper: bool,
    ) -> (r: Result<(), FlowError>)
        requires
            old(self).state.wf(),
            old(self).state.seek_info matches SeekInfo::SeekSegment(_, segment) ==> (placement matches
                Placement::Between(start, _) ==> bounded(segment, start)),
        ensures
            final(self).name == old(self).name,
            final(self).state == (if old(self).state.at_end(placement, has_clipper) {
                old(self).state.ended(*sample)
            } else {
                old(self).state
            }),
            r == (if old(self).state.at_end(placement, has_clipper) {
                Err::<(), FlowError>(FlowError::Eos)
            } else if old(self).state.seek_info is SeekSegment && placement is Unplaceable {
                Err(FlowError::Error)
            } else {
                Ok(())
            }),
    {
        let segment = match self.state.seek_info {
            SeekInfo::SeekSegment(_, segment) => segment,
            _ => {
                return Ok(());
            },
        };
        let (start, stop): (u64, u64) = match placement {
            Placement::Unplaceable => {
                return Err(FlowError::Error);
            },
            Placement::Outside => {
                return Ok(());
            },
            Placement::Between(start, stop) => (start, stop),
        };
        if !Self::is_past_end(&segment, start, stop) {
            return Ok(());
        }
        if !self.state.pushed_buffer_in_segment && has_clipper {
            return Ok(());
        }
        self.state.set_seek_info(SeekInfo::PreviousSeekDone(*sample, Some(segment)));
        self.state.handled_composition_seek = false;
        self.state.nle_seek = None;
        Err(FlowError::Eos)
    }

    /// The sample to play first, if the previous seek left one. While an
    /// announced seek has not come, the stream is at its end.
    pub fn get_eos_sample(&self) -> (r: Result<Option<Sample>, FlowError>)
        ensures
            r == (if self.state.waiting() {
                Err::<Option<Sample>, FlowError>(FlowError::Eos)
            } else {
                Ok(self.state.eos_sample())
            }),
    {
        if self.is_waiting() {
            return Err(FlowError::Eos);
        }
        match self.state.seek_info {
            SeekInfo::PreviousSeekDone(sample, _) => Ok(Some(sample)),
            _ => Ok(None),
        }
    }

    /// The segment to push for samples of `sample_segment`, which belong to
    /// the seek of `seek_segment`.
    pub fn remap_segment(
        &mut self,
        source: &SourceRange,
        seqnum: u32,
        seek_segment: &Segment,
        sample_segment: Option<Segment>,
    ) -> (r: Result<SeekInfo, (FlowError, Option<u32>)>)
        requires
            sample_segment matches Some(s) ==> s.timed() ==> {
                ||| old(self).state.remembers(s)
                ||| seek_segment.same(s)
                ||| shiftable(*source, *seek_segment, s)
            },
        ensures
            final(self).name == old(self).name,
            match sample_segment {
                None => r == Ok::<SeekInfo, (FlowError, Option<u32>)>(
                    SeekInfo::SeekSegment(seqnum, *seek_segment),
                ) && final(self).state == old(self).state,
                Some(s) => if s.timed() {
                    let (segment, fresh) = old(self).state.remapped(*source, *seek_segment, s);
                    &&& r == Ok::<SeekInfo, (FlowError, Option<u32>)>(
                        SeekInfo::SeekSegment(seqnum, segment),
                    )
                    &&& final(self).state == (State {
                        last_remapped_segment: if fresh {
                            Some(
                                RemappedSegment { sample_segment: s, remapped_segment: segment },
                            )
                        } else {
                            old(self).state.last_remapped_segment
                        },
                        ..old(self).state
                    })
                } else {
                    &&& r == Err::<SeekInfo, (FlowError, Option<u32>)>((FlowError::Error, None))
                    &&& final(self).state == old(self).state
                },
            },
    {
        let sample_segment = match sample_segment {
            Some(s) => s,
            None => {
                return Ok(SeekInfo::SeekSegment(seqnum, *seek_segment));
            },
        };
        if !sample_segment.is_time() {
            return Err((FlowError::Error, None));
        }
        if let Some(last) = self.state.last_remapped_segment {
            if last.sample_segment.equals(&sample_segment) {
                return Ok(SeekInfo::SeekSegment(seqnum, last.remapped_segment));
            }
        }
        if seek_segment.equals(&sample_segment) {
            return Ok(SeekInfo::SeekSegment(seqnum, *seek_segment));
        }
        let inpoint: u64 = source.inpoint.unwrap();
        let seek_start: u64 = seek_segment.start.unwrap();
        let seek_duration: u64 = seek_segment.stop.unwrap() - seek_start;
        let sample_start: u64 = sample_segment.start.unwrap();
        let new_start: u64 = if inpoint >= seek_start {
            let start_diff: u64 = inpoint - seek_start;
            if sample_start >= start_diff {
                sample_start - start_diff
            } else {
                sample_start
            }
        } else {
            sample_start + (seek_start - inpoint)
        };
        let mut segment = *seek_segment;
        segment.start = Some(new_start);
        segment.stop = Some(new_start + seek_duration);
        self.state.last_remapped_segment = Some(
            RemappedSegment { sample_segment, remapped_segment: segment },
        );
        Ok(SeekInfo::SeekSegment(seqnum, segment))
    }

    /// Tells which seek a sample belongs to and which segment is to be pushed
    /// for it, or that it ends the stream. `placement` says where the sample
    /// lies, `nle_segment` is the segment of the announced seek, and
    /// `has_clipper` tells whether the pipeline holds a segment clipper.
    pub fn process(
        &mut self,
        source: &SourceRange,
        sample: &Sample,
        placement: Placement,
        nle_segment: Option<Segment>,
        has_clipper: bool,
    ) -> (r: Result<SeekInfo, (FlowError, Option<u32>)>)
        requires
            old(self).state.wf(),
            old(self).state.can_process(*source, *sample, placement, nle_segment, has_clipper),
        ensures
            final(self).name == old(self).name,
            final(self).state.wf(),
            final(self).state == old(self).state.processed(
                *source,
                *sample,
                placement,
                nle_segment,
                has_clipper,
            ),
            r == old(self).state.process_result(
                *source,
                *sample,
                placement,
                nle_segment,
                has_clipper,
            ),
    {
        if self.is_waiting() {
            self.state.set_seek_info(SeekInfo::PreviousSeekDone(*sample, sample.segment));
            return Err((FlowError::Eos, None));
        }
        if let SeekInfo::PreviousSeekDone(_, _) = self.state.seek_info {
            let seek_info = match self.state.nle_seek {
                Some(nle_seek) => SeekInfo::SeekSegment(nle_seek.seqnum, nle_segment.unwrap()),
                None => SeekInfo::NoSeek,
            };
            self.state.set_seek_info(seek_info);
        }
        let res = self.state.seek_info;
        let seqnum: Option<u32> = match self.state.nle_seek {
            Some(nle_seek) => Some(nle_seek.seqnum),
            None => None,
        };
        if let Err(FlowError::Eos) = self.check_eos(sample, placement, has_clipper) {
            return Err((FlowError::Eos, seqnum));
        }
        match res {
            SeekInfo::SeekSegment(seqnum, segment) => {
                let res = self.remap_segment(source, seqnum, &segment, sample.segment);
                if res.is_ok() {
                    self.state.pushed_buffer_in_segment = true;
                }
                res
            },
            _ => Ok(res),
        }
    }

    /// Whether `process` may be called with these arguments.
    pub fn can_process(
        &self,
        source: &SourceRange,
        sample: &Sample,
        placement: Placement,
        nle_segment: Option<Segment>,
        has_clipper: bool,
    ) -> (r: bool)
        ensures
            r == self.state.can_process(*source, *sample, placement, nle_segment, has_clipper),
    {
        if self.is_waiting() {
            return true;
        }
        let mut settled = self.state;
        if let SeekInfo::PreviousSeekDone(_, _) = self.state.seek_info {
            match self.state.nle_seek {
                Some(nle_seek) => match nle_segment {
                    Some(segment) => {
                        if !segment.is_time() {
                            return false;
                        }
                        settled.set_seek_info(SeekInfo::SeekSegment(nle_seek.seqnum, segment));
                    },
                    None => {
                        return false;
                    },
                },
                None => {
                    settled.set_seek_info(SeekInfo::NoSeek);
                },
            }
        }
        let segment = match settled.seek_info {
            SeekInfo::SeekSegment(_, segment) => segment,
            _ => {
                return true;
            },
        };
        if let Placement::Between(start, stop) = placement {
            if !segment.rate.is_positive() {
                match segment.stop {
                    Some(end) => {
                        if segment.start.is_none() && start < end {
                            return false;
                        }
                    },
                    None => {
                        return false;
                    },
                }
            }
            if Self::is_past_end(&segment, start, stop) && (settled.pushed_buffer_in_segment
                || !has_clipper) {
                return true;
            }
        }
        let sample_segment = match sample.segment {
            Some(s) => s,
            None => {
                return true;
            },
        };
        if !sample_segment.is_time() {
            return true;
        }
        if let Some(last) = settled.last_remapped_segment {
            if last.sample_segment.equals(&sample_segment) {
                return true;
            }
        }
        if segment.equals(&sample_segment) {
            return true;
        }
        if !segment.rate.equals(&sample_segment.rate) {
            return false;
        }
        match (source.inpoint, segment.start, segment.stop, sample_segment.start) {
            (Some(inpoint), Some(begin), Some(end), Some(sample_start)) => {
                if begin > end {
                    return false;
                }
                let moved: i128 = sample_start as i128 - (inpoint as i128 - begin as i128);
                let start: i128 = if moved >= 0 {
                    moved
                } else {
                    sample_start as i128
                };
                start + (end as i128 - begin as i128) < u64::MAX as i128
            },
            _ => false,
        }
    }

    /// Whether `handle_nlecomposition_seek` may be called with these
    /// arguments.
    pub fn can_announce(&self, source: &SourceRange, seek: &SeekEvent) -> (r: bool)
        ensures
            r == self.state.can_announce(*source, *seek),
    {
        if !Self::is_well_posed(source, seek) {
            return true;
        }
        match source.duration {
            Some(duration) => match self.state.seek_info {
                SeekInfo::PreviousSeekDone(_, Some(segment)) => segment.is_time(),
                SeekInfo::PreviousSeekDone(_, None) => false,
                _ => match source.inpoint {
                    Some(inpoint) => duration <= u64::MAX - inpoint,
                    None => true,
                },
            },
            None => true,
        }
    }

    fn is_well_posed(source: &SourceRange, seek: &SeekEvent) -> (r: bool)
        ensures
            r == well_posed(*seek, *source),
    {
        if seek.seek.start.format != FORMAT_TIME || seek.seek.stop.format != FORMAT_TIME {
            return false;
        }
        if !seek.seek.rate.is_unit() {
            return false;
        }
        if seek.seek.start_type != SeekType::Absolute || seek.seek.stop_type
            != SeekType::Absolute {
            return false;
        }
        if source.reverse {
            !seek.seek.rate.is_positive()
        } else {
            !seek.seek.rate.is_negative()
        }
    }

    /// Takes note of a seek that the composition announces while it relinks
    /// its stack.
    pub fn handle_nlecomposition_seek(
        &mut self,
        source: &SourceRange,
        seek: &SeekEvent,
    ) -> (r: NleCompositionSeekResult)
        requires
            old(self).state.wf(),
            old(self).state.can_announce(*source, *seek),
        ensures
            final(self).name == old(self).name,
            final(self).state.wf(),
            final(self).state == old(self).state.announced(*source, *seek),
            r == old(self).state.announce_result(*source, *seek),
    {
        self.state.nle_seek = None;
        if !Self::is_well_posed(source, seek) {
            return NleCompositionSeekResult::Unexpected;
        }
        let seek_start = seek.seek.start.value;
        let seek_stop = seek.seek.stop.value;
        let duration: u64 = match source.duration {
            Some(duration) => duration,
            None => {
                return match self.state.seek_info {
                    SeekInfo::NoSeek => NleCompositionSeekResult::UseSeqnum(seek.seqnum),
                    _ => NleCompositionSeekResult::Unexpected,
                };
            },
        };
        match self.state.seek_info {
            SeekInfo::PreviousSeekDone(_, segment) => {
                let segment = segment.unwrap();
                let follows = if source.reverse {
                    same_time(seek_stop, segment.start)
                } else {
                    same_time(seek_start, segment.stop)
                };
                if !follows {
                    self.state.set_seek_info(SeekInfo::NoSeek);
                    return NleCompositionSeekResult::Unexpected;
                }
            },
            _ => {
                let inpoint: u64 = match source.inpoint {
                    Some(inpoint) => inpoint,
                    None => 0,
                };
                let outpoint: u64 = inpoint + duration;
                let opens = if source.reverse {
                    let ends_range = match seek_stop {
                        Some(stop) => stop == outpoint,
                        None => false,
                    };
                    let past_inpoint = match seek_start {
                        Some(start) => start > inpoint,
                        None => false,
                    };
                    ends_range && !past_inpoint
                } else {
                    match seek_start {
                        Some(start) => start == inpoint,
                        None => false,
                    }
                };
                if !opens {
                    return NleCompositionSeekResult::Unexpected;
                }
            },
        }
        self.state.nle_seek = Some(*seek);
        NleCompositionSeekResult::Expected
    }

    /// Takes note of a seek, whose segment is `segment`. Tells whether it is
    /// the announced one, so that nobody else has to handle it.
    pub fn handle_seek(&mut self, seek: &SeekEvent, segment: Segment) -> (r: bool)
        requires
            old(self).state.wf(),
            old(self).state.expects(seek.seqnum) ==> segment.timed(),
        ensures
            final(self).name == old(self).name,
            final(self).state.wf(),
            final(self).state == old(self).state.sought(*seek, segment),
            r == old(self).state.expects(seek.seqnum),
    {
        let expected: u32 = match self.state.nle_seek {
            Some(nle_seek) => if self.state.handled_composition_seek {
                self.state.set_seek_info(SeekInfo::NoSeek);
                return false;
            } else {
                nle_seek.seqnum
            },
            None => {
                self.state.set_seek_info(SeekInfo::NoSeek);
                return false;
            },
        };
        if seek.seqnum != expected {
            self.state.nle_seek = None;
            self.state.set_seek_info(SeekInfo::NoSeek);
            self.state.handled_composition_seek = false;
            return false;
        }
        self.state.handled_composition_seek = true;
        if !self.has_eos_sample() {
            self.state.set_seek_info(SeekInfo::SeekSegment(seek.seqnum, segment));
        }
        true
    }

    /// Takes note of a flush that ended. The one of `seek`, whose segment is
    /// `segment`, means that the seek was handled; any other one that it was
    /// given up.
    pub fn handle_flush_event_probe(
        &mut self,
        flush_seqnum: u32,
        seek: &SeekEvent,
        segment: Segment,
    )
        requires
            old(self).state.wf(),
            flush_seqnum == seek.seqnum ==> segment.timed(),
        ensures
            final(self).name == old(self).name,
            final(self).state.wf(),
            final(self).state == (if flush_seqnum == seek.seqnum {
                old(self).state.reached(*seek, segment)
            } else {
                old(self).state.dropped()
            }),
    {
        if flush_seqnum == seek.seqnum {
            self.state.handled_composition_seek = true;
            if !self.has_eos_sample() {
                self.state.set_seek_info(SeekInfo::SeekSegment(seek.seqnum, segment));
            }
        } else {
            self.state.handled_composition_seek = false;
            self.state.nle_seek = None;
            self.state.set_seek_info(SeekInfo::NoSeek);
        }
    }

    /// The buffer of a sample, whose stream time is taken note of where the
    /// sample has a segment.
    pub fn handle_sample(&mut self, sample: &Sample, stream_time: Option<u64>) -> (r: Option<
        Buffer,
    >)
        requires
            sample.buffer is Some ==> (sample.segment matches Some(segment) ==> segment.timed()),
        ensures
            final(self).name == old(self).name,
            final(self).state == (if sample.buffer is Some && sample.segment is Some {
                State { stream_time, ..old(self).state }
            } else {
                old(self).state
            }),
            r == sample.buffer,
    {
        match sample.buffer {
            Some(buffer) => {
                if sample.segment.is_some() {
                    self.state.stream_time = stream_time;
                }
                Some(buffer)
            },
            None => None,
        }
    }

    /// Whether an event is to be sent to the pipeline: everything but the
    /// initialization seek of a composition, which nested timelines do not
    /// get. `composition` is what the event's structure says of being such a
    /// seek, if it has one; `timeline_tags` is what each tag event on the
    /// pipeline says of the stream being a timeline.
    pub fn should_send_seek(
        &self,
        composition: Option<bool>,
        timeline_tags: &Vec<Option<bool>>,
    ) -> (r: bool)
        ensures
            r == (composition != Some(true) || !timeline_tags@.contains(Some(true))),
    {
        match composition {
            Some(true) => {},
            _ => {
                return true;
            },
        }
        let mut i: usize = 0;
        while i < timeline_tags.len()
            invariant
                composition == Some(true),
                i <= timeline_tags.len(),
                forall|j: int| 0 <= j < i ==> timeline_tags@[j] != Some(true),
            decreases timeline_tags.len() - i,
        {
            if let Some(true) = timeline_tags[i] {
                assert(timeline_tags@[i as int] == Some(true));
                return false;
            }
            i += 1;
        }
        true
    }
}

/// The sample that ends a seek is kept: it is the first one that is played
/// next, unless a seek is announced in between.
pub proof fn law_end_keeps_sample(
    state: State,
    source: SourceRange,
    sample: Sample,
    placement: Placement,
    nle_segment: Option<Segment>,
    has_clipper: bool,
)
    requires
        !state.waiting(),
        state.settled(nle_segment).at_end(placement, has_clipper),
    ensures
        ({
            let after = state.processed(source, sample, placement, nle_segment, has_clipper);
            &&& state.process_result(source, sample, placement, nle_segment, has_clipper)
                matches Err((FlowError::Eos, _))
            &&& !after.waiting()
            &&& after.eos_sample() == Some(sample)
        }),
{
}

/// While an announced seek has not come, every sample ends the stream, the
/// last one is kept, and the seek is still waited for.
pub proof fn law_waiting_is_end_of_stream(
    state: State,
    source: SourceRange,
    sample: Sample,
    placement: Placement,
    nle_segment: Option<Segment>,
    has_clipper: bool,
)
    requires
        state.waiting(),
    ensures
        ({
            let after = state.processed(source, sample, placement, nle_segment, has_clipper);
            &&& state.process_result(source, sample, placement, nle_segment, has_clipper) == Err::<
                SeekInfo,
                (FlowError, Option<u32>),
            >((FlowError::Eos, None))
            &&& after.waiting()
            &&& after.nle_seek == state.nle_seek
            &&& after.eos_sample() == Some(sample)
        }),
{
}

/// A sample that was looked at belongs to a seek or to none; it never belongs
/// to one that is done.
pub proof fn law_answer_is_current(
    state: State,
    source: SourceRange,
    sample: Sample,
    placement: Placement,
    nle_segment: Option<Segment>,
    has_clipper: bool,
)
    ensures
        state.process_result(source, sample, placement, nle_segment, has_clipper) matches Ok(
            info,
        ) ==> info is NoSeek || info is SeekSegment,
{
}

/// A sample ends the stream exactly when it is kept, and then it is the one that
/// is kept.
pub proof fn law_end_of_stream_keeps_the_sample(
    state: State,
    source: SourceRange,
    sample: Sample,
    placement: Placement,
    nle_segment: Option<Segment>,
    has_clipper: bool,
)
    ensures
        ({
            let after = state.processed(source, sample, placement, nle_segment, has_clipper);
            let result = state.process_result(source, sample, placement, nle_segment, has_clipper);
            &&& (result matches Err((FlowError::Eos, _))) <==> after.eos_sample() is Some
            &&& after.eos_sample() is Some ==> after.eos_sample() == Some(sample)
        }),
{
}

/// A composition that announces a seek which continues the one that is done,
/// and then sends it, plays on: the kept sample comes first, and it belongs to
/// the new seek.
pub proof fn law_stack_change_plays_on(
    state: State,
    source: SourceRange,
    seek: SeekEvent,
    segment: Segment,
)
    requires
        state.seek_info is PreviousSeekDone,
        !state.handled_composition_seek,
        state.announce_result(source, seek) is Expected,
    ensures
        ({
            let announced = state.announced(source, seek);
            let sought = announced.sought(seek, segment);
            &&& announced.waiting()
            &&& announced.expects(seek.seqnum)
            &&& !sought.waiting()
            &&& sought.eos_sample() == state.eos_sample()
            &&& sought.settled(Some(segment)).seek_info == SeekInfo::SeekSegment(
                seek.seqnum,
                segment,
            )
        }),
{
}

/// A seek that is not the announced one takes its place: nothing is left of
/// the announced seek, nor of the sample that was kept for it.
pub proof fn law_other_seek_drops_announced(state: State, seek: SeekEvent, segment: Segment)
    requires
        state.waiting(),
        !state.expects(seek.seqnum),
    ensures
        ({
            let after = state.sought(seek, segment);
            &&& after.nle_seek is None
            &&& !after.waiting()
            &&& after.seek_info is NoSeek
            &&& after.eos_sample() is None
        }),
{
}

/// A moved segment lasts as long as the seek does.
pub proof fn law_shift_keeps_duration(source: SourceRange, seek: Segment, sample: Segment)
    requires
        shiftable(source, seek, sample),
    ensures
        ({
            let moved = shifted(source.inpoint->0, seek, sample);
            &&& moved.start is Some && moved.stop is Some
            &&& moved.stop->0 - moved.start->0 == seek.stop->0 - seek.start->0
        }),
{
}

/// Samples that share a segment are pushed in one segment: the second one of a
/// seek gets the segment that the first one got.
pub proof fn law_remap_is_stable(
    state: State,
    source: SourceRange,
    first: Sample,
    first_placement: Placement,
    second: Sample,
    second_placement: Placement,
    nle_segment: Option<Segment>,
    has_clipper: bool,
)
    requires
        !state.waiting(),
        first.segment matches Some(s) && s.timed(),
        second.segment == first.segment,
        !state.settled(nle_segment).at_end(first_placement, has_clipper),
        !state.processed(source, first, first_placement, nle_segment, has_clipper).at_end(
            second_placement,
            has_clipper,
        ),
    ensures
        state.processed(
            source,
            first,
            first_placement,
            nle_segment,
            has_clipper,
        ).process_result(source, second, second_placement, nle_segment, has_clipper)
            == state.process_result(source, first, first_placement, nle_segment, has_clipper),
{
}

/// A moved segment lies to the seek as the segment of the samples lies to the
/// source's inpoint, unless it would start before zero: then it starts where the
/// samples do. It lasts as long as the seek, and is the seek's segment otherwise.
pub proof fn law_moved_segment_keeps_its_place(
    handler: &mut SeekHandler,
    source: SourceRange,
    seqnum: u32,
    seek: Segment,
    sample: Segment,
    r: Result<SeekInfo, (FlowError, Option<u32>)>,
)
    requires
        old(handler).state.last_remapped_segment is None,
        sample.format == FORMAT_TIME,
        !seek.same(sample),
        seek.rate.same(sample.rate),
        source.inpoint is Some && seek.start is Some && seek.stop is Some && sample.start is Some,
        seek.start->0 <= seek.stop->0,
        sample.start->0 + seek.stop->0 < u64::MAX,
        call_ensures(
            SeekHandler::remap_segment,
            (handler, &source, seqnum, &seek, Some(sample)),
            r,
        ),
    ensures
        r matches Ok(SeekInfo::SeekSegment(number, moved)) && {
            &&& number == seqnum
            &&& moved.start is Some && moved.stop is Some
            &&& seek.start->0 + sample.start->0 >= source.inpoint->0 ==> moved.start->0
                - seek.start->0 == sample.start->0 - source.inpoint->0
            &&& seek.start->0 + sample.start->0 < source.inpoint->0 ==> moved.start == sample.start
            &&& sample.start == source.inpoint ==> moved.start == seek.start
            &&& moved.stop->0 - moved.start->0 == seek.stop->0 - seek.start->0
            &&& moved == (Segment { start: moved.start, stop: moved.stop, ..seek })
            &&& final(handler).state == (State {
                last_remapped_segment: Some(
                    RemappedSegment { sample_segment: sample, remapped_segment: moved },
                ),
                ..old(handler).state
            })
        },
        final(handler).name == old(handler).name,
{
}

/// A segment that was moved is moved alike from then on, wherever the source
/// starts by then and whatever the seek is.
pub proof fn law_moved_segment_is_remembered(
    first: &mut SeekHandler,
    second: &mut SeekHandler,
    source: SourceRange,
    other: SourceRange,
    seqnum: u32,
    next: u32,
    seek: Segment,
    later: Segment,
    sample: Segment,
    moved: Segment,
    r: Result<SeekInfo, (FlowError, Option<u32>)>,
)
    requires
        sample.format == FORMAT_TIME,
        sample.same(sample),
        !seek.same(sample),
        call_ensures(
            SeekHandler::remap_segment,
            (first, &source, seqnum, &seek, Some(sample)),
            Ok::<SeekInfo, (FlowError, Option<u32>)>(SeekInfo::SeekSegment(seqnum, moved)),
        ),
        *second == *final(first),
        call_ensures(
            SeekHandler::remap_segment,
            (second, &other, next, &later, Some(sample)),
            r,
        ),
    ensures
        r == Ok::<SeekInfo, (FlowError, Option<u32>)>(SeekInfo::SeekSegment(next, moved)),
        *final(second) == *final(first),
        final(first).name == old(first).name,
        final(second).name == old(second).name,
{
}

/// Samples that are in the segment of the seek, or in none, stay in that of the
/// seek; those in another format are an error. Nothing is remembered of them.
pub proof fn law_segments_of_the_seek_stay(
    handler: &mut SeekHandler,
    source: SourceRange,
    seqnum: u32,
    seek: Segment,
    sample: Option<Segment>,
    r: Result<SeekInfo, (FlowError, Option<u32>)>,
)
    requires
        old(handler).state.last_remapped_segment is None,
        sample is None || sample->0.format != FORMAT_TIME || seek.same(sample->0),
        call_ensures(SeekHandler::remap_segment, (handler, &source, seqnum, &seek, sample), r),
    ensures
        sample is Some && sample->0.format != FORMAT_TIME ==> r == Err::<
            SeekInfo,
            (FlowError, Option<u32>),
        >((FlowError::Error, None)),
        sample is None || sample->0.format == FORMAT_TIME ==> r == Ok::<
            SeekInfo,
            (FlowError, Option<u32>),
        >(SeekInfo::SeekSegment(seqnum, seek)),
        final(handler).state == old(handler).state,
        final(handler).name == old(handler).name,
{
}

/// Playback ends at the first sample that starts where the seek stops, or in
/// reverse at the first one that stops where the seek starts; before anything was
/// played a clipper sees to that. The sample is kept, and the seek is over.
pub proof fn law_seek_ends_with_its_segment(
    handler: &mut SeekHandler,
    seqnum: u32,
    segment: Segment,
    sample: Sample,
    start: u64,
    stop: u64,
    has_clipper: bool,
    r: Result<(), FlowError>,
)
    requires
        old(handler).state.seek_info == SeekInfo::SeekSegment(seqnum, segment),
        segment.start is Some && segment.stop is Some,
        segment.start->0 <= segment.stop->0,
        start <= stop,
        call_ensures(
            SeekHandler::check_eos,
            (handler, &sample, Placement::Between(start, stop), has_clipper),
            r,
        ),
    ensures
        ({
            let over = if segment.rate.positive() {
                start >= segment.stop->0
            } else {
                stop <= segment.start->0
            };
            let held = has_clipper && !old(handler).state.pushed_buffer_in_segment;
            &&& over && !held <==> r == Err::<(), FlowError>(FlowError::Eos)
            &&& !over || held <==> r is Ok
            &&& r is Ok ==> final(handler).state == old(handler).state
            &&& r is Err ==> final(handler).state == (State {
                seek_info: SeekInfo::PreviousSeekDone(sample, Some(segment)),
                last_remapped_segment: None,
                pushed_buffer_in_segment: false,
                nle_seek: None,
                handled_composition_seek: false,
                stream_time: old(handler).state.stream_time,
                probe_id: old(handler).state.probe_id,
            })
        }),
        final(handler).name == old(handler).name,
{
}

/// Where no seek of the composition is played nothing ends, nor at a sample
/// outside of its segment; a sample that has no place is an error.
pub proof fn law_nothing_else_ends_a_seek(
    handler: &mut SeekHandler,
    sample: Sample,
    placement: Placement,
    has_clipper: bool,
    r: Result<(), FlowError>,
)
    requires
        !(old(handler).state.seek_info is SeekSegment) || !(placement is Between),
        call_ensures(SeekHandler::check_eos, (handler, &sample, placement, has_clipper), r),
    ensures
        final(handler).state == old(handler).state,
        r is Err <==> old(handler).state.seek_info is SeekSegment && placement is Unplaceable,
        r is Err ==> r->Err_0 is Error,
        final(handler).name == old(handler).name,
{
}

/// While an announced seek has not come, a sample is kept and ends the stream,
/// whatever it is.
pub proof fn law_stream_ends_before_an_announced_seek(
    handler: &mut SeekHandler,
    source: SourceRange,
    sample: Sample,
    placement: Placement,
    nle_segment: Option<Segment>,
    has_clipper: bool,
    r: Result<SeekInfo, (FlowError, Option<u32>)>,
    can: bool,
)
    requires
        call_ensures(SeekHandler::can_process, (&*old(handler), &source, &sample, placement,
            nle_segment, has_clipper), can),
        old(handler).state.nle_seek is Some,
        !old(handler).state.handled_composition_seek,
        call_ensures(
            SeekHandler::process,
            (handler, &source, &sample, placement, nle_segment, has_clipper),
            r,
        ),
    ensures
        can,
        r == Err::<SeekInfo, (FlowError, Option<u32>)>((FlowError::Eos, None)),
        final(handler).state == (State {
            seek_info: SeekInfo::PreviousSeekDone(sample, sample.segment),
            last_remapped_segment: None,
            pushed_buffer_in_segment: false,
            ..old(handler).state
        }),
        final(handler).name == old(handler).name,
{
}

/// Outside of a composition samples pass, in their own segment, and what was kept
/// is kept no more.
pub proof fn law_samples_pass_without_a_seek(
    handler: &mut SeekHandler,
    source: SourceRange,
    sample: Sample,
    placement: Placement,
    nle_segment: Option<Segment>,
    has_clipper: bool,
    r: Result<SeekInfo, (FlowError, Option<u32>)>,
    can: bool,
)
    requires
        call_ensures(SeekHandler::can_process, (&*old(handler), &source, &sample, placement,
            nle_segment, has_clipper), can),
        old(handler).state.nle_seek is None,
        !(old(handler).state.seek_info is SeekSegment),
        call_ensures(
            SeekHandler::process,
            (handler, &source, &sample, placement, nle_segment, has_clipper),
            r,
        ),
    ensures
        can,
        r == Ok::<SeekInfo, (FlowError, Option<u32>)>(SeekInfo::NoSeek),
        final(handler).state.seek_info is NoSeek,
        old(handler).state.seek_info is NoSeek ==> final(handler).state == old(handler).state,
        final(handler).name == old(handler).name,
{
}

/// A sample that is played belongs to the current seek, which is the announced
/// one where the previous one is done. In a segment of its own it is moved to
/// where the seek is; what is played is taken note of.
pub proof fn law_played_sample_belongs_to_the_seek(
    handler: &mut SeekHandler,
    source: SourceRange,
    sample: Sample,
    start: u64,
    stop: u64,
    nle_segment: Option<Segment>,
    has_clipper: bool,
    seqnum: u32,
    segment: Segment,
    r: Result<SeekInfo, (FlowError, Option<u32>)>,
    can: bool,
)
    requires
        call_ensures(SeekHandler::can_process, (&*old(handler), &source, &sample,
            Placement::Between(start, stop), nle_segment, has_clipper), can),
        old(handler).state.nle_seek is None || old(handler).state.handled_composition_seek,
        old(handler).state.seek_info == SeekInfo::SeekSegment(seqnum, segment)
            || (old(handler).state.seek_info is PreviousSeekDone
            && old(handler).state.nle_seek is Some
            && old(handler).state.nle_seek->0.seqnum == seqnum && nle_segment == Some(segment)),
        segment.rate.positive(),
        segment.start is Some && segment.stop is Some,
        segment.start->0 <= segment.stop->0,
        start < segment.stop->0,
        segment.format == FORMAT_TIME,
        old(handler).state.last_remapped_segment is None,
        source.inpoint is Some,
        sample.segment is Some,
        sample.segment->0.format == FORMAT_TIME,
        segment.rate.same(sample.segment->0.rate),
        sample.segment->0.start is Some,
        sample.segment->0.start->0 + segment.stop->0 < u64::MAX,
        call_ensures(
            SeekHandler::process,
            (handler, &source, &sample, Placement::Between(start, stop), nle_segment, has_clipper),
            r,
        ),
    ensures
        can,
        r matches Ok(SeekInfo::SeekSegment(number, moved)) && {
            &&& number == seqnum
            &&& segment.same(sample.segment->0) ==> moved == segment
            &&& !segment.same(sample.segment->0) && segment.start->0 + sample.segment->0.start->0
                >= source.inpoint->0 ==> moved.start->0 - segment.start->0
                == sample.segment->0.start->0 - source.inpoint->0
            &&& moved.stop->0 - moved.start->0 == segment.stop->0 - segment.start->0
            &&& moved == (Segment { start: moved.start, stop: moved.stop, ..segment })
        },
        final(handler).state.seek_info == SeekInfo::SeekSegment(seqnum, segment),
        final(handler).state.pushed_buffer_in_segment,
        final(handler).state.nle_seek == old(handler).state.nle_seek,
        final(handler).state.handled_composition_seek
            == old(handler).state.handled_composition_seek,
        final(handler).state.stream_time == old(handler).state.stream_time,
        final(handler).name == old(handler).name,
{
}

/// Forward playback of a seek ends at a sample that starts where it stops: the
/// number of the announced seek is told, and the sample is kept with the segment.
pub proof fn law_played_seek_ends(
    handler: &mut SeekHandler,
    source: SourceRange,
    sample: Sample,
    start: u64,
    stop: u64,
    seqnum: u32,
    segment: Segment,
    r: Result<SeekInfo, (FlowError, Option<u32>)>,
    can: bool,
)
    requires
        call_ensures(SeekHandler::can_process, (&*old(handler), &source, &sample,
            Placement::Between(start, stop), None, false), can),
        old(handler).state.nle_seek is None || old(handler).state.handled_composition_seek,
        old(handler).state.seek_info == SeekInfo::SeekSegment(seqnum, segment),
        segment.rate.positive(),
        segment.start is Some && segment.stop is Some,
        segment.start->0 <= segment.stop->0,
        segment.stop->0 <= start <= stop,
        call_ensures(
            SeekHandler::process,
            (handler, &source, &sample, Placement::Between(start, stop), None, false),
            r,
        ),
    ensures
        can,
        r matches Err((FlowError::Eos, number)) && {
            &&& number is Some <==> old(handler).state.nle_seek is Some
            &&& number is Some ==> number->0 == old(handler).state.nle_seek->0.seqnum
        },
        final(handler).state.seek_info == SeekInfo::PreviousSeekDone(sample, Some(segment)),
        final(handler).state.nle_seek is None,
        !final(handler).state.handled_composition_seek,
        final(handler).name == old(handler).name,
{
}

/// An announced seek is looked at only if it is in time, absolute, and at the
/// speed and in the direction of the source. Any other one is unexpected, and
/// leaves nothing announced.
pub proof fn law_odd_seek_is_unexpected(
    handler: &mut SeekHandler,
    source: SourceRange,
    event: SeekEvent,
    r: NleCompositionSeekResult,
)
    requires
        call_ensures(
            SeekHandler::handle_nlecomposition_seek,
            (handler, &source, &event),
            r,
        ),
    ensures
        ({
            let seek = event.seek;
            let odd = !(seek.start.format == FORMAT_TIME && seek.stop.format == FORMAT_TIME
                && seek.start_type is Absolute && seek.stop_type is Absolute && seek.rate.bits == (
            if source.reverse {
                crate::values::RATE_MINUS_ONE
            } else {
                crate::values::RATE_ONE
            }));
            odd ==> r is Unexpected && final(handler).state == (State {
                nle_seek: None,
                ..old(handler).state
            })
        }),
        r is Expected <==> final(handler).state.nle_seek is Some,
        r is Expected ==> final(handler).state == (State {
            nle_seek: Some(event),
            ..old(handler).state
        }),
        final(handler).name == old(handler).name,
{
}

/// A source without a duration holds a nested timeline: its first seek is that
/// timeline's own, and the next ones are unexpected.
pub proof fn law_nested_timeline_seeks_itself(
    handler: &mut SeekHandler,
    source: SourceRange,
    event: SeekEvent,
    r: NleCompositionSeekResult,
)
    requires
        source.duration is None,
        event.seek.start.format == FORMAT_TIME && event.seek.stop.format == FORMAT_TIME,
        event.seek.start_type is Absolute && event.seek.stop_type is Absolute,
        event.seek.rate.bits == (if source.reverse {
            crate::values::RATE_MINUS_ONE
        } else {
            crate::values::RATE_ONE
        }),
        call_ensures(
            SeekHandler::handle_nlecomposition_seek,
            (handler, &source, &event),
            r,
        ),
    ensures
        old(handler).state.seek_info is NoSeek <==> r == NleCompositionSeekResult::UseSeqnum(
            event.seqnum,
        ),
        !(old(handler).state.seek_info is NoSeek) <==> r is Unexpected,
        final(handler).state == (State { nle_seek: None, ..old(handler).state }),
        final(handler).name == old(handler).name,
{
}

/// With nothing to continue, the seek that is expected begins where the source's
/// range does: forward at the inpoint, and in reverse at the end of the range,
/// without starting past the inpoint.
pub proof fn law_first_seek_begins_with_the_range(
    handler: &mut SeekHandler,
    source: SourceRange,
    event: SeekEvent,
    r: NleCompositionSeekResult,
)
    requires
        source.duration is Some,
        event.seek.start.format == FORMAT_TIME && event.seek.stop.format == FORMAT_TIME,
        event.seek.start_type is Absolute && event.seek.stop_type is Absolute,
        event.seek.rate.bits == (if source.reverse {
            crate::values::RATE_MINUS_ONE
        } else {
            crate::values::RATE_ONE
        }),
        !(old(handler).state.seek_info is PreviousSeekDone),
        event.seek.start.value is Some && event.seek.stop.value is Some,
        call_ensures(
            SeekHandler::handle_nlecomposition_seek,
            (handler, &source, &event),
            r,
        ),
    ensures
        ({
            let inpoint = if source.inpoint is Some {
                source.inpoint->0 as int
            } else {
                0
            };
            let start = event.seek.start.value->0;
            let stop = event.seek.stop.value->0;
            &&& r is Expected || r is Unexpected
            &&& !source.reverse ==> (r is Expected <==> start == inpoint)
            &&& source.reverse ==> (r is Expected <==> stop - source.duration->0 == inpoint
                && start <= inpoint)
        }),
        r is Unexpected ==> final(handler).state == (State {
            nle_seek: None,
            ..old(handler).state
        }),
        final(handler).name == old(handler).name,
{
}

/// After a seek that is done, the one that is expected continues it, whatever the
/// range is: forward where it stopped, in reverse where it started. Any other one
/// drops what was kept.
pub proof fn law_next_seek_continues(
    handler: &mut SeekHandler,
    source: SourceRange,
    event: SeekEvent,
    sample: Sample,
    previous: Segment,
    r: NleCompositionSeekResult,
)
    requires
        source.duration is Some,
        event.seek.start.format == FORMAT_TIME && event.seek.stop.format == FORMAT_TIME,
        event.seek.start_type is Absolute && event.seek.stop_type is Absolute,
        event.seek.rate.bits == (if source.reverse {
            crate::values::RATE_MINUS_ONE
        } else {
            crate::values::RATE_ONE
        }),
        old(handler).state.seek_info == SeekInfo::PreviousSeekDone(sample, Some(previous)),
        call_ensures(
            SeekHandler::handle_nlecomposition_seek,
            (handler, &source, &event),
            r,
        ),
    ensures
        r is Expected || r is Unexpected,
        !source.reverse ==> (r is Expected <==> event.seek.start.value == previous.stop),
        source.reverse ==> (r is Expected <==> event.seek.stop.value == previous.start),
        r is Expected ==> final(handler).state.seek_info == old(handler).state.seek_info,
        r is Unexpected ==> final(handler).state.seek_info is NoSeek
            && final(handler).state.nle_seek is None,
        final(handler).name == old(handler).name,
{
}

/// A seek is the announced one by its number, and only once; then its segment is
/// played, behind a sample that was kept. Any other seek drops what was announced
/// and kept.
pub proof fn law_announced_seek_is_known_by_its_number(
    handler: &mut SeekHandler,
    event: SeekEvent,
    segment: Segment,
    r: bool,
)
    requires
        call_ensures(SeekHandler::handle_seek, (handler, &event, segment), r),
    ensures
        r <==> old(handler).state.nle_seek is Some && !old(handler).state.handled_composition_seek
            && old(handler).state.nle_seek->0.seqnum == event.seqnum,
        r ==> final(handler).state.handled_composition_seek
            && final(handler).state.nle_seek == old(handler).state.nle_seek,
        r && old(handler).state.seek_info is PreviousSeekDone ==> final(handler).state.seek_info
            == old(handler).state.seek_info,
        r && !(old(handler).state.seek_info is PreviousSeekDone) ==> {
            &&& final(handler).state.seek_info == SeekInfo::SeekSegment(event.seqnum, segment)
            &&& final(handler).state.last_remapped_segment is None
            &&& !final(handler).state.pushed_buffer_in_segment
        },
        !r ==> final(handler).state.seek_info is NoSeek
            && final(handler).state.last_remapped_segment is None,
        !r && !old(handler).state.handled_composition_seek ==> final(handler).state.nle_seek
            is None,
        final(handler).state.stream_time == old(handler).state.stream_time,
        final(handler).name == old(handler).name,
{
}

/// A flush that ended is the one of the announced seek by its number: then the
/// seek was handled, and else nothing is left of it.
pub proof fn law_flush_is_known_by_its_number(
    handler: &mut SeekHandler,
    flush: u32,
    event: SeekEvent,
    segment: Segment,
)
    requires
        call_ensures(
            SeekHandler::handle_flush_event_probe,
            (handler, flush, &event, segment),
            (),
        ),
    ensures
        flush == event.seqnum ==> {
            &&& final(handler).state.handled_composition_seek
            &&& final(handler).state.nle_seek == old(handler).state.nle_seek
            &&& old(handler).state.seek_info is PreviousSeekDone ==> final(handler).state.seek_info
                == old(handler).state.seek_info
            &&& !(old(handler).state.seek_info is PreviousSeekDone)
                ==> final(handler).state.seek_info == SeekInfo::SeekSegment(event.seqnum, segment)
        },
        flush != event.seqnum ==> {
            &&& !final(handler).state.handled_composition_seek
            &&& final(handler).state.nle_seek is None
            &&& final(handler).state.seek_info is NoSeek
        },
        final(handler).name == old(handler).name,
{
}

/// A stack change of a composition: the seek that continues the previous one is
/// announced, comes, and starts with the sample that was kept, which belongs to
/// it and lies where it starts.
pub proof fn law_composition_plays_on(
    first: &mut SeekHandler,
    second: &mut SeekHandler,
    third: &mut SeekHandler,
    source: SourceRange,
    event: SeekEvent,
    sample: Sample,
    previous: Segment,
    segment: Segment,
    start: u64,
    stop: u64,
    answer: NleCompositionSeekResult,
    handled: bool,
    kept: Result<Option<Sample>, FlowError>,
    r: Result<SeekInfo, (FlowError, Option<u32>)>,
    can_announce: bool,
    can: bool,
)
    requires
        source.duration is Some && source.inpoint is Some && !source.reverse,
        event.seek.start.format == FORMAT_TIME && event.seek.stop.format == FORMAT_TIME,
        event.seek.start_type is Absolute && event.seek.stop_type is Absolute,
        event.seek.rate.bits == (if source.reverse {
            crate::values::RATE_MINUS_ONE
        } else {
            crate::values::RATE_ONE
        }),
        event.seek.start.value == previous.stop,
        old(first).state.seek_info == SeekInfo::PreviousSeekDone(sample, Some(previous)),
        old(first).state.last_remapped_segment is None,
        !old(first).state.handled_composition_seek,
        previous.format == FORMAT_TIME && segment.format == FORMAT_TIME,
        call_ensures(SeekHandler::can_announce, (&*old(first), &source, &event), can_announce),
        call_ensures(
            SeekHandler::can_process,
            (
                &*old(third),
                &source,
                &sample,
                Placement::Between(start, stop),
                Some(segment),
                false,
            ),
            can,
        ),
        call_ensures(SeekHandler::handle_nlecomposition_seek, (first, &source, &event), answer),
        *second == *final(first),
        call_ensures(SeekHandler::handle_seek, (second, &event, segment), handled),
        call_ensures(SeekHandler::get_eos_sample, (&*final(second),), kept),
        *third == *final(second),
        segment.rate.positive(),
        segment.start is Some && segment.stop is Some,
        segment.start->0 <= segment.stop->0,
        start < segment.stop->0,
        sample.segment is Some,
        sample.segment->0.format == FORMAT_TIME,
        segment.rate.same(sample.segment->0.rate),
        sample.segment->0.start == source.inpoint,
        source.inpoint->0 + segment.stop->0 < u64::MAX,
        call_ensures(
            SeekHandler::process,
            (third, &source, &sample, Placement::Between(start, stop), Some(segment), false),
            r,
        ),
    ensures
        can_announce && can,
        answer is Expected,
        handled,
        kept == Ok::<Option<Sample>, FlowError>(Some(sample)),
        r matches Ok(SeekInfo::SeekSegment(number, moved)) && number == event.seqnum && moved.start
            == segment.start && moved.stop == segment.stop,
        final(first).name == old(first).name,
        final(second).name == old(second).name,
        final(third).name == old(third).name,
{
    law_played_sample_belongs_to_the_seek(
        third,
        source,
        sample,
        start,
        stop,
        Some(segment),
        false,
        event.seqnum,
        segment,
        r,
        can,
    );
}

/// A sample lasts from its timestamp for the duration of its buffer, or else for a
/// frame at its rate, rounded down; without a rate it does not last.
pub proof fn law_sample_lasts_a_frame(sample: Sample, r: Result<(u64, u64), FlowError>, told: bool)
    requires
        call_ensures(SeekHandler::sample_bounds, (&sample,), r),
        call_ensures(SeekHandler::can_tell_bounds, (&sample,), told),
        told,
    ensures
        ({
            let placed = sample.buffer is Some && sample.buffer->0.pts is Some && sample.segment
                is Some && sample.segment->0.format == FORMAT_TIME;
            &&& r is Ok <==> placed
            &&& r is Err ==> r->Err_0 is Error
            &&& r matches Ok((start, stop)) ==> {
                let buffer = sample.buffer->0;
                let lasts = stop - start;
                &&& start == buffer.pts->0
                &&& buffer.duration is Some ==> lasts == buffer.duration->0
                &&& buffer.duration is None && (sample.framerate is None
                    || sample.framerate->0.numer <= 0) ==> lasts == 0
                &&& buffer.duration is None && sample.framerate is Some
                    && sample.framerate->0.numer > 0 ==> lasts * sample.framerate->0.numer
                    <= 1_000_000_000 * sample.framerate->0.denom < (lasts + 1)
                    * sample.framerate->0.numer
            }
        }),
{
    if r is Ok && sample.buffer->0.duration is None && sample.framerate is Some
        && sample.framerate->0.numer > 0 {
        let n = sample.framerate->0.numer as int;
        let total = SECOND * sample.framerate->0.denom;
        let lasts = total / n;
        assert(lasts * n <= total < (lasts + 1) * n) by (nonlinear_arith)
            requires
                n > 0,
                lasts == total / n,
        ;
    }
}

/// A seek was announced and has not come, or the previous one ended at a sample:
/// which of these holds decides what is handed out first, and what has to be
/// known of the next sample.
pub proof fn law_what_the_next_sample_needs(
    handler: SeekHandler,
    waiting: bool,
    kept: bool,
    sample: Result<Option<Sample>, FlowError>,
    placed: bool,
    segment: Option<SeekEvent>,
)
    requires
        call_ensures(SeekHandler::is_waiting, (&handler,), waiting),
        call_ensures(SeekHandler::has_eos_sample, (&handler,), kept),
        call_ensures(SeekHandler::get_eos_sample, (&handler,), sample),
        call_ensures(SeekHandler::needs_placement, (&handler,), placed),
        call_ensures(SeekHandler::needs_segment, (&handler,), segment),
    ensures
        waiting <==> handler.state.nle_seek is Some && !handler.state.handled_composition_seek,
        kept <==> handler.state.seek_info is PreviousSeekDone,
        waiting ==> sample == Err::<Option<Sample>, FlowError>(FlowError::Eos),
        !waiting && kept ==> sample == Ok::<Option<Sample>, FlowError>(
            Some(handler.state.seek_info->PreviousSeekDone_0),
        ),
        !waiting && !kept ==> sample == Ok::<Option<Sample>, FlowError>(None),
        placed <==> !waiting && (handler.state.seek_info is SeekSegment || (kept
            && handler.state.nle_seek is Some)),
        segment is Some ==> segment == handler.state.nle_seek,
        segment is Some <==> !waiting && kept && handler.state.nle_seek is Some,
{
}

/// The stream time of a sample is taken note of where it has both a buffer and a
/// segment; the buffer is what is played.
pub proof fn law_stream_time_is_taken_note_of(
    handler: &mut SeekHandler,
    sample: Sample,
    time: Option<u64>,
    r: Option<Buffer>,
)
    requires
        call_ensures(SeekHandler::handle_sample, (handler, &sample, time), r),
    ensures
        r == sample.buffer,
        sample.buffer is Some && sample.segment is Some ==> final(handler).state == (State {
            stream_time: time,
            ..old(handler).state
        }),
        sample.buffer is None || sample.segment is None
            ==> final(handler).state == old(handler).state,
        final(handler).name == old(handler).name,
{
}

/// A nested timeline does not get the initialization seek of a composition;
/// everything else is sent, and that seek too where no tag tells of a timeline.
pub proof fn law_timelines_do_not_get_initialization_seeks(
    handler: SeekHandler,
    composition: Option<bool>,
    tags: Vec<Option<bool>>,
    i: int,
    r: bool,
)
    requires
        call_ensures(SeekHandler::should_send_seek, (&handler, composition, &tags), r),
    ensures
        composition != Some(true) ==> r,
        composition == Some(true) && 0 <= i < tags@.len() && tags@[i] == Some(true) ==> !r,
        composition == Some(true) && !r ==> exists|j: int|
            0 <= j < tags@.len() && tags@[j] == Some(true),
{
    if 0 <= i < tags@.len() && tags@[i] == Some(true) {
        assert(tags@.contains(Some(true)));
    }
}

/// A handler that is reset knows as little as a new one; the probe is handed back
/// while its pad is there.
pub proof fn law_reset_forgets_every_seek(
    handler: &mut SeekHandler,
    fresh: SeekHandler,
    name: &str,
    alive: bool,
    r: Option<u64>,
)
    requires
        call_ensures(SeekHandler::new, (name,), fresh),
        call_ensures(SeekHandler::reset, (handler, alive), r),
    ensures
        final(handler).state == fresh.state,
        fresh.name@ == name@,
        final(handler).name == old(handler).name,
        fresh.state.seek_info is NoSeek && fresh.state.nle_seek is None
            && fresh.state.last_remapped_segment is None && fresh.state.stream_time is None
            && fresh.state.probe_id is None,
        !fresh.state.pushed_buffer_in_segment && !fresh.state.handled_composition_seek,
        alive ==> r == old(handler).state.probe_id,
        !alive ==> r is None,
{
}

/// Seeks may be announced whenever the end of the range is a time, and after a
/// seek that is done whenever its segment is known, in time.
pub proof fn law_seeks_may_be_announced(
    handler: SeekHandler,
    source: SourceRange,
    event: SeekEvent,
    can: bool,
)
    requires
        call_ensures(SeekHandler::can_announce, (&handler, &source, &event), can),
    ensures
        source.duration is None ==> can,
        handler.state.seek_info matches SeekInfo::PreviousSeekDone(_, Some(segment)) ==> (
        segment.format == FORMAT_TIME ==> can),
        !(handler.state.seek_info is PreviousSeekDone) && source.duration is Some && (
        source.inpoint is None || source.inpoint->0 + source.duration->0 <= u64::MAX) ==> can,
{
}

/// The bounds of a sample can be told wherever its end is a time.
pub proof fn law_bounds_can_be_told(sample: Sample, told: bool)
    requires
        call_ensures(SeekHandler::can_tell_bounds, (&sample,), told),
    ensures
        sample.buffer is None || sample.segment is None ==> told,
        sample.buffer is Some && sample.buffer->0.pts is Some && sample.buffer->0.duration is Some
            && sample.buffer->0.pts->0 + sample.buffer->0.duration->0 < u64::MAX ==> told,
        sample.buffer is Some && sample.buffer->0.pts is Some && sample.buffer->0.pts->0
            < u64::MAX && sample.buffer->0.duration is None && sample.framerate is None ==> told,
{
}

/// Looking at a sample of the current seek is first to see whether it ends the seek, and
/// where it does not, to move it: in either direction, and whatever its segment is. A
/// sample that is played is taken note of.
pub proof fn law_sample_is_checked_and_moved(
    handler: &mut SeekHandler,
    checked: &mut SeekHandler,
    moved: &mut SeekHandler,
    source: SourceRange,
    sample: Sample,
    placement: Placement,
    nle_segment: Option<Segment>,
    has_clipper: bool,
    seqnum: u32,
    segment: Segment,
    end: Result<(), FlowError>,
    info: Result<SeekInfo, (FlowError, Option<u32>)>,
    r: Result<SeekInfo, (FlowError, Option<u32>)>,
)
    requires
        old(handler).state.nle_seek is None || old(handler).state.handled_composition_seek,
        old(handler).state.seek_info == SeekInfo::SeekSegment(seqnum, segment),
        *checked == *old(handler),
        call_ensures(SeekHandler::check_eos, (checked, &sample, placement, has_clipper), end),
        *moved == *final(checked),
        call_ensures(
            SeekHandler::remap_segment,
            (moved, &source, seqnum, &segment, sample.segment),
            info,
        ),
        call_ensures(
            SeekHandler::process,
            (handler, &source, &sample, placement, nle_segment, has_clipper),
            r,
        ),
    ensures
        end == Err::<(), FlowError>(FlowError::Eos) ==> {
            &&& r is Err && r->Err_0.0 is Eos
            &&& old(handler).state.nle_seek is None ==> r->Err_0.1 is None
            &&& old(handler).state.nle_seek matches Some(event) ==> r->Err_0.1 == Some(event.seqnum)
            &&& final(handler).state == final(checked).state
        },
        end != Err::<(), FlowError>(FlowError::Eos) ==> {
            &&& r == info
            &&& r is Err ==> final(handler).state == old(handler).state
            &&& r is Ok ==> final(handler).state == (State {
                pushed_buffer_in_segment: true,
                ..final(moved).state
            })
        },
        final(handler).name == old(handler).name,
        final(checked).name == old(checked).name,
        final(moved).name == old(moved).name,
{
}

/// Once a seek is done and the announced one came, a sample is looked at as one of the
/// announced seek, of which nothing was pushed; and as one of no seek where none was
/// announced.
pub proof fn law_announced_seek_takes_over(
    handler: &mut SeekHandler,
    other: &mut SeekHandler,
    source: SourceRange,
    sample: Sample,
    placement: Placement,
    segment: Segment,
    has_clipper: bool,
    r: Result<SeekInfo, (FlowError, Option<u32>)>,
    s: Result<SeekInfo, (FlowError, Option<u32>)>,
)
    requires
        old(handler).state.nle_seek is None || old(handler).state.handled_composition_seek,
        old(handler).state.seek_info is PreviousSeekDone,
        other.state == (State {
            seek_info: if old(handler).state.nle_seek is Some {
                SeekInfo::SeekSegment(old(handler).state.nle_seek->0.seqnum, segment)
            } else {
                SeekInfo::NoSeek
            },
            last_remapped_segment: None,
            pushed_buffer_in_segment: false,
            ..old(handler).state
        }),
        call_ensures(
            SeekHandler::process,
            (handler, &source, &sample, placement, Some(segment), has_clipper),
            r,
        ),
        call_ensures(
            SeekHandler::process,
            (other, &source, &sample, placement, Some(segment), has_clipper),
            s,
        ),
    ensures
        r == s,
        final(handler).state == final(other).state,
        old(handler).state.nle_seek is None ==> r == Ok::<SeekInfo, (FlowError, Option<u32>)>(
            SeekInfo::NoSeek,
        ) && final(handler).state == old(other).state,
        final(handler).name == old(handler).name,
        final(other).name == old(other).name,
{
}

/// Forward, a seek without a stop never ends, and one without a start ends at the first
/// sample that starts where it stops.
pub proof fn law_open_seek_ends_where_it_stops(
    handler: &mut SeekHandler,
    seqnum: u32,
    segment: Segment,
    sample: Sample,
    start: u64,
    stop: u64,
    r: Result<(), FlowError>,
)
    requires
        old(handler).state.seek_info == SeekInfo::SeekSegment(seqnum, segment),
        segment.rate.positive(),
        segment.start is None || segment.stop is None,
        call_ensures(
            SeekHandler::check_eos,
            (handler, &sample, Placement::Between(start, stop), false),
            r,
        ),
    ensures
        r is Err <==> segment.stop is Some && start >= segment.stop->0,
        r is Err ==> r->Err_0 is Eos && final(handler).state.seek_info
            == SeekInfo::PreviousSeekDone(sample, Some(segment)),
        r is Ok ==> final(handler).state == old(handler).state,
        final(handler).name == old(handler).name,
{
}

/// A seek that does not say where it begins is not the first one that is expected; in
/// reverse one that says where it begins, and not where it ends, is.
pub proof fn law_first_seek_says_where_it_begins(
    handler: &mut SeekHandler,
    source: SourceRange,
    event: SeekEvent,
    r: NleCompositionSeekResult,
)
    requires
        source.duration is Some,
        event.seek.start.format == FORMAT_TIME && event.seek.stop.format == FORMAT_TIME,
        event.seek.start_type is Absolute && event.seek.stop_type is Absolute,
        event.seek.rate.bits == (if source.reverse {
            crate::values::RATE_MINUS_ONE
        } else {
            crate::values::RATE_ONE
        }),
        !(old(handler).state.seek_info is PreviousSeekDone),
        event.seek.start.value is None || event.seek.stop.value is None,
        call_ensures(SeekHandler::handle_nlecomposition_seek, (handler, &source, &event), r),
    ensures
        ({
            let inpoint = if source.inpoint is Some {
                source.inpoint->0 as int
            } else {
                0
            };
            &&& r is Expected || r is Unexpected
            &&& !source.reverse ==> (r is Expected <==> event.seek.start.value is Some
                && event.seek.start.value->0 == inpoint)
            &&& source.reverse ==> (r is Expected <==> event.seek.stop.value is Some
                && event.seek.stop.value->0 == inpoint + source.duration->0)
        }),
        final(handler).name == old(handler).name,
{
}

/// What an announced seek that does not continue the previous one, another seek than the
/// announced one, and the end of another flush leave behind: no seek is played, and
/// nothing of one was pushed.
pub proof fn law_dropped_seek_leaves_nothing(
    first: &mut SeekHandler,
    second: &mut SeekHandler,
    third: &mut SeekHandler,
    source: SourceRange,
    event: SeekEvent,
    segment: Segment,
    flush: u32,
    answer: NleCompositionSeekResult,
    handled: bool,
)
    requires
        source.duration is Some,
        old(first).state.seek_info is PreviousSeekDone,
        event.seek.start.format == FORMAT_TIME && event.seek.stop.format == FORMAT_TIME,
        event.seek.start_type is Absolute && event.seek.stop_type is Absolute,
        event.seek.rate.bits == (if source.reverse {
            crate::values::RATE_MINUS_ONE
        } else {
            crate::values::RATE_ONE
        }),
        call_ensures(SeekHandler::handle_nlecomposition_seek, (first, &source, &event), answer),
        call_ensures(SeekHandler::handle_seek, (second, &event, segment), handled),
        flush != event.seqnum,
        call_ensures(
            SeekHandler::handle_flush_event_probe,
            (third, flush, &event, segment),
            (),
        ),
    ensures
        answer is Unexpected ==> final(first).state == (State {
            seek_info: SeekInfo::NoSeek,
            last_remapped_segment: None,
            pushed_buffer_in_segment: false,
            nle_seek: None,
            ..old(first).state
        }),
        !handled && old(second).state.nle_seek is Some
            && !old(second).state.handled_composition_seek ==> final(second).state == (State {
            seek_info: SeekInfo::NoSeek,
            last_remapped_segment: None,
            pushed_buffer_in_segment: false,
            nle_seek: None,
            handled_composition_seek: false,
            ..old(second).state
        }),
        !handled && (old(second).state.nle_seek is None
            || old(second).state.handled_composition_seek) ==> final(second).state == (State {
            seek_info: SeekInfo::NoSeek,
            last_remapped_segment: None,
            pushed_buffer_in_segment: false,
            ..old(second).state
        }),
        final(third).state == (State {
            seek_info: SeekInfo::NoSeek,
            last_remapped_segment: None,
            pushed_buffer_in_segment: false,
            nle_seek: None,
            handled_composition_seek: false,
            ..old(third).state
        }),
        final(first).name == old(first).name,
        final(second).name == old(second).name,
        final(third).name == old(third).name,
{
}

/// The announced seek is reached alike by the seek itself and by the end of its flush.
pub proof fn law_announced_seek_is_reached_once(
    first: &mut SeekHandler,
    second: &mut SeekHandler,
    event: SeekEvent,
    segment: Segment,
    handled: bool,
)
    requires
        *second == *old(first),
        old(first).state.nle_seek is Some && old(first).state.nle_seek->0.seqnum == event.seqnum,
        !old(first).state.handled_composition_seek,
        call_ensures(SeekHandler::handle_seek, (first, &event, segment), handled),
        call_ensures(
            SeekHandler::handle_flush_event_probe,
            (second, event.seqnum, &event, segment),
            (),
        ),
    ensures
        handled,
        final(first).state == final(second).state,
        old(first).state.seek_info is PreviousSeekDone ==> final(first).state == (State {
            handled_composition_seek: true,
            ..old(first).state
        }),
        !(old(first).state.seek_info is PreviousSeekDone) ==> final(first).state == (State {
            handled_composition_seek: true,
            seek_info: SeekInfo::SeekSegment(event.seqnum, segment),
            last_remapped_segment: None,
            pushed_buffer_in_segment: false,
            ..old(first).state
        }),
        final(first).name == old(first).name,
        final(second).name == old(second).name,
{
}

/// Whichever way round the segment lies, a sample ends the seek only where it is neither
/// before the segment nor touches the beginning of it from there: forward where it starts
/// at the stop or behind it, in reverse where it stops at the start or before it.
pub proof fn law_sample_before_the_segment_ends_nothing(
    handler: &mut SeekHandler,
    seqnum: u32,
    segment: Segment,
    sample: Sample,
    start: u64,
    stop: u64,
    r: Result<(), FlowError>,
)
    requires
        old(handler).state.seek_info == SeekInfo::SeekSegment(seqnum, segment),
        segment.start is Some && segment.stop is Some,
        call_ensures(
            SeekHandler::check_eos,
            (handler, &sample, Placement::Between(start, stop), false),
            r,
        ),
    ensures
        ({
            let begin = segment.start->0;
            let end = segment.stop->0;
            &&& segment.rate.positive() && stop < begin ==> r is Ok
            &&& segment.rate.positive() && stop == begin && start != stop ==> r is Ok
            &&& segment.rate.positive() && (stop > begin || (stop == begin && start == stop)) ==> (r
                is Err <==> start >= end)
            &&& !segment.rate.positive() && start > end ==> r is Ok
            &&& !segment.rate.positive() && start == end && begin != end ==> r is Ok
            &&& !segment.rate.positive() && (start < end || (start == end && begin == end)) ==> (r
                is Err <==> stop <= begin)
        }),
        r is Err ==> r->Err_0 is Eos && final(handler).state.seek_info
            == SeekInfo::PreviousSeekDone(sample, Some(segment)),
        r is Ok ==> final(handler).state == old(handler).state,
        final(handler).name == old(handler).name,
{
}

} // verus!
