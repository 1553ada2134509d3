//! A decoding pipeline that belongs to a pool.
use vstd::prelude::*;

use crate::pull::{requested_stream_started, stream_started, text_eq};
use crate::streams::{law_selected_has_id, select_stream, selected};
use crate::uridecodepool::imp::Caps;
use crate::uridecodepool::seek_handler::{SeekHandler, State as SeekState};
use crate::values::{
    copy_string, SeekEvent, Stream, STREAM_TYPE_AUDIO, STREAM_TYPE_TEXT, STREAM_TYPE_UNKNOWN,
    STREAM_TYPE_VIDEO,
};

verus! {

/// The state of a running pipeline, from the lowest to the highest.
#[derive(Clone, Copy, Debug, PartialEq, Eq, Structural)]
pub enum PipelineState {
    VoidPending,
    Null,
    Ready,
    Paused,
    Playing,
}

/// The source that a pipeline plays for.
#[derive(Clone, Copy, Debug, PartialEq, Eq, Structural)]
pub enum TargetSrcState {
    /// None.
    Free,
    /// The source plays it, or is going to.
    InUse(u64),
    /// The source gave it back, but may want it again.
    Pending(u64),
}

impl TargetSrcState {
    pub open spec fn target(self) -> Option<u64> {
        match self {
            TargetSrcState::Free => None,
            TargetSrcState::InUse(src) => Some(src),
            TargetSrcState::Pending(src) => Some(src),
        }
    }

    pub fn src(&self) -> (r: Option<u64>)
        ensures
            r == self.target(),
    {
        match self {
            TargetSrcState::Free => None,
            TargetSrcState::InUse(src) => Some(*src),
            TargetSrcState::Pending(src) => Some(*src),
        }
    }

    pub fn has_target(&self, src: u64) -> (r: bool)
        ensures
            r == (self.target() == Some(src)),
    {
        match self.src() {
            Some(target) => target == src,
            None => false,
        }
    }

    pub fn pending_src(&self) -> (r: Option<u64>)
        ensures
            r == (match *self {
                TargetSrcState::Pending(src) => Some(src),
                _ => None,
            }),
    {
        match self {
            TargetSrcState::Pending(src) => Some(*src),
            _ => None,
        }
    }
}

/// A message on the bus of the pipeline.
#[derive(Debug)]
pub enum BusMessage {
    /// The streams that the pipeline offers.
    StreamCollection(Vec<Stream>),
    /// A context is needed or offered, or an element has something to say.
    Context,
    Error,
    /// A state change, of the pipeline itself or of one of its elements, to
    /// playing or to something else.
    StateChanged { of_pipeline: bool, playing: bool },
    Other,
}

/// What to do about a message.
#[derive(Debug)]
pub enum BusAction {
    Nothing,
    /// Select the stream, by an event with the given sequence number.
    SelectStream { stream_id: String, seqnum: u32 },
    /// Post the message on the bus of the pool.
    PostToPool,
    /// Post the message as the source's.
    PostToTarget(u64),
    /// Draw the pipeline's graph, and report the error.
    ReportError,
    /// Send the pending seek, from another thread.
    SeekInThread,
}

/// How sending a stream selection goes on.
#[derive(Clone, Copy, Debug, PartialEq, Eq, Structural)]
pub enum Selection {
    Send,
    GiveUp,
    Retry,
}

/// How a seek goes on.
#[derive(Clone, Copy, Debug, PartialEq, Eq, Structural)]
pub enum SeekAction {
    /// The seek was sent before; it succeeded.
    Ignored,
    /// The seek is sent once the pipeline plays; it succeeded.
    Postponed,
    /// The pipeline failed.
    Failed,
    /// The seek is to be sent to the pipeline; it succeeds if the pipeline
    /// takes it.
    Send(SeekEvent),
}

/// How a new pad is linked to the sink.
#[derive(Clone, Copy, Debug, PartialEq, Eq, Structural)]
pub enum PadAdded {
    /// The sink is linked already, so the pad is not.
    AlreadyLinked,
    /// Through a video converter.
    VideoFilter,
    /// Through an audio converter.
    AudioFilter,
    /// Directly.
    Link,
}

/// What to take down with a pad that is gone.
#[derive(Clone, Copy, Debug, PartialEq, Eq, Structural)]
pub enum PadRemoved {
    Nothing,
    /// The link to the sink.
    Unlink,
    /// The link to the sink, and the element that was linked.
    UnlinkAndRemove,
}

/// The converter that video is played through.
pub const VIDEO_FILTER: &'static str = "glupload ! glcolorconvert ! capsfilter caps=\"video/x-raw(memory:GLMemory),format=RGBA\"";

/// The converter that audio is played through.
pub const AUDIO_FILTER: &'static str = "audioconvert ! scaletempo ! audioconvert";

/// The type of the streams that caps of a media type select.
pub open spec fn type_of_caps(name: Option<String>) -> u32 {
    match name {
        Some(name) => if name@ == "video/x-raw"@ {
            STREAM_TYPE_VIDEO
        } else if name@ == "audio/x-raw"@ {
            STREAM_TYPE_AUDIO
        } else if name@ == "text/x-raw"@ {
            STREAM_TYPE_TEXT
        } else {
            STREAM_TYPE_UNKNOWN
        },
        None => STREAM_TYPE_UNKNOWN,
    }
}

/// A pipeline that decodes one stream of a location.
#[derive(Debug)]
pub struct DecoderPipeline {
    pub name: String,
    pub uri: String,
    /// The stream that was selected.
    pub stream: Option<Stream>,
    /// The identifier of the stream that was asked for.
    pub stream_id: Option<String>,
    pub caps: Caps,
    /// When the pipeline was torn down.
    pub unused_since: Option<u64>,
    /// Messages on the pipeline's bus are looked at.
    pub listening: bool,
    pub stream_selection_seqnum: u32,
    pub target_src: TargetSrcState,
    /// The seek to send as soon as the pipeline plays.
    pub pending_seek: Option<SeekEvent>,
    /// The seek that makes the pipeline play the range of its source.
    pub initial_seek: Option<SeekEvent>,
    pub last_seek_seqnum: u32,
    pub tearing_down: bool,
    pub seek_handler: SeekHandler,
}

impl DecoderPipeline {
    /// How a seek goes on: one that was sent before is not sent again, and one
    /// that comes before the pipeline plays has to wait.
    pub open spec fn seek_result(
        self,
        seek_event: SeekEvent,
        state: Option<PipelineState>,
    ) -> SeekAction {
        if seek_event.seqnum == self.last_seek_seqnum {
            SeekAction::Ignored
        } else {
            match state {
                None => SeekAction::Failed,
                Some(PipelineState::Playing) => SeekAction::Send(seek_event),
                Some(_) => SeekAction::Postponed,
            }
        }
    }

    /// The pipeline after a seek came in.
    pub open spec fn after_seek(
        self,
        seek_event: SeekEvent,
        state: Option<PipelineState>,
    ) -> DecoderPipeline {
        match self.seek_result(seek_event, state) {
            SeekAction::Ignored | SeekAction::Failed => self,
            SeekAction::Postponed => DecoderPipeline { pending_seek: Some(seek_event), ..self },
            SeekAction::Send(_) => DecoderPipeline {
                pending_seek: None,
                last_seek_seqnum: seek_event.seqnum,
                ..self
            },
        }
    }

    /// A seek is sent when the pipeline gets to play.
    pub open spec fn seeks_when_playing(self) -> bool {
        self.pending_seek is Some
    }

    /// The pipeline once its pending seek was taken to be sent.
    pub open spec fn after_pending_seek(self) -> DecoderPipeline {
        DecoderPipeline { pending_seek: None, ..self }
    }

    /// The pipeline once it is about to be set to play.
    pub open spec fn after_play(self, state: Option<PipelineState>) -> DecoderPipeline {
        DecoderPipeline {
            tearing_down: false,
            pending_seek: if (state matches Some(s) && !(s is Paused) && !(s is Playing))
                && self.initial_seek is Some {
                self.initial_seek
            } else {
                self.pending_seek
            },
            ..self
        }
    }

    /// A new pipeline. Both sequence numbers are ones that nothing carries
    /// yet.
    pub fn new(
        name: &str,
        uri: &str,
        caps: &Caps,
        stream_id: &Option<String>,
        initial_seek: Option<SeekEvent>,
        stream_selection_seqnum: u32,
        last_seek_seqnum: u32,
    ) -> (r: Self)
        ensures
            r.name@ == name@,
            r.uri@ == uri@,
            r.stream is None,
            r.stream_id == *stream_id,
            r.caps == *caps,
            r.unused_since is None,
            r.listening,
            r.stream_selection_seqnum == stream_selection_seqnum,
            r.target_src is Free,
            r.pending_seek is None,
            r.initial_seek == initial_seek,
            r.last_seek_seqnum == last_seek_seqnum,
            !r.tearing_down,
            r.seek_handler.state == SeekState::initial(),
            r.seek_handler.name@ == name@,
    {
        DecoderPipeline {
            name: name.to_owned(),
            uri: uri.to_owned(),
            stream: None,
            stream_id: copy_string(stream_id),
            caps: caps.clone(),
            unused_since: None,
            listening: true,
            stream_selection_seqnum,
            target_src: TargetSrcState::Free,
            pending_seek: None,
            initial_seek,
            last_seek_seqnum,
            tearing_down: false,
            seek_handler: SeekHandler::new(name),
        }
    }

    /// Sets the pipeline up again. Tells whether the bus is to be listened to
    /// anew.
    pub fn reset(
        &mut self,
        uri: &str,
        caps: &Caps,
        stream_id: &Option<String>,
        stream_selection_seqnum: u32,
    ) -> (r: bool)
        ensures
            r == !old(self).listening,
            final(self).uri@ == uri@,
            *final(self) == (DecoderPipeline {
                unused_since: None,
                stream: None,
                caps: *caps,
                stream_id: *stream_id,
                stream_selection_seqnum,
                listening: true,
                uri: final(self).uri,
                ..*old(self)
            }),
    {
        self.unused_since = None;
        self.stream = None;
        self.caps = caps.clone();
        self.stream_id = copy_string(stream_id);
        self.stream_selection_seqnum = stream_selection_seqnum;
        let listen = !self.listening;
        self.listening = true;
        self.uri = uri.to_owned();
        listen
    }

    /// What to do with the sink's link when a pad of the decoder is gone.
    /// `peer_in_pipeline` tells of the pad that the sink is linked to, if it
    /// is, whether its element stands in the pipeline itself.
    pub fn pad_removed(peer_in_pipeline: Option<bool>) -> (r: PadRemoved)
        ensures
            r == (match peer_in_pipeline {
                Some(true) => PadRemoved::UnlinkAndRemove,
                Some(false) => PadRemoved::Unlink,
                None => PadRemoved::Nothing,
            }),
    {
        match peer_in_pipeline {
            Some(true) => PadRemoved::UnlinkAndRemove,
            Some(false) => PadRemoved::Unlink,
            None => PadRemoved::Nothing,
        }
    }

    /// How a new pad, with a stream of the given type, is linked.
    pub fn pad_added(sink_linked: bool, stream_type: Option<u32>) -> (r: PadAdded)
        ensures
            r == (if sink_linked {
                PadAdded::AlreadyLinked
            } else if stream_type == Some(STREAM_TYPE_VIDEO) {
                PadAdded::VideoFilter
            } else if stream_type == Some(STREAM_TYPE_AUDIO) {
                PadAdded::AudioFilter
            } else {
                PadAdded::Link
            }),
    {
        if sink_linked {
            return PadAdded::AlreadyLinked;
        }
        match stream_type {
            Some(stream_type) => if stream_type == STREAM_TYPE_VIDEO {
                PadAdded::VideoFilter
            } else if stream_type == STREAM_TYPE_AUDIO {
                PadAdded::AudioFilter
            } else {
                PadAdded::Link
            },
            None => PadAdded::Link,
        }
    }

    /// Whether a pad that could not be linked is an error: not so once the
    /// pipeline was stopped.
    pub fn link_failure_is_error(&self) -> (r: bool)
        ensures
            r == self.listening,
    {
        self.listening
    }

    pub fn stream_type(&self) -> (r: u32)
        ensures
            r == type_of_caps(self.caps.name),
    {
        match &self.caps.name {
            Some(name) => if text_eq(name.as_str(), "video/x-raw") {
                STREAM_TYPE_VIDEO
            } else if text_eq(name.as_str(), "audio/x-raw") {
                STREAM_TYPE_AUDIO
            } else if text_eq(name.as_str(), "text/x-raw") {
                STREAM_TYPE_TEXT
            } else {
                STREAM_TYPE_UNKNOWN
            },
            None => STREAM_TYPE_UNKNOWN,
        }
    }

    pub fn requested_stream_id(&self) -> (r: Option<String>)
        ensures
            r == self.stream_id,
    {
        copy_string(&self.stream_id)
    }

    /// Whether the start of the selected stream has reached the sink already.
    pub fn requested_stream_started(&self, pad_stream_id: &Option<String>) -> (r: bool)
        requires
            self.stream is Some ==> self.stream->0.id is Some,
        ensures
            r == stream_started(self.stream, *pad_stream_id),
    {
        requested_stream_started(&self.stream, pad_stream_id)
    }

    /// How a seek goes on, when the pipeline is in the given state; `None`
    /// where it failed to get to one.
    pub fn seek(&mut self, seek_event: SeekEvent, state: Option<PipelineState>) -> (r: SeekAction)
        ensures
            r == old(self).seek_result(seek_event, state),
            *final(self) == old(self).after_seek(seek_event, state),
    {
        if self.last_seek_seqnum == seek_event.seqnum {
            return SeekAction::Ignored;
        }
        match state {
            Some(PipelineState::Playing) => {
                self.pending_seek = None;
            },
            Some(_) => {
                self.pending_seek = Some(seek_event);
                return SeekAction::Postponed;
            },
            None => {
                return SeekAction::Failed;
            },
        }
        self.last_seek_seqnum = seek_event.seqnum;
        SeekAction::Send(seek_event)
    }

    /// What to do about a message on the pipeline's bus, in a pool that has a
    /// bus of its own or not.
    pub fn handle_bus_message(&mut self, message: &BusMessage, pool_has_bus: bool) -> (r:
        BusAction)
        ensures
            *final(self) == (DecoderPipeline { stream: final(self).stream, ..*old(self) }),
            match *message {
                BusMessage::StreamCollection(streams) => match selected(
                    streams@,
                    old(self).stream_id,
                    type_of_caps(old(self).caps.name),
                ) {
                    Some(i) => {
                        &&& final(self).stream == Some(streams@[i])
                        &&& streams@[i].id is Some
                        &&& r matches BusAction::SelectStream { stream_id, seqnum } && stream_id
                            == streams@[i].id->0 && seqnum == old(self).stream_selection_seqnum
                    },
                    None => r is Nothing && final(self).stream == old(self).stream,
                },
                BusMessage::Context => {
                    &&& final(self).stream == old(self).stream
                    &&& r == (if pool_has_bus {
                        BusAction::PostToPool
                    } else {
                        match old(self).target_src.target() {
                            Some(src) => BusAction::PostToTarget(src),
                            None => BusAction::Nothing,
                        }
                    })
                },
                BusMessage::Error => r is ReportError && final(self).stream == old(self).stream,
                BusMessage::StateChanged { of_pipeline, playing } => {
                    &&& final(self).stream == old(self).stream
                    &&& r == (if of_pipeline && playing && old(self).seeks_when_playing() {
                        BusAction::SeekInThread
                    } else {
                        BusAction::Nothing
                    })
                },
                BusMessage::Other => r is Nothing && final(self).stream == old(self).stream,
            },
    {
        match message {
            BusMessage::StreamCollection(streams) => {
                let stream_type: u32 = self.stream_type();
                match select_stream(streams, &self.stream_id, stream_type) {
                    Some(i) => {
                        proof {
                            law_selected_has_id(streams@, self.stream_id, stream_type);
                        }
                        self.stream = Some(streams[i].clone());
                        BusAction::SelectStream {
                            stream_id: streams[i].id.as_ref().unwrap().clone(),
                            seqnum: self.stream_selection_seqnum,
                        }
                    },
                    None => BusAction::Nothing,
                }
            },
            BusMessage::Context => if pool_has_bus {
                BusAction::PostToPool
            } else {
                match self.target_src.src() {
                    Some(src) => BusAction::PostToTarget(src),
                    None => BusAction::Nothing,
                }
            },
            BusMessage::Error => BusAction::ReportError,
            BusMessage::StateChanged { of_pipeline, playing } => if *of_pipeline && *playing
                && self.pending_seek.is_some() {
                BusAction::SeekInThread
            } else {
                BusAction::Nothing
            },
            BusMessage::Other => BusAction::Nothing,
        }
    }

    /// How sending a stream selection goes on: it needs the lock that tearing
    /// down holds.
    pub fn try_selection(&self, locked: bool) -> (r: Selection)
        ensures
            r == (if locked {
                Selection::Send
            } else if self.tearing_down {
                Selection::GiveUp
            } else {
                Selection::Retry
            }),
    {
        if locked {
            Selection::Send
        } else if self.tearing_down {
            Selection::GiveUp
        } else {
            Selection::Retry
        }
    }

    /// The pending seek, which is pending no more.
    pub fn take_pending_seek(&mut self) -> (r: Option<SeekEvent>)
        ensures
            r == old(self).pending_seek,
            *final(self) == old(self).after_pending_seek(),
    {
        self.pending_seek.take()
    }

    /// Whether the pipeline may be set to play, when it is in the given state;
    /// `None` where it failed to get to one. One that has not been set up for
    /// playing starts with its initial seek.
    pub fn play(&mut self, state: Option<PipelineState>) -> (r: bool)
        ensures
            r == state is Some,
            *final(self) == old(self).after_play(state),
    {
        self.tearing_down = false;
        let below_paused = match state {
            None => {
                return false;
            },
            Some(PipelineState::Paused) | Some(PipelineState::Playing) => false,
            Some(_) => true,
        };
        if below_paused && self.initial_seek.is_some() {
            self.pending_seek = self.initial_seek;
        }
        true
    }

    /// Plays for a source from now on, or for none.
    pub fn set_target_src(&mut self, target_src: TargetSrcState)
        ensures
            *final(self) == (DecoderPipeline {
                target_src,
                unused_since: if target_src is Free {
                    old(self).unused_since
                } else {
                    None
                },
                ..*old(self)
            }),
    {
        match target_src {
            TargetSrcState::Free => {},
            _ => {
                self.unused_since = None;
            },
        }
        self.target_src = target_src;
    }

    /// The source plays the pipeline.
    pub fn mark_target_src_in_use(&mut self)
        ensures
            *final(self) == (DecoderPipeline {
                target_src: match old(self).target_src.target() {
                    Some(src) => TargetSrcState::InUse(src),
                    None => TargetSrcState::Free,
                },
                ..*old(self)
            }),
    {
        if let Some(src) = self.target_src.src() {
            self.target_src = TargetSrcState::InUse(src);
        }
    }

    /// The source gave the pipeline back, but may want it again.
    pub fn mark_target_src_pending(&mut self)
        ensures
            *final(self) == (DecoderPipeline {
                target_src: match old(self).target_src.target() {
                    Some(src) => TargetSrcState::Pending(src),
                    None => TargetSrcState::Free,
                },
                ..*old(self)
            }),
    {
        if let Some(src) = self.target_src.src() {
            self.target_src = TargetSrcState::Pending(src);
        }
    }

    /// The pipeline is not played any more; it is to be torn down.
    pub fn release(&mut self)
        ensures
            *final(self) == (DecoderPipeline {
                target_src: TargetSrcState::Free,
                stream: None,
                ..*old(self)
            }),
    {
        self.set_target_src(TargetSrcState::Free);
        self.stream = None;
    }

    /// Tearing down begins: no stream is selected by earlier messages any
    /// more.
    pub fn tear_down(&mut self, stream_selection_seqnum: u32)
        ensures
            *final(self) == (DecoderPipeline {
                tearing_down: true,
                stream_selection_seqnum,
                ..*old(self)
            }),
    {
        self.tearing_down = true;
        self.stream_selection_seqnum = stream_selection_seqnum;
    }

    /// The pipeline was torn down and is ready to be used again.
    pub fn torn_down(&mut self, now: u64)
        ensures
            *final(self) == (DecoderPipeline { unused_since: Some(now), ..*old(self) }),
    {
        self.unused_since = Some(now);
    }

    /// The pipeline will not be used again. Tells whether its bus was listened
    /// to.
    pub fn stop(&mut self) -> (r: bool)
        ensures
            *final(self) == (DecoderPipeline { listening: false, ..*old(self) }),
            r == old(self).listening,
    {
        let listening = self.listening;
        self.listening = false;
        listening
    }

    /// The pipeline was stopped: it forgets every seek. Returns the probe to
    /// take off its pad, if any.
    pub fn stopped(&mut self, pad_alive: bool) -> (r: Option<u64>)
        ensures
            *final(self) == (DecoderPipeline {
                tearing_down: true,
                seek_handler: final(self).seek_handler,
                ..*old(self)
            }),
            final(self).seek_handler.state == SeekState::initial(),
            final(self).seek_handler.name == old(self).seek_handler.name,
            r == (if pad_alive {
                old(self).seek_handler.state.probe_id
            } else {
                None
            }),
    {
        self.tearing_down = true;
        self.seek_handler.reset(pad_alive)
    }
}

/// A seek that comes before the pipeline plays is kept to be sent as soon as it
/// does, and is pending no more once it was taken to be sent.
pub proof fn law_early_seek_is_kept(
    pipeline: DecoderPipeline,
    seek_event: SeekEvent,
    state: PipelineState,
)
    requires
        seek_event.seqnum != pipeline.last_seek_seqnum,
        !(state is Playing),
    ensures
        ({
            let kept = pipeline.after_seek(seek_event, Some(state));
            &&& pipeline.seek_result(seek_event, Some(state)) is Postponed
            &&& kept.seeks_when_playing()
            &&& kept.pending_seek == Some(seek_event)
            &&& !kept.after_pending_seek().seeks_when_playing()
        }),
{
}

/// Of several seeks that come before the pipeline plays, the last one is sent.
pub proof fn law_last_early_seek_wins(
    pipeline: DecoderPipeline,
    first: SeekEvent,
    second: SeekEvent,
    state: PipelineState,
)
    requires
        second.seqnum != pipeline.last_seek_seqnum,
        !(state is Playing),
    ensures
        pipeline.after_seek(first, Some(state)).after_seek(second, Some(state)).pending_seek == Some(
            second,
        ),
{
}

/// A seek that was sent is not sent again, in whatever state the pipeline is,
/// and nothing changes.
pub proof fn law_repeated_seek_is_ignored(
    pipeline: DecoderPipeline,
    seek_event: SeekEvent,
    again: SeekEvent,
    state: Option<PipelineState>,
)
    requires
        again.seqnum == seek_event.seqnum,
    ensures
        ({
            let sent = pipeline.after_seek(seek_event, Some(PipelineState::Playing));
            &&& sent.seek_result(again, state) is Ignored
            &&& sent.after_seek(again, state) == sent
        }),
{
}

/// A pipeline that starts from scratch sends its initial seek when it plays,
/// unless another one came in between.
pub proof fn law_initial_seek_is_sent(pipeline: DecoderPipeline, state: PipelineState)
    requires
        pipeline.initial_seek is Some,
        !(state is Paused),
        !(state is Playing),
    ensures
        pipeline.after_play(Some(state)).seeks_when_playing(),
        pipeline.after_play(Some(state)).pending_seek == pipeline.initial_seek,
{
}

/// A new pipeline is for what it was made for, and has done nothing yet.
pub proof fn law_new_pipeline_is_for_its_request(
    name: &str,
    uri: &str,
    caps: Caps,
    stream_id: Option<String>,
    initial_seek: Option<SeekEvent>,
    selection: u32,
    last: u32,
    r: DecoderPipeline,
)
    requires
        call_ensures(
            DecoderPipeline::new,
            (name, uri, &caps, &stream_id, initial_seek, selection, last),
            r,
        ),
    ensures
        r.name@ == name@ && r.seek_handler.name@ == name@,
        r.uri@ == uri@ && r.caps == caps && r.stream_id == stream_id,
        r.initial_seek == initial_seek,
        r.stream_selection_seqnum == selection && r.last_seek_seqnum == last,
        r.stream is None && r.pending_seek is None && r.unused_since is None,
        r.target_src is Free && r.listening && !r.tearing_down,
        r.seek_handler.state.seek_info is NoSeek && r.seek_handler.state.nle_seek is None,
{
}

/// A pipeline that is set up again is for its new request, and forgets the stream
/// of before; its seeks, its name and its source stay.
pub proof fn law_reset_pipeline_is_for_its_request(
    pipeline: &mut DecoderPipeline,
    uri: &str,
    caps: Caps,
    stream_id: Option<String>,
    selection: u32,
    listen: bool,
)
    requires
        call_ensures(
            DecoderPipeline::reset,
            (pipeline, uri, &caps, &stream_id, selection),
            listen,
        ),
    ensures
        final(pipeline).uri@ == uri@,
        final(pipeline).caps == caps,
        final(pipeline).stream_id == stream_id,
        final(pipeline).stream_selection_seqnum == selection,
        final(pipeline).stream is None,
        final(pipeline).unused_since is None,
        final(pipeline).listening,
        listen <==> !old(pipeline).listening,
        final(pipeline).name == old(pipeline).name,
        final(pipeline).seek_handler == old(pipeline).seek_handler,
        final(pipeline).initial_seek == old(pipeline).initial_seek,
        final(pipeline).pending_seek == old(pipeline).pending_seek,
        final(pipeline).last_seek_seqnum == old(pipeline).last_seek_seqnum,
        final(pipeline).target_src == old(pipeline).target_src,
        final(pipeline).tearing_down == old(pipeline).tearing_down,
{
}

/// A seek is sent at once only by a pipeline that plays, under its own number, and
/// not again; before that, it is sent as soon as the pipeline plays. A pipeline
/// that failed takes none.
pub proof fn law_seek_is_sent_or_kept(
    pipeline: &mut DecoderPipeline,
    event: SeekEvent,
    state: Option<PipelineState>,
    r: SeekAction,
)
    requires
        call_ensures(DecoderPipeline::seek, (pipeline, event, state), r),
    ensures
        r is Ignored <==> event.seqnum == old(pipeline).last_seek_seqnum,
        !(r is Ignored) && state is None <==> r is Failed,
        !(r is Ignored) && state == Some(PipelineState::Playing) <==> r == SeekAction::Send(event),
        r is Send ==> r->Send_0 == event,
        r is Ignored || r is Failed ==> *final(pipeline) == *old(pipeline),
        r is Postponed ==> *final(pipeline) == (DecoderPipeline {
            pending_seek: Some(event),
            ..*old(pipeline)
        }),
        r is Send ==> *final(pipeline) == (DecoderPipeline {
            pending_seek: None,
            last_seek_seqnum: event.seqnum,
            ..*old(pipeline)
        }),
{
}

/// A seek that was kept is asked for once the pipeline itself plays, and is taken
/// once.
pub proof fn law_kept_seek_is_taken_once(
    first: &mut DecoderPipeline,
    second: &mut DecoderPipeline,
    third: &mut DecoderPipeline,
    event: SeekEvent,
    state: PipelineState,
    has_bus: bool,
    asked: BusAction,
    taken: Option<SeekEvent>,
    again: Option<SeekEvent>,
)
    requires
        event.seqnum != old(first).last_seek_seqnum,
        !(state is Playing),
        call_ensures(
            DecoderPipeline::seek,
            (first, event, Some(state)),
            SeekAction::Postponed,
        ),
        call_ensures(
            DecoderPipeline::handle_bus_message,
            (
                second,
                &BusMessage::StateChanged { of_pipeline: true, playing: true },
                has_bus,
            ),
            asked,
        ),
        *second == *final(first),
        *third == *final(second),
        call_ensures(DecoderPipeline::take_pending_seek, (third,), taken),
    ensures
        asked is SeekInThread,
        *final(second) == *final(first),
        taken == Some(event),
        final(third).pending_seek is None,
        *final(third) == (DecoderPipeline { pending_seek: None, ..*old(third) }),
{
}

/// Of the streams that are offered, the requested one is selected, or else the
/// first one of the type that the caps ask for, under the current number.
pub proof fn law_offered_stream_is_selected(
    pipeline: &mut DecoderPipeline,
    streams: Vec<Stream>,
    has_bus: bool,
    i: int,
    r: BusAction,
)
    requires
        0 <= i < streams@.len(),
        streams@[i].id is Some,
        old(pipeline).stream_id is Some,
        streams@[i].id->0@ == old(pipeline).stream_id->0@,
        call_ensures(
            DecoderPipeline::handle_bus_message,
            (pipeline, &BusMessage::StreamCollection(streams), has_bus),
            r,
        ),
    ensures
        r matches BusAction::SelectStream { stream_id, seqnum }
            && stream_id@ == old(pipeline).stream_id->0@
            && seqnum == old(pipeline).stream_selection_seqnum,
        final(pipeline).stream is Some && final(pipeline).stream->0.id is Some
            && final(pipeline).stream->0.id->0@ == old(pipeline).stream_id->0@,
        *final(pipeline) == (DecoderPipeline { stream: final(pipeline).stream, ..*old(pipeline) }),
{
    crate::streams::law_requested_stream_wins(
        streams@,
        old(pipeline).stream_id,
        type_of_caps(old(pipeline).caps.name),
        i,
    );
}

/// Without a request, the stream that is selected has the type that the caps ask
/// for; where there is none of it, nothing changes.
pub proof fn law_stream_of_the_caps_is_selected(
    pipeline: &mut DecoderPipeline,
    streams: Vec<Stream>,
    has_bus: bool,
    stream_type: u32,
    r: BusAction,
)
    requires
        old(pipeline).stream_id is None,
        call_ensures(DecoderPipeline::stream_type, (&*old(pipeline),), stream_type),
        call_ensures(
            DecoderPipeline::handle_bus_message,
            (pipeline, &BusMessage::StreamCollection(streams), has_bus),
            r,
        ),
    ensures
        r is SelectStream || r is Nothing,
        r matches BusAction::SelectStream { stream_id, seqnum } ==> {
            &&& seqnum == old(pipeline).stream_selection_seqnum
            &&& final(pipeline).stream is Some
            &&& final(pipeline).stream->0.stream_type == stream_type
            &&& final(pipeline).stream->0.id is Some && stream_id == final(pipeline).stream->0.id->0
            &&& streams@.contains(final(pipeline).stream->0)
        },
        r is Nothing ==> *final(pipeline) == *old(pipeline) && forall|j: int|
            0 <= j < streams@.len() ==> !((#[trigger] streams@[j]).id is Some
                && streams@[j].stream_type == stream_type),
{
    law_selected_has_id(streams@, None, stream_type);
    crate::streams::law_fallback_has_type(streams@, None, stream_type);
    if r is Nothing {
        assert forall|j: int| 0 <= j < streams@.len() implies !((#[trigger] streams@[j]).id is Some
            && streams@[j].stream_type == stream_type) by {
            assert(!crate::streams::of_type(stream_type)(streams@[j]));
        }
    }
}

/// The caps decide on the type of the stream by their media type.
pub proof fn law_caps_decide_on_the_type(pipeline: DecoderPipeline, r: u32)
    requires
        call_ensures(DecoderPipeline::stream_type, (&pipeline,), r),
    ensures
        r == 2 || r == 4 || r == 16 || r == 1,
        r == 4 <==> pipeline.caps.name is Some && pipeline.caps.name->0@ == "video/x-raw"@,
        r == 2 <==> pipeline.caps.name is Some && pipeline.caps.name->0@ == "audio/x-raw"@,
        r == 16 <==> pipeline.caps.name is Some && pipeline.caps.name->0@ == "text/x-raw"@,
{
    reveal_strlit("video/x-raw");
    reveal_strlit("audio/x-raw");
    reveal_strlit("text/x-raw");
    assert("video/x-raw"@[0] == 'v' && "audio/x-raw"@[0] == 'a' && "text/x-raw"@[0] == 't');
}

/// Contexts are asked for on the pool's bus, or else through the source; errors are
/// reported; everything else is left alone, and no message but a collection
/// changes the pipeline.
pub proof fn law_messages_go_where_they_belong(
    pipeline: &mut DecoderPipeline,
    message: BusMessage,
    has_bus: bool,
    r: BusAction,
)
    requires
        !(message is StreamCollection),
        call_ensures(DecoderPipeline::handle_bus_message, (pipeline, &message, has_bus), r),
    ensures
        *final(pipeline) == *old(pipeline),
        message is Error <==> r is ReportError,
        message is Context && has_bus <==> r is PostToPool,
        message is Context && !has_bus ==> {
            &&& old(pipeline).target_src matches TargetSrcState::InUse(src) ==> r
                == BusAction::PostToTarget(src)
            &&& old(pipeline).target_src matches TargetSrcState::Pending(src) ==> r
                == BusAction::PostToTarget(src)
            &&& old(pipeline).target_src is Free ==> r is Nothing
        },
        r is SeekInThread <==> message == (BusMessage::StateChanged {
            of_pipeline: true,
            playing: true,
        }) && old(pipeline).pending_seek is Some,
        message is Other ==> r is Nothing,
        !(r is SelectStream),
{
}

/// A pipeline that is set to play from below paused starts with its initial seek;
/// one that failed is not played, and one that is paused or plays keeps its seek.
pub proof fn law_pipeline_starts_with_its_initial_seek(
    pipeline: &mut DecoderPipeline,
    state: Option<PipelineState>,
    r: bool,
)
    requires
        call_ensures(DecoderPipeline::play, (pipeline, state), r),
    ensures
        r <==> state is Some,
        !final(pipeline).tearing_down,
        state is None || state->0 is Paused || state->0 is Playing || old(pipeline).initial_seek
            is None ==> final(pipeline).pending_seek == old(pipeline).pending_seek,
        state is Some && (state->0 is Null || state->0 is Ready || state->0 is VoidPending)
            && old(pipeline).initial_seek is Some
            ==> final(pipeline).pending_seek == old(pipeline).initial_seek,
        *final(pipeline) == (DecoderPipeline {
            tearing_down: false,
            pending_seek: final(pipeline).pending_seek,
            ..*old(pipeline)
        }),
{
}

/// A source that gives a pipeline back and takes it up again is the same source.
pub proof fn law_source_is_remembered(
    first: &mut DecoderPipeline,
    second: &mut DecoderPipeline,
    third: &mut DecoderPipeline,
    src: u64,
    target: Option<u64>,
    kept: Option<u64>,
    pending: Option<u64>,
    playing: Option<u64>,
    has: bool,
    other: u64,
    has_other: bool,
)
    requires
        call_ensures(
            DecoderPipeline::set_target_src,
            (first, TargetSrcState::InUse(src)),
            (),
        ),
        call_ensures(TargetSrcState::src, (&final(first).target_src,), target),
        call_ensures(TargetSrcState::has_target, (&final(first).target_src, src), has),
        call_ensures(TargetSrcState::has_target, (&final(first).target_src, other), has_other),
        *second == *final(first),
        call_ensures(DecoderPipeline::mark_target_src_pending, (second,), ()),
        call_ensures(TargetSrcState::src, (&final(second).target_src,), kept),
        call_ensures(TargetSrcState::pending_src, (&final(second).target_src,), pending),
        *third == *final(second),
        call_ensures(DecoderPipeline::mark_target_src_in_use, (third,), ()),
        call_ensures(TargetSrcState::pending_src, (&final(third).target_src,), playing),
    ensures
        target == Some(src) && kept == Some(src) && pending == Some(src),
        has,
        has_other <==> other == src,
        playing is None,
        *final(third) == *final(first),
        *final(first) == (DecoderPipeline {
            target_src: TargetSrcState::InUse(src),
            unused_since: None,
            ..*old(first)
        }),
        *final(second) == (DecoderPipeline {
            target_src: TargetSrcState::Pending(src),
            ..*final(first)
        }),
{
}

/// A pipeline that is released plays for nobody and no stream; when it was torn
/// down stays known, and so does everything else.
pub proof fn law_released_pipeline_is_free(
    first: &mut DecoderPipeline,
    second: &mut DecoderPipeline,
    third: &mut DecoderPipeline,
    selection: u32,
    now: u64,
)
    requires
        call_ensures(DecoderPipeline::release, (first,), ()),
        *second == *final(first),
        call_ensures(DecoderPipeline::tear_down, (second, selection), ()),
        *third == *final(second),
        call_ensures(DecoderPipeline::torn_down, (third, now), ()),
    ensures
        *final(first) == (DecoderPipeline {
            target_src: TargetSrcState::Free,
            stream: None,
            ..*old(first)
        }),
        *final(third) == (DecoderPipeline {
            target_src: TargetSrcState::Free,
            stream: None,
            tearing_down: true,
            stream_selection_seqnum: selection,
            unused_since: Some(now),
            ..*old(first)
        }),
{
}

/// A pipeline that is stopped is not listened to any more, and forgets every seek
/// of a composition; that is told once.
pub proof fn law_stopped_pipeline_is_silent(
    first: &mut DecoderPipeline,
    second: &mut DecoderPipeline,
    third: &mut DecoderPipeline,
    alive: bool,
    listened: bool,
    again: bool,
    probe: Option<u64>,
    error: bool,
)
    requires
        call_ensures(DecoderPipeline::stop, (first,), listened),
        call_ensures(DecoderPipeline::link_failure_is_error, (&*final(first),), error),
        *second == *final(first),
        call_ensures(DecoderPipeline::stop, (second,), again),
        *third == *final(second),
        call_ensures(DecoderPipeline::stopped, (third, alive), probe),
    ensures
        listened <==> old(first).listening,
        !again && !error,
        *final(first) == (DecoderPipeline { listening: false, ..*old(first) }),
        *final(second) == *final(first),
        final(third).tearing_down && !final(third).listening,
        final(third).seek_handler.state.seek_info is NoSeek,
        final(third).seek_handler.state.nle_seek is None,
        final(third).uri == old(first).uri && final(third).target_src == old(first).target_src,
        alive ==> probe == old(first).seek_handler.state.probe_id,
        !alive ==> probe is None,
{
}

/// A stream selection is sent under the lock; without it, it is tried again until
/// the pipeline is torn down.
pub proof fn law_selection_needs_the_lock(pipeline: DecoderPipeline, locked: bool, r: Selection)
    requires
        call_ensures(DecoderPipeline::try_selection, (&pipeline, locked), r),
    ensures
        r is Send <==> locked,
        r is GiveUp <==> !locked && pipeline.tearing_down,
        r is Retry <==> !locked && !pipeline.tearing_down,
{
}

/// A free sink is linked to any pad, through a converter where there is one for the
/// type of its stream. What is linked is taken down with its pad, together with an
/// element of the pipeline.
pub proof fn law_free_sink_is_linked(
    linked: bool,
    stream_type: Option<u32>,
    peer: Option<bool>,
    r: PadAdded,
    removed: PadRemoved,
)
    requires
        call_ensures(DecoderPipeline::pad_added, (linked, stream_type), r),
        call_ensures(DecoderPipeline::pad_removed, (peer,), removed),
    ensures
        r is AlreadyLinked <==> linked,
        r is VideoFilter <==> !linked && stream_type == Some(STREAM_TYPE_VIDEO),
        r is AudioFilter <==> !linked && stream_type == Some(STREAM_TYPE_AUDIO),
        removed is Nothing <==> peer is None,
        removed is UnlinkAndRemove <==> peer == Some(true),
{
}

/// The stream that was asked for is told as it was asked for; the selected one
/// plays once the sink shows it.
pub proof fn law_requested_stream_is_told(
    pipeline: DecoderPipeline,
    shown: Option<String>,
    requested: Option<String>,
    started: bool,
)
    requires
        pipeline.stream is Some ==> pipeline.stream->0.id is Some,
        call_ensures(DecoderPipeline::requested_stream_id, (&pipeline,), requested),
        call_ensures(DecoderPipeline::requested_stream_started, (&pipeline, &shown), started),
    ensures
        requested == pipeline.stream_id,
        started <==> pipeline.stream is Some && shown is Some && shown->0@
            == pipeline.stream->0.id->0@,
{
}

} // verus!
