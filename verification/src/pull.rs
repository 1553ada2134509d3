//! What sources pull out of the sink of an underlying pipeline, and what they
//! are asked about it.
use vstd::prelude::*;

use crate::values::{FlowError, Sample, Segment, Stream};

verus! {

/// What a source is looking for in the sink.
#[derive(Clone, Copy, Debug, PartialEq, Eq, Structural)]
pub enum Wanted {
    Sample,
    Caps,
    Segment,
}

/// What a source found.
#[derive(Clone, Copy, Debug, PartialEq, Eq, Structural)]
pub enum Object {
    Sample(Sample),
    Caps(u64),
    Segment(Segment),
}

/// What one pull on the sink gave.
#[derive(Clone, Copy, Debug, PartialEq, Eq, Structural)]
pub enum Pulled {
    /// Nothing came; the sink may be at its end.
    Nothing { eos: bool },
    /// A tag event.
    Tag(u64),
    /// A flush ended; this is its sequence number.
    FlushStop(u32),
    /// New caps.
    Caps(u64),
    /// Any other event.
    OtherEvent,
    /// A sample.
    Sample(Sample),
    /// Anything else.
    OtherObject,
}

/// What a source does next.
#[derive(Clone, Copy, Debug, PartialEq, Eq, Structural)]
pub enum Step {
    /// Pull on the sink.
    Pull,
    /// Start over.
    Again,
    /// Wait a moment, then start over.
    WaitAgain,
    /// Push the tag event downstream, then start over.
    ForwardTag(u64),
    /// Set the caps downstream, then start over.
    SetCaps(u64),
    /// The object is found.
    Found(Object),
    /// Nothing will be found.
    Fail(FlowError),
    /// Push the segment downstream; then the stream is at its end.
    PushSegmentThenEos(Segment),
    /// Report that segments other than in time are not handled, and fail.
    ReportThenFail(FlowError),
}

/// What a probe does with the event that it looks at.
#[derive(Clone, Copy, Debug, PartialEq, Eq, Structural)]
pub enum SegmentProbe {
    /// The event does not go on.
    Discard,
    /// A segment event goes on in its place. Without a sequence number it
    /// gets one of its own.
    Replace { segment: Segment, running_time_offset: i64, seqnum: Option<u32> },
}

/// What a probe does with the start of a stream.
#[derive(Debug)]
pub enum StreamStartProbe {
    /// The event does not go on.
    Discard,
    /// The event goes on as it is.
    Pass,
    /// A start of the selected stream, under this identifier, goes on in its
    /// place.
    Replace { stream_id: String, group_id: Option<u32> },
}

/// A question to a source.
#[derive(Debug)]
pub enum QueryKind {
    Uri,
    Duration,
    /// A question named by its structure, if it has one.
    Custom(Option<String>),
    Other,
}

/// How a source answers.
#[derive(Debug)]
pub enum QueryAction {
    /// Put the location into the answer. It is final if `done`; else the base
    /// class goes on with it.
    SetUri { uri: Option<String>, done: bool },
    /// Answer that seeking is possible in every state.
    CanSeekInNull,
    /// Hand the question to the underlying pipeline.
    Pipeline(u64),
    /// Hand the question to the base class.
    Parent,
}

/// The buffers that a source hands out.
#[derive(Clone, Copy, Debug, PartialEq, Eq, Structural)]
pub enum Created {
    Buffer(u64),
    BufferList(u64),
}

/// A message on the bus of an underlying pipeline.
#[derive(Clone, Copy, Debug, PartialEq, Eq, Structural)]
pub enum SourceMessage {
    /// A message that an element made up.
    Element,
    /// A state change, of the pipeline itself or of one of its elements, after
    /// which another one follows or not.
    StateChanged { of_pipeline: bool, settled: bool },
    /// Something went wrong.
    Error,
    Other,
}

/// What a source does about a message.
#[derive(Clone, Copy, Debug, PartialEq, Eq, Structural)]
pub enum SourceMessageAction {
    Ignore,
    /// Stop listening: the pipeline is not the source's any more.
    Disconnect,
    /// Post the message as the source's own.
    Forward,
    /// Tell the base class that starting is complete.
    StartComplete,
}

/// Why a source could not start.
#[derive(Clone, Copy, Debug, PartialEq, Eq, Structural)]
pub enum StartError {
    /// There is no location to play.
    NoUri,
    /// The underlying pipeline could not be set to play.
    Play,
}

/// What the base class is told when caps could not be set: that the pad
/// flushes, or that there was no agreement.
pub fn set_caps_error(pad_flushing: bool) -> (r: FlowError)
    ensures
        r == (if pad_flushing {
            FlowError::Flushing
        } else {
            FlowError::NotNegotiated
        }),
{
    if pad_flushing {
        FlowError::Flushing
    } else {
        FlowError::NotNegotiated
    }
}

/// Equality of two strings, by their characters.
pub fn text_eq(a: &str, b: &str) -> (r: bool)
    ensures
        r == (a@ == b@),
{
    a.to_owned() == b.to_owned()
}

/// The selected stream is the one that the sink is being fed with.
pub open spec fn stream_started(stream: Option<Stream>, pad_stream_id: Option<String>) -> bool {
    &&& stream is Some
    &&& pad_stream_id matches Some(id)
    &&& stream->0.id matches Some(selected)
    &&& id@ == selected@
}

/// Whether the start of the selected stream has reached the sink already.
pub fn requested_stream_started(stream: &Option<Stream>, pad_stream_id: &Option<String>) -> (r:
    bool)
    requires
        stream is Some ==> stream->0.id is Some,
    ensures
        r == stream_started(*stream, *pad_stream_id),
{
    let selected = match stream {
        Some(stream) => match &stream.id {
            Some(id) => id,
            None => {
                return false;
            },
        },
        None => {
            return false;
        },
    };
    match pad_stream_id {
        Some(id) => *id == *selected,
        None => false,
    }
}

/// The identifier under which the start of the selected stream goes on: the
/// one that was asked for, or else the stream's own.
pub open spec fn announced_id(requested: Option<String>, stream: Stream) -> Seq<char> {
    match requested {
        Some(id) => id@,
        None => stream.id->0@,
    }
}

pub fn announce_stream(requested: &Option<String>, stream: &Stream, group_id: Option<u32>) -> (r:
    StreamStartProbe)
    requires
        stream.id is Some,
    ensures
        r matches StreamStartProbe::Replace { stream_id, group_id: g } && stream_id@
            == announced_id(*requested, *stream) && g == group_id,
{
    let stream_id = match requested {
        Some(id) => id.clone(),
        None => stream.id.as_ref().unwrap().clone(),
    };
    StreamStartProbe::Replace { stream_id, group_id }
}

/// The name of the file that the graph of an underlying pipeline is drawn
/// into.
pub fn dot_file_name(prefix: &str, element: &str, pipeline: &str) -> (r: String)
    ensures
        r@ == prefix@ + "-"@ + element@ + "-"@ + pipeline@ + ".dot"@,
{
    let mut name = prefix.to_owned();
    name.append("-");
    name.append(element);
    name.append("-");
    name.append(pipeline);
    name.append(".dot");
    name
}

/// The name of the only child of a source.
pub fn is_pool_child(name: &str) -> (r: bool)
    ensures
        r == (name@ == "pool"@),
{
    text_eq(name, "pool")
}

/// The selected stream plays once the sink shows its identifier, and no other.
pub proof fn law_stream_plays_once_it_is_shown(
    stream: Option<Stream>,
    shown: Option<String>,
    r: bool,
)
    requires
        stream is Some ==> stream->0.id is Some,
        call_ensures(requested_stream_started, (&stream, &shown), r),
    ensures
        r <==> stream is Some && shown is Some && shown->0@ == stream->0.id->0@,
{
}

/// The start of a stream goes on under the identifier that was asked for, or else
/// under its own, in the group that it came in.
pub proof fn law_requested_identifier_is_announced(
    requested: Option<String>,
    stream: Stream,
    group: Option<u32>,
    r: StreamStartProbe,
)
    requires
        stream.id is Some,
        call_ensures(announce_stream, (&requested, &stream, group), r),
    ensures
        r matches StreamStartProbe::Replace { stream_id, group_id } && group_id == group && (
        requested is Some ==> stream_id@ == requested->0@) && (requested is None ==> stream_id@
            == stream.id->0@),
{
}

/// Refused caps mean that the pad flushes, or that there was no agreement.
pub proof fn law_refusal_tells_why(flushing: bool, r: FlowError)
    requires
        call_ensures(set_caps_error, (flushing,), r),
    ensures
        flushing ==> r is Flushing,
        !flushing ==> r is NotNegotiated,
{
}

/// The name of a graph's file begins with the prefix, ends with the extension, and
/// holds both names between.
pub proof fn law_graph_is_named_after_its_pipeline(
    prefix: &str,
    element: &str,
    pipeline: &str,
    r: String,
)
    requires
        call_ensures(dot_file_name, (prefix, element, pipeline), r),
    ensures
        ({
            let n = prefix@.len() as int;
            let m = n + 1 + element@.len();
            let k = m + 1 + pipeline@.len();
            &&& r@.len() == k + 4
            &&& r@.subrange(0, n) == prefix@
            &&& r@[n] == '-' && r@[m] == '-'
            &&& r@.subrange(n + 1, m) == element@
            &&& r@.subrange(m + 1, k) == pipeline@
            &&& r@.subrange(k, k + 4) == seq!['.', 'd', 'o', 't']
        }),
{
    reveal_strlit("-");
    reveal_strlit(".dot");
    let n = prefix@.len() as int;
    let m = n + 1 + element@.len();
    let k = m + 1 + pipeline@.len();
    assert(r@.subrange(0, n) =~= prefix@);
    assert(r@.subrange(n + 1, m) =~= element@);
    assert(r@.subrange(m + 1, k) =~= pipeline@);
    assert(r@.subrange(k, k + 4) =~= seq!['.', 'd', 'o', 't']);
}

/// Texts are equal by their characters; the only child of a source is its pool.
pub proof fn law_texts_compare_by_characters(a: &str, b: &str, r: bool, child: bool)
    requires
        call_ensures(text_eq, (a, b), r),
        call_ensures(is_pool_child, (a,), child),
    ensures
        r <==> a@ == b@,
        child <==> a@ == seq!['p', 'o', 'o', 'l'],
{
    reveal_strlit("pool");
    assert("pool"@ =~= seq!['p', 'o', 'o', 'l']);
}

} // verus!
