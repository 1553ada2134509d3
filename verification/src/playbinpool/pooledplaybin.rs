//! A playback pipeline that belongs to a pool.
use vstd::prelude::*;

use crate::streams::{law_specified_has_id, specified, specified_stream};
use crate::values::{copy_string, Stream};

verus! {

/// What a source wants to play, and the source itself.
#[derive(Debug)]
pub struct Request {
    pub src: u64,
    pub uri: String,
    pub stream_type: u32,
    pub stream_id: Option<String>,
}

/// A pipeline that plays one stream of a location.
#[derive(Debug)]
pub struct PooledPlayBin {
    pub uri: String,
    /// The stream that was selected.
    pub stream: Option<Stream>,
    /// The identifier of the stream that was asked for.
    pub stream_id: Option<String>,
    pub stream_type: u32,
    /// When the pipeline was torn down.
    pub unused_since: Option<u64>,
    /// Messages on the pipeline's bus are looked at.
    pub listening: bool,
    /// The source that the pipeline plays for.
    pub target_src: Option<u64>,
}

impl PooledPlayBin {
    /// The pipeline was set up for a request but does not play yet.
    pub open spec fn set_up(self, uri: Seq<char>, stream_type: u32, stream_id: Option<String>) -> bool {
        &&& self.uri@ == uri
        &&& self.stream is None
        &&& self.stream_id == stream_id
        &&& self.stream_type == stream_type
        &&& self.unused_since is None
        &&& self.listening
    }

    pub fn new(uri: &str, stream_type: u32, stream_id: &Option<String>) -> (r: Self)
        ensures
            r.set_up(uri@, stream_type, *stream_id),
            r.target_src is None,
    {
        PooledPlayBin {
            uri: uri.to_owned(),
            stream: None,
            stream_id: copy_string(stream_id),
            stream_type,
            unused_since: None,
            listening: true,
            target_src: None,
        }
    }

    /// Sets the pipeline up again. Tells whether the bus is to be listened to
    /// anew.
    pub fn reset(&mut self, uri: &str, stream_type: u32, stream_id: &Option<String>) -> (r: bool)
        ensures
            final(self).set_up(uri@, stream_type, *stream_id),
            final(self).target_src == old(self).target_src,
            r == !old(self).listening,
    {
        self.unused_since = None;
        self.stream = None;
        self.stream_id = copy_string(stream_id);
        self.stream_type = stream_type;
        let listen = !self.listening;
        self.listening = true;
        self.uri = uri.to_owned();
        listen
    }

    /// Whether a new pad of the decoder is to be linked to the sink.
    pub fn pad_added(&self, sink_linked: bool) -> (r: bool)
        ensures
            r == !sink_linked,
    {
        !sink_linked
    }

    /// Selects a stream of a collection, and returns its identifier. The type
    /// counts only if no stream was asked for.
    pub fn handle_bus_message(&mut self, streams: &Vec<Stream>) -> (r: Option<String>)
        ensures
            final(self).uri == old(self).uri,
            final(self).stream_id == old(self).stream_id,
            final(self).stream_type == old(self).stream_type,
            final(self).unused_since == old(self).unused_since,
            final(self).listening == old(self).listening,
            final(self).target_src == old(self).target_src,
            match specified(streams@, old(self).stream_id, old(self).stream_type) {
                Some(i) => {
                    &&& final(self).stream == Some(streams@[i])
                    &&& r == streams@[i].id
                    &&& r is Some
                },
                None => r is None && final(self).stream == old(self).stream,
            },
    {
        match specified_stream(streams, &self.stream_id, self.stream_type) {
            Some(i) => {
                proof {
                    law_specified_has_id(streams@, self.stream_id, self.stream_type);
                }
                self.stream = Some(streams[i].clone());
                copy_string(&streams[i].id)
            },
            None => None,
        }
    }

    /// Plays for a source from now on, or for none.
    pub fn set_target_src(&mut self, target_src: Option<u64>)
        ensures
            *final(self) == (PooledPlayBin {
                target_src,
                unused_since: if target_src is Some {
                    None
                } else {
                    old(self).unused_since
                },
                ..*old(self)
            }),
    {
        if target_src.is_some() {
            self.unused_since = None;
        }
        self.target_src = target_src;
    }

    /// The pipeline is not played any more; it is to be torn down.
    pub fn release(&mut self)
        ensures
            *final(self) == (PooledPlayBin { target_src: None, stream: None, ..*old(self) }),
    {
        self.set_target_src(None);
        self.stream = None;
    }

    /// The pipeline was torn down and is ready to be used again.
    pub fn torn_down(&mut self, now: u64)
        ensures
            *final(self) == (PooledPlayBin { unused_since: Some(now), ..*old(self) }),
    {
        self.unused_since = Some(now);
    }

    /// The pipeline will not be used again. Tells whether its bus was listened
    /// to.
    pub fn stop(&mut self) -> (r: bool)
        ensures
            *final(self) == (PooledPlayBin { listening: false, ..*old(self) }),
            r == old(self).listening,
    {
        let listening = self.listening;
        self.listening = false;
        listening
    }
}

/// A pipeline is for what it was made for; so it is when it is set up again,
/// whatever it was for before, and only its source stays.
pub proof fn law_pipeline_is_for_its_request(
    pipeline: &mut PooledPlayBin,
    uri: &str,
    stream_type: u32,
    stream_id: Option<String>,
    fresh: PooledPlayBin,
    listen: bool,
)
    requires
        call_ensures(PooledPlayBin::new, (uri, stream_type, &stream_id), fresh),
        call_ensures(PooledPlayBin::reset, (pipeline, uri, stream_type, &stream_id), listen),
    ensures
        fresh.uri@ == uri@ && fresh.stream_type == stream_type && fresh.stream_id == stream_id,
        fresh.stream is None && fresh.unused_since is None && fresh.target_src is None
            && fresh.listening,
        final(pipeline).uri@ == fresh.uri@,
        final(pipeline).stream_type == stream_type && final(pipeline).stream_id == stream_id,
        final(pipeline).stream is None && final(pipeline).unused_since is None
            && final(pipeline).listening,
        final(pipeline).target_src == old(pipeline).target_src,
        listen <==> !old(pipeline).listening,
{
}

/// A requested stream that is offered is selected; one that is not leaves the
/// pipeline without another.
pub proof fn law_requested_stream_is_selected(
    pipeline: &mut PooledPlayBin,
    streams: Vec<Stream>,
    r: Option<String>,
)
    requires
        call_ensures(PooledPlayBin::handle_bus_message, (pipeline, &streams), r),
    ensures
        r is Some ==> final(pipeline).stream is Some && final(pipeline).stream->0.id == r
            && streams@.contains(final(pipeline).stream->0),
        r is Some && old(pipeline).stream_id is Some ==> r->0@ == old(pipeline).stream_id->0@,
        r is Some && old(pipeline).stream_id is None ==> final(pipeline).stream->0.stream_type
            == old(pipeline).stream_type,
        r is None ==> final(pipeline).stream == old(pipeline).stream,
        r is None && old(pipeline).stream_id is Some ==> forall|j: int|
            0 <= j < streams@.len() ==> !((#[trigger] streams@[j]).id is Some
                && streams@[j].id->0@ == old(pipeline).stream_id->0@),
        r is None && old(pipeline).stream_id is None ==> forall|j: int|
            0 <= j < streams@.len() ==> !((#[trigger] streams@[j]).id is Some
                && streams@[j].stream_type == old(pipeline).stream_type),
        final(pipeline).uri == old(pipeline).uri,
        final(pipeline).stream_id == old(pipeline).stream_id,
        final(pipeline).stream_type == old(pipeline).stream_type,
        final(pipeline).target_src == old(pipeline).target_src,
        final(pipeline).listening == old(pipeline).listening,
        final(pipeline).unused_since == old(pipeline).unused_since,
{
    let id = old(pipeline).stream_id;
    let stream_type = old(pipeline).stream_type;
    law_specified_has_id(streams@, id, stream_type);
    if id is Some {
        crate::streams::law_type_is_ignored_with_a_request(streams@, id, stream_type, stream_type);
        if r is None {
            assert forall|j: int| 0 <= j < streams@.len() implies !((#[trigger] streams@[j]).id
                is Some && streams@[j].id->0@ == id->0@) by {
                assert(!crate::streams::has_id(id->0@)(streams@[j]));
            }
        }
    } else {
        crate::streams::law_fallback_has_type(streams@, id, stream_type);
        if r is None {
            assert forall|j: int| 0 <= j < streams@.len() implies !((#[trigger] streams@[j]).id
                is Some && streams@[j].stream_type == stream_type) by {
                assert(!crate::streams::of_type(stream_type)(streams@[j]));
            }
        }
    }
}

/// A pipeline that plays for a source is used; one that is released plays for none,
/// and is unused from when it was torn down.
pub proof fn law_released_pipeline_is_unused(
    first: &mut PooledPlayBin,
    second: &mut PooledPlayBin,
    third: &mut PooledPlayBin,
    src: u64,
    now: u64,
)
    requires
        call_ensures(PooledPlayBin::set_target_src, (first, Some(src)), ()),
        *second == *final(first),
        call_ensures(PooledPlayBin::release, (second,), ()),
        *third == *final(second),
        call_ensures(PooledPlayBin::torn_down, (third, now), ()),
    ensures
        *final(first) == (PooledPlayBin {
            target_src: Some(src),
            unused_since: None,
            ..*old(first)
        }),
        *final(third) == (PooledPlayBin {
            target_src: None,
            stream: None,
            unused_since: Some(now),
            ..*old(first)
        }),
        final(second).unused_since is None && final(second).target_src is None,
{
}

/// A pipeline is stopped once, and a sink is linked once.
pub proof fn law_pipeline_is_stopped_once(
    first: &mut PooledPlayBin,
    second: &mut PooledPlayBin,
    r: bool,
    again: bool,
    linked: bool,
    link: bool,
)
    requires
        call_ensures(PooledPlayBin::stop, (first,), r),
        *second == *final(first),
        call_ensures(PooledPlayBin::stop, (second,), again),
        call_ensures(PooledPlayBin::pad_added, (&*old(first), linked), link),
    ensures
        r <==> old(first).listening,
        !again,
        *final(second) == (PooledPlayBin { listening: false, ..*old(first) }),
        link <==> !linked,
{
}

} // verus!
