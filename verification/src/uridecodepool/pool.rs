//! A pool of decoding pipelines. A pipeline that ended a composition's seek is
//! kept for the source that played it, so that the source can go on where it
//! ended; the others are torn down and kept for a while, in which they may be
//! used again, before they are stopped.
use std::collections::HashMap;

use vstd::prelude::*;

use crate::lists::{
    disjoint, first_index, is_first, lemma_filter_members, lemma_filter_order, lemma_first_exists,
    lemma_first_is, lemma_inserted, lemma_pushed, lemma_removed, lemma_reversed, not, other_than,
    position, remove_all,
};
use crate::text::{append_decimal, decimal};
use crate::streams::law_requested_stream_wins;
use crate::uridecodepool::decoderpipeline::{
    BusAction, BusMessage, DecoderPipeline, TargetSrcState,
};
use crate::uridecodepool::imp::Caps;
use crate::uridecodepool::seek_handler::State as SeekState;
use crate::pull::text_eq;
use crate::values::{Seek, SeekEvent, Stream, SECOND};

verus! {

broadcast use vstd::std_specs::hash::group_hash_axioms;

/// How long pipelines are kept unused, in seconds, unless told otherwise.
pub const DEFAULT_CLEANUP_TIMEOUT_SEC: u64 = 15;

/// What a source wants to play, and the source itself.
#[derive(Debug)]
pub struct Request {
    pub src: u64,
    /// The source's name, and the number by which a pipeline is named after it.
    pub src_name: String,
    pub number: u32,
    pub uri: String,
    pub caps: Caps,
    pub stream_id: Option<String>,
    pub initial_seek: Option<SeekEvent>,
    /// Two sequence numbers that nothing carries yet.
    pub stream_selection_seqnum: u32,
    pub last_seek_seqnum: u32,
}

/// Where the pipeline that a source gets comes from.
#[derive(Clone, Copy, Debug, PartialEq, Eq, Structural)]
pub enum Origin {
    /// It was kept or prepared for the source.
    Prepared,
    /// It played something else before, and is to be set up again.
    Reused,
    /// It is new, and has to be made.
    Created,
}

/// A pipeline of the pool that is to be played.
#[derive(Clone, Copy, Debug, PartialEq, Eq, Structural)]
pub struct Acquired {
    pub id: u64,
    pub origin: Origin,
}

/// What becomes of a pipeline that a source gives back.
#[derive(Clone, Copy, Debug, PartialEq, Eq, Structural)]
pub enum Released {
    /// It is kept for the source; whether it is still wanted is to be looked
    /// at after this number of seconds.
    Deferred(u64),
    /// It is to be torn down.
    TearDown,
}

/// What becomes of a pipeline that was kept for its source.
#[derive(Debug)]
pub enum DeferredRelease {
    /// It was given back again since, so this is not the time to look at it.
    Stale,
    /// The source plays it.
    Kept,
    /// It is to be torn down. The source that it was kept for, if any, has it
    /// no more; and these pipelines are to be stopped.
    TearDown { src: Option<u64>, stopped: Vec<u64> },
}

/// The pipelines of the pool, and which of them are played, kept and prepared.
#[derive(Debug)]
pub struct UriDecodePool {
    pub records: HashMap<u64, DecoderPipeline>,
    /// Pipelines that sources play.
    pub running: Vec<u64>,
    /// Pipelines that were torn down, the last one first.
    pub pooled: Vec<u64>,
    /// Pipelines that are kept or prepared for a source.
    pub prepared: Vec<u64>,
    /// When each of the pipelines that are kept for their source was given
    /// back.
    pub deferred: HashMap<u64, u64>,
    pub deinitialized: bool,
    /// All pipelines that were not stopped yet, the last one first.
    pub pipelines: Vec<u64>,
    /// The number of the next new pipeline.
    pub next_id: u64,
    /// How long pipelines are kept unused, in seconds.
    pub cleanup_timeout: u64,
    /// The bus that contexts are asked for on.
    pub bus: Option<u64>,
}

pub type Records = Map<u64, DecoderPipeline>;

/// Pipelines that play, or are kept, for a source.
pub open spec fn targeting(records: Records, src: u64) -> spec_fn(u64) -> bool {
    |id: u64| records.contains_key(id) && records[id].target_src.target() == Some(src)
}

/// Pipelines that are prepared for a source, and were not played yet.
pub open spec fn fresh_for(records: Records, src: u64) -> spec_fn(u64) -> bool {
    |id: u64|
        targeting(records, src)(id) && records[id].seek_handler.state.eos_sample() is None
}

/// The seek that a pipeline starts with is none, or what the request starts
/// with.
pub open spec fn starts_alike(initial_seek: Option<SeekEvent>, wanted: Option<SeekEvent>) -> bool {
    match (initial_seek, wanted) {
        (None, _) => true,
        (Some(_), None) => false,
        (Some(own), Some(wanted)) => own.seek.same(wanted.seek),
    }
}

/// Pipelines that can be set up again for a request: they start alike, and
/// play another location, since a decoder cannot switch between streams of
/// different media types in one location.
pub open spec fn reusable(records: Records, request: Request) -> spec_fn(u64) -> bool {
    |id: u64|
        records.contains_key(id) && starts_alike(records[id].initial_seek, request.initial_seek)
            && records[id].uri@ != request.uri@
}

/// Pipelines that have been unused for more than `timeout` seconds.
pub open spec fn expired(records: Records, now: u64, timeout: u64) -> spec_fn(u64) -> bool {
    |id: u64|
        records.contains_key(id) && records[id].unused_since is Some && now
            - records[id].unused_since->0 > timeout * SECOND
}

/// The pipeline is new, was set up for the request, and plays for its source.
pub open spec fn created(record: DecoderPipeline, request: Request) -> bool {
    &&& record.name@ == request.src_name@ + "_"@ + decimal(request.number as nat)
    &&& record.uri@ == request.uri@
    &&& record.stream is None
    &&& record.stream_id == request.stream_id
    &&& record.caps == request.caps
    &&& record.unused_since is None
    &&& record.listening
    &&& record.stream_selection_seqnum == request.stream_selection_seqnum
    &&& record.target_src == TargetSrcState::InUse(request.src)
    &&& record.pending_seek is None
    &&& record.initial_seek == request.initial_seek
    &&& record.last_seek_seqnum == request.last_seek_seqnum
    &&& !record.tearing_down
    &&& record.seek_handler.state == SeekState::initial()
    &&& record.seek_handler.name@ == record.name@
}

/// The pipeline was set up again for the request, and plays for its source.
pub open spec fn reused(before: DecoderPipeline, after: DecoderPipeline, request: Request) -> bool {
    &&& after.uri@ == request.uri@
    &&& after == (DecoderPipeline {
        uri: after.uri,
        caps: request.caps,
        stream_id: request.stream_id,
        stream: None,
        unused_since: None,
        listening: true,
        stream_selection_seqnum: request.stream_selection_seqnum,
        target_src: TargetSrcState::InUse(request.src),
        ..before
    })
}

/// A pipeline that plays for nobody.
pub open spec fn freed(record: DecoderPipeline) -> DecoderPipeline {
    DecoderPipeline { target_src: TargetSrcState::Free, stream: None, ..record }
}

/// The given pipelines are not listened to any more; nothing else changes.
pub open spec fn silences(before: Records, after: Records, ids: Seq<u64>) -> bool {
    &&& after.dom() == before.dom()
    &&& forall|id: u64| #[trigger]
        after.contains_key(id) ==> after[id] == (if ids.contains(id) {
            DecoderPipeline { listening: false, ..before[id] }
        } else {
            before[id]
        })
}

/// The given pipelines play for nobody; nothing else changes.
pub open spec fn frees(before: Records, after: Records, ids: Seq<u64>) -> bool {
    &&& after.dom() == before.dom()
    &&& forall|id: u64| #[trigger]
        after.contains_key(id) ==> after[id] == (if ids.contains(id) {
            freed(before[id])
        } else {
            before[id]
        })
}

impl UriDecodePool {
    /// Every pipeline that is listed anywhere has its record; none is unused,
    /// or yet to be stopped, twice; and those that are unused have been torn
    /// down. A pipeline that was torn down while a source played it, or while it
    /// was kept for one, stays listed there too.
    pub open spec fn wf(&self) -> bool {
        &&& forall|id: u64| #[trigger] self.records@.contains_key(id) ==> id < self.next_id
        &&& self.pooled@.no_duplicates()
        &&& self.pipelines@.no_duplicates()
        &&& forall|id: u64| #[trigger]
            self.running@.contains(id) ==> self.records@.contains_key(id)
        &&& forall|id: u64| #[trigger]
            self.prepared@.contains(id) ==> self.records@.contains_key(id)
        &&& forall|id: u64| #[trigger]
            self.deferred@.contains_key(id) ==> self.records@.contains_key(id)
        &&& forall|id: u64| #[trigger]
            self.pipelines@.contains(id) ==> self.records@.contains_key(id)
        &&& forall|id: u64| #[trigger]
            self.pooled@.contains(id) ==> self.records@.contains_key(id)
                && self.records@[id].unused_since is Some
    }

    /// No pipeline is listed twice.
    pub open spec fn apart(&self) -> bool {
        &&& self.running@.no_duplicates()
        &&& self.prepared@.no_duplicates()
        &&& self.pooled@.no_duplicates()
        &&& disjoint(self.running@, self.prepared@)
        &&& disjoint(self.running@, self.pooled@)
        &&& disjoint(self.prepared@, self.pooled@)
    }

    /// Everything but the records and the lists of pipelines.
    pub open spec fn same_settings(&self, after: &UriDecodePool) -> bool {
        &&& after.deinitialized == self.deinitialized
        &&& after.cleanup_timeout == self.cleanup_timeout
        &&& after.bus == self.bus
    }

    /// How a new pipeline is made.
    pub open spec fn creates(&self, after: &UriDecodePool, request: Request, id: u64) -> bool {
        &&& id == self.next_id
        &&& after.next_id == self.next_id + 1
        &&& after.records@ == self.records@.insert(id, after.records@[id])
        &&& created(after.records@[id], request)
        &&& after.pipelines@ == self.pipelines@.insert(0, id)
        &&& after.pooled == self.pooled
        &&& after.deferred == self.deferred
        &&& self.same_settings(after)
    }

    /// How a pipeline is taken that was not prepared: the first unused one that
    /// can be set up for the request, or else a new one.
    pub open spec fn acquires(&self, after: &UriDecodePool, request: Request, r: Acquired) -> bool {
        match first_index(self.pooled@, reusable(self.records@, request)) {
            Some(i) => {
                &&& r == (Acquired { id: self.pooled@[i], origin: Origin::Reused })
                &&& after.pooled@ == self.pooled@.remove(i)
                &&& after.records@ == self.records@.insert(r.id, after.records@[r.id])
                &&& reused(self.records@[r.id], after.records@[r.id], request)
                &&& after.pipelines == self.pipelines
                &&& after.next_id == self.next_id
                &&& after.deferred == self.deferred
                &&& self.same_settings(after)
            },
            None => r.origin is Created && self.creates(after, request, r.id),
        }
    }

    /// A pipeline is kept, prepared or played for the source.
    pub open spec fn busy_for(&self, src: u64) -> bool {
        let p = targeting(self.records@, src);
        first_index(self.prepared@, p) is Some || first_index(self.running@, p) is Some
    }

    /// How a pipeline is taken to be prepared for a source: one is enough.
    pub open spec fn prepares(
        &self,
        after: &UriDecodePool,
        request: Request,
        r: Option<Acquired>,
    ) -> bool {
        if self.busy_for(request.src) {
            r is None && after == self
        } else {
            &&& r is Some
            &&& self.acquires(after, request, r->0)
            &&& after.running == self.running
            &&& after.prepared == self.prepared
        }
    }

    /// A pipeline that plays is kept for its source; one that does not is to
    /// be torn down.
    pub open spec fn keeps_prepared(&self, after: &UriDecodePool, id: u64, played: bool) -> bool {
        &&& if played {
            &&& after.prepared@ == self.prepared@.push(id)
            &&& after.records == self.records
        } else {
            &&& after.prepared == self.prepared
            &&& after.records@ == self.records@.insert(id, freed(self.records@[id]))
        }
        &&& after.running == self.running
        &&& after.pooled == self.pooled
        &&& after.deferred == self.deferred
        &&& after.pipelines == self.pipelines
        &&& after.next_id == self.next_id
        &&& self.same_settings(after)
    }

    /// How a source gets a pipeline: the first one that is kept or prepared
    /// for it, or else as above.
    pub open spec fn gets(&self, after: &UriDecodePool, request: Request, r: Acquired) -> bool {
        &&& after.running@ == self.running@.push(r.id)
        &&& match first_index(self.prepared@, targeting(self.records@, request.src)) {
            Some(i) => {
                &&& r == (Acquired { id: self.prepared@[i], origin: Origin::Prepared })
                &&& after.prepared@ == self.prepared@.remove(i)
                &&& after.records@ == self.records@.insert(
                    r.id,
                    DecoderPipeline {
                        target_src: TargetSrcState::InUse(request.src),
                        ..self.records@[r.id]
                    },
                )
                &&& after.pooled == self.pooled
                &&& after.deferred == self.deferred
                &&& after.pipelines == self.pipelines
                &&& after.next_id == self.next_id
                &&& self.same_settings(after)
            },
            None => {
                &&& self.acquires(after, request, r)
                &&& after.prepared@ == self.prepared@
            },
        }
    }

    /// How a source gives a pipeline back: one that ended a seek is kept for
    /// the source.
    pub open spec fn releases(&self, after: &UriDecodePool, id: u64, now: u64, r: Released) -> bool {
        &&& after.running@ == self.running@.filter(other_than(id))
        &&& after.pipelines == self.pipelines
        &&& after.next_id == self.next_id
        &&& self.same_settings(after)
        &&& if self.records@[id].seek_handler.state.eos_sample() is Some {
            &&& r == Released::Deferred(
                if self.cleanup_timeout < 1 {
                    1
                } else {
                    self.cleanup_timeout
                },
            )
            &&& after.prepared@ == self.prepared@.insert(0, id)
            &&& after.pooled == self.pooled
            &&& after.deferred@ == self.deferred@.insert(id, now)
            &&& after.records@ == self.records@.insert(
                id,
                DecoderPipeline {
                    target_src: match self.records@[id].target_src.target() {
                        Some(src) => TargetSrcState::Pending(src),
                        None => TargetSrcState::Free,
                    },
                    ..self.records@[id]
                },
            )
        } else {
            &&& r == Released::TearDown
            &&& after.prepared == self.prepared
            &&& after.pooled == self.pooled
            &&& after.deferred@ == self.deferred@.remove(id)
            &&& after.records@ == self.records@.insert(id, freed(self.records@[id]))
        }
    }

    /// Pipelines that have been unused for too long are given up, the last of
    /// them first.
    pub open spec fn cleans_up(
        &self,
        after: &UriDecodePool,
        timeout: u64,
        now: u64,
        r: Seq<u64>,
    ) -> bool {
        let old_ones = expired(self.records@, now, timeout);
        &&& r == self.pooled@.filter(old_ones).reverse()
        &&& after.pooled@ == self.pooled@.filter(not(old_ones))
        &&& silences(self.records@, after.records@, r)
        &&& after.running == self.running
        &&& after.prepared == self.prepared
        &&& after.deferred == self.deferred
        &&& after.pipelines == self.pipelines
        &&& after.next_id == self.next_id
        &&& after.deinitialized == self.deinitialized
        &&& after.bus == self.bus
        &&& after.cleanup_timeout == timeout
    }

    /// A pipeline that was torn down is the first of the unused ones, unless it
    /// is one of them already.
    pub open spec fn takes_back(&self, after: &UriDecodePool, id: u64, now: u64) -> bool {
        &&& after.records@ == self.records@.insert(
            id,
            DecoderPipeline { unused_since: Some(now), ..self.records@[id] },
        )
        &&& after.pooled@ == (if self.pooled@.contains(id) {
            self.pooled@
        } else {
            self.pooled@.insert(0, id)
        })
        &&& after.running == self.running
        &&& after.prepared == self.prepared
        &&& after.deferred == self.deferred
        &&& after.pipelines == self.pipelines
        &&& after.next_id == self.next_id
        &&& self.same_settings(after)
    }

    /// The pipeline is played, kept or unused.
    pub open spec fn listed(&self, id: u64) -> bool {
        ||| self.running@.contains(id)
        ||| self.prepared@.contains(id)
        ||| self.pooled@.contains(id)
        ||| self.deferred@.contains_key(id)
    }

    /// A pipeline that was stopped is gone, but for the record of one that is
    /// listed elsewhere.
    pub open spec fn forgets(&self, after: &UriDecodePool, id: u64) -> bool {
        &&& after.pipelines@ == self.pipelines@.filter(other_than(id))
        &&& after.records@ == (if self.listed(id) {
            self.records@
        } else {
            self.records@.remove(id)
        })
        &&& after.running == self.running
        &&& after.pooled == self.pooled
        &&& after.prepared == self.prepared
        &&& after.deferred == self.deferred
        &&& after.next_id == self.next_id
        &&& self.same_settings(after)
    }

    /// The pipeline that was given back at `since` is looked at unless it was
    /// given back again.
    pub open spec fn is_due(&self, id: u64, since: u64) -> bool {
        &&& self.deferred@.contains_key(id)
        &&& self.deferred@[id] == since
    }

    /// The pipeline is still kept for its source.
    pub open spec fn is_pending(&self, id: u64) -> bool {
        self.records@[id].target_src is Pending
    }

    pub fn new() -> (r: Self)
        ensures
            r.wf(),
            r.records@ == Map::<u64, DecoderPipeline>::empty(),
            r.running@ == Seq::<u64>::empty(),
            r.pooled@ == Seq::<u64>::empty(),
            r.prepared@ == Seq::<u64>::empty(),
            r.deferred@ == Map::<u64, u64>::empty(),
            !r.deinitialized,
            r.pipelines@ == Seq::<u64>::empty(),
            r.next_id == 0,
            r.cleanup_timeout == DEFAULT_CLEANUP_TIMEOUT_SEC,
            r.bus is None,
    {
        UriDecodePool {
            records: HashMap::new(),
            running: Vec::new(),
            pooled: Vec::new(),
            prepared: Vec::new(),
            deferred: HashMap::new(),
            deinitialized: false,
            pipelines: Vec::new(),
            next_id: 0,
            cleanup_timeout: DEFAULT_CLEANUP_TIMEOUT_SEC,
            bus: None,
        }
    }

    pub fn deinitialized(&self) -> (r: bool)
        ensures
            r == self.deinitialized,
    {
        self.deinitialized
    }

    /// The first pipeline of a list that plays, or is kept, for a source.
    fn find_target(&self, list: &Vec<u64>, src: u64) -> (r: Option<usize>)
        ensures
            match r {
                Some(i) => i < list.len() && first_index(list@, targeting(self.records@, src))
                    == Some(i as int) && targeting(self.records@, src)(list@[i as int]),
                None => first_index(list@, targeting(self.records@, src)) is None,
            },
    {
        let ghost p = targeting(self.records@, src);
        let mut i: usize = 0;
        while i < list.len()
            invariant
                i <= list.len(),
                p == targeting(self.records@, src),
                forall|j: int| 0 <= j < i ==> !p(#[trigger] list@[j]),
            decreases list.len() - i,
        {
            let found = match self.records.get(&list[i]) {
                Some(record) => record.target_src.has_target(src),
                None => false,
            };
            if found {
                proof {
                    assert(is_first(list@, p, i as int));
                    lemma_first_is(list@, p, i as int);
                }
                return Some(i);
            }
            i += 1;
        }
        None
    }

    /// The first pipeline that is prepared for a source and was not played
    /// yet.
    fn find_fresh(&self, src: u64) -> (r: Option<usize>)
        ensures
            match r {
                Some(i) => i < self.prepared.len() && first_index(
                    self.prepared@,
                    fresh_for(self.records@, src),
                ) == Some(i as int) && fresh_for(self.records@, src)(self.prepared@[i as int]),
                None => first_index(self.prepared@, fresh_for(self.records@, src)) is None,
            },
    {
        let ghost p = fresh_for(self.records@, src);
        let mut i: usize = 0;
        while i < self.prepared.len()
            invariant
                i <= self.prepared.len(),
                p == fresh_for(self.records@, src),
                forall|j: int| 0 <= j < i ==> !p(#[trigger] self.prepared@[j]),
            decreases self.prepared.len() - i,
        {
            let found = match self.records.get(&self.prepared[i]) {
                Some(record) => record.target_src.has_target(src)
                    && !record.seek_handler.has_eos_sample(),
                None => false,
            };
            if found {
                proof {
                    assert(is_first(self.prepared@, p, i as int));
                    lemma_first_is(self.prepared@, p, i as int);
                }
                return Some(i);
            }
            i += 1;
        }
        None
    }

    /// The name of a new pipeline.
    fn pipeline_name(request: &Request) -> (r: String)
        ensures
            r@ == request.src_name@ + "_"@ + decimal(request.number as nat),
    {
        let mut name = request.src_name.clone();
        name.append("_");
        append_decimal(&mut name, request.number as u64);
        name
    }

    /// The first unused pipeline that can be set up for a request.
    fn find_reusable(&self, request: &Request) -> (r: Option<usize>)
        ensures
            match r {
                Some(i) => i < self.pooled.len() && first_index(
                    self.pooled@,
                    reusable(self.records@, *request),
                ) == Some(i as int) && reusable(self.records@, *request)(self.pooled@[i as int]),
                None => first_index(self.pooled@, reusable(self.records@, *request)) is None,
            },
    {
        let ghost p = reusable(self.records@, *request);
        let mut i: usize = 0;
        while i < self.pooled.len()
            invariant
                i <= self.pooled.len(),
                p == reusable(self.records@, *request),
                forall|j: int| 0 <= j < i ==> !p(#[trigger] self.pooled@[j]),
            decreases self.pooled.len() - i,
        {
            let found = match self.records.get(&self.pooled[i]) {
                Some(record) => {
                    let alike = match (record.initial_seek, request.initial_seek) {
                        (None, _) => true,
                        (Some(_), None) => false,
                        (Some(own), Some(wanted)) => own.seek.equals(&wanted.seek),
                    };
                    alike && !text_eq(record.uri.as_str(), request.uri.as_str())
                },
                None => false,
            };
            if found {
                proof {
                    assert(is_first(self.pooled@, p, i as int));
                    lemma_first_is(self.pooled@, p, i as int);
                }
                return Some(i);
            }
            i += 1;
        }
        None
    }

    /// Takes a pipeline that was not prepared.
    fn get_unused_or_create_pipeline(&mut self, request: &Request) -> (r: Acquired)
        requires
            old(self).wf(),
            old(self).next_id < u64::MAX,
        ensures
            final(self).wf(),
            old(self).acquires(final(self), *request, r),
            final(self).running == old(self).running,
            final(self).prepared == old(self).prepared,
            final(self).records@.contains_key(r.id),
    {
        match self.find_reusable(request) {
            Some(i) => {
                proof {
                    assert(self.pooled@.contains(self.pooled@[i as int]));
                    lemma_removed(self.pooled@, i as int);
                }
                let id: u64 = self.pooled.remove(i);
                let mut record = self.records.remove(&id).unwrap();
                record.reset(
                    request.uri.as_str(),
                    &request.caps,
                    &request.stream_id,
                    request.stream_selection_seqnum,
                );
                record.set_target_src(TargetSrcState::InUse(request.src));
                self.records.insert(id, record);
                proof {
                    assert(self.records@ =~= old(self).records@.insert(id, self.records@[id]));
                }
                Acquired { id, origin: Origin::Reused }
            },
            None => Acquired { id: self.create_pipeline(request), origin: Origin::Created },
        }
    }

    /// Makes a pipeline for a source.
    fn create_pipeline(&mut self, request: &Request) -> (r: u64)
        requires
            old(self).wf(),
            old(self).next_id < u64::MAX,
        ensures
            final(self).wf(),
            old(self).creates(final(self), *request, r),
            final(self).running == old(self).running,
            final(self).prepared == old(self).prepared,
    {
        let id: u64 = self.next_id;
        let name = Self::pipeline_name(request);
        let mut record = DecoderPipeline::new(
            name.as_str(),
            request.uri.as_str(),
            &request.caps,
            &request.stream_id,
            request.initial_seek,
            request.stream_selection_seqnum,
            request.last_seek_seqnum,
        );
        record.set_target_src(TargetSrcState::InUse(request.src));
        self.records.insert(id, record);
        self.pipelines.insert(0, id);
        self.next_id = id + 1;
        proof {
            assert(!old(self).records@.contains_key(id));
            assert(!old(self).pipelines@.contains(id));
            lemma_inserted(old(self).pipelines@, id);
        }
        id
    }

    /// Takes a pipeline to be played ahead of its source, unless the source
    /// has one already.
    pub fn prepare_pipeline(&mut self, request: &Request) -> (r: Option<Acquired>)
        requires
            old(self).wf(),
            old(self).next_id < u64::MAX,
        ensures
            final(self).wf(),
            old(self).prepares(final(self), *request, r),
            r matches Some(acquired) ==> final(self).records@.contains_key(acquired.id),
    {
        if self.find_target(&self.prepared, request.src).is_some() {
            return None;
        }
        if self.find_target(&self.running, request.src).is_some() {
            return None;
        }
        Some(self.get_unused_or_create_pipeline(request))
    }

    /// Keeps the pipeline that was taken last for its source, if it could be
    /// set to play; else it is to be torn down.
    pub fn pipeline_prepared(&mut self, id: u64, played: bool) -> (r: bool)
        requires
            old(self).wf(),
            old(self).records@.contains_key(id),
        ensures
            final(self).wf(),
            old(self).keeps_prepared(final(self), id, played),
            r == played,
    {
        if played {
            proof {
                lemma_pushed(self.prepared@, id);
            }
            self.prepared.push(id);
            true
        } else {
            self.free(id);
            false
        }
    }

    fn free(&mut self, id: u64)
        requires
            old(self).wf(),
            old(self).records@.contains_key(id),
        ensures
            final(self).wf(),
            final(self).records@ == old(self).records@.insert(id, freed(old(self).records@[id])),
            final(self).running == old(self).running,
            final(self).pooled == old(self).pooled,
            final(self).prepared == old(self).prepared,
            final(self).deferred == old(self).deferred,
            final(self).pipelines == old(self).pipelines,
            final(self).next_id == old(self).next_id,
            old(self).same_settings(final(self)),
    {
        let mut record = self.records.remove(&id).unwrap();
        record.release();
        self.records.insert(id, record);
        proof {
            assert(self.records@ =~= old(self).records@.insert(id, freed(old(self).records@[id])));
        }
    }

    /// Gives a source a pipeline to play.
    pub fn get(&mut self, request: &Request) -> (r: Acquired)
        requires
            old(self).wf(),
            old(self).next_id < u64::MAX,
        ensures
            final(self).wf(),
            old(self).gets(final(self), *request, r),
    {
        match self.find_target(&self.prepared, request.src) {
            Some(i) => {
                proof {
                    assert(self.prepared@.contains(self.prepared@[i as int]));
                    lemma_removed(self.prepared@, i as int);
                }
                let id: u64 = self.prepared.remove(i);
                let mut record = self.records.remove(&id).unwrap();
                record.mark_target_src_in_use();
                self.records.insert(id, record);
                proof {
                    assert(self.records@ =~= old(self).records@.insert(id, self.records@[id]));
                    lemma_pushed(self.running@, id);
                }
                self.running.push(id);
                Acquired { id, origin: Origin::Prepared }
            },
            None => {
                let acquired = self.get_unused_or_create_pipeline(request);
                proof {
                    lemma_pushed(self.running@, acquired.id);
                }
                self.running.push(acquired.id);
                acquired
            },
        }
    }

    /// Gives up the pipeline that was prepared for a source and not played
    /// yet. It is to be torn down.
    pub fn unprepare_pipeline(&mut self, src: u64) -> (r: Option<u64>)
        requires
            old(self).wf(),
        ensures
            final(self).wf(),
            match first_index(old(self).prepared@, fresh_for(old(self).records@, src)) {
                Some(i) => {
                    &&& r == Some(old(self).prepared@[i])
                    &&& final(self).prepared@ == old(self).prepared@.remove(i)
                    &&& final(self).records@ == old(self).records@.insert(
                        r->0,
                        freed(old(self).records@[r->0]),
                    )
                    &&& final(self).running == old(self).running
                    &&& final(self).pooled == old(self).pooled
                    &&& final(self).deferred == old(self).deferred
                    &&& final(self).pipelines == old(self).pipelines
                    &&& final(self).next_id == old(self).next_id
                    &&& old(self).same_settings(final(self))
                },
                None => r is None && *final(self) == *old(self),
            },
    {
        match self.find_fresh(src) {
            Some(i) => {
                proof {
                    lemma_removed(self.prepared@, i as int);
                }
                let id: u64 = self.prepared.remove(i);
                self.free(id);
                Some(id)
            },
            None => None,
        }
    }

    /// Takes a pipeline back from its source at `now`.
    pub fn release(&mut self, id: u64, now: u64) -> (r: Released)
        requires
            old(self).wf(),
            old(self).records@.contains_key(id),
        ensures
            final(self).wf(),
            old(self).releases(final(self), id, now, r),
    {
        remove_all(&mut self.running, id);
        proof {
            lemma_filter_members(old(self).running@, other_than(id));
        }
        let has_eos_sample = match self.records.get(&id) {
            Some(record) => record.seek_handler.has_eos_sample(),
            None => false,
        };
        if has_eos_sample {
            let mut record = self.records.remove(&id).unwrap();
            record.mark_target_src_pending();
            self.records.insert(id, record);
            let timeout: u64 = if self.cleanup_timeout < 1 {
                1
            } else {
                self.cleanup_timeout
            };
            self.prepared.insert(0, id);
            self.deferred.insert(id, now);
            proof {
                assert(self.records@ =~= old(self).records@.insert(id, self.records@[id]));
                lemma_inserted(old(self).prepared@, id);
            }
            Released::Deferred(timeout)
        } else {
            self.deferred.remove(&id);
            self.free(id);
            Released::TearDown
        }
    }

    /// Looks at a pipeline that was given back at `since` and kept for its
    /// source: if the source does not play it, it is given up.
    pub fn deferred_release(&mut self, id: u64, since: u64, now: u64) -> (r: DeferredRelease)
        requires
            old(self).wf(),
        ensures
            final(self).wf(),
            if !old(self).is_due(id, since) {
                r is Stale && *final(self) == *old(self)
            } else if old(self).is_pending(id) || old(self).deinitialized {
                &&& r matches DeferredRelease::TearDown { src, stopped }
                &&& src == (match old(self).records@[id].target_src {
                    TargetSrcState::Pending(src) => Some(src),
                    _ => None,
                })
                &&& ({
                    let freed_records = old(self).records@.insert(
                        id,
                        freed(old(self).records@[id]),
                    );
                    let old_ones = expired(freed_records, now, old(self).cleanup_timeout);
                    &&& stopped@ == old(self).pooled@.filter(old_ones).reverse()
                    &&& final(self).pooled@ == old(self).pooled@.filter(not(old_ones))
                    &&& silences(freed_records, final(self).records@, stopped@)
                })
                &&& final(self).deferred@ == old(self).deferred@.remove(id)
                &&& final(self).running == old(self).running
                &&& final(self).prepared == old(self).prepared
                &&& final(self).pipelines == old(self).pipelines
                &&& final(self).next_id == old(self).next_id
                &&& old(self).same_settings(final(self))
            } else {
                &&& r is Kept
                &&& final(self).deferred@ == old(self).deferred@.remove(id)
                &&& final(self).records == old(self).records
                &&& final(self).pooled == old(self).pooled
                &&& final(self).running == old(self).running
                &&& final(self).prepared == old(self).prepared
                &&& final(self).pipelines == old(self).pipelines
                &&& final(self).next_id == old(self).next_id
                &&& old(self).same_settings(final(self))
            },
    {
        match self.deferred.get(&id) {
            Some(created) => {
                if *created != since {
                    return DeferredRelease::Stale;
                }
            },
            None => {
                return DeferredRelease::Stale;
            },
        }
        let pending_src: Option<u64> = match self.records.get(&id) {
            Some(record) => record.target_src.pending_src(),
            None => None,
        };
        self.deferred.remove(&id);
        if pending_src.is_some() || self.deinitialized {
            self.free(id);
            let stopped = self.cleanup(now);
            DeferredRelease::TearDown { src: pending_src, stopped }
        } else {
            DeferredRelease::Kept
        }
    }

    /// Keeps a pipeline that was torn down at `now`. The pool is to be cleaned
    /// up once the returned number of seconds has passed.
    pub fn pipeline_released(&mut self, id: u64, now: u64) -> (r: u64)
        requires
            old(self).wf(),
            old(self).records@.contains_key(id),
        ensures
            final(self).wf(),
            r == old(self).cleanup_timeout,
            old(self).takes_back(final(self), id, now),
    {
        let mut record = self.records.remove(&id).unwrap();
        record.torn_down(now);
        self.records.insert(id, record);
        proof {
            assert(self.records@ =~= old(self).records@.insert(id, self.records@[id]));
        }
        if position(&self.pooled, id).is_none() {
            self.pooled.insert(0, id);
            proof {
                lemma_inserted(old(self).pooled@, id);
            }
        }
        self.cleanup_timeout
    }

    /// Forgets a pipeline that was stopped, unless it is listed elsewhere.
    pub fn pipeline_stopped(&mut self, id: u64)
        requires
            old(self).wf(),
        ensures
            final(self).wf(),
            old(self).forgets(final(self), id),
    {
        remove_all(&mut self.pipelines, id);
        proof {
            lemma_filter_members(old(self).pipelines@, other_than(id));
        }
        let listed = position(&self.running, id).is_some() || position(&self.prepared, id).is_some()
            || position(&self.pooled, id).is_some() || self.deferred.contains_key(&id);
        if !listed {
            self.records.remove(&id);
        }
    }

    fn is_expired(&self, id: u64, now: u64) -> (r: bool)
        ensures
            r == expired(self.records@, now, self.cleanup_timeout)(id),
    {
        let timeout: u128 = self.cleanup_timeout as u128 * 1_000_000_000u128;
        match self.records.get(&id) {
            Some(record) => match record.unused_since {
                Some(since) => now >= since && (now - since) as u128 > timeout,
                None => false,
            },
            None => false,
        }
    }

    /// Gives up the pipelines that have been unused for too long at `now`, and
    /// returns them: they are to be stopped.
    pub fn cleanup(&mut self, now: u64) -> (r: Vec<u64>)
        requires
            old(self).wf(),
        ensures
            final(self).wf(),
            old(self).cleans_up(final(self), old(self).cleanup_timeout, now, r@),
    {
        let ghost p = expired(self.records@, now, self.cleanup_timeout);
        let mut kept: Vec<u64> = Vec::new();
        let mut cleaned_up: Vec<u64> = Vec::new();
        let mut i: usize = 0;
        proof {
            reveal(Seq::filter);
            assert(self.pooled@.take(0) =~= Seq::<u64>::empty());
            assert(Seq::<u64>::empty().reverse() =~= Seq::<u64>::empty());
        }
        while i < self.pooled.len()
            invariant
                *self == *old(self),
                p == expired(self.records@, now, self.cleanup_timeout),
                i <= self.pooled.len(),
                kept@ == self.pooled@.take(i as int).filter(not(p)),
                cleaned_up@ == self.pooled@.take(i as int).filter(p).reverse(),
            decreases self.pooled.len() - i,
        {
            let id: u64 = self.pooled[i];
            proof {
                reveal(Seq::filter);
                assert(self.pooled@.take(i + 1).drop_last() =~= self.pooled@.take(i as int));
                let f = self.pooled@.take(i as int).filter(p);
                assert(f.push(id).reverse() =~= f.reverse().insert(0, id));
            }
            if self.is_expired(id, now) {
                cleaned_up.insert(0, id);
            } else {
                kept.push(id);
            }
            i += 1;
        }
        proof {
            assert(self.pooled@.take(self.pooled@.len() as int) =~= self.pooled@);
            lemma_filter_members(self.pooled@, p);
            lemma_filter_members(self.pooled@, not(p));
            lemma_reversed(self.pooled@.filter(p));
        }
        self.pooled = kept;
        let mut k: usize = 0;
        proof {
            assert(cleaned_up@.take(0) =~= Seq::<u64>::empty());
        }
        while k < cleaned_up.len()
            invariant
                k <= cleaned_up.len(),
                cleaned_up@.no_duplicates(),
                forall|id: u64| #[trigger]
                    cleaned_up@.contains(id) ==> old(self).records@.contains_key(id),
                silences(old(self).records@, self.records@, cleaned_up@.take(k as int)),
                self.pooled@ == old(self).pooled@.filter(not(p)),
                self.running == old(self).running,
                self.prepared == old(self).prepared,
                self.deferred == old(self).deferred,
                self.pipelines == old(self).pipelines,
                self.next_id == old(self).next_id,
                old(self).same_settings(self),
            decreases cleaned_up.len() - k,
        {
            let id: u64 = cleaned_up[k];
            let ghost before = self.records@;
            let ghost taken = cleaned_up@.take(k as int);
            proof {
                assert(cleaned_up@.contains(id));
                assert(cleaned_up@.take(k + 1) =~= taken.push(id));
                assert(!taken.contains(id)) by {
                    if taken.contains(id) {
                        let j = choose|j: int| 0 <= j < taken.len() && taken[j] == id;
                        assert(cleaned_up@[j] == cleaned_up@[k as int]);
                    }
                }
                assert(before.contains_key(id));
            }
            let mut record = self.records.remove(&id).unwrap();
            record.stop();
            self.records.insert(id, record);
            proof {
                assert(self.records@.dom() =~= before.dom());
                assert forall|x: u64| #[trigger] self.records@.contains_key(x) implies self.records@[x]
                    == (if taken.push(id).contains(x) {
                    DecoderPipeline { listening: false, ..old(self).records@[x] }
                } else {
                    old(self).records@[x]
                }) by {
                    assert(before.contains_key(x));
                    assert(taken.push(id)[k as int] == id);
                    if taken.contains(x) {
                        let j = choose|j: int| 0 <= j < taken.len() && taken[j] == x;
                        assert(taken.push(id)[j] == x);
                    } else if x != id && taken.push(id).contains(x) {
                        let j = choose|j: int|
                            0 <= j < taken.push(id).len() && taken.push(id)[j] == x;
                        assert(taken[j] == x);
                    }
                }
            }
            k += 1;
        }
        proof {
            assert(cleaned_up@.take(cleaned_up@.len() as int) =~= cleaned_up@);
            assert forall|id: u64| #[trigger] self.pooled@.contains(id) implies {
                &&& self.records@.contains_key(id)
                &&& self.records@[id].unused_since is Some
            } by {
                assert(old(self).pooled@.contains(id));
            }
        }
        cleaned_up
    }

    /// Sets how long pipelines are kept unused, in seconds, and cleans up.
    pub fn set_cleanup_timeout(&mut self, timeout: u64, now: u64) -> (r: Vec<u64>)
        requires
            old(self).wf(),
        ensures
            final(self).wf(),
            old(self).cleans_up(final(self), timeout, now, r@),
    {
        self.cleanup_timeout = timeout;
        self.cleanup(now)
    }

    /// Shuts the pool down: nothing is kept unused any more, and every pipeline
    /// is given up. Returns the pipelines to stop, and those to tear down, each
    /// with the source that has it no more.
    pub fn deinit(&mut self, now: u64) -> (r: (Vec<u64>, Vec<(u64, Option<u64>)>))
        requires
            old(self).wf(),
        ensures
            final(self).wf(),
            final(self).deinitialized,
            final(self).cleanup_timeout == 0,
            r.0@ == old(self).pooled@.filter(expired(old(self).records@, now, 0)).reverse(),
            final(self).pooled@ == old(self).pooled@.filter(
                not(expired(old(self).records@, now, 0)),
            ),
            r.1@ == old(self).pipelines@.map_values(
                |id: u64| (id, old(self).records@[id].target_src.target()),
            ),
            final(self).records@.dom() == old(self).records@.dom(),
            forall|id: u64| #[trigger]
                final(self).records@.contains_key(id) ==> {
                    let silent = if r.0@.contains(id) {
                        DecoderPipeline { listening: false, ..old(self).records@[id] }
                    } else {
                        old(self).records@[id]
                    };
                    final(self).records@[id] == (if old(self).pipelines@.contains(id) {
                        freed(silent)
                    } else {
                        silent
                    })
                },
            final(self).running == old(self).running,
            final(self).prepared == old(self).prepared,
            final(self).deferred == old(self).deferred,
            final(self).pipelines == old(self).pipelines,
            final(self).next_id == old(self).next_id,
            final(self).bus == old(self).bus,
    {
        let stopped = self.set_cleanup_timeout(0, now);
        self.deinitialized = true;
        let ghost mid = self.records@;
        let mut released: Vec<(u64, Option<u64>)> = Vec::new();
        let mut i: usize = 0;
        while i < self.pipelines.len()
            invariant
                self.wf(),
                i <= self.pipelines.len(),
                silences(old(self).records@, mid, stopped@),
                frees(mid, self.records@, self.pipelines@.take(i as int)),
                released@.len() == i,
                forall|j: int|
                    0 <= j < i ==> #[trigger] released@[j] == (
                        self.pipelines@[j],
                        old(self).records@[self.pipelines@[j]].target_src.target(),
                    ),
                self.deinitialized,
                self.cleanup_timeout == 0,
                self.pooled@ == old(self).pooled@.filter(
                    not(expired(old(self).records@, now, 0)),
                ),
                self.running == old(self).running,
                self.prepared == old(self).prepared,
                self.deferred == old(self).deferred,
                self.pipelines == old(self).pipelines,
                self.next_id == old(self).next_id,
                self.bus == old(self).bus,
            decreases self.pipelines.len() - i,
        {
            let id: u64 = self.pipelines[i];
            let ghost before = self.records@;
            let ghost taken = self.pipelines@.take(i as int);
            proof {
                assert(self.pipelines@.contains(id));
                assert(self.pipelines@.take(i + 1) =~= taken.push(id));
                assert(!taken.contains(id)) by {
                    if taken.contains(id) {
                        let j = choose|j: int| 0 <= j < taken.len() && taken[j] == id;
                        assert(self.pipelines@[j] == self.pipelines@[i as int]);
                    }
                }
                assert(before.contains_key(id));
                assert(mid.contains_key(id));
            }
            let src: Option<u64> = match self.records.get(&id) {
                Some(record) => record.target_src.src(),
                None => None,
            };
            released.push((id, src));
            self.free(id);
            proof {
                assert(self.records@.dom() =~= mid.dom());
                assert forall|x: u64| #[trigger] self.records@.contains_key(x) implies self.records@[x]
                    == (if taken.push(id).contains(x) {
                    freed(mid[x])
                } else {
                    mid[x]
                }) by {
                    assert(before.contains_key(x));
                    assert(taken.push(id)[i as int] == id);
                    if taken.contains(x) {
                        let j = choose|j: int| 0 <= j < taken.len() && taken[j] == x;
                        assert(taken.push(id)[j] == x);
                    } else if x != id && taken.push(id).contains(x) {
                        let j = choose|j: int|
                            0 <= j < taken.push(id).len() && taken.push(id)[j] == x;
                        assert(taken[j] == x);
                    }
                }
            }
            i += 1;
        }
        proof {
            assert(self.pipelines@.take(self.pipelines@.len() as int) =~= self.pipelines@);
            assert forall|id: u64| #[trigger] self.records@.contains_key(id) implies mid.contains_key(
                id,
            ) by {}
        }
        (stopped, released)
    }

    /// Whether the last pipeline was stopped, so that shutting down is done.
    pub fn is_drained(&self) -> (r: bool)
        ensures
            r == (self.pipelines@.len() == 0),
    {
        self.pipelines.len() == 0
    }

    /// The pipeline with the given number.
    pub fn pipeline(&self, id: u64) -> (r: Option<&DecoderPipeline>)
        ensures
            match r {
                Some(record) => self.records@.contains_key(id) && *record == self.records@[id],
                None => !self.records@.contains_key(id),
            },
    {
        self.records.get(&id)
    }

    /// Hands the pipeline with the given number out, to be put back by
    /// `put_pipeline`.
    pub fn take_pipeline(&mut self, id: u64) -> (r: Option<DecoderPipeline>)
        ensures
            match r {
                Some(record) => old(self).records@.contains_key(id) && record == old(
                    self,
                ).records@[id],
                None => !old(self).records@.contains_key(id),
            },
            *final(self) == (UriDecodePool { records: final(self).records, ..*old(self) }),
            final(self).records@ == old(self).records@.remove(id),
    {
        self.records.remove(&id)
    }

    /// Puts a pipeline that was handed out back.
    pub fn put_pipeline(&mut self, id: u64, record: DecoderPipeline)
        ensures
            *final(self) == (UriDecodePool { records: final(self).records, ..*old(self) }),
            final(self).records@ == old(self).records@.insert(id, record),
    {
        self.records.insert(id, record);
    }
}

/// A pipeline may be handed out and put back, changed in anything but when it
/// was torn down, without harm to the pool.
pub proof fn law_put_back_is_harmless(
    start: &UriDecodePool,
    end: &UriDecodePool,
    id: u64,
    record: DecoderPipeline,
)
    requires
        start.wf(),
        start.records@.contains_key(id),
        record.unused_since == start.records@[id].unused_since,
        *end == (UriDecodePool { records: end.records, ..*start }),
        end.records@ == start.records@.remove(id).insert(id, record),
    ensures
        end.wf(),
{
    assert forall|x: u64| #[trigger] end.records@.contains_key(x) implies x < end.next_id by {
        assert(start.records@.contains_key(x));
    }
    assert forall|x: u64| #[trigger] end.pipelines@.contains(x) implies end.records@.contains_key(
        x,
    ) by {
        assert(start.pipelines@.contains(x));
    }
    assert forall|x: u64| #[trigger] end.pooled@.contains(x) implies end.records@.contains_key(x)
        && end.records@[x].unused_since is Some by {
        assert(start.pooled@.contains(x));
    }
    assert(start.running@ == end.running@ && start.prepared@ == end.prepared@);
    assert forall|x: u64| #[trigger] end.running@.contains(x) implies end.records@.contains_key(
        x,
    ) by {
        assert(start.running@.contains(x));
    }
    assert forall|x: u64| #[trigger] end.prepared@.contains(x) implies end.records@.contains_key(
        x,
    ) by {
        assert(start.prepared@.contains(x));
    }
    assert forall|x: u64| #[trigger] end.deferred@.contains_key(x) implies end.records@.contains_key(
        x,
    ) by {
        assert(start.deferred@.contains_key(x));
    }
}

/// A pipeline that was prepared for a source is the one that the source gets,
/// whatever the source asks for by then.
pub proof fn law_prepared_pipeline_is_used(
    start: &UriDecodePool,
    taken: &UriDecodePool,
    ready: &UriDecodePool,
    end: &UriDecodePool,
    request: Request,
    prepared: Acquired,
    later: Request,
    got: Acquired,
)
    requires
        start.wf(),
        start.prepares(taken, request, Some(prepared)),
        taken.keeps_prepared(ready, prepared.id, true),
        later.src == request.src,
        ready.gets(end, later, got),
    ensures
        got == (Acquired { id: prepared.id, origin: Origin::Prepared }),
{
    let id = prepared.id;
    let p = targeting(ready.records@, request.src);
    let n = start.prepared@.len() as int;
    assert(ready.prepared@[n] == id);
    assert(p(ready.prepared@[n]));
    lemma_first_exists(ready.prepared@, p, n);
    let k = first_index(ready.prepared@, p)->0;
    if k < n && ready.prepared@[k] != id {
        assert(start.prepared@.contains(start.prepared@[k]));
        assert(targeting(start.records@, request.src)(start.prepared@[k]));
        lemma_first_exists(start.prepared@, targeting(start.records@, request.src), k);
    }
}

/// Nothing is prepared for a source that has a pipeline: one that it plays, or
/// one that is prepared or kept for it.
pub proof fn law_prepare_is_refused_while_busy(
    start: &UriDecodePool,
    end: &UriDecodePool,
    request: Request,
    r: Option<Acquired>,
    id: u64,
)
    requires
        start.prepared@.contains(id) || start.running@.contains(id),
        start.records@.contains_key(id),
        start.records@[id].target_src.target() == Some(request.src),
        start.prepares(end, request, r),
    ensures
        r is None,
        end == start,
{
    let p = targeting(start.records@, request.src);
    if start.prepared@.contains(id) {
        let i = choose|i: int| 0 <= i < start.prepared@.len() && start.prepared@[i] == id;
        lemma_first_exists(start.prepared@, p, i);
    } else {
        let i = choose|i: int| 0 <= i < start.running@.len() && start.running@[i] == id;
        lemma_first_exists(start.running@, p, i);
    }
}

/// A pipeline that ended a seek, once its source gave it back, is the one that
/// this source gets next: it goes on with the sample that was kept.
pub proof fn law_ended_pipeline_goes_on(
    start: &UriDecodePool,
    kept: &UriDecodePool,
    end: &UriDecodePool,
    id: u64,
    now: u64,
    released: Released,
    request: Request,
    got: Acquired,
)
    requires
        start.records@.contains_key(id),
        start.records@[id].target_src.target() == Some(request.src),
        start.records@[id].seek_handler.state.eos_sample() is Some,
        start.releases(kept, id, now, released),
        kept.gets(end, request, got),
    ensures
        got == (Acquired { id, origin: Origin::Prepared }),
        end.records@[id].seek_handler == start.records@[id].seek_handler,
{
    let p = targeting(kept.records@, request.src);
    assert(kept.prepared@[0] == id);
    assert(is_first(kept.prepared@, p, 0));
    lemma_first_is(kept.prepared@, p, 0);
}

/// A pipeline that its source took up again before its time came is not given
/// up then.
pub proof fn law_resumed_pipeline_is_kept(
    kept: &UriDecodePool,
    playing: &UriDecodePool,
    id: u64,
    request: Request,
    got: Acquired,
)
    requires
        kept.gets(playing, request, got),
        got == (Acquired { id, origin: Origin::Prepared }),
    ensures
        !playing.is_pending(id),
{
}

/// A pipeline that was torn down is used again for the next source that plays
/// another location and starts alike: it is set up for that source, and no
/// pipeline is made.
pub proof fn law_released_pipeline_is_reused(
    released: &UriDecodePool,
    unused: &UriDecodePool,
    end: &UriDecodePool,
    id: u64,
    now: u64,
    request: Request,
    got: Acquired,
)
    requires
        released.records@.contains_key(id),
        !released.pooled@.contains(id),
        starts_alike(released.records@[id].initial_seek, request.initial_seek),
        released.records@[id].uri@ != request.uri@,
        released.takes_back(unused, id, now),
        first_index(unused.prepared@, targeting(unused.records@, request.src)) is None,
        unused.gets(end, request, got),
    ensures
        got == (Acquired { id, origin: Origin::Reused }),
        end.pooled@ == released.pooled@,
        end.pipelines@ == released.pipelines@,
        end.records@[id].uri@ == request.uri@,
        end.records@[id].target_src == TargetSrcState::InUse(request.src),
{
    let p = reusable(unused.records@, request);
    assert(unused.pooled@[0] == id);
    assert(is_first(unused.pooled@, p, 0));
    lemma_first_is(unused.pooled@, p, 0);
    assert(released.pooled@.insert(0, id).remove(0) =~= released.pooled@);
}

/// Whenever some unused pipeline can be set up for a request, one of them is
/// taken and none is made.
pub proof fn law_unused_pipelines_come_first(
    start: &UriDecodePool,
    end: &UriDecodePool,
    id: u64,
    request: Request,
    got: Acquired,
)
    requires
        start.pooled@.contains(id),
        reusable(start.records@, request)(id),
        start.acquires(end, request, got),
    ensures
        got.origin is Reused,
        start.pooled@.contains(got.id),
        end.pooled@.len() == start.pooled@.len() - 1,
        end.next_id == start.next_id,
{
    let i = choose|i: int| 0 <= i < start.pooled@.len() && start.pooled@[i] == id;
    lemma_first_exists(start.pooled@, reusable(start.records@, request), i);
}

/// A pipeline that was given back anew waits for its full time: what was due
/// for the last time it was given back is void.
pub proof fn law_release_restarts_the_clock(
    start: &UriDecodePool,
    end: &UriDecodePool,
    id: u64,
    earlier: u64,
    now: u64,
    released: Released,
)
    requires
        start.releases(end, id, now, released),
        earlier != now,
    ensures
        !end.is_due(id, earlier),
        released is Deferred && start.records@.contains_key(id) ==> end.is_due(id, now),
        released is TearDown ==> !end.is_due(id, now),
{
}

/// No two sources play through one pipeline: the one that a source gets was
/// played by none, unless one that is played was torn down or kept meanwhile
/// and could be given to this source.
pub proof fn law_pipelines_are_not_shared(
    start: &UriDecodePool,
    end: &UriDecodePool,
    request: Request,
    got: Acquired,
)
    requires
        start.wf(),
        forall|id: u64| #[trigger]
            start.running@.contains(id) ==> {
                &&& !(start.prepared@.contains(id) && targeting(start.records@, request.src)(id))
                &&& !(start.pooled@.contains(id) && reusable(start.records@, request)(id))
            },
        start.gets(end, request, got),
    ensures
        !start.running@.contains(got.id),
        end.running@.contains(got.id),
{
    assert(end.running@[start.running@.len() as int] == got.id);
    let kept = targeting(start.records@, request.src);
    let unused = reusable(start.records@, request);
    match first_index(start.prepared@, kept) {
        Some(i) => {
            assert(is_first(start.prepared@, kept, i));
            assert(start.prepared@.contains(got.id));
        },
        None => match first_index(start.pooled@, unused) {
            Some(i) => {
                assert(is_first(start.pooled@, unused, i));
                assert(start.pooled@.contains(got.id));
            },
            None => {
                assert(!start.records@.contains_key(start.next_id));
            },
        },
    }
}

/// As long as no pipeline is listed twice, none is after a source got one.
pub proof fn law_getting_keeps_lists_apart(
    start: &UriDecodePool,
    end: &UriDecodePool,
    request: Request,
    got: Acquired,
)
    requires
        start.wf(),
        start.apart(),
        start.gets(end, request, got),
    ensures
        end.apart(),
{
    law_pipelines_are_not_shared(start, end, request, got);
    lemma_pushed(start.running@, got.id);
    let kept = targeting(start.records@, request.src);
    let unused = reusable(start.records@, request);
    match first_index(start.prepared@, kept) {
        Some(i) => {
            assert(is_first(start.prepared@, kept, i));
            assert(start.prepared@.contains(got.id));
            lemma_removed(start.prepared@, i);
        },
        None => match first_index(start.pooled@, unused) {
            Some(i) => {
                assert(is_first(start.pooled@, unused, i));
                assert(start.pooled@.contains(got.id));
                lemma_removed(start.pooled@, i);
            },
            None => {
                assert(!start.records@.contains_key(start.next_id));
            },
        },
    }
}

/// Nor after a source gave back the one that it plays, and that one was torn
/// down.
pub proof fn law_releasing_keeps_lists_apart(
    start: &UriDecodePool,
    released: &UriDecodePool,
    end: &UriDecodePool,
    id: u64,
    now: u64,
    later: u64,
    r: Released,
)
    requires
        start.apart(),
        start.running@.contains(id),
        start.releases(released, id, now, r),
    ensures
        released.apart(),
        !released.running@.contains(id),
        r is TearDown && released.takes_back(end, id, later) ==> end.apart(),
{
    lemma_filter_members(start.running@, other_than(id));
    lemma_inserted(start.prepared@, id);
    lemma_inserted(start.pooled@, id);
}

/// An unused pipeline is kept until it has been unused for more than the
/// timeout, and no longer.
pub proof fn law_kept_for_the_timeout(
    start: &UriDecodePool,
    end: &UriDecodePool,
    timeout: u64,
    now: u64,
    stopped: Seq<u64>,
    id: u64,
)
    requires
        start.wf(),
        start.cleans_up(end, timeout, now, stopped),
        start.pooled@.contains(id),
    ensures
        ({
            let overdue = now - start.records@[id].unused_since->0 > timeout * SECOND;
            &&& end.pooled@.contains(id) <==> !overdue
            &&& stopped.contains(id) <==> overdue
        }),
{
    let p = expired(start.records@, now, timeout);
    lemma_filter_members(start.pooled@, p);
    lemma_filter_members(start.pooled@, not(p));
    lemma_reversed(start.pooled@.filter(p));
    assert(start.pooled@.filter(p).contains(id) <==> p(id));
    assert(start.pooled@.filter(not(p)).contains(id) <==> !p(id));
}

/// Once the pool was shut down, a pipeline that is torn down is stopped by the
/// next clean-up, and then there is one less to wait for.
pub proof fn law_shut_down_stops_what_comes_back(
    start: &UriDecodePool,
    unused: &UriDecodePool,
    silent: &UriDecodePool,
    end: &UriDecodePool,
    id: u64,
    since: u64,
    now: u64,
    stopped: Seq<u64>,
)
    requires
        start.wf(),
        start.pipelines@.contains(id),
        start.takes_back(unused, id, since),
        start.cleanup_timeout == 0,
        unused.cleans_up(silent, unused.cleanup_timeout, now, stopped),
        silent.forgets(end, id),
        now > since,
    ensures
        stopped.contains(id),
        !end.pipelines@.contains(id),
        forall|other: u64|
            other != id ==> (#[trigger] end.pipelines@.contains(other)
                <==> start.pipelines@.contains(other)),
{
    let p = expired(unused.records@, now, 0);
    if !start.pooled@.contains(id) {
        assert(unused.pooled@[0] == id);
    }
    assert(unused.pooled@.contains(id));
    lemma_filter_members(unused.pooled@, p);
    lemma_reversed(unused.pooled@.filter(p));
    assert(unused.pooled@.filter(p).contains(id));
    lemma_filter_members(silent.pipelines@, other_than(id));
}

/// What a source gets that was not prepared for it plays what the source asked for,
/// whether it is new or played something else before.
pub proof fn law_source_plays_what_it_asked_for(
    pool: &mut UriDecodePool,
    request: Request,
    got: Acquired,
)
    requires
        !(got.origin is Prepared),
        call_ensures(UriDecodePool::get, (pool, &request), got),
    ensures
        final(pool).records@.contains_key(got.id),
        final(pool).records@[got.id].uri@ == request.uri@,
        final(pool).records@[got.id].caps == request.caps,
        final(pool).records@[got.id].stream_id == request.stream_id,
        final(pool).records@[got.id].stream_selection_seqnum == request.stream_selection_seqnum,
        final(pool).records@[got.id].target_src == TargetSrcState::InUse(request.src),
        final(pool).records@[got.id].stream is None,
        final(pool).records@[got.id].unused_since is None,
        final(pool).records@[got.id].listening,
        final(pool).running@ == old(pool).running@.push(got.id),
        final(pool).prepared@ == old(pool).prepared@,
        final(pool).deferred@ == old(pool).deferred@,
        final(pool).deinitialized == old(pool).deinitialized,
        final(pool).cleanup_timeout == old(pool).cleanup_timeout,
        final(pool).bus == old(pool).bus,
{
    lemma_acquired(&*old(pool), &*final(pool), request, got);
}

/// So does what is prepared for a source; it is played by nobody yet.
pub proof fn law_prepared_pipeline_plays_what_was_asked_for(
    pool: &mut UriDecodePool,
    request: Request,
    got: Acquired,
)
    requires
        call_ensures(UriDecodePool::prepare_pipeline, (pool, &request), Some(got)),
    ensures
        !(got.origin is Prepared),
        final(pool).records@.contains_key(got.id),
        final(pool).records@[got.id].uri@ == request.uri@,
        final(pool).records@[got.id].caps == request.caps,
        final(pool).records@[got.id].stream_id == request.stream_id,
        final(pool).records@[got.id].stream_selection_seqnum == request.stream_selection_seqnum,
        final(pool).records@[got.id].target_src == TargetSrcState::InUse(request.src),
        final(pool).records@[got.id].stream is None,
        final(pool).records@[got.id].unused_since is None,
        final(pool).records@[got.id].listening,
        final(pool).running@ == old(pool).running@,
        final(pool).prepared@ == old(pool).prepared@,
        final(pool).deferred@ == old(pool).deferred@,
        final(pool).deinitialized == old(pool).deinitialized,
        final(pool).cleanup_timeout == old(pool).cleanup_timeout,
        final(pool).bus == old(pool).bus,
{
    lemma_acquired(&*old(pool), &*final(pool), request, got);
}

/// A new pipeline starts as the request says, under the name of its source and its
/// number; the other pipelines stay as they are.
pub proof fn law_new_pipeline_starts_as_asked_for(
    pool: &mut UriDecodePool,
    other_pool: &mut UriDecodePool,
    request: Request,
    id: u64,
    prepared: u64,
)
    requires
        call_ensures(
            UriDecodePool::get,
            (pool, &request),
            (Acquired { id, origin: Origin::Created }),
        ),
        call_ensures(
            UriDecodePool::prepare_pipeline,
            (other_pool, &request),
            Some(Acquired { id: prepared, origin: Origin::Created }),
        ),
    ensures
        starts_as_asked_for(&*old(pool), &*final(pool), request, id),
        starts_as_asked_for(&*old(other_pool), &*final(other_pool), request, prepared),
{
    lemma_acquired(
        &*old(pool),
        &*final(pool),
        request,
        Acquired { id, origin: Origin::Created },
    );
    lemma_acquired(
        &*old(other_pool),
        &*final(other_pool),
        request,
        Acquired { id: prepared, origin: Origin::Created },
    );
}

/// The pipeline is the last one that was made, it has the request's seek and numbers,
/// it is named after the source, and it has done nothing yet.
pub open spec fn starts_as_asked_for(
    before: &UriDecodePool,
    after: &UriDecodePool,
    request: Request,
    id: u64,
) -> bool {
    let record = after.records@[id];
    let n = request.src_name@.len() as int;
    &&& id == before.next_id && after.next_id == id + 1
    &&& record.initial_seek == request.initial_seek
    &&& record.last_seek_seqnum == request.last_seek_seqnum
    &&& record.pending_seek is None && !record.tearing_down
    &&& record.seek_handler.state.seek_info is NoSeek && record.seek_handler.state.nle_seek is None
    &&& record.seek_handler.name@ == record.name@
    &&& record.name@.len() > n + 1
    &&& record.name@.subrange(0, n) == request.src_name@
    &&& record.name@[n] == '_'
    &&& record.name@.subrange(n + 1, record.name@.len() as int) == decimal(request.number as nat)
    &&& after.pipelines@ == seq![id] + before.pipelines@
    &&& after.pooled@ == before.pooled@
    &&& forall|x: u64|
        x != id ==> (#[trigger] after.records@.contains_key(x) <==> before.records@.contains_key(x))
            && (before.records@.contains_key(x) ==> after.records@[x] == before.records@[x])
}

/// A pipeline that is used again was an unused one that played another location and
/// starts with no seek or the request's; it keeps its name and its seeks, and the
/// other pipelines stay as they are.
pub proof fn law_unused_pipeline_is_set_up_again(
    pool: &mut UriDecodePool,
    request: Request,
    id: u64,
    x: u64,
)
    requires
        call_ensures(
            UriDecodePool::get,
            (pool, &request),
            (Acquired { id, origin: Origin::Reused }),
        ),
    ensures
        old(pool).pooled@.contains(id),
        final(pool).pooled@.len() == old(pool).pooled@.len() - 1,
        x != id ==> (final(pool).pooled@.contains(x) <==> old(pool).pooled@.contains(x)),
        old(pool).records@.contains_key(id),
        old(pool).records@[id].uri@ != request.uri@,
        old(pool).records@[id].initial_seek matches Some(own) ==> request.initial_seek is Some
            && own.seek.rate.same(request.initial_seek->0.seek.rate) && own.seek == (Seek {
            rate: own.seek.rate,
            ..request.initial_seek->0.seek
        }),
        final(pool).records@[id].name == old(pool).records@[id].name,
        final(pool).records@[id].initial_seek == old(pool).records@[id].initial_seek,
        final(pool).records@[id].pending_seek == old(pool).records@[id].pending_seek,
        final(pool).records@[id].last_seek_seqnum == old(pool).records@[id].last_seek_seqnum,
        final(pool).records@[id].tearing_down == old(pool).records@[id].tearing_down,
        final(pool).records@[id].seek_handler == old(pool).records@[id].seek_handler,
        final(pool).pipelines@ == old(pool).pipelines@,
        final(pool).next_id == old(pool).next_id,
        x != id ==> (final(pool).records@.contains_key(x) <==> old(pool).records@.contains_key(x)),
        x != id && old(pool).records@.contains_key(x)
            ==> final(pool).records@[x] == old(pool).records@[x],
{
    let p = reusable(old(pool).records@, request);
    let i = first_index(old(pool).pooled@, p)->0;
    assert(is_first(old(pool).pooled@, p, i));
    lemma_removed(old(pool).pooled@, i);
}

/// Where a request can be met by an unused pipeline, none is made: the first one that
/// played another location and starts with no seek, or with an equal one, is taken.
pub proof fn law_first_suitable_pipeline_is_used_again(
    pool: &mut UriDecodePool,
    request: Request,
    got: Acquired,
    i: int,
)
    requires
        0 <= i < old(pool).pooled@.len(),
        old(pool).records@.contains_key(old(pool).pooled@[i]),
        old(pool).records@[old(pool).pooled@[i]].uri@ != request.uri@,
        old(pool).records@[old(pool).pooled@[i]].initial_seek matches Some(own)
            ==> request.initial_seek is Some && own.seek.rate.same(
            request.initial_seek->0.seek.rate,
        ) && own.seek == (Seek { rate: own.seek.rate, ..request.initial_seek->0.seek }),
        call_ensures(UriDecodePool::get, (pool, &request), got),
    ensures
        !(got.origin is Created),
        got.origin is Reused ==> exists|k: int| 0 <= k <= i && #[trigger] old(pool).pooled@[k]
            == got.id,
{
    let p = reusable(old(pool).records@, request);
    lemma_first_exists(old(pool).pooled@, p, i);
    let k = first_index(old(pool).pooled@, p)->0;
    if k > i {
        assert(!p(old(pool).pooled@[i]));
    }
    assert(old(pool).pooled@[k] == old(pool).pooled@[k]);
}

/// The source gets the first of the pipelines that are kept or prepared for it, as it
/// is, and plays it from then on; every other pipeline stays as it is.
pub proof fn law_first_kept_pipeline_is_played(
    pool: &mut UriDecodePool,
    request: Request,
    got: Acquired,
    i: int,
    x: u64,
)
    requires
        0 <= i < old(pool).prepared@.len(),
        old(pool).records@.contains_key(old(pool).prepared@[i]),
        old(pool).records@[old(pool).prepared@[i]].target_src == TargetSrcState::InUse(request.src)
            || old(pool).records@[old(pool).prepared@[i]].target_src == TargetSrcState::Pending(
            request.src,
        ),
        call_ensures(UriDecodePool::get, (pool, &request), got),
    ensures
        got.origin is Prepared,
        exists|k: int|
            0 <= k <= i && #[trigger] old(pool).prepared@[k] == got.id && final(pool).prepared@
                == old(pool).prepared@.remove(k),
        final(pool).records@[got.id] == (DecoderPipeline {
            target_src: TargetSrcState::InUse(request.src),
            ..old(pool).records@[got.id]
        }),
        old(pool).records@[got.id].target_src == TargetSrcState::InUse(request.src)
            || old(pool).records@[got.id].target_src == TargetSrcState::Pending(request.src),
        final(pool).running@ == old(pool).running@.push(got.id),
        final(pool).pooled@ == old(pool).pooled@,
        final(pool).pipelines@ == old(pool).pipelines@,
        final(pool).deferred@ == old(pool).deferred@,
        final(pool).next_id == old(pool).next_id,
        x != got.id ==> (final(pool).records@.contains_key(x)
            <==> old(pool).records@.contains_key(x)),
        x != got.id && old(pool).records@.contains_key(x)
            ==> final(pool).records@[x] == old(pool).records@[x],
{
    let p = targeting(old(pool).records@, request.src);
    assert(p(old(pool).prepared@[i]));
    lemma_first_exists(old(pool).prepared@, p, i);
    let k = first_index(old(pool).prepared@, p)->0;
    if k > i {
        assert(!p(old(pool).prepared@[i]));
    }
    assert(old(pool).prepared@[k] == got.id);
    assert(p(got.id));
}

/// A pipeline that is handed out as prepared was meant for the source.
pub proof fn law_nothing_else_counts_as_prepared(
    pool: &mut UriDecodePool,
    request: Request,
    id: u64,
)
    requires
        call_ensures(
            UriDecodePool::get,
            (pool, &request),
            (Acquired { id, origin: Origin::Prepared }),
        ),
    ensures
        old(pool).prepared@.contains(id),
        old(pool).records@.contains_key(id),
        old(pool).records@[id].target_src == TargetSrcState::InUse(request.src)
            || old(pool).records@[id].target_src == TargetSrcState::Pending(request.src),
{
    let p = targeting(old(pool).records@, request.src);
    assert(first_index(old(pool).prepared@, p) is Some) by {
        if first_index(old(pool).prepared@, p) is None {
            lemma_acquired(
                &*old(pool),
                &*final(pool),
                request,
                Acquired { id, origin: Origin::Prepared },
            );
        }
    }
    let i = first_index(old(pool).prepared@, p)->0;
    assert(is_first(old(pool).prepared@, p, i));
}

/// Nothing is prepared for a source exactly where it has a pipeline already.
pub proof fn law_one_pipeline_is_enough(
    pool: &mut UriDecodePool,
    request: Request,
    r: Option<Acquired>,
    x: u64,
)
    requires
        call_ensures(UriDecodePool::prepare_pipeline, (pool, &request), r),
    ensures
        r is None ==> *final(pool) == *old(pool) && exists|id: u64|
            (old(pool).prepared@.contains(id) || old(pool).running@.contains(id))
                && #[trigger] old(pool).records@.contains_key(id)
                && (old(pool).records@[id].target_src
                == TargetSrcState::InUse(request.src) || old(pool).records@[id].target_src
                == TargetSrcState::Pending(request.src)),
        r is Some && (old(pool).prepared@.contains(x) || old(pool).running@.contains(x))
            && old(pool).records@.contains_key(x) ==> old(pool).records@[x].target_src
            != TargetSrcState::InUse(request.src) && old(pool).records@[x].target_src
            != TargetSrcState::Pending(request.src),
{
    let p = targeting(old(pool).records@, request.src);
    if r is None {
        if first_index(old(pool).prepared@, p) is Some {
            let i = first_index(old(pool).prepared@, p)->0;
            assert(is_first(old(pool).prepared@, p, i));
            let id = old(pool).prepared@[i];
            assert(old(pool).prepared@.contains(id) && old(pool).records@.contains_key(id));
        } else {
            let i = first_index(old(pool).running@, p)->0;
            assert(is_first(old(pool).running@, p, i));
            let id = old(pool).running@[i];
            assert(old(pool).running@.contains(id) && old(pool).records@.contains_key(id));
        }
    } else if p(x) {
        if old(pool).prepared@.contains(x) {
            let i = choose|i: int| 0 <= i < old(pool).prepared@.len()
                && old(pool).prepared@[i] == x;
            lemma_first_exists(old(pool).prepared@, p, i);
        }
        if old(pool).running@.contains(x) {
            let i = choose|i: int| 0 <= i < old(pool).running@.len() && old(pool).running@[i] == x;
            lemma_first_exists(old(pool).running@, p, i);
        }
    }
}

proof fn lemma_acquired(
    before: &UriDecodePool,
    after: &UriDecodePool,
    request: Request,
    got: Acquired,
)
    requires
        before.acquires(after, request, got),
    ensures
        !(got.origin is Prepared),
        after.records@.contains_key(got.id),
        got.origin is Created ==> starts_as_asked_for(before, after, request, got.id),
{
    reveal_strlit("_");
    let record = after.records@[got.id];
    let n = request.src_name@.len() as int;
    if got.origin is Created {
        crate::text::lemma_decimal_is_not_empty(request.number as nat);
        assert(record.name@.subrange(0, n) =~= request.src_name@);
        assert(record.name@.subrange(n + 1, record.name@.len() as int) =~= decimal(
            request.number as nat,
        ));
        assert(after.pipelines@ =~= seq![got.id] + before.pipelines@);
    }
}

/// Whatever pipeline a source gets that was not prepared, of the streams that it offers
/// it selects the one that the source asked for.
pub proof fn law_requested_stream_is_played(
    pool: &mut UriDecodePool,
    record: &mut DecoderPipeline,
    request: Request,
    got: Acquired,
    streams: Vec<Stream>,
    has_bus: bool,
    i: int,
    r: BusAction,
)
    requires
        !(got.origin is Prepared),
        call_ensures(UriDecodePool::get, (pool, &request), got),
        *record == final(pool).records@[got.id],
        request.stream_id is Some,
        0 <= i < streams@.len(),
        streams@[i].id is Some,
        streams@[i].id->0@ == request.stream_id->0@,
        call_ensures(
            DecoderPipeline::handle_bus_message,
            (record, &BusMessage::StreamCollection(streams), has_bus),
            r,
        ),
    ensures
        r matches BusAction::SelectStream { stream_id, seqnum } && stream_id@
            == request.stream_id->0@ && seqnum == request.stream_selection_seqnum,
        final(record).stream is Some && final(record).stream->0.id is Some
            && final(record).stream->0.id->0@ == request.stream_id->0@,
{
    law_requested_stream_wins(
        streams@,
        request.stream_id,
        crate::uridecodepool::decoderpipeline::type_of_caps(request.caps.name),
        i,
    );
}

/// A pipeline that is to be prepared is kept for its source if it could be set to play,
/// else it plays for nobody.
pub proof fn law_only_playing_pipelines_are_prepared(
    pool: &mut UriDecodePool,
    id: u64,
    played: bool,
    r: bool,
)
    requires
        call_ensures(UriDecodePool::pipeline_prepared, (pool, id, played), r),
    ensures
        r == played,
        played ==> final(pool).prepared@ == old(pool).prepared@.push(id) && final(pool).records@
            == old(pool).records@,
        !played ==> final(pool).prepared@ == old(pool).prepared@
            && final(pool).records@ == old(pool).records@.insert(
            id,
            DecoderPipeline {
                target_src: TargetSrcState::Free,
                stream: None,
                ..old(pool).records@[id]
            },
        ),
        final(pool).running@ == old(pool).running@,
        final(pool).pooled@ == old(pool).pooled@,
        final(pool).deferred@ == old(pool).deferred@,
        final(pool).pipelines@ == old(pool).pipelines@,
        final(pool).next_id == old(pool).next_id,
        final(pool).deinitialized == old(pool).deinitialized,
        final(pool).cleanup_timeout == old(pool).cleanup_timeout,
        final(pool).bus == old(pool).bus,
{
}

/// What was prepared for a source and not played yet is given up, the first of it; what
/// ended a seek is kept.
pub proof fn law_fresh_pipeline_is_given_up(
    pool: &mut UriDecodePool,
    src: u64,
    r: Option<u64>,
    i: int,
)
    requires
        call_ensures(UriDecodePool::unprepare_pipeline, (pool, src), r),
    ensures
        r matches Some(id) ==> {
            &&& old(pool).prepared@.contains(id) && old(pool).records@.contains_key(id)
            &&& old(pool).records@[id].target_src == TargetSrcState::InUse(src)
                || old(pool).records@[id].target_src == TargetSrcState::Pending(src)
            &&& !(old(pool).records@[id].seek_handler.state.seek_info is PreviousSeekDone)
            &&& final(pool).prepared@.len() == old(pool).prepared@.len() - 1
            &&& final(pool).records@ == old(pool).records@.insert(
                id,
                DecoderPipeline {
                    target_src: TargetSrcState::Free,
                    stream: None,
                    ..old(pool).records@[id]
                },
            )
            &&& final(pool).running@ == old(pool).running@
            &&& final(pool).pooled@ == old(pool).pooled@
            &&& final(pool).deferred@ == old(pool).deferred@
            &&& final(pool).pipelines@ == old(pool).pipelines@
        },
        r is None ==> *final(pool) == *old(pool),
        0 <= i < old(pool).prepared@.len() && old(pool).records@.contains_key(
            old(pool).prepared@[i],
        ) && (old(pool).records@[old(pool).prepared@[i]].target_src == TargetSrcState::InUse(src)
            || old(pool).records@[old(pool).prepared@[i]].target_src == TargetSrcState::Pending(
            src,
        )) && !(old(pool).records@[old(pool).prepared@[i]].seek_handler.state.seek_info
            is PreviousSeekDone) ==> exists|k: int|
            0 <= k <= i && r == Some(#[trigger] old(pool).prepared@[k]) && final(pool).prepared@
                == old(pool).prepared@.remove(k),
{
    let p = fresh_for(old(pool).records@, src);
    if first_index(old(pool).prepared@, p) is Some {
        let k = first_index(old(pool).prepared@, p)->0;
        assert(is_first(old(pool).prepared@, p, k));
        if 0 <= i < old(pool).prepared@.len() && p(old(pool).prepared@[i]) {
            if k > i {
                assert(!p(old(pool).prepared@[i]));
            }
            assert(r == Some(old(pool).prepared@[k]));
        }
    } else if 0 <= i < old(pool).prepared@.len() && p(old(pool).prepared@[i]) {
        lemma_first_exists(old(pool).prepared@, p, i);
    }
}

/// A pipeline that ended a seek is kept for its source, before all others, for the
/// timeout but at least a second.
pub proof fn law_ended_pipeline_is_kept(
    pool: &mut UriDecodePool,
    id: u64,
    now: u64,
    r: Released,
    x: u64,
)
    requires
        old(pool).records@[id].seek_handler.state.seek_info is PreviousSeekDone,
        call_ensures(UriDecodePool::release, (pool, id, now), r),
    ensures
        r matches Released::Deferred(timeout) && timeout >= 1
            && timeout >= old(pool).cleanup_timeout && (timeout == 1
            || timeout == old(pool).cleanup_timeout),
        final(pool).prepared@ == seq![id] + old(pool).prepared@,
        final(pool).deferred@ == old(pool).deferred@.insert(id, now),
        old(pool).records@[id].target_src is Free ==> final(pool).records@[id].target_src is Free,
        old(pool).records@[id].target_src matches TargetSrcState::InUse(src)
            ==> final(pool).records@[id].target_src == TargetSrcState::Pending(src),
        old(pool).records@[id].target_src matches TargetSrcState::Pending(src)
            ==> final(pool).records@[id].target_src == TargetSrcState::Pending(src),
        final(pool).records@ == old(pool).records@.insert(
            id,
            DecoderPipeline {
                target_src: final(pool).records@[id].target_src,
                ..old(pool).records@[id]
            },
        ),
        !final(pool).running@.contains(id),
        x != id ==> (final(pool).running@.contains(x) <==> old(pool).running@.contains(x)),
        final(pool).pooled@ == old(pool).pooled@,
        final(pool).pipelines@ == old(pool).pipelines@,
        final(pool).next_id == old(pool).next_id,
        final(pool).deinitialized == old(pool).deinitialized,
        final(pool).cleanup_timeout == old(pool).cleanup_timeout,
        final(pool).bus == old(pool).bus,
{
    lemma_filter_members(old(pool).running@, other_than(id));
    assert(final(pool).prepared@ =~= seq![id] + old(pool).prepared@);
}

/// Any other pipeline plays for nobody once it is given back, and is to be torn down.
pub proof fn law_other_pipelines_are_torn_down(
    pool: &mut UriDecodePool,
    id: u64,
    now: u64,
    r: Released,
    x: u64,
)
    requires
        !(old(pool).records@[id].seek_handler.state.seek_info is PreviousSeekDone),
        call_ensures(UriDecodePool::release, (pool, id, now), r),
    ensures
        r is TearDown,
        final(pool).prepared@ == old(pool).prepared@,
        final(pool).deferred@ == old(pool).deferred@.remove(id),
        final(pool).records@ == old(pool).records@.insert(
            id,
            DecoderPipeline {
                target_src: TargetSrcState::Free,
                stream: None,
                ..old(pool).records@[id]
            },
        ),
        !final(pool).running@.contains(id),
        x != id ==> (final(pool).running@.contains(x) <==> old(pool).running@.contains(x)),
        final(pool).pooled@ == old(pool).pooled@,
        final(pool).pipelines@ == old(pool).pipelines@,
        final(pool).next_id == old(pool).next_id,
        final(pool).deinitialized == old(pool).deinitialized,
        final(pool).cleanup_timeout == old(pool).cleanup_timeout,
        final(pool).bus == old(pool).bus,
{
    lemma_filter_members(old(pool).running@, other_than(id));
}

/// A source that takes up the pipeline that it gave back goes on with it, and then it
/// is not given up when its time comes.
pub proof fn law_source_goes_on_with_its_pipeline(
    first: &mut UriDecodePool,
    second: &mut UriDecodePool,
    third: &mut UriDecodePool,
    id: u64,
    since: u64,
    now: u64,
    request: Request,
    released: Released,
    got: Acquired,
    due: DeferredRelease,
)
    requires
        old(first).records@[id].seek_handler.state.seek_info is PreviousSeekDone,
        old(first).records@[id].target_src == TargetSrcState::InUse(request.src),
        !old(first).deinitialized,
        call_ensures(UriDecodePool::release, (first, id, since), released),
        *second == *final(first),
        call_ensures(UriDecodePool::get, (second, &request), got),
        *third == *final(second),
        call_ensures(UriDecodePool::deferred_release, (third, id, since, now), due),
    ensures
        got == (Acquired { id, origin: Origin::Prepared }),
        final(third).records@[id] == old(first).records@[id],
        due is Kept,
        final(third).prepared@ == old(first).prepared@,
        final(third).running@.last() == id,
{
    let p = targeting(final(first).records@, request.src);
    assert(final(first).prepared@[0] == id);
    assert(is_first(final(first).prepared@, p, 0));
    lemma_first_is(final(first).prepared@, p, 0);
    assert(old(first).prepared@.insert(0, id).remove(0) =~= old(first).prepared@);
}

/// A pipeline that was given back again since is not looked at.
pub proof fn law_stale_release_changes_nothing(
    pool: &mut UriDecodePool,
    id: u64,
    since: u64,
    now: u64,
    r: DeferredRelease,
)
    requires
        call_ensures(UriDecodePool::deferred_release, (pool, id, since, now), r),
    ensures
        r is Stale <==> !(old(pool).deferred@.contains_key(id) && old(pool).deferred@[id] == since),
        r is Stale ==> *final(pool) == *old(pool),
        r is Kept ==> *final(pool) == (UriDecodePool {
            deferred: final(pool).deferred,
            ..*old(pool)
        }),
        !(r is Stale) ==> final(pool).deferred@ == old(pool).deferred@.remove(id),
{
}

/// One that no source took up until its time came, or until the pool was shut down, is
/// given up; its source has it no more.
pub proof fn law_kept_pipeline_is_given_up(
    pool: &mut UriDecodePool,
    id: u64,
    since: u64,
    now: u64,
    r: DeferredRelease,
    x: u64,
)
    requires
        old(pool).deferred@.contains_key(id),
        old(pool).deferred@[id] == since,
        call_ensures(UriDecodePool::deferred_release, (pool, id, since, now), r),
    ensures
        r is Kept <==> !(old(pool).records@[id].target_src is Pending) && !old(pool).deinitialized,
        r matches DeferredRelease::TearDown { src, stopped } ==> {
            &&& old(pool).records@[id].target_src matches TargetSrcState::Pending(target) ==> src
                == Some(target)
            &&& !(old(pool).records@[id].target_src is Pending) ==> src is None
            &&& old(pool).records@.contains_key(id) ==> final(pool).records@[id].target_src is Free
                && final(pool).records@[id].stream is None
            &&& stopped@.contains(x)
                <==> old(pool).pooled@.contains(x)
                && (x == id || old(pool).records@.contains_key(x))
                && old(pool).records@[x].unused_since is Some
                && now - old(pool).records@[x].unused_since->0
                > old(pool).cleanup_timeout * 1_000_000_000
            &&& final(pool).pooled@.contains(x) <==> old(pool).pooled@.contains(x)
                && !stopped@.contains(x)
            &&& x != id && old(pool).records@.contains_key(x) ==> final(pool).records@[x] == (
            DecoderPipeline {
                listening: old(pool).records@[x].listening && !stopped@.contains(x),
                ..old(pool).records@[x]
            })
        },
        final(pool).running@ == old(pool).running@,
        final(pool).prepared@ == old(pool).prepared@,
        final(pool).pipelines@ == old(pool).pipelines@,
        final(pool).next_id == old(pool).next_id,
        final(pool).deinitialized == old(pool).deinitialized,
        final(pool).cleanup_timeout == old(pool).cleanup_timeout,
        final(pool).bus == old(pool).bus,
{
    let records = old(pool).records@.insert(id, freed(old(pool).records@[id]));
    let p = expired(records, now, old(pool).cleanup_timeout);
    lemma_filter_members(old(pool).pooled@, p);
    lemma_filter_members(old(pool).pooled@, not(p));
    lemma_reversed(old(pool).pooled@.filter(p));
    if r is TearDown {
        let stopped = r->stopped@;
        assert(final(pool).records@.contains_key(id));
        assert(old(pool).pooled@.filter(p).contains(x) <==> old(pool).pooled@.contains(x) && p(x));
        assert(old(pool).pooled@.filter(not(p)).contains(x) <==> old(pool).pooled@.contains(x)
            && !p(x));
        if x != id && old(pool).records@.contains_key(x) {
            assert(final(pool).records@.contains_key(x));
        }
    }
}

/// A pipeline that was torn down is unused from then on, the first of them; it is
/// looked at again after the timeout.
pub proof fn law_torn_down_pipeline_is_unused(
    pool: &mut UriDecodePool,
    id: u64,
    now: u64,
    r: u64,
)
    requires
        call_ensures(UriDecodePool::pipeline_released, (pool, id, now), r),
    ensures
        r == old(pool).cleanup_timeout,
        final(pool).records@ == old(pool).records@.insert(
            id,
            DecoderPipeline { unused_since: Some(now), ..old(pool).records@[id] },
        ),
        old(pool).pooled@.contains(id) ==> final(pool).pooled@ == old(pool).pooled@,
        !old(pool).pooled@.contains(id) ==> final(pool).pooled@ == seq![id] + old(pool).pooled@,
        final(pool).running@ == old(pool).running@,
        final(pool).prepared@ == old(pool).prepared@,
        final(pool).deferred@ == old(pool).deferred@,
        final(pool).pipelines@ == old(pool).pipelines@,
        final(pool).next_id == old(pool).next_id,
        final(pool).deinitialized == old(pool).deinitialized,
        final(pool).cleanup_timeout == old(pool).cleanup_timeout,
        final(pool).bus == old(pool).bus,
{
    if !old(pool).pooled@.contains(id) {
        assert(final(pool).pooled@ =~= seq![id] + old(pool).pooled@);
    }
}

/// A pipeline that was stopped is not waited for, and is forgotten unless it is listed.
pub proof fn law_stopped_pipeline_is_forgotten(pool: &mut UriDecodePool, id: u64, x: u64)
    requires
        call_ensures(UriDecodePool::pipeline_stopped, (pool, id), ()),
    ensures
        !final(pool).pipelines@.contains(id),
        x != id ==> (final(pool).pipelines@.contains(x) <==> old(pool).pipelines@.contains(x)),
        old(pool).running@.contains(id) || old(pool).prepared@.contains(id)
            || old(pool).pooled@.contains(id) || old(pool).deferred@.contains_key(id)
            ==> final(pool).records@ == old(pool).records@,
        !(old(pool).running@.contains(id) || old(pool).prepared@.contains(id)
            || old(pool).pooled@.contains(id) || old(pool).deferred@.contains_key(id))
            ==> final(pool).records@ == old(pool).records@.remove(id),
        *final(pool) == (UriDecodePool {
            pipelines: final(pool).pipelines,
            records: final(pool).records,
            ..*old(pool)
        }),
{
    lemma_filter_members(old(pool).pipelines@, other_than(id));
}

/// A clean-up stops what has been unused for longer than the timeout, the last of it
/// first, and nothing else.
pub proof fn law_overdue_pipelines_are_stopped(
    pool: &mut UriDecodePool,
    now: u64,
    r: Vec<u64>,
    x: u64,
    a: int,
    b: int,
)
    requires
        call_ensures(UriDecodePool::cleanup, (pool, now), r),
    ensures
        r@.contains(x) <==> old(pool).pooled@.contains(x) && old(pool).records@.contains_key(x)
            && old(pool).records@[x].unused_since is Some
                && now - old(pool).records@[x].unused_since->0
                > old(pool).cleanup_timeout * 1_000_000_000,
        final(pool).pooled@.contains(x) <==> old(pool).pooled@.contains(x) && !r@.contains(x),
        0 <= a < b < r@.len() ==> exists|i: int, j: int|
            0 <= j < i < old(pool).pooled@.len() && #[trigger] old(pool).pooled@[i] == r@[a]
                && #[trigger] old(pool).pooled@[j] == r@[b],
        0 <= a < b < final(pool).pooled@.len() ==> exists|i: int, j: int|
            0 <= i < j < old(pool).pooled@.len()
                && #[trigger] old(pool).pooled@[i] == final(pool).pooled@[a]
                && #[trigger] old(pool).pooled@[j] == final(pool).pooled@[b],
        final(pool).records@.contains_key(x) <==> old(pool).records@.contains_key(x),
        old(pool).records@.contains_key(x) ==> final(pool).records@[x] == (DecoderPipeline {
            listening: old(pool).records@[x].listening && !r@.contains(x),
            ..old(pool).records@[x]
        }),
        *final(pool) == (UriDecodePool {
            pooled: final(pool).pooled,
            records: final(pool).records,
            ..*old(pool)
        }),
{
    lemma_cleaned_up(&*old(pool), &*final(pool), old(pool).cleanup_timeout, now, r@, x, a, b);
}

/// The timeout that is set counts for the clean-up that follows, and from then on.
pub proof fn law_new_timeout_counts_at_once(
    pool: &mut UriDecodePool,
    timeout: u64,
    now: u64,
    r: Vec<u64>,
    x: u64,
    a: int,
    b: int,
)
    requires
        call_ensures(UriDecodePool::set_cleanup_timeout, (pool, timeout, now), r),
    ensures
        r@.contains(x) <==> old(pool).pooled@.contains(x) && old(pool).records@.contains_key(x)
            && old(pool).records@[x].unused_since is Some
                && now - old(pool).records@[x].unused_since->0 > timeout * 1_000_000_000,
        final(pool).pooled@.contains(x) <==> old(pool).pooled@.contains(x) && !r@.contains(x),
        0 <= a < b < r@.len() ==> exists|i: int, j: int|
            0 <= j < i < old(pool).pooled@.len() && #[trigger] old(pool).pooled@[i] == r@[a]
                && #[trigger] old(pool).pooled@[j] == r@[b],
        final(pool).records@.contains_key(x) <==> old(pool).records@.contains_key(x),
        old(pool).records@.contains_key(x) ==> final(pool).records@[x] == (DecoderPipeline {
            listening: old(pool).records@[x].listening && !r@.contains(x),
            ..old(pool).records@[x]
        }),
        *final(pool) == (UriDecodePool {
            pooled: final(pool).pooled,
            records: final(pool).records,
            cleanup_timeout: timeout,
            ..*old(pool)
        }),
{
    lemma_cleaned_up(&*old(pool), &*final(pool), timeout, now, r@, x, a, b);
}

proof fn lemma_cleaned_up(
    before: &UriDecodePool,
    after: &UriDecodePool,
    timeout: u64,
    now: u64,
    r: Seq<u64>,
    x: u64,
    a: int,
    b: int,
)
    requires
        before.cleans_up(after, timeout, now, r),
    ensures
        r.contains(x) <==> before.pooled@.contains(x) && expired(before.records@, now, timeout)(x),
        after.pooled@.contains(x) <==> before.pooled@.contains(x) && !r.contains(x),
        0 <= a < b < r.len() ==> exists|i: int, j: int|
            0 <= j < i < before.pooled@.len() && #[trigger] before.pooled@[i] == r[a]
                && #[trigger] before.pooled@[j] == r[b],
        0 <= a < b < after.pooled@.len() ==> exists|i: int, j: int|
            0 <= i < j < before.pooled@.len() && #[trigger] before.pooled@[i] == after.pooled@[a]
                && #[trigger] before.pooled@[j] == after.pooled@[b],
        after.records@.contains_key(x) <==> before.records@.contains_key(x),
        before.records@.contains_key(x) ==> after.records@[x] == (DecoderPipeline {
            listening: before.records@[x].listening && !r.contains(x),
            ..before.records@[x]
        }),
{
    let p = expired(before.records@, now, timeout);
    let f = before.pooled@.filter(p);
    lemma_filter_members(before.pooled@, p);
    lemma_filter_members(before.pooled@, not(p));
    lemma_reversed(f);
    assert(f.contains(x) <==> before.pooled@.contains(x) && p(x));
    assert(before.pooled@.filter(not(p)).contains(x) <==> before.pooled@.contains(x) && !p(x));
    if before.records@.contains_key(x) {
        assert(after.records@.dom().contains(x));
        assert(after.records@.contains_key(x));
    }
    if after.records@.contains_key(x) {
        assert(before.records@.dom().contains(x));
    }
    if 0 <= a < b < r.len() {
        lemma_filter_order(before.pooled@, p, f.len() - 1 - b, f.len() - 1 - a);
        let (j, i) = choose|j: int, i: int|
            0 <= j < i < before.pooled@.len() && #[trigger] before.pooled@[j] == f[f.len() - 1 - b]
                && #[trigger] before.pooled@[i] == f[f.len() - 1 - a];
        assert(before.pooled@[i] == r[a] && before.pooled@[j] == r[b]);
    }
    if 0 <= a < b < after.pooled@.len() {
        lemma_filter_order(before.pooled@, not(p), a, b);
    }
}

/// Shutting the pool down stops what was unused before, and frees every pipeline; each
/// is told together with the source that has it no more, in the order of the pipelines.
pub proof fn law_shut_down_frees_every_pipeline(
    pool: &mut UriDecodePool,
    now: u64,
    stopped: Vec<u64>,
    released: Vec<(u64, Option<u64>)>,
    i: int,
    x: u64,
)
    requires
        call_ensures(UriDecodePool::deinit, (pool, now), (stopped, released)),
    ensures
        final(pool).deinitialized && final(pool).cleanup_timeout == 0,
        stopped@.contains(x) <==> old(pool).pooled@.contains(x)
            && old(pool).records@.contains_key(x)
            && old(pool).records@[x].unused_since is Some && now
            > old(pool).records@[x].unused_since->0,
        final(pool).pooled@.contains(x) <==> old(pool).pooled@.contains(x) && !stopped@.contains(x),
        released@.len() == old(pool).pipelines@.len(),
        0 <= i < released@.len() ==> released@[i].0 == old(pool).pipelines@[i],
        0 <= i < released@.len() ==> {
            let target = old(pool).records@[old(pool).pipelines@[i]].target_src;
            &&& target matches TargetSrcState::InUse(src) ==> released@[i].1 == Some(src)
            &&& target matches TargetSrcState::Pending(src) ==> released@[i].1 == Some(src)
            &&& target is Free ==> released@[i].1 is None
        },
        final(pool).records@.contains_key(x) <==> old(pool).records@.contains_key(x),
        old(pool).records@.contains_key(x) && old(pool).pipelines@.contains(x)
            ==> final(pool).records@[x] == (DecoderPipeline {
            listening: old(pool).records@[x].listening && !stopped@.contains(x),
            target_src: TargetSrcState::Free,
            stream: None,
            ..old(pool).records@[x]
        }),
        old(pool).records@.contains_key(x) && !old(pool).pipelines@.contains(x)
            ==> final(pool).records@[x] == (DecoderPipeline {
            listening: old(pool).records@[x].listening && !stopped@.contains(x),
            ..old(pool).records@[x]
        }),
        *final(pool) == (UriDecodePool {
            pooled: final(pool).pooled,
            records: final(pool).records,
            cleanup_timeout: 0,
            deinitialized: true,
            ..*old(pool)
        }),
{
    let p = expired(old(pool).records@, now, 0);
    let f = old(pool).pooled@.filter(p);
    lemma_filter_members(old(pool).pooled@, p);
    lemma_filter_members(old(pool).pooled@, not(p));
    lemma_reversed(f);
    assert(f.contains(x) <==> old(pool).pooled@.contains(x) && p(x));
    assert(old(pool).pooled@.filter(not(p)).contains(x) <==> old(pool).pooled@.contains(x)
        && !p(x));
    if old(pool).records@.contains_key(x) {
        assert(final(pool).records@.dom().contains(x));
        assert(final(pool).records@.contains_key(x));
    }
    if final(pool).records@.contains_key(x) {
        assert(old(pool).records@.dom().contains(x));
    }
}

/// A new pool has no pipelines and keeps unused ones for a quarter of a minute; a pool
/// is drained when no pipeline is left to stop.
pub proof fn law_new_pool_is_drained(
    fresh: UriDecodePool,
    pool: UriDecodePool,
    drained: bool,
    down: bool,
    id: u64,
)
    requires
        call_ensures(UriDecodePool::new, (), fresh),
        call_ensures(UriDecodePool::is_drained, (&pool,), drained),
        call_ensures(UriDecodePool::deinitialized, (&pool,), down),
    ensures
        !fresh.records@.contains_key(id) && !fresh.deferred@.contains_key(id),
        fresh.running@.len() == 0 && fresh.pooled@.len() == 0 && fresh.prepared@.len() == 0
            && fresh.pipelines@.len() == 0,
        fresh.cleanup_timeout == 15 && fresh.next_id == 0,
        !fresh.deinitialized && fresh.bus is None,
        drained <==> forall|x: u64| !pool.pipelines@.contains(x),
        down == pool.deinitialized,
{
    if pool.pipelines@.len() > 0 {
        assert(pool.pipelines@.contains(pool.pipelines@[0]));
    }
}

/// A pipeline that is handed out is the one that the pool has under its number, and what
/// is put back is what the pool has then; the others stay as they are.
pub proof fn law_pipeline_is_put_back(
    first: &mut UriDecodePool,
    second: &mut UriDecodePool,
    id: u64,
    record: DecoderPipeline,
    taken: Option<DecoderPipeline>,
    seen: Option<&DecoderPipeline>,
    found: Option<&DecoderPipeline>,
    x: u64,
)
    requires
        call_ensures(UriDecodePool::pipeline, (&*old(first), id), seen),
        call_ensures(UriDecodePool::take_pipeline, (first, id), taken),
        *second == *final(first),
        call_ensures(UriDecodePool::put_pipeline, (second, id, record), ()),
        call_ensures(UriDecodePool::pipeline, (&*final(second), id), found),
    ensures
        taken is Some <==> old(first).records@.contains_key(id),
        taken is Some ==> taken->0 == old(first).records@[id],
        seen is Some <==> taken is Some,
        seen is Some ==> *seen->0 == taken->0,
        found matches Some(r) && *r == record,
        !final(first).records@.contains_key(id),
        x != id ==> (final(second).records@.contains_key(x)
            <==> old(first).records@.contains_key(x)),
        x != id && old(first).records@.contains_key(x)
            ==> final(second).records@[x] == old(first).records@[x],
        *final(second) == (UriDecodePool { records: final(second).records, ..*old(first) }),
{
}

/// What is used again to be prepared for a source is chosen and kept alike.
pub proof fn law_unused_pipeline_is_prepared(
    pool: &mut UriDecodePool,
    request: Request,
    id: u64,
    x: u64,
)
    requires
        call_ensures(
            UriDecodePool::prepare_pipeline,
            (pool, &request),
            Some(Acquired { id, origin: Origin::Reused }),
        ),
    ensures
        old(pool).pooled@.contains(id),
        final(pool).pooled@.len() == old(pool).pooled@.len() - 1,
        x != id ==> (final(pool).pooled@.contains(x) <==> old(pool).pooled@.contains(x)),
        old(pool).records@.contains_key(id),
        old(pool).records@[id].uri@ != request.uri@,
        old(pool).records@[id].initial_seek matches Some(own) ==> request.initial_seek is Some
            && own.seek.rate.same(request.initial_seek->0.seek.rate) && own.seek == (Seek {
            rate: own.seek.rate,
            ..request.initial_seek->0.seek
        }),
        final(pool).records@[id].name == old(pool).records@[id].name,
        final(pool).records@[id].initial_seek == old(pool).records@[id].initial_seek,
        final(pool).records@[id].pending_seek == old(pool).records@[id].pending_seek,
        final(pool).records@[id].last_seek_seqnum == old(pool).records@[id].last_seek_seqnum,
        final(pool).records@[id].tearing_down == old(pool).records@[id].tearing_down,
        final(pool).records@[id].seek_handler == old(pool).records@[id].seek_handler,
        final(pool).pipelines@ == old(pool).pipelines@,
        final(pool).next_id == old(pool).next_id,
        x != id ==> (final(pool).records@.contains_key(x) <==> old(pool).records@.contains_key(x)),
        x != id && old(pool).records@.contains_key(x)
            ==> final(pool).records@[x] == old(pool).records@[x],
{
    let p = reusable(old(pool).records@, request);
    let i = first_index(old(pool).pooled@, p)->0;
    assert(is_first(old(pool).pooled@, p, i));
    lemma_removed(old(pool).pooled@, i);
}

/// So it is for what is prepared: the first unused pipeline that is suitable is taken, and
/// none is made.
pub proof fn law_first_suitable_pipeline_is_prepared(
    pool: &mut UriDecodePool,
    request: Request,
    got: Acquired,
    i: int,
)
    requires
        0 <= i < old(pool).pooled@.len(),
        old(pool).records@.contains_key(old(pool).pooled@[i]),
        old(pool).records@[old(pool).pooled@[i]].uri@ != request.uri@,
        old(pool).records@[old(pool).pooled@[i]].initial_seek matches Some(own)
            ==> request.initial_seek is Some && own.seek.rate.same(
            request.initial_seek->0.seek.rate,
        ) && own.seek == (Seek { rate: own.seek.rate, ..request.initial_seek->0.seek }),
        call_ensures(UriDecodePool::prepare_pipeline, (pool, &request), Some(got)),
    ensures
        got.origin is Reused,
        exists|k: int| 0 <= k <= i && #[trigger] old(pool).pooled@[k]
            == got.id,
{
    let p = reusable(old(pool).records@, request);
    lemma_first_exists(old(pool).pooled@, p, i);
    let k = first_index(old(pool).pooled@, p)->0;
    if k > i {
        assert(!p(old(pool).pooled@[i]));
    }
    assert(old(pool).pooled@[k] == old(pool).pooled@[k]);
}

} // verus!
