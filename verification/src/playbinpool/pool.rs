//! A pool of playback pipelines: pipelines that were torn down are kept for a
//! while, and used again for sources that ask for the same stream or play
//! another location.
use std::collections::HashMap;

use vstd::prelude::*;

use crate::lists::{
    disjoint, first_index, is_first, lemma_filter_members, lemma_filter_order, lemma_first_exists,
    lemma_first_is, lemma_inserted, lemma_pushed, lemma_removed, lemma_reversed, not, other_than,
    remove_all,
};
use crate::playbinpool::pooledplaybin::{PooledPlayBin, Request};
use crate::pull::text_eq;
use crate::streams::{has_id, law_specified_has_id, of_type, specified};
use crate::values::{same_string, same_text, Stream, SECOND};

verus! {

broadcast use vstd::std_specs::hash::group_hash_axioms;

/// How long pipelines are kept unused, in seconds, unless told otherwise.
pub const DEFAULT_CLEANUP_TIMEOUT_SEC: u64 = 15;

/// Where the pipeline that a source gets comes from.
#[derive(Clone, Copy, Debug, PartialEq, Eq, Structural)]
pub enum Origin {
    /// It was prepared for the source.
    Prepared,
    /// It played the same stream before, and is to be set up again.
    Reused,
    /// It is new, and has to be made.
    Created,
}

/// A pipeline of the pool that is to be played.
#[derive(Clone, Copy, Debug, PartialEq, Eq, Structural)]
pub struct Acquired {
    pub id: u64,
    pub origin: Origin,
}

/// The pipelines of the pool, and which of them are played, kept and prepared.
#[derive(Debug)]
pub struct PlaybinPool {
    pub records: HashMap<u64, PooledPlayBin>,
    /// Pipelines that sources play, in the order in which they got them.
    pub running: Vec<u64>,
    /// Pipelines that were torn down, the last one first.
    pub unused: Vec<u64>,
    /// Pipelines that play ahead of the source that they are meant for.
    pub prepared: Vec<u64>,
    /// How many pipelines there are.
    pub outstandings: u32,
    /// The number of the next new pipeline.
    pub next_id: u64,
    /// How long pipelines are kept unused, in seconds.
    pub cleanup_timeout: u64,
}

pub type Records = Map<u64, PooledPlayBin>;

/// Pipelines that play for a source.
pub open spec fn targeting(records: Records, src: u64) -> spec_fn(u64) -> bool {
    |id: u64| records.contains_key(id) && records[id].target_src == Some(src)
}

/// Pipelines that were asked for a stream.
pub open spec fn requesting(records: Records, stream_id: Option<String>) -> spec_fn(u64) -> bool {
    |id: u64|
        records.contains_key(id) && stream_id is Some && same_text(
            records[id].stream_id,
            stream_id,
        )
}

/// Pipelines that play another location: a decoder cannot switch between streams
/// of different media types in one location.
pub open spec fn elsewhere(records: Records, uri: Seq<char>) -> spec_fn(u64) -> bool {
    |id: u64| records.contains_key(id) && records[id].uri@ != uri
}

/// The unused pipeline to set up again for a request: the first one that was
/// asked for the same stream, or else the first one that plays another location.
pub open spec fn reusable(unused: Seq<u64>, records: Records, request: Request) -> Option<int> {
    match first_index(unused, requesting(records, request.stream_id)) {
        Some(i) => Some(i),
        None => first_index(unused, elsewhere(records, request.uri@)),
    }
}

/// Pipelines that have been unused for more than `timeout` seconds.
pub open spec fn expired(records: Records, now: u64, timeout: u64) -> spec_fn(u64) -> bool {
    |id: u64|
        records.contains_key(id) && records[id].unused_since is Some && now
            - records[id].unused_since->0 > timeout * SECOND
}

/// Every member of the list is a pipeline of the pool.
pub open spec fn known(list: Seq<u64>, records: Records) -> bool {
    forall|id: u64| #[trigger] list.contains(id) ==> records.contains_key(id)
}

/// The pipeline was set up for the request, and plays for its source.
pub open spec fn playing(record: PooledPlayBin, request: Request) -> bool {
    &&& record.set_up(request.uri@, request.stream_type, request.stream_id)
    &&& record.target_src == Some(request.src)
}

impl PlaybinPool {
    /// Every pipeline is counted, and stands in one list at most; those that
    /// are kept unused have been torn down.
    pub open spec fn wf(&self) -> bool {
        &&& self.outstandings == self.records@.len()
        &&& forall|id: u64| #[trigger] self.records@.contains_key(id) ==> id < self.next_id
        &&& self.running@.no_duplicates()
        &&& self.unused@.no_duplicates()
        &&& self.prepared@.no_duplicates()
        &&& disjoint(self.running@, self.unused@)
        &&& disjoint(self.running@, self.prepared@)
        &&& disjoint(self.unused@, self.prepared@)
        &&& known(self.running@, self.records@)
        &&& known(self.unused@, self.records@)
        &&& known(self.prepared@, self.records@)
        &&& forall|id: u64| #[trigger]
            self.unused@.contains(id) ==> self.records@[id].unused_since is Some
    }

    /// The pipeline stands in none of the lists.
    pub open spec fn unlisted(&self, id: u64) -> bool {
        &&& !self.running@.contains(id)
        &&& !self.unused@.contains(id)
        &&& !self.prepared@.contains(id)
    }

    /// There is room for one more pipeline.
    pub open spec fn has_room(&self) -> bool {
        self.outstandings < u32::MAX && self.next_id < u64::MAX
    }

    /// How a pipeline is taken that was not prepared: an unused one that can be
    /// set up again, or else a new one.
    pub open spec fn acquires(&self, after: &PlaybinPool, request: Request, r: Acquired) -> bool {
        &&& match reusable(self.unused@, self.records@, request) {
            Some(i) => {
                &&& r == (Acquired { id: self.unused@[i], origin: Origin::Reused })
                &&& after.unused@ == self.unused@.remove(i)
                &&& after.outstandings == self.outstandings
                &&& after.next_id == self.next_id
            },
            None => {
                &&& r == (Acquired { id: self.next_id, origin: Origin::Created })
                &&& after.unused@ == self.unused@
                &&& after.outstandings == self.outstandings + 1
                &&& after.next_id == self.next_id + 1
            },
        }
        &&& after.records@ == self.records@.insert(r.id, after.records@[r.id])
        &&& playing(after.records@[r.id], request)
        &&& after.cleanup_timeout == self.cleanup_timeout
    }

    /// How a source gets a pipeline: the first one that was prepared for it,
    /// or else as above.
    pub open spec fn gets(&self, after: &PlaybinPool, request: Request, r: Acquired) -> bool {
        &&& after.running@ == self.running@.push(r.id)
        &&& match first_index(self.prepared@, targeting(self.records@, request.src)) {
            Some(i) => {
                &&& r == (Acquired { id: self.prepared@[i], origin: Origin::Prepared })
                &&& after.prepared@ == self.prepared@.remove(i)
                &&& after.records@ == self.records@
                &&& after.unused@ == self.unused@
                &&& after.outstandings == self.outstandings
                &&& after.next_id == self.next_id
                &&& after.cleanup_timeout == self.cleanup_timeout
            },
            None => {
                &&& self.acquires(after, request, r)
                &&& after.prepared@ == self.prepared@
            },
        }
    }

    /// How a pipeline is taken to be prepared for a source: one is enough.
    pub open spec fn prepares(
        &self,
        after: &PlaybinPool,
        request: Request,
        r: Option<Acquired>,
    ) -> bool {
        match first_index(self.prepared@, targeting(self.records@, request.src)) {
            Some(_) => r is None && after == self,
            None => {
                &&& r is Some
                &&& self.acquires(after, request, r->0)
                &&& after.running@ == self.running@
                &&& after.prepared@ == self.prepared@
            },
        }
    }

    /// A pipeline that plays is kept for its source.
    pub open spec fn keeps_prepared(&self, after: &PlaybinPool, id: u64, played: bool) -> bool {
        &&& after.prepared@ == (if played {
            self.prepared@.push(id)
        } else {
            self.prepared@
        })
        &&& after.records == self.records
        &&& after.running == self.running
        &&& after.unused == self.unused
        &&& after.outstandings == self.outstandings
        &&& after.next_id == self.next_id
        &&& after.cleanup_timeout == self.cleanup_timeout
    }

    /// A pipeline that was torn down is the first of the unused ones.
    pub open spec fn takes_back(&self, after: &PlaybinPool, id: u64, now: u64) -> bool {
        &&& after.unused@ == self.unused@.insert(0, id)
        &&& after.records@ == self.records@.insert(
            id,
            PooledPlayBin { unused_since: Some(now), ..self.records@[id] },
        )
        &&& after.running == self.running
        &&& after.prepared == self.prepared
        &&& after.outstandings == self.outstandings
        &&& after.next_id == self.next_id
        &&& after.cleanup_timeout == self.cleanup_timeout
    }

    /// A pipeline that plays no more stands in no list.
    pub open spec fn releases(&self, after: &PlaybinPool, id: u64) -> bool {
        &&& after.records@ == self.records@.insert(
            id,
            PooledPlayBin { target_src: None, stream: None, ..self.records@[id] },
        )
        &&& after.unused == self.unused
        &&& after.outstandings == self.outstandings
        &&& after.next_id == self.next_id
        &&& after.cleanup_timeout == self.cleanup_timeout
    }

    /// Pipelines that have been unused for too long are gone, the last of them
    /// first.
    pub open spec fn cleans_up(
        &self,
        after: &PlaybinPool,
        timeout: u64,
        now: u64,
        r: Seq<u64>,
    ) -> bool {
        let old_ones = expired(self.records@, now, timeout);
        &&& r == self.unused@.filter(old_ones).reverse()
        &&& after.unused@ == self.unused@.filter(not(old_ones))
        &&& after.records@ == self.records@.remove_keys(r.to_set())
        &&& after.outstandings == self.outstandings - r.len()
        &&& after.running == self.running
        &&& after.prepared == self.prepared
        &&& after.next_id == self.next_id
        &&& after.cleanup_timeout == timeout
    }

    pub fn new() -> (r: Self)
        ensures
            r.wf(),
            r.records@ == Map::<u64, PooledPlayBin>::empty(),
            r.running@ == Seq::<u64>::empty(),
            r.unused@ == Seq::<u64>::empty(),
            r.prepared@ == Seq::<u64>::empty(),
            r.outstandings == 0,
            r.next_id == 0,
            r.cleanup_timeout == DEFAULT_CLEANUP_TIMEOUT_SEC,
    {
        PlaybinPool {
            records: HashMap::new(),
            running: Vec::new(),
            unused: Vec::new(),
            prepared: Vec::new(),
            outstandings: 0,
            next_id: 0,
            cleanup_timeout: DEFAULT_CLEANUP_TIMEOUT_SEC,
        }
    }

    /// The first prepared pipeline for a source.
    fn find_prepared(&self, src: u64) -> (r: Option<usize>)
        ensures
            match r {
                Some(i) => i < self.prepared.len() && first_index(
                    self.prepared@,
                    targeting(self.records@, src),
                ) == Some(i as int) && targeting(self.records@, src)(self.prepared@[i as int]),
                None => first_index(self.prepared@, targeting(self.records@, src)) is None,
            },
    {
        let ghost p = targeting(self.records@, src);
        let mut i: usize = 0;
        while i < self.prepared.len()
            invariant
                i <= self.prepared.len(),
                p == targeting(self.records@, src),
                forall|j: int| 0 <= j < i ==> !p(#[trigger] self.prepared@[j]),
            decreases self.prepared.len() - i,
        {
            let found = match self.records.get(&self.prepared[i]) {
                Some(record) => match record.target_src {
                    Some(target) => target == src,
                    None => false,
                },
                None => false,
            };
            if found {
                proof {
                    assert(is_first(self.prepared@, p, i as int));
                    lemma_first_is(self.prepared@, p, i as int);
                }
                return Some(i);
            }
            i += 1;
        }
        None
    }

    /// The first unused pipeline that was asked for a stream.
    fn find_unused(&self, stream_id: &Option<String>) -> (r: Option<usize>)
        ensures
            match r {
                Some(i) => i < self.unused.len() && first_index(
                    self.unused@,
                    requesting(self.records@, *stream_id),
                ) == Some(i as int) && requesting(self.records@, *stream_id)(
                    self.unused@[i as int],
                ),
                None => first_index(self.unused@, requesting(self.records@, *stream_id)) is None,
            },
    {
        let ghost p = requesting(self.records@, *stream_id);
        let mut i: usize = 0;
        while i < self.unused.len()
            invariant
                i <= self.unused.len(),
                p == requesting(self.records@, *stream_id),
                forall|j: int| 0 <= j < i ==> !p(#[trigger] self.unused@[j]),
            decreases self.unused.len() - i,
        {
            let found = match self.records.get(&self.unused[i]) {
                Some(record) => stream_id.is_some() && same_string(&record.stream_id, stream_id),
                None => false,
            };
            if found {
                proof {
                    assert(is_first(self.unused@, p, i as int));
                    lemma_first_is(self.unused@, p, i as int);
                }
                return Some(i);
            }
            i += 1;
        }
        None
    }

    /// The first unused pipeline that plays another location.
    fn find_elsewhere(&self, uri: &str) -> (r: Option<usize>)
        ensures
            match r {
                Some(i) => i < self.unused.len() && first_index(
                    self.unused@,
                    elsewhere(self.records@, uri@),
                ) == Some(i as int) && elsewhere(self.records@, uri@)(self.unused@[i as int]),
                None => first_index(self.unused@, elsewhere(self.records@, uri@)) is None,
            },
    {
        let ghost p = elsewhere(self.records@, uri@);
        let mut i: usize = 0;
        while i < self.unused.len()
            invariant
                i <= self.unused.len(),
                p == elsewhere(self.records@, uri@),
                forall|j: int| 0 <= j < i ==> !p(#[trigger] self.unused@[j]),
            decreases self.unused.len() - i,
        {
            let found = match self.records.get(&self.unused[i]) {
                Some(record) => !text_eq(record.uri.as_str(), uri),
                None => false,
            };
            if found {
                proof {
                    assert(is_first(self.unused@, p, i as int));
                    lemma_first_is(self.unused@, p, i as int);
                }
                return Some(i);
            }
            i += 1;
        }
        None
    }

    fn get_unused_or_create_pipeline(&mut self, request: &Request) -> (r: Acquired)
        requires
            old(self).wf(),
            old(self).has_room(),
        ensures
            final(self).wf(),
            old(self).acquires(final(self), *request, r),
            final(self).running == old(self).running,
            final(self).prepared == old(self).prepared,
            final(self).unlisted(r.id),
    {
        let found: Option<usize> = match self.find_unused(&request.stream_id) {
            Some(i) => Some(i),
            None => self.find_elsewhere(request.uri.as_str()),
        };
        match found {
            Some(i) => {
                let id: u64 = self.unused.remove(i);
                let mut record = self.records.remove(&id).unwrap();
                record.reset(request.uri.as_str(), request.stream_type, &request.stream_id);
                record.set_target_src(Some(request.src));
                self.records.insert(id, record);
                proof {
                    assert(old(self).unused@.contains(id));
                    assert(self.records@ =~= old(self).records@.insert(id, self.records@[id]));
                    lemma_removed(old(self).unused@, i as int);
                }
                Acquired { id, origin: Origin::Reused }
            },
            None => {
                let id: u64 = self.next_id;
                let mut record = PooledPlayBin::new(
                    request.uri.as_str(),
                    request.stream_type,
                    &request.stream_id,
                );
                record.set_target_src(Some(request.src));
                self.records.insert(id, record);
                self.next_id = id + 1;
                self.outstandings = self.outstandings + 1;
                proof {
                    assert(!old(self).records@.contains_key(id));
                    assert(self.records@ =~= old(self).records@.insert(id, self.records@[id]));
                }
                Acquired { id, origin: Origin::Created }
            },
        }
    }

    /// Takes a pipeline to be played ahead of its source, unless there is one
    /// already.
    pub fn prepare_pipeline(&mut self, request: &Request) -> (r: Option<Acquired>)
        requires
            old(self).wf(),
            old(self).has_room(),
        ensures
            final(self).wf(),
            old(self).prepares(final(self), *request, r),
            r matches Some(a) ==> final(self).unlisted(a.id) && final(self).records@.contains_key(
                a.id,
            ),
    {
        if self.find_prepared(request.src).is_some() {
            return None;
        }
        Some(self.get_unused_or_create_pipeline(request))
    }

    /// Keeps the pipeline that was taken last for its source, if it could be
    /// set to play.
    pub fn pipeline_prepared(&mut self, id: u64, played: bool) -> (r: bool)
        requires
            old(self).wf(),
            old(self).records@.contains_key(id),
            old(self).unlisted(id),
        ensures
            final(self).wf(),
            old(self).keeps_prepared(final(self), id, played),
            r == played,
    {
        if !played {
            return false;
        }
        self.prepared.push(id);
        proof {
            lemma_pushed(old(self).prepared@, id);
        }
        true
    }

    /// Gives a source a pipeline to play.
    pub fn get(&mut self, request: &Request) -> (r: Acquired)
        requires
            old(self).wf(),
            old(self).has_room(),
        ensures
            final(self).wf(),
            old(self).gets(final(self), *request, r),
    {
        let acquired = match self.find_prepared(request.src) {
            Some(i) => {
                proof {
                    assert(self.prepared@.contains(self.prepared@[i as int]));
                    lemma_removed(self.prepared@, i as int);
                }
                let id: u64 = self.prepared.remove(i);
                Acquired { id, origin: Origin::Prepared }
            },
            None => self.get_unused_or_create_pipeline(request),
        };
        proof {
            lemma_pushed(self.running@, acquired.id);
        }
        self.running.push(acquired.id);
        acquired
    }

    /// Takes a pipeline back from its source. It is to be torn down.
    pub fn release(&mut self, id: u64)
        requires
            old(self).wf(),
            old(self).records@.contains_key(id),
            !old(self).unused@.contains(id),
            !old(self).prepared@.contains(id),
        ensures
            final(self).wf(),
            old(self).releases(final(self), id),
            final(self).running@ == old(self).running@.filter(other_than(id)),
            final(self).prepared == old(self).prepared,
            final(self).unlisted(id),
    {
        remove_all(&mut self.running, id);
        proof {
            lemma_filter_members(old(self).running@, other_than(id));
        }
        self.release_record(id);
    }

    fn release_record(&mut self, id: u64)
        requires
            old(self).records@.contains_key(id),
        ensures
            old(self).releases(final(self), id),
            final(self).running == old(self).running,
            final(self).prepared == old(self).prepared,
            final(self).records@.len() == old(self).records@.len(),
    {
        let mut record = self.records.remove(&id).unwrap();
        record.release();
        self.records.insert(id, record);
        proof {
            assert(self.records@ =~= old(self).records@.insert(id, self.records@[id]));
        }
    }

    /// Gives up the pipeline that was prepared for a source. It is to be torn
    /// down.
    pub fn unprepare_pipeline(&mut self, src: u64) -> (r: Option<u64>)
        requires
            old(self).wf(),
        ensures
            final(self).wf(),
            match first_index(old(self).prepared@, targeting(old(self).records@, src)) {
                Some(i) => {
                    &&& r == Some(old(self).prepared@[i])
                    &&& old(self).releases(final(self), r->0)
                    &&& final(self).prepared@ == old(self).prepared@.remove(i)
                    &&& final(self).running == old(self).running
                    &&& final(self).unlisted(r->0)
                },
                None => r is None && *final(self) == *old(self),
            },
    {
        match self.find_prepared(src) {
            Some(i) => {
                proof {
                    assert(self.prepared@.contains(self.prepared@[i as int]));
                    lemma_removed(self.prepared@, i as int);
                }
                let id: u64 = self.prepared.remove(i);
                self.release_record(id);
                Some(id)
            },
            None => None,
        }
    }

    /// Keeps a pipeline that was torn down at `now`. The pool is to be cleaned
    /// up once the returned number of seconds has passed.
    pub fn released(&mut self, id: u64, now: u64) -> (r: u64)
        requires
            old(self).wf(),
            old(self).records@.contains_key(id),
            old(self).unlisted(id),
        ensures
            final(self).wf(),
            old(self).takes_back(final(self), id, now),
            r == old(self).cleanup_timeout,
    {
        let mut record = self.records.remove(&id).unwrap();
        record.torn_down(now);
        self.records.insert(id, record);
        self.unused.insert(0, id);
        proof {
            assert(self.records@ =~= old(self).records@.insert(id, self.records@[id]));
            lemma_inserted(old(self).unused@, id);
        }
        self.cleanup_timeout
    }

    fn is_expired(&self, id: u64, now: u64) -> (r: bool)
        requires
            self.records@.contains_key(id),
        ensures
            r == expired(self.records@, now, self.cleanup_timeout)(id),
    {
        let timeout: u128 = self.cleanup_timeout as u128 * 1_000_000_000u128;
        match self.records.get(&id) {
            Some(record) => match record.unused_since {
                Some(since) => now >= since && (now - since) as u128 > timeout,
                None => false,
            },
            None => false,
        }
    }

    /// Drops the pipelines that have been unused for too long at `now`, and
    /// returns them: they are to be stopped.
    pub fn cleanup(&mut self, now: u64) -> (r: Vec<u64>)
        requires
            old(self).wf(),
        ensures
            final(self).wf(),
            old(self).cleans_up(final(self), old(self).cleanup_timeout, now, r@),
    {
        let ghost p = expired(self.records@, now, self.cleanup_timeout);
        let mut kept: Vec<u64> = Vec::new();
        let mut cleaned_up: Vec<u64> = Vec::new();
        let mut i: usize = 0;
        proof {
            reveal(Seq::filter);
            assert(self.unused@.take(0) =~= Seq::<u64>::empty());
            assert(Seq::<u64>::empty().reverse() =~= Seq::<u64>::empty());
        }
        while i < self.unused.len()
            invariant
                *self == *old(self),
                self.wf(),
                p == expired(self.records@, now, self.cleanup_timeout),
                i <= self.unused.len(),
                kept@ == self.unused@.take(i as int).filter(not(p)),
                cleaned_up@ == self.unused@.take(i as int).filter(p).reverse(),
            decreases self.unused.len() - i,
        {
            let id: u64 = self.unused[i];
            proof {
                reveal(Seq::filter);
                assert(self.unused@.contains(id));
                assert(self.unused@.take(i + 1).drop_last() =~= self.unused@.take(i as int));
                let f = self.unused@.take(i as int).filter(p);
                assert(f.push(id).reverse() =~= f.reverse().insert(0, id));
            }
            if self.is_expired(id, now) {
                cleaned_up.insert(0, id);
            } else {
                kept.push(id);
            }
            i += 1;
        }
        proof {
            assert(self.unused@.take(self.unused@.len() as int) =~= self.unused@);
            lemma_filter_members(self.unused@, p);
            lemma_filter_members(self.unused@, not(p));
            lemma_reversed(self.unused@.filter(p));
            assert(cleaned_up@.no_duplicates());
            assert forall|id: u64| cleaned_up@.contains(id) implies self.records@.contains_key(
                id,
            ) by {
                assert(self.unused@.contains(id));
            }
        }
        self.unused = kept;
        let removed: usize = cleaned_up.len();
        let mut k: usize = 0;
        proof {
            assert(cleaned_up@.take(0).to_set() =~= Set::<u64>::empty());
            assert(self.records@.remove_keys(Set::<u64>::empty()) =~= self.records@);
        }
        while k < removed
            invariant
                removed == cleaned_up.len(),
                k <= removed,
                cleaned_up@.no_duplicates(),
                forall|id: u64|
                    cleaned_up@.contains(id) ==> #[trigger] old(self).records@.contains_key(id),
                self.records@ == old(self).records@.remove_keys(
                    cleaned_up@.take(k as int).to_set(),
                ),
                self.records@.len() + k == old(self).records@.len(),
                self.unused@ == old(self).unused@.filter(not(p)),
                self.running == old(self).running,
                self.prepared == old(self).prepared,
                self.outstandings == old(self).outstandings,
                self.next_id == old(self).next_id,
                self.cleanup_timeout == old(self).cleanup_timeout,
            decreases removed - k,
        {
            let id: u64 = cleaned_up[k];
            proof {
                assert(cleaned_up@.contains(id));
                assert(!cleaned_up@.take(k as int).contains(id));
                assert(cleaned_up@.take(k + 1) =~= cleaned_up@.take(k as int).push(id));
                assert(cleaned_up@.take(k + 1).to_set() =~= cleaned_up@.take(
                    k as int,
                ).to_set().insert(id)) by {
                    assert forall|x: u64|
                        cleaned_up@.take(k + 1).to_set().contains(x) <==> cleaned_up@.take(
                            k as int,
                        ).to_set().insert(id).contains(x) by {
                        let t = cleaned_up@.take(k as int);
                        if t.contains(x) {
                            let j = choose|j: int| 0 <= j < t.len() && t[j] == x;
                            assert(t.push(id)[j] == x);
                        }
                        assert(t.push(id)[k as int] == id);
                    }
                }
                assert(self.records@.contains_key(id));
            }
            if let Some(mut record) = self.records.remove(&id) {
                record.stop();
            }
            proof {
                assert(self.records@ =~= old(self).records@.remove_keys(
                    cleaned_up@.take(k + 1).to_set(),
                ));
            }
            k += 1;
        }
        proof {
            assert(cleaned_up@.take(removed as int) =~= cleaned_up@);
        }
        self.outstandings = self.outstandings - removed as u32;
        proof {
            assert forall|id: u64| #[trigger] self.unused@.contains(id) implies {
                &&& self.records@.contains_key(id)
                &&& self.records@[id].unused_since is Some
                &&& !self.running@.contains(id)
                &&& !self.prepared@.contains(id)
            } by {
                assert(old(self).unused@.contains(id));
                assert(!old(self).unused@.filter(p).contains(id));
                assert(!cleaned_up@.contains(id));
            }
            assert forall|id: u64| #[trigger] self.running@.contains(id) implies self.records@.contains_key(
                id,
            ) by {
                assert(!old(self).unused@.contains(id));
                assert(!cleaned_up@.contains(id));
            }
            assert forall|id: u64| #[trigger] self.prepared@.contains(id) implies self.records@.contains_key(
                id,
            ) by {
                assert(!old(self).unused@.contains(id)) by {
                    if old(self).unused@.contains(id) {
                        assert(!self.prepared@.contains(id));
                    }
                }
                assert(!cleaned_up@.contains(id));
            }
        }
        cleaned_up
    }

    /// Sets how long pipelines are kept unused, in seconds, and cleans up.
    pub fn set_cleanup_timeout(&mut self, timeout: u64, now: u64) -> (r: Vec<u64>)
        requires
            old(self).wf(),
        ensures
            final(self).wf(),
            old(self).cleans_up(final(self), timeout, now, r@),
    {
        self.cleanup_timeout = timeout;
        self.cleanup(now)
    }

    /// Gives up every prepared pipeline, the last one first. They are to be
    /// torn down.
    fn release_prepared(&mut self) -> (r: Vec<u64>)
        requires
            old(self).wf(),
        ensures
            final(self).wf(),
            r@ == old(self).prepared@.reverse(),
            final(self).prepared@ == Seq::<u64>::empty(),
            final(self).records@.dom() == old(self).records@.dom(),
            forall|id: u64| #[trigger]
                final(self).records@.contains_key(id) ==> final(self).records@[id] == (if old(
                    self,
                ).prepared@.contains(id) {
                    PooledPlayBin { target_src: None, stream: None, ..old(self).records@[id] }
                } else {
                    old(self).records@[id]
                }),
            final(self).running == old(self).running,
            final(self).unused == old(self).unused,
            final(self).outstandings == old(self).outstandings,
            final(self).next_id == old(self).next_id,
            final(self).cleanup_timeout == old(self).cleanup_timeout,
    {
        let mut released: Vec<u64> = Vec::new();
        let ghost all = self.prepared@;
        proof {
            assert(all.take(all.len() as int) =~= all);
        }
        while self.prepared.len() > 0
            invariant
                self.wf(),
                all == old(self).prepared@,
                all.no_duplicates(),
                self.prepared@.len() <= all.len(),
                self.prepared@ == all.take(self.prepared@.len() as int),
                released@ == all.skip(self.prepared@.len() as int).reverse(),
                self.records@.dom() == old(self).records@.dom(),
                forall|id: u64| #[trigger]
                    self.records@.contains_key(id) ==> self.records@[id] == (if all.contains(id)
                        && !self.prepared@.contains(id) {
                        PooledPlayBin { target_src: None, stream: None, ..old(self).records@[id] }
                    } else {
                        old(self).records@[id]
                    }),
                self.running == old(self).running,
                self.unused == old(self).unused,
                self.outstandings == old(self).outstandings,
                self.next_id == old(self).next_id,
                self.cleanup_timeout == old(self).cleanup_timeout,
            decreases self.prepared@.len(),
        {
            let ghost before = *self;
            let ghost last = self.prepared@.len() - 1;
            proof {
                assert(self.prepared@.contains(self.prepared@[last]));
                assert(all.contains(self.prepared@[last]));
                lemma_removed(self.prepared@, last);
                assert(self.prepared@.remove(last) =~= self.prepared@.drop_last());
            }
            let id: u64 = self.prepared.pop().unwrap();
            self.release_record(id);
            released.push(id);
            proof {
                assert(all.skip(last).reverse() =~= all.skip(last + 1).reverse().push(all[last]));
                assert(self.records@.dom() =~= old(self).records@.dom());
                assert(self.prepared@ =~= all.take(last));
            }
        }
        proof {
            assert(all.skip(0) =~= all);
        }
        released
    }

    /// Shuts the pool down: nothing is kept unused any more, and every
    /// prepared pipeline is given up. Returns the pipelines to stop and those
    /// to tear down.
    pub fn deinit(&mut self, now: u64) -> (r: (Vec<u64>, Vec<u64>))
        requires
            old(self).wf(),
        ensures
            final(self).wf(),
            r.0@ == old(self).unused@.filter(expired(old(self).records@, now, 0)).reverse(),
            r.1@ == old(self).prepared@.reverse(),
            final(self).unused@ == old(self).unused@.filter(
                not(expired(old(self).records@, now, 0)),
            ),
            final(self).prepared@ == Seq::<u64>::empty(),
            final(self).running == old(self).running,
            final(self).records@.dom() == old(self).records@.dom().difference(r.0@.to_set()),
            forall|id: u64| #[trigger]
                final(self).records@.contains_key(id) ==> final(self).records@[id] == (if old(
                    self,
                ).prepared@.contains(id) {
                    PooledPlayBin { target_src: None, stream: None, ..old(self).records@[id] }
                } else {
                    old(self).records@[id]
                }),
            final(self).outstandings == old(self).outstandings - r.0@.len(),
            final(self).next_id == old(self).next_id,
            final(self).cleanup_timeout == 0,
    {
        let stopped = self.set_cleanup_timeout(0, now);
        let ghost mid = *self;
        let released = self.release_prepared();
        proof {
            assert(self.records@.dom() =~= old(self).records@.dom().difference(stopped@.to_set()));
            assert forall|id: u64| #[trigger] self.records@.contains_key(id) implies mid.records@[id]
                == old(self).records@[id] by {
                assert(mid.records@.contains_key(id));
            }
        }
        (stopped, released)
    }

    /// Whether the last pipeline is gone, so that shutting down is done.
    pub fn is_drained(&self) -> (r: bool)
        requires
            self.wf(),
        ensures
            r == (self.records@.dom() == Set::<u64>::empty()),
    {
        proof {
            if self.outstandings == 0 {
                assert(self.records@.dom() =~= Set::<u64>::empty());
            }
        }
        self.outstandings == 0
    }

    /// The pipeline with the given number.
    pub fn pipeline(&self, id: u64) -> (r: Option<&PooledPlayBin>)
        ensures
            match r {
                Some(record) => self.records@.contains_key(id) && *record == self.records@[id],
                None => !self.records@.contains_key(id),
            },
    {
        self.records.get(&id)
    }

    /// Selects a stream of the collection that a pipeline offers, and returns
    /// its identifier.
    pub fn select_stream(&mut self, id: u64, streams: &Vec<Stream>) -> (r: Option<String>)
        requires
            old(self).wf(),
            old(self).records@.contains_key(id),
        ensures
            final(self).wf(),
            final(self).records@ == old(self).records@.insert(
                id,
                PooledPlayBin {
                    stream: match specified(
                        streams@,
                        old(self).records@[id].stream_id,
                        old(self).records@[id].stream_type,
                    ) {
                        Some(i) => Some(streams@[i]),
                        None => old(self).records@[id].stream,
                    },
                    ..old(self).records@[id]
                },
            ),
            r == (match specified(
                streams@,
                old(self).records@[id].stream_id,
                old(self).records@[id].stream_type,
            ) {
                Some(i) => streams@[i].id,
                None => None,
            }),
            final(self).running == old(self).running,
            final(self).unused == old(self).unused,
            final(self).prepared == old(self).prepared,
            final(self).outstandings == old(self).outstandings,
            final(self).next_id == old(self).next_id,
            final(self).cleanup_timeout == old(self).cleanup_timeout,
    {
        let mut record = self.records.remove(&id).unwrap();
        let stream_id = record.handle_bus_message(streams);
        self.records.insert(id, record);
        proof {
            assert(self.records@ =~= old(self).records@.insert(id, self.records@[id]));
        }
        stream_id
    }
}

/// A pipeline that was prepared for a source is the one that the source gets,
/// whatever the source asks for by then.
pub proof fn law_prepared_pipeline_is_used(
    start: &PlaybinPool,
    taken: &PlaybinPool,
    ready: &PlaybinPool,
    end: &PlaybinPool,
    request: Request,
    prepared: Acquired,
    later: Request,
    got: Acquired,
)
    requires
        start.wf(),
        start.prepares(taken, request, Some(prepared)),
        taken.keeps_prepared(ready, prepared.id, true),
        later.src == request.src,
        ready.gets(end, later, got),
    ensures
        got == (Acquired { id: prepared.id, origin: Origin::Prepared }),
{
    let p = targeting(ready.records@, request.src);
    let n = start.prepared@.len() as int;
    assert(ready.prepared@[n] == prepared.id);
    assert forall|j: int| 0 <= j < n implies !p(#[trigger] ready.prepared@[j]) by {
        let id = start.prepared@[j];
        assert(start.prepared@.contains(id));
        lemma_reusable_is_unused(start.unused@, start.records@, request);
        assert(id != prepared.id) by {
            assert(start.records@.contains_key(id));
        }
        if p(id) {
            assert(targeting(start.records@, request.src)(start.prepared@[j]));
            lemma_first_exists(start.prepared@, targeting(start.records@, request.src), j);
        }
    }
    assert(p(ready.prepared@[n]));
    assert(is_first(ready.prepared@, p, n));
    lemma_first_is(ready.prepared@, p, n);
}

/// One pipeline is prepared for a source at a time.
pub proof fn law_prepare_twice_is_refused(
    taken: &PlaybinPool,
    ready: &PlaybinPool,
    end: &PlaybinPool,
    id: u64,
    later: Request,
    r: Option<Acquired>,
)
    requires
        taken.records@.contains_key(id),
        taken.records@[id].target_src == Some(later.src),
        taken.keeps_prepared(ready, id, true),
        ready.prepares(end, later, r),
    ensures
        r is None,
        end == ready,
{
    let n = taken.prepared@.len() as int;
    assert(ready.prepared@[n] == id);
    lemma_first_exists(ready.prepared@, targeting(ready.records@, later.src), n);
}

/// What is set up again is one of the unused pipelines.
proof fn lemma_reusable_is_unused(unused: Seq<u64>, records: Records, request: Request)
    ensures
        reusable(unused, records, request) matches Some(i) ==> 0 <= i < unused.len()
            && unused.contains(unused[i]),
{
    let same = requesting(records, request.stream_id);
    let other = elsewhere(records, request.uri@);
    match first_index(unused, same) {
        Some(i) => {
            assert(is_first(unused, same, i));
        },
        None => {
            if let Some(i) = first_index(unused, other) {
                assert(is_first(unused, other, i));
            }
        },
    }
}

/// Whenever an unused pipeline plays another location than is asked for, one of
/// them is set up again, and none is made.
pub proof fn law_unused_pipelines_come_first(
    start: &PlaybinPool,
    end: &PlaybinPool,
    id: u64,
    request: Request,
    got: Acquired,
)
    requires
        start.unused@.contains(id),
        elsewhere(start.records@, request.uri@)(id),
        start.acquires(end, request, got),
    ensures
        got.origin is Reused,
        start.unused@.contains(got.id),
        end.outstandings == start.outstandings,
        end.next_id == start.next_id,
{
    let i = choose|i: int| 0 <= i < start.unused@.len() && start.unused@[i] == id;
    lemma_first_exists(start.unused@, elsewhere(start.records@, request.uri@), i);
    lemma_reusable_is_unused(start.unused@, start.records@, request);
}

/// A pipeline that was torn down is used again for the next source that asks
/// for the stream it was asked for.
pub proof fn law_released_pipeline_is_reused(
    playing: &PlaybinPool,
    released: &PlaybinPool,
    unused: &PlaybinPool,
    end: &PlaybinPool,
    id: u64,
    now: u64,
    request: Request,
    got: Acquired,
)
    requires
        playing.records@.contains_key(id),
        request.stream_id is Some,
        same_text(playing.records@[id].stream_id, request.stream_id),
        playing.releases(released, id),
        released.takes_back(unused, id, now),
        first_index(unused.prepared@, targeting(unused.records@, request.src)) is None,
        unused.gets(end, request, got),
    ensures
        got == (Acquired { id, origin: Origin::Reused }),
{
    let p = requesting(unused.records@, request.stream_id);
    assert(unused.unused@[0] == id);
    assert(is_first(unused.unused@, p, 0));
    lemma_first_is(unused.unused@, p, 0);
}

/// No two sources play through one pipeline: the one that a source gets was
/// played by none.
pub proof fn law_pipelines_are_not_shared(
    start: &PlaybinPool,
    end: &PlaybinPool,
    request: Request,
    got: Acquired,
)
    requires
        start.wf(),
        start.gets(end, request, got),
    ensures
        !start.running@.contains(got.id),
        end.running@.contains(got.id),
{
    assert(end.running@[start.running@.len() as int] == got.id);
    match first_index(start.prepared@, targeting(start.records@, request.src)) {
        Some(i) => {
            assert(is_first(start.prepared@, targeting(start.records@, request.src), i));
            assert(start.prepared@.contains(got.id));
        },
        None => {
            lemma_reusable_is_unused(start.unused@, start.records@, request);
            assert(!start.records@.contains_key(start.next_id));
        },
    }
}

/// An unused pipeline is kept until it has been unused for more than the
/// timeout, and no longer.
pub proof fn law_kept_for_the_timeout(
    start: &PlaybinPool,
    end: &PlaybinPool,
    timeout: u64,
    now: u64,
    stopped: Seq<u64>,
    id: u64,
)
    requires
        start.wf(),
        start.cleans_up(end, timeout, now, stopped),
        start.unused@.contains(id),
    ensures
        ({
            let overdue = now - start.records@[id].unused_since->0 > timeout * SECOND;
            &&& end.unused@.contains(id) <==> !overdue
            &&& end.records@.contains_key(id) <==> !overdue
            &&& stopped.contains(id) <==> overdue
        }),
{
    let p = expired(start.records@, now, timeout);
    lemma_filter_members(start.unused@, p);
    lemma_filter_members(start.unused@, not(p));
    lemma_reversed(start.unused@.filter(p));
    assert(start.unused@.filter(p).contains(id) <==> p(id));
    assert(start.unused@.filter(not(p)).contains(id) <==> !p(id));
}

/// Once the pool was shut down, a pipeline that is torn down is stopped by the
/// next clean-up, and there is one less to wait for.
pub proof fn law_shut_down_stops_what_comes_back(
    start: &PlaybinPool,
    unused: &PlaybinPool,
    end: &PlaybinPool,
    id: u64,
    since: u64,
    now: u64,
    stopped: Seq<u64>,
)
    requires
        start.wf(),
        start.records@.contains_key(id),
        start.unlisted(id),
        start.takes_back(unused, id, since),
        start.cleanup_timeout == 0,
        unused.cleans_up(end, unused.cleanup_timeout, now, stopped),
        now > since,
    ensures
        stopped.contains(id),
        !end.records@.contains_key(id),
        end.outstandings < start.outstandings,
{
    let p = expired(unused.records@, now, 0);
    assert(unused.unused@[0] == id);
    assert(unused.unused@.contains(id));
    lemma_filter_members(unused.unused@, p);
    lemma_reversed(unused.unused@.filter(p));
    assert(unused.unused@.filter(p).contains(id));
    assert(stopped.to_set().contains(id));
}

/// What a source gets that was not prepared for it plays what the source asked for,
/// whether it is new or was used before.
pub proof fn law_source_plays_what_it_asked_for(
    pool: &mut PlaybinPool,
    request: Request,
    got: Acquired,
    x: u64,
)
    requires
        !(got.origin is Prepared),
        call_ensures(PlaybinPool::get, (pool, &request), got),
    ensures
        plays_what_was_asked_for(&*old(pool), &*final(pool), request, got, x),
        final(pool).running@ == old(pool).running@.push(got.id),
        final(pool).prepared@ == old(pool).prepared@,
{
    lemma_acquired(&*old(pool), &*final(pool), request, got, x);
}

/// So does what is prepared for a source; it is played by nobody yet.
pub proof fn law_prepared_pipeline_plays_what_was_asked_for(
    pool: &mut PlaybinPool,
    request: Request,
    got: Acquired,
    x: u64,
)
    requires
        call_ensures(PlaybinPool::prepare_pipeline, (pool, &request), Some(got)),
    ensures
        plays_what_was_asked_for(&*old(pool), &*final(pool), request, got, x),
        final(pool).running@ == old(pool).running@,
        final(pool).prepared@ == old(pool).prepared@,
{
    lemma_acquired(&*old(pool), &*final(pool), request, got, x);
}

/// The pipeline is set up for the request and plays for its source; it was unused before,
/// or it is a new one; nothing else changes.
pub open spec fn plays_what_was_asked_for(
    before: &PlaybinPool,
    after: &PlaybinPool,
    request: Request,
    got: Acquired,
    x: u64,
) -> bool {
    let record = after.records@[got.id];
    &&& after.records@.contains_key(got.id)
    &&& record.uri@ == request.uri@ && record.stream_type == request.stream_type
    &&& record.stream_id == request.stream_id && record.stream is None
    &&& record.target_src == Some(request.src) && record.unused_since is None && record.listening
    &&& got.origin is Created || got.origin is Reused
    &&& got.origin is Created ==> got.id == before.next_id && after.next_id == before.next_id + 1
        && after.outstandings == before.outstandings + 1 && after.unused@ == before.unused@
    &&& got.origin is Reused ==> before.unused@.contains(got.id) && after.next_id == before.next_id
        && after.outstandings == before.outstandings && after.unused@.len() == before.unused@.len()
        - 1 && before.records@.contains_key(got.id)
    &&& x != got.id ==> (after.unused@.contains(x) <==> before.unused@.contains(x))
    &&& x != got.id ==> (after.records@.contains_key(x) <==> before.records@.contains_key(x))
    &&& x != got.id && before.records@.contains_key(x) ==> after.records@[x] == before.records@[x]
    &&& after.cleanup_timeout == before.cleanup_timeout
}

proof fn lemma_acquired(
    before: &PlaybinPool,
    after: &PlaybinPool,
    request: Request,
    got: Acquired,
    x: u64,
)
    requires
        before.acquires(after, request, got),
    ensures
        plays_what_was_asked_for(before, after, request, got, x),
{
    if reusable(before.unused@, before.records@, request) is Some {
        let i = reusable(before.unused@, before.records@, request)->0;
        let p = requesting(before.records@, request.stream_id);
        if first_index(before.unused@, p) is Some {
            assert(is_first(before.unused@, p, i));
        } else {
            assert(is_first(before.unused@, elsewhere(before.records@, request.uri@), i));
        }
        lemma_removed(before.unused@, i);
    }
}

/// An unused pipeline that was asked for the same stream comes first, then one that plays
/// another location, of each kind the first one; only without either a pipeline is made.
pub proof fn law_most_suitable_pipeline_is_used_again(
    pool: &mut PlaybinPool,
    request: Request,
    got: Acquired,
    i: int,
)
    requires
        !(got.origin is Prepared),
        0 <= i < old(pool).unused@.len(),
        old(pool).records@.contains_key(old(pool).unused@[i]),
        call_ensures(PlaybinPool::get, (pool, &request), got),
    ensures
        ({
            let wanted = request.stream_id is Some
                && old(pool).records@[old(pool).unused@[i]].stream_id is Some
                && old(pool).records@[old(pool).unused@[i]].stream_id->0@ == request.stream_id->0@;
            let other = old(pool).records@[old(pool).unused@[i]].uri@ != request.uri@;
            let same = request.stream_id is Some && old(pool).records@[got.id].stream_id is Some
                && old(pool).records@[got.id].stream_id->0@ == request.stream_id->0@;
            &&& wanted || other ==> got.origin is Reused
            &&& wanted ==> same && exists|k: int|
                0 <= k <= i && #[trigger] old(pool).unused@[k] == got.id
            &&& other && got.origin is Reused && !same ==> exists|k: int|
                0 <= k <= i && #[trigger] old(pool).unused@[k] == got.id
            &&& got.origin is Reused && !same ==> old(pool).records@[got.id].uri@ != request.uri@
        }),
{
    let p = requesting(old(pool).records@, request.stream_id);
    let q = elsewhere(old(pool).records@, request.uri@);
    let id = old(pool).unused@[i];
    if p(id) {
        lemma_first_exists(old(pool).unused@, p, i);
        let k = first_index(old(pool).unused@, p)->0;
        if k > i {
            assert(!p(old(pool).unused@[i]));
        }
        assert(old(pool).unused@[k] == got.id);
    } else if q(id) {
        lemma_first_exists(old(pool).unused@, q, i);
        let k = first_index(old(pool).unused@, q)->0;
        if k > i {
            assert(!q(old(pool).unused@[i]));
        }
        if first_index(old(pool).unused@, p) is Some {
            let j = first_index(old(pool).unused@, p)->0;
            assert(is_first(old(pool).unused@, p, j));
        } else {
            assert(old(pool).unused@[k] == got.id);
        }
    }
    if got.origin is Reused {
        if first_index(old(pool).unused@, p) is Some {
            let j = first_index(old(pool).unused@, p)->0;
            assert(is_first(old(pool).unused@, p, j));
        } else {
            let j = first_index(old(pool).unused@, q)->0;
            assert(is_first(old(pool).unused@, q, j));
        }
    }
}

/// The source gets the first pipeline that was prepared for it, as it is, and plays it
/// from then on; nothing else changes.
pub proof fn law_first_prepared_pipeline_is_played(
    pool: &mut PlaybinPool,
    request: Request,
    got: Acquired,
    i: int,
)
    requires
        0 <= i < old(pool).prepared@.len(),
        old(pool).records@.contains_key(old(pool).prepared@[i]),
        old(pool).records@[old(pool).prepared@[i]].target_src == Some(request.src),
        call_ensures(PlaybinPool::get, (pool, &request), got),
    ensures
        got.origin is Prepared,
        old(pool).records@[got.id].target_src == Some(request.src),
        exists|k: int|
            0 <= k <= i && #[trigger] old(pool).prepared@[k] == got.id && final(pool).prepared@
                == old(pool).prepared@.remove(k),
        final(pool).running@ == old(pool).running@.push(got.id),
        final(pool).records@ == old(pool).records@,
        final(pool).unused@ == old(pool).unused@,
        final(pool).outstandings == old(pool).outstandings,
        final(pool).next_id == old(pool).next_id,
        final(pool).cleanup_timeout == old(pool).cleanup_timeout,
{
    let p = targeting(old(pool).records@, request.src);
    assert(p(old(pool).prepared@[i]));
    lemma_first_exists(old(pool).prepared@, p, i);
    let k = first_index(old(pool).prepared@, p)->0;
    if k > i {
        assert(!p(old(pool).prepared@[i]));
    }
    assert(old(pool).prepared@[k] == got.id);
}

/// A pipeline that is handed out as prepared was meant for the source, and nothing is
/// prepared for a source exactly where that was done before.
pub proof fn law_one_prepared_pipeline_is_enough(
    pool: &mut PlaybinPool,
    other_pool: &mut PlaybinPool,
    request: Request,
    got: Acquired,
    r: Option<Acquired>,
    x: u64,
)
    requires
        call_ensures(PlaybinPool::get, (pool, &request), got),
        call_ensures(PlaybinPool::prepare_pipeline, (other_pool, &request), r),
    ensures
        got.origin is Prepared ==> old(pool).prepared@.contains(got.id)
            && old(pool).records@.contains_key(got.id)
            && old(pool).records@[got.id].target_src == Some(
            request.src,
        ),
        r is None ==> *final(other_pool) == *old(other_pool) && exists|id: u64|
            old(other_pool).prepared@.contains(id)
                && #[trigger] old(other_pool).records@.contains_key(id)
                && old(other_pool).records@[id].target_src
                == Some(request.src),
        r is Some && old(other_pool).prepared@.contains(x)
            && old(other_pool).records@.contains_key(x) ==> old(other_pool).records@[x].target_src
            != Some(request.src),
{
    let p = targeting(old(pool).records@, request.src);
    if first_index(old(pool).prepared@, p) is Some {
        let i = first_index(old(pool).prepared@, p)->0;
        assert(is_first(old(pool).prepared@, p, i));
    } else {
        lemma_acquired(&*old(pool), &*final(pool), request, got, x);
    }
    let q = targeting(old(other_pool).records@, request.src);
    if r is None {
        let i = first_index(old(other_pool).prepared@, q)->0;
        assert(is_first(old(other_pool).prepared@, q, i));
        let id = old(other_pool).prepared@[i];
        assert(old(other_pool).prepared@.contains(id) && old(other_pool).records@.contains_key(id));
    } else if old(other_pool).prepared@.contains(x) && q(x) {
        let i = choose|i: int|
            0 <= i < old(other_pool).prepared@.len() && old(other_pool).prepared@[i] == x;
        lemma_first_exists(old(other_pool).prepared@, q, i);
    }
}

/// A pipeline that is to be prepared is kept for its source if it could be set to play;
/// else nothing changes.
pub proof fn law_only_playing_pipelines_are_prepared(
    pool: &mut PlaybinPool,
    id: u64,
    played: bool,
    r: bool,
)
    requires
        call_ensures(PlaybinPool::pipeline_prepared, (pool, id, played), r),
    ensures
        r == played,
        played ==> final(pool).prepared@ == old(pool).prepared@.push(id),
        !played ==> final(pool).prepared@ == old(pool).prepared@,
        *final(pool) == (PlaybinPool { prepared: final(pool).prepared, ..*old(pool) }),
{
}

/// A pipeline that its source gives back plays for nobody; everything else stays.
pub proof fn law_released_pipeline_plays_for_nobody(pool: &mut PlaybinPool, id: u64, x: u64)
    requires
        call_ensures(PlaybinPool::release, (pool, id), ()),
    ensures
        final(pool).records@ == old(pool).records@.insert(
            id,
            PooledPlayBin { target_src: None, stream: None, ..old(pool).records@[id] },
        ),
        !final(pool).running@.contains(id),
        x != id ==> (final(pool).running@.contains(x) <==> old(pool).running@.contains(x)),
        final(pool).prepared@ == old(pool).prepared@,
        final(pool).unused@ == old(pool).unused@,
        final(pool).outstandings == old(pool).outstandings,
        final(pool).next_id == old(pool).next_id,
        final(pool).cleanup_timeout == old(pool).cleanup_timeout,
{
    lemma_filter_members(old(pool).running@, other_than(id));
}

/// The first pipeline that was prepared for a source is given up, and plays for nobody.
pub proof fn law_prepared_pipeline_is_given_up(
    pool: &mut PlaybinPool,
    src: u64,
    r: Option<u64>,
    i: int,
)
    requires
        call_ensures(PlaybinPool::unprepare_pipeline, (pool, src), r),
    ensures
        r matches Some(id) ==> {
            &&& old(pool).prepared@.contains(id) && old(pool).records@.contains_key(id)
            &&& old(pool).records@[id].target_src == Some(src)
            &&& final(pool).prepared@.len() == old(pool).prepared@.len() - 1
            &&& final(pool).records@ == old(pool).records@.insert(
                id,
                PooledPlayBin { target_src: None, stream: None, ..old(pool).records@[id] },
            )
            &&& final(pool).running@ == old(pool).running@
            &&& final(pool).unused@ == old(pool).unused@
            &&& final(pool).outstandings == old(pool).outstandings
        },
        r is None ==> *final(pool) == *old(pool),
        0 <= i < old(pool).prepared@.len() && old(pool).records@.contains_key(
            old(pool).prepared@[i],
        ) && old(pool).records@[old(pool).prepared@[i]].target_src == Some(src) ==> exists|k: int|
            0 <= k <= i && r == Some(#[trigger] old(pool).prepared@[k]) && final(pool).prepared@
                == old(pool).prepared@.remove(k),
{
    let p = targeting(old(pool).records@, src);
    if first_index(old(pool).prepared@, p) is Some {
        let k = first_index(old(pool).prepared@, p)->0;
        assert(is_first(old(pool).prepared@, p, k));
        if 0 <= i < old(pool).prepared@.len() && p(old(pool).prepared@[i]) {
            if k > i {
                assert(!p(old(pool).prepared@[i]));
            }
            assert(r == Some(old(pool).prepared@[k]));
        }
    } else if 0 <= i < old(pool).prepared@.len() && p(old(pool).prepared@[i]) {
        lemma_first_exists(old(pool).prepared@, p, i);
    }
}

/// A pipeline that was torn down is unused from then on, the first of them; it is looked
/// at again after the timeout.
pub proof fn law_torn_down_pipeline_is_unused(pool: &mut PlaybinPool, id: u64, now: u64, r: u64)
    requires
        call_ensures(PlaybinPool::released, (pool, id, now), r),
    ensures
        r == old(pool).cleanup_timeout,
        final(pool).unused@ == seq![id] + old(pool).unused@,
        final(pool).records@ == old(pool).records@.insert(
            id,
            PooledPlayBin { unused_since: Some(now), ..old(pool).records@[id] },
        ),
        *final(pool) == (PlaybinPool {
            unused: final(pool).unused,
            records: final(pool).records,
            ..*old(pool)
        }),
{
    assert(final(pool).unused@ =~= seq![id] + old(pool).unused@);
}

/// A clean-up stops and forgets what has been unused for longer than the timeout, the last
/// of it first, and nothing else.
pub proof fn law_overdue_pipelines_are_stopped(
    pool: &mut PlaybinPool,
    now: u64,
    r: Vec<u64>,
    x: u64,
    a: int,
    b: int,
)
    requires
        call_ensures(PlaybinPool::cleanup, (pool, now), r),
    ensures
        stops_what_is_overdue(
            &*old(pool),
            &*final(pool),
            old(pool).cleanup_timeout,
            now,
            r@,
            x,
            a,
            b,
        ),
{
    lemma_cleaned_up(&*old(pool), &*final(pool), old(pool).cleanup_timeout, now, r@, x, a, b);
}

/// The timeout that is set counts for the clean-up that follows, and from then on.
pub proof fn law_new_timeout_counts_at_once(
    pool: &mut PlaybinPool,
    timeout: u64,
    now: u64,
    r: Vec<u64>,
    x: u64,
    a: int,
    b: int,
)
    requires
        call_ensures(PlaybinPool::set_cleanup_timeout, (pool, timeout, now), r),
    ensures
        stops_what_is_overdue(&*old(pool), &*final(pool), timeout, now, r@, x, a, b),
{
    lemma_cleaned_up(&*old(pool), &*final(pool), timeout, now, r@, x, a, b);
}

/// Just those unused pipelines are gone, and counted no more, that have been unused for
/// more than `timeout` seconds; the list of them is in the reverse order.
pub open spec fn stops_what_is_overdue(
    before: &PlaybinPool,
    after: &PlaybinPool,
    timeout: u64,
    now: u64,
    r: Seq<u64>,
    x: u64,
    a: int,
    b: int,
) -> bool {
    &&& r.contains(x) <==> before.unused@.contains(x) && before.records@.contains_key(x)
        && before.records@[x].unused_since is Some && now - before.records@[x].unused_since->0
        > timeout * 1_000_000_000
    &&& after.unused@.contains(x) <==> before.unused@.contains(x) && !r.contains(x)
    &&& after.records@.contains_key(x) <==> before.records@.contains_key(x) && !r.contains(x)
    &&& after.records@.contains_key(x) ==> after.records@[x] == before.records@[x]
    &&& 0 <= a < b < r.len() ==> exists|i: int, j: int|
        0 <= j < i < before.unused@.len() && #[trigger] before.unused@[i] == r[a]
            && #[trigger] before.unused@[j] == r[b]
    &&& 0 <= a < b < after.unused@.len() ==> exists|i: int, j: int|
        0 <= i < j < before.unused@.len() && #[trigger] before.unused@[i] == after.unused@[a]
            && #[trigger] before.unused@[j] == after.unused@[b]
    &&& after.outstandings + r.len() == before.outstandings
    &&& after.running@ == before.running@ && after.prepared@ == before.prepared@
    &&& after.next_id == before.next_id && after.cleanup_timeout == timeout
}

proof fn lemma_cleaned_up(
    before: &PlaybinPool,
    after: &PlaybinPool,
    timeout: u64,
    now: u64,
    r: Seq<u64>,
    x: u64,
    a: int,
    b: int,
)
    requires
        before.cleans_up(after, timeout, now, r),
    ensures
        stops_what_is_overdue(before, after, timeout, now, r, x, a, b),
{
    let p = expired(before.records@, now, timeout);
    let f = before.unused@.filter(p);
    lemma_filter_members(before.unused@, p);
    lemma_filter_members(before.unused@, not(p));
    lemma_reversed(f);
    assert(f.contains(x) <==> before.unused@.contains(x) && p(x));
    assert(before.unused@.filter(not(p)).contains(x) <==> before.unused@.contains(x) && !p(x));
    assert(r.to_set().contains(x) <==> r.contains(x));
    if 0 <= a < b < r.len() {
        lemma_filter_order(before.unused@, p, f.len() - 1 - b, f.len() - 1 - a);
        let (j, i) = choose|j: int, i: int|
            0 <= j < i < before.unused@.len() && #[trigger] before.unused@[j] == f[f.len() - 1 - b]
                && #[trigger] before.unused@[i] == f[f.len() - 1 - a];
        assert(before.unused@[i] == r[a] && before.unused@[j] == r[b]);
    }
    if 0 <= a < b < after.unused@.len() {
        lemma_filter_order(before.unused@, not(p), a, b);
    }
}

/// Shutting the pool down stops and forgets what was unused before, and gives up every
/// prepared pipeline, the last one first; what is played goes on.
pub proof fn law_shut_down_gives_up_what_is_prepared(
    pool: &mut PlaybinPool,
    now: u64,
    stopped: Vec<u64>,
    released: Vec<u64>,
    i: int,
    x: u64,
)
    requires
        call_ensures(PlaybinPool::deinit, (pool, now), (stopped, released)),
    ensures
        stopped@.contains(x) <==> old(pool).unused@.contains(x)
            && old(pool).records@.contains_key(x)
            && old(pool).records@[x].unused_since is Some && now
            > old(pool).records@[x].unused_since->0,
        final(pool).unused@.contains(x) <==> old(pool).unused@.contains(x) && !stopped@.contains(x),
        released@.len() == old(pool).prepared@.len(),
        0 <= i < released@.len() ==> released@[i] == old(pool).prepared@[released@.len() - 1 - i],
        final(pool).prepared@.len() == 0,
        final(pool).running@ == old(pool).running@,
        final(pool).records@.contains_key(x) <==> old(pool).records@.contains_key(x)
            && !stopped@.contains(x),
        final(pool).records@.contains_key(x) && old(pool).prepared@.contains(x)
            ==> final(pool).records@[x] == (PooledPlayBin {
            target_src: None,
            stream: None,
            ..old(pool).records@[x]
        }),
        final(pool).records@.contains_key(x) && !old(pool).prepared@.contains(x)
            ==> final(pool).records@[x] == old(pool).records@[x],
        final(pool).outstandings + stopped@.len() == old(pool).outstandings,
        final(pool).next_id == old(pool).next_id,
        final(pool).cleanup_timeout == 0,
{
    let p = expired(old(pool).records@, now, 0);
    let f = old(pool).unused@.filter(p);
    lemma_filter_members(old(pool).unused@, p);
    lemma_filter_members(old(pool).unused@, not(p));
    lemma_reversed(f);
    assert(f.contains(x) <==> old(pool).unused@.contains(x) && p(x));
    assert(old(pool).unused@.filter(not(p)).contains(x) <==> old(pool).unused@.contains(x)
        && !p(x));
    assert(stopped@.to_set().contains(x) <==> stopped@.contains(x));
    assert(final(pool).records@.dom().contains(x) <==> old(pool).records@.dom().contains(x)
        && !stopped@.to_set().contains(x));
}

/// A new pool has no pipelines and keeps unused ones for a quarter of a minute; a pool is
/// drained when it has no pipeline. One that it has is found by its number.
pub proof fn law_new_pool_is_drained(
    fresh: PlaybinPool,
    pool: PlaybinPool,
    drained: bool,
    id: u64,
    found: Option<&PooledPlayBin>,
)
    requires
        call_ensures(PlaybinPool::new, (), fresh),
        call_ensures(PlaybinPool::is_drained, (&pool,), drained),
        call_ensures(PlaybinPool::pipeline, (&pool, id), found),
    ensures
        !fresh.records@.contains_key(id),
        fresh.running@.len() == 0 && fresh.unused@.len() == 0 && fresh.prepared@.len() == 0,
        fresh.outstandings == 0 && fresh.next_id == 0 && fresh.cleanup_timeout == 15,
        drained ==> !pool.records@.contains_key(id),
        !drained ==> exists|x: u64| #[trigger] pool.records@.contains_key(x),
        found is Some <==> pool.records@.contains_key(id),
        found is Some ==> *found->0 == pool.records@[id],
{
    if !drained {
        if forall|x: u64| !#[trigger] pool.records@.contains_key(x) {
            assert forall|x: u64| !#[trigger] pool.records@.dom().contains(x) by {
                assert(!pool.records@.contains_key(x));
            }
            assert(pool.records@.dom() =~= Set::<u64>::empty());
        }
    } else {
        assert(!pool.records@.dom().contains(id));
    }
}

/// Whatever pipeline a source gets that was not prepared, of the streams that it offers it
/// selects the one that the source asked for; without a request, one of the wanted type.
pub proof fn law_requested_stream_is_played(
    first: &mut PlaybinPool,
    second: &mut PlaybinPool,
    request: Request,
    got: Acquired,
    streams: Vec<Stream>,
    i: int,
    r: Option<String>,
)
    requires
        !(got.origin is Prepared),
        call_ensures(PlaybinPool::get, (first, &request), got),
        *second == *final(first),
        0 <= i < streams@.len(),
        streams@[i].id is Some,
        request.stream_id is Some ==> streams@[i].id->0@ == request.stream_id->0@,
        request.stream_id is None ==> streams@[i].stream_type == request.stream_type,
        call_ensures(PlaybinPool::select_stream, (second, got.id, &streams), r),
    ensures
        r is Some,
        request.stream_id is Some ==> r->0@ == request.stream_id->0@,
        final(second).records@[got.id].stream is Some,
        final(second).records@[got.id].stream->0.id == r,
        request.stream_id is None ==> final(second).records@[got.id].stream->0.stream_type
            == request.stream_type,
        final(second).records@ == old(second).records@.insert(
            got.id,
            PooledPlayBin {
                stream: final(second).records@[got.id].stream,
                ..old(second).records@[got.id]
            },
        ),
        *final(second) == (PlaybinPool { records: final(second).records, ..*old(second) }),
{
    lemma_acquired(&*old(first), &*final(first), request, got, got.id);
    let id = request.stream_id;
    law_specified_has_id(streams@, id, request.stream_type);
    if id is Some {
        lemma_first_exists(streams@, has_id(id->0@), i);
    } else {
        lemma_first_exists(streams@, of_type(request.stream_type), i);
    }
}

/// A stream that was asked for and is not offered leaves the pipeline as it is.
pub proof fn law_missing_stream_changes_nothing(
    pool: &mut PlaybinPool,
    id: u64,
    streams: Vec<Stream>,
    r: Option<String>,
)
    requires
        old(pool).records@.contains_key(id),
        old(pool).records@[id].stream_id is Some,
        forall|j: int|
            0 <= j < streams@.len() ==> !((#[trigger] streams@[j]).id is Some && streams@[j].id->0@
                == old(pool).records@[id].stream_id->0@),
        call_ensures(PlaybinPool::select_stream, (pool, id, &streams), r),
    ensures
        r is None,
        final(pool).records@ == old(pool).records@,
{
    let p = has_id(old(pool).records@[id].stream_id->0@);
    if first_index(streams@, p) is Some {
        let k = first_index(streams@, p)->0;
        assert(is_first(streams@, p, k));
    }
    assert(final(pool).records@ =~= old(pool).records@);
}

/// So it is for what is prepared for a source.
pub proof fn law_most_suitable_pipeline_is_prepared(
    pool: &mut PlaybinPool,
    request: Request,
    got: Acquired,
    i: int,
)
    requires
        0 <= i < old(pool).unused@.len(),
        old(pool).records@.contains_key(old(pool).unused@[i]),
        call_ensures(PlaybinPool::prepare_pipeline, (pool, &request), Some(got)),
    ensures
        ({
            let wanted = request.stream_id is Some
                && old(pool).records@[old(pool).unused@[i]].stream_id is Some
                && old(pool).records@[old(pool).unused@[i]].stream_id->0@ == request.stream_id->0@;
            let other = old(pool).records@[old(pool).unused@[i]].uri@ != request.uri@;
            let same = request.stream_id is Some && old(pool).records@[got.id].stream_id is Some
                && old(pool).records@[got.id].stream_id->0@ == request.stream_id->0@;
            &&& wanted || other ==> got.origin is Reused
            &&& wanted ==> same && exists|k: int|
                0 <= k <= i && #[trigger] old(pool).unused@[k] == got.id
            &&& other && got.origin is Reused && !same ==> exists|k: int|
                0 <= k <= i && #[trigger] old(pool).unused@[k] == got.id
            &&& got.origin is Reused && !same ==> old(pool).records@[got.id].uri@ != request.uri@
        }),
{
    let p = requesting(old(pool).records@, request.stream_id);
    let q = elsewhere(old(pool).records@, request.uri@);
    let id = old(pool).unused@[i];
    if p(id) {
        lemma_first_exists(old(pool).unused@, p, i);
        let k = first_index(old(pool).unused@, p)->0;
        if k > i {
            assert(!p(old(pool).unused@[i]));
        }
        assert(old(pool).unused@[k] == got.id);
    } else if q(id) {
        lemma_first_exists(old(pool).unused@, q, i);
        let k = first_index(old(pool).unused@, q)->0;
        if k > i {
            assert(!q(old(pool).unused@[i]));
        }
        if first_index(old(pool).unused@, p) is Some {
            let j = first_index(old(pool).unused@, p)->0;
            assert(is_first(old(pool).unused@, p, j));
        } else {
            assert(old(pool).unused@[k] == got.id);
        }
    }
    if got.origin is Reused {
        if first_index(old(pool).unused@, p) is Some {
            let j = first_index(old(pool).unused@, p)->0;
            assert(is_first(old(pool).unused@, p, j));
        } else {
            let j = first_index(old(pool).unused@, q)->0;
            assert(is_first(old(pool).unused@, q, j));
        }
    }
}

} // verus!
