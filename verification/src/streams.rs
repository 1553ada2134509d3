//! Which of the streams that a pipeline offers is played.
use vstd::prelude::*;

use crate::lists::{first_index, is_first, lemma_first_exists, lemma_first_is};
use crate::values::Stream;

verus! {

/// Streams with the given identifier.
pub open spec fn has_id(id: Seq<char>) -> spec_fn(Stream) -> bool {
    |stream: Stream| stream.id matches Some(own) && own@ == id
}

/// Streams of the given type that have an identifier.
pub open spec fn of_type(stream_type: u32) -> spec_fn(Stream) -> bool {
    |stream: Stream| stream.stream_type == stream_type && stream.id is Some
}

/// The stream that is played: the first one with the requested identifier, or
/// else the first one of the wanted type.
pub open spec fn selected(
    streams: Seq<Stream>,
    requested: Option<String>,
    stream_type: u32,
) -> Option<int> {
    match requested {
        Some(id) => match first_index(streams, has_id(id@)) {
            Some(i) => Some(i),
            None => first_index(streams, of_type(stream_type)),
        },
        None => first_index(streams, of_type(stream_type)),
    }
}

/// The stream that is played where the type counts only if none is requested:
/// the first one with the requested identifier, or without a request the first
/// one of the wanted type.
pub open spec fn specified(
    streams: Seq<Stream>,
    requested: Option<String>,
    stream_type: u32,
) -> Option<int> {
    match requested {
        Some(id) => first_index(streams, has_id(id@)),
        None => first_index(streams, of_type(stream_type)),
    }
}

fn find_id(streams: &Vec<Stream>, id: &String) -> (r: Option<usize>)
    ensures
        match r {
            Some(i) => first_index(streams@, has_id(id@)) == Some(i as int),
            None => first_index(streams@, has_id(id@)) is None,
        },
        r matches Some(i) ==> i < streams.len(),
{
    let mut i: usize = 0;
    while i < streams.len()
        invariant
            i <= streams.len(),
            forall|j: int| 0 <= j < i ==> !has_id(id@)(#[trigger] streams@[j]),
        decreases streams.len() - i,
    {
        let found = match &streams[i].id {
            Some(own) => *own == *id,
            None => false,
        };
        if found {
            proof {
                assert(is_first(streams@, has_id(id@), i as int));
                lemma_first_is(streams@, has_id(id@), i as int);
            }
            return Some(i);
        }
        i += 1;
    }
    None
}

fn find_type(streams: &Vec<Stream>, stream_type: u32) -> (r: Option<usize>)
    ensures
        match r {
            Some(i) => first_index(streams@, of_type(stream_type)) == Some(i as int),
            None => first_index(streams@, of_type(stream_type)) is None,
        },
        r matches Some(i) ==> i < streams.len(),
{
    let mut i: usize = 0;
    while i < streams.len()
        invariant
            i <= streams.len(),
            forall|j: int| 0 <= j < i ==> !of_type(stream_type)(#[trigger] streams@[j]),
        decreases streams.len() - i,
    {
        if streams[i].stream_type == stream_type && streams[i].id.is_some() {
            proof {
                assert(is_first(streams@, of_type(stream_type), i as int));
                lemma_first_is(streams@, of_type(stream_type), i as int);
            }
            return Some(i);
        }
        i += 1;
    }
    None
}

/// Picks the stream to play out of a collection.
pub fn select_stream(streams: &Vec<Stream>, requested: &Option<String>, stream_type: u32) -> (r:
    Option<usize>)
    ensures
        match r {
            Some(i) => i < streams.len() && selected(streams@, *requested, stream_type) == Some(
                i as int,
            ),
            None => selected(streams@, *requested, stream_type) is None,
        },
{
    if let Some(id) = requested {
        if let Some(i) = find_id(streams, id) {
            return Some(i);
        }
    }
    find_type(streams, stream_type)
}

/// Picks the stream to play out of a collection, by its type only if none is
/// requested.
pub fn specified_stream(streams: &Vec<Stream>, requested: &Option<String>, stream_type: u32) -> (r:
    Option<usize>)
    ensures
        match r {
            Some(i) => i < streams.len() && specified(streams@, *requested, stream_type) == Some(
                i as int,
            ),
            None => specified(streams@, *requested, stream_type) is None,
        },
{
    match requested {
        Some(id) => find_id(streams, id),
        None => find_type(streams, stream_type),
    }
}

/// The stream that is played has an identifier, by which it can be selected.
pub proof fn law_selected_has_id(
    streams: Seq<Stream>,
    requested: Option<String>,
    stream_type: u32,
)
    ensures
        selected(streams, requested, stream_type) matches Some(i) ==> 0 <= i < streams.len()
            && streams[i].id is Some,
{
    if let Some(id) = requested {
        if let Some(i) = first_index(streams, has_id(id@)) {
            assert(is_first(streams, has_id(id@), i));
        }
    }
    if let Some(i) = first_index(streams, of_type(stream_type)) {
        assert(is_first(streams, of_type(stream_type), i));
    }
}

/// So has the one that is played where the type counts only without a request.
pub proof fn law_specified_has_id(
    streams: Seq<Stream>,
    requested: Option<String>,
    stream_type: u32,
)
    ensures
        specified(streams, requested, stream_type) matches Some(i) ==> 0 <= i < streams.len()
            && streams[i].id is Some,
{
    match requested {
        Some(id) => {
            if let Some(i) = first_index(streams, has_id(id@)) {
                assert(is_first(streams, has_id(id@), i));
            }
        },
        None => {
            if let Some(i) = first_index(streams, of_type(stream_type)) {
                assert(is_first(streams, of_type(stream_type), i));
            }
        },
    }
}

/// Where the type counts only without a request, a request is met by the
/// requested stream or not at all, whatever type is wanted.
pub proof fn law_type_is_ignored_with_a_request(
    streams: Seq<Stream>,
    requested: Option<String>,
    stream_type: u32,
    other_type: u32,
)
    requires
        requested is Some,
    ensures
        specified(streams, requested, stream_type) == specified(streams, requested, other_type),
        specified(streams, requested, stream_type) matches Some(i) ==> streams[i].id->0@
            == requested->0@,
        specified(streams, requested, stream_type) is None <==> forall|i: int|
            0 <= i < streams.len() ==> !has_id(requested->0@)(#[trigger] streams[i]),
{
    let p = has_id(requested->0@);
    if let Some(i) = first_index(streams, p) {
        assert(is_first(streams, p, i));
    } else {
        assert forall|i: int| 0 <= i < streams.len() implies !p(#[trigger] streams[i]) by {
            if p(streams[i]) {
                lemma_first_exists(streams, p, i);
            }
        }
    }
}

/// A requested stream that is offered is the one that is played, whatever its
/// type.
pub proof fn law_requested_stream_wins(
    streams: Seq<Stream>,
    requested: Option<String>,
    stream_type: u32,
    i: int,
)
    requires
        0 <= i < streams.len(),
        requested is Some,
        streams[i].id is Some,
        streams[i].id->0@ == requested->0@,
    ensures
        selected(streams, requested, stream_type) matches Some(k) && streams[k].id->0@
            == requested->0@,
{
    lemma_first_exists(streams, has_id(requested->0@), i);
}

/// Only streams of the wanted type are played in place of a requested one.
pub proof fn law_fallback_has_type(
    streams: Seq<Stream>,
    requested: Option<String>,
    stream_type: u32,
)
    requires
        requested matches Some(id) ==> forall|i: int|
            0 <= i < streams.len() ==> !has_id(id@)(#[trigger] streams[i]),
    ensures
        selected(streams, requested, stream_type) matches Some(i) ==> streams[i].stream_type
            == stream_type,
        selected(streams, requested, stream_type) is None <==> forall|i: int|
            0 <= i < streams.len() ==> !of_type(stream_type)(#[trigger] streams[i]),
{
    if let Some(i) = first_index(streams, of_type(stream_type)) {
        assert(is_first(streams, of_type(stream_type), i));
    } else {
        assert forall|i: int| 0 <= i < streams.len() implies !of_type(stream_type)(
            #[trigger] streams[i],
        ) by {
            if of_type(stream_type)(streams[i]) {
                lemma_first_exists(streams, of_type(stream_type), i);
            }
        }
    }
}

/// A stream that is requested and offered is played, the first one of that name;
/// else the first one of the wanted type is, if there is one.
pub proof fn law_stream_is_selected_in_order(
    streams: Vec<Stream>,
    requested: Option<String>,
    stream_type: u32,
    r: Option<usize>,
)
    requires
        call_ensures(select_stream, (&streams, &requested, stream_type), r),
    ensures
        ({
            let offered = exists|i: int|
                0 <= i < streams@.len() && requested is Some && (#[trigger] streams@[i]).id is Some
                    && streams@[i].id->0@ == requested->0@;
            &&& r matches Some(k) ==> k < streams@.len() && streams@[k as int].id is Some
            &&& offered ==> r is Some && streams@[r->0 as int].id->0@ == requested->0@ && forall|
                j: int,
            |
                0 <= j < r->0 ==> !((#[trigger] streams@[j]).id is Some && streams@[j].id->0@
                    == requested->0@)
            &&& !offered && r is Some ==> streams@[r->0 as int].stream_type == stream_type
                && forall|j: int|
                0 <= j < r->0 ==> !((#[trigger] streams@[j]).id is Some && streams@[j].stream_type
                    == stream_type)
            &&& r is None ==> !offered && forall|j: int|
                0 <= j < streams@.len() ==> !((#[trigger] streams@[j]).id is Some
                    && streams@[j].stream_type == stream_type)
        }),
{
    lemma_select(streams@, requested, stream_type);
}

proof fn lemma_select(streams: Seq<Stream>, requested: Option<String>, stream_type: u32)
    ensures
        ({
            let named = first_index(streams, has_id(requested->0@));
            let typed = first_index(streams, of_type(stream_type));
            &&& requested is Some && named is Some ==> is_first(
                streams,
                has_id(requested->0@),
                named->0,
            )
            &&& requested is Some && named is None ==> forall|j: int|
                0 <= j < streams.len() ==> !has_id(requested->0@)(#[trigger] streams[j])
            &&& typed is Some ==> is_first(streams, of_type(stream_type), typed->0)
            &&& typed is None ==> forall|j: int|
                0 <= j < streams.len() ==> !of_type(stream_type)(#[trigger] streams[j])
        }),
{
    let p = of_type(stream_type);
    let q = has_id(requested->0@);
    if first_index(streams, p) is None {
        assert forall|j: int| 0 <= j < streams.len() implies !p(#[trigger] streams[j]) by {
            if p(streams[j]) {
                lemma_first_exists(streams, p, j);
            }
        }
    }
    if first_index(streams, q) is None {
        assert forall|j: int| 0 <= j < streams.len() implies !q(#[trigger] streams[j]) by {
            if q(streams[j]) {
                lemma_first_exists(streams, q, j);
            }
        }
    }
}

/// Where the type counts only without a request, a request that is not met leaves
/// nothing to play.
pub proof fn law_stream_is_specified_in_order(
    streams: Vec<Stream>,
    requested: Option<String>,
    stream_type: u32,
    r: Option<usize>,
)
    requires
        call_ensures(specified_stream, (&streams, &requested, stream_type), r),
    ensures
        r matches Some(k) ==> k < streams@.len() && streams@[k as int].id is Some,
        requested is Some && r is Some ==> streams@[r->0 as int].id->0@ == requested->0@ && forall|
            j: int,
        |
            0 <= j < r->0 ==> !((#[trigger] streams@[j]).id is Some && streams@[j].id->0@
                == requested->0@),
        requested is Some && r is None ==> forall|j: int|
            0 <= j < streams@.len() ==> !((#[trigger] streams@[j]).id is Some
                && streams@[j].id->0@ == requested->0@),
        requested is None && r is Some ==> streams@[r->0 as int].stream_type == stream_type
            && forall|j: int|
            0 <= j < r->0 ==> !((#[trigger] streams@[j]).id is Some && streams@[j].stream_type
                == stream_type),
        requested is None && r is None ==> forall|j: int|
            0 <= j < streams@.len() ==> !((#[trigger] streams@[j]).id is Some
                && streams@[j].stream_type == stream_type),
{
    lemma_select(streams@, requested, stream_type);
}

} // verus!
