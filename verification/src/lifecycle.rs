//! What holds of a resource over its life: it can be read once created, it is
//! gone once deleted, and nothing appears that was not put there.
use vstd::prelude::*;
use crate::error::not_found_text;
use crate::handlers::{
    create_reply, delete_reply, entries_after_create, no_name_text, read_reply, ReplyView,
};
use crate::ident::is_random_id;
use crate::model::{entries_after_put, Entries, FooView};

verus! {

/// A request as the store sees it, a create together with the identifier
/// drawn for it.
pub enum Request {
    Create { foo: FooView, id: Seq<char> },
    Put { foo: FooView },
    Read { id: Seq<char> },
    Delete { id: Seq<char> },
}

impl Request {
    /// The entries after the request has been served.
    pub open spec fn apply(self, entries: Entries) -> Entries {
        match self {
            Request::Create { foo, id } => entries_after_create(entries, foo, id),
            Request::Put { foo } => entries_after_put(entries, foo),
            Request::Read { id } => entries,
            Request::Delete { id } => entries.remove(id),
        }
    }

    /// Whether the request brings a resource into being under `id`, or
    /// gives the one held there a new name.
    pub open spec fn creates(self, id: Seq<char>) -> bool {
        match self {
            Request::Create { foo, id: drawn } => foo.name is Some && drawn == id,
            Request::Put { foo } => foo.name is Some && foo.id == Some(id),
            _ => false,
        }
    }

    /// Whether the request deletes what is held under `id`.
    pub open spec fn deletes(self, id: Seq<char>) -> bool {
        self == (Request::Delete { id })
    }

    /// The name that a create or a put carries.
    pub open spec fn name(self) -> Option<Seq<char>> {
        match self {
            Request::Create { foo, id } => foo.name,
            Request::Put { foo } => foo.name,
            _ => None,
        }
    }
}

/// Whether request `i` of `requests` created `id` and no later one deleted
/// it.
pub open spec fn stands(requests: Seq<Request>, id: Seq<char>, i: int) -> bool {
    &&& 0 <= i < requests.len()
    &&& requests[i].creates(id)
    &&& forall|j: int| i < j < requests.len() ==> !(#[trigger] requests[j]).deletes(id)
}

/// The entries after `requests` have been served in order, starting from
/// `entries`.
pub open spec fn serve(entries: Entries, requests: Seq<Request>) -> Entries
    decreases requests.len(),
{
    if requests.len() == 0 {
        entries
    } else {
        requests.last().apply(serve(entries, requests.drop_last()))
    }
}

/// A create that carries a name answers with a resource of that name whose
/// identifier is the one drawn, which is not empty.
pub proof fn lemma_create_keeps_name(foo: FooView, id: Seq<char>)
    requires
        foo.name is Some,
        is_random_id(id),
    ensures
        create_reply(foo, id) == ReplyView::Resource(FooView { name: foo.name, id: Some(id) }),
        create_reply(foo, id).status() == 200,
        id.len() > 0,
{
}

/// Reading an identifier right after the create that drew it answers with
/// the very reply that the create gave.
pub proof fn lemma_read_after_create(entries: Entries, foo: FooView, id: Seq<char>)
    requires
        foo.name is Some,
    ensures
        read_reply(entries_after_create(entries, foo, id), id) == create_reply(foo, id),
{
}

/// A resource that was created can be deleted, and a read that follows the
/// delete finds nothing.
pub proof fn lemma_read_after_delete(entries: Entries, foo: FooView, id: Seq<char>)
    requires
        foo.name is Some,
    ensures
        delete_reply(entries_after_create(entries, foo, id), id) == ReplyView::NoContent,
        read_reply(entries_after_create(entries, foo, id).remove(id), id) == ReplyView::NotFound(
            not_found_text(id),
        ),
{
}

/// Whatever the store held, a read or a second delete that follows a delete
/// of the same identifier finds nothing.
pub proof fn lemma_deleted_is_gone(entries: Entries, id: Seq<char>)
    ensures
        read_reply(entries.remove(id), id) == ReplyView::NotFound(not_found_text(id)),
        delete_reply(entries.remove(id), id) == ReplyView::NotFound(not_found_text(id)),
{
}

/// A store that has served only requests that did not create `id`, starting
/// empty, does not hold `id`.
pub proof fn lemma_absent_unless_created(requests: Seq<Request>, id: Seq<char>)
    requires
        forall|i: int| 0 <= i < requests.len() ==> !(#[trigger] requests[i]).creates(id),
    ensures
        !serve(Entries::empty(), requests).contains_key(id),
    decreases requests.len(),
{
    if requests.len() > 0 {
        lemma_absent_unless_created(requests.drop_last(), id);
    }
}

/// Reading or deleting an identifier that was never created finds nothing,
/// and the delete leaves the store as it was.
pub proof fn lemma_never_created_not_found(requests: Seq<Request>, id: Seq<char>)
    requires
        forall|i: int| 0 <= i < requests.len() ==> !(#[trigger] requests[i]).creates(id),
    ensures
        read_reply(serve(Entries::empty(), requests), id) == ReplyView::NotFound(
            not_found_text(id),
        ),
        delete_reply(serve(Entries::empty(), requests), id) == ReplyView::NotFound(
            not_found_text(id),
        ),
        serve(Entries::empty(), requests).remove(id) == serve(Entries::empty(), requests),
{
    lemma_absent_unless_created(requests, id);
    let entries = serve(Entries::empty(), requests);
    assert(entries.remove(id) =~= entries);
}

/// A store that started empty holds an identifier exactly when some request
/// created it and no later request deleted it.
pub proof fn lemma_held_iff_created_and_kept(requests: Seq<Request>, id: Seq<char>)
    ensures
        serve(Entries::empty(), requests).contains_key(id) <==> exists|i: int|
            stands(requests, id, i),
    decreases requests.len(),
{
    if requests.len() > 0 {
        let earlier = requests.drop_last();
        let n = requests.len() - 1;
        lemma_held_iff_created_and_kept(earlier, id);
        if requests[n].creates(id) {
            assert(stands(requests, id, n));
        } else if requests[n].deletes(id) {
            assert forall|i: int| !stands(requests, id, i) by {
                if 0 <= i < n {
                    assert(requests[n].deletes(id));
                }
            }
        } else {
            assert forall|i: int| stands(requests, id, i) <==> stands(earlier, id, i) by {
                lemma_stands_without_last(requests, id, i);
            }
        }
    }
}

/// A last request that neither creates nor deletes `id` changes nothing
/// about which request `id` goes back to.
proof fn lemma_stands_without_last(requests: Seq<Request>, id: Seq<char>, i: int)
    requires
        requests.len() > 0,
        !requests.last().creates(id),
        !requests.last().deletes(id),
    ensures
        stands(requests, id, i) <==> stands(requests.drop_last(), id, i),
{
    let earlier = requests.drop_last();
    if 0 <= i < earlier.len() {
        assert(earlier[i] == requests[i]);
        if stands(earlier, id, i) {
            assert forall|j: int| i < j < requests.len() implies !(#[trigger] requests[j]).deletes(
                id,
            ) by {
                if j < earlier.len() {
                    assert(earlier[j] == requests[j]);
                }
            }
        }
        if stands(requests, id, i) {
            assert forall|j: int| i < j < earlier.len() implies !(#[trigger] earlier[j]).deletes(
                id,
            ) by {
                assert(earlier[j] == requests[j]);
            }
        }
    }
}

/// The name held under an identifier is the one that the latest request to
/// create it carried.
pub proof fn lemma_held_name_is_latest(requests: Seq<Request>, id: Seq<char>, i: int)
    requires
        stands(requests, id, i),
        forall|j: int| i < j < requests.len() ==> !(#[trigger] requests[j]).creates(id),
    ensures
        serve(Entries::empty(), requests).contains_key(id),
        Some(serve(Entries::empty(), requests)[id]) == requests[i].name(),
    decreases requests.len(),
{
    let earlier = requests.drop_last();
    let n = requests.len() - 1;
    if i < n {
        lemma_stands_without_last(requests, id, i);
        assert forall|j: int| i < j < earlier.len() implies !(#[trigger] earlier[j]).creates(
            id,
        ) by {
            assert(earlier[j] == requests[j]);
        }
        lemma_held_name_is_latest(earlier, id, i);
    }
}

/// A create without a name is refused, and no read is answered differently
/// after it than before.
pub proof fn lemma_create_without_name(entries: Entries, foo: FooView, id: Seq<char>)
    requires
        foo.name is None,
    ensures
        create_reply(foo, id) == ReplyView::BadRequest(no_name_text()),
        create_reply(foo, id).status() == 400,
        entries_after_create(entries, foo, id) == entries,
        forall|any: Seq<char>|
            #![trigger read_reply(entries, any)]
            read_reply(entries_after_create(entries, foo, id), any) == read_reply(entries, any),
{
}

/// A put of a resource that lacks its identifier or its name changes
/// nothing.
pub proof fn lemma_put_incomplete(entries: Entries, foo: FooView)
    requires
        foo.id is None || foo.name is None,
    ensures
        entries_after_put(entries, foo) == entries,
{
}

/// A create under one identifier leaves what is held under every other
/// identifier as it was.
pub proof fn lemma_create_keeps_others(
    entries: Entries,
    foo: FooView,
    id: Seq<char>,
    other: Seq<char>,
)
    requires
        other != id,
    ensures
        read_reply(entries_after_create(entries, foo, id), other) == read_reply(entries, other),
{
}

/// The creates of `names[i]` under `ids[i]`, in order.
pub open spec fn creates_of(ids: Seq<Seq<char>>, names: Seq<Seq<char>>) -> Seq<Request>
    recommends
        ids.len() == names.len(),
{
    Seq::new(
        ids.len(),
        |i: int| Request::Create { foo: FooView { name: Some(names[i]), id: None }, id: ids[i] },
    )
}

/// After any number of creates that drew pairwise distinct identifiers,
/// every one of the resources can be read back with its own name: no create
/// undoes another.
pub proof fn lemma_distinct_creates_all_readable(
    entries: Entries,
    ids: Seq<Seq<char>>,
    names: Seq<Seq<char>>,
    k: int,
)
    requires
        ids.len() == names.len(),
        forall|i: int, j: int| 0 <= i < j < ids.len() ==> ids[i] != ids[j],
        0 <= k < ids.len(),
    ensures
        read_reply(serve(entries, creates_of(ids, names)), ids[k]) == ReplyView::Resource(
            FooView::complete(ids[k], names[k]),
        ),
    decreases ids.len(),
{
    let requests = creates_of(ids, names);
    let n = ids.len() - 1;
    let before = serve(entries, requests.drop_last());
    assert(requests.drop_last() =~= creates_of(ids.drop_last(), names.drop_last()));
    assert(requests.last() == Request::Create {
        foo: FooView { name: Some(names[n]), id: None },
        id: ids[n],
    });
    if k < n {
        lemma_distinct_creates_all_readable(entries, ids.drop_last(), names.drop_last(), k);
        lemma_create_keeps_others(
            before,
            FooView { name: Some(names[n]), id: None },
            ids[n],
            ids[k],
        );
    }
}

} // verus!
