//! What the service answers to each request, and what the request does to
//! the store.
use vstd::prelude::*;
use vstd::string::*;
use crate::error::{not_found_text, StoreErrorView};
use crate::ident::is_random_id;
use crate::model::{entries_after_put, entry, missing_field, Entries, Foo, FooStore, FooView};

verus! {

/// The answer to a request, before it is put on the wire.
#[derive(Debug, Clone, PartialEq, Eq)]
pub enum Reply {
    /// Success; the body is the resource.
    Resource(Foo),
    /// Success; the body is empty.
    NoContent,
    /// The request was refused; the body is this text.
    BadRequest(String),
    /// Nothing is held under the identifier asked for; the body is this text.
    NotFound(String),
}

/// A [`Reply`] with its strings taken as sequences of characters.
pub enum ReplyView {
    Resource(FooView),
    NoContent,
    BadRequest(Seq<char>),
    NotFound(Seq<char>),
}

impl View for Reply {
    type V = ReplyView;

    open spec fn view(&self) -> ReplyView {
        match *self {
            Reply::Resource(foo) => ReplyView::Resource(foo@),
            Reply::NoContent => ReplyView::NoContent,
            Reply::BadRequest(text) => ReplyView::BadRequest(text@),
            Reply::NotFound(text) => ReplyView::NotFound(text@),
        }
    }
}

impl ReplyView {
    /// The HTTP status code that goes with the reply.
    pub open spec fn status(self) -> u16 {
        match self {
            ReplyView::Resource(_) => 200,
            ReplyView::NoContent => 204,
            ReplyView::BadRequest(_) => 400,
            ReplyView::NotFound(_) => 404,
        }
    }
}

impl Reply {
    /// The HTTP status code that goes with the reply.
    pub fn status(&self) -> (code: u16)
        ensures
            code == self@.status(),
    {
        match self {
            Reply::Resource(_) => 200,
            Reply::NoContent => 204,
            Reply::BadRequest(_) => 400,
            Reply::NotFound(_) => 404,
        }
    }
}

/// What a request to create a resource is told when it carries no name.
pub open spec fn no_name_text() -> Seq<char> {
    "No name provided"@
}

/// The answer to a read of `id`.
pub open spec fn read_reply(entries: Entries, id: Seq<char>) -> ReplyView {
    match entry(entries, id) {
        Some(held) => ReplyView::Resource(held),
        None => ReplyView::NotFound(not_found_text(id)),
    }
}

/// The answer to a delete of `id`.
pub open spec fn delete_reply(entries: Entries, id: Seq<char>) -> ReplyView {
    if entries.contains_key(id) {
        ReplyView::NoContent
    } else {
        ReplyView::NotFound(not_found_text(id))
    }
}

/// The answer to an attempt to put `foo` into the store.
pub open spec fn save_reply(foo: FooView) -> ReplyView {
    match missing_field(foo) {
        Some(missing) => ReplyView::BadRequest(
            (StoreErrorView::Validation { missing, foo }).message(),
        ),
        None => ReplyView::Resource(foo),
    }
}

/// The answer to a request to create the resource `foo` when `id` is the
/// identifier drawn for it. An identifier that `foo` itself carries is
/// ignored.
pub open spec fn create_reply(foo: FooView, id: Seq<char>) -> ReplyView {
    match foo.name {
        Some(name) => ReplyView::Resource(FooView::complete(id, name)),
        None => ReplyView::BadRequest(no_name_text()),
    }
}

/// The entries after a request to create the resource `foo` when `id` is the
/// identifier drawn for it.
pub open spec fn entries_after_create(entries: Entries, foo: FooView, id: Seq<char>) -> Entries {
    match foo.name {
        Some(name) => entries.insert(id, name),
        None => entries,
    }
}

/// Answers a read of the resource held under `id`.
pub fn get_foo(store: &FooStore, id: String) -> (reply: Reply)
    ensures
        reply@ == read_reply(store@, id@),
{
    match store.get_foo(id) {
        Ok(foo) => Reply::Resource(foo),
        Err(err) => Reply::NotFound(err.message()),
    }
}

/// Puts `foo` into the store and answers with it, or with the reason for
/// which the store refused it.
pub fn save_foo(store: &mut FooStore, foo: Foo) -> (reply: Reply)
    ensures
        final(store)@ == entries_after_put(old(store)@, foo@),
        reply@ == save_reply(foo@),
{
    match store.put_foo(foo) {
        Ok(foo) => Reply::Resource(foo),
        Err(err) => Reply::BadRequest(err.message()),
    }
}

/// Answers a request to create a resource. The name is taken from `foo`; the
/// identifier is drawn afresh, whatever `foo` carries as its own. A request
/// without a name is refused and leaves the store as it was.
pub fn post_foo(store: &mut FooStore, foo: Foo) -> (reply: Reply)
    ensures
        match foo@.name {
            Some(name) => exists|id: Seq<char>|
                #![trigger is_random_id(id)]
                {
                    &&& is_random_id(id)
                    &&& reply@ == create_reply(foo@, id)
                    &&& final(store)@ == entries_after_create(old(store)@, foo@, id)
                },
            None => {
                &&& reply@ == ReplyView::BadRequest(no_name_text())
                &&& final(store)@ == old(store)@
            },
        },
{
    let name = match foo.name {
        Some(name) => name,
        None => {
            return Reply::BadRequest(String::from_str("No name provided"));
        },
    };
    save_foo(store, Foo::new(name))
}

/// Answers a request to delete the resource held under `id`.
pub fn delete_foo(store: &mut FooStore, id: String) -> (reply: Reply)
    ensures
        final(store)@ == old(store)@.remove(id@),
        reply@ == delete_reply(old(store)@, id@),
{
    match store.delete_foo(id) {
        Ok(_) => Reply::NoContent,
        Err(err) => Reply::NotFound(err.message()),
    }
}

} // verus!
