//! The resource and the store that holds it.
use vstd::prelude::*;
use vstd::hash_map::StringHashMap;
use crate::error::{MissingField, StoreError};
use crate::ident::{fresh_id, is_random_id};

verus! {

/// A resource as it travels over the wire: either field may be absent.
#[derive(Debug, Clone, PartialEq, Eq)]
pub struct Foo {
    pub name: Option<String>,
    pub id: Option<String>,
}

/// What a [`Foo`] says, with each string taken as its sequence of characters.
pub struct FooView {
    pub name: Option<Seq<char>>,
    pub id: Option<Seq<char>>,
}

/// The characters of an optional string.
pub open spec fn text_of(s: Option<String>) -> Option<Seq<char>> {
    match s {
        Some(t) => Some(t@),
        None => None,
    }
}

impl View for Foo {
    type V = FooView;

    open spec fn view(&self) -> FooView {
        FooView { name: text_of(self.name), id: text_of(self.id) }
    }
}

impl FooView {
    /// The resource with the given identifier and name, both present.
    pub open spec fn complete(id: Seq<char>, name: Seq<char>) -> FooView {
        FooView { name: Some(name), id: Some(id) }
    }
}

impl Foo {
    /// A new resource with the given name and a freshly drawn identifier.
    pub fn new(name: String) -> (foo: Foo)
        ensures
            foo.name == Some(name),
            foo.id is Some,
            is_random_id(foo.id.unwrap()@),
    {
        let id = fresh_id();
        Foo::foo_from_store(id, name)
    }

    /// The resource that the store holds under `id` with the name `name`.
    pub fn foo_from_store(id: String, name: String) -> (foo: Foo)
        ensures
            foo.id == Some(id),
            foo.name == Some(name),
            foo@ == FooView::complete(id@, name@),
    {
        Foo { id: Some(id), name: Some(name) }
    }
}

/// The store as a mathematical object: the name held under each identifier.
pub type Entries = Map<Seq<char>, Seq<char>>;

/// The entries after an attempt to put `foo`: the entry for its identifier
/// is set to its name when both are present, and nothing changes otherwise.
pub open spec fn entries_after_put(entries: Entries, foo: FooView) -> Entries {
    match (foo.id, foo.name) {
        (Some(id), Some(name)) => entries.insert(id, name),
        _ => entries,
    }
}

/// The field whose absence has `foo` rejected, the identifier being looked at
/// first; `None` for a resource that the store accepts.
pub open spec fn missing_field(foo: FooView) -> Option<MissingField> {
    if foo.id is None {
        Some(MissingField::Id)
    } else if foo.name is None {
        Some(MissingField::Name)
    } else {
        None
    }
}

/// The resource held under `id`, if any.
pub open spec fn entry(entries: Entries, id: Seq<char>) -> Option<FooView> {
    if entries.contains_key(id) {
        Some(FooView::complete(id, entries[id]))
    } else {
        None
    }
}

/// An in-memory store of resources, keyed by identifier.
///
/// A value of this type is owned by one caller at a time: operations that
/// change it take `&mut self`, so whoever shares a store among threads puts
/// it behind a lock and thereby serialises them.
pub struct FooStore {
    map: StringHashMap<String>,
}

impl View for FooStore {
    type V = Entries;

    closed spec fn view(&self) -> Entries {
        self.map@.map_values(|name: String| name@)
    }
}

impl FooStore {
    /// An empty store.
    pub fn new() -> (store: FooStore)
        ensures
            store@ == Entries::empty(),
    {
        let store = FooStore { map: StringHashMap::new() };
        assert(store@ =~= Entries::empty());
        store
    }

    /// Puts `foo` into the store, replacing what was held under its
    /// identifier, and hands it back unchanged. A resource without an
    /// identifier or without a name is rejected and the store is left as it
    /// was.
    pub fn put_foo(&mut self, foo: Foo) -> (result: Result<Foo, StoreError>)
        ensures
            final(self)@ == entries_after_put(old(self)@, foo@),
            match missing_field(foo@) {
                Some(missing) => result == Err::<Foo, StoreError>(
                    StoreError::Validation { missing, foo },
                ),
                None => result == Ok::<Foo, StoreError>(foo),
            },
    {
        let id = match &foo.id {
            Some(id) => id.clone(),
            None => {
                return Err(StoreError::Validation { missing: MissingField::Id, foo });
            },
        };
        let name = match &foo.name {
            Some(name) => name.clone(),
            None => {
                return Err(StoreError::Validation { missing: MissingField::Name, foo });
            },
        };
        self.map.insert(id, name);
        assert(self@ =~= old(self)@.insert(id@, name@));
        Ok(foo)
    }

    /// The resource held under `id`.
    pub fn get_foo(&self, id: String) -> (result: Result<Foo, StoreError>)
        ensures
            match entry(self@, id@) {
                Some(held) => result is Ok && result.unwrap()@ == held && result.unwrap().id
                    == Some(id),
                None => result == Err::<Foo, StoreError>(StoreError::NotFound { id }),
            },
    {
        match self.map.get(id.as_str()) {
            Some(name) => {
                let name = name.clone();
                Ok(Foo::foo_from_store(id, name))
            },
            None => Err(StoreError::NotFound { id }),
        }
    }

    /// Removes the resource held under `id` and returns its name.
    pub fn delete_foo(&mut self, id: String) -> (result: Result<String, StoreError>)
        ensures
            final(self)@ == old(self)@.remove(id@),
            match entry(old(self)@, id@) {
                Some(held) => result is Ok && Some(result.unwrap()@) == held.name,
                None => result == Err::<String, StoreError>(StoreError::NotFound { id }),
            },
    {
        let held = match self.map.get(id.as_str()) {
            Some(name) => Some(name.clone()),
            None => None,
        };
        match held {
            Some(name) => {
                self.map.remove(id.as_str());
                assert(self@ =~= old(self)@.remove(id@));
                Ok(name)
            },
            None => {
                assert(old(self)@.remove(id@) =~= old(self)@);
                Err(StoreError::NotFound { id })
            },
        }
    }
}

} // verus!
