//! The ways in which a store operation fails, and what each failure says.
use vstd::prelude::*;
use vstd::string::*;
use crate::model::{Foo, FooView};

verus! {

/// A field that a resource must carry before the store accepts it.
#[derive(Debug, Clone, Copy, PartialEq, Eq, Structural)]
pub enum MissingField {
    Id,
    Name,
}

/// A failed store operation.
#[derive(Debug, Clone, PartialEq, Eq)]
pub enum StoreError {
    /// The resource handed to the store lacks a required field.
    Validation { missing: MissingField, foo: Foo },
    /// The store holds nothing under this identifier.
    NotFound { id: String },
}

/// A [`StoreError`] with its strings taken as sequences of characters.
pub enum StoreErrorView {
    Validation { missing: MissingField, foo: FooView },
    NotFound { id: Seq<char> },
}

impl View for StoreError {
    type V = StoreErrorView;

    open spec fn view(&self) -> StoreErrorView {
        match *self {
            StoreError::Validation { missing, foo } => StoreErrorView::Validation {
                missing,
                foo: foo@,
            },
            StoreError::NotFound { id } => StoreErrorView::NotFound { id: id@ },
        }
    }
}

/// The text that `{:#?}` gives for a resource with these fields.
pub uninterp spec fn foo_debug_text(name: Option<Seq<char>>, id: Option<Seq<char>>) -> Seq<char>;

/// Renders a resource for a message.
///
/// Trusted: formats the resource with `{:#?}` through the standard
/// formatting machinery and the `Debug` impl derived for [`Foo`]. The
/// contract only gives that text a name; it depends on the two fields alone.
#[verifier::external_body]
fn debug_text(foo: &Foo) -> (text: String)
    ensures
        text@ == foo_debug_text(foo@.name, foo@.id),
{
    format!("{:#?}", foo)
}

/// What a validation error says of a resource that `shown` renders.
pub open spec fn validation_text(missing: MissingField, shown: Seq<char>) -> Seq<char> {
    match missing {
        MissingField::Id => "No id present for foo: "@ + shown,
        MissingField::Name => "No name present for foo: "@ + shown,
    }
}

/// What is said of an identifier under which the store holds nothing.
pub open spec fn not_found_text(id: Seq<char>) -> Seq<char> {
    "No record found for id: "@ + id
}

impl StoreErrorView {
    /// What the error says.
    pub open spec fn message(self) -> Seq<char> {
        match self {
            StoreErrorView::Validation { missing, foo } => validation_text(
                missing,
                foo_debug_text(foo.name, foo.id),
            ),
            StoreErrorView::NotFound { id } => not_found_text(id),
        }
    }
}

/// The message of a validation error for a resource that `shown` renders.
pub fn validation_message(missing: MissingField, shown: &str) -> (text: String)
    ensures
        text@ == validation_text(missing, shown@),
{
    let mut text = match missing {
        MissingField::Id => String::from_str("No id present for foo: "),
        MissingField::Name => String::from_str("No name present for foo: "),
    };
    text.append(shown);
    text
}

/// The message for an identifier under which the store holds nothing.
pub fn not_found_message(id: &str) -> (text: String)
    ensures
        text@ == not_found_text(id@),
{
    let mut text = String::from_str("No record found for id: ");
    text.append(id);
    text
}

impl StoreError {
    /// What the error says, as the text that a caller is shown.
    pub fn message(&self) -> (text: String)
        ensures
            text@ == self@.message(),
    {
        match self {
            StoreError::Validation { missing, foo } => {
                let shown = debug_text(foo);
                validation_message(*missing, shown.as_str())
            },
            StoreError::NotFound { id } => not_found_message(id.as_str()),
        }
    }
}

} // verus!
