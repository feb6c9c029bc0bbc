//! The BSON documents that the store is asked with: the filter that selects a
//! user, the update that overwrites the mutable fields, the keys of the
//! username index.

use crate::user::{Update, UpdateView};
use mongodb::bson::Document;
use vstd::prelude::*;
use vstd::string::*;

verus! {

/// What a document holds under one key, as far as this library builds it.
pub enum FieldValue {
    /// A BSON string.
    Text(Seq<char>),
    /// A BSON 32-bit integer.
    Int32(i32),
    /// An embedded document, by its entries.
    Nested(Seq<(Seq<char>, FieldValue)>),
    /// Any other BSON value.
    Other,
}

/// A document's entries: keys and values in the document's order.
pub type Entries = Seq<(Seq<char>, FieldValue)>;

/// `mongodb::bson::Document`, by name only: what one holds is spoken of
/// through `entries`.
#[verifier::external_type_specification]
#[verifier::external_body]
pub struct ExDocument(Document);

/// The entries of a document, first to last: each key with its value. The
/// functions below that make and fill a document say what they do to it.
pub uninterp spec fn entries(document: Document) -> Entries;

/// Whether `key` occurs among the entries.
pub open spec fn has_key(entries: Entries, key: Seq<char>) -> bool {
    exists|i: int| 0 <= i < entries.len() && (#[trigger] entries[i]).0 == key
}

/// The entries after `key` is set to `value`: a key that is there keeps its
/// place and gets the new value, a new key goes to the end.
pub open spec fn with_entry(entries: Entries, key: Seq<char>, value: FieldValue) -> Entries {
    if has_key(entries, key) {
        let at = choose|i: int| 0 <= i < entries.len() && (#[trigger] entries[i]).0 == key;
        entries.update(at, (key, value))
    } else {
        entries.push((key, value))
    }
}

/// `Document::new`: a document without entries.
#[verifier::external_body]
fn empty_document() -> (document: Document)
    ensures
        entries(document) == Seq::<(Seq<char>, FieldValue)>::empty(),
{
    Document::new()
}

/// `Document::insert` with a string slice as the value: the key is set to a
/// BSON string of the same characters. A key that is present keeps its place,
/// a new one goes last.
#[verifier::external_body]
fn set_text(document: &mut Document, key: &str, value: &str)
    ensures
        entries(*final(document)) == with_entry(
            entries(*old(document)),
            key@,
            FieldValue::Text(value@),
        ),
{
    document.insert(key, value);
}

/// `Document::insert` with an `i32` as the value: the key is set to a BSON
/// 32-bit integer.
#[verifier::external_body]
fn set_int32(document: &mut Document, key: &str, value: i32)
    ensures
        entries(*final(document)) == with_entry(
            entries(*old(document)),
            key@,
            FieldValue::Int32(value),
        ),
{
    document.insert(key, value);
}

/// `Document::insert` with a document as the value: the key is set to that
/// document, embedded.
#[verifier::external_body]
fn set_nested(document: &mut Document, key: &str, value: Document)
    ensures
        entries(*final(document)) == with_entry(
            entries(*old(document)),
            key@,
            FieldValue::Nested(entries(value)),
        ),
{
    document.insert(key, value);
}

/// The entries of the filter that selects the records with a username.
pub open spec fn filter_entries(username: Seq<char>) -> Entries {
    seq![("username"@, FieldValue::Text(username))]
}

/// The fields that an update sets, in the order in which it names them.
pub open spec fn assignment_entries(patch: UpdateView) -> Entries {
    seq![
        ("first_name"@, FieldValue::Text(patch.first_name)),
        ("last_name"@, FieldValue::Text(patch.last_name)),
        ("email"@, FieldValue::Text(patch.email)),
    ]
}

/// The entries of the update that overwrites the three mutable fields.
pub open spec fn update_entries(patch: UpdateView) -> Entries {
    seq![("$set"@, FieldValue::Nested(assignment_entries(patch)))]
}

/// The entries of the key pattern of the username index: ascending.
pub open spec fn index_key_entries() -> Entries {
    seq![("username"@, FieldValue::Int32(1))]
}

/// The filter `{ "username": username }`: it matches the records whose
/// username is exactly the given one.
pub fn username_filter(username: &String) -> (filter: Document)
    ensures
        entries(filter) == filter_entries(username@),
{
    let mut filter = empty_document();
    set_text(&mut filter, "username", username.as_str());
    assert(entries(filter) =~= filter_entries(username@));
    filter
}

/// The update `{ "$set": { "first_name": .., "last_name": .., "email": .. } }`:
/// it overwrites the three mutable fields and names no other.
pub fn update_document(patch: &Update) -> (update: Document)
    ensures
        entries(update) == update_entries(patch@),
{
    proof {
        reveal_strlit("first_name");
        reveal_strlit("last_name");
        reveal_strlit("email");
        assert("first_name"@.len() == 10 && "last_name"@.len() == 9 && "email"@.len() == 5);
    }
    let mut assignments = empty_document();
    set_text(&mut assignments, "first_name", patch.first_name().as_str());
    let ghost one = seq![("first_name"@, FieldValue::Text(patch@.first_name))];
    assert(entries(assignments) =~= one);
    assert(!has_key(one, "last_name"@));
    set_text(&mut assignments, "last_name", patch.last_name().as_str());
    let ghost two = one.push(("last_name"@, FieldValue::Text(patch@.last_name)));
    assert(entries(assignments) =~= two);
    assert(!has_key(two, "email"@));
    set_text(&mut assignments, "email", patch.email().as_str());
    assert(entries(assignments) =~= assignment_entries(patch@));
    let mut update = empty_document();
    set_nested(&mut update, "$set", assignments);
    assert(entries(update) =~= update_entries(patch@));
    update
}

/// The key pattern `{ "username": 1 }` of the index that keeps usernames
/// unique.
pub fn username_index_keys() -> (keys: Document)
    ensures
        entries(keys) == index_key_entries(),
{
    let mut keys = empty_document();
    set_int32(&mut keys, "username", 1);
    assert(entries(keys) =~= index_key_entries());
    keys
}

} // verus!
