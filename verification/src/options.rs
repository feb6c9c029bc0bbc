//! The options that a MongoDB store is asked with: the model of the unique
//! index on the username, and the options of an update.

use crate::document::{entries, index_key_entries, username_index_keys, Entries};
use mongodb::bson::Document;
use mongodb::options::{IndexOptions, UpdateOptions};
use mongodb::IndexModel;
use vstd::prelude::*;

verus! {

/// `mongodb::IndexModel`, by name only: what one holds is spoken of through
/// `index_keys` and `index_unique`.
#[verifier::external_type_specification]
#[verifier::external_body]
pub struct ExIndexModel(IndexModel);

/// `mongodb::options::UpdateOptions`, by name only: what one holds is spoken
/// of through `upsert_of`.
#[verifier::external_type_specification]
#[verifier::external_body]
pub struct ExUpdateOptions(UpdateOptions);

/// The entries of the key pattern of an index model: its field `keys`.
pub uninterp spec fn index_keys(model: IndexModel) -> Entries;

/// Whether an index model asks for a unique index: the field `unique` of its
/// options, `None` where the model has no options or they leave it open.
pub uninterp spec fn index_unique(model: IndexModel) -> Option<bool>;

/// Whether update options ask for an upsert: their field `upsert`.
pub uninterp spec fn upsert_of(options: UpdateOptions) -> Option<bool>;

/// `IndexModel::builder` with `keys` and with options from
/// `IndexOptions::builder` on which only `unique` is set: the model has the
/// given key pattern, and its options say `unique` as given.
#[verifier::external_body]
fn index_model(keys: Document, unique: bool) -> (model: IndexModel)
    ensures
        index_keys(model) == entries(keys),
        index_unique(model) == Some(unique),
{
    let options = IndexOptions::builder().unique(unique).build();
    IndexModel::builder().keys(keys).options(options).build()
}

/// `UpdateOptions::builder` on which only `upsert` is set: the options say
/// `upsert` as given.
#[verifier::external_body]
fn update_options(upsert: bool) -> (options: UpdateOptions)
    ensures
        upsert_of(options) == Some(upsert),
{
    UpdateOptions::builder().upsert(upsert).build()
}

/// The index that keeps usernames unique: on the username, ascending, and
/// unique.
pub fn username_index() -> (model: IndexModel)
    ensures
        index_keys(model) == index_key_entries(),
        index_unique(model) == Some(true),
{
    index_model(username_index_keys(), true)
}

/// The options of the directory's update: no upsert, so that an update
/// under a username that no record has stores nothing.
pub fn plain_update_options() -> (options: UpdateOptions)
    ensures
        upsert_of(options) == Some(false),
{
    update_options(false)
}

} // verus!
