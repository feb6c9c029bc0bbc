//! A document store that lives in memory and behaves as `Collection` says.

use crate::collection::Collection;
use crate::fault::{FaultKind, StoreFault};
use crate::outcome::seen;
use crate::user::{Update, User};
use vstd::prelude::*;
use vstd::string::*;

verus! {

/// A collection of user records held in a vector.
#[derive(Debug)]
pub struct MemoryStore {
    records: Vec<User>,
    unique_usernames: bool,
}

impl View for MemoryStore {
    type V = Collection;

    closed spec fn view(&self) -> Collection {
        Collection { records: self.records.deep_view(), unique_usernames: self.unique_usernames }
    }
}

impl MemoryStore {
    #[verifier::type_invariant]
    spec fn honours_index(self) -> bool {
        self@.wf()
    }

    /// A store without records and without an index.
    pub fn new() -> (store: MemoryStore)
        ensures
            store@ == Collection::empty(),
    {
        let store = MemoryStore { records: Vec::new(), unique_usernames: false };
        assert(store@.records =~= Seq::empty());
        store
    }

    /// The place of the first record with this username, or the number of
    /// records where there is none.
    fn locate(&self, username: &String) -> (at: usize)
        ensures
            at <= self@.records.len(),
            at < self@.records.len() ==> self@.first_at(username@, at as int),
            at == self@.records.len() ==> !self@.holds(username@),
    {
        let mut at: usize = 0;
        while at < self.records.len()
            invariant
                at <= self.records.len(),
                forall|j: int| 0 <= j < at ==> (#[trigger] self@.records[j]).username != username@,
            decreases self.records.len() - at,
        {
            if self.records[at].is_named(username) {
                return at;
            }
            at += 1;
        }
        at
    }

    /// Whether no two records share a username.
    fn usernames_distinct(&self) -> (distinct: bool)
        ensures
            distinct == self@.distinct(),
    {
        let count = self.records.len();
        let mut i: usize = 0;
        while i < count
            invariant
                count == self.records.len(),
                i <= count,
                forall|a: int, b: int|
                    0 <= a < b < count && a < i ==> (#[trigger] self@.records[a]).username != (
                    #[trigger] self@.records[b]).username,
            decreases count - i,
        {
            let mut j: usize = i + 1;
            while j < count
                invariant
                    count == self.records.len(),
                    i < count,
                    i < j <= count,
                    forall|b: int|
                        i < b < j ==> self@.records[i as int].username != (
                        #[trigger] self@.records[b]).username,
                decreases count - j,
            {
                if self.records[i].is_named(self.records[j].username()) {
                    assert(self@.records[i as int].username == self@.records[j as int].username);
                    return false;
                }
                j += 1;
            }
            i += 1;
        }
        true
    }

    /// Creates the unique index on the username. Asking again is harmless;
    /// records that share a username make it fail and leave the store as it
    /// was.
    pub fn create_unique_index(&mut self) -> (reply: Result<(), StoreFault>)
        ensures
            final(self)@ == old(self)@.indexed(),
            seen(reply) == old(self)@.index_reply(),
            final(self)@.wf(),
    {
        proof {
            use_type_invariant(&*self);
        }
        if self.unique_usernames {
            return Ok(());
        }
        if self.usernames_distinct() {
            let ghost next = Collection { records: self.records.deep_view(), unique_usernames: true };
            assert(next.records == self@.records);
            assert(next.distinct());
            self.unique_usernames = true;
            Ok(())
        } else {
            Err(
                StoreFault::new(
                    FaultKind::DuplicateKey,
                    String::from_str("duplicate key error: usernames are not unique"),
                ),
            )
        }
    }

    /// Stores a record at the end, unless the index refuses its username.
    pub fn insert_one(&mut self, record: User) -> (reply: Result<(), StoreFault>)
        ensures
            final(self)@ == old(self)@.inserted(record@),
            seen(reply) == old(self)@.insert_reply(record@),
            final(self)@.wf(),
    {
        proof {
            use_type_invariant(&*self);
        }
        if self.unique_usernames {
            let at = self.locate(record.username());
            if at < self.records.len() {
                let mut message = String::from_str("duplicate key error: username ");
                message.append(record.username().as_str());
                return Err(StoreFault::new(FaultKind::DuplicateKey, message));
            }
        }
        let ghost before = self@;
        proof {
            before.lemma_inserted_wf(record@);
        }
        let mut records: Vec<User> = Vec::new();
        std::mem::swap(&mut records, &mut self.records);
        records.push(record);
        assert(records.deep_view() =~= before.records.push(record@));
        self.records = records;
        Ok(())
    }

    /// The first record with this username, if there is one.
    pub fn find_one(&self, username: &String) -> (found: Option<User>)
        ensures
            found.deep_view() == self@.found(username@),
    {
        let at = self.locate(username);
        if at < self.records.len() {
            proof {
                self@.lemma_position_is(username@, at as int);
            }
            Some(self.records[at].clone())
        } else {
            None
        }
    }

    /// Every record, oldest first.
    pub fn find_all(&self) -> (all: Vec<User>)
        ensures
            all.deep_view() == self@.records,
    {
        let mut all: Vec<User> = Vec::new();
        let mut i: usize = 0;
        while i < self.records.len()
            invariant
                i <= self.records.len(),
                all@.len() == i,
                forall|j: int| 0 <= j < i ==> (#[trigger] all@[j])@ == self.records@[j]@,
            decreases self.records.len() - i,
        {
            all.push(self.records[i].clone());
            i += 1;
        }
        assert(all.deep_view() =~= self@.records);
        all
    }

    /// Overwrites the mutable fields of the first record with this username
    /// and says how many records that was: one or none.
    pub fn update_one(&mut self, username: &String, patch: &Update) -> (matched: u64)
        ensures
            final(self)@ == old(self)@.updated(username@, patch@),
            matched == old(self)@.matched(username@),
            final(self)@.wf(),
    {
        proof {
            use_type_invariant(&*self);
        }
        let at = self.locate(username);
        if at < self.records.len() {
            let ghost before = self@;
            proof {
                before.lemma_position_is(username@, at as int);
                before.lemma_updated_wf(username@, patch@);
            }
            let mut user = self.records[at].clone();
            user.apply(patch);
            let mut records: Vec<User> = Vec::new();
            std::mem::swap(&mut records, &mut self.records);
            records.set(at, user);
            assert(records.deep_view() =~= before.records.update(
                at as int,
                before.records[at as int].patched(patch@),
            ));
            self.records = records;
            1
        } else {
            0
        }
    }

    /// Removes the first record with this username and says how many records
    /// that was: one or none.
    pub fn delete_one(&mut self, username: &String) -> (deleted: u64)
        ensures
            final(self)@ == old(self)@.deleted(username@),
            deleted == old(self)@.matched(username@),
            final(self)@.wf(),
    {
        proof {
            use_type_invariant(&*self);
        }
        let at = self.locate(username);
        if at < self.records.len() {
            let ghost before = self@;
            proof {
                before.lemma_position_is(username@, at as int);
                before.lemma_deleted_wf(username@);
            }
            let mut records: Vec<User> = Vec::new();
            std::mem::swap(&mut records, &mut self.records);
            records.remove(at);
            assert(records.deep_view() =~= before.records.remove(at as int));
            self.records = records;
            1
        } else {
            0
        }
    }
}

} // verus!
