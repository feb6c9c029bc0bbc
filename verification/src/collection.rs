//! The collection of user records as the document store keeps it: records in
//! the order in which they arrived, and a uniqueness constraint on the
//! username once the index has been created.

use crate::fault::{FaultKind, StoreFaultView};
use crate::user::{UpdateView, UserView};
use vstd::prelude::*;

verus! {

/// The fault with which an insert is refused when the username is taken.
pub open spec fn duplicate_username(username: Seq<char>) -> StoreFaultView {
    StoreFaultView {
        kind: FaultKind::DuplicateKey,
        message: "duplicate key error: username "@ + username,
    }
}

/// The fault with which the unique index is refused when the records
/// contradict it.
pub open spec fn duplicates_present() -> StoreFaultView {
    StoreFaultView {
        kind: FaultKind::DuplicateKey,
        message: "duplicate key error: usernames are not unique"@,
    }
}

/// The state of the collection.
pub struct Collection {
    /// The records, oldest first.
    pub records: Seq<UserView>,
    /// Whether the unique index on the username exists.
    pub unique_usernames: bool,
}

impl Collection {
    /// The collection before anything was stored or indexed.
    pub open spec fn empty() -> Collection {
        Collection { records: Seq::empty(), unique_usernames: false }
    }

    /// Whether some record has this username.
    pub open spec fn holds(self, username: Seq<char>) -> bool {
        exists|i: int|
            0 <= i < self.records.len() && (#[trigger] self.records[i]).username == username
    }

    /// Whether the record at `at` is the first with this username.
    pub open spec fn first_at(self, username: Seq<char>, at: int) -> bool {
        &&& 0 <= at < self.records.len()
        &&& self.records[at].username == username
        &&& forall|j: int| 0 <= j < at ==> (#[trigger] self.records[j]).username != username
    }

    /// Where the first record with this username stands. Meaningful where
    /// `holds(username)`.
    pub open spec fn position(self, username: Seq<char>) -> int {
        choose|at: int| self.first_at(username, at)
    }

    /// No two records share a username.
    pub open spec fn distinct(self) -> bool {
        forall|i: int, j: int|
            0 <= i < j < self.records.len() ==> (#[trigger] self.records[i]).username != (
            #[trigger] self.records[j]).username
    }

    /// The index, where it exists, is honoured.
    pub open spec fn wf(self) -> bool {
        self.unique_usernames ==> self.distinct()
    }

    /// Whether an insert of a record with this username is accepted: always
    /// without the index, with it only if the username is free.
    pub open spec fn accepts(self, username: Seq<char>) -> bool {
        !(self.unique_usernames && self.holds(username))
    }

    /// The collection after an insert: an accepted record goes last, a
    /// refused one changes nothing.
    pub open spec fn inserted(self, record: UserView) -> Collection {
        if self.accepts(record.username) {
            Collection { records: self.records.push(record), ..self }
        } else {
            self
        }
    }

    /// What the store answers to an insert.
    pub open spec fn insert_reply(self, record: UserView) -> Result<(), StoreFaultView> {
        if self.accepts(record.username) {
            Ok(())
        } else {
            Err(duplicate_username(record.username))
        }
    }

    /// What the store answers when asked for the unique index.
    pub open spec fn index_reply(self) -> Result<(), StoreFaultView> {
        if self.indexable() {
            Ok(())
        } else {
            Err(duplicates_present())
        }
    }

    /// The first record with this username, if there is one.
    pub open spec fn found(self, username: Seq<char>) -> Option<UserView> {
        if self.holds(username) {
            Some(self.records[self.position(username)])
        } else {
            None
        }
    }

    /// How many records an update or a delete by this username touches.
    pub open spec fn matched(self, username: Seq<char>) -> nat {
        if self.holds(username) {
            1
        } else {
            0
        }
    }

    /// The collection after an update without upsert: the first record with
    /// this username has its mutable fields overwritten; without such a
    /// record nothing changes.
    pub open spec fn updated(self, username: Seq<char>, patch: UpdateView) -> Collection {
        if self.holds(username) {
            let at = self.position(username);
            Collection { records: self.records.update(at, self.records[at].patched(patch)), ..self }
        } else {
            self
        }
    }

    /// The collection after a delete: the first record with this username is
    /// gone; without such a record nothing changes.
    pub open spec fn deleted(self, username: Seq<char>) -> Collection {
        if self.holds(username) {
            Collection { records: self.records.remove(self.position(username)), ..self }
        } else {
            self
        }
    }

    /// Whether the unique index can be created: it exists already, or the
    /// records do not contradict it.
    pub open spec fn indexable(self) -> bool {
        self.unique_usernames || self.distinct()
    }

    /// The collection after the index was asked for.
    pub open spec fn indexed(self) -> Collection {
        if self.indexable() {
            Collection { unique_usernames: true, ..self }
        } else {
            self
        }
    }

    /// The first record with a username is the only first one.
    pub proof fn lemma_position_is(self, username: Seq<char>, at: int)
        requires
            self.first_at(username, at),
        ensures
            self.holds(username),
            self.position(username) == at,
    {
        let chosen = self.position(username);
        assert(self.first_at(username, chosen));
        if chosen < at {
            assert(self.records[chosen].username != username);
        }
        if at < chosen {
            assert(self.records[at].username != username);
        }
    }

    /// Where a username occurs at all, it occurs somewhere first.
    pub proof fn lemma_held_has_position(self, username: Seq<char>)
        requires
            self.holds(username),
        ensures
            self.first_at(username, self.position(username)),
    {
        let i = choose|i: int|
            0 <= i < self.records.len() && (#[trigger] self.records[i]).username == username;
        self.lemma_first_before(username, i);
    }

    proof fn lemma_first_before(self, username: Seq<char>, i: int)
        requires
            0 <= i < self.records.len(),
            self.records[i].username == username,
        ensures
            exists|at: int| self.first_at(username, at),
        decreases i,
    {
        if forall|j: int| 0 <= j < i ==> (#[trigger] self.records[j]).username != username {
            assert(self.first_at(username, i));
        } else {
            let j = choose|j: int| 0 <= j < i && (#[trigger] self.records[j]).username == username;
            self.lemma_first_before(username, j);
        }
    }

    /// An insert keeps the index honoured.
    pub proof fn lemma_inserted_wf(self, record: UserView)
        requires
            self.wf(),
        ensures
            self.inserted(record).wf(),
    {
        let next = self.inserted(record);
        if self.unique_usernames && self.accepts(record.username) {
            assert forall|i: int, j: int| 0 <= i < j < next.records.len() implies (
            #[trigger] next.records[i]).username != (#[trigger] next.records[j]).username by {
                if j == self.records.len() {
                    assert(self.records[i].username != record.username);
                } else {
                    assert(self.records[i].username != self.records[j].username);
                }
            }
        }
    }

    /// An update keeps the index honoured: it never touches a username.
    pub proof fn lemma_updated_wf(self, username: Seq<char>, patch: UpdateView)
        requires
            self.wf(),
        ensures
            self.updated(username, patch).wf(),
    {
        let next = self.updated(username, patch);
        if self.unique_usernames && self.holds(username) {
            self.lemma_held_has_position(username);
            assert forall|i: int, j: int| 0 <= i < j < next.records.len() implies (
            #[trigger] next.records[i]).username != (#[trigger] next.records[j]).username by {
                assert(next.records[i].username == self.records[i].username);
                assert(next.records[j].username == self.records[j].username);
            }
        }
    }

    /// A delete keeps the index honoured.
    pub proof fn lemma_deleted_wf(self, username: Seq<char>)
        requires
            self.wf(),
        ensures
            self.deleted(username).wf(),
    {
        let next = self.deleted(username);
        if self.unique_usernames && self.holds(username) {
            self.lemma_held_has_position(username);
            let at = self.position(username);
            assert forall|i: int, j: int| 0 <= i < j < next.records.len() implies (
            #[trigger] next.records[i]).username != (#[trigger] next.records[j]).username by {
                let a = if i < at { i } else { i + 1 };
                let b = if j < at { j } else { j + 1 };
                assert(next.records[i] == self.records[a]);
                assert(next.records[j] == self.records[b]);
                assert(self.records[a].username != self.records[b].username);
            }
        }
    }

    /// Under the index, the record with a username is the only one with it.
    pub proof fn lemma_distinct_position(self, username: Seq<char>, at: int)
        requires
            self.distinct(),
            0 <= at < self.records.len(),
            self.records[at].username == username,
        ensures
            self.first_at(username, at),
            self.position(username) == at,
            self.found(username) == Some(self.records[at]),
    {
        assert forall|j: int| 0 <= j < at implies (#[trigger] self.records[j]).username
            != username by {
            assert(self.records[j].username != self.records[at].username);
        }
        self.lemma_position_is(username, at);
    }
}

} // verus!
