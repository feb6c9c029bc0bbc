//! The five operations of the user directory. Each is one question to the
//! document store and a reading of its answer; the functions here do the
//! reading, and `UserDirectory` puts both together over a store in memory.

use crate::collection::Collection;
use crate::fault::{FaultKind, StoreFault, StoreFaultView};
use crate::memory::MemoryStore;
use crate::outcome::seen;
use crate::user::{Update, UpdateView, User, UserView};
use vstd::prelude::*;

verus! {

/// Why an operation of the directory failed.
#[derive(Debug)]
pub enum ServiceError {
    /// A record with the same username exists already.
    DuplicateKey { message: String },
    /// No record has the username that was asked for.
    NotFound { username: String },
    /// The store failed for any other reason.
    StoreUnavailable { message: String },
    /// The store began to hand out the records and broke off.
    Incomplete { message: String },
    /// The unique index could not be created at startup.
    BootstrapFailure { message: String },
}

/// What a service error is, with its texts as sequences of characters.
pub enum ServiceErrorView {
    DuplicateKey { message: Seq<char> },
    NotFound { username: Seq<char> },
    StoreUnavailable { message: Seq<char> },
    Incomplete { message: Seq<char> },
    BootstrapFailure { message: Seq<char> },
}

impl View for ServiceError {
    type V = ServiceErrorView;

    open spec fn view(&self) -> ServiceErrorView {
        match self {
            ServiceError::DuplicateKey { message } => ServiceErrorView::DuplicateKey {
                message: message@,
            },
            ServiceError::NotFound { username } => ServiceErrorView::NotFound {
                username: username@,
            },
            ServiceError::StoreUnavailable { message } => ServiceErrorView::StoreUnavailable {
                message: message@,
            },
            ServiceError::Incomplete { message } => ServiceErrorView::Incomplete {
                message: message@,
            },
            ServiceError::BootstrapFailure { message } => ServiceErrorView::BootstrapFailure {
                message: message@,
            },
        }
    }
}

impl DeepView for ServiceError {
    type V = ServiceErrorView;

    open spec fn deep_view(&self) -> ServiceErrorView {
        self@
    }
}

/// How the store answered a request for every record.
#[derive(Debug)]
pub enum Scan {
    /// Every record was handed out.
    Complete(Vec<User>),
    /// The store refused to start.
    Refused(StoreFault),
    /// The store started and failed before the last record.
    Interrupted(StoreFault),
}

/// What a scan is.
pub enum ScanView {
    Complete(Seq<UserView>),
    Refused(StoreFaultView),
    Interrupted(StoreFaultView),
}

impl DeepView for Scan {
    type V = ScanView;

    open spec fn deep_view(&self) -> ScanView {
        match self {
            Scan::Complete(users) => ScanView::Complete(users.deep_view()),
            Scan::Refused(fault) => ScanView::Refused(fault@),
            Scan::Interrupted(fault) => ScanView::Interrupted(fault@),
        }
    }
}

/// The store is unavailable, for the reason it gave.
pub open spec fn unavailable(fault: StoreFaultView) -> ServiceErrorView {
    ServiceErrorView::StoreUnavailable { message: fault.message }
}

/// Reading the answer to an insert: a refusal by the unique index is a
/// duplicate key, any other fault means that the store is unavailable.
pub open spec fn creation(reply: Result<(), StoreFaultView>) -> Result<(), ServiceErrorView> {
    match reply {
        Ok(_) => Ok(()),
        Err(fault) => match fault.kind {
            FaultKind::DuplicateKey => Err(
                ServiceErrorView::DuplicateKey { message: fault.message },
            ),
            FaultKind::Other => Err(unavailable(fault)),
        },
    }
}

/// Reading the answer to a lookup by username: the record, or `NotFound`
/// with the username that was asked for, or the store is unavailable.
pub open spec fn lookup(
    username: Seq<char>,
    reply: Result<Option<UserView>, StoreFaultView>,
) -> Result<UserView, ServiceErrorView> {
    match reply {
        Ok(Some(user)) => Ok(user),
        Ok(None) => Err(ServiceErrorView::NotFound { username }),
        Err(fault) => Err(unavailable(fault)),
    }
}

/// Reading the answer to a request for every record: all of them as they
/// came, or the failure that kept them from coming.
pub open spec fn listing(scan: ScanView) -> Result<Seq<UserView>, ServiceErrorView> {
    match scan {
        ScanView::Complete(users) => Ok(users),
        ScanView::Refused(fault) => Err(unavailable(fault)),
        ScanView::Interrupted(fault) => Err(ServiceErrorView::Incomplete { message: fault.message }),
    }
}

/// Reading the answer to an update or a delete: the number of records that
/// matched is not looked at, so zero is a success as well.
pub open spec fn acknowledgement(reply: Result<u64, StoreFaultView>) -> Result<
    (),
    ServiceErrorView,
> {
    match reply {
        Ok(_) => Ok(()),
        Err(fault) => Err(unavailable(fault)),
    }
}

/// Reading the answer to the creation of the unique index at startup: every
/// fault is a bootstrap failure.
pub open spec fn readiness(reply: Result<(), StoreFaultView>) -> Result<(), ServiceErrorView> {
    match reply {
        Ok(_) => Ok(()),
        Err(fault) => Err(ServiceErrorView::BootstrapFailure { message: fault.message }),
    }
}

/// The result of `create`, from the store's answer to the insert.
pub fn create_outcome(reply: Result<(), StoreFault>) -> (outcome: Result<(), ServiceError>)
    ensures
        seen(outcome) == creation(seen(reply)),
{
    match reply {
        Ok(_) => Ok(()),
        Err(fault) => match fault.kind() {
            FaultKind::DuplicateKey => Err(
                ServiceError::DuplicateKey { message: fault.into_message() },
            ),
            FaultKind::Other => Err(ServiceError::StoreUnavailable { message: fault.into_message() }),
        },
    }
}

/// The result of `get_by_username`, from the store's answer to the lookup.
pub fn get_outcome(username: &String, reply: Result<Option<User>, StoreFault>) -> (outcome: Result<
    User,
    ServiceError,
>)
    ensures
        seen(outcome) == lookup(username@, seen(reply)),
{
    match reply {
        Ok(Some(user)) => Ok(user),
        Ok(None) => Err(ServiceError::NotFound { username: username.clone() }),
        Err(fault) => Err(ServiceError::StoreUnavailable { message: fault.into_message() }),
    }
}

/// The result of `list_all`, from the way the scan ended.
pub fn list_outcome(scan: Scan) -> (outcome: Result<Vec<User>, ServiceError>)
    ensures
        seen(outcome) == listing(scan.deep_view()),
{
    match scan {
        Scan::Complete(users) => Ok(users),
        Scan::Refused(fault) => Err(ServiceError::StoreUnavailable { message: fault.into_message() }),
        Scan::Interrupted(fault) => Err(ServiceError::Incomplete { message: fault.into_message() }),
    }
}

/// The result of `update`, from the store's answer: the count of matched
/// records, or a fault.
pub fn update_outcome(reply: Result<u64, StoreFault>) -> (outcome: Result<(), ServiceError>)
    ensures
        seen(outcome) == acknowledgement(seen(reply)),
{
    match reply {
        Ok(_) => Ok(()),
        Err(fault) => Err(ServiceError::StoreUnavailable { message: fault.into_message() }),
    }
}

/// The result of `delete`, from the store's answer: the count of deleted
/// records, or a fault.
pub fn delete_outcome(reply: Result<u64, StoreFault>) -> (outcome: Result<(), ServiceError>)
    ensures
        seen(outcome) == acknowledgement(seen(reply)),
{
    match reply {
        Ok(_) => Ok(()),
        Err(fault) => Err(ServiceError::StoreUnavailable { message: fault.into_message() }),
    }
}

/// The result of the startup, from the store's answer to the creation of the
/// unique index.
pub fn bootstrap_outcome(reply: Result<(), StoreFault>) -> (outcome: Result<(), ServiceError>)
    ensures
        seen(outcome) == readiness(seen(reply)),
{
    match reply {
        Ok(_) => Ok(()),
        Err(fault) => Err(ServiceError::BootstrapFailure { message: fault.into_message() }),
    }
}

impl Collection {
    /// A collection on which the directory works: the unique index exists
    /// and is honoured.
    pub open spec fn ready(self) -> bool {
        self.unique_usernames && self.distinct()
    }

    /// `create` on this collection: the collection afterwards and the result.
    pub open spec fn create(self, record: UserView) -> (Collection, Result<(), ServiceErrorView>) {
        (self.inserted(record), creation(self.insert_reply(record)))
    }

    /// `get_by_username` on this collection.
    pub open spec fn get_by_username(self, username: Seq<char>) -> Result<
        UserView,
        ServiceErrorView,
    > {
        lookup(username, Ok(self.found(username)))
    }

    /// `list_all` on this collection.
    pub open spec fn list_all(self) -> Result<Seq<UserView>, ServiceErrorView> {
        listing(ScanView::Complete(self.records))
    }

    /// `update` on this collection: the collection afterwards and the result.
    pub open spec fn update(self, username: Seq<char>, patch: UpdateView) -> (
        Collection,
        Result<(), ServiceErrorView>,
    ) {
        (self.updated(username, patch), acknowledgement(Ok(self.matched(username) as u64)))
    }

    /// `delete` on this collection: the collection afterwards and the result.
    pub open spec fn delete(self, username: Seq<char>) -> (
        Collection,
        Result<(), ServiceErrorView>,
    ) {
        (self.deleted(username), acknowledgement(Ok(self.matched(username) as u64)))
    }

    /// The startup on this collection: the collection afterwards and the
    /// result.
    pub open spec fn bootstrap(self) -> (Collection, Result<(), ServiceErrorView>) {
        (self.indexed(), readiness(self.index_reply()))
    }
}

/// The directory over a store in memory.
#[derive(Debug)]
pub struct UserDirectory {
    store: MemoryStore,
}

impl View for UserDirectory {
    type V = Collection;

    closed spec fn view(&self) -> Collection {
        self.store@
    }
}

impl UserDirectory {
    /// Starts the directory on a store: the unique index on the username is
    /// created first, and without it there is no directory.
    pub fn start(store: MemoryStore) -> (started: Result<UserDirectory, ServiceError>)
        ensures
            match started {
                Ok(directory) => store@.bootstrap() == (directory@, Ok::<(), ServiceErrorView>(()))
                    && directory@.ready(),
                Err(error) => store@.bootstrap().1 == Err::<(), ServiceErrorView>(error@),
            },
    {
        let mut store = store;
        let reply = store.create_unique_index();
        match bootstrap_outcome(reply) {
            Ok(_) => Ok(UserDirectory { store }),
            Err(error) => Err(error),
        }
    }

    /// Stores a new record. Fails with `DuplicateKey` where the username is
    /// taken, and then changes nothing.
    pub fn create(&mut self, record: User) -> (outcome: Result<(), ServiceError>)
        ensures
            (final(self)@, seen(outcome)) == old(self)@.create(record@),
            old(self)@.ready() ==> final(self)@.ready(),
    {
        let reply = self.store.insert_one(record);
        create_outcome(reply)
    }

    /// The record with exactly this username, or `NotFound`.
    pub fn get_by_username(&self, username: &String) -> (outcome: Result<User, ServiceError>)
        ensures
            seen(outcome) == self@.get_by_username(username@),
    {
        let found = self.store.find_one(username);
        get_outcome(username, Ok(found))
    }

    /// Every record, in the store's order.
    pub fn list_all(&self) -> (outcome: Result<Vec<User>, ServiceError>)
        ensures
            seen(outcome) == self@.list_all(),
    {
        let all = self.store.find_all();
        list_outcome(Scan::Complete(all))
    }

    /// Overwrites first name, last name and email of the record with this
    /// username. Succeeds as well where no record has it, and then changes
    /// nothing.
    pub fn update(&mut self, username: &String, patch: &Update) -> (outcome: Result<
        (),
        ServiceError,
    >)
        ensures
            (final(self)@, seen(outcome)) == old(self)@.update(username@, patch@),
            old(self)@.ready() ==> final(self)@.ready(),
    {
        let matched = self.store.update_one(username, patch);
        update_outcome(Ok(matched))
    }

    /// Removes the record with this username. Succeeds as well where no
    /// record has it, and then changes nothing.
    pub fn delete(&mut self, username: &String) -> (outcome: Result<(), ServiceError>)
        ensures
            (final(self)@, seen(outcome)) == old(self)@.delete(username@),
            old(self)@.ready() ==> final(self)@.ready(),
    {
        let deleted = self.store.delete_one(username);
        delete_outcome(Ok(deleted))
    }
}

} // verus!
