//! What holds of the directory's operations taken together, on every
//! collection that is ready: the unique index exists and is honoured.

use crate::collection::Collection;
use crate::service::ServiceErrorView;
use crate::user::{UpdateView, UserView};
use vstd::multiset::{lemma_multiset_empty_len, Multiset};
use vstd::prelude::*;
use vstd::seq_lib::{to_multiset_build, to_multiset_len};

verus! {

/// No operation of the directory lets a ready collection stop being ready:
/// usernames stay unique whatever is created, updated or deleted.
pub proof fn law_ready_is_kept(
    collection: Collection,
    record: UserView,
    username: Seq<char>,
    patch: UpdateView,
)
    requires
        collection.ready(),
    ensures
        collection.create(record).0.ready(),
        collection.update(username, patch).0.ready(),
        collection.delete(username).0.ready(),
        collection.bootstrap().0.ready(),
{
    collection.lemma_inserted_wf(record);
    collection.lemma_updated_wf(username, patch);
    collection.lemma_deleted_wf(username);
}

/// The startup may be repeated: once the index exists, asking for it again
/// succeeds and changes nothing.
pub proof fn law_bootstrap_is_idempotent(collection: Collection)
    requires
        collection.wf(),
    ensures
        collection.bootstrap().1 is Ok ==> collection.bootstrap().0.ready(),
        collection.bootstrap().1 is Ok ==> collection.bootstrap().0.bootstrap() == (
            collection.bootstrap().0,
            Ok::<(), ServiceErrorView>(()),
        ),
        collection.ready() ==> collection.bootstrap() == (collection, Ok::<(), ServiceErrorView>(())),
{
}

/// A record created under a free username is stored, and a lookup by that
/// username returns it as it was given.
pub proof fn law_create_then_get(collection: Collection, record: UserView)
    requires
        collection.ready(),
        !collection.holds(record.username),
    ensures
        collection.create(record).1 is Ok,
        collection.create(record).0.get_by_username(record.username) == Ok::<
            UserView,
            ServiceErrorView,
        >(record),
{
    let next = collection.create(record).0;
    collection.lemma_inserted_wf(record);
    let at = collection.records.len() as int;
    assert(next.records[at] == record);
    next.lemma_distinct_position(record.username, at);
}

/// Of two creations under one username that was free, the first succeeds
/// and the second fails with `DuplicateKey` and changes nothing: the record
/// that is stored is the first one's.
pub proof fn law_create_twice(collection: Collection, first: UserView, second: UserView)
    requires
        collection.ready(),
        !collection.holds(first.username),
        first.username == second.username,
    ensures
        collection.create(first).1 is Ok,
        collection.create(first).0.create(second).1 matches Err(
            ServiceErrorView::DuplicateKey { .. },
        ),
        collection.create(first).0.create(second).0 == collection.create(first).0,
        collection.create(first).0.create(second).0.get_by_username(first.username) == Ok::<
            UserView,
            ServiceErrorView,
        >(first),
{
    law_create_then_get(collection, first);
    let next = collection.create(first).0;
    assert(next.records[collection.records.len() as int].username == second.username);
    assert(next.holds(second.username));
}

/// A creation under a username that is taken fails with `DuplicateKey`,
/// whatever the record, and changes nothing.
pub proof fn law_create_taken(collection: Collection, record: UserView)
    requires
        collection.ready(),
        collection.holds(record.username),
    ensures
        collection.create(record).1 matches Err(ServiceErrorView::DuplicateKey { .. }),
        collection.create(record).0 == collection,
{
}

/// A lookup fails with `NotFound`, carrying the username asked for, exactly
/// where no record has that username; otherwise it succeeds.
pub proof fn law_absent_is_not_found(collection: Collection, username: Seq<char>)
    ensures
        !collection.holds(username) <==> collection.get_by_username(username) == Err::<
            UserView,
            ServiceErrorView,
        >(ServiceErrorView::NotFound { username }),
        collection.holds(username) <==> collection.get_by_username(username) is Ok,
{
}

/// A username that no record has stays without a record until a record is
/// created under it: creations under other usernames, updates and deletes
/// do not bring it in. The empty collection holds no username at all.
pub proof fn law_absent_stays_absent(
    collection: Collection,
    username: Seq<char>,
    record: UserView,
    other: Seq<char>,
    patch: UpdateView,
)
    requires
        !collection.holds(username),
        record.username != username,
    ensures
        !Collection::empty().holds(username),
        !collection.bootstrap().0.holds(username),
        !collection.create(record).0.holds(username),
        !collection.update(other, patch).0.holds(username),
        !collection.delete(other).0.holds(username),
{
    let created = collection.create(record).0;
    assert forall|i: int| 0 <= i < created.records.len() implies (
    #[trigger] created.records[i]).username != username by {
        if i < collection.records.len() {
            assert(collection.records[i].username != username);
        }
    }
    let updated = collection.update(other, patch).0;
    if collection.holds(other) {
        collection.lemma_held_has_position(other);
    }
    assert forall|i: int| 0 <= i < updated.records.len() implies (
    #[trigger] updated.records[i]).username != username by {
        assert(updated.records[i].username == collection.records[i].username);
    }
    let deleted = collection.delete(other).0;
    assert forall|i: int| 0 <= i < deleted.records.len() implies (
    #[trigger] deleted.records[i]).username != username by {
        if collection.holds(other) {
            let at = collection.position(other);
            let from = if i < at { i } else { i + 1 };
            assert(deleted.records[i] == collection.records[from]);
        } else {
            assert(deleted.records[i] == collection.records[i]);
        }
    }
}

/// After an update of a record that exists, a lookup by its username returns
/// that record with the patch's first name, last name and email, and with
/// the username it had.
pub proof fn law_update_then_get(collection: Collection, username: Seq<char>, patch: UpdateView)
    requires
        collection.ready(),
        collection.holds(username),
    ensures
        collection.update(username, patch).1 is Ok,
        collection.get_by_username(username) matches Ok(before) && before.username == username
            && collection.update(username, patch).0.get_by_username(username) == Ok::<
            UserView,
            ServiceErrorView,
        >(
            UserView {
                first_name: patch.first_name,
                last_name: patch.last_name,
                username,
                email: patch.email,
            },
        ),
{
    collection.lemma_held_has_position(username);
    collection.lemma_updated_wf(username, patch);
    let at = collection.position(username);
    let next = collection.update(username, patch).0;
    assert(next.records[at] == collection.records[at].patched(patch));
    next.lemma_distinct_position(username, at);
}

/// An update of the one record leaves every other record as it was.
pub proof fn law_update_spares_others(
    collection: Collection,
    username: Seq<char>,
    patch: UpdateView,
    other: Seq<char>,
)
    requires
        collection.ready(),
        other != username,
    ensures
        collection.update(username, patch).0.get_by_username(other) == collection.get_by_username(
            other,
        ),
{
    let next = collection.update(username, patch).0;
    if collection.holds(username) {
        collection.lemma_held_has_position(username);
        collection.lemma_updated_wf(username, patch);
        let at = collection.position(username);
        if collection.holds(other) {
            collection.lemma_held_has_position(other);
            let there = collection.position(other);
            assert(next.records[there] == collection.records[there]);
            next.lemma_distinct_position(other, there);
        } else {
            assert forall|i: int| 0 <= i < next.records.len() implies (
            #[trigger] next.records[i]).username != other by {
                assert(next.records[i].username == collection.records[i].username);
            }
        }
    }
}

/// An update under a username that no record has succeeds all the same and
/// changes nothing.
pub proof fn law_update_of_absent(collection: Collection, username: Seq<char>, patch: UpdateView)
    requires
        !collection.holds(username),
    ensures
        collection.update(username, patch) == (collection, Ok::<(), ServiceErrorView>(())),
{
}

/// After a delete, a lookup by the same username fails with `NotFound`.
pub proof fn law_delete_then_get(collection: Collection, username: Seq<char>)
    requires
        collection.ready(),
    ensures
        collection.delete(username).1 is Ok,
        collection.delete(username).0.get_by_username(username) == Err::<
            UserView,
            ServiceErrorView,
        >(ServiceErrorView::NotFound { username }),
{
    let next = collection.delete(username).0;
    if collection.holds(username) {
        collection.lemma_held_has_position(username);
        let at = collection.position(username);
        assert forall|i: int| 0 <= i < next.records.len() implies (
        #[trigger] next.records[i]).username != username by {
            let from = if i < at { i } else { i + 1 };
            assert(next.records[i] == collection.records[from]);
            assert(from != at);
            if from < at {
                assert(collection.records[from].username != collection.records[at].username);
            } else {
                assert(collection.records[at].username != collection.records[from].username);
            }
        }
    }
}

/// A delete under a username that no record has succeeds all the same and
/// changes nothing.
pub proof fn law_delete_of_absent(collection: Collection, username: Seq<char>)
    requires
        !collection.holds(username),
    ensures
        collection.delete(username) == (collection, Ok::<(), ServiceErrorView>(())),
{
}

/// The listing always succeeds on a store that answers, and a creation that
/// succeeds adds exactly its record to what is listed, whatever the order.
pub proof fn law_list_grows_by_created(collection: Collection, record: UserView)
    requires
        collection.create(record).1 is Ok,
    ensures
        collection.list_all() is Ok,
        collection.create(record).0.list_all() matches Ok(after)
            && after.to_multiset() == collection.list_all()->Ok_0.to_multiset().insert(record),
{
    to_multiset_build(collection.records, record);
}

/// After three records with three different usernames were created in a
/// directory that had none, the listing holds exactly those three, each
/// once, whatever the order.
pub proof fn law_list_after_three(a: UserView, b: UserView, c: UserView)
    requires
        a.username != b.username,
        a.username != c.username,
        b.username != c.username,
    ensures
        ({
            let start = Collection::empty().bootstrap().0;
            let filled = start.create(a).0.create(b).0.create(c).0;
            &&& start.create(a).1 is Ok
            &&& start.create(a).0.create(b).1 is Ok
            &&& start.create(a).0.create(b).0.create(c).1 is Ok
            &&& filled.list_all() matches Ok(all)
            &&& all.to_multiset() == Multiset::<UserView>::empty().insert(a).insert(b).insert(c)
        }),
{
    let start = Collection::empty().bootstrap().0;
    let one = start.create(a).0;
    let two = one.create(b).0;
    let three = two.create(c).0;
    assert(start.records =~= Seq::<UserView>::empty());
    assert(!start.holds(a.username));
    assert(one.records =~= seq![a]);
    assert(!one.holds(b.username));
    assert(two.records =~= seq![a, b]);
    assert(!two.holds(c.username));
    assert(three.records =~= seq![a, b, c]);
    law_list_grows_by_created(start, a);
    law_list_grows_by_created(one, b);
    law_list_grows_by_created(two, c);
    assert(start.records.to_multiset() =~= Multiset::<UserView>::empty()) by {
        to_multiset_len(start.records);
        lemma_multiset_empty_len(start.records.to_multiset());
    }
}

} // verus!
