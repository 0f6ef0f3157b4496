//! Between the known records and the persistent store, which keeps them as
//! a list under one key.

use vstd::prelude::*;

use crate::types::database::{
    by_id, has_id, id_at, id_position, ids_distinct, with_record, DatabaseContainer,
    DatabaseContainerView, DatabaseStore,
};

verus! {

/// The key under which the persistent store keeps the records.
pub open spec fn store_key() -> Seq<char> {
    "databases"@
}

/// The records that a list gives when each is stored under its id, in the
/// order of the list: of two records with one id the later one stays.
pub open spec fn loaded(list: Seq<DatabaseContainerView>) -> Seq<DatabaseContainerView>
    decreases list.len(),
{
    if list.len() == 0 {
        Seq::empty()
    } else {
        with_record(loaded(list.drop_last()), list.last())
    }
}

/// A list without a repeated id loads as it is.
pub proof fn lemma_loaded_distinct(list: Seq<DatabaseContainerView>)
    requires
        ids_distinct(list),
    ensures
        loaded(list) == list,
    decreases list.len(),
{
    if list.len() > 0 {
        let before = list.drop_last();
        assert(ids_distinct(before));
        lemma_loaded_distinct(before);
        assert(!has_id(before, list.last().id)) by {
            if has_id(before, list.last().id) {
                let at = id_position(before, list.last().id);
                assert(id_at(before, list.last().id, at));
                assert(list[at].id == list[list.len() - 1].id);
            }
        }
        assert(before.push(list.last()) =~= list);
    }
}

/// What is saved and loaded again is what was there: every record comes
/// back under its id with every field as it was.
pub proof fn lemma_save_then_load(records: Seq<DatabaseContainerView>)
    requires
        ids_distinct(records),
    ensures
        loaded(records) == records,
        by_id(loaded(records)) == by_id(records),
{
    lemma_loaded_distinct(records);
}

/// Converts between the records in memory and the list that is persisted.
#[derive(Debug, Clone, Copy)]
pub struct StorageService {}

impl StorageService {
    pub fn new() -> (r: Self) {
        StorageService {  }
    }

    /// The key under which the records are kept: `databases`.
    pub fn key(&self) -> (r: &'static str)
        ensures
            r@ == store_key(),
    {
        "databases"
    }

    /// The list to persist: all records, in their order.
    pub fn save_databases_to_store(&self, databases: &DatabaseStore) -> (r: Vec<DatabaseContainer>)
        ensures
            r.deep_view() == databases@,
            ids_distinct(r.deep_view()),
    {
        databases.distinct();
        databases.values()
    }

    /// The records that a persisted list holds, each under its id. Nothing
    /// persisted yet gives no records.
    pub fn load_databases_from_store(&self, persisted: Option<Vec<DatabaseContainer>>) -> (r:
        DatabaseStore)
        ensures
            r@ == match persisted {
                Some(list) => loaded(list.deep_view()),
                None => Seq::empty(),
            },
    {
        let mut store = DatabaseStore::new();
        match persisted {
            Some(list) => {
                let ghost all = list.deep_view();
                let mut at: usize = 0;
                assert(all.take(0) =~= Seq::<DatabaseContainerView>::empty());
                while at < list.len()
                    invariant
                        at <= list.len(),
                        all == list.deep_view(),
                        store@ == loaded(all.take(at as int)),
                    decreases list.len() - at,
                {
                    assert(all.take(at + 1).drop_last() =~= all.take(at as int));
                    assert(all.take(at + 1).last() == all[at as int]);
                    store.insert(list[at].clone());
                    at += 1;
                }
                assert(all.take(at as int) =~= all);
            },
            None => {},
        }
        store
    }
}

/// The order in which records were saved does not matter: two lists that
/// hold the same records, each id once, load to the same record under every
/// id.
pub proof fn lemma_load_order_is_irrelevant(
    first: Seq<DatabaseContainerView>,
    second: Seq<DatabaseContainerView>,
)
    requires
        ids_distinct(first),
        ids_distinct(second),
        forall|record: DatabaseContainerView| first.contains(record) <==> second.contains(record),
    ensures
        by_id(loaded(first)) == by_id(loaded(second)),
{
    lemma_loaded_distinct(first);
    lemma_loaded_distinct(second);
    lemma_same_records_same_map(first, second);
    lemma_same_records_same_map(second, first);
    assert(by_id(first) =~= by_id(second)) by {
        assert forall|id: Seq<char>| has_id(first, id) == has_id(second, id) by {
            if has_id(first, id) {
                assert(id_at(first, id, id_position(first, id)));
            }
            if has_id(second, id) {
                assert(id_at(second, id, id_position(second, id)));
            }
        }
    }
}

/// Every id of `first` is an id of `second`, with the same record.
proof fn lemma_same_records_same_map(
    first: Seq<DatabaseContainerView>,
    second: Seq<DatabaseContainerView>,
)
    requires
        ids_distinct(first),
        ids_distinct(second),
        forall|record: DatabaseContainerView| first.contains(record) <==> second.contains(record),
    ensures
        forall|id: Seq<char>| #[trigger]
            has_id(first, id) ==> has_id(second, id) && second[id_position(second, id)]
                == first[id_position(first, id)],
{
    assert forall|id: Seq<char>| #[trigger] has_id(first, id) implies has_id(second, id)
        && second[id_position(second, id)] == first[id_position(first, id)] by {
        let at = id_position(first, id);
        assert(id_at(first, id, at));
        assert(first.contains(first[at]));
        assert(second.contains(first[at]));
        let there = choose|k: int| 0 <= k < second.len() && second[k] == first[at];
        assert(id_at(second, id, there));
        let found = id_position(second, id);
        assert(id_at(second, id, found));
        assert(second[found].id == second[there].id);
    }
}

} // verus!
