//! The record of one managed database, and the set of known records.

use vstd::prelude::*;

use crate::text::{copy_optional, same_text};

verus! {

/// The durable record of one managed database.
#[derive(Debug)]
pub struct DatabaseContainer {
    pub id: String,
    pub name: String,
    pub db_type: String,
    pub version: String,
    pub status: String,
    pub port: i32,
    pub created_at: String,
    pub max_connections: i32,
    pub container_id: Option<String>,
    pub stored_password: Option<String>,
    pub stored_username: Option<String>,
    pub stored_database_name: Option<String>,
    pub stored_persist_data: bool,
    pub stored_enable_auth: bool,
}

pub struct DatabaseContainerView {
    pub id: Seq<char>,
    pub name: Seq<char>,
    pub db_type: Seq<char>,
    pub version: Seq<char>,
    pub status: Seq<char>,
    pub port: i32,
    pub created_at: Seq<char>,
    pub max_connections: i32,
    pub container_id: Option<Seq<char>>,
    pub stored_password: Option<Seq<char>>,
    pub stored_username: Option<Seq<char>>,
    pub stored_database_name: Option<Seq<char>>,
    pub stored_persist_data: bool,
    pub stored_enable_auth: bool,
}

impl View for DatabaseContainer {
    type V = DatabaseContainerView;

    open spec fn view(&self) -> DatabaseContainerView {
        DatabaseContainerView {
            id: self.id@,
            name: self.name@,
            db_type: self.db_type@,
            version: self.version@,
            status: self.status@,
            port: self.port,
            created_at: self.created_at@,
            max_connections: self.max_connections,
            container_id: self.container_id.deep_view(),
            stored_password: self.stored_password.deep_view(),
            stored_username: self.stored_username.deep_view(),
            stored_database_name: self.stored_database_name.deep_view(),
            stored_persist_data: self.stored_persist_data,
            stored_enable_auth: self.stored_enable_auth,
        }
    }
}

impl DeepView for DatabaseContainer {
    type V = DatabaseContainerView;

    open spec fn deep_view(&self) -> DatabaseContainerView {
        self@
    }
}

impl Clone for DatabaseContainer {
    fn clone(&self) -> (r: Self)
        ensures
            r@ == self@,
    {
        DatabaseContainer {
            id: self.id.clone(),
            name: self.name.clone(),
            db_type: self.db_type.clone(),
            version: self.version.clone(),
            status: self.status.clone(),
            port: self.port,
            created_at: self.created_at.clone(),
            max_connections: self.max_connections,
            container_id: copy_optional(&self.container_id),
            stored_password: copy_optional(&self.stored_password),
            stored_username: copy_optional(&self.stored_username),
            stored_database_name: copy_optional(&self.stored_database_name),
            stored_persist_data: self.stored_persist_data,
            stored_enable_auth: self.stored_enable_auth,
        }
    }
}

/// A copy of a list of records.
pub fn copy_records(v: &Vec<DatabaseContainer>) -> (r: Vec<DatabaseContainer>)
    ensures
        r.deep_view() == v.deep_view(),
{
    let mut out: Vec<DatabaseContainer> = Vec::new();
    let mut at: usize = 0;
    while at < v.len()
        invariant
            at <= v.len(),
            out.deep_view() == v.deep_view().take(at as int),
        decreases v.len() - at,
    {
        let ghost shown = out.deep_view();
        out.push(v[at].clone());
        assert(out.deep_view() =~= shown.push(v.deep_view()[at as int]));
        assert(v.deep_view().take(at + 1) =~= v.deep_view().take(at as int).push(
            v.deep_view()[at as int],
        ));
        at += 1;
    }
    assert(v.deep_view().take(at as int) =~= v.deep_view());
    out
}

/// `records` holds a record with the id `id` at position `at`.
pub open spec fn id_at(records: Seq<DatabaseContainerView>, id: Seq<char>, at: int) -> bool {
    0 <= at < records.len() && records[at].id == id
}

/// Some record of `records` has the id `id`.
pub open spec fn has_id(records: Seq<DatabaseContainerView>, id: Seq<char>) -> bool {
    exists|at: int| id_at(records, id, at)
}

/// No id occurs in two records.
pub open spec fn ids_distinct(records: Seq<DatabaseContainerView>) -> bool {
    forall|i: int, j: int|
        0 <= i < records.len() && 0 <= j < records.len() && #[trigger] records[i].id
            == #[trigger] records[j].id ==> i == j
}

/// A position of `id` in `records`; the only one where the ids are distinct.
pub open spec fn id_position(records: Seq<DatabaseContainerView>, id: Seq<char>) -> int {
    choose|at: int| id_at(records, id, at)
}

/// The record with the id `id`, if there is one.
pub open spec fn record_of(records: Seq<DatabaseContainerView>, id: Seq<char>) -> Option<
    DatabaseContainerView,
> {
    if has_id(records, id) {
        Some(records[id_position(records, id)])
    } else {
        None
    }
}

/// `records` after `record` was stored: a record with the same id is
/// replaced where it stands, a new id goes to the end.
pub open spec fn with_record(
    records: Seq<DatabaseContainerView>,
    record: DatabaseContainerView,
) -> Seq<DatabaseContainerView> {
    if has_id(records, record.id) {
        records.update(id_position(records, record.id), record)
    } else {
        records.push(record)
    }
}

/// `records` without the record that has the id `id`.
pub open spec fn without_id(records: Seq<DatabaseContainerView>, id: Seq<char>) -> Seq<
    DatabaseContainerView,
> {
    if has_id(records, id) {
        records.remove(id_position(records, id))
    } else {
        records
    }
}

/// `records` with the status `status` for the record that has the id `id`.
pub open spec fn with_status(
    records: Seq<DatabaseContainerView>,
    id: Seq<char>,
    status: Seq<char>,
) -> Seq<DatabaseContainerView> {
    if has_id(records, id) {
        let at = id_position(records, id);
        records.update(at, DatabaseContainerView { status, ..records[at] })
    } else {
        records
    }
}

/// The records as a map from id to record.
pub open spec fn by_id(records: Seq<DatabaseContainerView>) -> Map<
    Seq<char>,
    DatabaseContainerView,
> {
    Map::new(|id: Seq<char>| has_id(records, id), |id: Seq<char>| records[id_position(records, id)])
}

/// The known records: at most one for each id, in the order in which the
/// ids were first stored.
#[derive(Debug)]
pub struct DatabaseStore {
    records: Vec<DatabaseContainer>,
}

impl View for DatabaseStore {
    type V = Seq<DatabaseContainerView>;

    closed spec fn view(&self) -> Seq<DatabaseContainerView> {
        self.records.deep_view()
    }
}

impl DeepView for DatabaseStore {
    type V = Seq<DatabaseContainerView>;

    open spec fn deep_view(&self) -> Seq<DatabaseContainerView> {
        self@
    }
}

impl DatabaseStore {
    #[verifier::type_invariant]
    spec fn well_formed(self) -> bool {
        ids_distinct(self.records.deep_view())
    }

    /// No records.
    pub fn new() -> (r: Self)
        ensures
            r@ == Seq::<DatabaseContainerView>::empty(),
    {
        let r = DatabaseStore { records: Vec::new() };
        assert(r.records.deep_view() =~= Seq::<DatabaseContainerView>::empty());
        r
    }

    /// The number of records.
    pub fn len(&self) -> (r: usize)
        ensures
            r == self@.len(),
    {
        self.records.len()
    }

    /// Whether there is no record.
    pub fn is_empty(&self) -> (r: bool)
        ensures
            r == (self@.len() == 0),
    {
        self.records.len() == 0
    }

    /// The ids are distinct, for every value of this type.
    pub fn distinct(&self)
        ensures
            ids_distinct(self@),
    {
        proof {
            use_type_invariant(self);
        }
    }

    /// The position of `id`, if it is there.
    fn position(&self, id: &str) -> (r: Option<usize>)
        ensures
            match r {
                Some(at) => id_at(self@, id@, at as int) && at as int == id_position(self@, id@),
                None => !has_id(self@, id@),
            },
    {
        proof {
            use_type_invariant(self);
        }
        let mut at: usize = 0;
        while at < self.records.len()
            invariant
                at <= self.records.len(),
                ids_distinct(self@),
                forall|k: int| 0 <= k < at ==> !id_at(self@, id@, k),
            decreases self.records.len() - at,
        {
            if same_text(self.records[at].id.as_str(), id) {
                proof {
                    assert(id_at(self@, id@, at as int));
                    let found = id_position(self@, id@);
                    assert(id_at(self@, id@, found));
                    assert(self@[found].id == self@[at as int].id);
                }
                return Some(at);
            }
            at += 1;
        }
        None
    }

    /// Whether a record has the id `id`.
    pub fn contains_key(&self, id: &str) -> (r: bool)
        ensures
            r == has_id(self@, id@),
    {
        self.position(id).is_some()
    }

    /// The record with the id `id`, if there is one.
    pub fn get(&self, id: &str) -> (r: Option<&DatabaseContainer>)
        ensures
            r.deep_view() == record_of(self@, id@),
    {
        match self.position(id) {
            Some(at) => Some(&self.records[at]),
            None => None,
        }
    }

    /// The record at position `at`.
    pub fn record(&self, at: usize) -> (r: &DatabaseContainer)
        requires
            at < self@.len(),
        ensures
            r@ == self@[at as int],
    {
        &self.records[at]
    }

    /// Copies of all records, in their order.
    pub fn values(&self) -> (r: Vec<DatabaseContainer>)
        ensures
            r.deep_view() == self@,
    {
        copy_records(&self.records)
    }

    /// Stores `record` under its id and returns the record that it replaced.
    pub fn insert(&mut self, record: DatabaseContainer) -> (r: Option<DatabaseContainer>)
        ensures
            final(self)@ == with_record(old(self)@, record@),
            r.deep_view() == record_of(old(self)@, record@.id),
    {
        proof {
            use_type_invariant(&*self);
        }
        let ghost before = self.records.deep_view();
        let found = self.position(record.id.as_str());
        let mut records: Vec<DatabaseContainer> = Vec::new();
        assert(records.deep_view() =~= Seq::<DatabaseContainerView>::empty());
        std::mem::swap(&mut self.records, &mut records);
        match found {
            Some(at) => {
                let mut rest = records.split_off(at);
                let previous = rest.remove(0);
                records.push(record);
                records.append(&mut rest);
                assert(records.deep_view() =~= before.update(at as int, record@));
                self.records = records;
                Some(previous)
            },
            None => {
                records.push(record);
                assert(records.deep_view() =~= before.push(record@));
                assert(ids_distinct(records.deep_view())) by {
                    assert forall|i: int, j: int|
                        0 <= i < records.deep_view().len() && 0 <= j < records.deep_view().len()
                            && #[trigger] records.deep_view()[i].id
                            == #[trigger] records.deep_view()[j].id implies i == j by {
                        if i < before.len() && j == before.len() {
                            assert(id_at(before, record@.id, i));
                        }
                        if j < before.len() && i == before.len() {
                            assert(id_at(before, record@.id, j));
                        }
                    }
                }
                self.records = records;
                None
            },
        }
    }

    /// Takes out the record with the id `id` and returns it.
    pub fn remove(&mut self, id: &str) -> (r: Option<DatabaseContainer>)
        ensures
            final(self)@ == without_id(old(self)@, id@),
            r.deep_view() == record_of(old(self)@, id@),
    {
        proof {
            use_type_invariant(&*self);
        }
        let ghost before = self.records.deep_view();
        let found = self.position(id);
        match found {
            Some(at) => {
                let mut records: Vec<DatabaseContainer> = Vec::new();
                assert(records.deep_view() =~= Seq::<DatabaseContainerView>::empty());
                std::mem::swap(&mut self.records, &mut records);
                let previous = records.remove(at);
                assert(records.deep_view() =~= before.remove(at as int));
                self.records = records;
                Some(previous)
            },
            None => None,
        }
    }

    /// Sets what the engine reports of the record at position `at`: its
    /// status and the container that stands for it.
    pub fn set_engine_state(&mut self, at: usize, status: String, container_id: Option<String>)
        requires
            at < old(self)@.len(),
        ensures
            final(self)@ == old(self)@.update(
                at as int,
                DatabaseContainerView {
                    status: status@,
                    container_id: container_id.deep_view(),
                    ..old(self)@[at as int]
                },
            ),
    {
        proof {
            use_type_invariant(&*self);
        }
        let ghost before = self.records.deep_view();
        let mut records: Vec<DatabaseContainer> = Vec::new();
        assert(records.deep_view() =~= Seq::<DatabaseContainerView>::empty());
        std::mem::swap(&mut self.records, &mut records);
        let mut rest = records.split_off(at);
        let mut record = rest.remove(0);
        record.status = status;
        record.container_id = container_id;
        let ghost changed = record@;
        records.push(record);
        records.append(&mut rest);
        assert(records.deep_view() =~= before.update(at as int, changed));
        self.records = records;
    }
}

impl DatabaseStore {
    /// Sets the status of the record that has the id `id`, if there is one.
    pub fn set_status(&mut self, id: &str, status: String)
        ensures
            final(self)@ == with_status(old(self)@, id@, status@),
    {
        match self.position(id) {
            Some(at) => {
                let container = copy_optional(&self.record(at).container_id);
                self.set_engine_state(at, status, container);
                assert(self@ =~= with_status(old(self)@, id@, status@));
            },
            None => {},
        }
    }
}

impl Clone for DatabaseStore {
    fn clone(&self) -> (r: Self)
        ensures
            r@ == self@,
    {
        proof {
            use_type_invariant(self);
        }
        DatabaseStore { records: copy_records(&self.records) }
    }
}

} // verus!
