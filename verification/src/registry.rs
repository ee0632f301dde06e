//! The registry of the tables of a process: one table for each relation that was
//! touched, found by the relation's identifier.
//!
//! The registry is a value that every entry point is handed. Whoever shares it
//! between threads guards it with one lock, held for a call and never across the
//! work outside that a call asks for.

use crate::conversion::StorageError;
use crate::storage::{
    batch_of, file_path, layout_view, outcome_view, CloseRequest, Field, ReadStep, ReadStepView,
    RecordBatch, RecordBatchView, Schema, SchemaView, Table, TableView, TupleSlot, TupleSlotView,
    WriteRequest, WriteRequestView,
};
use std::collections::HashMap;
use vstd::prelude::*;
use vstd::std_specs::iter::IteratorSpec;

verus! {

/// The tables of a process, by relation.
#[derive(Debug)]
pub struct VirtualStorage {
    tables: HashMap<u32, Table>,
}

/// Each table of the registry is well formed and stands under its own relation.
pub open spec fn tables_wf(tables: Map<u32, TableView>) -> bool {
    forall|id: u32|
        tables.contains_key(id) ==> (#[trigger] tables[id]).wf() && tables[id].table_id == id
}

/// Nothing to close.
pub open spec fn nothing_to_close() -> CloseRequest {
    CloseRequest { writer: false, reader: false }
}

/// Creating a relation: the registry after it, and what has to be closed outside
/// of the table that was there before.
///
/// With an attribute of an unsupported type nothing changes. Otherwise the relation
/// has a fresh table with the schema, in place of any earlier one.
pub open spec fn created(tables: Map<u32, TableView>, table_id: u32, schema: SchemaView) -> (
    Map<u32, TableView>,
    Result<CloseRequest, StorageError>,
) {
    let made = TableView::new(table_id).set_schema(schema);
    match made.1 {
        Err(e) => (tables, Err(e)),
        Ok(_) => (
            tables.insert(table_id, made.0),
            Ok(
                if tables.contains_key(table_id) {
                    tables[table_id].close().1
                } else {
                    nothing_to_close()
                },
            ),
        ),
    }
}

/// Inserting a row: the registry after it, and what has to be done outside. A
/// relation without a table takes no row.
pub open spec fn inserted(
    tables: Map<u32, TableView>,
    dir: Seq<char>,
    table_id: u32,
    row: TupleSlotView,
) -> (Map<u32, TableView>, Result<Option<WriteRequestView>, StorageError>) {
    if tables.contains_key(table_id) {
        let step = tables[table_id].write(file_path(dir, table_id), row);
        (tables.insert(table_id, step.0), match step.1 {
            Ok(request) => Ok(Some(request)),
            Err(e) => Err(e),
        })
    } else {
        (tables, Ok(None))
    }
}

/// Setting the schema of a scan: the registry after it, and whether a stream has
/// to be released outside. A relation without a table gets one.
pub open spec fn schema_set(tables: Map<u32, TableView>, table_id: u32, schema: SchemaView) -> (
    Map<u32, TableView>,
    Result<bool, StorageError>,
) {
    let table = if tables.contains_key(table_id) {
        tables[table_id]
    } else {
        TableView::new(table_id)
    };
    let step = table.set_schema(schema);
    match step.1 {
        Err(e) => (tables, Err(e)),
        Ok(release) => (tables.insert(table_id, step.0), Ok(release)),
    }
}

/// One step of a scan: the registry and the row buffer after it, and its outcome.
/// A relation without a table has no rows.
pub open spec fn read_step(
    tables: Map<u32, TableView>,
    dir: Seq<char>,
    table_id: u32,
    row: TupleSlotView,
) -> (Map<u32, TableView>, TupleSlotView, Result<ReadStepView, StorageError>) {
    if tables.contains_key(table_id) {
        let step = tables[table_id].read(file_path(dir, table_id), row);
        (tables.insert(table_id, step.0), step.1, step.2)
    } else {
        (tables, row, Ok(ReadStepView::Exhausted))
    }
}

/// The engine's answer to a request of a scan: the registry after it.
pub open spec fn supplied(
    tables: Map<u32, TableView>,
    table_id: u32,
    batch: Option<RecordBatchView>,
) -> (Map<u32, TableView>, Result<(), StorageError>) {
    if tables.contains_key(table_id) {
        let step = tables[table_id].supply(batch);
        (tables.insert(table_id, step.0), step.1)
    } else {
        (tables, Ok(()))
    }
}

/// The registry with every table closed.
pub open spec fn all_closed(tables: Map<u32, TableView>) -> Map<u32, TableView> {
    Map::new(|id: u32| tables.contains_key(id), |id: u32| tables[id].close().0)
}

/// What has to be done outside when a relation is dropped.
#[derive(Debug, PartialEq, Eq)]
pub struct DropRequest {
    /// The handles to close.
    pub close: CloseRequest,
    /// The path of the file to remove.
    pub path: String,
}

/// What a `DropRequest` holds.
pub struct DropRequestView {
    pub close: CloseRequest,
    pub path: Seq<char>,
}

impl View for DropRequest {
    type V = DropRequestView;

    open spec fn view(&self) -> DropRequestView {
        DropRequestView { close: self.close, path: self.path@ }
    }
}

/// What an optional request holds.
pub open spec fn drop_view(r: Option<DropRequest>) -> Option<DropRequestView> {
    match r {
        Some(request) => Some(request@),
        None => None,
    }
}

/// What the outcome of an insert holds.
pub open spec fn insert_view(r: Result<Option<WriteRequest>, StorageError>) -> Result<
    Option<WriteRequestView>,
    StorageError,
> {
    match r {
        Ok(Some(request)) => Ok(Some(request@)),
        Ok(None) => Ok(None),
        Err(e) => Err(e),
    }
}

/// Dropping a relation: the registry without its table, and what has to be done
/// outside; nothing for a relation without a table.
pub open spec fn dropped(tables: Map<u32, TableView>, dir: Seq<char>, table_id: u32) -> (
    Map<u32, TableView>,
    Option<DropRequestView>,
) {
    if tables.contains_key(table_id) {
        (
            tables.remove(table_id),
            Some(
                DropRequestView {
                    close: tables[table_id].close().1,
                    path: file_path(dir, table_id),
                },
            ),
        )
    } else {
        (tables, None)
    }
}

impl View for VirtualStorage {
    type V = Map<u32, TableView>;

    closed spec fn view(&self) -> Map<u32, TableView> {
        self.tables@.map_values(|t: Table| t@)
    }
}

impl VirtualStorage {
    /// The registry is well formed, at all times.
    #[verifier::type_invariant]
    pub open spec fn well_formed(self) -> bool {
        tables_wf(self@)
    }

    /// The columns of the columnar file of a relation, once it has a table with a
    /// schema.
    pub fn table_schema(&self, table_id: u32) -> (r: Option<Vec<Field>>)
        ensures
            layout_view(r) == if self@.contains_key(table_id) {
                self@[table_id].schema
            } else {
                None
            },
    {
        broadcast use vstd::std_specs::hash::group_hash_axioms;

        match self.tables.get(&table_id) {
            Some(table) => table.get_schema(),
            None => None,
        }
    }

    /// A registry without tables.
    pub fn new() -> (r: Self)
        ensures
            r@ == Map::<u32, TableView>::empty(),
            tables_wf(r@),
    {
        let r = Self { tables: HashMap::new() };
        assert(r@ =~= Map::<u32, TableView>::empty());
        r
    }

    /// Takes the table of a relation out of the registry.
    pub fn remove(&mut self, table_id: u32) -> (r: Option<Table>)
        ensures
            match r {
                Some(table) => old(self)@.contains_key(table_id) && table@ == old(self)@[table_id]
                    && table@.table_id == table_id && final(self)@ == old(self)@.remove(table_id),
                None => !old(self)@.contains_key(table_id) && final(self)@ == old(self)@,
            },
    {
        broadcast use vstd::std_specs::hash::group_hash_axioms;

        proof {
            use_type_invariant(&*self);
        }
        // The map is changed outside the registry, which is well formed, empty,
        // meanwhile.
        let mut tables: HashMap<u32, Table> = HashMap::new();
        assert(tables@.map_values(|t: Table| t@) =~= Map::<u32, TableView>::empty());
        core::mem::swap(&mut self.tables, &mut tables);
        let r = tables.remove(&table_id);
        assert(tables@.map_values(|t: Table| t@) =~= old(self)@.remove(table_id));
        core::mem::swap(&mut self.tables, &mut tables);
        r
    }

    /// Puts a table under its relation, in place of any other, which is returned.
    pub fn insert(&mut self, table: Table) -> (r: Option<Table>)
        ensures
            final(self)@ == old(self)@.insert(table@.table_id, table@),
            match r {
                Some(before) => old(self)@.contains_key(table@.table_id) && before@ == old(
                    self,
                )@[table@.table_id],
                None => !old(self)@.contains_key(table@.table_id),
            },
    {
        broadcast use vstd::std_specs::hash::group_hash_axioms;

        proof {
            use_type_invariant(&*self);
            use_type_invariant(&table);
        }
        let table_id = table.table_id();
        let mut tables: HashMap<u32, Table> = HashMap::new();
        assert(tables@.map_values(|t: Table| t@) =~= Map::<u32, TableView>::empty());
        core::mem::swap(&mut self.tables, &mut tables);
        let r = tables.insert(table_id, table);
        assert(tables@.map_values(|t: Table| t@) =~= old(self)@.insert(table_id, table@));
        core::mem::swap(&mut self.tables, &mut tables);
        r
    }

    /// Whether a relation has a table.
    pub fn contains(&self, table_id: u32) -> (r: bool)
        ensures
            r == self@.contains_key(table_id),
    {
        broadcast use vstd::std_specs::hash::group_hash_axioms;

        self.tables.contains_key(&table_id)
    }

    /// The relations that have a table, each once, in no particular order.
    fn relations(&self) -> (ids: Vec<u32>)
        ensures
            ids@.to_set() == self@.dom(),
            ids@.no_duplicates(),
    {
        broadcast use vstd::std_specs::hash::group_hash_axioms;

        let mut ids: Vec<u32> = Vec::new();
        let keys = self.tables.keys();
        let ghost all = keys.remaining().unref();
        assert(all.to_set() == self.tables@.dom());
        for id in it: keys
            invariant
                ids@.len() == it.index(),
                it.seq().unref() == all,
                forall|j: int| 0 <= j < ids@.len() ==> ids@[j] == *it.seq()[j],
        {
            ids.push(*id);
        }
        assert(ids@ =~= all);
        assert(self@.dom() =~= self.tables@.dom());
        ids
    }
}

/// Gives a relation a fresh table with the schema.
pub fn create_table(storage: &mut VirtualStorage, table_id: u32, schema: Schema) -> (r: Result<
    CloseRequest,
    StorageError,
>)
    ensures
        tables_wf(final(storage)@),
        (final(storage)@, r) == created(old(storage)@, table_id, schema@),
{
    proof {
        use_type_invariant(&*storage);
    }
    let mut table = Table::new(table_id);
    match table.set_schema(schema) {
        Ok(_) => {},
        Err(e) => {
            return Err(e);
        },
    }
    match storage.insert(table) {
        Some(before) => {
            let mut before = before;
            Ok(before.close())
        },
        None => Ok(CloseRequest { writer: false, reader: false }),
    }
}

/// Takes one row for a relation, whose file lies under the root directory `dir`.
pub fn insert_table(storage: &mut VirtualStorage, dir: &str, table_id: u32, row: TupleSlot) -> (r:
    Result<Option<WriteRequest>, StorageError>)
    ensures
        tables_wf(final(storage)@),
        (final(storage)@, insert_view(r)) == inserted(old(storage)@, dir@, table_id, row@),
{
    proof {
        use_type_invariant(&*storage);
    }
    match storage.remove(table_id) {
        Some(table) => {
            let mut table = table;
            let r = table.write(dir, row);
            storage.insert(table);
            match r {
                Ok(request) => Ok(Some(request)),
                Err(e) => Err(e),
            }
        },
        None => Ok(None),
    }
}

/// Closes every table. Says, for each relation with something open, what has to be
/// closed outside.
pub fn close_tables(storage: &mut VirtualStorage) -> (r: Vec<(u32, CloseRequest)>)
    ensures
        tables_wf(final(storage)@),
        final(storage)@ == all_closed(old(storage)@),
        forall|i: int|
            0 <= i < r@.len() ==> old(storage)@.contains_key((#[trigger] r@[i]).0) && r@[i].1
                == old(storage)@[r@[i].0].close().1 && r@[i].1 != nothing_to_close(),
        forall|i: int, j: int| 0 <= i < j < r@.len() ==> r@[i].0 != r@[j].0,
        forall|id: u32|
            old(storage)@.contains_key(id) && old(storage)@[id].close().1 != nothing_to_close()
                ==> exists|i: int| 0 <= i < r@.len() && (#[trigger] r@[i]).0 == id,
{
    proof {
        use_type_invariant(&*storage);
    }
    let ids = storage.relations();
    let mut requests: Vec<(u32, CloseRequest)> = Vec::new();
    let mut k: usize = 0;
    while k < ids.len()
        invariant
            k <= ids.len(),
            ids@.to_set() == old(storage)@.dom(),
            ids@.no_duplicates(),
            tables_wf(storage@),
            storage@.dom() == old(storage)@.dom(),
            forall|id: u32|
                old(storage)@.contains_key(id) ==> #[trigger] storage@[id] == if exists|j: int|
                    0 <= j < k && ids@[j] == id {
                    old(storage)@[id].close().0
                } else {
                    old(storage)@[id]
                },
            forall|i: int|
                0 <= i < requests@.len() ==> old(storage)@.contains_key((#[trigger] requests@[i]).0)
                    && requests@[i].1 == old(storage)@[requests@[i].0].close().1 && requests@[i].1
                    != nothing_to_close() && exists|j: int| 0 <= j < k && ids@[j] == requests@[i].0,
            forall|i: int, j: int|
                0 <= i < j < requests@.len() ==> requests@[i].0 != requests@[j].0,
            forall|j: int|
                0 <= j < k && old(storage)@[#[trigger] ids@[j]].close().1 != nothing_to_close()
                    ==> exists|i: int| 0 <= i < requests@.len() && (#[trigger] requests@[i]).0
                    == ids@[j],
        decreases ids.len() - k,
    {
        let id = ids[k];
        assert(ids@.to_set().contains(id));
        assert(!(exists|j: int| 0 <= j < k && ids@[j] == id));
        match storage.remove(id) {
            Some(table) => {
                let mut table = table;
                let request = table.close();
                storage.insert(table);
                assert(storage@.dom() =~= old(storage)@.dom());
                if request.writer || request.reader {
                    let ghost before = requests@;
                    requests.push((id, request));
                    assert(forall|i: int| 0 <= i < before.len() ==> requests@[i] == before[i]);
                    assert(requests@[before.len() as int] == (id, request));
                }
            },
            None => {},
        }
        k += 1;
        assert forall|id2: u32| old(storage)@.contains_key(id2) implies #[trigger] storage@[id2]
            == if exists|j: int| 0 <= j < k && ids@[j] == id2 {
            old(storage)@[id2].close().0
        } else {
            old(storage)@[id2]
        } by {
            if id2 == id {
                assert(ids@[k - 1] == id2);
            } else {
                if exists|j: int| 0 <= j < k && ids@[j] == id2 {
                    let j = choose|j: int| 0 <= j < k && ids@[j] == id2;
                    assert(0 <= j < k - 1 && ids@[j] == id2);
                }
            }
        }
        assert forall|j: int|
            0 <= j < k && old(storage)@[#[trigger] ids@[j]].close().1
                != nothing_to_close() implies exists|i: int|
            0 <= i < requests@.len() && (#[trigger] requests@[i]).0 == ids@[j] by {
            if j == k - 1 {
                assert(requests@[requests@.len() - 1].0 == id);
            } else {
                let i = choose|i: int| 0 <= i < requests@.len() && (#[trigger] requests@[i]).0 == ids@[j];
                assert(requests@[i].0 == ids@[j]);
            }
        }
    }
    proof {
        assert forall|id: u32| old(storage)@.contains_key(id) implies #[trigger] storage@[id]
            == old(storage)@[id].close().0 by {
            assert(ids@.to_set().contains(id));
            let j = choose|j: int| 0 <= j < ids@.len() && ids@[j] == id;
            assert(0 <= j < k && ids@[j] == id);
        }
        assert(storage@ =~= all_closed(old(storage)@));
        assert forall|id: u32|
            old(storage)@.contains_key(id) && old(storage)@[id].close().1
                != nothing_to_close() implies exists|i: int|
            0 <= i < requests@.len() && (#[trigger] requests@[i]).0 == id by {
            assert(ids@.to_set().contains(id));
            let j = choose|j: int| 0 <= j < ids@.len() && ids@[j] == id;
            assert(ids@[j] == id);
        }
    }
    requests
}

/// Sets the schema of the scan of a relation to come.
pub fn set_schema_for_read(storage: &mut VirtualStorage, table_id: u32, schema: Schema) -> (r:
    Result<bool, StorageError>)
    ensures
        tables_wf(final(storage)@),
        (final(storage)@, r) == schema_set(old(storage)@, table_id, schema@),
{
    proof {
        use_type_invariant(&*storage);
    }
    let (mut table, existed) = match storage.remove(table_id) {
        Some(table) => (table, true),
        None => (Table::new(table_id), false),
    };
    let r = table.set_schema(schema);
    match r {
        Ok(release) => {
            storage.insert(table);
            Ok(release)
        },
        Err(e) => {
            if existed {
                storage.insert(table);
                assert(storage@ =~= old(storage)@);
            }
            Err(e)
        },
    }
}

/// One step of the scan of a relation, whose file lies under the root directory
/// `dir`, into the row buffer.
pub fn read(storage: &mut VirtualStorage, dir: &str, table_id: u32, row: &mut TupleSlot) -> (r:
    Result<ReadStep, StorageError>)
    ensures
        tables_wf(final(storage)@),
        (final(storage)@, final(row)@, outcome_view(r)) == read_step(
            old(storage)@,
            dir@,
            table_id,
            old(row)@,
        ),
{
    proof {
        use_type_invariant(&*storage);
    }
    match storage.remove(table_id) {
        Some(table) => {
            let mut table = table;
            let r = table.read(dir, row);
            storage.insert(table);
            r
        },
        None => Ok(ReadStep::Exhausted),
    }
}

/// Takes the engine's answer to a request of the scan of a relation.
pub fn supply_batch(storage: &mut VirtualStorage, table_id: u32, batch: Option<RecordBatch>) -> (r:
    Result<(), StorageError>)
    ensures
        tables_wf(final(storage)@),
        (final(storage)@, r) == supplied(old(storage)@, table_id, batch_of(batch)),
{
    proof {
        use_type_invariant(&*storage);
    }
    match storage.remove(table_id) {
        Some(table) => {
            let mut table = table;
            let r = table.supply(batch);
            storage.insert(table);
            r
        },
        None => Ok(()),
    }
}

/// Takes the table of a relation out of the registry. Says what has to be closed
/// and which file has to be removed outside.
pub fn drop_table(storage: &mut VirtualStorage, dir: &str, table_id: u32) -> (r: Option<
    DropRequest,
>)
    ensures
        tables_wf(final(storage)@),
        (final(storage)@, drop_view(r)) == dropped(old(storage)@, dir@, table_id),
{
    proof {
        use_type_invariant(&*storage);
    }
    match storage.remove(table_id) {
        Some(table) => {
            let mut table = table;
            let close = table.close();
            let path = table.drop(dir);
            Some(DropRequest { close, path })
        },
        None => None,
    }
}

} // verus!
