//! The protocol of a scan with pushdown, from the planner's choice of a path to the
//! end of the scan.
//!
//! At plan time the relation's access path is replaced by one path that carries
//! the sampling clause as text; the plan made of it carries the projected columns,
//! the filter as text and the sampling text. When the scan begins, the three become
//! the schema of the relation's table; each execution step is one read.

use crate::conversion::{StorageError, SELF_ITEM_POINTER_ATTRIBUTE_NUMBER, TIDOID};
use crate::extract_clauses::{extract_clauses, is_supported, translation, Expr};
use crate::registry::{read, read_step, schema_set, set_schema_for_read, tables_wf, VirtualStorage};
use crate::storage::{
    outcome_view, text_of, Attribute, ReadStep, ReadStepView, Schema, SchemaView, TupleSlot,
};
use vstd::prelude::*;

verus! {

/// The identifier that names no relation.
pub const INVALID_OID: u32 = 0;

/// A column of a relation as the host's catalogue has it.
#[derive(Clone, Copy, Debug, PartialEq, Eq, Structural)]
pub struct RelationAttribute {
    pub attnum: i16,
    pub atttypid: u32,
    pub attisdropped: bool,
}

/// Why a scan could not be planned or begun.
#[derive(Clone, Copy, Debug, PartialEq, Eq, Structural)]
pub enum ScanError {
    /// A clause or a target of the scan has no translation.
    UnsupportedExpression,
    /// A projected column is no column of the relation.
    ColumnNotFound(i16),
    /// The table refused the schema.
    Storage(StorageError),
}

/// The kind of an entry of the range table.
#[derive(Clone, Copy, Debug, PartialEq, Eq, Structural)]
pub enum RteKind {
    Relation,
    Other,
}

/// What the planner knows of the relation it asks paths for.
#[derive(Debug, PartialEq, Eq)]
pub struct RangeTblEntry {
    pub relid: u32,
    pub rtekind: RteKind,
    /// The entry stands for the relation and its children.
    pub inh: bool,
    pub tablesample: Option<Expr>,
}

/// The one access path of a relation of this store. It carries the sampling clause
/// of the scan as text.
#[derive(Debug, PartialEq, Eq)]
pub struct CustomPath {
    pub sample_clause: Option<String>,
}

/// The plan node made of the path: the projected columns, none for all of them,
/// with the filter and the sampling clause as text.
#[derive(Debug, PartialEq, Eq)]
pub struct CustomScan {
    pub scanrelid: u32,
    pub columns: Vec<i16>,
    pub where_clause: Option<String>,
    pub sample_clause: Option<String>,
}

/// Where a scan stands.
#[derive(Clone, Copy, Debug, PartialEq, Eq, Structural)]
pub enum ScanPhase {
    ScanBegun,
    ScanEnded,
}

/// The state of one scan under execution.
#[derive(Clone, Copy, Debug, PartialEq, Eq)]
pub struct PgElephantduckScanState {
    pub relid: u32,
    pub phase: ScanPhase,
}

/// The planner's entry asks for the paths of one plain relation.
pub open spec fn is_base_relation(rte: RangeTblEntry) -> bool {
    rte.relid != INVALID_OID && rte.rtekind == RteKind::Relation && !rte.inh
}

/// Decides the access path of a relation.
///
/// For anything but a plain relation of this store the paths stay as they are
/// (`None`). For such a relation every other path is to be discarded in favour of
/// the one returned, which carries the sampling clause of the scan, translated.
/// Fails where that clause has no translation.
pub fn pg_elephantduck_set_rel_pathlist(rte: &RangeTblEntry, elephantduck: bool) -> (r: Result<
    Option<CustomPath>,
    ScanError,
>)
    ensures
        match r {
            Ok(None) => !(is_base_relation(*rte) && elephantduck),
            Ok(Some(path)) => is_base_relation(*rte) && elephantduck && match rte.tablesample {
                Some(clause) => is_supported(clause) && text_of(path.sample_clause) == Some(
                    translation(clause),
                ),
                None => path.sample_clause is None,
            },
            Err(e) => is_base_relation(*rte) && elephantduck && e
                == ScanError::UnsupportedExpression && (rte.tablesample matches Some(clause)
                && !is_supported(clause)),
        },
{
    if rte.relid == INVALID_OID || !matches!(rte.rtekind, RteKind::Relation) || rte.inh {
        return Ok(None);
    }
    if !elephantduck {
        return Ok(None);
    }
    match &rte.tablesample {
        Some(clause) => match extract_clauses(clause) {
            Ok(text) => Ok(Some(CustomPath { sample_clause: Some(text) })),
            Err(_) => Err(ScanError::UnsupportedExpression),
        },
        None => Ok(Some(CustomPath { sample_clause: None })),
    }
}

/// The ordinals of the first `n` targets, where each of them is a column.
pub open spec fn target_columns(tlist: Seq<Expr>, n: nat) -> Option<Seq<i16>>
    decreases n,
{
    if n == 0 || n > tlist.len() {
        Some(Seq::empty())
    } else {
        match (target_columns(tlist, (n - 1) as nat), tlist[n - 1]) {
            (Some(columns), Expr::Var { varattnosyn }) => Some(columns.push(varattnosyn)),
            _ => None,
        }
    }
}

/// Turns the chosen path into a plan node.
///
/// The node carries the ordinals of the targets (none where there is no target
/// list), the filter translated (none where there are no clauses) and the sampling
/// text of the path. Fails where the filter has no translation or a target is no
/// column.
pub fn pg_elephantduck_plan_custom_path(
    scanrelid: u32,
    best_path: CustomPath,
    tlist: Option<&Vec<Expr>>,
    clauses: Option<&Expr>,
) -> (r: Result<CustomScan, ScanError>)
    ensures
        match r {
            Ok(plan) => {
                &&& plan.scanrelid == scanrelid
                &&& plan.sample_clause == best_path.sample_clause
                &&& match clauses {
                    Some(e) => is_supported(*e) && text_of(plan.where_clause) == Some(
                        translation(*e),
                    ),
                    None => plan.where_clause is None,
                }
                &&& match tlist {
                    Some(targets) => target_columns(targets@, targets@.len()) == Some(
                        plan.columns@,
                    ),
                    None => plan.columns@.len() == 0,
                }
            },
            Err(e) => e == ScanError::UnsupportedExpression && ((clauses matches Some(c)
                && !is_supported(*c)) || (tlist matches Some(targets) && target_columns(
                targets@,
                targets@.len(),
            ) is None)),
        },
{
    let where_clause = match clauses {
        Some(e) => match extract_clauses(e) {
            Ok(text) => Some(text),
            Err(_) => {
                return Err(ScanError::UnsupportedExpression);
            },
        },
        None => None,
    };
    let mut columns: Vec<i16> = Vec::new();
    match tlist {
        Some(targets) => {
            let mut i: usize = 0;
            while i < targets.len()
                invariant
                    i <= targets.len(),
                    tlist == Some(targets),
                    target_columns(targets@, i as nat) == Some(columns@),
                decreases targets.len() - i,
            {
                match &targets[i] {
                    Expr::Var { varattnosyn } => {
                        columns.push(*varattnosyn);
                    },
                    _ => {
                        proof {
                            assert(target_columns(targets@, (i + 1) as nat) is None);
                            lemma_no_target_columns(targets@, (i + 1) as nat, targets@.len());
                        }
                        return Err(ScanError::UnsupportedExpression);
                    },
                }
                i += 1;
            }
        },
        None => {},
    }
    Ok(
        CustomScan {
            scanrelid,
            columns,
            where_clause,
            sample_clause: best_path.sample_clause,
        },
    )
}

/// With a target among the first `k` that is no column, the first `n` have no
/// ordinals either.
proof fn lemma_no_target_columns(tlist: Seq<Expr>, k: nat, n: nat)
    requires
        k <= n <= tlist.len(),
        target_columns(tlist, k) is None,
    ensures
        target_columns(tlist, n) is None,
    decreases n,
{
    if k < n {
        lemma_no_target_columns(tlist, k, (n - 1) as nat);
    }
}

/// The position of the first of the first `n` attributes with the given ordinal.
pub open spec fn position_of(attrs: Seq<RelationAttribute>, column: i16, n: nat) -> Option<int>
    decreases n,
{
    if n == 0 || n > attrs.len() {
        None
    } else {
        match position_of(attrs, column, (n - 1) as nat) {
            Some(i) => Some(i),
            None => if attrs[n - 1].attnum == column {
                Some(n - 1)
            } else {
                None
            },
        }
    }
}

/// The attribute that a projected column stands for: the relation's first attribute
/// with that ordinal, or the row identity for its reserved ordinal.
pub open spec fn column_attribute(attrs: Seq<RelationAttribute>, column: i16) -> Result<
    Attribute,
    ScanError,
> {
    match position_of(attrs, column, attrs.len()) {
        Some(i) => Ok(Attribute { column_id: attrs[i].attnum, data_type: attrs[i].atttypid }),
        None => if column == SELF_ITEM_POINTER_ATTRIBUTE_NUMBER {
            Ok(Attribute { column_id: SELF_ITEM_POINTER_ATTRIBUTE_NUMBER, data_type: TIDOID })
        } else {
            Err(ScanError::ColumnNotFound(column))
        },
    }
}

/// The attributes of the first `n` projected columns, or the error of the first
/// column that the relation does not have.
pub open spec fn projected(attrs: Seq<RelationAttribute>, columns: Seq<i16>, n: nat) -> Result<
    Seq<Attribute>,
    ScanError,
>
    decreases n,
{
    if n == 0 || n > columns.len() {
        Ok(Seq::empty())
    } else {
        match projected(attrs, columns, (n - 1) as nat) {
            Err(e) => Err(e),
            Ok(fields) => match column_attribute(attrs, columns[n - 1]) {
                Ok(field) => Ok(fields.push(field)),
                Err(e) => Err(e),
            },
        }
    }
}

/// Every attribute of the relation, in the catalogue's order.
pub open spec fn all_attributes(attrs: Seq<RelationAttribute>) -> Seq<Attribute> {
    Seq::new(
        attrs.len(),
        |i: int| Attribute { column_id: attrs[i].attnum, data_type: attrs[i].atttypid },
    )
}

/// The columns of a scan: every attribute where nothing is projected, else the
/// attributes of the projected columns, in the order of the projection.
pub open spec fn scan_fields(attrs: Seq<RelationAttribute>, columns: Seq<i16>) -> Result<
    Seq<Attribute>,
    ScanError,
> {
    if columns.len() == 0 {
        Ok(all_attributes(attrs))
    } else {
        projected(attrs, columns, columns.len())
    }
}

/// Finds the first attribute with the given ordinal.
fn find_attribute(attrs: &Vec<RelationAttribute>, column: i16) -> (r: Option<usize>)
    ensures
        match r {
            Some(i) => position_of(attrs@, column, attrs@.len()) == Some(i as int) && i
                < attrs@.len(),
            None => position_of(attrs@, column, attrs@.len()) is None,
        },
{
    let mut i: usize = 0;
    while i < attrs.len()
        invariant
            i <= attrs.len(),
            position_of(attrs@, column, i as nat) is None,
        decreases attrs.len() - i,
    {
        if attrs[i].attnum == column {
            proof {
                lemma_position_stays(attrs@, column, (i + 1) as nat, attrs@.len());
            }
            return Some(i);
        }
        i += 1;
    }
    None
}

/// A position found among the first `k` attributes is the one found among more.
proof fn lemma_position_stays(attrs: Seq<RelationAttribute>, column: i16, k: nat, n: nat)
    requires
        k <= n <= attrs.len(),
        position_of(attrs, column, k) is Some,
    ensures
        position_of(attrs, column, n) == position_of(attrs, column, k),
    decreases n,
{
    if k < n {
        lemma_position_stays(attrs, column, k, (n - 1) as nat);
    }
}

/// Once a column is missing, a longer projection fails with the same error.
proof fn lemma_projection_fails(
    attrs: Seq<RelationAttribute>,
    columns: Seq<i16>,
    k: nat,
    n: nat,
)
    requires
        k <= n <= columns.len(),
        projected(attrs, columns, k) is Err,
    ensures
        projected(attrs, columns, n) == projected(attrs, columns, k),
    decreases n,
{
    if k < n {
        lemma_projection_fails(attrs, columns, k, (n - 1) as nat);
    }
}

/// Builds the schema of a scan from the relation's attributes, the projected
/// columns and the clauses.
pub fn get_schema_from_relation(
    attrs: &Vec<RelationAttribute>,
    columns: &Vec<i16>,
    where_clause: Option<String>,
    sample_clause: Option<String>,
) -> (r: Result<Schema, ScanError>)
    ensures
        match r {
            Ok(schema) => scan_fields(attrs@, columns@) == Ok::<Seq<Attribute>, ScanError>(
                schema.fields@,
            ) && schema.where_clause == where_clause && schema.sample_clause == sample_clause,
            Err(e) => scan_fields(attrs@, columns@) == Err::<Seq<Attribute>, ScanError>(e),
        },
{
    let mut fields: Vec<Attribute> = Vec::new();
    if columns.len() == 0 {
        let mut i: usize = 0;
        while i < attrs.len()
            invariant
                i <= attrs.len(),
                fields@.len() == i,
                forall|j: int| 0 <= j < i ==> #[trigger] fields@[j] == all_attributes(attrs@)[j],
            decreases attrs.len() - i,
        {
            fields.push(Attribute { column_id: attrs[i].attnum, data_type: attrs[i].atttypid });
            i += 1;
        }
        assert(fields@ =~= all_attributes(attrs@));
    } else {
        let mut i: usize = 0;
        while i < columns.len()
            invariant
                i <= columns.len(),
                columns@.len() > 0,
                projected(attrs@, columns@, i as nat) == Ok::<Seq<Attribute>, ScanError>(fields@),
            decreases columns.len() - i,
        {
            let column = columns[i];
            let field = match find_attribute(attrs, column) {
                Some(at) => Attribute {
                    column_id: attrs[at].attnum,
                    data_type: attrs[at].atttypid,
                },
                None => {
                    if column == SELF_ITEM_POINTER_ATTRIBUTE_NUMBER {
                        Attribute {
                            column_id: SELF_ITEM_POINTER_ATTRIBUTE_NUMBER,
                            data_type: TIDOID,
                        }
                    } else {
                        proof {
                            lemma_projection_fails(
                                attrs@,
                                columns@,
                                (i + 1) as nat,
                                columns@.len(),
                            );
                        }
                        return Err(ScanError::ColumnNotFound(column));
                    }
                },
            };
            fields.push(field);
            i += 1;
        }
    }
    Ok(Schema { fields, where_clause, sample_clause })
}

/// What beginning a scan does to the registry, and what it answers: the schema made
/// of the plan becomes the schema of the relation's table.
pub open spec fn scan_begun(
    tables: Map<u32, crate::storage::TableView>,
    relid: u32,
    attrs: Seq<RelationAttribute>,
    columns: Seq<i16>,
    where_clause: Option<Seq<char>>,
    sample_clause: Option<Seq<char>>,
) -> (Map<u32, crate::storage::TableView>, Result<bool, ScanError>) {
    match scan_fields(attrs, columns) {
        Err(e) => (tables, Err(e)),
        Ok(fields) => {
            let step = schema_set(tables, relid, SchemaView { fields, where_clause, sample_clause });
            match step.1 {
                Ok(release) => (step.0, Ok(release)),
                Err(e) => (tables, Err(ScanError::Storage(e))),
            }
        },
    }
}

/// Begins a scan of a relation with the given attributes under a plan.
///
/// On success the scan has begun, and the answer says whether a stream of an
/// earlier scan has to be released outside. On failure the registry is what it was.
pub fn pg_elephantduck_begin_custom_scan(
    storage: &mut VirtualStorage,
    relid: u32,
    attrs: &Vec<RelationAttribute>,
    plan: &CustomScan,
) -> (r: Result<(PgElephantduckScanState, bool), ScanError>)
    ensures
        tables_wf(final(storage)@),
        match r {
            Ok((state, release)) => state.relid == relid && state.phase == ScanPhase::ScanBegun
                && (final(storage)@, Ok::<bool, ScanError>(release)) == scan_begun(
                old(storage)@,
                relid,
                attrs@,
                plan.columns@,
                text_of(plan.where_clause),
                text_of(plan.sample_clause),
            ),
            Err(e) => (final(storage)@, Err::<bool, ScanError>(e)) == scan_begun(
                old(storage)@,
                relid,
                attrs@,
                plan.columns@,
                text_of(plan.where_clause),
                text_of(plan.sample_clause),
            ),
        },
{
    proof {
        use_type_invariant(&*storage);
    }
    let schema = match get_schema_from_relation(
        attrs,
        &plan.columns,
        plan.where_clause.clone(),
        plan.sample_clause.clone(),
    ) {
        Ok(schema) => schema,
        Err(e) => {
            return Err(e);
        },
    };
    match set_schema_for_read(storage, relid, schema) {
        Ok(release) => Ok((PgElephantduckScanState { relid, phase: ScanPhase::ScanBegun }, release)),
        Err(e) => Err(ScanError::Storage(e)),
    }
}

/// One execution step of a scan: a read of the relation's table, or the end for a
/// scan that has ended.
pub fn pg_elephantduck_exec_custom_scan(
    state: &PgElephantduckScanState,
    storage: &mut VirtualStorage,
    dir: &str,
    row: &mut TupleSlot,
) -> (r: Result<ReadStep, StorageError>)
    ensures
        tables_wf(final(storage)@),
        (final(storage)@, final(row)@, outcome_view(r)) == if state.phase == ScanPhase::ScanBegun {
            read_step(old(storage)@, dir@, state.relid, old(row)@)
        } else {
            (old(storage)@, old(row)@, Ok::<ReadStepView, StorageError>(ReadStepView::Exhausted))
        },
{
    proof {
        use_type_invariant(&*storage);
    }
    match state.phase {
        ScanPhase::ScanBegun => read(storage, dir, state.relid, row),
        ScanPhase::ScanEnded => Ok(ReadStep::Exhausted),
    }
}

/// Starts a scan over. The scan goes on where it stands: the columns and clauses of
/// a scan do not change while it runs.
pub fn pg_elephantduck_rescan_custom_scan(state: &mut PgElephantduckScanState)
    ensures
        *final(state) == *old(state),
{
}

/// Ends a scan. Nothing of it is kept: the next scan of the relation sets its own
/// schema.
pub fn pg_elephantduck_end_custom_scan(state: &mut PgElephantduckScanState)
    ensures
        final(state).relid == old(state).relid,
        final(state).phase == ScanPhase::ScanEnded,
{
    state.phase = ScanPhase::ScanEnded;
}

} // verus!
