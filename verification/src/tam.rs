//! What the table access method decides for itself: whether a relation is its
//! own, which columns a relation has for it, and which list of a drop statement
//! names the relation.

use crate::custom_scan::{RelationAttribute, INVALID_OID};
use crate::storage::{Attribute, Schema};
use vstd::prelude::*;

verus! {

/// Whether a relation is stored by this access method: it is a relation, and its
/// access method is ours.
pub fn is_elephantduck_table(relid: u32, access_method: Option<u64>, ours: u64) -> (r: bool)
    ensures
        r == (relid != INVALID_OID && access_method == Some(ours)),
{
    if relid == INVALID_OID {
        return false;
    }
    match access_method {
        Some(handler) => handler == ours,
        None => false,
    }
}

/// The column of an attribute.
pub open spec fn attribute_of(a: RelationAttribute) -> Attribute {
    Attribute { column_id: a.attnum, data_type: a.atttypid }
}

/// The columns of a relation: its attributes that were not dropped, in the
/// catalogue's order.
pub open spec fn live_attributes(attrs: Seq<RelationAttribute>) -> Seq<Attribute> {
    attrs.filter(|a: RelationAttribute| !a.attisdropped).map_values(
        |a: RelationAttribute| attribute_of(a),
    )
}

/// The schema under which rows of a relation are written, and under which a scan
/// without pushdown reads them: the columns that were not dropped, no filter and no
/// sampling.
pub fn get_schema_from_relation(attrs: &Vec<RelationAttribute>) -> (r: Schema)
    ensures
        r.fields@ == live_attributes(attrs@),
        r.where_clause is None,
        r.sample_clause is None,
{
    let mut fields: Vec<Attribute> = Vec::new();
    let mut i: usize = 0;
    proof {
        reveal(Seq::filter);
        assert(fields@ =~= live_attributes(attrs@.take(0)));
    }
    while i < attrs.len()
        invariant
            i <= attrs.len(),
            fields@ == live_attributes(attrs@.take(i as int)),
        decreases attrs.len() - i,
    {
        proof {
            reveal(Seq::filter);
            assert(attrs@.take(i + 1).drop_last() =~= attrs@.take(i as int));
            assert(attrs@.take(i + 1).last() == attrs@[i as int]);
        }
        if !attrs[i].attisdropped {
            fields.push(Attribute { column_id: attrs[i].attnum, data_type: attrs[i].atttypid });
        }
        i += 1;
        assert(fields@ =~= live_attributes(attrs@.take(i as int)));
    }
    assert(attrs@.take(attrs@.len() as int) =~= attrs@);
    Schema { fields, where_clause: None, sample_clause: None }
}

/// A node of the object list of a drop statement.
#[derive(Debug, PartialEq, Eq)]
pub enum NameNode {
    /// A part of a name.
    String(String),
    /// A list of nodes.
    List(Vec<NameNode>),
    /// A node of any other kind.
    Other,
}

/// The list of name parts that an object list leads to: the list itself where it
/// begins with a name part, the one that its first element leads to where that is a
/// list, none where the list is empty or begins with anything else.
pub open spec fn name_list(list: Seq<NameNode>) -> Option<Seq<NameNode>>
    decreases list,
{
    if list.len() == 0 {
        None
    } else {
        match list[0] {
            NameNode::String(_) => Some(list),
            NameNode::List(inner) => name_list(inner@),
            NameNode::Other => None,
        }
    }
}

/// Finds the list of name parts in the object list of a drop statement.
pub fn search_namelist(list: &Vec<NameNode>) -> (r: Option<&Vec<NameNode>>)
    ensures
        match r {
            Some(names) => name_list(list@) == Some(names@),
            None => name_list(list@) is None,
        },
    decreases list,
{
    if list.len() == 0 {
        return None;
    }
    match &list[0] {
        NameNode::String(_) => Some(list),
        NameNode::List(inner) => search_namelist(inner),
        NameNode::Other => None,
    }
}

} // verus!
