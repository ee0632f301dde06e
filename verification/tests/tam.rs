use pg_elephantduck::conversion::{INT4OID, TEXTOID};
use pg_elephantduck::custom_scan::RelationAttribute;
use pg_elephantduck::storage::{Attribute, Schema};
use pg_elephantduck::tam::{
    get_schema_from_relation, is_elephantduck_table, search_namelist, NameNode,
};

fn name(s: &str) -> NameNode {
    NameNode::String(s.to_string())
}

#[test]
fn a_relation_is_ours_by_its_access_method() {
    assert!(is_elephantduck_table(16384, Some(0xdead), 0xdead));
    assert!(!is_elephantduck_table(16384, Some(0xbeef), 0xdead));
    assert!(!is_elephantduck_table(16384, None, 0xdead));
    assert!(!is_elephantduck_table(0, Some(0xdead), 0xdead));
}

#[test]
fn dropped_attributes_are_no_columns() {
    let attrs = vec![
        RelationAttribute { attnum: 1, atttypid: INT4OID, attisdropped: false },
        RelationAttribute { attnum: 2, atttypid: 0, attisdropped: true },
        RelationAttribute { attnum: 3, atttypid: TEXTOID, attisdropped: false },
        RelationAttribute { attnum: 4, atttypid: INT4OID, attisdropped: true },
    ];
    assert_eq!(
        get_schema_from_relation(&attrs),
        Schema {
            fields: vec![
                Attribute { column_id: 1, data_type: INT4OID },
                Attribute { column_id: 3, data_type: TEXTOID },
            ],
            where_clause: None,
            sample_clause: None,
        }
    );
    assert_eq!(
        get_schema_from_relation(&vec![]),
        Schema { fields: vec![], where_clause: None, sample_clause: None }
    );
}

#[test]
fn the_name_list_is_found_through_nested_lists() {
    let flat = vec![name("public"), name("test")];
    assert_eq!(search_namelist(&flat), Some(&flat));
    let nested = vec![NameNode::List(vec![NameNode::List(vec![name("test")])]), NameNode::Other];
    assert_eq!(search_namelist(&nested), Some(&vec![name("test")]));
    // only the first element of a list is followed
    let second = vec![NameNode::List(vec![]), NameNode::List(vec![name("test")])];
    assert_eq!(search_namelist(&second), None);
}

#[test]
fn a_list_that_leads_to_no_name_has_no_name_list() {
    assert_eq!(search_namelist(&vec![]), None);
    assert_eq!(search_namelist(&vec![NameNode::Other, name("test")]), None);
    assert_eq!(search_namelist(&vec![NameNode::List(vec![NameNode::Other])]), None);
}
