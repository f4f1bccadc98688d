use database_structure_sync_lib::db::introspect::{
    contains_text, group_foreign_key_rows, group_index_rows, group_unique_rows, mysql_column,
    mysql_primary_key, pg_column, pg_primary_key, starts_with_text, ForeignKeyRow, IndexRow,
    KeyColumnRow,
};

fn key_row(name: &str, column: &str) -> KeyColumnRow {
    KeyColumnRow { name: name.to_string(), column: column.to_string() }
}

#[test]
fn substring_and_prefix_checks() {
    assert!(contains_text("on update auto_increment", "auto_increment"));
    assert!(!contains_text("auto_incremen", "auto_increment"));
    assert!(contains_text("x", ""));
    assert!(starts_with_text("nextval('s')", "nextval("));
    assert!(!starts_with_text("next", "nextval("));
}

#[test]
fn mysql_column_row_is_read() {
    let c = mysql_column(
        "id".to_string(),
        "int(11)".to_string(),
        "NO",
        None,
        "auto_increment",
        Some(String::new()),
        1,
    );
    assert!(!c.nullable);
    assert!(c.auto_increment);
    assert_eq!(c.comment, None);
    let c = mysql_column(
        "note".to_string(),
        "text".to_string(),
        "YES",
        Some("'n/a'".to_string()),
        "",
        Some("free text".to_string()),
        2,
    );
    assert!(c.nullable);
    assert!(!c.auto_increment);
    assert_eq!(c.comment, Some("free text".to_string()));
    assert_eq!(c.default_value, Some("'n/a'".to_string()));
}

#[test]
fn postgres_sequence_default_marks_auto_increment() {
    let c = pg_column(
        "id".to_string(),
        "integer".to_string(),
        "NO",
        Some("nextval('t_id_seq'::regclass)".to_string()),
        1,
    );
    assert!(c.auto_increment);
    assert_eq!(c.default_value, None);
    let c = pg_column("n".to_string(), "integer".to_string(), "YES", Some("0".to_string()), 2);
    assert!(!c.auto_increment);
    assert_eq!(c.default_value, Some("0".to_string()));
    assert_eq!(c.ordinal_position, 2);
}

#[test]
fn unique_rows_group_in_first_seen_order() {
    let rows = vec![key_row("uq_b", "x"), key_row("uq_a", "y"), key_row("uq_b", "z")];
    let ucs = group_unique_rows(&rows);
    assert_eq!(ucs.len(), 2);
    assert_eq!(ucs[0].name, "uq_b");
    assert_eq!(ucs[0].columns, vec!["x".to_string(), "z".to_string()]);
    assert_eq!(ucs[1].name, "uq_a");
    assert_eq!(ucs[1].columns, vec!["y".to_string()]);
    assert!(group_unique_rows(&vec![]).is_empty());
}

#[test]
fn index_rows_take_attributes_from_first_row() {
    let row = |name: &str, unique: bool, column: &str| IndexRow {
        name: name.to_string(),
        unique,
        column: column.to_string(),
        index_type: "BTREE".to_string(),
    };
    let idx = group_index_rows(&vec![row("i1", true, "a"), row("i1", false, "b"), row("i2", false, "c")]);
    assert_eq!(idx.len(), 2);
    assert!(idx[0].unique);
    assert_eq!(idx[0].columns, vec!["a".to_string(), "b".to_string()]);
    assert_eq!(idx[1].name, "i2");
}

#[test]
fn foreign_key_rows_pair_columns() {
    let row = |col: &str, ref_col: &str| ForeignKeyRow {
        name: "fk".to_string(),
        column: col.to_string(),
        ref_table: "parent".to_string(),
        ref_column: ref_col.to_string(),
        on_delete: "CASCADE".to_string(),
        on_update: "RESTRICT".to_string(),
    };
    let fks = group_foreign_key_rows(&vec![row("a", "pa"), row("b", "pb")]);
    assert_eq!(fks.len(), 1);
    assert_eq!(fks[0].columns, vec!["a".to_string(), "b".to_string()]);
    assert_eq!(fks[0].ref_columns, vec!["pa".to_string(), "pb".to_string()]);
    assert_eq!(fks[0].ref_table, "parent");
    assert_eq!(fks[0].on_update, "RESTRICT");
}

#[test]
fn primary_keys_from_rows() {
    assert!(mysql_primary_key(&vec![]).is_none());
    let rows = vec![key_row("users_pkey", "id"), key_row("users_pkey", "tenant")];
    let pk = mysql_primary_key(&rows).unwrap();
    assert_eq!(pk.name, Some("PRIMARY".to_string()));
    assert_eq!(pk.columns, vec!["id".to_string(), "tenant".to_string()]);
    let pk = pg_primary_key(&rows).unwrap();
    assert_eq!(pk.name, Some("users_pkey".to_string()));
    assert!(pg_primary_key(&vec![]).is_none());
}
