use gel_fivetran::schema::{
    apply_policy, default_exclusions, excluded, pick_schema, schema_update_request,
    ColumnConfigResponse, ColumnRef, SchemaChangeHandling, SchemaConfigResponse,
    StandardConfigResponse, TableConfigResponse, UpdateConnectorColumn, UpdateConnectorSchema,
};

fn column(enabled: bool, hashed: bool, pk: Option<bool>) -> ColumnConfigResponse {
    ColumnConfigResponse {
        name_in_destination: "x".to_string(),
        enabled,
        hashed,
        is_primary_key: pk,
    }
}

fn table(columns: Vec<(&str, ColumnConfigResponse)>) -> TableConfigResponse {
    TableConfigResponse {
        name_in_destination: "t".to_string(),
        enabled: false,
        columns: columns.into_iter().map(|(n, c)| (n.to_string(), c)).collect(),
        supports_columns_config: Some(true),
    }
}

fn sample_tree() -> StandardConfigResponse {
    let person = table(vec![
        ("id", column(true, false, Some(true))),
        ("username", column(true, true, None)),
        ("first_name", column(false, true, Some(false))),
    ]);
    let movie = table(vec![("title", column(true, false, None))]);
    let public = SchemaConfigResponse {
        name_in_destination: "gel_public".to_string(),
        enabled: false,
        tables: vec![("Person".to_string(), person), ("Movie".to_string(), movie)],
    };
    let nested = SchemaConfigResponse {
        name_in_destination: "gel_nested".to_string(),
        enabled: true,
        tables: vec![(
            "Person".to_string(),
            table(vec![("username", column(true, false, None))]),
        )],
    };
    StandardConfigResponse {
        schemas: vec![("public".to_string(), public), ("nested".to_string(), nested)],
        enable_new_by_default: Some(false),
    }
}

fn find<'a, T>(v: &'a [(String, T)], name: &str) -> &'a T {
    &v.iter().find(|(n, _)| n == name).unwrap().1
}

fn col(out: &[(String, UpdateConnectorSchema)], s: &str, t: &str, c: &str) -> UpdateConnectorColumn {
    *find(&find(find(out, s).tables.as_slice(), t).columns, c)
}

fn keys_in(tree: &StandardConfigResponse) -> Vec<(String, String, String)> {
    let mut keys = Vec::new();
    for (s, sc) in &tree.schemas {
        for (t, tc) in &sc.tables {
            for (c, _) in &tc.columns {
                keys.push((s.clone(), t.clone(), c.clone()));
            }
        }
    }
    keys.sort();
    keys
}

fn keys_out(out: &[(String, UpdateConnectorSchema)]) -> Vec<(String, String, String)> {
    let mut keys = Vec::new();
    for (s, sc) in out {
        for (t, tc) in &sc.tables {
            for (c, _) in &tc.columns {
                keys.push((s.clone(), t.clone(), c.clone()));
            }
        }
    }
    keys.sort();
    keys
}

#[test]
fn policy_keeps_every_key_once() {
    let tree = sample_tree();
    let out = pick_schema(sample_tree());
    assert_eq!(keys_in(&tree), keys_out(&out));
    assert_eq!(out.len(), 2);
    assert_eq!(find(&out, "public").tables.len(), 2);
    assert!(out.iter().all(|(_, s)| s.enabled && s.tables.iter().all(|(_, t)| t.enabled)));
}

#[test]
fn excluded_column_is_disabled() {
    let out = pick_schema(sample_tree());
    let c = col(&out, "public", "Person", "username");
    assert!(!c.enabled);
    assert_eq!(c.hashed, Some(false));
}

#[test]
fn other_columns_keep_their_flag_and_are_not_hashed() {
    let out = pick_schema(sample_tree());
    assert_eq!(
        col(&out, "public", "Person", "id"),
        UpdateConnectorColumn { enabled: true, hashed: Some(false), is_primary_key: Some(true) }
    );
    assert_eq!(
        col(&out, "public", "Person", "first_name"),
        UpdateConnectorColumn { enabled: false, hashed: Some(false), is_primary_key: Some(false) }
    );
    // Same column name under another schema is not on the list.
    assert!(col(&out, "nested", "Person", "username").enabled);
    assert!(col(&out, "public", "Movie", "title").enabled);
}

#[test]
fn policy_gives_the_same_tree_twice() {
    let tree = sample_tree();
    let ex = default_exclusions();
    let a = apply_policy(&tree, &ex);
    let b = apply_policy(&tree, &ex);
    assert_eq!(keys_out(&a), keys_out(&b));
    for (s, t, c) in keys_out(&a) {
        assert_eq!(col(&a, &s, &t, &c), col(&b, &s, &t, &c));
    }
    // The input is left untouched.
    assert!(tree.schemas[0].1.tables[0].1.columns[1].1.enabled);
    assert!(tree.schemas[0].1.tables[0].1.columns[1].1.hashed);
}

#[test]
fn custom_exclusions_and_empty_tree() {
    let tree = sample_tree();
    let ex = vec![ColumnRef {
        schema: "public".to_string(),
        table: "Movie".to_string(),
        column: "title".to_string(),
    }];
    let out = apply_policy(&tree, &ex);
    assert!(!col(&out, "public", "Movie", "title").enabled);
    assert!(col(&out, "public", "Person", "username").enabled);
    let empty = StandardConfigResponse { schemas: vec![], enable_new_by_default: None };
    assert!(apply_policy(&empty, &ex).is_empty());
    assert!(apply_policy(&tree, &vec![]).len() == 2);
}

#[test]
fn exclusion_lookup() {
    let ex = default_exclusions();
    let s = |x: &str| x.to_string();
    assert!(excluded(&ex, &s("public"), &s("Person"), &s("username")));
    assert!(!excluded(&ex, &s("public"), &s("person"), &s("username")));
    assert!(!excluded(&ex, &s("public"), &s("Person"), &s("id")));
    assert!(!excluded(&vec![], &s("public"), &s("Person"), &s("username")));
}

#[test]
fn update_request_blocks_new_objects() {
    let r = schema_update_request(sample_tree());
    assert_eq!(r.schema_change_handling, SchemaChangeHandling::BlockAll);
    assert!(!col(&r.schemas, "public", "Person", "username").enabled);
}

#[test]
fn output_names_stay_unique() {
    let out = pick_schema(sample_tree());
    let mut names: Vec<&String> = out.iter().map(|(n, _)| n).collect();
    names.sort();
    names.dedup();
    assert_eq!(names.len(), out.len());
    for (_, s) in &out {
        let mut t: Vec<&String> = s.tables.iter().map(|(n, _)| n).collect();
        t.sort();
        t.dedup();
        assert_eq!(t.len(), s.tables.len());
        for (_, tb) in &s.tables {
            let mut c: Vec<&String> = tb.columns.iter().map(|(n, _)| n).collect();
            c.sort();
            c.dedup();
            assert_eq!(c.len(), tb.columns.len());
        }
    }
}
