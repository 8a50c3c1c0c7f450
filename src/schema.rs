//! Schema configuration trees and the filter policy that turns a discovered
//! tree into the tree submitted back to the platform.
use vstd::prelude::*;

verus! {

/// A column as discovery reports it.
pub struct ColumnConfigResponse {
    pub name_in_destination: String,
    pub enabled: bool,
    pub hashed: bool,
    pub is_primary_key: Option<bool>,
}

/// A table as discovery reports it; `columns` maps column names to columns.
pub struct TableConfigResponse {
    pub name_in_destination: String,
    pub enabled: bool,
    pub columns: Vec<(String, ColumnConfigResponse)>,
    pub supports_columns_config: Option<bool>,
}

/// A schema as discovery reports it; `tables` maps table names to tables.
pub struct SchemaConfigResponse {
    pub name_in_destination: String,
    pub enabled: bool,
    pub tables: Vec<(String, TableConfigResponse)>,
}

/// The discovered configuration tree; `schemas` maps schema names to schemas.
pub struct StandardConfigResponse {
    pub schemas: Vec<(String, SchemaConfigResponse)>,
    pub enable_new_by_default: Option<bool>,
}

/// The mutable settings of one column in an update request.
#[derive(Clone, Copy, PartialEq, Eq, Structural, Debug)]
pub struct UpdateConnectorColumn {
    pub enabled: bool,
    pub hashed: Option<bool>,
    pub is_primary_key: Option<bool>,
}

/// A table in an update request.
pub struct UpdateConnectorTable {
    pub enabled: bool,
    pub columns: Vec<(String, UpdateConnectorColumn)>,
}

/// A schema in an update request.
pub struct UpdateConnectorSchema {
    pub enabled: bool,
    pub tables: Vec<(String, UpdateConnectorTable)>,
}

/// A column excluded from replication, by schema, table and column name.
pub struct ColumnRef {
    pub schema: String,
    pub table: String,
    pub column: String,
}

/// Model of an update table: its flag and its named columns, in order.
pub struct TableUpdate {
    pub enabled: bool,
    pub columns: Seq<(Seq<char>, UpdateConnectorColumn)>,
}

/// Model of an update schema: its flag and its named tables, in order.
pub struct SchemaUpdate {
    pub enabled: bool,
    pub tables: Seq<(Seq<char>, TableUpdate)>,
}

pub open spec fn columns_view(v: Seq<(String, UpdateConnectorColumn)>) -> Seq<
    (Seq<char>, UpdateConnectorColumn),
> {
    Seq::new(v.len(), |k: int| (v[k].0@, v[k].1))
}

impl View for UpdateConnectorTable {
    type V = TableUpdate;

    open spec fn view(&self) -> TableUpdate {
        TableUpdate { enabled: self.enabled, columns: columns_view(self.columns@) }
    }
}

pub open spec fn tables_view(v: Seq<(String, UpdateConnectorTable)>) -> Seq<(Seq<char>, TableUpdate)> {
    Seq::new(v.len(), |k: int| (v[k].0@, v[k].1@))
}

impl View for UpdateConnectorSchema {
    type V = SchemaUpdate;

    open spec fn view(&self) -> SchemaUpdate {
        SchemaUpdate { enabled: self.enabled, tables: tables_view(self.tables@) }
    }
}

pub open spec fn schemas_view(v: Seq<(String, UpdateConnectorSchema)>) -> Seq<
    (Seq<char>, SchemaUpdate),
> {
    Seq::new(v.len(), |k: int| (v[k].0@, v[k].1@))
}

impl View for ColumnRef {
    type V = (Seq<char>, Seq<char>, Seq<char>);

    open spec fn view(&self) -> (Seq<char>, Seq<char>, Seq<char>) {
        (self.schema@, self.table@, self.column@)
    }
}

pub open spec fn refs_view(v: Seq<ColumnRef>) -> Seq<(Seq<char>, Seq<char>, Seq<char>)> {
    Seq::new(v.len(), |k: int| v[k]@)
}

/// Whether the column `c` of table `t` in schema `s` is on the exclusion list.
pub open spec fn is_excluded(
    ex: Seq<(Seq<char>, Seq<char>, Seq<char>)>,
    s: Seq<char>,
    t: Seq<char>,
    c: Seq<char>,
) -> bool {
    ex.contains((s, t, c))
}

/// The update settings of one discovered column: enabled only where discovery
/// enabled it and it is not excluded, never hashed, primary-key marker kept.
pub open spec fn column_policy(col: ColumnConfigResponse, excluded: bool) -> UpdateConnectorColumn {
    UpdateConnectorColumn {
        enabled: col.enabled && !excluded,
        hashed: Some(false),
        is_primary_key: col.is_primary_key,
    }
}

pub open spec fn table_policy(
    s: Seq<char>,
    t: Seq<char>,
    tbl: TableConfigResponse,
    ex: Seq<(Seq<char>, Seq<char>, Seq<char>)>,
) -> TableUpdate {
    TableUpdate {
        enabled: true,
        columns: Seq::new(
            tbl.columns@.len(),
            |k: int|
                (
                    tbl.columns@[k].0@,
                    column_policy(tbl.columns@[k].1, is_excluded(ex, s, t, tbl.columns@[k].0@)),
                ),
        ),
    }
}

pub open spec fn schema_policy(
    s: Seq<char>,
    sc: SchemaConfigResponse,
    ex: Seq<(Seq<char>, Seq<char>, Seq<char>)>,
) -> SchemaUpdate {
    SchemaUpdate {
        enabled: true,
        tables: Seq::new(
            sc.tables@.len(),
            |j: int| (sc.tables@[j].0@, table_policy(s, sc.tables@[j].0@, sc.tables@[j].1, ex)),
        ),
    }
}

/// The update tree for a discovered tree and an exclusion list: every schema,
/// table and column of the discovered tree, once each and in the same order.
pub open spec fn policy(
    tree: StandardConfigResponse,
    ex: Seq<(Seq<char>, Seq<char>, Seq<char>)>,
) -> Seq<(Seq<char>, SchemaUpdate)> {
    Seq::new(
        tree.schemas@.len(),
        |i: int| (tree.schemas@[i].0@, schema_policy(tree.schemas@[i].0@, tree.schemas@[i].1, ex)),
    )
}

/// The columns that are never replicated.
pub open spec fn skipped_columns() -> Seq<(Seq<char>, Seq<char>, Seq<char>)> {
    seq![("public"@, "Person"@, "username"@)]
}

/// Builds the exclusion list whose model is `skipped_columns()`.
pub fn default_exclusions() -> (r: Vec<ColumnRef>)
    ensures
        refs_view(r@) == skipped_columns(),
{
    // `username` is computed from a global, which the bulk copy path does not
    // support yet.
    let username = ColumnRef {
        schema: String::from_str("public"),
        table: String::from_str("Person"),
        column: String::from_str("username"),
    };
    let r = vec![username];
    assert(refs_view(r@) =~= skipped_columns());
    r
}

/// Whether `(s, t, c)` is on the exclusion list `ex`.
pub fn excluded(ex: &Vec<ColumnRef>, s: &String, t: &String, c: &String) -> (r: bool)
    ensures
        r == is_excluded(refs_view(ex@), s@, t@, c@),
{
    let mut i: usize = 0;
    while i < ex.len()
        invariant
            i <= ex@.len(),
            forall|j: int| 0 <= j < i ==> refs_view(ex@)[j] != (s@, t@, c@),
        decreases ex@.len() - i,
    {
        let e = &ex[i];
        if e.schema == *s && e.table == *t && e.column == *c {
            assert(refs_view(ex@)[i as int] == (s@, t@, c@));
            return true;
        }
        i += 1;
    }
    proof {
        if refs_view(ex@).contains((s@, t@, c@)) {
            let j = choose|j: int| 0 <= j < refs_view(ex@).len() && refs_view(ex@)[j] == (s@, t@, c@);
            assert(refs_view(ex@)[j] != (s@, t@, c@));
        }
    }
    false
}

/// The update columns of one discovered table.
pub fn pick_columns(
    s: &String,
    t: &String,
    tbl: &TableConfigResponse,
    ex: &Vec<ColumnRef>,
) -> (r: Vec<(String, UpdateConnectorColumn)>)
    ensures
        columns_view(r@) == table_policy(s@, t@, *tbl, refs_view(ex@)).columns,
{
    let mut out: Vec<(String, UpdateConnectorColumn)> = Vec::new();
    let mut k: usize = 0;
    while k < tbl.columns.len()
        invariant
            k <= tbl.columns@.len(),
            out@.len() == k,
            forall|m: int|
                0 <= m < k ==> (#[trigger] out@[m]).0@ == tbl.columns@[m].0@ && out@[m].1
                    == column_policy(
                    tbl.columns@[m].1,
                    is_excluded(refs_view(ex@), s@, t@, tbl.columns@[m].0@),
                ),
        decreases tbl.columns@.len() - k,
    {
        let (c_name, c) = &tbl.columns[k];
        let skip = excluded(ex, s, t, c_name);
        let col = UpdateConnectorColumn {
            enabled: c.enabled && !skip,
            hashed: Some(false),
            is_primary_key: c.is_primary_key,
        };
        out.push((c_name.clone(), col));
        k += 1;
    }
    assert(columns_view(out@) =~= table_policy(s@, t@, *tbl, refs_view(ex@)).columns);
    out
}

/// The update tables of one discovered schema.
pub fn pick_tables(
    s: &String,
    sc: &SchemaConfigResponse,
    ex: &Vec<ColumnRef>,
) -> (r: Vec<(String, UpdateConnectorTable)>)
    ensures
        tables_view(r@) == schema_policy(s@, *sc, refs_view(ex@)).tables,
{
    let mut out: Vec<(String, UpdateConnectorTable)> = Vec::new();
    let mut j: usize = 0;
    while j < sc.tables.len()
        invariant
            j <= sc.tables@.len(),
            out@.len() == j,
            forall|m: int|
                0 <= m < j ==> (#[trigger] out@[m]).0@ == sc.tables@[m].0@ && out@[m].1@
                    == table_policy(s@, sc.tables@[m].0@, sc.tables@[m].1, refs_view(ex@)),
        decreases sc.tables@.len() - j,
    {
        let (t_name, t) = &sc.tables[j];
        let columns = pick_columns(s, t_name, t, ex);
        out.push((t_name.clone(), UpdateConnectorTable { enabled: true, columns }));
        j += 1;
    }
    assert(tables_view(out@) =~= schema_policy(s@, *sc, refs_view(ex@)).tables);
    out
}

/// Applies the filter policy with the exclusion list `ex` to a discovered
/// tree. The input is left as it is; the result is a fresh tree.
pub fn apply_policy(
    tree: &StandardConfigResponse,
    ex: &Vec<ColumnRef>,
) -> (r: Vec<(String, UpdateConnectorSchema)>)
    ensures
        schemas_view(r@) == policy(*tree, refs_view(ex@)),
{
    let mut out: Vec<(String, UpdateConnectorSchema)> = Vec::new();
    let mut i: usize = 0;
    while i < tree.schemas.len()
        invariant
            i <= tree.schemas@.len(),
            out@.len() == i,
            forall|m: int|
                0 <= m < i ==> (#[trigger] out@[m]).0@ == tree.schemas@[m].0@ && out@[m].1@
                    == schema_policy(tree.schemas@[m].0@, tree.schemas@[m].1, refs_view(ex@)),
        decreases tree.schemas@.len() - i,
    {
        let (s_name, sc) = &tree.schemas[i];
        let tables = pick_tables(s_name, sc, ex);
        out.push((s_name.clone(), UpdateConnectorSchema { enabled: true, tables }));
        i += 1;
    }
    assert(schemas_view(out@) =~= policy(*tree, refs_view(ex@)));
    out
}

/// Picks the schema objects to replicate: everything discovered, minus the
/// columns of `skipped_columns()`.
pub fn pick_schema(schema: StandardConfigResponse) -> (r: Vec<(String, UpdateConnectorSchema)>)
    ensures
        schemas_view(r@) == policy(schema, skipped_columns()),
{
    let ex = default_exclusions();
    apply_policy(&schema, &ex)
}

/// Whether objects that appear in the source after setup are replicated.
#[derive(Clone, Copy, PartialEq, Eq, Structural, Debug)]
pub enum SchemaChangeHandling {
    /// New schemas, tables and columns are included.
    AllowAll,
    /// New schemas and tables are excluded; new columns are included.
    AllowColumns,
    /// New schemas, tables and columns are excluded.
    BlockAll,
}

/// The body that submits a schema tree.
pub struct UpdateConnectorSchemaRequest {
    pub schema_change_handling: SchemaChangeHandling,
    pub schemas: Vec<(String, UpdateConnectorSchema)>,
}

/// The (empty) body that asks for a schema rediscovery.
pub struct ReloadStandardConfigRequest {}

/// The update submitted after discovery: the filtered tree, with objects
/// that appear later left out.
pub fn schema_update_request(schema: StandardConfigResponse) -> (r: UpdateConnectorSchemaRequest)
    ensures
        r.schema_change_handling == SchemaChangeHandling::BlockAll,
        schemas_view(r.schemas@) == policy(schema, skipped_columns()),
{
    UpdateConnectorSchemaRequest {
        schema_change_handling: SchemaChangeHandling::BlockAll,
        schemas: pick_schema(schema),
    }
}

/// The schema names of a discovered tree.
pub open spec fn schema_keys(tree: StandardConfigResponse) -> Set<Seq<char>> {
    Set::new(|s: Seq<char>| exists|i: int| 0 <= i < tree.schemas@.len() && tree.schemas@[i].0@ == s)
}

/// The (schema, table) name pairs of a discovered tree.
pub open spec fn table_keys(tree: StandardConfigResponse) -> Set<(Seq<char>, Seq<char>)> {
    Set::new(
        |p: (Seq<char>, Seq<char>)|
            exists|i: int, j: int|
                0 <= i < tree.schemas@.len() && 0 <= j < tree.schemas@[i].1.tables@.len()
                    && tree.schemas@[i].0@ == p.0 && tree.schemas@[i].1.tables@[j].0@ == p.1,
    )
}

/// The (schema, table, column) name triples of a discovered tree.
pub open spec fn column_keys(tree: StandardConfigResponse) -> Set<(Seq<char>, Seq<char>, Seq<char>)> {
    Set::new(
        |p: (Seq<char>, Seq<char>, Seq<char>)|
            exists|i: int, j: int, k: int|
                0 <= i < tree.schemas@.len() && 0 <= j < tree.schemas@[i].1.tables@.len() && 0 <= k
                    < tree.schemas@[i].1.tables@[j].1.columns@.len() && tree.schemas@[i].0@ == p.0
                    && tree.schemas@[i].1.tables@[j].0@ == p.1
                    && tree.schemas@[i].1.tables@[j].1.columns@[k].0@ == p.2,
    )
}

/// The schema names of an update tree.
pub open spec fn update_schema_keys(w: Seq<(Seq<char>, SchemaUpdate)>) -> Set<Seq<char>> {
    Set::new(|s: Seq<char>| exists|i: int| 0 <= i < w.len() && w[i].0 == s)
}

/// The (schema, table) name pairs of an update tree.
pub open spec fn update_table_keys(w: Seq<(Seq<char>, SchemaUpdate)>) -> Set<(Seq<char>, Seq<char>)> {
    Set::new(
        |p: (Seq<char>, Seq<char>)|
            exists|i: int, j: int|
                0 <= i < w.len() && 0 <= j < w[i].1.tables.len() && w[i].0 == p.0
                    && w[i].1.tables[j].0 == p.1,
    )
}

/// The (schema, table, column) name triples of an update tree.
pub open spec fn update_column_keys(w: Seq<(Seq<char>, SchemaUpdate)>) -> Set<
    (Seq<char>, Seq<char>, Seq<char>),
> {
    Set::new(
        |p: (Seq<char>, Seq<char>, Seq<char>)|
            exists|i: int, j: int, k: int|
                0 <= i < w.len() && 0 <= j < w[i].1.tables.len() && 0 <= k
                    < w[i].1.tables[j].1.columns.len() && w[i].0 == p.0 && w[i].1.tables[j].0
                    == p.1 && w[i].1.tables[j].1.columns[k].0 == p.2,
    )
}

/// The policy keeps the key set of the discovered tree: every schema, table
/// and column of the input is in the output, and the output has no other.
pub proof fn lemma_policy_keeps_keys(
    tree: StandardConfigResponse,
    ex: Seq<(Seq<char>, Seq<char>, Seq<char>)>,
)
    ensures
        update_schema_keys(policy(tree, ex)) == schema_keys(tree),
        update_table_keys(policy(tree, ex)) == table_keys(tree),
        update_column_keys(policy(tree, ex)) == column_keys(tree),
{
    let w = policy(tree, ex);
    let sch = tree.schemas@;
    assert forall|s: Seq<char>| #[trigger]
        update_schema_keys(w).contains(s) == schema_keys(tree).contains(s) by {
        if schema_keys(tree).contains(s) {
            let i = choose|i: int| 0 <= i < sch.len() && sch[i].0@ == s;
            assert(w[i].0 == s);
        }
    }
    assert forall|p: (Seq<char>, Seq<char>)| #[trigger]
        update_table_keys(w).contains(p) == table_keys(tree).contains(p) by {
        if table_keys(tree).contains(p) {
            let (i, j) = choose|i: int, j: int|
                0 <= i < sch.len() && 0 <= j < sch[i].1.tables@.len() && sch[i].0@ == p.0
                    && sch[i].1.tables@[j].0@ == p.1;
            assert(w[i].1.tables[j].0 == p.1);
        }
        if update_table_keys(w).contains(p) {
            let (i, j) = choose|i: int, j: int|
                0 <= i < w.len() && 0 <= j < w[i].1.tables.len() && w[i].0 == p.0
                    && w[i].1.tables[j].0 == p.1;
            assert(sch[i].1.tables@[j].0@ == p.1);
        }
    }
    assert forall|p: (Seq<char>, Seq<char>, Seq<char>)| #[trigger]
        update_column_keys(w).contains(p) == column_keys(tree).contains(p) by {
        if column_keys(tree).contains(p) {
            let (i, j, k) = choose|i: int, j: int, k: int|
                0 <= i < sch.len() && 0 <= j < sch[i].1.tables@.len() && 0 <= k
                    < sch[i].1.tables@[j].1.columns@.len() && sch[i].0@ == p.0
                    && sch[i].1.tables@[j].0@ == p.1 && sch[i].1.tables@[j].1.columns@[k].0@
                    == p.2;
            assert(w[i].1.tables[j].1.columns[k].0 == p.2);
        }
        if update_column_keys(w).contains(p) {
            let (i, j, k) = choose|i: int, j: int, k: int|
                0 <= i < w.len() && 0 <= j < w[i].1.tables.len() && 0 <= k
                    < w[i].1.tables[j].1.columns.len() && w[i].0 == p.0 && w[i].1.tables[j].0
                    == p.1 && w[i].1.tables[j].1.columns[k].0 == p.2;
            assert(sch[i].1.tables@[j].1.columns@[k].0@ == p.2);
        }
    }
    assert(update_schema_keys(w) =~= schema_keys(tree));
    assert(update_table_keys(w) =~= table_keys(tree));
    assert(update_column_keys(w) =~= column_keys(tree));
}

/// No two entries share a name.
pub open spec fn names_unique<T>(v: Seq<(String, T)>) -> bool {
    forall|i: int, j: int|
        #![trigger v[i], v[j]]
        0 <= i < v.len() && 0 <= j < v.len() && i != j ==> v[i].0@ != v[j].0@
}

/// No two entries of a model share a name.
pub open spec fn model_names_unique<T>(v: Seq<(Seq<char>, T)>) -> bool {
    forall|i: int, j: int|
        #![trigger v[i], v[j]]
        0 <= i < v.len() && 0 <= j < v.len() && i != j ==> v[i].0 != v[j].0
}

/// A discovered tree is a mapping at each level: schema names are unique,
/// table names are unique within a schema, and column names within a table.
pub open spec fn tree_wf(tree: StandardConfigResponse) -> bool {
    &&& names_unique(tree.schemas@)
    &&& forall|i: int|
        0 <= i < tree.schemas@.len() ==> names_unique(#[trigger] tree.schemas@[i].1.tables@)
    &&& forall|i: int, j: int|
        0 <= i < tree.schemas@.len() && 0 <= j < tree.schemas@[i].1.tables@.len()
            ==> names_unique(#[trigger] tree.schemas@[i].1.tables@[j].1.columns@)
}

/// An update tree is a mapping at each level.
pub open spec fn update_wf(w: Seq<(Seq<char>, SchemaUpdate)>) -> bool {
    &&& model_names_unique(w)
    &&& forall|i: int| 0 <= i < w.len() ==> model_names_unique(#[trigger] w[i].1.tables)
    &&& forall|i: int, j: int|
        0 <= i < w.len() && 0 <= j < w[i].1.tables.len() ==> model_names_unique(
            #[trigger] w[i].1.tables[j].1.columns,
        )
}

/// The policy maps a well-formed discovered tree to a well-formed update
/// tree: each name still appears once at its level.
pub proof fn lemma_policy_keeps_unique_names(
    tree: StandardConfigResponse,
    ex: Seq<(Seq<char>, Seq<char>, Seq<char>)>,
)
    requires
        tree_wf(tree),
    ensures
        update_wf(policy(tree, ex)),
{
    let w = policy(tree, ex);
    let sch = tree.schemas@;
    assert forall|i: int, j: int|
        #![trigger w[i], w[j]]
        0 <= i < w.len() && 0 <= j < w.len() && i != j implies w[i].0 != w[j].0 by {
        assert(sch[i].0@ != sch[j].0@);
    }
    assert forall|i: int| 0 <= i < w.len() implies model_names_unique(#[trigger] w[i].1.tables) by {
        let t = w[i].1.tables;
        let st = sch[i].1.tables@;
        assert(names_unique(st));
        assert forall|j: int, k: int|
            #![trigger t[j], t[k]]
            0 <= j < t.len() && 0 <= k < t.len() && j != k implies t[j].0 != t[k].0 by {
            assert(st[j].0@ != st[k].0@);
        }
    }
    assert forall|i: int, j: int|
        0 <= i < w.len() && 0 <= j < w[i].1.tables.len() implies model_names_unique(
        #[trigger] w[i].1.tables[j].1.columns,
    ) by {
        let c = w[i].1.tables[j].1.columns;
        let sc = sch[i].1.tables@[j].1.columns@;
        assert(names_unique(sc));
        assert forall|k: int, m: int|
            #![trigger c[k], c[m]]
            0 <= k < c.len() && 0 <= m < c.len() && k != m implies c[k].0 != c[m].0 by {
            assert(sc[k].0@ != sc[m].0@);
        }
    }
}

/// What the policy does to one column: it keeps its place and name, is
/// disabled if it is excluded, keeps its discovered flag otherwise, and is
/// never hashed. Its schema and table are enabled.
pub proof fn lemma_policy_column(
    tree: StandardConfigResponse,
    ex: Seq<(Seq<char>, Seq<char>, Seq<char>)>,
    i: int,
    j: int,
    k: int,
)
    requires
        0 <= i < tree.schemas@.len(),
        0 <= j < tree.schemas@[i].1.tables@.len(),
        0 <= k < tree.schemas@[i].1.tables@[j].1.columns@.len(),
    ensures
        ({
            let s = tree.schemas@[i].0@;
            let t = tree.schemas@[i].1.tables@[j].0@;
            let (c, col) = tree.schemas@[i].1.tables@[j].1.columns@[k];
            let out_schema = policy(tree, ex)[i].1;
            let out_table = out_schema.tables[j].1;
            let out = out_table.columns[k];
            &&& out_schema.enabled && out_table.enabled
            &&& out.0 == c@
            &&& is_excluded(ex, s, t, c@) ==> !out.1.enabled
            &&& !is_excluded(ex, s, t, c@) ==> out.1.enabled == col.enabled
            &&& out.1.hashed == Some(false)
            &&& out.1.is_primary_key == col.is_primary_key
        }),
{
}

/// The policy is a function of its inputs: two results computed from the same
/// tree and exclusion list are the same tree.
pub proof fn lemma_policy_deterministic(
    tree: StandardConfigResponse,
    ex: Seq<(Seq<char>, Seq<char>, Seq<char>)>,
    a: Seq<(String, UpdateConnectorSchema)>,
    b: Seq<(String, UpdateConnectorSchema)>,
)
    requires
        schemas_view(a) == policy(tree, ex),
        schemas_view(b) == policy(tree, ex),
    ensures
        schemas_view(a) == schemas_view(b),
        a.len() == b.len(),
        forall|i: int| 0 <= i < a.len() ==> (#[trigger] a[i]).0@ == b[i].0@ && a[i].1@ == b[i].1@,
{
    assert(a.len() == schemas_view(a).len() && b.len() == schemas_view(b).len());
    assert forall|i: int| 0 <= i < a.len() implies (#[trigger] a[i]).0@ == b[i].0@ && a[i].1@
        == b[i].1@ by {
        assert(schemas_view(a)[i] == schemas_view(b)[i]);
    }
}

} // verus!
