//! The fixed schema of the store and the script that sets it up.
//!
//! Every statement creates its table or index only where it is absent, and
//! the script wraps them all in one transaction, so running it again on a
//! populated database changes nothing and no partial schema is ever seen.
use vstd::prelude::*;

verus! {

/// Columns of the top-level sources; a name occurs at most once.
pub const ORIGINS_COLUMNS: &'static str = "    id INTEGER PRIMARY KEY AUTOINCREMENT,
    name TEXT NOT NULL UNIQUE,
    created_at TIMESTAMP NOT NULL DEFAULT CURRENT_TIMESTAMP,
    updated_at TIMESTAMP NOT NULL DEFAULT CURRENT_TIMESTAMP,
    clusters_id JSON NOT NULL DEFAULT '[]',
    UNIQUE(name)";

/// Columns of the groupings owned by one origin; a name may repeat under
/// different origins but not under the same one.
pub const CLUSTERS_COLUMNS: &'static str = "    id INTEGER PRIMARY KEY AUTOINCREMENT,
    name TEXT NOT NULL,
    origin_id INTEGER NOT NULL,
    created_at TIMESTAMP NOT NULL DEFAULT CURRENT_TIMESTAMP,
    updated_at TIMESTAMP NOT NULL DEFAULT CURRENT_TIMESTAMP,
    FOREIGN KEY(origin_id) REFERENCES origins(id),
    UNIQUE(name, origin_id)";

/// Columns of the content items owned by one cluster; a name occurs at most
/// once.
pub const WAVES_COLUMNS: &'static str = "    id INTEGER PRIMARY KEY AUTOINCREMENT,
    name TEXT NOT NULL UNIQUE,
    cluster_id INTEGER NOT NULL,
    created_at TIMESTAMP NOT NULL DEFAULT CURRENT_TIMESTAMP,
    updated_at TIMESTAMP NOT NULL DEFAULT CURRENT_TIMESTAMP,
    tags JSON NOT NULL DEFAULT '[]',
    preview TEXT NOT NULL DEFAULT '',
    content JSON NOT NULL DEFAULT '[]',
    FOREIGN KEY(cluster_id) REFERENCES clusters(id),
    UNIQUE(name, cluster_id)";

pub const CLUSTERS_ORIGIN_TARGET: &'static str = "clusters(origin_id)";

pub const WAVES_CLUSTER_TARGET: &'static str = "waves(cluster_id)";

/// Lets waves be looked up by the `text` field of their content without a
/// full scan.
pub const WAVES_TEXT_TARGET: &'static str = "waves((json_extract(content, '$.text')))";

/// The statement that creates table `name` with `columns`, where absent.
pub open spec fn table_ddl(name: Seq<char>, columns: Seq<char>) -> Seq<char> {
    "CREATE TABLE IF NOT EXISTS "@ + name + " (\n"@ + columns + "\n);"@
}

/// The statement that creates index `name` on `target`, where absent.
pub open spec fn index_ddl(name: Seq<char>, target: Seq<char>) -> Seq<char> {
    "CREATE INDEX IF NOT EXISTS "@ + name + " ON "@ + target + ";"@
}

/// The schema's statements, tables before the indexes over them.
pub open spec fn schema_statements() -> Seq<Seq<char>> {
    seq![
        table_ddl("origins"@, ORIGINS_COLUMNS@),
        table_ddl("clusters"@, CLUSTERS_COLUMNS@),
        table_ddl("waves"@, WAVES_COLUMNS@),
        index_ddl("idx_clusters_origin_id"@, CLUSTERS_ORIGIN_TARGET@),
        index_ddl("idx_waves_cluster_id"@, WAVES_CLUSTER_TARGET@),
        index_ddl("idx_waves_content"@, WAVES_TEXT_TARGET@),
    ]
}

/// The statements, each followed by a line break.
pub open spec fn lines(stmts: Seq<Seq<char>>) -> Seq<char>
    decreases stmts.len(),
{
    if stmts.len() == 0 {
        Seq::empty()
    } else {
        lines(stmts.drop_last()) + stmts.last() + "\n"@
    }
}

/// The statements run as one transaction: all of them take effect or none.
pub open spec fn transaction_text(stmts: Seq<Seq<char>>) -> Seq<char> {
    "BEGIN TRANSACTION;\n"@ + lines(stmts) + "COMMIT;\n"@
}

pub open spec fn texts(stmts: Seq<String>) -> Seq<Seq<char>> {
    stmts.map_values(|s: String| s@)
}

/// The statement that creates table `name` with `columns`, where absent.
pub fn create_table_statement(name: &str, columns: &str) -> (r: String)
    ensures
        r@ == table_ddl(name@, columns@),
{
    let mut r = String::from_str("CREATE TABLE IF NOT EXISTS ");
    r.append(name);
    r.append(" (\n");
    r.append(columns);
    r.append("\n);");
    r
}

/// The statement that creates index `name` on `target`, where absent.
pub fn create_index_statement(name: &str, target: &str) -> (r: String)
    ensures
        r@ == index_ddl(name@, target@),
{
    let mut r = String::from_str("CREATE INDEX IF NOT EXISTS ");
    r.append(name);
    r.append(" ON ");
    r.append(target);
    r.append(";");
    r
}

/// A script that runs `stmts`, in order, inside one transaction.
pub fn transaction_script(stmts: &Vec<String>) -> (r: String)
    ensures
        r@ == transaction_text(texts(stmts@)),
{
    let mut r = String::from_str("BEGIN TRANSACTION;\n");
    let ghost begin = r@;
    let mut i: usize = 0;
    while i < stmts.len()
        invariant
            i <= stmts@.len(),
            begin == "BEGIN TRANSACTION;\n"@,
            r@ == begin + lines(texts(stmts@.take(i as int))),
        decreases stmts@.len() - i,
    {
        r.append(stmts[i].as_str());
        r.append("\n");
        proof {
            let next = texts(stmts@.take(i + 1));
            assert(next.drop_last() =~= texts(stmts@.take(i as int)));
            assert(next.last() == stmts@[i as int]@);
            assert(begin + lines(next) =~= begin + lines(texts(stmts@.take(i as int)))
                + stmts@[i as int]@ + "\n"@);
        }
        i = i + 1;
    }
    assert(stmts@.take(stmts@.len() as int) =~= stmts@);
    r.append("COMMIT;\n");
    r
}

/// The script that creates every table and index of the store where absent,
/// as one transaction.
pub fn schema_script() -> (r: String)
    ensures
        r@ == transaction_text(schema_statements()),
{
    let stmts = vec![
        create_table_statement("origins", ORIGINS_COLUMNS),
        create_table_statement("clusters", CLUSTERS_COLUMNS),
        create_table_statement("waves", WAVES_COLUMNS),
        create_index_statement("idx_clusters_origin_id", CLUSTERS_ORIGIN_TARGET),
        create_index_statement("idx_waves_cluster_id", WAVES_CLUSTER_TARGET),
        create_index_statement("idx_waves_content", WAVES_TEXT_TARGET),
    ];
    assert(texts(stmts@) =~= schema_statements());
    transaction_script(&stmts)
}

/// Whether `stmt` creates the `kind` (`TABLE` or `INDEX`) called `name`, and
/// only where no such object exists yet.
pub open spec fn creates_if_absent(stmt: Seq<char>, kind: Seq<char>, name: Seq<char>) -> bool {
    let head = "CREATE "@ + kind + " IF NOT EXISTS "@ + name + " "@;
    stmt.len() >= head.len() && stmt.take(head.len() as int) == head
}

/// The schema creates exactly the tables `origins`, `clusters` and `waves`,
/// then the three indexes over them, each only where it is absent; so
/// running the schema script on a database that already has them changes
/// nothing.
pub proof fn lemma_schema_creates_if_absent()
    ensures
        schema_statements().len() == 6,
        creates_if_absent(schema_statements()[0], "TABLE"@, "origins"@),
        creates_if_absent(schema_statements()[1], "TABLE"@, "clusters"@),
        creates_if_absent(schema_statements()[2], "TABLE"@, "waves"@),
        creates_if_absent(schema_statements()[3], "INDEX"@, "idx_clusters_origin_id"@),
        creates_if_absent(schema_statements()[4], "INDEX"@, "idx_waves_cluster_id"@),
        creates_if_absent(schema_statements()[5], "INDEX"@, "idx_waves_content"@),
{
    reveal_strlit("CREATE ");
    reveal_strlit(" IF NOT EXISTS ");
    reveal_strlit("CREATE TABLE IF NOT EXISTS ");
    reveal_strlit("CREATE INDEX IF NOT EXISTS ");
    reveal_strlit("TABLE");
    reveal_strlit("INDEX");
    reveal_strlit(" ");
    reveal_strlit(" (\n");
    reveal_strlit(" ON ");
    assert forall|name: Seq<char>, columns: Seq<char>|
        creates_if_absent(#[trigger] table_ddl(name, columns), "TABLE"@, name) by {
        let head = "CREATE "@ + "TABLE"@ + " IF NOT EXISTS "@ + name + " "@;
        assert(table_ddl(name, columns).take(head.len() as int) =~= head);
    }
    assert forall|name: Seq<char>, target: Seq<char>|
        creates_if_absent(#[trigger] index_ddl(name, target), "INDEX"@, name) by {
        let head = "CREATE "@ + "INDEX"@ + " IF NOT EXISTS "@ + name + " "@;
        assert(index_ddl(name, target).take(head.len() as int) =~= head);
    }
}

} // verus!
