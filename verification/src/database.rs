//! Database introspection models, the connect-planning decisions, and the
//! registry of pooled connections. The SQL drivers themselves are external
//! collaborators: the library decides which driver, database and schema a
//! request selects, and tracks which connection identifiers are live.

use vstd::prelude::*;
use crate::errors::OpsError;
use crate::seqs::keys_unique;
use crate::text::str_eq;

verus! {

/// Supported database engines.
#[derive(Clone, Copy, Debug, PartialEq, Eq, Structural)]
pub enum DatabaseType {
    MySQL,
    PostgreSQL,
    SQLite,
}

/// Connect request from the caller.
#[derive(Debug)]
pub struct DatabaseConnectRequest {
    pub connection_id: String,
    pub db_type: DatabaseType,
    pub host: String,
    pub port: u16,
    pub username: String,
    pub password: Option<String>,
    pub database: Option<String>,
}

/// Caller-visible information about one live connection.
#[derive(Debug)]
pub struct DatabaseConnectionInfo {
    pub connection_id: String,
    pub db_type: DatabaseType,
    pub host: String,
    pub port: u16,
    pub database: Option<String>,
    pub connected_at: String,
}

/// SQL execution request from the caller.
#[derive(Debug)]
pub struct SqlExecuteRequest {
    pub connection_id: String,
    pub sql: String,
    pub database: Option<String>,
}

/// Column of a query result.
#[derive(Debug)]
pub struct QueryColumn {
    pub name: String,
    pub column_type: String,
    pub nullable: bool,
}

/// A database with its tables.
#[derive(Debug)]
pub struct DatabaseInfo {
    pub name: String,
    pub tables: Vec<TableInfo>,
}

/// One table or view of a database.
#[derive(Debug)]
pub struct TableInfo {
    pub name: String,
    pub table_type: String,
    pub row_count: Option<i64>,
}

/// One column of a table.
#[derive(Debug)]
pub struct ColumnDetail {
    pub name: String,
    pub column_type: String,
    pub nullable: bool,
    pub key: Option<String>,
    pub default_value: Option<String>,
    pub extra: Option<String>,
    pub comment: Option<String>,
}

/// Columns and indexes of a table.
#[derive(Debug)]
pub struct TableStructure {
    pub database: String,
    pub table_name: String,
    pub columns: Vec<ColumnDetail>,
    pub indexes: Vec<IndexInfo>,
}

/// One index of a table with the columns it spans.
#[derive(Debug)]
pub struct IndexInfo {
    pub name: String,
    pub columns: Vec<String>,
    pub unique: bool,
    pub index_type: String,
}

/// One view of a database.
#[derive(Debug)]
pub struct ViewInfo {
    pub name: String,
    pub definer: Option<String>,
    pub security_type: Option<String>,
}

/// One function or procedure of a database.
#[derive(Debug)]
pub struct RoutineInfo {
    pub name: String,
    pub routine_type: String,
    pub definer: Option<String>,
    pub created: Option<String>,
}

/// Counts of a database's objects.
#[derive(Debug)]
pub struct DatabaseObjectsCount {
    pub tables: usize,
    pub views: usize,
    pub functions: usize,
    pub procedures: usize,
}

/// One foreign key of a table.
#[derive(Debug)]
pub struct ForeignKeyInfo {
    pub name: String,
    pub column: String,
    pub ref_table: String,
    pub ref_column: String,
    pub on_delete: String,
    pub on_update: String,
}

/// One check constraint of a table.
#[derive(Debug)]
pub struct CheckConstraintInfo {
    pub name: String,
    pub expression: String,
}

/// One trigger of a table.
#[derive(Debug)]
pub struct TriggerInfo {
    pub name: String,
    pub event: String,
    pub timing: String,
    pub statement: String,
    pub created: Option<String>,
}

/// Storage options of a table.
#[derive(Debug)]
pub struct TableOptions {
    pub engine: String,
    pub charset: String,
    pub collation: String,
    pub comment: String,
    pub auto_increment: Option<i64>,
    pub row_format: Option<String>,
}

/// Full structure of a table with every detail.
#[derive(Debug)]
pub struct TableStructureExt {
    pub database: String,
    pub table_name: String,
    pub columns: Vec<ColumnDetail>,
    pub indexes: Vec<IndexInfo>,
    pub foreign_keys: Vec<ForeignKeyInfo>,
    pub check_constraints: Vec<CheckConstraintInfo>,
    pub triggers: Vec<TriggerInfo>,
    pub options: TableOptions,
}

/// Whether the index table holds an index with this name.
pub open spec fn has_index_name(s: Seq<IndexInfo>, name: Seq<char>) -> bool {
    exists|i: int| 0 <= i < s.len() && s[i].name@ == name
}

/// Position of the index with this name.
pub open spec fn index_pos(s: Seq<IndexInfo>, name: Seq<char>) -> int {
    choose|i: int| 0 <= i < s.len() && s[i].name@ == name
}

/// Group one index row into the table of indexes: a row for a known index
/// name appends its column to that index, and a row for a new name appends
/// a fresh single-column index. Index names stay unique and the first-seen
/// order of indexes is kept.
pub fn build_index_map(
    index_name: String,
    column_name: String,
    is_unique: bool,
    index_type: String,
    indexes: &mut Vec<IndexInfo>,
)
    requires
        keys_unique(old(indexes)@, |x: IndexInfo| x.name@),
    ensures
        keys_unique(final(indexes)@, |x: IndexInfo| x.name@),
        !has_index_name(old(indexes)@, index_name@) ==> {
            &&& final(indexes)@.len() == old(indexes)@.len() + 1
            &&& final(indexes)@ == old(indexes)@.push(final(indexes)@.last())
            &&& final(indexes)@.last().name == index_name
            &&& final(indexes)@.last().columns@ == seq![column_name]
            &&& final(indexes)@.last().unique == is_unique
            &&& final(indexes)@.last().index_type == index_type
        },
        has_index_name(old(indexes)@, index_name@) ==> {
            let i = index_pos(old(indexes)@, index_name@);
            &&& final(indexes)@.len() == old(indexes)@.len()
            &&& forall|j: int|
                0 <= j < old(indexes)@.len() && j != i ==> final(indexes)@[j] == old(indexes)@[j]
            &&& final(indexes)@[i].name == old(indexes)@[i].name
            &&& final(indexes)@[i].columns@ == old(indexes)@[i].columns@.push(column_name)
            &&& final(indexes)@[i].unique == old(indexes)@[i].unique
            &&& final(indexes)@[i].index_type == old(indexes)@[i].index_type
        },
{
    let mut i: usize = 0;
    while i < indexes.len()
        invariant
            i <= indexes@.len(),
            indexes@ == old(indexes)@,
            keys_unique(indexes@, |x: IndexInfo| x.name@),
            forall|j: int| 0 <= j < i ==> indexes@[j].name@ != index_name@,
        decreases indexes@.len() - i,
    {
        if str_eq(indexes[i].name.as_str(), index_name.as_str()) {
            proof {
                let s = indexes@;
                assert forall|k: int|
                    0 <= k < s.len() && s[k].name@ == index_name@ implies k == i as int by {}
            }
            let mut e = indexes.remove(i);
            e.columns.push(column_name);
            indexes.insert(i, e);
            proof {
                assert(final(indexes)@ =~= old(indexes)@.update(
                    i as int,
                    final(indexes)@[i as int],
                ));
            }
            return ;
        }
        i = i + 1;
    }
    let entry = IndexInfo { name: index_name, columns: vec![column_name], unique: is_unique, index_type };
    indexes.push(entry);
    proof {
        let s = indexes@;
        assert(s =~= old(indexes)@.push(s.last()));
        assert(s.last().columns@ =~= seq![column_name]);
    }
}

/// Assemble the detail record of one column from its raw parts.
pub fn build_column_detail(
    name: String,
    column_type: String,
    nullable: bool,
    key: Option<String>,
    default_value: Option<String>,
    extra: Option<String>,
    comment: Option<String>,
) -> (r: ColumnDetail)
    ensures
        r.name == name,
        r.column_type == column_type,
        r.nullable == nullable,
        r.key == key,
        r.default_value == default_value,
        r.extra == extra,
        r.comment == comment,
{
    ColumnDetail { name, column_type, nullable, key, default_value, extra, comment }
}

/// The driver selection of a connect request: which database name the pool
/// opens and which schema later introspection uses.
#[derive(Debug)]
pub struct DbConnectPlan {
    /// Database the pool connects to: the requested one, or the engine's
    /// administrative default.
    pub database: String,
    /// Schema for introspection; only meaningful on engines that have one.
    pub schema: Option<String>,
}

/// Decide how a connect request maps to a driver connection: a missing
/// database name falls back to the engine's administrative database, and
/// the schema defaults to `public` exactly on the engine that has schemas.
/// The unsupported engine is rejected.
pub fn plan_db_connect(request: &DatabaseConnectRequest) -> (r: Result<DbConnectPlan, OpsError>)
    ensures
        request.db_type == DatabaseType::MySQL ==> (r matches Ok(p) && p.schema is None && p.database@
            == (match request.database {
            Some(d) => d@,
            None => "mysql"@,
        })),
        request.db_type == DatabaseType::PostgreSQL ==> (r matches Ok(p) && (p.schema matches Some(
            s,
        ) && s@ == "public"@) && p.database@ == (match request.database {
            Some(d) => d@,
            None => "postgres"@,
        })),
        request.db_type == DatabaseType::SQLite ==> (r matches Err(e) && e matches
            OpsError::InvalidInput(m) && m@ == "SQLite is not supported yet"@),
{
    match request.db_type {
        DatabaseType::MySQL => {
            let database = match &request.database {
                Some(d) => d.clone(),
                None => String::from_str("mysql"),
            };
            Ok(DbConnectPlan { database, schema: None })
        },
        DatabaseType::PostgreSQL => {
            let database = match &request.database {
                Some(d) => d.clone(),
                None => String::from_str("postgres"),
            };
            Ok(DbConnectPlan { database, schema: Some(String::from_str("public")) })
        },
        DatabaseType::SQLite => Err(
            OpsError::InvalidInput(String::from_str("SQLite is not supported yet")),
        ),
    }
}

/// The state kept for one live database connection.
#[derive(Debug)]
pub struct DbSessionRecord {
    pub connection_id: String,
    pub db_type: DatabaseType,
    pub host: String,
    pub port: u16,
    pub database: Option<String>,
    pub schema: Option<String>,
    pub connected_at: String,
}

/// Whether the table holds a connection with this identifier.
pub open spec fn has_db_id(s: Seq<DbSessionRecord>, id: Seq<char>) -> bool {
    exists|i: int| 0 <= i < s.len() && s[i].connection_id@ == id
}

/// Index of the connection with this identifier.
pub open spec fn db_index(s: Seq<DbSessionRecord>, id: Seq<char>) -> int {
    choose|i: int| 0 <= i < s.len() && s[i].connection_id@ == id
}

/// Registry of live database connections, keyed by connection identifier.
pub struct DbRegistry {
    sessions: Vec<DbSessionRecord>,
}

impl DbRegistry {
    /// The connection table, in insertion order.
    pub closed spec fn sessions_seq(self) -> Seq<DbSessionRecord> {
        self.sessions@
    }

    /// Each identifier keys at most one connection.
    pub open spec fn wf(self) -> bool {
        keys_unique(self.sessions_seq(), |r: DbSessionRecord| r.connection_id@)
    }

    /// An empty registry.
    pub fn new() -> (r: DbRegistry)
        ensures
            r.wf(),
            r.sessions_seq() == Seq::<DbSessionRecord>::empty(),
    {
        let r = DbRegistry { sessions: Vec::new() };
        proof {
            assert(r.sessions_seq() =~= Seq::<DbSessionRecord>::empty());
        }
        r
    }

    fn find_index(&self, id: &str) -> (r: Option<usize>)
        ensures
            match r {
                Some(i) => i < self.sessions_seq().len()
                    && self.sessions_seq()[i as int].connection_id@ == id@,
                None => !has_db_id(self.sessions_seq(), id@),
            },
    {
        let mut i: usize = 0;
        while i < self.sessions.len()
            invariant
                i <= self.sessions_seq().len(),
                forall|j: int| 0 <= j < i ==> self.sessions_seq()[j].connection_id@ != id@,
            decreases self.sessions_seq().len() - i,
        {
            if str_eq(self.sessions[i].connection_id.as_str(), id) {
                return Some(i);
            }
            i = i + 1;
        }
        None
    }

    /// Store a connection record, replacing any record under the same
    /// identifier.
    pub fn insert_connection(&mut self, record: DbSessionRecord)
        requires
            old(self).wf(),
        ensures
            final(self).wf(),
            has_db_id(final(self).sessions_seq(), record.connection_id@),
            !has_db_id(old(self).sessions_seq(), record.connection_id@)
                ==> final(self).sessions_seq() == old(self).sessions_seq().push(record),
            forall|j: int|
                0 <= j < old(self).sessions_seq().len()
                    && old(self).sessions_seq()[j].connection_id@ != record.connection_id@
                    ==> final(self).sessions_seq()[j] == old(self).sessions_seq()[j],
    {
        let ghost id = record.connection_id@;
        match self.find_index(record.connection_id.as_str()) {
            Some(i) => {
                self.sessions[i] = record;
                proof {
                    let s = self.sessions_seq();
                    assert forall|k: int|
                        0 <= k < s.len() && s[k].connection_id@ == id implies k == i as int by {}
                }
            },
            None => {
                self.sessions.push(record);
                proof {
                    let s = self.sessions_seq();
                    assert(s[s.len() - 1].connection_id@ == id);
                    assert forall|k: int|
                        0 <= k < s.len() && s[k].connection_id@ == id implies k == s.len() - 1 by {}
                }
            },
        }
    }

    /// Remove a connection so its pool can be closed. Unlike an SSH
    /// disconnect, removing an unknown database connection is an error the
    /// caller sees.
    pub fn remove_connection(&mut self, connection_id: &str) -> (r: Result<(), OpsError>)
        requires
            old(self).wf(),
        ensures
            final(self).wf(),
            !has_db_id(final(self).sessions_seq(), connection_id@),
            r is Ok <==> has_db_id(old(self).sessions_seq(), connection_id@),
            r is Ok ==> final(self).sessions_seq() == old(self).sessions_seq().remove(
                db_index(old(self).sessions_seq(), connection_id@),
            ),
            r matches Err(e) ==> final(self).sessions_seq() == old(self).sessions_seq() && (
            e matches OpsError::NotFound(m) && m@ == "Connection not found"@),
    {
        match self.find_index(connection_id) {
            Some(i) => {
                proof {
                    let s = self.sessions_seq();
                    assert forall|k: int|
                        0 <= k < s.len() && s[k].connection_id@ == connection_id@ implies k
                        == i as int by {}
                }
                self.sessions.remove(i);
                proof {
                    let s = self.sessions_seq();
                    let o = old(self).sessions_seq();
                    assert forall|k: int|
                        0 <= k < s.len() implies s[k].connection_id@ != connection_id@ by {
                        if k < i as int {
                            assert(s[k] == o[k]);
                        } else {
                            assert(s[k] == o[k + 1]);
                        }
                    }
                }
                Ok(())
            },
            None => Err(OpsError::NotFound(String::from_str("Connection not found"))),
        }
    }

    /// Whether a connection with this identifier is live.
    pub fn is_connected(&self, connection_id: &str) -> (r: bool)
        ensures
            r == has_db_id(self.sessions_seq(), connection_id@),
    {
        match self.find_index(connection_id) {
            Some(_) => true,
            None => false,
        }
    }
}

/// Relies on `chrono::Utc::now` and `to_rfc3339`: the current wall-clock
/// time rendered for display. The clock is an outside source, so nothing is
/// promised of the value.
#[verifier::external_body]
pub fn now_rfc3339() -> String {
    chrono::Utc::now().to_rfc3339()
}

} // verus!
