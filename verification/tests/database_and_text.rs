//! Database planning and registry tests, plus the text and transport
//! helpers the command boundary uses.

use ops_console::database::{
    build_column_detail, build_index_map, plan_db_connect, DatabaseConnectRequest, DatabaseType,
    DbRegistry, DbSessionRecord, IndexInfo,
};
use ops_console::errors::OpsError;
use ops_console::text::{str_eq, str_lex_le, u64_to_string};
use ops_console::transport::{decode_transport, encode_transport};

fn db_request(db_type: DatabaseType, database: Option<&str>) -> DatabaseConnectRequest {
    DatabaseConnectRequest {
        connection_id: String::from("db-1"),
        db_type,
        host: String::from("127.0.0.1"),
        port: 5432,
        username: String::from("admin"),
        password: Some(String::from("pw")),
        database: database.map(String::from),
    }
}

#[test]
fn connect_plans_per_engine() {
    let p = plan_db_connect(&db_request(DatabaseType::MySQL, None)).unwrap();
    assert_eq!(p.database, "mysql");
    assert!(p.schema.is_none());

    let p = plan_db_connect(&db_request(DatabaseType::MySQL, Some("shop"))).unwrap();
    assert_eq!(p.database, "shop");

    let p = plan_db_connect(&db_request(DatabaseType::PostgreSQL, None)).unwrap();
    assert_eq!(p.database, "postgres");
    assert_eq!(p.schema.as_deref(), Some("public"));

    let err = plan_db_connect(&db_request(DatabaseType::SQLite, None)).unwrap_err();
    assert_eq!(err.message(), "SQLite is not supported yet");
}

#[test]
fn db_registry_lifecycle() {
    let mut reg = DbRegistry::new();
    assert!(!reg.is_connected("db-1"));

    reg.insert_connection(DbSessionRecord {
        connection_id: String::from("db-1"),
        db_type: DatabaseType::PostgreSQL,
        host: String::from("127.0.0.1"),
        port: 5432,
        database: Some(String::from("shop")),
        schema: Some(String::from("public")),
        connected_at: String::from("2024-01-01T00:00:00Z"),
    });
    assert!(reg.is_connected("db-1"));

    assert!(reg.remove_connection("db-1").is_ok());
    assert!(!reg.is_connected("db-1"));

    // Removing an unknown database connection is an error the caller sees.
    let err = reg.remove_connection("db-1").unwrap_err();
    assert!(matches!(&err, OpsError::NotFound(_)));
    assert_eq!(err.message(), "Connection not found");
}

#[test]
fn index_rows_group_by_name() {
    let mut indexes: Vec<IndexInfo> = Vec::new();
    build_index_map(
        String::from("PRIMARY"),
        String::from("id"),
        true,
        String::from("BTREE"),
        &mut indexes,
    );
    build_index_map(
        String::from("idx_name"),
        String::from("last"),
        false,
        String::from("BTREE"),
        &mut indexes,
    );
    build_index_map(
        String::from("idx_name"),
        String::from("first"),
        false,
        String::from("BTREE"),
        &mut indexes,
    );

    assert_eq!(indexes.len(), 2);
    assert_eq!(indexes[0].name, "PRIMARY");
    assert_eq!(indexes[0].columns, vec!["id"]);
    assert!(indexes[0].unique);
    assert_eq!(indexes[1].name, "idx_name");
    assert_eq!(indexes[1].columns, vec!["last", "first"]);
    assert!(!indexes[1].unique);
}

#[test]
fn column_detail_fields() {
    let c = build_column_detail(
        String::from("id"),
        String::from("bigint"),
        false,
        Some(String::from("PRI")),
        None,
        Some(String::from("auto_increment")),
        None,
    );
    assert_eq!(c.name, "id");
    assert_eq!(c.column_type, "bigint");
    assert!(!c.nullable);
    assert_eq!(c.key.as_deref(), Some("PRI"));
    assert!(c.default_value.is_none());
    assert_eq!(c.extra.as_deref(), Some("auto_increment"));
}

#[test]
fn decimal_rendering() {
    assert_eq!(u64_to_string(0), "0");
    assert_eq!(u64_to_string(7), "7");
    assert_eq!(u64_to_string(65536), "65536");
    assert_eq!(u64_to_string(18446744073709551615), "18446744073709551615");
}

#[test]
fn string_comparisons() {
    assert!(str_eq("abc", "abc"));
    assert!(!str_eq("abc", "abd"));
    assert!(!str_eq("abc", "ab"));
    assert!(str_lex_le("alpha", "beta"));
    assert!(str_lex_le("alpha", "alpha"));
    assert!(!str_lex_le("beta", "alpha"));
    assert!(str_lex_le("ab", "abc"));
}

#[test]
fn transport_encoding_round_trip() {
    let data: Vec<u8> = vec![0, 1, 2, 254, 255, 104, 105];
    let text = encode_transport(&data);
    // Standard padded base64 of the bytes, not the bytes themselves.
    assert_eq!(text, "AAEC/v9oaQ==");
    let back = decode_transport(&text).unwrap();
    assert_eq!(back, data);

    assert_eq!(encode_transport(&Vec::new()), "");

    let err = decode_transport("@@@").unwrap_err();
    assert!(matches!(err, OpsError::InvalidInput(_)));
}
