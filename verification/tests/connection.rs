//! Scenario tests for the connection facade: establishing a session,
//! executing queries against scripted server replies, and the statement
//! cache discipline.

use pg_core::connection::{PgConnection, Query};
use pg_core::error::{ConnectionError, DatabaseErrorKind, Error};
use pg_core::raw::{PgTransactionStatus, ReplyOutcome, ServerReply};

const INT4: u32 = 23;
const VARCHAR: u32 = 1043;
const INT4_ARRAY: u32 = 1007;

fn ok_command(rows_affected: usize) -> ServerReply {
    ServerReply {
        outcome: ReplyOutcome::Command { rows_affected },
        status_after: PgTransactionStatus::Idle,
    }
}

fn one_cell_row(column_type: u32, cell: &[u8]) -> ServerReply {
    ServerReply {
        outcome: ReplyOutcome::Rows {
            column_types: vec![column_type],
            rows: vec![vec![Some(cell.to_vec())]],
        },
        status_after: PgTransactionStatus::Idle,
    }
}

fn failure(kind: DatabaseErrorKind, message: &str, position: Option<u64>) -> ServerReply {
    ServerReply {
        outcome: ReplyOutcome::Failure {
            kind,
            message: message.to_string(),
            statement_position: position,
        },
        status_after: PgTransactionStatus::Idle,
    }
}

/// The replies a clean establish consumes: the connection attempt and the
/// four round trips of the two session-setup statements.
fn bootstrap() -> Vec<ServerReply> {
    vec![ok_command(0); 5]
}

fn connection_with(extra: Vec<ServerReply>) -> PgConnection {
    let mut transcript = bootstrap();
    transcript.extend(extra);
    PgConnection::establish("postgres://localhost/test", transcript).unwrap()
}

fn query(sql: &str, bind_types: Vec<u32>, binds: Vec<Option<Vec<u8>>>, cacheable: bool) -> Query {
    Query {
        sql: sql.to_string(),
        bind_types,
        binds,
        cacheable,
    }
}

/// Loads the query and decodes the single cell of the single row as text.
fn get_result_text(conn: &mut PgConnection, q: &Query) -> Result<String, Error> {
    let mut cursor = conn.load(q)?;
    let row = cursor.next().expect("one row expected");
    let cell = row.get(0).expect("one column expected");
    Ok(String::from_utf8(cell.clone().expect("non-null cell expected")).expect("utf8"))
}

fn get_result_i32(conn: &mut PgConnection, q: &Query) -> Result<i32, Error> {
    get_result_text(conn, q).map(|s| s.parse().expect("integer text"))
}

fn get_result_bool(conn: &mut PgConnection, q: &Query) -> Result<bool, Error> {
    get_result_text(conn, q).map(|s| s == "t")
}

#[test]
fn malformed_sql_query() {
    let mut connection = connection_with(vec![failure(
        DatabaseErrorKind::Unknown,
        "column \"not_existent\" does not exist",
        Some(26),
    )]);
    let source = query("SELECT not_existent FROM also_not_there;", vec![], vec![], false);
    let result = connection.execute_returning_count(&source);

    if let Err(err) = result {
        if let Error::DatabaseError(_, string) = err {
            assert_eq!(Some(26), string.statement_position());
        } else {
            unreachable!();
        }
    } else {
        unreachable!();
    }
}

#[test]
fn prepared_statements_are_cached() {
    let mut connection = connection_with(vec![
        ok_command(0),
        one_cell_row(INT4, b"1"),
        one_cell_row(INT4, b"1"),
    ]);

    let source = query("SELECT $1", vec![INT4], vec![Some(b"1".to_vec())], true);

    assert_eq!(Ok(1), get_result_i32(&mut connection, &source));
    assert_eq!(Ok(1), get_result_i32(&mut connection, &source));
    assert_eq!(1, connection.statement_cache.len());
}

#[test]
fn queries_with_identical_sql_but_different_types_are_cached_separately() {
    let mut connection = connection_with(vec![
        ok_command(0),
        one_cell_row(INT4, b"1"),
        ok_command(0),
        one_cell_row(VARCHAR, b"hi"),
    ]);

    let source = query("SELECT $1", vec![INT4], vec![Some(b"1".to_vec())], true);
    let source2 = query("SELECT $1", vec![VARCHAR], vec![Some(b"hi".to_vec())], true);

    assert_eq!(Ok(1), get_result_i32(&mut connection, &source));
    assert_eq!(Ok("hi".to_string()), get_result_text(&mut connection, &source2));
    assert_eq!(2, connection.statement_cache.len());
}

#[test]
fn queries_with_identical_types_and_sql_but_different_bind_types_are_cached_separately() {
    let mut connection = connection_with(vec![
        ok_command(0),
        one_cell_row(INT4, b"1"),
        ok_command(0),
        one_cell_row(VARCHAR, b"hi"),
    ]);

    let source = query("SELECT $1", vec![INT4], vec![Some(b"1".to_vec())], true);
    let source2 = query("SELECT $1", vec![VARCHAR], vec![Some(b"hi".to_vec())], true);

    assert_eq!(0, connection.statement_cache.len());
    assert_eq!(Ok(1), get_result_i32(&mut connection, &source));
    assert_eq!(Ok("hi".to_string()), get_result_text(&mut connection, &source2));
    assert_eq!(2, connection.statement_cache.len());
}

#[test]
fn queries_with_identical_types_and_binds_but_different_sql_are_cached_separately() {
    let mut connection = connection_with(vec![
        ok_command(0),
        one_cell_row(VARCHAR, b"HI"),
        ok_command(0),
        one_cell_row(VARCHAR, b"hi"),
    ]);

    let source = query("SELECT $1", vec![VARCHAR], vec![Some(b"HI".to_vec())], true);
    let source2 = query("SELECT lower($1)", vec![VARCHAR], vec![Some(b"HI".to_vec())], true);

    assert_eq!(0, connection.statement_cache.len());
    assert_eq!(Ok("HI".to_string()), get_result_text(&mut connection, &source));
    assert_eq!(Ok("hi".to_string()), get_result_text(&mut connection, &source2));
    assert_eq!(2, connection.statement_cache.len());
}

#[test]
fn queries_with_sql_literal_nodes_are_not_cached() {
    let mut connection = connection_with(vec![ok_command(0), one_cell_row(INT4, b"1")]);
    let source = query("SELECT 1", vec![], vec![], false);

    assert_eq!(Ok(1), get_result_i32(&mut connection, &source));
    assert_eq!(0, connection.statement_cache.len());
}

#[test]
fn inserts_from_select_are_cached() {
    let mut connection = connection_with(vec![
        ok_command(0), // BEGIN
        ok_command(0), // CREATE TABLE, prepare
        ok_command(0), // CREATE TABLE, execute
        ok_command(0), // first insert, prepare
        ok_command(1), // first insert, execute
        ok_command(0), // second insert, prepare
        ok_command(1), // second insert, execute
    ]);
    connection.batch_execute("BEGIN").unwrap();

    connection
        .execute(
            "CREATE TABLE IF NOT EXISTS users(id INTEGER PRIMARY KEY, name TEXT NOT NULL);",
        )
        .unwrap();

    let insert = query(
        "INSERT INTO users (id, name) SELECT users.id, users.name FROM users WHERE users.id = $1",
        vec![INT4],
        vec![Some(b"42".to_vec())],
        true,
    );
    assert_eq!(true, connection.execute_returning_count(&insert).is_ok());
    assert_eq!(1, connection.statement_cache.len());

    let boxed_insert = query(
        "INSERT INTO users (id, name) SELECT users.id, users.name FROM users WHERE (users.id = $1)",
        vec![INT4],
        vec![Some(b"42".to_vec())],
        true,
    );
    assert_eq!(true, connection.execute_returning_count(&boxed_insert).is_ok());
    assert_eq!(2, connection.statement_cache.len());
}

#[test]
fn single_inserts_are_cached() {
    let mut connection = connection_with(vec![
        ok_command(0), // BEGIN
        ok_command(0), // CREATE TABLE, prepare
        ok_command(0), // CREATE TABLE, execute
        ok_command(0), // insert, prepare
        ok_command(1), // insert, execute
    ]);
    connection.batch_execute("BEGIN").unwrap();

    connection
        .execute(
            "CREATE TABLE IF NOT EXISTS users(id INTEGER PRIMARY KEY, name TEXT NOT NULL);",
        )
        .unwrap();

    let insert = query(
        "INSERT INTO users (id, name) VALUES ($1, $2)",
        vec![INT4, VARCHAR],
        vec![Some(b"42".to_vec()), Some(b"Foo".to_vec())],
        true,
    );

    assert_eq!(true, connection.execute_returning_count(&insert).is_ok());
    assert_eq!(1, connection.statement_cache.len());
}

#[test]
fn dynamic_batch_inserts_are_not_cached() {
    let mut connection = connection_with(vec![
        ok_command(0), // BEGIN
        ok_command(0), // CREATE TABLE, prepare
        ok_command(0), // CREATE TABLE, execute
        ok_command(0), // insert, prepare
        ok_command(1), // insert, execute
    ]);
    connection.batch_execute("BEGIN").unwrap();

    connection
        .execute(
            "CREATE TABLE IF NOT EXISTS users(id INTEGER PRIMARY KEY, name TEXT NOT NULL);",
        )
        .unwrap();

    // a batch whose length is only known at runtime is unsafe to cache
    let insert = query(
        "INSERT INTO users (id, name) VALUES ($1, $2)",
        vec![INT4, VARCHAR],
        vec![Some(b"42".to_vec()), Some(b"Foo".to_vec())],
        false,
    );

    assert_eq!(true, connection.execute_returning_count(&insert).is_ok());
    assert_eq!(0, connection.statement_cache.len());
}

#[test]
fn static_batch_inserts_are_cached() {
    let mut connection = connection_with(vec![
        ok_command(0), // BEGIN
        ok_command(0), // CREATE TABLE, prepare
        ok_command(0), // CREATE TABLE, execute
        ok_command(0), // insert, prepare
        ok_command(1), // insert, execute
    ]);
    connection.batch_execute("BEGIN").unwrap();

    connection
        .execute(
            "CREATE TABLE IF NOT EXISTS users(id INTEGER PRIMARY KEY, name TEXT NOT NULL);",
        )
        .unwrap();

    // a fixed-size batch has a statically-known bind shape
    let insert = query(
        "INSERT INTO users (id, name) VALUES ($1, $2)",
        vec![INT4, VARCHAR],
        vec![Some(b"42".to_vec()), Some(b"Foo".to_vec())],
        true,
    );

    assert_eq!(true, connection.execute_returning_count(&insert).is_ok());
    assert_eq!(1, connection.statement_cache.len());
}

#[test]
fn queries_containing_in_with_vec_are_cached() {
    let mut connection = connection_with(vec![ok_command(0), one_cell_row(INT4, b"t")]);
    let source = query(
        "SELECT $1 = ANY($2)",
        vec![INT4, INT4_ARRAY],
        vec![Some(b"1".to_vec()), Some(b"{1,2,3}".to_vec())],
        true,
    );

    assert_eq!(Ok(true), get_result_bool(&mut connection, &source));
    assert_eq!(1, connection.statement_cache.len());
}

#[test]
fn cached_statements_get_deterministic_names() {
    let mut connection = connection_with(vec![
        ok_command(0),
        one_cell_row(INT4, b"1"),
        ok_command(0),
        one_cell_row(VARCHAR, b"hi"),
    ]);

    let source = query("SELECT $1", vec![INT4], vec![Some(b"1".to_vec())], true);
    let source2 = query("SELECT $1", vec![VARCHAR], vec![Some(b"hi".to_vec())], true);
    get_result_i32(&mut connection, &source).unwrap();
    get_result_text(&mut connection, &source2).unwrap();

    assert_eq!(
        Some("__stmt_0".to_string()),
        connection.statement_cache.entries[0].statement.name
    );
    assert_eq!(
        Some("__stmt_1".to_string()),
        connection.statement_cache.entries[1].statement.name
    );
}

#[test]
fn failed_prepare_leaves_cache_unmodified() {
    let mut connection = connection_with(vec![failure(
        DatabaseErrorKind::Unknown,
        "syntax error",
        Some(1),
    )]);
    let source = query("SELEC $1", vec![INT4], vec![Some(b"1".to_vec())], true);

    assert!(connection.load(&source).is_err());
    assert_eq!(0, connection.statement_cache.len());
}

#[test]
fn session_bootstrap_failure_is_a_configuration_error() {
    // the connection comes up, but the encoding statement is rejected
    let transcript = vec![
        ok_command(0), // connect
        ok_command(0), // SET TIME ZONE, prepare
        ok_command(0), // SET TIME ZONE, execute
        failure(DatabaseErrorKind::Unknown, "invalid value for parameter", None),
    ];
    let result = PgConnection::establish("postgres://localhost/test", transcript);
    match result {
        Err(ConnectionError::CouldntSetupConfiguration(Error::DatabaseError(
            DatabaseErrorKind::Unknown,
            info,
        ))) => {
            assert_eq!("invalid value for parameter", info.message());
        }
        _ => unreachable!(),
    }
}

#[test]
fn establish_rejects_malformed_connection_strings() {
    let result = PgConnection::establish("definitely not a url", bootstrap());
    match result {
        Err(ConnectionError::InvalidConnectionUrl(url)) => {
            assert_eq!("definitely not a url", url);
        }
        _ => unreachable!(),
    }
    assert!(PgConnection::establish("postgres://localhost/db", bootstrap()).is_ok());
    assert!(PgConnection::establish("postgresql://localhost/db", bootstrap()).is_ok());
    assert!(PgConnection::establish("host=localhost user=me", bootstrap()).is_ok());
    assert!(PgConnection::establish("", bootstrap()).is_ok());
}

#[test]
fn establish_surfaces_an_unreachable_server() {
    let result = PgConnection::establish("postgres://nowhere/db", vec![]);
    match result {
        Err(ConnectionError::BadConnection(message)) => assert_eq!("", message),
        _ => unreachable!(),
    }

    let refused = vec![failure(
        DatabaseErrorKind::Unknown,
        "connection refused",
        None,
    )];
    match PgConnection::establish("postgres://nowhere/db", refused) {
        Err(ConnectionError::BadConnection(message)) => {
            assert_eq!("connection refused", message)
        }
        _ => unreachable!(),
    }
}

#[test]
fn exhausted_connection_reports_closed() {
    let mut connection = connection_with(vec![]);
    match connection.execute("SELECT 1") {
        Err(Error::DatabaseError(DatabaseErrorKind::ClosedConnection, info)) => {
            assert_eq!("", info.message());
            assert_eq!(None, info.statement_position());
        }
        _ => unreachable!(),
    }
}

#[test]
fn execute_reports_affected_rows() {
    let mut connection = connection_with(vec![ok_command(0), ok_command(7)]);
    assert_eq!(Ok(7), connection.execute("DELETE FROM users"));
}

#[test]
fn ping_runs_a_trivial_query() {
    let mut connection = connection_with(vec![ok_command(0), one_cell_row(INT4, b"1")]);
    assert_eq!(Ok(()), connection.ping());
    assert!(connection.ping().is_err());
}

#[test]
fn transaction_status_follows_the_latest_reply() {
    let mut transcript = bootstrap();
    transcript.push(ServerReply {
        outcome: ReplyOutcome::Command { rows_affected: 0 },
        status_after: PgTransactionStatus::InTransaction,
    });
    let mut connection = PgConnection::establish("postgres://localhost/test", transcript).unwrap();
    assert_eq!(
        PgTransactionStatus::Idle,
        connection.raw_connection.transaction_status()
    );
    connection.batch_execute("BEGIN").unwrap();
    assert_eq!(
        PgTransactionStatus::InTransaction,
        connection.raw_connection.transaction_status()
    );
}

#[test]
fn load_hands_the_fetched_rows_out_in_order() {
    let rows_reply = ServerReply {
        outcome: ReplyOutcome::Rows {
            column_types: vec![VARCHAR],
            rows: vec![
                vec![Some(b"alpha".to_vec())],
                vec![None],
                vec![Some(b"gamma".to_vec())],
            ],
        },
        status_after: PgTransactionStatus::Idle,
    };
    let mut connection = connection_with(vec![ok_command(0), rows_reply]);
    let source = query("SELECT name FROM things", vec![], vec![], true);
    let mut cursor = connection.load(&source).unwrap();
    assert_eq!(3, cursor.remaining_count());
    assert_eq!(Some(b"alpha".to_vec()), *cursor.next().unwrap().get(0).unwrap());
    assert_eq!(None, *cursor.next().unwrap().get(0).unwrap());
    assert_eq!(Some(b"gamma".to_vec()), *cursor.next().unwrap().get(0).unwrap());
    assert!(cursor.next().is_none());
}

#[test]
fn build_transaction_starts_unconfigured() {
    let connection = connection_with(vec![]);
    let builder = connection.build_transaction();
    assert_eq!("BEGIN TRANSACTION", builder.begin_sql());
    assert_eq!(
        "BEGIN TRANSACTION ISOLATION LEVEL SERIALIZABLE READ ONLY DEFERRABLE",
        connection
            .build_transaction()
            .read_only()
            .serializable()
            .deferrable()
            .begin_sql()
    );
}

#[test]
fn batch_execute_takes_one_round_trip() {
    let mut connection = connection_with(vec![
        ok_command(0),
        failure(DatabaseErrorKind::Unknown, "syntax error", Some(1)),
    ]);
    assert_eq!(Ok(()), connection.batch_execute("SET search_path TO public"));
    assert!(connection.batch_execute("SELEC 1").is_err());
}
