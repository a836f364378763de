//! Concrete scenarios for the engine's guarantees: idempotence, no-op
//! precision, round trips, fail-fast downward moves, foreign-key rejection
//! and the pending count.

use rusqlite_migration::{
    fold_violations, user_version, Connection, Error, ForeignKeyCheckError, Hook, HookError,
    HookResult, MigrationDefinitionError, MigrationHook, Migrations, SchemaVersion,
    SchemaVersionError, Transaction, M,
};

// Applying everything twice in a row runs nothing the second time: the
// second run would duplicate the marker row if any script ran again.
#[test]
fn to_latest_twice_runs_nothing_again() {
    let migrations = Migrations::new(vec![M::up(
        "CREATE TABLE marker(x); INSERT INTO marker(x) VALUES (1);",
    )]);
    let mut conn = Connection::open_in_memory().unwrap();

    migrations.to_latest(&mut conn).unwrap();
    migrations.to_latest(&mut conn).unwrap();

    let rows: i64 = conn
        .sqlite()
        .query_row("SELECT COUNT(*) FROM marker", [], |row| row.get(0))
        .unwrap();
    assert_eq!(rows, 1);
    assert_eq!(
        Ok(SchemaVersion::Inside(1)),
        migrations.current_version(&conn)
    );
}

// Migrating to the version the store already has does not move the marker.
#[test]
fn to_current_version_is_a_no_op() {
    let migrations = Migrations::new(vec![
        M::up("CREATE TABLE a(x);"),
        M::up("CREATE TABLE b(x);"),
        M::up("CREATE TABLE c(x);"),
    ]);
    let mut conn = Connection::open_in_memory().unwrap();

    migrations.to_version(&mut conn, 2).unwrap();
    assert_eq!(Ok(2), user_version(&conn));

    migrations.to_version(&mut conn, 2).unwrap();
    assert_eq!(Ok(2), user_version(&conn));
}

// A full round trip lands back on the catalog's own version.
#[test]
fn round_trip_restores_latest_version() {
    let migrations = Migrations::new(vec![
        M::up("CREATE TABLE a(x);").down("DROP TABLE a;"),
        M::up("CREATE TABLE b(x);").down("DROP TABLE b;"),
    ]);
    let mut conn = Connection::open_in_memory().unwrap();

    migrations.to_version(&mut conn, 2).unwrap();
    migrations.to_version(&mut conn, 0).unwrap();
    migrations.to_version(&mut conn, 2).unwrap();

    assert_eq!(
        Ok(SchemaVersion::Inside(2)),
        migrations.current_version(&conn)
    );
}

// A downward move through a migration with no reverse script fails before
// anything runs: the reverse script of the last migration is invalid SQL,
// so the engine would report a store error had it been executed.
#[test]
fn downward_fails_fast_without_running_scripts() {
    let migrations = Migrations::new(vec![
        M::up("CREATE TABLE a(x);").down("DROP TABLE a;"),
        M::up("CREATE TABLE b(x);"),
        M::up("CREATE TABLE c(x);").down("certainly not valid SQL"),
    ]);
    let mut conn = Connection::open_in_memory().unwrap();
    migrations.to_version(&mut conn, 3).unwrap();

    assert_eq!(
        Err(Error::MigrationDefinition(
            MigrationDefinitionError::DownNotDefined { migration_index: 1 }
        )),
        migrations.to_version(&mut conn, 1)
    );
    assert_eq!(Ok(3), user_version(&conn));
}

// A failed foreign key audit reports every violation and leaves the version
// where it was.
#[test]
fn fk_rejection_leaves_version_unchanged() {
    let migrations = Migrations::new(vec![M::up(
        r#"
        CREATE TABLE parent(a PRIMARY KEY);
        CREATE TABLE child(a, FOREIGN KEY(a) REFERENCES parent(a));
        INSERT INTO child (a) VALUES ('dangling');
    "#,
    )
    .foreign_key_check()]);
    let mut conn = Connection::open_in_memory().unwrap();
    // Let the audit do the checking, not the store's own enforcement.
    conn.sqlite()
        .pragma_update(None, "foreign_keys", "OFF")
        .unwrap();

    match migrations.to_latest(&mut conn) {
        Err(Error::ForeignKeyCheck(violations)) => {
            assert!(violations.len() >= 1);
            assert_eq!(violations[0].table, "child");
            assert_eq!(violations[0].parent, "parent");
        },
        other => panic!("expected a foreign key check failure, got {:?}", other),
    }
    assert_eq!(
        Ok(SchemaVersion::NoneSet),
        migrations.current_version(&conn)
    );
}

// The pending count is the catalog length minus the marker, sign included.
#[test]
fn pending_count_follows_the_marker() {
    let migrations = Migrations::new(vec![
        M::up("CREATE TABLE a(x);"),
        M::up("CREATE TABLE b(x);"),
        M::up("CREATE TABLE c(x);"),
    ]);
    let mut conn = Connection::open_in_memory().unwrap();

    assert_eq!(Ok(3), migrations.pending_migrations(&conn));

    migrations.to_latest(&mut conn).unwrap();
    assert_eq!(Ok(0), migrations.pending_migrations(&conn));

    conn.raw_set_user_version(5).unwrap();
    assert_eq!(Ok(-2), migrations.pending_migrations(&conn));
}

// The concrete up-then-fail-down scenario: both tables appear, and the
// revert through the second migration is refused with the store untouched.
#[test]
fn three_step_scenario() {
    let migrations = Migrations::new(vec![
        M::up("CREATE TABLE tbl_a(x);").down("DROP TABLE tbl_a;"),
        M::up("CREATE TABLE tbl_b(x);"),
    ]);
    let mut conn = Connection::open_in_memory().unwrap();

    migrations.to_version(&mut conn, 2).unwrap();
    assert_eq!(Ok(2), user_version(&conn));
    conn.sqlite()
        .execute("INSERT INTO tbl_a(x) VALUES (1);", [])
        .unwrap();
    conn.sqlite()
        .execute("INSERT INTO tbl_b(x) VALUES (1);", [])
        .unwrap();

    // Reverting from 2 to 0 would have to revert the second migration
    // first, and it has no reverse script.
    assert_eq!(
        Err(Error::MigrationDefinition(
            MigrationDefinitionError::DownNotDefined { migration_index: 1 }
        )),
        migrations.to_version(&mut conn, 0)
    );
    assert_eq!(Ok(2), user_version(&conn));
    conn.sqlite()
        .execute("INSERT INTO tbl_b(x) VALUES (2);", [])
        .unwrap();
}

// A target beyond the catalog is rejected with the exact bounds.
#[test]
fn target_out_of_range_reports_bounds() {
    let migrations = Migrations::new(vec![M::up("CREATE TABLE a(x);")]);
    let mut conn = Connection::open_in_memory().unwrap();

    assert_eq!(
        Err(Error::SpecifiedSchemaVersion(
            SchemaVersionError::TargetVersionOutOfRange {
                specified: SchemaVersion::Outside(4),
                highest: SchemaVersion::Inside(1),
            }
        )),
        migrations.to_version(&mut conn, 4)
    );
    assert_eq!(Ok(0), user_version(&conn));
}

struct FailingHook;

impl MigrationHook for FailingHook {
    fn run(&self, _tx: &Transaction<'_>) -> HookResult {
        Err(HookError::Hook("the hook refused".to_string()))
    }
}

// A failing hook aborts the whole run, surfaces its message and leaves the
// store untouched.
#[test]
fn failing_hook_rolls_back() {
    let migrations = Migrations::new(vec![M::up_with_hook(
        "CREATE TABLE hooked(x);",
        Hook::new(Box::new(FailingHook)),
    )]);
    let mut conn = Connection::open_in_memory().unwrap();

    assert_eq!(
        Err(Error::Hook("the hook refused".to_string())),
        migrations.to_latest(&mut conn)
    );
    assert_eq!(Ok(0), user_version(&conn));
    // The table creation was rolled back together with the hook.
    assert!(conn
        .sqlite()
        .execute("INSERT INTO hooked(x) VALUES (1);", [])
        .is_err());
}

struct RecordingHook(&'static str);

impl MigrationHook for RecordingHook {
    fn run(&self, tx: &Transaction<'_>) -> HookResult {
        tx.sqlite()
            .execute("INSERT INTO trace(step) VALUES (?1)", (self.0,))?;
        Ok(())
    }
}

// The up-hook runs after its script, the down-hook before its script.
#[test]
fn hook_order_is_asymmetric() {
    let migrations = Migrations::new(vec![
        M::up("CREATE TABLE trace(step TEXT);"),
        M::up_with_hook(
            "INSERT INTO trace(step) VALUES ('up script');",
            Hook::new(Box::new(RecordingHook("up hook"))),
        )
        .down_with_hook(
            "INSERT INTO trace(step) VALUES ('down script');",
            Hook::new(Box::new(RecordingHook("down hook"))),
        ),
    ]);
    let mut conn = Connection::open_in_memory().unwrap();

    migrations.to_latest(&mut conn).unwrap();
    migrations.to_version(&mut conn, 1).unwrap();

    let steps: Vec<String> = conn
        .sqlite()
        .prepare("SELECT step FROM trace ORDER BY rowid")
        .unwrap()
        .query_map([], |row| row.get(0))
        .unwrap()
        .collect::<Result<_, _>>()
        .unwrap();
    assert_eq!(
        steps,
        vec![
            "up script".to_string(),
            "up hook".to_string(),
            "down hook".to_string(),
            "down script".to_string(),
        ]
    );
}

// An invalid script surfaces a store error carrying the script text.
#[test]
fn invalid_script_reports_query() {
    let migrations = Migrations::new(vec![M::up("utterly invalid")]);
    let mut conn = Connection::open_in_memory().unwrap();

    match migrations.to_latest(&mut conn) {
        Err(Error::RusqliteError { query, err: _ }) => {
            assert_eq!(query, "utterly invalid");
        },
        other => panic!("expected a store error, got {:?}", other),
    }
    assert_eq!(Ok(0), user_version(&conn));
}

// The audit's answer is success exactly on an empty report, and otherwise
// carries every violation found.
#[test]
fn fold_violations_is_exact() {
    assert_eq!(Ok(()), fold_violations(vec![]));

    let vs = vec![
        ForeignKeyCheckError {
            table: "child".to_string(),
            rowid: 1,
            parent: "parent".to_string(),
            fkid: 0,
        },
        ForeignKeyCheckError {
            table: "child".to_string(),
            rowid: 2,
            parent: "parent".to_string(),
            fkid: 0,
        },
    ];
    assert_eq!(
        Err(Error::ForeignKeyCheck(vs.clone())),
        fold_violations(vs)
    );
}

// The version-too-high error renders as its own message.
#[test]
fn too_high_describe_test() {
    assert_eq!(
        "Schema version is too high to be stored",
        SchemaVersionError::TooHigh.describe()
    );
}

struct QuietHook;

impl MigrationHook for QuietHook {
    fn run(&self, _tx: &Transaction<'_>) -> HookResult {
        Ok(())
    }
}

// Migration descriptions spell out everything but the hooks' contents.
#[test]
fn describe_migration_test() {
    assert_eq!("M(up: \"CREATE TABLE a(x);\")", M::up("CREATE TABLE a(x);").describe());
    assert_eq!(
        "M(up: \"CREATE TABLE a(x);\", down: \"DROP TABLE a;\", foreign key check, comment: \"first\")",
        M::up("CREATE TABLE a(x);")
            .down("DROP TABLE a;")
            .foreign_key_check()
            .comment("first")
            .describe()
    );
    assert_eq!(
        "M(up: \"CREATE TABLE a(x);\", up hook)",
        M::up_with_hook("CREATE TABLE a(x);", Hook::new(Box::new(QuietHook))).describe()
    );
}
