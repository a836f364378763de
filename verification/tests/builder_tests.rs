use rusqlite_migration::{Connection, Migrations, MigrationsBuilder, SchemaVersion, M};

#[test]
fn test_valid_index() {
    let ms = vec![M::up("CREATE TABLE t1(a);"), M::up("CREATE TABLE t2(a);")];

    let migrations: Migrations = MigrationsBuilder::from_iter(ms)
        .edit(1, move |m| m.down("DROP TABLE t1;"))
        .edit(2, move |m| m.down("DROP TABLE t2;"))
        .finalize();

    // The edits took: the whole catalog can now be applied and reverted.
    let mut conn = Connection::open_in_memory().unwrap();
    migrations.to_latest(&mut conn).unwrap();
    assert_eq!(
        Ok(SchemaVersion::Inside(2)),
        migrations.current_version(&conn)
    );
    migrations.to_version(&mut conn, 0).unwrap();
    assert_eq!(Ok(SchemaVersion::NoneSet), migrations.current_version(&conn));
}

#[test]
fn test_len_builder() {
    let mut conn = Connection::open_in_memory().unwrap();
    // Define migrations
    let ms = vec![
        M::up("CREATE TABLE friend(name TEXT);"),
        M::up("ALTER TABLE friend ADD COLUMN birthday TEXT;"),
    ];

    {
        let builder = MigrationsBuilder::from_iter(ms);

        let migrations: Migrations = builder.finalize();

        migrations.to_latest(&mut conn).unwrap();

        assert_eq!(
            Ok(SchemaVersion::Inside(2)),
            migrations.current_version(&conn)
        );
    }
}

#[test]
fn builder_from_directory_test() {
    let entries: &'static [include_dir::DirEntry<'static>] = Box::leak(
        vec![include_dir::DirEntry::Dir(include_dir::Dir::new(
            "1-first",
            Box::leak(
                vec![include_dir::DirEntry::File(include_dir::File::new(
                    "1-first/up.sql",
                    b"CREATE TABLE t1(a);",
                ))]
                .into_boxed_slice(),
            ),
        ))]
        .into_boxed_slice(),
    );
    let dir: &'static include_dir::Dir<'static> =
        Box::leak(Box::new(include_dir::Dir::new("", entries)));

    let migrations = MigrationsBuilder::from_directory(dir)
        .unwrap()
        .edit(1, |m| m.down("DROP TABLE t1;"))
        .finalize();

    let mut conn = Connection::open_in_memory().unwrap();
    migrations.to_latest(&mut conn).unwrap();
    assert_eq!(
        Ok(SchemaVersion::Inside(1)),
        migrations.current_version(&conn)
    );
    migrations.to_version(&mut conn, 0).unwrap();
    assert_eq!(Ok(SchemaVersion::NoneSet), migrations.current_version(&conn));
}
