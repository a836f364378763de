use rusqlite_migration::{
    Connection, Error, MigrationDefinitionError, Migrations, SchemaVersion, M,
};

#[test]
fn up_and_down_main_test() {
    let ms = vec![
        // 0
        M::up("CREATE TABLE animals (id INTEGER PRIMARY KEY, name TEXT);")
            .down("DROP TABLE animals;"),
        // 1
        M::up("CREATE TABLE food (id INTEGER PRIMARY KEY, name TEXT);").down("DROP TABLE food;"),
        // 2
        M::up("CREATE TABLE animal_food (animal_id INTEGER, food_id INTEGER);")
            .down("DROP TABLE animal_food;"),
        // 3
        M::up("CREATE TABLE habitats (id INTEGER PRIMARY KEY, name TEXT);")
            .down("DROP TABLE habitats;"),
        // 4
        M::up("CREATE TABLE animal_habitat (animal_id INTEGER, habitat_id INTEGER);")
            .down("DROP TABLE animal_habitat;"),
    ];

    {
        let mut conn = Connection::open_in_memory().unwrap();

        let migrations = Migrations::new(ms.clone());

        assert_eq!(
            Ok(SchemaVersion::NoneSet),
            migrations.current_version(&conn)
        );

        migrations.to_version(&mut conn, 1).unwrap();

        conn.sqlite()
            .execute("INSERT INTO animals (name) VALUES (?1)", ("Dog",))
            .unwrap();

        assert_eq!(
            Ok(SchemaVersion::Inside(1)),
            migrations.current_version(&conn)
        );

        // go back
        migrations.to_version(&mut conn, 0).unwrap();

        // the table is gone now
        let _ = conn
            .sqlite()
            .execute("INSERT INTO animals (name) VALUES (?1)", ("Dog",))
            .unwrap_err();

        assert_eq!(
            Ok(SchemaVersion::NoneSet),
            migrations.current_version(&conn)
        );
    }

    // Multiple steps
    {
        let mut conn = Connection::open_in_memory().unwrap();

        let migrations = Migrations::new(ms.clone());

        assert_eq!(
            Ok(SchemaVersion::NoneSet),
            migrations.current_version(&conn)
        );

        // Bad version, this should not change the DB
        assert!(migrations.to_version(&mut conn, 6).is_err());

        assert_eq!(
            Ok(SchemaVersion::NoneSet),
            migrations.current_version(&conn)
        );

        migrations.to_version(&mut conn, 5).unwrap();

        conn.sqlite()
            .execute(
                "INSERT INTO habitats (id, name) VALUES (?1, ?2)",
                (0, "Forest"),
            )
            .unwrap();

        conn.sqlite()
            .execute("INSERT INTO animals (id, name) VALUES (?1, ?2)", (15, "Fox"))
            .unwrap();

        conn.sqlite()
            .execute(
                "INSERT INTO animal_habitat (animal_id, habitat_id) VALUES (?1, ?2)",
                (15, 0),
            )
            .unwrap();

        // go back
        migrations.to_version(&mut conn, 3).unwrap();

        // the table is gone now
        assert!(conn
            .sqlite()
            .execute("INSERT INTO habitats (name) VALUES (?1)", ("Beach",))
            .is_err());

        conn.sqlite()
            .execute("INSERT INTO food (name) VALUES (?1)", ("Cheese",))
            .unwrap();

        conn.sqlite()
            .execute("INSERT INTO animals (name) VALUES (?1)", ("Mouse",))
            .unwrap();

        conn.sqlite()
            .execute(
                "INSERT INTO animal_food (animal_id, food_id) VALUES (?1, ?2)",
                (1, 0),
            )
            .unwrap();
    }
}

#[test]
fn up_and_down_test_errors() {
    let ms = vec![
        // 0
        M::up("CREATE TABLE animals (id INTEGER, name TEXT);").down("DROP TABLE animals;"),
        // 1
        M::up("CREATE TABLE food (id INTEGER, name TEXT);"), // no down!!!
        // 2
        M::up("CREATE TABLE animal_food (animal_id INTEGER, food_id INTEGER);")
            .down("DROP TABLE animal_food;"),
    ];

    {
        let mut conn = Connection::open_in_memory().unwrap();

        let migrations = Migrations::new(ms.clone());

        migrations.to_latest(&mut conn).unwrap();

        assert_eq!(
            Ok(SchemaVersion::Inside(3)),
            migrations.current_version(&conn)
        );

        conn.sqlite()
            .execute("INSERT INTO animals (name) VALUES (?1)", ("Dog",))
            .unwrap();

        // go back
        assert!(migrations.to_version(&mut conn, 0).is_err()); // oops

        assert_eq!(
            Ok(SchemaVersion::Inside(3)),
            migrations.current_version(&conn)
        );

        // one is fine
        assert!(migrations.to_version(&mut conn, 2).is_ok());

        // boom
        assert_eq!(
            Err(Error::MigrationDefinition(
                MigrationDefinitionError::DownNotDefined { migration_index: 1 }
            )),
            migrations.to_version(&mut conn, 1)
        );
    }
}

// A single migration holding several statements applies in one go.
#[test]
fn multiline_migration_test() {
    let ms = vec![M::up(
        r#"
              CREATE TABLE friend (name TEXT PRIMARY KEY, email TEXT) WITHOUT ROWID;
              ALTER TABLE friend ADD COLUMN birthday TEXT;
              ALTER TABLE friend ADD COLUMN notes TEXT;
              "#,
    )];

    let mut conn = Connection::open_in_memory().unwrap();
    let migrations = Migrations::new(ms.clone());
    migrations.to_latest(&mut conn).unwrap();

    assert_eq!(
        Ok(SchemaVersion::Inside(ms.len())),
        migrations.current_version(&conn)
    );

    conn.sqlite()
        .execute(
            "INSERT INTO friend (name, birthday, notes) VALUES (?1, ?2, ?3)",
            ("John", "1970-01-01", "fun fact: ..."),
        )
        .unwrap();
}
