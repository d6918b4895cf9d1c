use spark_deploy::database::{setup_database, DbError, DbPlan};
use spark_deploy::manifest::DatabaseSection;

fn section(kind: &str) -> DatabaseSection {
    DatabaseSection {
        kind: kind.to_string(),
        name: None,
        user: None,
        password: None,
        port: None,
        preseed: None,
    }
}

#[test]
fn postgres_defaults() {
    let plan = setup_database(&section("postgres"), "/apps/demo").unwrap();
    match plan {
        DbPlan::Container {
            container_name,
            image,
            env,
            host_port,
            container_port,
            settle_secs,
            preseed,
        } => {
            assert_eq!(container_name, "spark-postgres-db");
            assert_eq!(image, "postgres:14-alpine");
            assert_eq!(
                env,
                vec![
                    ("POSTGRES_DB".to_string(), "postgres".to_string()),
                    ("POSTGRES_USER".to_string(), "postgres".to_string()),
                    ("POSTGRES_PASSWORD".to_string(), "password".to_string()),
                ]
            );
            assert_eq!(host_port, 5432);
            assert_eq!(container_port, 5432);
            assert_eq!(settle_secs, 5);
            assert!(preseed.is_none());
        }
        _ => panic!("postgres must provision a container"),
    }
}

#[test]
fn postgres_custom_settings_and_preseed() {
    let mut db = section("postgres");
    db.name = Some("shop".to_string());
    db.user = Some("admin".to_string());
    db.password = Some("pgpass".to_string());
    db.port = Some(15432);
    db.preseed = Some("seed.sql".to_string());
    let plan = setup_database(&db, "/apps/demo").unwrap();
    match plan {
        DbPlan::Container { container_name, env, host_port, preseed, .. } => {
            assert_eq!(container_name, "spark-shop-db");
            assert_eq!(env[0], ("POSTGRES_DB".to_string(), "shop".to_string()));
            assert_eq!(env[1], ("POSTGRES_USER".to_string(), "admin".to_string()));
            assert_eq!(host_port, 15432);
            let e = preseed.unwrap();
            assert_eq!(e.program, "docker");
            assert_eq!(
                e.args,
                vec![
                    "exec".to_string(),
                    "-i".to_string(),
                    "spark-shop-db".to_string(),
                    "psql".to_string(),
                    "-U".to_string(),
                    "admin".to_string(),
                    "-d".to_string(),
                    "shop".to_string(),
                ]
            );
            assert_eq!(e.stdin_path, "/apps/demo/seed.sql");
        }
        _ => panic!("postgres must provision a container"),
    }
}

#[test]
fn mysql_defaults_and_preseed() {
    let mut db = section("mysql");
    db.preseed = Some("seed.sql".to_string());
    let plan = setup_database(&db, "/apps/demo").unwrap();
    match plan {
        DbPlan::Container {
            container_name,
            image,
            env,
            host_port,
            container_port,
            settle_secs,
            preseed,
        } => {
            assert_eq!(container_name, "spark-mysql-db");
            assert_eq!(image, "mysql:8.0");
            assert_eq!(
                env,
                vec![
                    ("MYSQL_DATABASE".to_string(), "mysql".to_string()),
                    ("MYSQL_USER".to_string(), "root".to_string()),
                    ("MYSQL_PASSWORD".to_string(), "password".to_string()),
                    ("MYSQL_ROOT_PASSWORD".to_string(), "password".to_string()),
                ]
            );
            assert_eq!(host_port, 3306);
            assert_eq!(container_port, 3306);
            assert_eq!(settle_secs, 10);
            let e = preseed.unwrap();
            assert_eq!(e.program, "docker");
            assert_eq!(
                e.args,
                vec![
                    "exec".to_string(),
                    "-i".to_string(),
                    "spark-mysql-db".to_string(),
                    "mysql".to_string(),
                    "-u".to_string(),
                    "root".to_string(),
                    "-ppassword".to_string(),
                    "mysql".to_string(),
                ]
            );
            assert_eq!(e.stdin_path, "/apps/demo/seed.sql");
        }
        _ => panic!("mysql must provision a container"),
    }
}

#[test]
fn sqlite_is_file_based() {
    let mut db = section("sqlite");
    db.preseed = Some("schema.sql".to_string());
    let plan = setup_database(&db, "/apps/demo").unwrap();
    match plan {
        DbPlan::SqliteFile { db_path, preseed } => {
            assert_eq!(db_path, "/apps/demo/app.db");
            let e = preseed.unwrap();
            assert_eq!(e.program, "sqlite3");
            assert_eq!(e.args, vec!["/apps/demo/app.db".to_string()]);
            assert_eq!(e.stdin_path, "/apps/demo/schema.sql");
        }
        _ => panic!("sqlite must provision a file"),
    }
}

#[test]
fn sqlite_custom_name() {
    let mut db = section("sqlite");
    db.name = Some("store.db".to_string());
    match setup_database(&db, "/apps/demo").unwrap() {
        DbPlan::SqliteFile { db_path, preseed } => {
            assert_eq!(db_path, "/apps/demo/store.db");
            assert!(preseed.is_none());
        }
        _ => panic!("sqlite must provision a file"),
    }
}

#[test]
fn unsupported_type_is_rejected() {
    match setup_database(&section("mongodb"), "/apps/demo") {
        Err(DbError::Unsupported(kind)) => assert_eq!(kind, "mongodb"),
        _ => panic!("an unknown database type must be rejected"),
    }
}
