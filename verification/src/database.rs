//! Database provisioning plans.
//!
//! A manifest's database section is provisioned after launch, best-effort:
//! Postgres and MySQL each replace any same-named container with a fresh
//! one carrying env-supplied credentials and a published port, wait a
//! fixed settle time, then optionally stream a preseed SQL file into the
//! running instance through the database client; SQLite only needs its
//! file created and the preseed run against it.  This module computes the
//! exact plan for each supported type; the unverified shell runs the
//! container commands and checks which files exist.

use crate::manifest::DatabaseSection;
use crate::strutil::{concat_str, str_eq};
use vstd::prelude::*;
use vstd::string::StringExecFns;

verus! {

broadcast use vstd::string::group_string_axioms;

/// Streaming one file into one program: run `program args...` with
/// `stdin_path` as its standard input.
#[derive(Clone, Debug, PartialEq)]
pub struct ExecPlan {
    pub program: String,
    pub args: Vec<String>,
    pub stdin_path: String,
}

/// A provisioning plan for one database section.
pub enum DbPlan {
    /// Run a fresh container: stop and remove any container of this name,
    /// start `image` with the environment pairs and the port published,
    /// wait `settle_secs`, then run the preseed, if any and if its file
    /// exists.
    Container {
        container_name: String,
        image: String,
        env: Vec<(String, String)>,
        host_port: u16,
        container_port: u16,
        settle_secs: u64,
        preseed: Option<ExecPlan>,
    },
    /// Create the database file if it is absent, then run the preseed, if
    /// any and if its file exists.
    SqliteFile { db_path: String, preseed: Option<ExecPlan> },
}

/// Provisioning failed before anything ran.
#[derive(Clone, Debug, PartialEq)]
pub enum DbError {
    /// The declared database type is not one of `postgres`, `mysql`,
    /// `sqlite`.
    Unsupported(String),
}

/// The views of a sequence of string pairs.
pub open spec fn spec_pairs(v: Seq<(String, String)>) -> Seq<(Seq<char>, Seq<char>)> {
    v.map_values(|p: (String, String)| (p.0@, p.1@))
}

/// An optional string, with its default.
pub open spec fn spec_or_str(o: Option<String>, d: Seq<char>) -> Seq<char> {
    match o {
        Some(s) => s@,
        None => d,
    }
}

/// An optional port, with its default.
pub open spec fn spec_or_port(o: Option<u16>, d: u16) -> u16 {
    match o {
        Some(p) => p,
        None => d,
    }
}

/// The managed container's name for a database called `name`:
/// `spark-{name}-db`.
pub open spec fn spec_container_name(name: Seq<char>) -> Seq<char> {
    "spark-"@ + name + "-db"@
}

/// The path of the preseed SQL file: `{app_dir}/{preseed}`.
pub open spec fn spec_preseed_path(app_dir: Seq<char>, preseed: Seq<char>) -> Seq<char> {
    app_dir + "/"@ + preseed
}

/// The Postgres plan for a database section.
pub open spec fn spec_postgres_plan(db: DatabaseSection, app_dir: Seq<char>, p: DbPlan) -> bool {
    &&& p matches DbPlan::Container {
        container_name,
        image,
        env,
        host_port,
        container_port,
        settle_secs,
        preseed,
    }
    &&& {
        let name = spec_or_str(db.name, "postgres"@);
        let user = spec_or_str(db.user, "postgres"@);
        let password = spec_or_str(db.password, "password"@);
        &&& container_name@ == spec_container_name(name)
        &&& image@ == "postgres:14-alpine"@
        &&& spec_pairs(env@) == seq![
            ("POSTGRES_DB"@, name),
            ("POSTGRES_USER"@, user),
            ("POSTGRES_PASSWORD"@, password),
        ]
        &&& host_port == spec_or_port(db.port, 5432)
        &&& container_port == 5432
        &&& settle_secs == 5
        &&& match preseed {
            Some(e) => {
                &&& db.preseed matches Some(f)
                &&& e.stdin_path@ == spec_preseed_path(app_dir, f@)
                &&& e.program@ == "docker"@
                &&& crate::manifest::spec_strings(e.args@) == seq![
                    "exec"@,
                    "-i"@,
                    spec_container_name(name),
                    "psql"@,
                    "-U"@,
                    user,
                    "-d"@,
                    name,
                ]
            },
            None => db.preseed is None,
        }
    }
}

/// The MySQL plan for a database section.
pub open spec fn spec_mysql_plan(db: DatabaseSection, app_dir: Seq<char>, p: DbPlan) -> bool {
    &&& p matches DbPlan::Container {
        container_name,
        image,
        env,
        host_port,
        container_port,
        settle_secs,
        preseed,
    }
    &&& {
        let name = spec_or_str(db.name, "mysql"@);
        let user = spec_or_str(db.user, "root"@);
        let password = spec_or_str(db.password, "password"@);
        &&& container_name@ == spec_container_name(name)
        &&& image@ == "mysql:8.0"@
        &&& spec_pairs(env@) == seq![
            ("MYSQL_DATABASE"@, name),
            ("MYSQL_USER"@, user),
            ("MYSQL_PASSWORD"@, password),
            ("MYSQL_ROOT_PASSWORD"@, password),
        ]
        &&& host_port == spec_or_port(db.port, 3306)
        &&& container_port == 3306
        &&& settle_secs == 10
        &&& match preseed {
            Some(e) => {
                &&& db.preseed matches Some(f)
                &&& e.stdin_path@ == spec_preseed_path(app_dir, f@)
                &&& e.program@ == "docker"@
                &&& crate::manifest::spec_strings(e.args@) == seq![
                    "exec"@,
                    "-i"@,
                    spec_container_name(name),
                    "mysql"@,
                    "-u"@,
                    user,
                    "-p"@ + password,
                    name,
                ]
            },
            None => db.preseed is None,
        }
    }
}

/// The SQLite plan for a database section.
pub open spec fn spec_sqlite_plan(db: DatabaseSection, app_dir: Seq<char>, p: DbPlan) -> bool {
    &&& p matches DbPlan::SqliteFile { db_path, preseed }
    &&& {
        let name = spec_or_str(db.name, "app.db"@);
        &&& db_path@ == app_dir + "/"@ + name
        &&& match preseed {
            Some(e) => {
                &&& db.preseed matches Some(f)
                &&& e.stdin_path@ == spec_preseed_path(app_dir, f@)
                &&& e.program@ == "sqlite3"@
                &&& crate::manifest::spec_strings(e.args@) == seq![app_dir + "/"@ + name]
            },
            None => db.preseed is None,
        }
    }
}

/// Computes the provisioning plan for a database section: a Postgres or
/// MySQL container, or a SQLite file, each with its defaults filled in;
/// any other declared type is unsupported.  Succeeds exactly on the three
/// supported types.
pub fn setup_database(db: &DatabaseSection, app_dir: &str) -> (r: Result<DbPlan, DbError>)
    ensures
        match r {
            Ok(p) => {
                &&& (db.kind@ == "postgres"@ || db.kind@ == "mysql"@ || db.kind@ == "sqlite"@)
                &&& (db.kind@ == "postgres"@ ==> spec_postgres_plan(*db, app_dir@, p))
                &&& (db.kind@ == "mysql"@ ==> spec_mysql_plan(*db, app_dir@, p))
                &&& (db.kind@ == "sqlite"@ ==> spec_sqlite_plan(*db, app_dir@, p))
            },
            Err(DbError::Unsupported(k)) => {
                &&& db.kind@ != "postgres"@ && db.kind@ != "mysql"@ && db.kind@ != "sqlite"@
                &&& k == db.kind
            },
        },
{
    proof {
        reveal_strlit("postgres");
        reveal_strlit("mysql");
        reveal_strlit("sqlite");
        assert("postgres"@.len() == 8);
        assert("mysql"@.len() == 5);
        assert("sqlite"@.len() == 6);
    }
    if str_eq(db.kind.as_str(), "postgres") {
        Ok(setup_postgres(db, app_dir))
    } else if str_eq(db.kind.as_str(), "mysql") {
        Ok(setup_mysql(db, app_dir))
    } else if str_eq(db.kind.as_str(), "sqlite") {
        Ok(setup_sqlite(db, app_dir))
    } else {
        Err(DbError::Unsupported(db.kind.clone()))
    }
}

/// An optional string or its default.
fn or_str(o: &Option<String>, d: &str) -> (r: String)
    ensures
        r@ == spec_or_str(*o, d@),
{
    match o {
        Some(s) => s.clone(),
        None => String::from_str(d),
    }
}

/// An optional port or its default.
fn or_port(o: &Option<u16>, d: u16) -> (r: u16)
    ensures
        r == spec_or_port(*o, d),
{
    match o {
        Some(p) => *p,
        None => d,
    }
}

/// `spark-{name}-db`.
fn container_name_for(name: &str) -> (r: String)
    ensures
        r@ == spec_container_name(name@),
{
    let mut out = concat_str("spark-", name);
    out.append("-db");
    out
}

/// `{app_dir}/{preseed}` when the section declares a preseed file.
fn preseed_path(db: &DatabaseSection, app_dir: &str) -> (r: Option<String>)
    ensures
        match r {
            Some(p) => db.preseed matches Some(f) && p@ == spec_preseed_path(app_dir@, f@),
            None => db.preseed is None,
        },
{
    match &db.preseed {
        Some(f) => {
            let mut out = concat_str(app_dir, "/");
            out.append(f.as_str());
            Some(out)
        },
        None => None,
    }
}

/// The fresh-container plan for Postgres.
fn setup_postgres(db: &DatabaseSection, app_dir: &str) -> (p: DbPlan)
    ensures
        spec_postgres_plan(*db, app_dir@, p),
{
    let name = or_str(&db.name, "postgres");
    let user = or_str(&db.user, "postgres");
    let password = or_str(&db.password, "password");
    let container = container_name_for(name.as_str());
    let mut env: Vec<(String, String)> = Vec::new();
    env.push((String::from_str("POSTGRES_DB"), name.clone()));
    env.push((String::from_str("POSTGRES_USER"), user.clone()));
    env.push((String::from_str("POSTGRES_PASSWORD"), password.clone()));
    proof {
        assert(spec_pairs(env@) =~= seq![
            (env@[0].0@, env@[0].1@),
            (env@[1].0@, env@[1].1@),
            (env@[2].0@, env@[2].1@),
        ]);
    }
    let preseed = match preseed_path(db, app_dir) {
        Some(sql_path) => {
            let mut args: Vec<String> = Vec::new();
            args.push(String::from_str("exec"));
            args.push(String::from_str("-i"));
            args.push(container.clone());
            args.push(String::from_str("psql"));
            args.push(String::from_str("-U"));
            args.push(user.clone());
            args.push(String::from_str("-d"));
            args.push(name.clone());
            let e = ExecPlan {
                program: String::from_str("docker"),
                args,
                stdin_path: sql_path,
            };
            proof {
                assert(crate::manifest::spec_strings(e.args@) =~= seq![
                    e.args@[0]@,
                    e.args@[1]@,
                    e.args@[2]@,
                    e.args@[3]@,
                    e.args@[4]@,
                    e.args@[5]@,
                    e.args@[6]@,
                    e.args@[7]@,
                ]);
            }
            Some(e)
        },
        None => None,
    };
    DbPlan::Container {
        container_name: container,
        image: String::from_str("postgres:14-alpine"),
        env,
        host_port: or_port(&db.port, 5432),
        container_port: 5432,
        settle_secs: 5,
        preseed,
    }
}

/// The fresh-container plan for MySQL.
fn setup_mysql(db: &DatabaseSection, app_dir: &str) -> (p: DbPlan)
    ensures
        spec_mysql_plan(*db, app_dir@, p),
{
    let name = or_str(&db.name, "mysql");
    let user = or_str(&db.user, "root");
    let password = or_str(&db.password, "password");
    let container = container_name_for(name.as_str());
    let mut env: Vec<(String, String)> = Vec::new();
    env.push((String::from_str("MYSQL_DATABASE"), name.clone()));
    env.push((String::from_str("MYSQL_USER"), user.clone()));
    env.push((String::from_str("MYSQL_PASSWORD"), password.clone()));
    env.push((String::from_str("MYSQL_ROOT_PASSWORD"), password.clone()));
    proof {
        assert(spec_pairs(env@) =~= seq![
            (env@[0].0@, env@[0].1@),
            (env@[1].0@, env@[1].1@),
            (env@[2].0@, env@[2].1@),
            (env@[3].0@, env@[3].1@),
        ]);
    }
    let preseed = match preseed_path(db, app_dir) {
        Some(sql_path) => {
            let mut args: Vec<String> = Vec::new();
            args.push(String::from_str("exec"));
            args.push(String::from_str("-i"));
            args.push(container.clone());
            args.push(String::from_str("mysql"));
            args.push(String::from_str("-u"));
            args.push(user.clone());
            args.push(concat_str("-p", password.as_str()));
            args.push(name.clone());
            let e = ExecPlan {
                program: String::from_str("docker"),
                args,
                stdin_path: sql_path,
            };
            proof {
                assert(crate::manifest::spec_strings(e.args@) =~= seq![
                    e.args@[0]@,
                    e.args@[1]@,
                    e.args@[2]@,
                    e.args@[3]@,
                    e.args@[4]@,
                    e.args@[5]@,
                    e.args@[6]@,
                    e.args@[7]@,
                ]);
            }
            Some(e)
        },
        None => None,
    };
    DbPlan::Container {
        container_name: container,
        image: String::from_str("mysql:8.0"),
        env,
        host_port: or_port(&db.port, 3306),
        container_port: 3306,
        settle_secs: 10,
        preseed,
    }
}

/// The file plan for SQLite.
fn setup_sqlite(db: &DatabaseSection, app_dir: &str) -> (p: DbPlan)
    ensures
        spec_sqlite_plan(*db, app_dir@, p),
{
    let name = or_str(&db.name, "app.db");
    let mut db_path = concat_str(app_dir, "/");
    db_path.append(name.as_str());
    let preseed = match preseed_path(db, app_dir) {
        Some(sql_path) => {
            let mut args: Vec<String> = Vec::new();
            args.push(db_path.clone());
            let e = ExecPlan {
                program: String::from_str("sqlite3"),
                args,
                stdin_path: sql_path,
            };
            proof {
                assert(crate::manifest::spec_strings(e.args@) =~= seq![e.args@[0]@]);
            }
            Some(e)
        },
        None => None,
    };
    DbPlan::SqliteFile { db_path, preseed }
}

} // verus!
