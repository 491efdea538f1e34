//! What depends on the kind of database behind the pool.

use crate::text::has_prefix;
use vstd::prelude::*;
use vstd::string::*;

verus! {

#[derive(Debug, Clone, Copy, PartialEq, Eq, Structural)]
pub enum DbKind {
    Sqlite,
    Postgres,
}

/// The kind of database that a connection URL names: Postgres if the URL
/// begins with "postgres", SQLite otherwise.
pub open spec fn kind_of_url(database_url: Seq<char>) -> DbKind {
    if "postgres"@.is_prefix_of(database_url) {
        DbKind::Postgres
    } else {
        DbKind::Sqlite
    }
}

/// The column type of an auto-numbered integer key.
pub open spec fn serial_type(kind: DbKind) -> Seq<char> {
    match kind {
        DbKind::Postgres => "SERIAL"@,
        DbKind::Sqlite => "INTEGER"@,
    }
}

/// What follows `PRIMARY KEY` on such a column.
pub open spec fn serial_suffix(kind: DbKind) -> Seq<char> {
    match kind {
        DbKind::Postgres => ""@,
        DbKind::Sqlite => "AUTOINCREMENT"@,
    }
}

/// The statement that inserts a genre unless its name is there already.
pub open spec fn seed_genre_sql(kind: DbKind) -> Seq<char> {
    match kind {
        DbKind::Sqlite => "INSERT OR IGNORE INTO genres (name) VALUES (?)"@,
        DbKind::Postgres => "INSERT INTO genres (name) VALUES (?) ON CONFLICT (name) DO NOTHING"@,
    }
}

impl DbKind {
    pub fn of_url(database_url: &str) -> (kind: DbKind)
        ensures
            kind == kind_of_url(database_url@),
    {
        if has_prefix(database_url, "postgres") {
            DbKind::Postgres
        } else {
            DbKind::Sqlite
        }
    }

    pub fn id_type(self) -> (sql: &'static str)
        ensures
            sql@ == serial_type(self),
    {
        match self {
            DbKind::Postgres => "SERIAL",
            DbKind::Sqlite => "INTEGER",
        }
    }

    pub fn id_suffix(self) -> (sql: &'static str)
        ensures
            sql@ == serial_suffix(self),
    {
        match self {
            DbKind::Postgres => "",
            DbKind::Sqlite => "AUTOINCREMENT",
        }
    }

    pub fn seed_genre_statement(self) -> (sql: &'static str)
        ensures
            sql@ == seed_genre_sql(self),
    {
        match self {
            DbKind::Sqlite => "INSERT OR IGNORE INTO genres (name) VALUES (?)",
            DbKind::Postgres => "INSERT INTO genres (name) VALUES (?) ON CONFLICT (name) DO NOTHING",
        }
    }
}

} // verus!
