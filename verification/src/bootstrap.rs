//! Startup provisioning decisions. When the connection string names no
//! database, the service creates (or reuses) one under a fixed
//! well-known name; either way it then ensures the `users` table
//! exists. The statements are `IF NOT EXISTS`-shaped, so running the
//! whole step twice is a no-op the second time.

use vstd::prelude::*;

verus! {

/// A `dbname=` marker stands at position `i`, letter case ignored as
/// the backend ignores it.
pub open spec fn matches_dbname_at(s: Seq<char>, i: int) -> bool {
    &&& (s[i] == 'd' || s[i] == 'D')
    &&& (s[i + 1] == 'b' || s[i + 1] == 'B')
    &&& (s[i + 2] == 'n' || s[i + 2] == 'N')
    &&& (s[i + 3] == 'a' || s[i + 3] == 'A')
    &&& (s[i + 4] == 'm' || s[i + 4] == 'M')
    &&& (s[i + 5] == 'e' || s[i + 5] == 'E')
    &&& s[i + 6] == '='
}

/// The connection string names a database somewhere.
pub open spec fn spec_names_database(s: Seq<char>) -> bool {
    exists|i: int| 0 <= i && i + 7 <= s.len() && matches_dbname_at(s, i)
}

fn dbname_marker_at(conn: &str, i: usize) -> (r: bool)
    requires
        i + 7 <= conn@.len(),
        conn@.len() <= usize::MAX,
    ensures
        r == matches_dbname_at(conn@, i as int),
{
    let c0 = conn.get_char(i);
    let c1 = conn.get_char(i + 1);
    let c2 = conn.get_char(i + 2);
    let c3 = conn.get_char(i + 3);
    let c4 = conn.get_char(i + 4);
    let c5 = conn.get_char(i + 5);
    let c6 = conn.get_char(i + 6);
    (c0 == 'd' || c0 == 'D') && (c1 == 'b' || c1 == 'B') && (c2 == 'n' || c2 == 'N') && (c3 == 'a'
        || c3 == 'A') && (c4 == 'm' || c4 == 'M') && (c5 == 'e' || c5 == 'E') && c6 == '='
}

/// Whether the connection string names a database.
pub fn names_database(conn: &str) -> (r: bool)
    ensures
        r == spec_names_database(conn@),
{
    let n = conn.unicode_len();
    if n < 7 {
        return false;
    }
    let mut i: usize = 0;
    while i <= n - 7
        invariant
            n == conn@.len(),
            7 <= n,
            i <= n - 6,
            forall|j: int| 0 <= j < i ==> !#[trigger] matches_dbname_at(conn@, j),
        decreases n - i,
    {
        if dbname_marker_at(conn, i) {
            return true;
        }
        i = i + 1;
    }
    false
}

/// What startup must do about the database.
#[derive(Clone, Copy, Debug, PartialEq, Eq, Structural)]
pub enum ProvisioningPlan {
    /// No database was named: create (or reuse) the well-known one and
    /// connect to it.
    CreateDefaultDatabase,
    /// The caller named a database: connect to it as given.
    UseNamedDatabase,
}

/// The provisioning decision, made once at startup.
pub fn provisioning_plan(conn: &str) -> (p: ProvisioningPlan)
    ensures
        p is CreateDefaultDatabase <==> !spec_names_database(conn@),
{
    if names_database(conn) {
        ProvisioningPlan::UseNamedDatabase
    } else {
        ProvisioningPlan::CreateDefaultDatabase
    }
}

/// The fixed well-known database name used when none is supplied.
pub fn default_database_name() -> (s: &'static str)
    ensures
        s@ == "highload_alexander_bubnov"@,
{
    "highload_alexander_bubnov"
}

/// The connection string to use after creating the default database:
/// the given one with the well-known name appended.
pub fn conn_string_with_default_database(conn: &str) -> (r: String)
    ensures
        r@ == conn@ + " dbname="@ + "highload_alexander_bubnov"@,
{
    let mut s = conn.to_owned();
    s.append(" dbname=");
    s.append("highload_alexander_bubnov");
    s
}

/// The statement that creates the well-known database.
pub fn create_database_statement() -> (s: String)
    ensures
        s@ == "create database "@ + "highload_alexander_bubnov"@,
{
    let mut s = "create database ".to_owned();
    s.append("highload_alexander_bubnov");
    s
}

/// The query that decides whether the well-known database exists.
pub fn database_exists_query() -> (s: String)
    ensures
        s@ == "SELECT datname FROM pg_catalog.pg_database WHERE datname = '"@
            + "highload_alexander_bubnov"@ + "'"@,
{
    let mut s = "SELECT datname FROM pg_catalog.pg_database WHERE datname = '".to_owned();
    s.append("highload_alexander_bubnov");
    s.append("'");
    s
}

/// The idempotent schema step: the `users` table with the columns the
/// record store relies on, `id` as primary key.
pub fn users_table_ddl() -> (s: &'static str)
    ensures
        s@ == (
        "create table if not exists users (id text PRIMARY KEY, first_name text, second_name text, birthdate text, biography text, city text, password_hash text, token text)")@,
{
    "create table if not exists users (id text PRIMARY KEY, first_name text, second_name text, birthdate text, biography text, city text, password_hash text, token text)"
}

} // verus!
