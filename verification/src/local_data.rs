//! Where the application keeps its own database, and when it migrates it.

use vstd::prelude::*;
use vstd::string::StringExecFns;
use crate::text::push_str;

verus! {

/// The directory of the application under the user's data directory.
pub fn app_dir_name() -> (s: &'static str)
    ensures
        s@ == "pyew"@,
{
    "pyew"
}

/// The file of the application's database in its directory.
pub fn database_file_name() -> (s: &'static str)
    ensures
        s@ == "data.db"@,
{
    "data.db"
}

/// The URL of the database in `db_dir`, opened for reading and writing and
/// created when missing.
pub fn database_url(db_dir: &str) -> (url: String)
    ensures
        url@ == "sqlite://"@ + db_dir@ + "/data.db?mode=rwc"@,
{
    let mut url = String::from_str("sqlite://");
    push_str(&mut url, db_dir);
    push_str(&mut url, "/data.db?mode=rwc");
    url
}

/// What to do about migrations when the application starts.
#[derive(Clone, Copy, Debug, PartialEq, Eq, Structural)]
pub enum MigrationPlan {
    /// The database is new: run every migration.
    CreateNew,
    /// Run this many pending migrations.
    ApplyPending(usize),
    /// Nothing to run.
    UpToDate,
}

/// Every migration runs on a new database; on an existing one, only when
/// some are pending.
pub fn migration_plan(db_exists: bool, pending: usize) -> (p: MigrationPlan)
    ensures
        !db_exists ==> p == MigrationPlan::CreateNew,
        db_exists && pending > 0 ==> p == MigrationPlan::ApplyPending(pending),
        db_exists && pending == 0 ==> p == MigrationPlan::UpToDate,
{
    if !db_exists {
        MigrationPlan::CreateNew
    } else if pending > 0 {
        MigrationPlan::ApplyPending(pending)
    } else {
        MigrationPlan::UpToDate
    }
}

/// The statement that adds the primary workspace, opened, at time `now`
/// (`YYYY-MM-DD HH:MM:SS`), unless a workspace of that name exists.
pub fn primary_workspace_insert_sql(now: &str) -> (s: String)
    ensures
        s@ == "INSERT INTO workspace (id, name, is_opened, last_opened, created_at, updated_at) SELECT x'"@
            + "00000000000040008000000000000001"@ + "', '"@ + "Primary"@ + "', 1, '"@ + now@ + "', '"@
            + now@ + "', '"@ + now@ + "' WHERE NOT EXISTS (SELECT 1 FROM workspace WHERE name = '"@
            + "Primary"@ + "')"@,
{
    let mut s = String::from_str(
        "INSERT INTO workspace (id, name, is_opened, last_opened, created_at, updated_at) SELECT x'",
    );
    push_str(&mut s, "00000000000040008000000000000001");
    push_str(&mut s, "', '");
    push_str(&mut s, "Primary");
    push_str(&mut s, "', 1, '");
    push_str(&mut s, now);
    push_str(&mut s, "', '");
    push_str(&mut s, now);
    push_str(&mut s, "', '");
    push_str(&mut s, now);
    push_str(&mut s, "' WHERE NOT EXISTS (SELECT 1 FROM workspace WHERE name = '");
    push_str(&mut s, "Primary");
    push_str(&mut s, "')");
    s
}

} // verus!
