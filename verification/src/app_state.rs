//! Application state: the kinds of database, and the open connection pools
//! by connection id.

use std::collections::HashMap;
use vstd::prelude::*;
use vstd::string::StringExecFns;

verus! {

/// The kinds of database the client talks to.
#[derive(Clone, Copy, Debug, PartialEq, Eq, Structural)]
pub enum DbType {
    Postgres,
    MySQL,
    SQLite,
}

/// The name under which a kind of database is known (`"postgres"`,
/// `"mysql"` or `"sqlite"`).
pub open spec fn db_type_name(t: DbType) -> Seq<char> {
    match t {
        DbType::Postgres => "postgres"@,
        DbType::MySQL => "mysql"@,
        DbType::SQLite => "sqlite"@,
    }
}

impl DbType {
    /// The name under which this kind of database is known.
    pub fn name(&self) -> (s: &'static str)
        ensures
            s@ == db_type_name(*self),
    {
        match self {
            DbType::Postgres => "postgres",
            DbType::MySQL => "mysql",
            DbType::SQLite => "sqlite",
        }
    }
}

/// An open connection pool, with the connection it belongs to.
pub struct ConnectionPool<P> {
    pub connection_id: i64,
    pub name: String,
    pub db_type: DbType,
    pub pool: P,
}

impl<P> ConnectionPool<P> {
    /// A pool of the connection `connection_id`.
    pub fn new(connection_id: i64, name: String, db_type: DbType, pool: P) -> (p: Self)
        ensures
            p.connection_id == connection_id,
            p.name == name,
            p.db_type == db_type,
            p.pool == pool,
    {
        ConnectionPool { connection_id, name, db_type, pool }
    }
}

/// The open connection pools, by connection id.
pub struct ConnectionPools<P> {
    pools: HashMap<i64, ConnectionPool<P>>,
}

impl<P> View for ConnectionPools<P> {
    type V = Map<i64, ConnectionPool<P>>;

    closed spec fn view(&self) -> Map<i64, ConnectionPool<P>> {
        self.pools@
    }
}

impl<P> ConnectionPools<P> {
    /// No open pool.
    pub fn new() -> (r: Self)
        ensures
            r@ == Map::<i64, ConnectionPool<P>>::empty(),
    {
        ConnectionPools { pools: HashMap::new() }
    }

    /// Keeps `pool` under its connection id, in place of any pool kept there.
    pub fn add_connection_pool(&mut self, pool: ConnectionPool<P>)
        ensures
            final(self)@ == old(self)@.insert(pool.connection_id, pool),
    {
        broadcast use vstd::std_specs::hash::group_hash_axioms;
        let id = pool.connection_id;
        self.pools.insert(id, pool);
    }

    /// Drops the pool of `connection_id`, if any.
    pub fn remove_connection_pool(&mut self, connection_id: i64)
        ensures
            final(self)@ == old(self)@.remove(connection_id),
    {
        broadcast use vstd::std_specs::hash::group_hash_axioms;
        self.pools.remove(&connection_id);
    }

    /// The pool of `connection_id`, if one is open.
    pub fn get_connection_pool(&self, connection_id: i64) -> (r: Option<&ConnectionPool<P>>)
        ensures
            r is Some <==> self@.dom().contains(connection_id),
            r matches Some(p) ==> *p == self@[connection_id],
    {
        broadcast use vstd::std_specs::hash::group_hash_axioms;
        self.pools.get(&connection_id)
    }
}

/// The application's own database, or the message given while it is not
/// open yet.
pub fn app_db_connection<D>(db: Option<D>) -> (r: Result<D, String>)
    ensures
        match db {
            Some(d) => r == Ok::<D, String>(d),
            None => r matches Err(m) && m@ == "App DB not initialized yet"@,
        },
{
    match db {
        Some(d) => Ok(d),
        None => Err(String::from_str("App DB not initialized yet")),
    }
}

} // verus!
