use pyew::app_state::{app_db_connection, ConnectionPool, ConnectionPools, DbType};

#[test]
fn pools_by_connection_id() {
    let mut pools: ConnectionPools<&str> = ConnectionPools::new();
    assert!(pools.get_connection_pool(1).is_none());
    pools.add_connection_pool(ConnectionPool::new(1, "one".into(), DbType::SQLite, "p1"));
    pools.add_connection_pool(ConnectionPool::new(-2, "two".into(), DbType::MySQL, "p2"));
    assert_eq!(pools.get_connection_pool(1).unwrap().pool, "p1");
    assert_eq!(pools.get_connection_pool(-2).unwrap().name, "two");
    pools.add_connection_pool(ConnectionPool::new(1, "uno".into(), DbType::Postgres, "p3"));
    let p = pools.get_connection_pool(1).unwrap();
    assert_eq!((p.name.as_str(), p.db_type, p.pool), ("uno", DbType::Postgres, "p3"));
    pools.remove_connection_pool(1);
    assert!(pools.get_connection_pool(1).is_none());
    pools.remove_connection_pool(99);
    assert!(pools.get_connection_pool(-2).is_some());
}

#[test]
fn db_type_names() {
    assert_eq!(DbType::Postgres.name(), "postgres");
    assert_eq!(DbType::MySQL.name(), "mysql");
    assert_eq!(DbType::SQLite.name(), "sqlite");
}

#[test]
fn app_db_before_and_after_init() {
    assert_eq!(app_db_connection::<u8>(None), Err("App DB not initialized yet".to_string()));
    assert_eq!(app_db_connection(Some(3u8)), Ok(3));
}
