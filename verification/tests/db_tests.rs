use rivus::db_conn::{ConnManager, OpenPlan};
use rivus::db_pool::{
    parse_engine, pool_settings, DbConnection, DbPool, DbPoolInner, Engine, PoolSettings, Route,
    TransactionContext,
};
use rivus::error::DbError;
use rivus::models::db_config::DatabaseOptions;

fn config_message(e: DbError) -> String {
    match e {
        DbError::Config(m) => m,
        other => panic!("configuration error expected, got {:?}", other),
    }
}

fn tx_message(e: DbError) -> String {
    match e {
        DbError::TransactionState(m) => m,
        other => panic!("transaction state error expected, got {:?}", other),
    }
}

#[test]
fn options_have_defaults_and_builders() {
    let o = DatabaseOptions::new("sqlite".to_string(), "sqlite::memory:".to_string());
    assert_eq!(o.kind, "sqlite");
    assert_eq!(o.url, "sqlite::memory:");
    assert_eq!(o.max_open_conns, 10);
    assert_eq!(o.max_idle_conns, 2);
    assert_eq!(o.max_lifetime, 3060);
    assert_eq!(o.timeout, 10);
    let o = o.max_open_conns(20).max_idle_conns(5).max_lifetime(60).timeout(3);
    assert_eq!(o.kind, "sqlite");
    assert_eq!(o.url, "sqlite::memory:");
    assert_eq!(o.max_open_conns, 20);
    assert_eq!(o.max_idle_conns, 5);
    assert_eq!(o.max_lifetime, 60);
    assert_eq!(o.timeout, 3);
}

#[test]
fn kinds_name_engines() {
    assert_eq!(parse_engine("mysql"), Some(Engine::MySql));
    assert_eq!(parse_engine("sqlite"), Some(Engine::Sqlite));
    assert_eq!(parse_engine("postgres"), Some(Engine::Postgres));
    assert_eq!(parse_engine("MySQL"), None);
    assert_eq!(parse_engine("oracle"), None);
    assert_eq!(parse_engine(""), None);
    assert_eq!(DbPool::new("a", "mysql", 4).inner, DbPoolInner::MySql(4));
    assert_eq!(DbPool::new("a", "sqlite", 5).inner, DbPoolInner::Sqlite(5));
    assert_eq!(DbPool::new("a", "postgres", 6).inner, DbPoolInner::Postgres(6));
    assert_eq!(DbPool::new("a", "oracle", 7).inner, DbPoolInner::Other("oracle".to_string()));
    assert_eq!(DbPool::new("a", "oracle", 7).name, "a");
    assert_eq!(DbPoolInner::Other("x".to_string()).engine(), None);
    assert_eq!(DbPoolInner::Sqlite(1).engine(), Some(Engine::Sqlite));
    assert_eq!(DbConnection::Postgres(1).engine(), Engine::Postgres);
}

#[test]
fn settings_follow_the_options() {
    let o = DatabaseOptions::new("mysql".to_string(), "mysql://h/db".to_string())
        .max_open_conns(7)
        .max_idle_conns(3)
        .max_lifetime(100)
        .timeout(9);
    assert_eq!(
        pool_settings(Engine::MySql, &o),
        PoolSettings {
            engine: Engine::MySql,
            url: "mysql://h/db".to_string(),
            max_connections: 7,
            min_connections: 3,
            acquire_timeout_secs: 9,
            max_lifetime_secs: 100,
            create_if_missing: false,
        }
    );
    assert!(pool_settings(Engine::Sqlite, &o).create_if_missing);
    assert!(!pool_settings(Engine::Postgres, &o).create_if_missing);
    // the counts are cut to 32 bits
    let o = o.max_open_conns((1u64 << 32) + 5).max_idle_conns(u64::MAX);
    let s = pool_settings(Engine::MySql, &o);
    assert_eq!(s.max_connections, 5);
    assert_eq!(s.min_connections, u32::MAX);
}

#[test]
fn registry_opens_finds_and_closes() {
    let mut m = ConnManager::new();
    assert_eq!(m.len(), 0);
    assert_eq!(m.by("main"), None);
    assert_eq!(m.get(), None);
    assert!(m.open("main", "sqlite", 1).is_ok());
    assert!(m.open("default", "mysql", 2).is_ok());
    assert!(m.open("odd", "oracle", 3).is_ok());
    assert_eq!(m.len(), 3);
    assert_eq!(m.by("main"), Some(DbPool { name: "main".to_string(), inner: DbPoolInner::Sqlite(1) }));
    assert_eq!(
        m.get(),
        Some(DbPool { name: "default".to_string(), inner: DbPoolInner::MySql(2) })
    );
    assert_eq!(
        m.by("odd"),
        Some(DbPool { name: "odd".to_string(), inner: DbPoolInner::Other("oracle".to_string()) })
    );
    assert!(m.close("main"));
    assert_eq!(m.by("main"), None);
    assert_eq!(m.len(), 2);
    assert!(m.get().is_some());
}

#[test]
fn closing_what_is_not_open_answers_false() {
    let mut m = ConnManager::new();
    // never opened
    assert!(!m.close("main"));
    m.open("main", "sqlite", 1).unwrap();
    assert!(m.close("main"));
    // closed already
    assert!(!m.close("main"));
    assert!(!m.close(""));
    assert_eq!(m.len(), 0);
}

#[test]
fn a_name_is_opened_once() {
    let mut m = ConnManager::new();
    m.open("main", "sqlite", 1).unwrap();
    let e = m.open("main", "mysql", 2).unwrap_err();
    assert_eq!(config_message(e), "A database is already open under this name");
    // the first handle stays
    assert_eq!(m.by("main").unwrap().inner, DbPoolInner::Sqlite(1));
    assert_eq!(m.len(), 1);
    // after closing, the name is free again
    assert!(m.close("main"));
    m.open("main", "mysql", 2).unwrap();
    assert_eq!(m.by("main").unwrap().inner, DbPoolInner::MySql(2));
}

#[test]
fn opening_is_planned_before_anything_is_connected() {
    let mut m = ConnManager::new();
    let o = DatabaseOptions::new("postgres".to_string(), "postgres://h/db".to_string());
    match m.plan_open("main", "postgres", &o).unwrap() {
        OpenPlan::Connect(s) => {
            assert_eq!(s.engine, Engine::Postgres);
            assert_eq!(s.url, "postgres://h/db");
            assert_eq!(s.max_connections, 10);
            assert_eq!(s.min_connections, 2);
            assert_eq!(s.acquire_timeout_secs, 10);
            assert_eq!(s.max_lifetime_secs, 3060);
        }
        other => panic!("a pool to connect expected, got {:?}", other),
    }
    assert_eq!(m.plan_open("main", "oracle", &o).unwrap(), OpenPlan::Unrecognised);
    let empty = DatabaseOptions::new("sqlite".to_string(), String::new());
    match m.plan_open("main", "sqlite", &empty).unwrap() {
        OpenPlan::Connect(s) => assert_eq!(s.url, ""),
        other => panic!("a pool to connect expected, got {:?}", other),
    }
    m.open("main", "postgres", 1).unwrap();
    let e = m.plan_open("main", "postgres", &o).unwrap_err();
    assert_eq!(config_message(e), "A database is already open under this name");
}

#[test]
fn transaction_runs_through_its_lifecycle() {
    let pool = DbPool::new("main", "sqlite", 1);
    let mut ctx = TransactionContext::enter();
    assert!(ctx.active());
    assert_eq!(ctx.len(), 0);
    assert_eq!(ctx.transaction("main"), None);
    assert_eq!(pool.execute_raw(&ctx), Route::Pool(Engine::Sqlite, 1));

    assert_eq!(pool.begin_transaction(&ctx).unwrap(), Engine::Sqlite);
    pool.start_transaction(&mut ctx, DbConnection::Sqlite(11)).unwrap();
    assert_eq!(ctx.len(), 1);
    assert_eq!(ctx.transaction("main"), Some(DbConnection::Sqlite(11)));
    // every call now finds the transaction
    assert_eq!(pool.execute_raw(&ctx), Route::Transaction(DbConnection::Sqlite(11)));
    assert_eq!(pool.get(&ctx).unwrap(), Route::Transaction(DbConnection::Sqlite(11)));

    assert_eq!(pool.commit_transaction(&mut ctx).unwrap(), DbConnection::Sqlite(11));
    assert_eq!(ctx.transaction("main"), None);
    assert_eq!(pool.execute_raw(&ctx), Route::Pool(Engine::Sqlite, 1));

    pool.start_transaction(&mut ctx, DbConnection::Sqlite(12)).unwrap();
    assert_eq!(pool.rollback_transaction(&mut ctx).unwrap(), DbConnection::Sqlite(12));
    assert_eq!(ctx.len(), 0);
}

#[test]
fn a_second_transaction_under_a_name_is_refused() {
    let pool = DbPool::new("main", "mysql", 1);
    let mut ctx = TransactionContext::enter();
    pool.start_transaction(&mut ctx, DbConnection::MySql(1)).unwrap();
    let e = pool.begin_transaction(&ctx).unwrap_err();
    assert_eq!(tx_message(e), "A transaction is already active for this database");
    let e = pool.start_transaction(&mut ctx, DbConnection::MySql(2)).unwrap_err();
    assert_eq!(tx_message(e), "A transaction is already active for this database");
    // the first stays in flight on its own connection
    assert_eq!(ctx.transaction("main"), Some(DbConnection::MySql(1)));
    // another handle of that name is refused as well
    let twin = DbPool::new("main", "mysql", 9);
    assert!(twin.start_transaction(&mut ctx, DbConnection::MySql(3)).is_err());
    // another name is free
    let other = DbPool::new("audit", "mysql", 2);
    other.start_transaction(&mut ctx, DbConnection::MySql(4)).unwrap();
    assert_eq!(ctx.len(), 2);
    assert_eq!(pool.commit_transaction(&mut ctx).unwrap(), DbConnection::MySql(1));
    assert_eq!(ctx.transaction("audit"), Some(DbConnection::MySql(4)));
    pool.start_transaction(&mut ctx, DbConnection::MySql(5)).unwrap();
}

#[test]
fn nothing_starts_outside_a_scope() {
    let pool = DbPool::new("main", "postgres", 1);
    let mut ctx = TransactionContext::detached();
    assert!(!ctx.active());
    let e = pool.begin_transaction(&ctx).unwrap_err();
    assert_eq!(
        tx_message(e),
        "Transaction context not found. Ensure you are within a transaction scope."
    );
    let e = pool.start_transaction(&mut ctx, DbConnection::Postgres(1)).unwrap_err();
    assert_eq!(
        tx_message(e),
        "Transaction context not found. Ensure you are within a transaction scope."
    );
    assert_eq!(ctx.len(), 0);
    assert_eq!(tx_message(pool.commit_transaction(&mut ctx).unwrap_err()), "Transaction context not found");
    assert_eq!(tx_message(pool.rollback_transaction(&mut ctx).unwrap_err()), "Transaction context not found");
    // calls outside a scope fall through to the pool
    assert_eq!(pool.execute_raw(&ctx), Route::Pool(Engine::Postgres, 1));
}

#[test]
fn resolving_without_a_transaction_fails() {
    let pool = DbPool::new("main", "postgres", 1);
    let mut ctx = TransactionContext::enter();
    assert_eq!(tx_message(pool.commit_transaction(&mut ctx).unwrap_err()), "No active transaction to commit");
    assert_eq!(
        tx_message(pool.rollback_transaction(&mut ctx).unwrap_err()),
        "No active transaction to rollback"
    );
    pool.start_transaction(&mut ctx, DbConnection::Postgres(1)).unwrap();
    pool.commit_transaction(&mut ctx).unwrap();
    // the entry is gone after the first commit
    assert!(pool.commit_transaction(&mut ctx).is_err());
    assert!(pool.rollback_transaction(&mut ctx).is_err());
}

#[test]
fn an_unrecognised_engine_has_no_transactions_but_passes_raw_statements_through() {
    let pool = DbPool::new("odd", "oracle", 1);
    let mut ctx = TransactionContext::enter();
    let e = pool.begin_transaction(&ctx).unwrap_err();
    assert_eq!(config_message(e), "Transactions not supported for Other DB types");
    let e = pool.start_transaction(&mut ctx, DbConnection::MySql(1)).unwrap_err();
    assert_eq!(config_message(e), "Transactions not supported for Other DB types");
    // the kind is judged before the scope
    let detached = TransactionContext::detached();
    assert_eq!(
        config_message(pool.begin_transaction(&detached).unwrap_err()),
        "Transactions not supported for Other DB types"
    );
    assert_eq!(pool.execute_raw(&ctx), Route::PassThrough);
    assert_eq!(config_message(pool.get(&ctx).unwrap_err()), "Unsupported database type");
}

#[test]
fn a_connection_of_another_engine_is_refused() {
    let pool = DbPool::new("main", "sqlite", 1);
    let mut ctx = TransactionContext::enter();
    let e = pool.start_transaction(&mut ctx, DbConnection::MySql(1)).unwrap_err();
    assert_eq!(config_message(e), "事务类型不匹配 (Transaction type mismatch)");
    assert_eq!(ctx.len(), 0);
}

#[test]
fn scopes_do_not_see_each_other() {
    // five units of work under one logical name, each on its own connection;
    // the odd ones commit, the even ones roll back
    let pool = DbPool::new("main", "sqlite", 1);
    let mut scopes: Vec<TransactionContext> = (0..5).map(|_| TransactionContext::enter()).collect();
    for (i, ctx) in scopes.iter_mut().enumerate() {
        pool.start_transaction(ctx, DbConnection::Sqlite(100 + i as u64)).unwrap();
    }
    let mut committed = Vec::new();
    let mut rolled_back = Vec::new();
    for (i, ctx) in scopes.iter_mut().enumerate() {
        if i % 2 == 1 {
            committed.push(pool.commit_transaction(ctx).unwrap());
        } else {
            rolled_back.push(pool.rollback_transaction(ctx).unwrap());
        }
        // the scopes behind still hold their own transaction
        assert_eq!(ctx.transaction("main"), None);
    }
    assert_eq!(committed, vec![DbConnection::Sqlite(101), DbConnection::Sqlite(103)]);
    assert_eq!(
        rolled_back,
        vec![DbConnection::Sqlite(100), DbConnection::Sqlite(102), DbConnection::Sqlite(104)]
    );
    let mut a = TransactionContext::enter();
    let b = TransactionContext::enter();
    pool.start_transaction(&mut a, DbConnection::Sqlite(1)).unwrap();
    assert_eq!(b.transaction("main"), None);
    assert_eq!(pool.execute_raw(&b), Route::Pool(Engine::Sqlite, 1));
    assert_eq!(pool.execute_raw(&a), Route::Transaction(DbConnection::Sqlite(1)));
}

#[test]
fn errors_say_what_they_are() {
    assert_eq!(DbError::config("bad url").to_string(), "Configuration error: bad url");
    assert_eq!(
        DbError::transaction_state("none").to_string(),
        "Transaction state error: none"
    );
    assert_eq!(
        DbError::deserialization("missing".to_string()).to_string(),
        "反序列化错误 (Deserialization error): missing"
    );
    let e = DbError::from(sqlx::Error::RowNotFound);
    assert!(matches!(e, DbError::Sqlx(sqlx::Error::RowNotFound)));
    let text = e.to_string();
    assert!(text.starts_with("Database error: "));
    assert!(text.len() > "Database error: ".len());
    assert!(matches!(DbError::from("x".to_string()), DbError::Config(m) if m == "x"));
    assert!(matches!(DbError::from("y"), DbError::Config(m) if m == "y"));
}

#[test]
fn leaving_a_scope_hands_back_what_was_not_resolved() {
    let main = DbPool::new("main", "sqlite", 1);
    let audit = DbPool::new("audit", "mysql", 2);
    let done = DbPool::new("done", "postgres", 3);
    let mut ctx = TransactionContext::enter();
    main.start_transaction(&mut ctx, DbConnection::Sqlite(11)).unwrap();
    audit.start_transaction(&mut ctx, DbConnection::MySql(12)).unwrap();
    done.start_transaction(&mut ctx, DbConnection::Postgres(13)).unwrap();
    done.commit_transaction(&mut ctx).unwrap();
    let mut left = ctx.leave();
    left.sort_by(|a, b| a.0.cmp(&b.0));
    assert_eq!(
        left,
        vec![
            ("audit".to_string(), DbConnection::MySql(12)),
            ("main".to_string(), DbConnection::Sqlite(11)),
        ]
    );
    assert_eq!(TransactionContext::enter().leave(), vec![]);
    assert_eq!(TransactionContext::detached().leave(), vec![]);
}

#[test]
fn every_structured_operation_is_routed_alike() {
    let pool = DbPool::new("main", "mysql", 4);
    let mut ctx = TransactionContext::enter();
    for r in [pool.get(&ctx), pool.list(&ctx), pool.create(&ctx), pool.batch_create(&ctx), pool.update(&ctx), pool.delete(&ctx)] {
        assert_eq!(r.unwrap(), Route::Pool(Engine::MySql, 4));
    }
    pool.start_transaction(&mut ctx, DbConnection::MySql(9)).unwrap();
    for r in [pool.get(&ctx), pool.list(&ctx), pool.create(&ctx), pool.batch_create(&ctx), pool.update(&ctx), pool.delete(&ctx)] {
        assert_eq!(r.unwrap(), Route::Transaction(DbConnection::MySql(9)));
    }
    let odd = DbPool::new("odd", "oracle", 4);
    for r in [odd.get(&ctx), odd.list(&ctx), odd.create(&ctx), odd.batch_create(&ctx), odd.update(&ctx), odd.delete(&ctx)] {
        assert_eq!(config_message(r.unwrap_err()), "Unsupported database type");
    }
}
