use rivus::db_pool::{DbConnection, DbPool, Engine, Route, TransactionContext};
use rivus::error::DbError;
use rivus::orm::crud_traits::CrudRepository;
use rivus::orm::json::{JsonNumber, JsonValue};
use rivus::orm::other_impl::OtherRepository;
use rivus::orm::sqlx_impl::{
    batch_step, bind_all, bind_arg, created, fetched, list_step, listed, execute_create_generic, execute_get_generic,
    execute_list_generic, execute_update_generic, get_connection, get_pool, BoundArg, Fetch,
    SqlxRepository, Statement,
};

fn config_message<T: std::fmt::Debug>(r: Result<T, DbError>) -> String {
    match r {
        Err(DbError::Config(m)) => m,
        other => panic!("configuration error expected, got {:?}", other),
    }
}

fn num(i: i64) -> JsonValue {
    JsonValue::Number(JsonNumber { as_i64: Some(i), as_f64: Some((i as f64).to_bits()), text: i.to_string() })
}

#[test]
fn arguments_are_bound_by_kind() {
    for e in [Engine::MySql, Engine::Sqlite, Engine::Postgres] {
        assert_eq!(bind_arg(e, JsonValue::Null), BoundArg::Null);
        assert_eq!(bind_arg(e, JsonValue::Bool(false)), BoundArg::Bool(false));
        assert_eq!(bind_arg(e, num(42)), BoundArg::I64(42));
        assert_eq!(bind_arg(e, JsonValue::String("tom".to_string())), BoundArg::Text("tom".to_string()));
        // a number that is no 64-bit integer is bound as a float
        let big = JsonValue::Number(JsonNumber {
            as_i64: None,
            as_f64: Some(1.8446744073709552e19f64.to_bits()),
            text: "18446744073709551615".to_string(),
        });
        assert_eq!(bind_arg(e, big), BoundArg::F64(1.8446744073709552e19f64.to_bits()));
        let half = JsonValue::Number(JsonNumber {
            as_i64: None,
            as_f64: Some(0.5f64.to_bits()),
            text: "0.5".to_string(),
        });
        assert_eq!(bind_arg(e, half), BoundArg::F64(0.5f64.to_bits()));
        // and one that is neither as its text
        let odd = JsonValue::Number(JsonNumber { as_i64: None, as_f64: None, text: "1e999".to_string() });
        assert_eq!(bind_arg(e, odd), BoundArg::Text("1e999".to_string()));
    }
}

#[test]
fn structured_arguments_are_text_on_sqlite_only() {
    let arr = || JsonValue::Array("[1,2]".to_string());
    let obj = || JsonValue::Object("{\"a\":1}".to_string());
    assert_eq!(bind_arg(Engine::MySql, arr()), BoundArg::Json("[1,2]".to_string()));
    assert_eq!(bind_arg(Engine::Postgres, arr()), BoundArg::Json("[1,2]".to_string()));
    assert_eq!(bind_arg(Engine::Sqlite, arr()), BoundArg::Text("[1,2]".to_string()));
    assert_eq!(bind_arg(Engine::MySql, obj()), BoundArg::Json("{\"a\":1}".to_string()));
    assert_eq!(bind_arg(Engine::Postgres, obj()), BoundArg::Json("{\"a\":1}".to_string()));
    assert_eq!(bind_arg(Engine::Sqlite, obj()), BoundArg::Text("{\"a\":1}".to_string()));
}

#[test]
fn arguments_keep_their_order() {
    let args = vec![num(3), JsonValue::Null, JsonValue::String("x".to_string()), num(1)];
    assert_eq!(
        bind_all(Engine::Postgres, args),
        vec![BoundArg::I64(3), BoundArg::Null, BoundArg::Text("x".to_string()), BoundArg::I64(1)]
    );
    assert_eq!(bind_all(Engine::MySql, vec![]), vec![]);
}

#[test]
fn pool_and_connection_are_type_checked() {
    let pool = DbPool::new("main", "sqlite", 7);
    assert_eq!(get_pool(Engine::Sqlite, &pool).unwrap(), 7);
    assert_eq!(config_message(get_pool(Engine::MySql, &pool)), "连接池类型不匹配 (Pool type mismatch)");
    assert_eq!(config_message(get_pool(Engine::Postgres, &pool)), "连接池类型不匹配 (Pool type mismatch)");
    let other = DbPool::new("odd", "oracle", 7);
    assert_eq!(config_message(get_pool(Engine::Sqlite, &other)), "连接池类型不匹配 (Pool type mismatch)");
    assert_eq!(get_connection(Engine::MySql, &DbConnection::MySql(3)).unwrap(), 3);
    assert_eq!(
        config_message(get_connection(Engine::MySql, &DbConnection::Postgres(3))),
        "事务类型不匹配 (Transaction type mismatch)"
    );
}

#[test]
fn statements_run_on_the_pool_outside_a_transaction() {
    let pool = DbPool::new("main", "postgres", 7);
    let ctx = TransactionContext::detached();
    let st = SqlxRepository.get(&pool, &ctx, "select * from t where id = $1", vec![num(5)]).unwrap();
    assert_eq!(
        st,
        Statement {
            engine: Engine::Postgres,
            route: Route::Pool(Engine::Postgres, 7),
            sql: "select * from t where id = $1".to_string(),
            binds: vec![BoundArg::I64(5)],
            fetch: Fetch::Optional,
        }
    );
    assert_eq!(SqlxRepository.list(&pool, &ctx, "s", vec![]).unwrap().fetch, Fetch::All);
    assert_eq!(SqlxRepository.create(&pool, &ctx, "s", vec![]).unwrap().fetch, Fetch::Optional);
    assert_eq!(SqlxRepository.update(&pool, &ctx, "s", vec![]).unwrap().fetch, Fetch::Affected);
    assert_eq!(SqlxRepository.delete(&pool, &ctx, "s", vec![]).unwrap().fetch, Fetch::Affected);
}

#[test]
fn statements_run_on_the_transaction_in_flight() {
    let pool = DbPool::new("main", "mysql", 7);
    let mut ctx = TransactionContext::enter();
    pool.start_transaction(&mut ctx, DbConnection::MySql(31)).unwrap();
    for st in [
        SqlxRepository.get(&pool, &ctx, "s", vec![]).unwrap(),
        SqlxRepository.list(&pool, &ctx, "s", vec![]).unwrap(),
        SqlxRepository.create(&pool, &ctx, "s", vec![]).unwrap(),
        SqlxRepository.update(&pool, &ctx, "s", vec![]).unwrap(),
        SqlxRepository.delete(&pool, &ctx, "s", vec![]).unwrap(),
    ] {
        assert_eq!(st.route, Route::Transaction(DbConnection::MySql(31)));
        assert_eq!(st.engine, Engine::MySql);
    }
    // a transaction under another name is not this handle's
    let other = DbPool::new("audit", "mysql", 8);
    assert_eq!(
        SqlxRepository.get(&other, &ctx, "s", vec![]).unwrap().route,
        Route::Pool(Engine::MySql, 8)
    );
    pool.commit_transaction(&mut ctx).unwrap();
    assert_eq!(
        SqlxRepository.get(&pool, &ctx, "s", vec![]).unwrap().route,
        Route::Pool(Engine::MySql, 7)
    );
}

#[test]
fn a_mismatched_handle_is_a_configuration_error() {
    let pool = DbPool::new("main", "sqlite", 7);
    let ctx = TransactionContext::enter();
    assert_eq!(
        config_message(execute_get_generic(Engine::MySql, &pool, &ctx, "s", vec![])),
        "连接池类型不匹配 (Pool type mismatch)"
    );
    assert_eq!(
        config_message(execute_list_generic(Engine::Postgres, &pool, &ctx, "s", vec![])),
        "连接池类型不匹配 (Pool type mismatch)"
    );
    assert!(execute_update_generic(Engine::Sqlite, &pool, &ctx, "s", vec![]).is_ok());
    assert!(execute_create_generic(Engine::Sqlite, &pool, &ctx, "s", vec![]).is_ok());
    // the transaction in flight is of another engine than the driver
    let twin = DbPool::new("main", "mysql", 9);
    let mut ctx = TransactionContext::enter();
    twin.start_transaction(&mut ctx, DbConnection::MySql(1)).unwrap();
    assert_eq!(
        config_message(execute_get_generic(Engine::Sqlite, &pool, &ctx, "s", vec![])),
        "事务类型不匹配 (Transaction type mismatch)"
    );
    assert_eq!(config_message(SqlxRepository.update(&pool, &ctx, "s", vec![])), "事务类型不匹配 (Transaction type mismatch)");
}

#[test]
fn an_unrecognised_engine_rejects_every_structured_operation() {
    let pool = DbPool::new("odd", "oracle", 7);
    let ctx = TransactionContext::enter();
    assert_eq!(config_message(SqlxRepository.get(&pool, &ctx, "s", vec![])), "Unsupported database type");
    assert_eq!(config_message(SqlxRepository.list(&pool, &ctx, "s", vec![])), "Unsupported database type");
    assert_eq!(config_message(SqlxRepository.create(&pool, &ctx, "s", vec![])), "Unsupported database type");
    assert_eq!(config_message(SqlxRepository.update(&pool, &ctx, "s", vec![])), "Unsupported database type");
    assert_eq!(config_message(SqlxRepository.delete(&pool, &ctx, "s", vec![])), "Unsupported database type");
    assert_eq!(
        config_message(SqlxRepository.batch_create(&pool, &ctx, "s", vec![vec![]])),
        "Unsupported database type"
    );
    // a batch of nothing asks nothing
    assert_eq!(SqlxRepository.batch_create(&pool, &ctx, "s", vec![]).unwrap(), vec![]);
}

#[test]
fn the_other_repository_refuses_everything() {
    let pool = DbPool::new("main", "sqlite", 7);
    let ctx = TransactionContext::enter();
    let r = OtherRepository;
    assert_eq!(config_message(r.get(&pool, &ctx, "s", vec![])), "Other repository not implemented");
    assert_eq!(config_message(r.list(&pool, &ctx, "s", vec![])), "Other repository not implemented");
    assert_eq!(config_message(r.create(&pool, &ctx, "s", vec![])), "Other repository not implemented");
    assert_eq!(config_message(r.batch_create(&pool, &ctx, "s", vec![])), "Other repository not implemented");
    assert_eq!(config_message(r.update(&pool, &ctx, "s", vec![])), "Other repository not implemented");
    assert_eq!(config_message(r.delete(&pool, &ctx, "s", vec![])), "Other repository not implemented");
}

#[test]
fn create_without_a_row_is_an_error() {
    assert_eq!(created(Some(5)).unwrap(), 5);
    assert_eq!(config_message(created::<i32>(None)), "创建操作未返回行 (Create did not return a row)");
    assert_eq!(config_message(created::<String>(None)), "创建操作未返回行 (Create did not return a row)");
}

#[test]
fn batch_create_prepares_one_statement_per_item_in_order() {
    let pool = DbPool::new("main", "sqlite", 7);
    let ctx = TransactionContext::enter();
    let sts = SqlxRepository
        .batch_create(&pool, &ctx, "insert into t values (?) returning *", vec![vec![num(1)], vec![num(2)], vec![]])
        .unwrap();
    assert_eq!(sts.len(), 3);
    assert_eq!(sts[0].binds, vec![BoundArg::I64(1)]);
    assert_eq!(sts[1].binds, vec![BoundArg::I64(2)]);
    assert_eq!(sts[2].binds, vec![]);
    for st in &sts {
        assert_eq!(st.sql, "insert into t values (?) returning *");
        assert_eq!(st.fetch, Fetch::Optional);
        assert_eq!(st.route, Route::Pool(Engine::Sqlite, 7));
    }
}

#[test]
fn batch_stops_at_the_first_failure() {
    let mut rows: Vec<i32> = Vec::new();
    assert!(batch_step(&mut rows, Ok(Some(1))).is_ok());
    assert!(batch_step(&mut rows, Ok(Some(2))).is_ok());
    assert_eq!(rows, vec![1, 2]);
    assert_eq!(config_message(batch_step(&mut rows, Ok(None))), "创建操作未返回行 (Create did not return a row)");
    assert_eq!(rows, vec![1, 2]);
    let r = batch_step(&mut rows, Err(DbError::from(sqlx::Error::PoolTimedOut)));
    assert!(matches!(r, Err(DbError::Sqlx(sqlx::Error::PoolTimedOut))));
    assert_eq!(rows, vec![1, 2]);
}

fn fetch_of<R>(repo: &R, pool: &DbPool, ctx: &TransactionContext) -> Vec<Option<Fetch>>
where
    R: CrudRepository<Connection = DbPool, Error = DbError, Args = Vec<JsonValue>>,
{
    vec![
        repo.get(pool, ctx, "s", vec![]).ok().map(|st| st.fetch),
        repo.list(pool, ctx, "s", vec![]).ok().map(|st| st.fetch),
        repo.create(pool, ctx, "s", vec![]).ok().map(|st| st.fetch),
        repo.update(pool, ctx, "s", vec![]).ok().map(|st| st.fetch),
        repo.delete(pool, ctx, "s", vec![]).ok().map(|st| st.fetch),
    ]
}

#[test]
fn repositories_are_used_through_one_interface() {
    let pool = DbPool::new("main", "sqlite", 7);
    let ctx = TransactionContext::enter();
    assert_eq!(
        fetch_of(&SqlxRepository, &pool, &ctx),
        vec![
            Some(Fetch::Optional),
            Some(Fetch::All),
            Some(Fetch::Optional),
            Some(Fetch::Affected),
            Some(Fetch::Affected),
        ]
    );
    assert_eq!(fetch_of(&OtherRepository, &pool, &ctx), vec![None, None, None, None, None]);
}

#[test]
fn an_absent_row_is_no_error() {
    assert_eq!(fetched::<i32>(None).unwrap(), None);
    assert_eq!(fetched(Some(Ok(7))).unwrap(), Some(7));
    let r = fetched::<i32>(Some(Err(DbError::deserialization("missing field `id`".to_string()))));
    assert!(matches!(r, Err(DbError::Deserialization(m)) if m == "missing field `id`"));
}

#[test]
fn a_list_keeps_every_row_in_order_or_fails_as_a_whole() {
    let mut rows: Vec<&str> = Vec::new();
    assert!(list_step(&mut rows, Ok("a")).is_ok());
    assert!(list_step(&mut rows, Ok("b")).is_ok());
    assert!(list_step(&mut rows, Ok("a")).is_ok());
    assert_eq!(rows, vec!["a", "b", "a"]);
    let r = list_step(&mut rows, Err(DbError::deserialization("bad".to_string())));
    assert!(matches!(r, Err(DbError::Deserialization(m)) if m == "bad"));
    assert_eq!(rows, vec!["a", "b", "a"]);

    assert_eq!(listed(vec![Ok(3), Ok(1), Ok(2)]).unwrap(), vec![3, 1, 2]);
    assert!(listed::<i32>(vec![]).unwrap().is_empty());
    let r = listed(vec![
        Ok(3),
        Err(DbError::deserialization("first".to_string())),
        Ok(2),
        Err(DbError::deserialization("second".to_string())),
    ]);
    assert!(matches!(r, Err(DbError::Deserialization(m)) if m == "first"));
}
