use rivus::sql_parser::{
    process_mapper, ContentMap, IdMapper, Mapper, MapperError, MapperMap, SqlItem, SqlNode,
};

fn item(id: &str, content: &str) -> SqlItem {
    SqlItem { id: id.to_string(), use_generated_keys: None, key_column: None, content: Some(content.to_string()) }
}

#[test]
fn only_the_five_kinds_are_statements() {
    assert_eq!(SqlNode::Sql(item("a", "x")).into_item(), Some(item("a", "x")));
    assert_eq!(SqlNode::Select(item("a", "x")).into_item(), Some(item("a", "x")));
    assert_eq!(SqlNode::Insert(item("a", "x")).into_item(), Some(item("a", "x")));
    assert_eq!(SqlNode::Update(item("a", "x")).into_item(), Some(item("a", "x")));
    assert_eq!(SqlNode::Delete(item("a", "x")).into_item(), Some(item("a", "x")));
    assert_eq!(SqlNode::Unknown.into_item(), None);
}

#[test]
fn id_mapper_takes_the_key_attributes() {
    let it = SqlItem {
        id: "insertUser".to_string(),
        use_generated_keys: Some("true".to_string()),
        key_column: Some("id".to_string()),
        content: None,
    };
    assert_eq!(
        IdMapper::from_item(&it),
        IdMapper { use_generated_keys: Some("true".to_string()), key_column: Some("id".to_string()) }
    );
    assert_eq!(
        IdMapper::from_item(&item("a", "x")),
        IdMapper { use_generated_keys: None, key_column: None }
    );
}

#[test]
fn statements_are_registered_under_their_namespace() {
    let mut contents = ContentMap::new();
    let mut mappers = MapperMap::new();
    let mapper = Mapper {
        namespace: "UserDao".to_string(),
        nodes: vec![
            SqlNode::Select(item("listUsers", "SELECT * FROM users")),
            SqlNode::Unknown,
            SqlNode::Insert(SqlItem {
                id: "insertUser".to_string(),
                use_generated_keys: Some("true".to_string()),
                key_column: Some("id".to_string()),
                content: Some("INSERT INTO users (name) VALUES (#{name})".to_string()),
            }),
        ],
    };
    assert_eq!(process_mapper(mapper, &mut contents, &mut mappers), Ok(()));

    let user_dao_content = contents.get("UserDao").expect("UserDao namespace not found");
    assert!(user_dao_content.contains_key("listUsers"));
    assert_eq!(
        user_dao_content.get("listUsers").unwrap().as_deref().unwrap().trim(),
        "SELECT * FROM users"
    );
    assert!(user_dao_content.contains_key("insertUser"));
    assert_eq!(
        user_dao_content.get("insertUser").unwrap().as_deref().unwrap().trim(),
        "INSERT INTO users (name) VALUES (#{name})"
    );
    assert_eq!(user_dao_content.len(), 2);

    let user_dao_mapper = mappers.get("UserDao").expect("UserDao namespace not found in mapper_map");
    let insert_mapper = user_dao_mapper.get("insertUser").expect("insertUser not found in mapper_map");
    assert_eq!(insert_mapper.use_generated_keys.as_deref(), Some("true"));
    assert_eq!(insert_mapper.key_column.as_deref(), Some("id"));
    assert_eq!(user_dao_mapper.get("listUsers").unwrap().key_column, None);
}

#[test]
fn duplicate_ids_in_one_document_are_an_error() {
    let mut contents = ContentMap::new();
    let mut mappers = MapperMap::new();
    let mapper = Mapper {
        namespace: "TestDao".to_string(),
        nodes: vec![
            SqlNode::Select(item("dup", "SQL1")),
            SqlNode::Update(item("dup", "SQL2")),
            SqlNode::Delete(item("later", "SQL3")),
        ],
    };
    assert_eq!(
        process_mapper(mapper, &mut contents, &mut mappers),
        Err(MapperError::DuplicateId { namespace: "TestDao".to_string(), id: "dup".to_string() })
    );
    // nothing behind the duplicate is taken in
    assert!(!contents.get("TestDao").unwrap().contains_key("later"));
    assert_eq!(mappers.get("TestDao").unwrap().len(), 1);
}

#[test]
fn duplicate_ids_across_documents_are_an_error_and_namespaces_are_apart() {
    let mut contents = ContentMap::new();
    let mut mappers = MapperMap::new();
    let first = Mapper { namespace: "A".to_string(), nodes: vec![SqlNode::Sql(item("q", "1"))] };
    let other = Mapper { namespace: "B".to_string(), nodes: vec![SqlNode::Sql(item("q", "2"))] };
    let again = Mapper { namespace: "A".to_string(), nodes: vec![SqlNode::Sql(item("r", "3")), SqlNode::Sql(item("q", "4"))] };
    assert_eq!(process_mapper(first, &mut contents, &mut mappers), Ok(()));
    // the same id in another namespace is no duplicate
    assert_eq!(process_mapper(other, &mut contents, &mut mappers), Ok(()));
    assert_eq!(
        process_mapper(again, &mut contents, &mut mappers),
        Err(MapperError::DuplicateId { namespace: "A".to_string(), id: "q".to_string() })
    );
    assert_eq!(contents.len(), 2);
    assert_eq!(contents.get("B").unwrap().get("q").unwrap().as_deref(), Some("2"));
    assert_eq!(contents.get("A").unwrap().get("r").unwrap().as_deref(), Some("3"));
}

#[test]
fn a_document_without_statements_makes_its_namespace_known() {
    let mut contents = ContentMap::new();
    let mut mappers = MapperMap::new();
    let empty = Mapper { namespace: "E".to_string(), nodes: vec![SqlNode::Unknown] };
    assert_eq!(process_mapper(empty, &mut contents, &mut mappers), Ok(()));
    assert!(contents.contains_key("E"));
    assert!(mappers.contains_key("E"));
    assert_eq!(contents.get("E").unwrap().len(), 0);
}

#[test]
fn the_duplicate_is_named() {
    let e = MapperError::DuplicateId { namespace: "TestDao".to_string(), id: "dup".to_string() };
    let err_msg = e.to_string();
    assert!(err_msg.contains("重复的 ID"));
    assert!(err_msg.contains("dup"));
    assert_eq!(err_msg, "发现重复的 ID: 'dup' (命名空间: 'TestDao')");
}

#[test]
fn test_duplicate_id_error() {
    let mut content_map = ContentMap::new();
    let mut mapper_map = MapperMap::new();
    let mapper = Mapper {
        namespace: "TestDao".to_string(),
        nodes: vec![SqlNode::Select(item("dup", "SQL1")), SqlNode::Update(item("dup", "SQL2"))],
    };

    let result = process_mapper(mapper, &mut content_map, &mut mapper_map);
    assert!(result.is_err());

    let err = result.unwrap_err();
    let err_msg = err.to_string();
    println!("{}", err_msg);

    assert!(err_msg.contains("重复的 ID"));
    assert!(err_msg.contains("dup"));
}
