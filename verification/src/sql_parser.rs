//! Mapper documents: named SQL statements grouped under a namespace.
//!
//! A mapper document has a namespace and child elements `sql`, `select`,
//! `insert`, `update` and `delete`, each with an id, optional generated-key
//! attributes and its text. Reading and parsing the document is left to the
//! embedding program; registering what it holds is done here.
use vstd::prelude::*;
use vstd::string::*;
use crate::str_map::StrMap;

verus! {

/// The generated-key attributes of a statement.
#[derive(Debug, PartialEq, Eq)]
pub struct IdMapper {
    pub use_generated_keys: Option<String>,
    pub key_column: Option<String>,
}

/// One statement of a mapper document.
#[derive(Debug, PartialEq, Eq)]
pub struct SqlItem {
    pub id: String,
    pub use_generated_keys: Option<String>,
    pub key_column: Option<String>,
    pub content: Option<String>,
}

/// One child element of a mapper document.
#[derive(Debug, PartialEq, Eq)]
pub enum SqlNode {
    Sql(SqlItem),
    Select(SqlItem),
    Insert(SqlItem),
    Update(SqlItem),
    Delete(SqlItem),
    /// An element of another name.
    Unknown,
}

/// A parsed mapper document.
#[derive(Debug, PartialEq, Eq)]
pub struct Mapper {
    pub namespace: String,
    pub nodes: Vec<SqlNode>,
}

/// The text of each statement, by namespace and id.
pub type ContentMap = StrMap<StrMap<Option<String>>>;

/// The generated-key attributes of each statement, by namespace and id.
pub type MapperMap = StrMap<StrMap<IdMapper>>;

/// A mapper document that cannot be registered.
#[derive(Debug, PartialEq, Eq)]
pub enum MapperError {
    /// Two statements of one namespace have the same id.
    DuplicateId { namespace: String, id: String },
}

impl MapperError {
    /// The failure in words; it names the id and the namespace.
    pub fn to_string(&self) -> (s: String)
        ensures
            match self {
                MapperError::DuplicateId { namespace, id } => s@ == "发现重复的 ID: '"@ + id@
                    + "' (命名空间: '"@ + namespace@ + "')"@,
            },
    {
        match self {
            MapperError::DuplicateId { namespace, id } => {
                let mut s = String::from_str("发现重复的 ID: '");
                s.append(id.as_str());
                s.append("' (命名空间: '");
                s.append(namespace.as_str());
                s.append("')");
                s
            },
        }
    }
}

pub open spec fn opt_view(o: Option<String>) -> Option<Seq<char>> {
    match o {
        Some(s) => Some(s@),
        None => None,
    }
}

pub struct IdMapperView {
    pub use_generated_keys: Option<Seq<char>>,
    pub key_column: Option<Seq<char>>,
}

impl View for IdMapper {
    type V = IdMapperView;

    open spec fn view(&self) -> IdMapperView {
        IdMapperView {
            use_generated_keys: opt_view(self.use_generated_keys),
            key_column: opt_view(self.key_column),
        }
    }
}

impl SqlNode {
    /// The statement of the element, if it is one of the five kinds.
    pub open spec fn item_spec(self) -> Option<SqlItem> {
        match self {
            SqlNode::Sql(item) => Some(item),
            SqlNode::Select(item) => Some(item),
            SqlNode::Insert(item) => Some(item),
            SqlNode::Update(item) => Some(item),
            SqlNode::Delete(item) => Some(item),
            SqlNode::Unknown => None,
        }
    }

    /// The statement of the element, if it is one of the five kinds.
    pub fn into_item(self) -> (r: Option<SqlItem>)
        ensures
            r == self.item_spec(),
    {
        match self {
            SqlNode::Sql(item) => Some(item),
            SqlNode::Select(item) => Some(item),
            SqlNode::Insert(item) => Some(item),
            SqlNode::Update(item) => Some(item),
            SqlNode::Delete(item) => Some(item),
            SqlNode::Unknown => None,
        }
    }
}

fn copy_opt(o: &Option<String>) -> (r: Option<String>)
    ensures
        opt_view(r) == opt_view(*o),
{
    match o {
        Some(s) => Some(s.clone()),
        None => None,
    }
}

impl IdMapper {
    /// The generated-key attributes of `item`.
    pub fn from_item(item: &SqlItem) -> (m: Self)
        ensures
            m@ == (IdMapperView {
                use_generated_keys: opt_view(item.use_generated_keys),
                key_column: opt_view(item.key_column),
            }),
    {
        IdMapper {
            use_generated_keys: copy_opt(&item.use_generated_keys),
            key_column: copy_opt(&item.key_column),
        }
    }
}

/// The statements of one namespace: the text and the attributes of each
/// id, and the id that was met a second time, if one was.
pub struct Namespace {
    pub contents: Map<Seq<char>, Option<Seq<char>>>,
    pub mappers: Map<Seq<char>, IdMapperView>,
    pub duplicate: Option<Seq<char>>,
}

/// The namespace `ns` after the first `n` of `nodes` have been registered
/// in it, in order.
///
/// Elements that are no statements are passed over. A statement with an id
/// that the namespace holds already ends the registration: its text takes
/// the place of the text held under that id, its attributes are not taken
/// in, and nothing behind it is looked at.
pub open spec fn register_spec(ns: Namespace, nodes: Seq<SqlNode>, n: nat) -> Namespace
    decreases n,
{
    if n == 0 || n > nodes.len() {
        ns
    } else {
        let before = register_spec(ns, nodes, (n - 1) as nat);
        if before.duplicate is Some {
            before
        } else {
            match nodes[n - 1].item_spec() {
                None => before,
                Some(item) => if before.contents.contains_key(item.id@) {
                    Namespace {
                        contents: before.contents.insert(item.id@, opt_view(item.content)),
                        mappers: before.mappers,
                        duplicate: Some(item.id@),
                    }
                } else {
                    Namespace {
                        contents: before.contents.insert(item.id@, opt_view(item.content)),
                        mappers: before.mappers.insert(
                            item.id@,
                            IdMapperView {
                                use_generated_keys: opt_view(item.use_generated_keys),
                                key_column: opt_view(item.key_column),
                            },
                        ),
                        duplicate: None,
                    }
                },
            }
        }
    }
}

/// The texts of a namespace, by id.
pub open spec fn contents_of(m: Map<Seq<char>, Option<String>>) -> Map<Seq<char>, Option<Seq<char>>> {
    Map::new(|k: Seq<char>| m.contains_key(k), |k: Seq<char>| opt_view(m[k]))
}

/// The attributes of a namespace, by id.
pub open spec fn mappers_of(m: Map<Seq<char>, IdMapper>) -> Map<Seq<char>, IdMapperView> {
    Map::new(|k: Seq<char>| m.contains_key(k), |k: Seq<char>| m[k]@)
}

/// The texts held for the namespace `ns`; none where it is not known.
pub open spec fn namespace_contents(cm: Map<Seq<char>, StrMap<Option<String>>>, ns: Seq<char>) -> Map<
    Seq<char>,
    Option<Seq<char>>,
> {
    if cm.contains_key(ns) {
        contents_of(cm[ns]@)
    } else {
        Map::empty()
    }
}

/// The attributes held for the namespace `ns`; none where it is not known.
pub open spec fn namespace_mappers(mm: Map<Seq<char>, StrMap<IdMapper>>, ns: Seq<char>) -> Map<
    Seq<char>,
    IdMapperView,
> {
    if mm.contains_key(ns) {
        mappers_of(mm[ns]@)
    } else {
        Map::empty()
    }
}

/// Registers the statements of `mapper` under its namespace.
///
/// The namespace is known to both maps afterwards, whatever the document
/// holds, and holds what [`register_spec`] gives for all the document's
/// elements; the other namespaces are left as they were. Two statements
/// with one id in one namespace, be it within this document or across
/// documents, are an error that names the id.
pub fn process_mapper(mapper: Mapper, content_map: &mut ContentMap, mapper_map: &mut MapperMap) -> (r:
    Result<(), MapperError>)
    ensures
        ({
            let ns = mapper.namespace@;
            let start = Namespace {
                contents: namespace_contents(old(content_map)@, ns),
                mappers: namespace_mappers(old(mapper_map)@, ns),
                duplicate: None,
            };
            let end = register_spec(start, mapper.nodes@, mapper.nodes@.len());
            &&& final(content_map)@.dom() == old(content_map)@.dom().insert(ns)
            &&& final(mapper_map)@.dom() == old(mapper_map)@.dom().insert(ns)
            &&& forall|k: Seq<char>|
                k != ns && old(content_map)@.contains_key(k) ==> #[trigger] final(content_map)@[k]
                    == old(content_map)@[k]
            &&& forall|k: Seq<char>|
                k != ns && old(mapper_map)@.contains_key(k) ==> #[trigger] final(mapper_map)@[k]
                    == old(mapper_map)@[k]
            &&& namespace_contents(final(content_map)@, ns) == end.contents
            &&& namespace_mappers(final(mapper_map)@, ns) == end.mappers
            &&& match r {
                Ok(()) => end.duplicate is None,
                Err(MapperError::DuplicateId { namespace, id }) => namespace@ == ns
                    && end.duplicate == Some(id@),
            }
        }),
{
    let Mapper { namespace, nodes } = mapper;
    let ghost ns = namespace@;
    let ghost all = nodes@;
    let ghost start = Namespace {
        contents: namespace_contents(old(content_map)@, ns),
        mappers: namespace_mappers(old(mapper_map)@, ns),
        duplicate: None,
    };
    let mut contents = match content_map.remove(namespace.as_str()) {
        Some(m) => m,
        None => {
            let m: StrMap<Option<String>> = StrMap::new();
            proof {
                assert(contents_of(m@) =~= Map::empty());
            }
            m
        },
    };
    let mut mappers = match mapper_map.remove(namespace.as_str()) {
        Some(m) => m,
        None => {
            let m: StrMap<IdMapper> = StrMap::new();
            proof {
                assert(mappers_of(m@) =~= Map::empty());
            }
            m
        },
    };
    let mut duplicate: Option<String> = None;
    for node in it: nodes
        invariant
            it.seq() == all,
            register_spec(start, all, it.index() as nat) == (Namespace {
                contents: contents_of(contents@),
                mappers: mappers_of(mappers@),
                duplicate: opt_view(duplicate),
            }),
    {
        if duplicate.is_none() {
            match node.into_item() {
                None => {},
                Some(item) => {
                    let id_mapper = IdMapper::from_item(&item);
                    let ghost before_contents = contents@;
                    let ghost before_mappers = mappers@;
                    let SqlItem { id, use_generated_keys: _, key_column: _, content } = item;
                    let prev = contents.insert(id.clone(), content);
                    proof {
                        assert(contents_of(contents@) =~= contents_of(before_contents).insert(
                            id@,
                            opt_view(content),
                        ));
                    }
                    if prev.is_some() {
                        duplicate = Some(id);
                    } else {
                        mappers.insert(id, id_mapper);
                        proof {
                            assert(mappers_of(mappers@) =~= mappers_of(before_mappers).insert(
                                id@,
                                id_mapper@,
                            ));
                        }
                    }
                },
            }
        }
    }
    content_map.insert(namespace.clone(), contents);
    mapper_map.insert(namespace.clone(), mappers);
    proof {
        assert(final(content_map)@.dom() =~= old(content_map)@.dom().insert(ns));
        assert(final(mapper_map)@.dom() =~= old(mapper_map)@.dom().insert(ns));
    }
    match duplicate {
        Some(id) => Err(MapperError::DuplicateId { namespace, id }),
        None => Ok(()),
    }
}

/// Duplicate ids are refused: where a statement's id is held by the
/// namespace already, registering it reports that id.
pub proof fn lemma_duplicate_id_refused(ns: Namespace, nodes: Seq<SqlNode>, n: nat)
    requires
        0 < n <= nodes.len(),
        register_spec(ns, nodes, (n - 1) as nat).duplicate is None,
        nodes[n - 1].item_spec() is Some,
        register_spec(ns, nodes, (n - 1) as nat).contents.contains_key(
            nodes[n - 1].item_spec()->Some_0.id@,
        ),
    ensures
        register_spec(ns, nodes, n).duplicate == Some(nodes[n - 1].item_spec()->Some_0.id@),
{
}

} // verus!
