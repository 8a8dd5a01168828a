//! The cache of parsed templates, by template name.
use vstd::prelude::*;
use vstd::string::*;
use crate::sql_tpl::ast::{AstNode, NodeView, nodes_view};
use crate::sql_tpl::error::{TemplateError, TemplateErrorView};
use crate::sql_tpl::parser::{parse, parse_spec, snippet_spec};
use crate::str_map::StrMap;
use crate::text::str_eq;

verus! {

/// A cached template: the text it was parsed from and its nodes.
pub struct CacheEntry {
    content: String,
    ast: Vec<AstNode>,
}

/// The parsed templates, by name, and the count of parses made. A program
/// keeps one and shares it under a lock.
pub struct TemplateCache {
    entries: StrMap<CacheEntry>,
    parses: u64,
}

/// What a cache holds: the text and the nodes of each template, by name,
/// and the count of parses made.
pub struct CacheState {
    pub contents: Map<Seq<char>, Seq<char>>,
    pub templates: Map<Seq<char>, Seq<NodeView>>,
    pub parses: u64,
}

/// Whether `name` is cached with exactly the text `content`.
pub open spec fn is_hit(s: CacheState, name: Seq<char>, content: Seq<char>) -> bool {
    s.contents.contains_key(name) && s.contents[name] == content
}

/// The count of parses after one more; it stops at the largest number.
pub open spec fn one_more(parses: u64) -> u64 {
    if parses < u64::MAX {
        (parses + 1) as u64
    } else {
        parses
    }
}

/// The cache after the template `name` has been asked for with the text
/// `content`: unchanged where it is cached with this very text; otherwise
/// one parse has been made, and where the text is well formed its nodes
/// have taken the place of what was cached under `name`.
pub open spec fn requested(s: CacheState, name: Seq<char>, content: Seq<char>) -> CacheState {
    if is_hit(s, name, content) {
        s
    } else {
        match parse_spec(content) {
            Ok(nodes) => CacheState {
                contents: s.contents.insert(name, content),
                templates: s.templates.insert(name, nodes),
                parses: one_more(s.parses),
            },
            Err(_) => CacheState { parses: one_more(s.parses), ..s },
        }
    }
}

/// Asking twice for the same name with the same well-formed text parses
/// once at most: the second request finds the template cached and changes
/// nothing, whatever the cache held before the first.
pub proof fn lemma_unchanged_content_is_not_reparsed(
    s: CacheState,
    name: Seq<char>,
    content: Seq<char>,
)
    requires
        parse_spec(content) is Ok,
    ensures
        is_hit(requested(s, name, content), name, content),
        requested(requested(s, name, content), name, content) == requested(s, name, content),
{
}

/// Asking for a cached name with another well-formed text parses that
/// text and replaces the cached nodes, so that the next request and the
/// next rendering see the new text.
pub proof fn lemma_changed_content_replaces(
    s: CacheState,
    name: Seq<char>,
    old_content: Seq<char>,
    new_content: Seq<char>,
)
    requires
        is_hit(s, name, old_content),
        new_content != old_content,
        parse_spec(new_content) is Ok,
    ensures
        requested(s, name, new_content).parses == one_more(s.parses),
        requested(s, name, new_content).contents[name] == new_content,
        requested(s, name, new_content).templates[name] == parse_spec(new_content)->Ok_0,
        is_hit(requested(s, name, new_content), name, new_content),
        !is_hit(requested(s, name, new_content), name, old_content),
{
}

impl TemplateCache {
    /// What the cache holds.
    pub open spec fn state(&self) -> CacheState {
        CacheState {
            contents: self.contents(),
            templates: self.templates(),
            parses: self.parse_count(),
        }
    }

    /// The text that each cached template was parsed from.
    pub closed spec fn contents(&self) -> Map<Seq<char>, Seq<char>> {
        Map::new(|k: Seq<char>| self.entries@.contains_key(k), |k: Seq<char>| self.entries@[k].content@)
    }

    /// The nodes of each cached template.
    pub closed spec fn templates(&self) -> Map<Seq<char>, Seq<NodeView>> {
        Map::new(
            |k: Seq<char>| self.entries@.contains_key(k),
            |k: Seq<char>| nodes_view(self.entries@[k].ast@),
        )
    }

    /// How often a template text has been parsed; it stops counting at the
    /// largest 64-bit number.
    pub closed spec fn parse_count(&self) -> u64 {
        self.parses
    }

    /// The number of cached templates.
    pub closed spec fn size(&self) -> nat {
        self.entries@.dom().len()
    }

    /// Every cached template is the parse of its text, and the cached
    /// names are finitely many.
    pub closed spec fn wf(&self) -> bool {
        &&& self.entries@.dom().finite()
        &&& forall|k: Seq<char>| #[trigger]
            self.entries@.contains_key(k) ==> parse_spec(self.entries@[k].content@) == Ok::<
                Seq<NodeView>,
                int,
            >(nodes_view(self.entries@[k].ast@))
    }

    /// The names of a valid cache are finitely many.
    pub proof fn lemma_finite(&self)
        requires
            self.wf(),
        ensures
            self.templates().dom().finite(),
            self.contents().dom().finite(),
    {
        assert(self.templates().dom() =~= self.entries@.dom());
        assert(self.contents().dom() =~= self.entries@.dom());
    }

    /// The names with a text are the names with nodes, and the nodes are
    /// the parse of the text.
    pub proof fn lemma_cached_is_parsed(&self, name: Seq<char>)
        requires
            self.wf(),
        ensures
            self.contents().contains_key(name) == self.templates().contains_key(name),
            self.contents().contains_key(name) ==> parse_spec(self.contents()[name]) == Ok::<
                Seq<NodeView>,
                int,
            >(self.templates()[name]),
    {
    }

    /// The size of the cache is the number of names with nodes.
    pub proof fn lemma_size(&self)
        ensures
            self.size() == self.templates().dom().len(),
            self.size() == self.contents().dom().len(),
    {
        assert(self.templates().dom() =~= self.entries@.dom());
        assert(self.contents().dom() =~= self.entries@.dom());
    }

    /// The empty cache.
    pub fn new() -> (c: Self)
        ensures
            c.wf(),
            c.contents() == Map::<Seq<char>, Seq<char>>::empty(),
            c.templates() == Map::<Seq<char>, Seq<NodeView>>::empty(),
            c.parse_count() == 0,
    {
        let c = TemplateCache { entries: StrMap::new(), parses: 0 };
        proof {
            assert(c.contents() =~= Map::empty());
            assert(c.templates() =~= Map::empty());
        }
        c
    }

    /// The count of parses made so far.
    pub fn parses(&self) -> (n: u64)
        ensures
            n == self.parse_count(),
    {
        self.parses
    }

    /// The number of cached templates.
    pub fn len(&self) -> (n: usize)
        ensures
            n == self.size(),
            self.templates().dom().finite(),
            n == self.templates().dom().len(),
    {
        proof {
            assert(self.templates().dom() =~= self.entries@.dom());
        }
        self.entries.len()
    }

    /// The nodes cached under `name`, if any.
    pub fn ast(&self, name: &str) -> (r: Option<&Vec<AstNode>>)
        ensures
            match r {
                Some(nodes) => self.templates().contains_key(name@) && nodes_view(nodes@)
                    == self.templates()[name@],
                None => !self.templates().contains_key(name@),
            },
    {
        match self.entries.get(name) {
            Some(e) => Some(&e.ast),
            None => None,
        }
    }

    /// Whether `name` is cached with exactly the text `content`.
    pub fn is_current(&self, name: &str, content: &str) -> (r: bool)
        ensures
            r == (self.contents().contains_key(name@) && self.contents()[name@] == content@),
    {
        match self.entries.get(name) {
            Some(e) => str_eq(e.content.as_str(), content),
            None => false,
        }
    }

    /// The nodes of the template `name` with the text `content`.
    ///
    /// Where `name` is cached with this very text, nothing is parsed and
    /// nothing changes. Otherwise the text is parsed, which counts; its
    /// nodes take the place of what was cached under `name`, or, where the
    /// text is malformed, the cache keeps what it held and the syntax error
    /// is returned: see [`requested`].
    pub fn get_ast(&mut self, name: &str, content: &str) -> (r: Result<&Vec<AstNode>, TemplateError>)
        requires
            old(self).wf(),
        ensures
            final(self).wf(),
            final(self).state() == requested(old(self).state(), name@, content@),
            match r {
                Ok(ast) => {
                    &&& is_hit(old(self).state(), name@, content@) || parse_spec(content@) is Ok
                    &&& final(self).templates().contains_key(name@)
                    &&& nodes_view(ast@) == final(self).templates()[name@]
                },
                Err(e) => {
                    &&& !is_hit(old(self).state(), name@, content@)
                    &&& parse_spec(content@) is Err
                    &&& e@ == (TemplateErrorView::Syntax {
                        name: name@,
                        snippet: snippet_spec(content@, parse_spec(content@)->Err_0),
                    })
                },
            },
    {
        if !self.is_current(name, content) {
            match self.refresh(name, content) {
                Err(e) => {
                    return Err(e);
                },
                Ok(()) => {},
            }
        }
        match self.entries.get(name) {
            Some(e) => Ok(&e.ast),
            None => {
                proof {
                    assert(self.contents().contains_key(name@));
                    assert(false);
                }
                Err(TemplateError::MissingInclude { refid: name.to_owned() })
            },
        }
    }

    /// Parses `content` and caches its nodes under `name`.
    fn refresh(&mut self, name: &str, content: &str) -> (r: Result<(), TemplateError>)
        requires
            old(self).wf(),
        ensures
            final(self).wf(),
            final(self).parse_count() == if old(self).parse_count() < u64::MAX {
                (old(self).parse_count() + 1) as u64
            } else {
                old(self).parse_count()
            },
            match parse_spec(content@) {
                Ok(nodes) => {
                    &&& r is Ok
                    &&& final(self).contents() == old(self).contents().insert(name@, content@)
                    &&& final(self).templates() == old(self).templates().insert(name@, nodes)
                },
                Err(pos) => {
                    &&& r matches Err(e) && e@ == (TemplateErrorView::Syntax {
                        name: name@,
                        snippet: snippet_spec(content@, pos),
                    })
                    &&& final(self).contents() == old(self).contents()
                    &&& final(self).templates() == old(self).templates()
                },
            },
    {
        if self.parses < u64::MAX {
            self.parses = self.parses + 1;
        }
        match parse(name, content) {
            Err(e) => Err(e),
            Ok(ast) => {
                let entry = CacheEntry { content: content.to_owned(), ast };
                self.entries.insert(name.to_owned(), entry);
                proof {
                    assert(self.contents() =~= old(self).contents().insert(name@, content@));
                    assert(self.templates() =~= old(self).templates().insert(
                        name@,
                        nodes_view(ast@),
                    ));
                }
                Ok(())
            },
        }
    }

    /// Evicts the template `name`; where it is not cached nothing changes.
    /// Says whether it was cached.
    pub fn remove(&mut self, name: &str) -> (was: bool)
        requires
            old(self).wf(),
        ensures
            final(self).wf(),
            was == old(self).contents().contains_key(name@),
            final(self).contents() == old(self).contents().remove(name@),
            final(self).templates() == old(self).templates().remove(name@),
            final(self).parse_count() == old(self).parse_count(),
    {
        let was = self.entries.remove(name).is_some();
        proof {
            assert(self.contents() =~= old(self).contents().remove(name@));
            assert(self.templates() =~= old(self).templates().remove(name@));
        }
        was
    }
}

} // verus!
