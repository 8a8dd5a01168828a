//! The node tree of a parsed template, the buffer a rendering fills, and
//! the lookup context it reads.
use vstd::prelude::*;
use vstd::string::*;
use crate::sql_tpl::value::{ParamView, SqlParam, Value};
use crate::text::str_eq;

verus! {

/// One node of a parsed template.
#[derive(Debug, PartialEq)]
pub enum AstNode {
    /// Literal text.
    Text(String),
    /// A reference to a variable, by name.
    Var(String),
    /// The template registered under `refid`, resolved when rendering.
    Include { refid: String },
    /// A block rendered only where `test` holds.
    If { test: String, body: Vec<AstNode> },
    /// A block rendered once per element of the list `collection`, with
    /// the element bound to `item`.
    For { item: String, collection: String, open: String, sep: String, close: String, body: Vec<AstNode> },
}

/// A node with its texts as character sequences.
pub enum NodeView {
    Text(Seq<char>),
    Var(Seq<char>),
    Include { refid: Seq<char> },
    If { test: Seq<char>, body: Seq<NodeView> },
    For {
        item: Seq<char>,
        collection: Seq<char>,
        open: Seq<char>,
        sep: Seq<char>,
        close: Seq<char>,
        body: Seq<NodeView>,
    },
}

impl View for AstNode {
    type V = NodeView;

    open spec fn view(&self) -> NodeView
        decreases self,
    {
        match self {
            AstNode::Text(t) => NodeView::Text(t@),
            AstNode::Var(n) => NodeView::Var(n@),
            AstNode::Include { refid } => NodeView::Include { refid: refid@ },
            AstNode::If { test, body } => NodeView::If {
                test: test@,
                body: Seq::new(
                    body@.len(),
                    |i: int|
                        if 0 <= i < body@.len() {
                            body@[i].view()
                        } else {
                            NodeView::Text(Seq::empty())
                        },
                ),
            },
            AstNode::For { item, collection, open, sep, close, body } => NodeView::For {
                item: item@,
                collection: collection@,
                open: open@,
                sep: sep@,
                close: close@,
                body: Seq::new(
                    body@.len(),
                    |i: int|
                        if 0 <= i < body@.len() {
                            body@[i].view()
                        } else {
                            NodeView::Text(Seq::empty())
                        },
                ),
            },
        }
    }
}

/// A list of nodes, each by its view.
pub open spec fn nodes_view(nodes: Seq<AstNode>) -> Seq<NodeView> {
    Seq::new(nodes.len(), |i: int| nodes[i]@)
}

/// The view of a conditional block is made of the views of its parts.
pub proof fn lemma_if_view(node: AstNode)
    requires
        node is If,
    ensures
        node@ == (NodeView::If { test: node->If_test@, body: nodes_view(node->If_body@) }),
{
    let body = node->If_body@;
    assert(node@->If_body =~= nodes_view(body));
}

/// The view of an iteration block is made of the views of its parts.
pub proof fn lemma_for_view(node: AstNode)
    requires
        node is For,
    ensures
        node@ == (NodeView::For {
            item: node->For_item@,
            collection: node->For_collection@,
            open: node->For_open@,
            sep: node->For_sep@,
            close: node->For_close@,
            body: nodes_view(node->For_body@),
        }),
{
    let body = node->For_body@;
    assert(node@->For_body =~= nodes_view(body));
}

/// What a rendering produces: the SQL text and, in placeholder order, the
/// parameters to bind.
#[derive(Debug, PartialEq)]
pub struct RenderBuffer {
    pub sql: String,
    pub params: Vec<SqlParam>,
}

/// Parameters by their views.
pub open spec fn params_view(params: Seq<SqlParam>) -> Seq<ParamView> {
    Seq::new(params.len(), |i: int| params[i]@)
}

impl RenderBuffer {
    /// The empty buffer.
    pub fn new() -> (b: Self)
        ensures
            b.sql@ == Seq::<char>::empty(),
            b.params@ == Seq::<SqlParam>::empty(),
    {
        RenderBuffer { sql: String::new(), params: Vec::new() }
    }
}

/// What `key` names where the local variables `locals` stand before the
/// root value `root`: the innermost local of that name, else what the root
/// gives for the key.
pub open spec fn lookup_spec(root: Value, locals: Seq<(Seq<char>, Value)>, key: Seq<char>) -> Value
    decreases locals.len(),
{
    if locals.len() == 0 {
        root.field_spec(key)
    } else if locals.last().0 == key {
        locals.last().1
    } else {
        lookup_spec(root, locals.drop_last(), key)
    }
}

/// The values that a rendering looks its names up in: the root parameter
/// and, before it, a stack of local variables.
pub struct Context<'a> {
    root: &'a Value,
    locals: Vec<(String, &'a Value)>,
}

impl<'a> Context<'a> {
    /// The root parameter.
    pub closed spec fn root(&self) -> Value {
        *self.root
    }

    /// The local variables, innermost last.
    pub closed spec fn locals(&self) -> Seq<(Seq<char>, Value)> {
        Seq::new(self.locals@.len(), |i: int| (self.locals@[i].0@, *self.locals@[i].1))
    }

    /// The context of `root` with no local variable.
    pub fn new(root: &'a Value) -> (ctx: Self)
        ensures
            ctx.root() == *root,
            ctx.locals() == Seq::<(Seq<char>, Value)>::empty(),
    {
        let ctx = Context { root, locals: Vec::new() };
        proof {
            assert(ctx.locals() =~= Seq::empty());
        }
        ctx
    }

    /// Binds `key` to `value` as the innermost local variable; it shadows
    /// any other variable of that name.
    pub fn push(&mut self, key: &str, value: &'a Value)
        ensures
            final(self).root() == old(self).root(),
            final(self).locals() == old(self).locals().push((key@, *value)),
    {
        self.locals.push((key.to_owned(), value));
        proof {
            assert(self.locals() =~= old(self).locals().push((key@, *value)));
        }
    }

    /// Drops the innermost local variable, if there is one.
    pub fn pop(&mut self)
        ensures
            final(self).root() == old(self).root(),
            final(self).locals() == if old(self).locals().len() > 0 {
                old(self).locals().drop_last()
            } else {
                old(self).locals()
            },
    {
        self.locals.pop();
        proof {
            if old(self).locals().len() > 0 {
                assert(self.locals() =~= old(self).locals().drop_last());
            } else {
                assert(self.locals() =~= old(self).locals());
            }
        }
    }

    /// What `key` names: see [`lookup_spec`].
    pub fn lookup(&self, key: &str) -> (v: &'a Value)
        ensures
            *v == lookup_spec(self.root(), self.locals(), key@),
    {
        let mut i: usize = self.locals.len();
        proof {
            assert(self.locals().take(i as int) =~= self.locals());
        }
        while i > 0
            invariant
                i <= self.locals@.len(),
                self.locals().len() == self.locals@.len(),
                lookup_spec(self.root(), self.locals(), key@) == lookup_spec(
                    self.root(),
                    self.locals().take(i as int),
                    key@,
                ),
            decreases i,
        {
            let ghost head = self.locals().take(i as int);
            proof {
                assert(head.last() == self.locals()[i - 1]);
                assert(head.drop_last() =~= self.locals().take(i - 1));
            }
            if str_eq(self.locals[i - 1].0.as_str(), key) {
                return self.locals[i - 1].1;
            }
            i -= 1;
        }
        proof {
            assert(self.locals().take(0) =~= Seq::empty());
        }
        self.root.field(key)
    }
}

} // verus!
