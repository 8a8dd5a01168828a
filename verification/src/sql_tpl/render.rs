//! Rendering: walking the nodes of a template against a context, which
//! gives the SQL text and the parameters in the order of the placeholders.
use vstd::prelude::*;
use vstd::string::*;
use crate::sql_tpl::ast::{AstNode, Context, NodeView, RenderBuffer, lemma_for_view, lemma_if_view, lookup_spec, nodes_view, params_view};
use crate::sql_tpl::cache::TemplateCache;
use crate::sql_tpl::error::{TemplateError, TemplateErrorView};
use crate::sql_tpl::expr::{eval_spec, eval_test, parse_test, parse_test_spec};
use crate::sql_tpl::value::{ParamView, Value, value_to_param};

verus! {

/// What rendering produces: the text and the parameters written up to the
/// point where it ended, and the failure that ended it, if one did.
pub struct Rendered {
    pub sql: Seq<char>,
    pub params: Seq<ParamView>,
    pub err: Option<TemplateErrorView>,
}

/// Nothing written, no failure.
pub open spec fn nothing() -> Rendered {
    Rendered { sql: Seq::empty(), params: Seq::empty(), err: None }
}

/// Literal text written.
pub open spec fn text(t: Seq<char>) -> Rendered {
    Rendered { sql: t, params: Seq::empty(), err: None }
}

/// Nothing written, ended by `e`.
pub open spec fn failed(e: TemplateErrorView) -> Rendered {
    Rendered { sql: Seq::empty(), params: Seq::empty(), err: Some(e) }
}

/// `a`, and after it `b` unless `a` ended in a failure.
pub open spec fn then(a: Rendered, b: Rendered) -> Rendered {
    if a.err is Some {
        a
    } else {
        Rendered { sql: a.sql + b.sql, params: a.params + b.params, err: b.err }
    }
}

/// The placeholder that stands in the text for one parameter.
pub open spec fn placeholder() -> Seq<char> {
    seq!['?']
}

/// What a variable renders to: a placeholder in the text and the value it
/// names as the parameter. A list or a mapping is no parameter.
pub open spec fn render_var_spec(name: Seq<char>, root: Value, locals: Seq<(Seq<char>, Value)>) -> Rendered {
    let v = lookup_spec(root, locals, name);
    if v.is_scalar_spec() {
        Rendered { sql: placeholder(), params: seq![v.scalar_view()], err: None }
    } else {
        failed(TemplateErrorView::NotScalar { name })
    }
}

/// What one node renders to.
///
/// An include renders the nodes registered under its name at the moment of
/// rendering, in the same context; `depth` bounds how deep includes may
/// nest. A conditional block renders its body where its test holds of the
/// value that its variable names. An iteration block renders nothing for
/// an empty list and otherwise `open`, the body once per element with
/// `sep` between, and `close`.
pub open spec fn render_node_spec(
    node: NodeView,
    root: Value,
    locals: Seq<(Seq<char>, Value)>,
    templates: Map<Seq<char>, Seq<NodeView>>,
    depth: nat,
) -> Rendered
    decreases depth, node, 0nat,
{
    match node {
        NodeView::Text(t) => text(t),
        NodeView::Var(name) => render_var_spec(name, root, locals),
        NodeView::Include { refid } => if !templates.contains_key(refid) {
            failed(TemplateErrorView::MissingInclude { refid })
        } else if depth == 0 {
            failed(TemplateErrorView::IncludeDepth { refid })
        } else {
            render_nodes_spec(templates[refid], root, locals, templates, (depth - 1) as nat)
        },
        NodeView::If { test, body } => match parse_test_spec(test) {
            None => failed(TemplateErrorView::Syntax { name: Seq::empty(), snippet: test }),
            Some(e) => if eval_spec(e.check, lookup_spec(root, locals, e.name)) {
                render_nodes_spec(body, root, locals, templates, depth)
            } else {
                nothing()
            },
        },
        NodeView::For { item, collection, open, sep, close, body } => match lookup_spec(
            root,
            locals,
            collection,
        ) {
            Value::List(items) => if items@.len() == 0 {
                nothing()
            } else {
                then(
                    text(open),
                    then(
                        render_items_spec(
                            body,
                            item,
                            sep,
                            items@,
                            items@.len(),
                            root,
                            locals,
                            templates,
                            depth,
                        ),
                        text(close),
                    ),
                )
            },
            _ => failed(TemplateErrorView::NotIterable { collection }),
        },
    }
}

/// What the body of an iteration renders to for the first `n` elements:
/// the body once per element, in order, with the element as the innermost
/// local variable, and `sep` before each but the first.
pub open spec fn render_items_spec(
    body: Seq<NodeView>,
    item: Seq<char>,
    sep: Seq<char>,
    items: Seq<Value>,
    n: nat,
    root: Value,
    locals: Seq<(Seq<char>, Value)>,
    templates: Map<Seq<char>, Seq<NodeView>>,
    depth: nat,
) -> Rendered
    decreases depth, body, n + 1,
{
    if n == 0 || n > items.len() {
        nothing()
    } else {
        let k = (n - 1) as nat;
        then(
            render_items_spec(body, item, sep, items, k, root, locals, templates, depth),
            then(
                if k > 0 {
                    text(sep)
                } else {
                    nothing()
                },
                render_nodes_spec(body, root, locals.push((item, items[k as int])), templates, depth),
            ),
        )
    }
}

/// What a list of nodes renders to: each node in order, up to the first
/// that fails.
pub open spec fn render_nodes_spec(
    nodes: Seq<NodeView>,
    root: Value,
    locals: Seq<(Seq<char>, Value)>,
    templates: Map<Seq<char>, Seq<NodeView>>,
    depth: nat,
) -> Rendered
    decreases depth, nodes, 0nat,
{
    if nodes.len() == 0 {
        nothing()
    } else {
        then(
            render_nodes_spec(nodes.drop_last(), root, locals, templates, depth),
            render_node_spec(nodes.last(), root, locals, templates, depth),
        )
    }
}

/// That the buffer `after` is the buffer `before` with `out` written
/// behind it, and `r` reports the failure of `out`, if it has one.
pub open spec fn written(
    before: RenderBuffer,
    after: RenderBuffer,
    r: Result<(), TemplateError>,
    out: Rendered,
) -> bool {
    &&& after.sql@ == before.sql@ + out.sql
    &&& params_view(after.params@) == params_view(before.params@) + out.params
    &&& match r {
        Ok(()) => out.err is None,
        Err(e) => out.err == Some(e@),
    }
}

proof fn lemma_then_nothing(a: Rendered)
    ensures
        then(a, nothing()) == a,
        then(nothing(), a) == a,
{
    assert(a.sql + Seq::<char>::empty() =~= a.sql);
    assert(a.params + Seq::<ParamView>::empty() =~= a.params);
    assert(Seq::<char>::empty() + a.sql =~= a.sql);
    assert(Seq::<ParamView>::empty() + a.params =~= a.params);
}

/// Writing one thing after another is associative.
pub proof fn lemma_then_assoc(a: Rendered, b: Rendered, c: Rendered)
    ensures
        then(then(a, b), c) == then(a, then(b, c)),
{
    assert((a.sql + b.sql) + c.sql =~= a.sql + (b.sql + c.sql));
    assert((a.params + b.params) + c.params =~= a.params + (b.params + c.params));
}

/// That `after` is `before` with `done` written behind it.
spec fn extended(before: RenderBuffer, after: RenderBuffer, done: Rendered) -> bool {
    &&& after.sql@ == before.sql@ + done.sql
    &&& params_view(after.params@) == params_view(before.params@) + done.params
    &&& done.err is None
}

proof fn lemma_extended_step(
    before: RenderBuffer,
    mid: RenderBuffer,
    after: RenderBuffer,
    done: Rendered,
    r: Result<(), TemplateError>,
    out: Rendered,
)
    requires
        extended(before, mid, done),
        written(mid, after, r, out),
    ensures
        written(before, after, r, then(done, out)),
        r is Ok ==> extended(before, after, then(done, out)),
{
    assert((before.sql@ + done.sql) + out.sql =~= before.sql@ + (done.sql + out.sql));
    assert((params_view(before.params@) + done.params) + out.params =~= params_view(
        before.params@,
    ) + (done.params + out.params));
}

fn write_text(buf: &mut RenderBuffer, t: &str)
    ensures
        written(*old(buf), *final(buf), Ok(()), text(t@)),
        extended(*old(buf), *final(buf), text(t@)),
{
    buf.sql.append(t);
    proof {
        assert(params_view(buf.params@) + Seq::<ParamView>::empty() =~= params_view(buf.params@));
    }
}

fn render_var<'a>(name: &String, ctx: &Context<'a>, buf: &mut RenderBuffer) -> (r: Result<
    (),
    TemplateError,
>)
    ensures
        written(*old(buf), *final(buf), r, render_var_spec(name@, ctx.root(), ctx.locals())),
{
    let v = ctx.lookup(name.as_str());
    if v.is_scalar() {
        let p = value_to_param(v);
        let ghost pv = p@;
        buf.sql.push('?');
        buf.params.push(p);
        proof {
            assert(buf.sql@ =~= old(buf).sql@ + placeholder());
            assert(params_view(buf.params@) =~= params_view(old(buf).params@) + seq![pv]);
        }
        Ok(())
    } else {
        proof {
            assert(old(buf).sql@ + Seq::<char>::empty() =~= old(buf).sql@);
            assert(params_view(old(buf).params@) + Seq::<ParamView>::empty() =~= params_view(
                old(buf).params@,
            ));
        }
        Err(TemplateError::NotScalar { name: name.clone() })
    }
}

fn render_node<'a>(
    node: &AstNode,
    ctx: &mut Context<'a>,
    cache: &TemplateCache,
    depth: usize,
    buf: &mut RenderBuffer,
) -> (r: Result<(), TemplateError>)
    ensures
        final(ctx).root() == old(ctx).root(),
        final(ctx).locals() == old(ctx).locals(),
        written(
            *old(buf),
            *final(buf),
            r,
            render_node_spec(
                node@,
                old(ctx).root(),
                old(ctx).locals(),
                cache.templates(),
                depth as nat,
            ),
        ),
    decreases depth, node, 0nat,
{
    let ghost root = ctx.root();
    let ghost locals = ctx.locals();
    let ghost templates = cache.templates();
    match node {
        AstNode::Text(t) => {
            write_text(buf, t.as_str());
            Ok(())
        },
        AstNode::Var(name) => render_var(name, ctx, buf),
        AstNode::Include { refid } => {
            match cache.ast(refid.as_str()) {
                None => {
                    proof {
                        lemma_unwritten(*old(buf));
                    }
                    Err(TemplateError::MissingInclude { refid: refid.clone() })
                },
                Some(nodes) => {
                    if depth == 0 {
                        proof {
                            lemma_unwritten(*old(buf));
                        }
                        Err(TemplateError::IncludeDepth { refid: refid.clone() })
                    } else {
                        render_nodes(nodes, ctx, cache, depth - 1, buf)
                    }
                },
            }
        },
        AstNode::If { test, body } => {
            proof {
                lemma_if_view(*node);
            }
            match parse_test(test.as_str()) {
                None => {
                    proof {
                        lemma_unwritten(*old(buf));
                    }
                    Err(TemplateError::Syntax { name: String::new(), snippet: test.clone() })
                },
                Some(e) => {
                    let v = ctx.lookup(e.name.as_str());
                    if eval_test(&e.check, v) {
                        proof {
                            assert(decreases_to!(node => node->If_body));
                        }
                        render_nodes(body, ctx, cache, depth, buf)
                    } else {
                        proof {
                            lemma_unwritten(*old(buf));
                        }
                        Ok(())
                    }
                },
            }
        },
        AstNode::For { item, collection, open, sep, close, body } => {
            proof {
                lemma_for_view(*node);
                assert(decreases_to!(node => node->For_body));
            }
            let target = ctx.lookup(collection.as_str());
            match target {
                Value::List(items) => {
                    if items.len() == 0 {
                        proof {
                            lemma_unwritten(*old(buf));
                        }
                        return Ok(());
                    }
                    write_text(buf, open.as_str());
                    let ghost mut done = text(open@);
                    let ghost bodyv = nodes_view(body@);
                    let mut i: usize = 0;
                    proof {
                        lemma_then_nothing(done);
                    }
                    while i < items.len()
                        invariant
                            i <= items@.len(),
                            ctx.root() == root,
                            ctx.locals() == locals,
                            root == old(ctx).root(),
                            locals == old(ctx).locals(),
                            templates == cache.templates(),
                            bodyv == nodes_view(body@),
                            *node == (AstNode::For {
                                item: *item,
                                collection: *collection,
                                open: *open,
                                sep: *sep,
                                close: *close,
                                body: *body,
                            }),
                            *target == Value::List(*items),
                            *target == lookup_spec(root, locals, collection@),
                            items@.len() > 0,
                            extended(*old(buf), *buf, done),
                            done == then(
                                text(open@),
                                render_items_spec(
                                    bodyv,
                                    item@,
                                    sep@,
                                    items@,
                                    i as nat,
                                    root,
                                    locals,
                                    templates,
                                    depth as nat,
                                ),
                            ),
                        decreases items@.len() - i,
                    {
                        let ghost so_far = render_items_spec(
                            bodyv,
                            item@,
                            sep@,
                            items@,
                            i as nat,
                            root,
                            locals,
                            templates,
                            depth as nat,
                        );
                        let ghost sep_part = if i > 0 {
                            text(sep@)
                        } else {
                            nothing()
                        };
                        let ghost before_sep = *buf;
                        if i > 0 {
                            write_text(buf, sep.as_str());
                        } else {
                            proof {
                                lemma_unwritten(*buf);
                            }
                        }
                        let ghost mid = *buf;
                        ctx.push(item.as_str(), &items[i]);
                        proof {
                            assert(decreases_to!(node => node->For_body));
                        }
                        let r = render_nodes(body, ctx, cache, depth, buf);
                        ctx.pop();
                        let ghost one = render_nodes_spec(
                            bodyv,
                            root,
                            locals.push((item@, items@[i as int])),
                            templates,
                            depth as nat,
                        );
                        proof {
                            assert(locals.push((item@, items@[i as int])).drop_last() =~= locals);
                            let ok: Result<(), TemplateError> = Ok(());
                            lemma_extended_step(*old(buf), before_sep, mid, done, ok, sep_part);
                            lemma_extended_step(*old(buf), mid, *buf, then(done, sep_part), r, one);
                            lemma_then_assoc(done, sep_part, one);
                            lemma_then_assoc(text(open@), so_far, then(sep_part, one));
                            done = then(done, then(sep_part, one));
                        }
                        match r {
                            Err(e) => {
                                proof {
                                    let step = render_items_spec(
                                        bodyv,
                                        item@,
                                        sep@,
                                        items@,
                                        (i + 1) as nat,
                                        root,
                                        locals,
                                        templates,
                                        depth as nat,
                                    );
                                    assert(step == then(so_far, then(sep_part, one)));
                                    lemma_items_failure_stays(
                                        bodyv,
                                        item@,
                                        sep@,
                                        items@,
                                        (i + 1) as nat,
                                        items@.len(),
                                        root,
                                        locals,
                                        templates,
                                        depth as nat,
                                    );
                                    let full = render_items_spec(
                                        bodyv,
                                        item@,
                                        sep@,
                                        items@,
                                        items@.len(),
                                        root,
                                        locals,
                                        templates,
                                        depth as nat,
                                    );
                                    assert(full == step);
                                    lemma_for_view(*node);
                                    let spec = render_node_spec(
                                        node@,
                                        root,
                                        locals,
                                        templates,
                                        depth as nat,
                                    );
                                    assert(spec == then(text(open@), then(full, text(close@))));
                                }
                                return Err(e);
                            },
                            Ok(()) => {},
                        }
                        i += 1;
                    }
                    let ghost before_close = *buf;
                    write_text(buf, close.as_str());
                    proof {
                        let ok: Result<(), TemplateError> = Ok(());
                        lemma_extended_step(*old(buf), before_close, *buf, done, ok, text(close@));
                        lemma_then_assoc(
                            text(open@),
                            render_items_spec(
                                bodyv,
                                item@,
                                sep@,
                                items@,
                                items@.len(),
                                root,
                                locals,
                                templates,
                                depth as nat,
                            ),
                            text(close@),
                        );
                    }
                    Ok(())
                },
                _ => {
                    proof {
                        lemma_unwritten(*old(buf));
                    }
                    Err(TemplateError::NotIterable { collection: collection.clone() })
                },
            }
        },
    }
}

/// Writing nothing leaves a buffer as it is.
proof fn lemma_unwritten(buf: RenderBuffer)
    ensures
        buf.sql@ + Seq::<char>::empty() == buf.sql@,
        params_view(buf.params@) + Seq::<ParamView>::empty() == params_view(buf.params@),
        extended(buf, buf, nothing()),
{
    assert(buf.sql@ + Seq::<char>::empty() =~= buf.sql@);
    assert(params_view(buf.params@) + Seq::<ParamView>::empty() =~= params_view(buf.params@));
}

/// Once the body fails for one element, the iteration has failed in that
/// way and with that output, however many elements follow.
proof fn lemma_items_failure_stays(
    body: Seq<NodeView>,
    item: Seq<char>,
    sep: Seq<char>,
    items: Seq<Value>,
    k: nat,
    n: nat,
    root: Value,
    locals: Seq<(Seq<char>, Value)>,
    templates: Map<Seq<char>, Seq<NodeView>>,
    depth: nat,
)
    requires
        k <= n <= items.len(),
        render_items_spec(body, item, sep, items, k, root, locals, templates, depth).err is Some,
    ensures
        render_items_spec(body, item, sep, items, n, root, locals, templates, depth)
            == render_items_spec(body, item, sep, items, k, root, locals, templates, depth),
    decreases n - k,
{
    if k < n {
        lemma_items_failure_stays(
            body,
            item,
            sep,
            items,
            k,
            (n - 1) as nat,
            root,
            locals,
            templates,
            depth,
        );
    }
}

/// Once a node fails, the list has failed in that way and with that
/// output, whatever nodes follow.
proof fn lemma_nodes_failure_stays(
    nodes: Seq<NodeView>,
    k: int,
    root: Value,
    locals: Seq<(Seq<char>, Value)>,
    templates: Map<Seq<char>, Seq<NodeView>>,
    depth: nat,
)
    requires
        0 <= k <= nodes.len(),
        render_nodes_spec(nodes.take(k), root, locals, templates, depth).err is Some,
    ensures
        render_nodes_spec(nodes, root, locals, templates, depth) == render_nodes_spec(
            nodes.take(k),
            root,
            locals,
            templates,
            depth,
        ),
    decreases nodes.len(),
{
    if k < nodes.len() {
        assert(nodes.drop_last().take(k) =~= nodes.take(k));
        lemma_nodes_failure_stays(nodes.drop_last(), k, root, locals, templates, depth);
    } else {
        assert(nodes.take(k) =~= nodes);
    }
}

fn render_nodes<'a>(
    nodes: &Vec<AstNode>,
    ctx: &mut Context<'a>,
    cache: &TemplateCache,
    depth: usize,
    buf: &mut RenderBuffer,
) -> (r: Result<(), TemplateError>)
    ensures
        final(ctx).root() == old(ctx).root(),
        final(ctx).locals() == old(ctx).locals(),
        written(
            *old(buf),
            *final(buf),
            r,
            render_nodes_spec(
                nodes_view(nodes@),
                old(ctx).root(),
                old(ctx).locals(),
                cache.templates(),
                depth as nat,
            ),
        ),
    decreases depth, nodes, 1nat,
{
    let ghost root = ctx.root();
    let ghost locals = ctx.locals();
    let ghost templates = cache.templates();
    let ghost all = nodes_view(nodes@);
    let ghost mut done = nothing();
    let mut i: usize = 0;
    proof {
        lemma_unwritten(*old(buf));
        assert(all.take(0) =~= Seq::empty());
    }
    while i < nodes.len()
        invariant
            i <= nodes@.len(),
            ctx.root() == root,
            ctx.locals() == locals,
            root == old(ctx).root(),
            locals == old(ctx).locals(),
            templates == cache.templates(),
            all == nodes_view(nodes@),
            extended(*old(buf), *buf, done),
            done == render_nodes_spec(all.take(i as int), root, locals, templates, depth as nat),
        decreases nodes@.len() - i,
    {
        let ghost mid = *buf;
        proof {
            vstd::std_specs::vec::axiom_vec_index_decreases(*nodes, i as int);
            assert(all.take(i + 1).drop_last() =~= all.take(i as int));
            assert(all.take(i + 1).last() == nodes@[i as int]@);
        }
        let r = render_node(&nodes[i], ctx, cache, depth, buf);
        proof {
            let one = render_node_spec(nodes@[i as int]@, root, locals, templates, depth as nat);
            lemma_extended_step(*old(buf), mid, *buf, done, r, one);
            done = then(done, one);
        }
        match r {
            Err(e) => {
                proof {
                    lemma_nodes_failure_stays(all, i + 1, root, locals, templates, depth as nat);
                }
                return Err(e);
            },
            Ok(()) => {},
        }
        i += 1;
    }
    proof {
        assert(all.take(nodes@.len() as int) =~= all);
    }
    Ok(())
}

/// Renders `ast` against `ctx` into `buf`.
///
/// The text and the parameters that [`render_nodes_spec`] gives are written
/// behind what `buf` holds, the parameters in the order of their
/// placeholders; on a failure, what was rendered before it stays written.
/// Includes are resolved in `cache` and may nest as deep as it has
/// templates. The local variables of `ctx` are left as they were.
pub fn render<'a>(
    ast: &Vec<AstNode>,
    ctx: &mut Context<'a>,
    cache: &TemplateCache,
    buf: &mut RenderBuffer,
) -> (r: Result<(), TemplateError>)
    ensures
        final(ctx).root() == old(ctx).root(),
        final(ctx).locals() == old(ctx).locals(),
        written(
            *old(buf),
            *final(buf),
            r,
            render_nodes_spec(
                nodes_view(ast@),
                old(ctx).root(),
                old(ctx).locals(),
                cache.templates(),
                cache.size(),
            ),
        ),
{
    render_nodes(ast, ctx, cache, cache.len(), buf)
}

/// The number of placeholders in a text.
pub open spec fn placeholders(sql: Seq<char>) -> nat
    decreases sql.len(),
{
    if sql.len() == 0 {
        0
    } else {
        placeholders(sql.drop_last()) + if sql.last() == '?' {
            1nat
        } else {
            0nat
        }
    }
}

/// The literal text of the node, and of the nodes within it, holds no
/// placeholder of its own.
pub open spec fn plain_node(node: NodeView) -> bool
    decreases node,
{
    match node {
        NodeView::Text(t) => placeholders(t) == 0,
        NodeView::Var(_) => true,
        NodeView::Include { refid } => true,
        NodeView::If { test, body } => forall|i: int|
            0 <= i < body.len() ==> plain_node(#[trigger] body[i]),
        NodeView::For { item, collection, open, sep, close, body } => {
            &&& placeholders(open) == 0
            &&& placeholders(sep) == 0
            &&& placeholders(close) == 0
            &&& forall|i: int| 0 <= i < body.len() ==> plain_node(#[trigger] body[i])
        },
    }
}

/// Every node of the list is plain.
pub open spec fn plain_nodes(nodes: Seq<NodeView>) -> bool {
    forall|i: int| 0 <= i < nodes.len() ==> plain_node(#[trigger] nodes[i])
}

/// Every registered template is plain.
pub open spec fn plain_templates(templates: Map<Seq<char>, Seq<NodeView>>) -> bool {
    forall|k: Seq<char>| #[trigger] templates.contains_key(k) ==> plain_nodes(templates[k])
}

/// As many parameters as placeholders.
pub open spec fn balanced(out: Rendered) -> bool {
    placeholders(out.sql) == out.params.len()
}

/// The placeholders of two texts in a row are those of the one and those
/// of the other.
pub proof fn lemma_placeholders_concat(a: Seq<char>, b: Seq<char>)
    ensures
        placeholders(a + b) == placeholders(a) + placeholders(b),
    decreases b.len(),
{
    if b.len() == 0 {
        assert(a + b =~= a);
    } else {
        assert((a + b).drop_last() =~= a + b.drop_last());
        assert((a + b).last() == b.last());
        lemma_placeholders_concat(a, b.drop_last());
    }
}

proof fn lemma_balanced_then(a: Rendered, b: Rendered)
    requires
        balanced(a),
        balanced(b),
    ensures
        balanced(then(a, b)),
{
    lemma_placeholders_concat(a.sql, b.sql);
}

proof fn lemma_balanced_text(t: Seq<char>)
    requires
        placeholders(t) == 0,
    ensures
        balanced(text(t)),
        balanced(nothing()),
{
}

proof fn lemma_balanced_node(
    node: NodeView,
    root: Value,
    locals: Seq<(Seq<char>, Value)>,
    templates: Map<Seq<char>, Seq<NodeView>>,
    depth: nat,
)
    requires
        plain_node(node),
        plain_templates(templates),
    ensures
        balanced(render_node_spec(node, root, locals, templates, depth)),
    decreases depth, node, 0nat,
{
    match node {
        NodeView::Text(t) => {},
        NodeView::Var(name) => {
            let mark = placeholder();
            assert(mark.drop_last() =~= Seq::<char>::empty());
            assert(placeholders(mark) == 1) by {
                reveal_with_fuel(placeholders, 3);
            }
        },
        NodeView::Include { refid } => {
            if templates.contains_key(refid) && depth > 0 {
                lemma_balanced_nodes(templates[refid], root, locals, templates, (depth - 1) as nat);
            }
        },
        NodeView::If { test, body } => {
            if parse_test_spec(test) is Some {
                lemma_balanced_nodes(body, root, locals, templates, depth);
            }
        },
        NodeView::For { item, collection, open, sep, close, body } => {
            match lookup_spec(root, locals, collection) {
                Value::List(items) => {
                    if items@.len() > 0 {
                        lemma_balanced_items(
                            body,
                            item,
                            sep,
                            items@,
                            items@.len(),
                            root,
                            locals,
                            templates,
                            depth,
                        );
                        let inner = render_items_spec(
                            body,
                            item,
                            sep,
                            items@,
                            items@.len(),
                            root,
                            locals,
                            templates,
                            depth,
                        );
                        lemma_balanced_text(open);
                        lemma_balanced_text(close);
                        lemma_balanced_then(inner, text(close));
                        lemma_balanced_then(text(open), then(inner, text(close)));
                    }
                },
                _ => {},
            }
        },
    }
}

proof fn lemma_balanced_items(
    body: Seq<NodeView>,
    item: Seq<char>,
    sep: Seq<char>,
    items: Seq<Value>,
    n: nat,
    root: Value,
    locals: Seq<(Seq<char>, Value)>,
    templates: Map<Seq<char>, Seq<NodeView>>,
    depth: nat,
)
    requires
        plain_nodes(body),
        placeholders(sep) == 0,
        plain_templates(templates),
    ensures
        balanced(render_items_spec(body, item, sep, items, n, root, locals, templates, depth)),
    decreases depth, body, n + 1,
{
    if n == 0 || n > items.len() {
    } else {
        let k = (n - 1) as nat;
        let before = render_items_spec(body, item, sep, items, k, root, locals, templates, depth);
        let sep_part = if k > 0 {
            text(sep)
        } else {
            nothing()
        };
        let one = render_nodes_spec(
            body,
            root,
            locals.push((item, items[k as int])),
            templates,
            depth,
        );
        lemma_balanced_items(body, item, sep, items, k, root, locals, templates, depth);
        lemma_balanced_nodes(body, root, locals.push((item, items[k as int])), templates, depth);
        lemma_balanced_text(sep);
        lemma_balanced_then(sep_part, one);
        lemma_balanced_then(before, then(sep_part, one));
    }
}

proof fn lemma_balanced_nodes(
    nodes: Seq<NodeView>,
    root: Value,
    locals: Seq<(Seq<char>, Value)>,
    templates: Map<Seq<char>, Seq<NodeView>>,
    depth: nat,
)
    requires
        plain_nodes(nodes),
        plain_templates(templates),
    ensures
        balanced(render_nodes_spec(nodes, root, locals, templates, depth)),
    decreases depth, nodes, 0nat,
{
    if nodes.len() > 0 {
        assert(plain_nodes(nodes.drop_last())) by {
            assert forall|i: int| 0 <= i < nodes.drop_last().len() implies plain_node(
                #[trigger] nodes.drop_last()[i],
            ) by {
                assert(nodes.drop_last()[i] == nodes[i]);
            }
        }
        assert(plain_node(nodes.last()));
        lemma_balanced_nodes(nodes.drop_last(), root, locals, templates, depth);
        lemma_balanced_node(nodes.last(), root, locals, templates, depth);
        lemma_balanced_then(
            render_nodes_spec(nodes.drop_last(), root, locals, templates, depth),
            render_node_spec(nodes.last(), root, locals, templates, depth),
        );
    }
}

/// The parameters follow the placeholders: where no literal text of the
/// nodes and of the registered templates holds a question mark of its own,
/// the text rendered holds exactly one placeholder for each parameter,
/// whether the rendering ends in a failure or not. Both are written at the
/// same moment, so the n-th parameter belongs to the n-th placeholder.
pub proof fn lemma_parameters_follow_placeholders(
    nodes: Seq<NodeView>,
    root: Value,
    locals: Seq<(Seq<char>, Value)>,
    templates: Map<Seq<char>, Seq<NodeView>>,
    depth: nat,
)
    requires
        plain_nodes(nodes),
        plain_templates(templates),
    ensures
        placeholders(render_nodes_spec(nodes, root, locals, templates, depth).sql)
            == render_nodes_spec(nodes, root, locals, templates, depth).params.len(),
{
    lemma_balanced_nodes(nodes, root, locals, templates, depth);
}

} // verus!
