//! What includes render to: the nodes of the included template, at the
//! place of the include, as long as the nesting of includes stays within
//! the depth that rendering allows.
use vstd::prelude::*;
use crate::sql_tpl::ast::{NodeView, lookup_spec};
use crate::sql_tpl::engine::lemma_render_concat;
use crate::sql_tpl::error::TemplateErrorView;
use crate::sql_tpl::expr::{eval_spec, parse_test_spec};
use crate::sql_tpl::render::{Rendered, render_items_spec, render_node_spec, render_nodes_spec, text, then};
use crate::sql_tpl::value::Value;

verus! {

/// The rendering ended because includes nested deeper than allowed.
pub open spec fn out_of_depth(out: Rendered) -> bool {
    out.err is Some && out.err->Some_0 is IncludeDepth
}

/// The includes of the node nest at most `k` deep among `templates`: an
/// include of a registered template asks for one level and for what the
/// nodes of that template ask for; an include of a template that is not
/// registered asks for none.
pub open spec fn nests_node(node: NodeView, templates: Map<Seq<char>, Seq<NodeView>>, k: nat) -> bool
    decreases k, node,
{
    match node {
        NodeView::Text(_) => true,
        NodeView::Var(_) => true,
        NodeView::Include { refid } => !templates.contains_key(refid) || (k > 0 && forall|i: int|
            0 <= i < templates[refid].len() ==> nests_node(
                #[trigger] templates[refid][i],
                templates,
                (k - 1) as nat,
            )),
        NodeView::If { test, body } => forall|i: int|
            0 <= i < body.len() ==> nests_node(#[trigger] body[i], templates, k),
        NodeView::For { item, collection, open, sep, close, body } => forall|i: int|
            0 <= i < body.len() ==> nests_node(#[trigger] body[i], templates, k),
    }
}

/// The includes of every node of the list nest at most `k` deep.
pub open spec fn nests_nodes(nodes: Seq<NodeView>, templates: Map<Seq<char>, Seq<NodeView>>, k: nat) -> bool {
    forall|i: int| 0 <= i < nodes.len() ==> nests_node(#[trigger] nodes[i], templates, k)
}

proof fn lemma_more_depth_node(
    node: NodeView,
    root: Value,
    locals: Seq<(Seq<char>, Value)>,
    templates: Map<Seq<char>, Seq<NodeView>>,
    depth: nat,
)
    requires
        !out_of_depth(render_node_spec(node, root, locals, templates, depth)),
    ensures
        render_node_spec(node, root, locals, templates, depth + 1) == render_node_spec(
            node,
            root,
            locals,
            templates,
            depth,
        ),
    decreases depth, node, 0nat,
{
    match node {
        NodeView::Text(_) => {},
        NodeView::Var(_) => {},
        NodeView::Include { refid } => {
            if templates.contains_key(refid) && depth > 0 {
                lemma_more_depth_nodes(templates[refid], root, locals, templates, (depth - 1) as nat);
            }
        },
        NodeView::If { test, body } => {
            match parse_test_spec(test) {
                Some(e) => {
                    if eval_spec(e.check, lookup_spec(root, locals, e.name)) {
                        lemma_more_depth_nodes(body, root, locals, templates, depth);
                    }
                },
                None => {},
            }
        },
        NodeView::For { item, collection, open, sep, close, body } => {
            match lookup_spec(root, locals, collection) {
                Value::List(items) => {
                    if items@.len() > 0 {
                        lemma_more_depth_items(
                            body,
                            item,
                            sep,
                            items@,
                            items@.len(),
                            root,
                            locals,
                            templates,
                            depth,
                        );
                    }
                },
                _ => {},
            }
        },
    }
}

proof fn lemma_more_depth_items(
    body: Seq<NodeView>,
    item: Seq<char>,
    sep: Seq<char>,
    items: Seq<Value>,
    n: nat,
    root: Value,
    locals: Seq<(Seq<char>, Value)>,
    templates: Map<Seq<char>, Seq<NodeView>>,
    depth: nat,
)
    requires
        !out_of_depth(render_items_spec(body, item, sep, items, n, root, locals, templates, depth)),
    ensures
        render_items_spec(body, item, sep, items, n, root, locals, templates, depth + 1)
            == render_items_spec(body, item, sep, items, n, root, locals, templates, depth),
    decreases depth, body, n + 1,
{
    if n == 0 || n > items.len() {
    } else {
        let k = (n - 1) as nat;
        let before = render_items_spec(body, item, sep, items, k, root, locals, templates, depth);
        lemma_more_depth_items(body, item, sep, items, k, root, locals, templates, depth);
        if before.err is None {
            lemma_more_depth_nodes(
                body,
                root,
                locals.push((item, items[k as int])),
                templates,
                depth,
            );
        }
    }
}

/// More depth changes nothing: a rendering that did not end for want of
/// depth is the same rendering at a greater depth.
pub proof fn lemma_more_depth_nodes(
    nodes: Seq<NodeView>,
    root: Value,
    locals: Seq<(Seq<char>, Value)>,
    templates: Map<Seq<char>, Seq<NodeView>>,
    depth: nat,
)
    requires
        !out_of_depth(render_nodes_spec(nodes, root, locals, templates, depth)),
    ensures
        render_nodes_spec(nodes, root, locals, templates, depth + 1) == render_nodes_spec(
            nodes,
            root,
            locals,
            templates,
            depth,
        ),
    decreases depth, nodes, 0nat,
{
    if nodes.len() > 0 {
        let front = render_nodes_spec(nodes.drop_last(), root, locals, templates, depth);
        lemma_more_depth_nodes(nodes.drop_last(), root, locals, templates, depth);
        if front.err is None {
            lemma_more_depth_node(nodes.last(), root, locals, templates, depth);
        }
    }
}

proof fn lemma_nesting_node(
    node: NodeView,
    root: Value,
    locals: Seq<(Seq<char>, Value)>,
    templates: Map<Seq<char>, Seq<NodeView>>,
    k: nat,
    depth: nat,
)
    requires
        nests_node(node, templates, k),
        k <= depth,
    ensures
        !out_of_depth(render_node_spec(node, root, locals, templates, depth)),
    decreases depth, node, 0nat,
{
    match node {
        NodeView::Text(_) => {},
        NodeView::Var(_) => {},
        NodeView::Include { refid } => {
            if templates.contains_key(refid) {
                lemma_nesting_nodes(
                    templates[refid],
                    root,
                    locals,
                    templates,
                    (k - 1) as nat,
                    (depth - 1) as nat,
                );
            }
        },
        NodeView::If { test, body } => {
            match parse_test_spec(test) {
                Some(e) => {
                    lemma_nesting_nodes(body, root, locals, templates, k, depth);
                },
                None => {},
            }
        },
        NodeView::For { item, collection, open, sep, close, body } => {
            match lookup_spec(root, locals, collection) {
                Value::List(items) => {
                    if items@.len() > 0 {
                        lemma_nesting_items(
                            body,
                            item,
                            sep,
                            items@,
                            items@.len(),
                            root,
                            locals,
                            templates,
                            k,
                            depth,
                        );
                    }
                },
                _ => {},
            }
        },
    }
}

proof fn lemma_nesting_items(
    body: Seq<NodeView>,
    item: Seq<char>,
    sep: Seq<char>,
    items: Seq<Value>,
    n: nat,
    root: Value,
    locals: Seq<(Seq<char>, Value)>,
    templates: Map<Seq<char>, Seq<NodeView>>,
    k: nat,
    depth: nat,
)
    requires
        nests_nodes(body, templates, k),
        k <= depth,
    ensures
        !out_of_depth(render_items_spec(body, item, sep, items, n, root, locals, templates, depth)),
    decreases depth, body, n + 1,
{
    if n == 0 || n > items.len() {
    } else {
        let m = (n - 1) as nat;
        lemma_nesting_items(body, item, sep, items, m, root, locals, templates, k, depth);
        lemma_nesting_nodes(
            body,
            root,
            locals.push((item, items[m as int])),
            templates,
            k,
            depth,
        );
    }
}

/// Rendering never ends for want of depth where the includes nest no
/// deeper than the depth allows.
pub proof fn lemma_nesting_nodes(
    nodes: Seq<NodeView>,
    root: Value,
    locals: Seq<(Seq<char>, Value)>,
    templates: Map<Seq<char>, Seq<NodeView>>,
    k: nat,
    depth: nat,
)
    requires
        nests_nodes(nodes, templates, k),
        k <= depth,
    ensures
        !out_of_depth(render_nodes_spec(nodes, root, locals, templates, depth)),
    decreases depth, nodes, 0nat,
{
    if nodes.len() > 0 {
        assert(nests_nodes(nodes.drop_last(), templates, k)) by {
            assert forall|i: int| 0 <= i < nodes.drop_last().len() implies nests_node(
                #[trigger] nodes.drop_last()[i],
                templates,
                k,
            ) by {
                assert(nodes.drop_last()[i] == nodes[i]);
            }
        }
        assert(nests_node(nodes.last(), templates, k));
        lemma_nesting_nodes(nodes.drop_last(), root, locals, templates, k, depth);
        lemma_nesting_node(nodes.last(), root, locals, templates, k, depth);
    }
}

/// An include renders what the nodes of the included template render, in
/// its place: a list of nodes with an include renders to what the list
/// renders to in which the nodes registered under the include's name stand
/// in place of the include, provided the rendering does not end for want
/// of depth.
pub proof fn lemma_include_is_spliced(
    before: Seq<NodeView>,
    refid: Seq<char>,
    after: Seq<NodeView>,
    root: Value,
    locals: Seq<(Seq<char>, Value)>,
    templates: Map<Seq<char>, Seq<NodeView>>,
    depth: nat,
)
    requires
        templates.contains_key(refid),
        !out_of_depth(
            render_nodes_spec(
                before + seq![NodeView::Include { refid }] + after,
                root,
                locals,
                templates,
                depth,
            ),
        ),
    ensures
        render_nodes_spec(
            before + seq![NodeView::Include { refid }] + after,
            root,
            locals,
            templates,
            depth,
        ) == render_nodes_spec(before + templates[refid] + after, root, locals, templates, depth),
{
    let inc = seq![NodeView::Include { refid }];
    let rb = render_nodes_spec(before, root, locals, templates, depth);
    let ra = render_nodes_spec(after, root, locals, templates, depth);
    lemma_render_concat(before + inc, after, root, locals, templates, depth);
    lemma_render_concat(before, inc, root, locals, templates, depth);
    lemma_render_concat(before + templates[refid], after, root, locals, templates, depth);
    lemma_render_concat(before, templates[refid], root, locals, templates, depth);
    assert(inc.drop_last() =~= Seq::<NodeView>::empty());
    assert(inc.last() == NodeView::Include { refid });
    let one = render_node_spec(inc.last(), root, locals, templates, depth);
    assert(render_nodes_spec(inc.drop_last(), root, locals, templates, depth).err is None);
    assert(render_nodes_spec(inc, root, locals, templates, depth).err == one.err);
    if rb.err is None {
        if depth > 0 {
            lemma_more_depth_nodes(templates[refid], root, locals, templates, (depth - 1) as nat);
            let inner = render_nodes_spec(templates[refid], root, locals, templates, depth);
            assert(one == inner);
            assert(render_nodes_spec(inc, root, locals, templates, depth) == then(
                render_nodes_spec(inc.drop_last(), root, locals, templates, depth),
                one,
            ));
            assert(Seq::<char>::empty() + one.sql =~= one.sql);
            assert(Seq::empty() + one.params =~= one.params);
        }
    }
}

/// Include resolution is transitive: where a template includes `outer`,
/// and the template registered as `outer` includes `inner`, the rendering
/// is that of the nodes in which the nodes of `inner` stand at the place of
/// its include within the nodes of `outer`, which stand at the place of the
/// include of `outer`: the same text at the same places, and the
/// parameters of the included parts in their order from left to right. It
/// holds where the includes nest no deeper than the depth allows.
pub proof fn lemma_nested_includes_render_inline(
    before: Seq<NodeView>,
    outer: Seq<char>,
    after: Seq<NodeView>,
    outer_before: Seq<NodeView>,
    inner: Seq<char>,
    outer_after: Seq<NodeView>,
    root: Value,
    locals: Seq<(Seq<char>, Value)>,
    templates: Map<Seq<char>, Seq<NodeView>>,
    k: nat,
    depth: nat,
)
    requires
        templates.contains_key(outer),
        templates.contains_key(inner),
        templates[outer] == outer_before + seq![NodeView::Include { refid: inner }] + outer_after,
        nests_nodes(before + seq![NodeView::Include { refid: outer }] + after, templates, k),
        k <= depth,
    ensures
        render_nodes_spec(
            before + seq![NodeView::Include { refid: outer }] + after,
            root,
            locals,
            templates,
            depth,
        ) == render_nodes_spec(
            before + (outer_before + templates[inner] + outer_after) + after,
            root,
            locals,
            templates,
            depth,
        ),
{
    let whole = before + seq![NodeView::Include { refid: outer }] + after;
    lemma_nesting_nodes(whole, root, locals, templates, k, depth);
    lemma_include_is_spliced(before, outer, after, root, locals, templates, depth);
    let once = before + templates[outer] + after;
    let inc = seq![NodeView::Include { refid: inner }];
    assert(once =~= (before + outer_before) + inc + (outer_after + after));
    lemma_include_is_spliced(
        before + outer_before,
        inner,
        outer_after + after,
        root,
        locals,
        templates,
        depth,
    );
    assert((before + outer_before) + templates[inner] + (outer_after + after) =~= before + (
    outer_before + templates[inner] + outer_after) + after);
}

/// A cache with two names allows includes to nest two deep, a cache with
/// more names deeper: a finite set that holds two different members has at
/// least two.
pub proof fn lemma_two_names(templates: Map<Seq<char>, Seq<NodeView>>, a: Seq<char>, b: Seq<char>)
    requires
        templates.dom().finite(),
        templates.contains_key(a),
        templates.contains_key(b),
        a != b,
    ensures
        templates.dom().len() >= 2,
{
    let s = templates.dom();
    assert(s.remove(a).contains(b));
    assert(s.remove(a).len() == s.len() - 1);
    assert(s.remove(a).remove(b).len() == s.remove(a).len() - 1);
}

} // verus!
