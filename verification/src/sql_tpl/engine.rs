//! The template engine: from a template's name and text and a parameter
//! value to SQL text and its ordered parameters.
use vstd::prelude::*;
use vstd::string::*;
use crate::sql_tpl::ast::{Context, NodeView, RenderBuffer, params_view};
use crate::sql_tpl::cache::{TemplateCache, requested};
use crate::sql_tpl::error::{TemplateError, TemplateErrorView};
use crate::sql_tpl::parser::{parse_spec, snippet_spec};
use crate::sql_tpl::render::{Rendered, lemma_then_assoc, nothing, render, render_node_spec, render_nodes_spec, then};
use crate::sql_tpl::value::{SqlParam, Value};

verus! {

/// What the template registered under `name` renders to against the
/// parameter `root`, with includes resolved among `templates`.
pub open spec fn render_template_spec(
    templates: Map<Seq<char>, Seq<NodeView>>,
    name: Seq<char>,
    root: Value,
) -> Rendered {
    render_nodes_spec(templates[name], root, Seq::empty(), templates, templates.dom().len())
}

/// Renders the template `name` with the text `content` against `param`.
///
/// The template is taken from the cache where it is cached with this very
/// text, and is parsed and cached otherwise (see
/// [`TemplateCache::get_ast`]); a malformed text is a syntax error and
/// leaves the cache as it was. The template is then rendered against
/// `param`: the result is the SQL text and the parameters in placeholder
/// order, or the failure that ended the rendering.
pub fn render_template(cache: &mut TemplateCache, name: &str, content: &str, param: &Value) -> (r:
    Result<(String, Vec<SqlParam>), TemplateError>)
    requires
        old(cache).wf(),
    ensures
        final(cache).wf(),
        final(cache).state() == requested(old(cache).state(), name@, content@),
        match parse_spec(content@) {
            Err(pos) => r matches Err(e) && e@ == (TemplateErrorView::Syntax {
                name: name@,
                snippet: snippet_spec(content@, pos),
            }),
            Ok(_) => {
                let out = render_template_spec(final(cache).templates(), name@, *param);
                match r {
                    Ok((sql, params)) => out.err is None && sql@ == out.sql && params_view(params@)
                        == out.params,
                    Err(e) => out.err == Some(e@),
                }
            },
        },
{
    proof {
        old(cache).lemma_cached_is_parsed(name@);
    }
    match cache.get_ast(name, content) {
        Err(e) => {
            return Err(e);
        },
        Ok(_) => {},
    }
    proof {
        cache.lemma_cached_is_parsed(name@);
        if old(cache).contents().contains_key(name@) && old(cache).contents()[name@] == content@ {
            assert(old(cache).contents().insert(name@, content@) =~= old(cache).contents());
            assert(old(cache).templates().insert(name@, old(cache).templates()[name@])
                =~= old(cache).templates());
        }
    }
    let mut buf = RenderBuffer::new();
    let mut ctx = Context::new(param);
    let r = match cache.ast(name) {
        Some(ast) => render(ast, &mut ctx, cache, &mut buf),
        None => {
            proof {
                assert(false);
            }
            Ok(())
        },
    };
    proof {
        cache.lemma_size();
        assert(Seq::<char>::empty() + buf.sql@ =~= buf.sql@);
        let out = render_template_spec(cache.templates(), name@, *param);
        assert(Seq::empty() + out.params =~= out.params);
        assert(Seq::empty() + out.sql =~= out.sql);
        assert(params_view(Seq::<SqlParam>::empty()) =~= Seq::empty());
    }
    match r {
        Ok(()) => Ok((buf.sql, buf.params)),
        Err(e) => Err(e),
    }
}

/// Evicts the template `name` from the cache; where it is not cached,
/// nothing changes.
pub fn remove_template(cache: &mut TemplateCache, name: &str)
    requires
        old(cache).wf(),
    ensures
        final(cache).wf(),
        final(cache).contents() == old(cache).contents().remove(name@),
        final(cache).templates() == old(cache).templates().remove(name@),
        final(cache).parse_count() == old(cache).parse_count(),
{
    cache.remove(name);
}

/// Rendering is compositional: a list of nodes renders to what its first
/// part renders to, followed by what the rest renders to.
pub proof fn lemma_render_concat(
    a: Seq<NodeView>,
    b: Seq<NodeView>,
    root: Value,
    locals: Seq<(Seq<char>, Value)>,
    templates: Map<Seq<char>, Seq<NodeView>>,
    depth: nat,
)
    ensures
        render_nodes_spec(a + b, root, locals, templates, depth) == then(
            render_nodes_spec(a, root, locals, templates, depth),
            render_nodes_spec(b, root, locals, templates, depth),
        ),
    decreases b.len(),
{
    let ra = render_nodes_spec(a, root, locals, templates, depth);
    if b.len() == 0 {
        assert(a + b =~= a);
        assert(ra.sql + Seq::<char>::empty() =~= ra.sql);
        assert(ra.params + Seq::empty() =~= ra.params);
    } else {
        assert((a + b).drop_last() =~= a + b.drop_last());
        assert((a + b).last() == b.last());
        lemma_render_concat(a, b.drop_last(), root, locals, templates, depth);
        lemma_then_assoc(
            ra,
            render_nodes_spec(b.drop_last(), root, locals, templates, depth),
            render_node_spec(b.last(), root, locals, templates, depth),
        );
    }
}

/// An include renders, at its position, what the included template
/// renders to: the nodes before it, then the nodes registered under its
/// name, then the nodes behind it.
pub proof fn lemma_include_renders_inline(
    before: Seq<NodeView>,
    refid: Seq<char>,
    after: Seq<NodeView>,
    root: Value,
    locals: Seq<(Seq<char>, Value)>,
    templates: Map<Seq<char>, Seq<NodeView>>,
    depth: nat,
)
    requires
        templates.contains_key(refid),
        depth > 0,
    ensures
        render_nodes_spec(
            before + seq![NodeView::Include { refid }] + after,
            root,
            locals,
            templates,
            depth,
        ) == then(
            render_nodes_spec(before, root, locals, templates, depth),
            then(
                render_nodes_spec(templates[refid], root, locals, templates, (depth - 1) as nat),
                render_nodes_spec(after, root, locals, templates, depth),
            ),
        ),
{
    let inc = seq![NodeView::Include { refid }];
    lemma_render_concat(before + inc, after, root, locals, templates, depth);
    lemma_render_concat(before, inc, root, locals, templates, depth);
    assert(inc.drop_last() =~= Seq::empty());
    assert(inc.last() == NodeView::Include { refid });
    let one = render_node_spec(inc.last(), root, locals, templates, depth);
    assert(render_nodes_spec(inc.drop_last(), root, locals, templates, depth) == nothing());
    assert(render_nodes_spec(inc, root, locals, templates, depth) == then(nothing(), one));
    assert(Seq::<char>::empty() + one.sql =~= one.sql);
    assert(Seq::empty() + one.params =~= one.params);
    lemma_then_assoc(
        render_nodes_spec(before, root, locals, templates, depth),
        one,
        render_nodes_spec(after, root, locals, templates, depth),
    );
}

/// Include resolution is transitive: where a template includes `outer`,
/// and the template registered as `outer` includes `inner`, the nodes of
/// `inner` are rendered at the position of the include within `outer`,
/// which stand at the position of the include of `outer`.
pub proof fn lemma_include_transitive(
    before: Seq<NodeView>,
    outer: Seq<char>,
    after: Seq<NodeView>,
    outer_before: Seq<NodeView>,
    inner: Seq<char>,
    outer_after: Seq<NodeView>,
    root: Value,
    locals: Seq<(Seq<char>, Value)>,
    templates: Map<Seq<char>, Seq<NodeView>>,
    depth: nat,
)
    requires
        templates.contains_key(outer),
        templates.contains_key(inner),
        templates[outer] == outer_before + seq![NodeView::Include { refid: inner }] + outer_after,
        depth >= 2,
    ensures
        render_nodes_spec(
            before + seq![NodeView::Include { refid: outer }] + after,
            root,
            locals,
            templates,
            depth,
        ) == then(
            render_nodes_spec(before, root, locals, templates, depth),
            then(
                then(
                    render_nodes_spec(outer_before, root, locals, templates, (depth - 1) as nat),
                    then(
                        render_nodes_spec(
                            templates[inner],
                            root,
                            locals,
                            templates,
                            (depth - 2) as nat,
                        ),
                        render_nodes_spec(outer_after, root, locals, templates, (depth - 1) as nat),
                    ),
                ),
                render_nodes_spec(after, root, locals, templates, depth),
            ),
        ),
{
    lemma_include_renders_inline(before, outer, after, root, locals, templates, depth);
    lemma_include_renders_inline(
        outer_before,
        inner,
        outer_after,
        root,
        locals,
        templates,
        (depth - 1) as nat,
    );
}

} // verus!
