//! The template grammar.
//!
//! Text is taken verbatim up to the next marker. The markers are:
//!
//! ```text
//! {name}  or  #{name}                          a variable
//! <if test="TEST"> ... </if>                   a conditional block
//! <for item="X" collection="C" open=".."
//!      sep=".." close=".."> ... </for>         an iteration block
//! <include refid="NAME"/>                      an include
//! ```
//! A tag is one only where white space follows its name; attributes are
//! `key="value"` pairs in any order, a value running to the next double
//! quote. `open`, `sep` and `close` may be left out and are then empty.
use vstd::prelude::*;
use vstd::string::*;
use crate::sql_tpl::ast::{AstNode, NodeView, lemma_for_view, lemma_if_view, nodes_view};
use crate::sql_tpl::error::{TemplateError, TemplateErrorView};
use crate::sql_tpl::expr::{name_ok, parse_test, parse_test_spec};
use crate::text::{chars_of, is_space, skip_spaces, skip_ws, space, string_of, subvec, trim, trim_spec};

verus! {

/// Whether `pat` stands in `s` at `pos`.
pub open spec fn at(s: Seq<char>, pos: int, pat: Seq<char>) -> bool {
    0 <= pos && pos + pat.len() <= s.len() && s.subrange(pos, pos + pat.len()) == pat
}

pub open spec fn open_if() -> Seq<char> {
    seq!['<', 'i', 'f']
}

pub open spec fn open_for() -> Seq<char> {
    seq!['<', 'f', 'o', 'r']
}

pub open spec fn open_include() -> Seq<char> {
    seq!['<', 'i', 'n', 'c', 'l', 'u', 'd', 'e']
}

pub open spec fn close_if() -> Seq<char> {
    seq!['<', '/', 'i', 'f', '>']
}

pub open spec fn close_for() -> Seq<char> {
    seq!['<', '/', 'f', 'o', 'r', '>']
}

/// Whether the tag that `word` opens stands at `pos`: the word, followed by
/// white space.
pub open spec fn tag_at(s: Seq<char>, pos: int, word: Seq<char>) -> bool {
    at(s, pos, word) && pos + word.len() < s.len() && is_space(s[pos + word.len()])
}

/// Whether a variable starts at `pos`: a brace, or a hash sign and a brace.
pub open spec fn var_at(s: Seq<char>, pos: int) -> bool {
    0 <= pos < s.len() && (s[pos] == '{' || (s[pos] == '#' && pos + 1 < s.len() && s[pos + 1]
        == '{'))
}

/// Whether text ends at `pos` because a marker stands there.
pub open spec fn marker_at(s: Seq<char>, pos: int) -> bool {
    at(s, pos, close_if()) || at(s, pos, close_for()) || tag_at(s, pos, open_if()) || tag_at(
        s,
        pos,
        open_for(),
    ) || tag_at(s, pos, open_include()) || var_at(s, pos)
}

/// The first index at or after `from` where a marker stands, or the
/// length.
pub open spec fn text_end(s: Seq<char>, from: int) -> int
    decreases s.len() - from,
{
    if from < 0 || from >= s.len() {
        s.len() as int
    } else if marker_at(s, from) {
        from
    } else {
        text_end(s, from + 1)
    }
}

/// The first index at or after `from` that holds `c`, or the length.
pub open spec fn find_char(s: Seq<char>, from: int, c: char) -> int
    decreases s.len() - from,
{
    if from < 0 || from >= s.len() {
        s.len() as int
    } else if s[from] == c {
        from
    } else {
        find_char(s, from + 1, c)
    }
}

/// A letter, a digit, an underscore or a hyphen.
pub open spec fn key_char(c: char) -> bool {
    let n = c as u32;
    (97 <= n <= 122) || (65 <= n <= 90) || (48 <= n <= 57) || n == 95 || n == 45
}

/// An attribute's key is a non-empty run of key characters.
pub open spec fn key_ok(k: Seq<char>) -> bool {
    k.len() > 0 && forall|i: int| 0 <= i < k.len() ==> key_char(#[trigger] k[i])
}

/// The attributes of a tag, where the tag ends, and how.
pub struct Attrs {
    pub items: Seq<(Seq<char>, Seq<char>)>,
    pub end: int,
    pub self_closing: bool,
}

/// The attributes that stand from `pos` to the end of the tag, if the tag
/// is well formed.
pub open spec fn parse_attrs_spec(s: Seq<char>, pos: int) -> Option<Attrs>
    decreases s.len() - pos,
{
    let p = skip_spaces(s, pos);
    if pos < 0 || p < pos || p >= s.len() {
        None
    } else if s[p] == '>' {
        Some(Attrs { items: Seq::empty(), end: p + 1, self_closing: false })
    } else if s[p] == '/' {
        if p + 1 < s.len() && s[p + 1] == '>' {
            Some(Attrs { items: Seq::empty(), end: p + 2, self_closing: true })
        } else {
            None
        }
    } else {
        let eq = find_char(s, p, '=');
        if eq <= p || eq + 1 >= s.len() || !key_ok(s.subrange(p, eq)) || s[eq + 1] != '"' {
            None
        } else {
            let q = find_char(s, eq + 2, '"');
            if q < eq + 2 || q >= s.len() {
                None
            } else {
                match parse_attrs_spec(s, q + 1) {
                    None => None,
                    Some(rest) => Some(
                        Attrs {
                            items: seq![(s.subrange(p, eq), s.subrange(eq + 2, q))] + rest.items,
                            end: rest.end,
                            self_closing: rest.self_closing,
                        },
                    ),
                }
            }
        }
    }
}

/// The value of the first attribute with the key `key`.
pub open spec fn attr_get(items: Seq<(Seq<char>, Seq<char>)>, key: Seq<char>) -> Option<Seq<char>>
    decreases items.len(),
{
    if items.len() == 0 {
        None
    } else if items[0].0 == key {
        Some(items[0].1)
    } else {
        attr_get(items.drop_first(), key)
    }
}

/// The value of an attribute that may be left out.
pub open spec fn attr_or_empty(items: Seq<(Seq<char>, Seq<char>)>, key: Seq<char>) -> Seq<char> {
    match attr_get(items, key) {
        Some(v) => v,
        None => Seq::empty(),
    }
}

/// What ends the list of nodes being parsed.
#[derive(Copy, Clone, Debug, PartialEq, Eq, Structural)]
pub enum Closer {
    /// The end of the template.
    Top,
    /// The closing tag of a conditional block.
    If,
    /// The closing tag of an iteration block.
    For,
}

pub open spec fn key_test() -> Seq<char> {
    seq!['t', 'e', 's', 't']
}

pub open spec fn key_item() -> Seq<char> {
    seq!['i', 't', 'e', 'm']
}

pub open spec fn key_collection() -> Seq<char> {
    seq!['c', 'o', 'l', 'l', 'e', 'c', 't', 'i', 'o', 'n']
}

pub open spec fn key_open() -> Seq<char> {
    seq!['o', 'p', 'e', 'n']
}

pub open spec fn key_sep() -> Seq<char> {
    seq!['s', 'e', 'p']
}

pub open spec fn key_close() -> Seq<char> {
    seq!['c', 'l', 'o', 's', 'e']
}

pub open spec fn key_refid() -> Seq<char> {
    seq!['r', 'e', 'f', 'i', 'd']
}

/// The variable that starts at `pos`: its name, without white space at its
/// ends, runs to the closing brace. The error is the offset of the marker.
pub open spec fn parse_var_spec(s: Seq<char>, pos: int) -> Result<(NodeView, int), int> {
    let from = if s[pos] == '#' {
        pos + 2
    } else {
        pos + 1
    };
    let close = find_char(s, from, '}');
    if close < from || close >= s.len() {
        Err(pos)
    } else {
        let name = trim_spec(s.subrange(from, close));
        if name_ok(name) {
            Ok((NodeView::Var(name), close + 1))
        } else {
            Err(pos)
        }
    }
}

/// The include that starts at `pos`: a self-closing tag with a `refid`.
pub open spec fn parse_include_spec(s: Seq<char>, pos: int) -> Result<(NodeView, int), int> {
    match parse_attrs_spec(s, pos + open_include().len()) {
        None => Err(pos),
        Some(a) => match attr_get(a.items, key_refid()) {
            Some(refid) => if a.self_closing && refid.len() > 0 {
                Ok((NodeView::Include { refid }, a.end))
            } else {
                Err(pos)
            },
            None => Err(pos),
        },
    }
}

/// The node that starts at `pos`, and where it ends; or the offset of the
/// directive that is malformed. Called where neither the end of the
/// template nor a closing tag stands at `pos`.
pub open spec fn parse_node_spec(s: Seq<char>, pos: int) -> Result<(NodeView, int), int>
    decreases s.len() - pos, 0int,
{
    if pos < 0 || pos >= s.len() {
        Err(pos)
    } else if tag_at(s, pos, open_if()) {
        match parse_attrs_spec(s, pos + open_if().len()) {
            None => Err(pos),
            Some(a) => match attr_get(a.items, key_test()) {
                None => Err(pos),
                Some(test) => if a.self_closing || parse_test_spec(test) is None || a.end <= pos
                    || a.end > s.len() {
                    Err(pos)
                } else {
                    match parse_nodes_spec(s, a.end, Closer::If, pos) {
                        Err(e) => Err(e),
                        Ok((body, next)) => Ok((NodeView::If { test, body }, next)),
                    }
                },
            },
        }
    } else if tag_at(s, pos, open_for()) {
        match parse_attrs_spec(s, pos + open_for().len()) {
            None => Err(pos),
            Some(a) => match (attr_get(a.items, key_item()), attr_get(a.items, key_collection())) {
                (Some(item), Some(collection)) => if a.self_closing || !name_ok(item) || !name_ok(
                    collection,
                ) || a.end <= pos || a.end > s.len() {
                    Err(pos)
                } else {
                    match parse_nodes_spec(s, a.end, Closer::For, pos) {
                        Err(e) => Err(e),
                        Ok((body, next)) => Ok(
                            (
                                NodeView::For {
                                    item,
                                    collection,
                                    open: attr_or_empty(a.items, key_open()),
                                    sep: attr_or_empty(a.items, key_sep()),
                                    close: attr_or_empty(a.items, key_close()),
                                    body,
                                },
                                next,
                            ),
                        ),
                    }
                },
                _ => Err(pos),
            },
        }
    } else if tag_at(s, pos, open_include()) {
        parse_include_spec(s, pos)
    } else if var_at(s, pos) {
        parse_var_spec(s, pos)
    } else {
        let end = text_end(s, pos + 1);
        Ok((NodeView::Text(s.subrange(pos, end)), end))
    }
}

/// The nodes that stand from `pos` up to what `closer` asks for, and the
/// offset behind it; or the offset of the directive that is malformed: a
/// closing tag that closes nothing, a block that is not closed (reported at
/// `opened`, where it starts), or what [`parse_node_spec`] reports.
pub open spec fn parse_nodes_spec(s: Seq<char>, pos: int, closer: Closer, opened: int) -> Result<
    (Seq<NodeView>, int),
    int,
>
    decreases s.len() - pos, 1int,
{
    if pos < 0 || pos >= s.len() {
        if closer is Top {
            Ok((Seq::empty(), pos))
        } else {
            Err(opened)
        }
    } else if at(s, pos, close_if()) {
        if closer is If {
            Ok((Seq::empty(), pos + close_if().len()))
        } else {
            Err(pos)
        }
    } else if at(s, pos, close_for()) {
        if closer is For {
            Ok((Seq::empty(), pos + close_for().len()))
        } else {
            Err(pos)
        }
    } else {
        match parse_node_spec(s, pos) {
            Err(e) => Err(e),
            Ok((node, next)) => if next <= pos || next > s.len() {
                Err(pos)
            } else {
                match parse_nodes_spec(s, next, closer, opened) {
                    Err(e) => Err(e),
                    Ok((rest, end)) => Ok((seq![node] + rest, end)),
                }
            },
        }
    }
}

/// The nodes of the template `s`, or the offset of the first malformed
/// directive.
pub open spec fn parse_spec(s: Seq<char>) -> Result<Seq<NodeView>, int> {
    match parse_nodes_spec(s, 0, Closer::Top, 0) {
        Ok((nodes, _)) => Ok(nodes),
        Err(e) => Err(e),
    }
}

/// The text shown for a malformed directive at `pos`: up to 32 characters
/// from there.
pub open spec fn snippet_spec(s: Seq<char>, pos: int) -> Seq<char> {
    if pos < 0 || pos > s.len() {
        Seq::empty()
    } else if pos + 32 <= s.len() {
        s.subrange(pos, pos + 32)
    } else {
        s.subrange(pos, s.len() as int)
    }
}

fn matches_at(s: &Vec<char>, pos: usize, pat: &Vec<char>) -> (r: bool)
    requires
        pos <= s@.len(),
    ensures
        r == at(s@, pos as int, pat@),
{
    if pat.len() > s.len() - pos {
        return false;
    }
    let mut i: usize = 0;
    while i < pat.len()
        invariant
            i <= pat@.len(),
            pos + pat@.len() <= s.len(),
            forall|j: int| 0 <= j < i ==> s@[pos + j] == pat@[j],
        decreases pat@.len() - i,
    {
        if s[pos + i] != pat[i] {
            proof {
                assert(s@.subrange(pos as int, pos + pat@.len())[i as int] == s@[pos + i]);
            }
            return false;
        }
        i += 1;
    }
    proof {
        assert(s@.subrange(pos as int, pos + pat@.len()) =~= pat@);
    }
    true
}

fn word_if() -> (w: Vec<char>)
    ensures
        w@ == open_if(),
{
    let w = vec!['<', 'i', 'f'];
    proof {
        assert(w@ =~= open_if());
    }
    w
}

fn word_for() -> (w: Vec<char>)
    ensures
        w@ == open_for(),
{
    let w = vec!['<', 'f', 'o', 'r'];
    proof {
        assert(w@ =~= open_for());
    }
    w
}

fn word_include() -> (w: Vec<char>)
    ensures
        w@ == open_include(),
{
    let w = vec!['<', 'i', 'n', 'c', 'l', 'u', 'd', 'e'];
    proof {
        assert(w@ =~= open_include());
    }
    w
}

fn word_close_if() -> (w: Vec<char>)
    ensures
        w@ == close_if(),
{
    let w = vec!['<', '/', 'i', 'f', '>'];
    proof {
        assert(w@ =~= close_if());
    }
    w
}

fn word_close_for() -> (w: Vec<char>)
    ensures
        w@ == close_for(),
{
    let w = vec!['<', '/', 'f', 'o', 'r', '>'];
    proof {
        assert(w@ =~= close_for());
    }
    w
}

fn is_tag(s: &Vec<char>, pos: usize, word: &Vec<char>) -> (r: bool)
    requires
        pos <= s@.len(),
    ensures
        r == tag_at(s@, pos as int, word@),
{
    if !matches_at(s, pos, word) {
        return false;
    }
    assert(pos + word@.len() <= s.len());
    let after = pos + word.len();
    after < s.len() && space(s[after])
}

fn is_var(s: &Vec<char>, pos: usize) -> (r: bool)
    requires
        pos <= s@.len(),
    ensures
        r == var_at(s@, pos as int),
{
    if pos >= s.len() {
        return false;
    }
    s[pos] == '{' || (s[pos] == '#' && pos + 1 < s.len() && s[pos + 1] == '{')
}

fn is_marker(s: &Vec<char>, pos: usize) -> (r: bool)
    requires
        pos <= s@.len(),
    ensures
        r == marker_at(s@, pos as int),
{
    matches_at(s, pos, &word_close_if()) || matches_at(s, pos, &word_close_for()) || is_tag(
        s,
        pos,
        &word_if(),
    ) || is_tag(s, pos, &word_for()) || is_tag(s, pos, &word_include()) || is_var(s, pos)
}

fn scan_text(s: &Vec<char>, from: usize) -> (end: usize)
    requires
        from <= s@.len(),
    ensures
        end == text_end(s@, from as int),
        from <= end <= s@.len(),
{
    let mut i: usize = from;
    while i < s.len() && !is_marker(s, i)
        invariant
            from <= i <= s@.len(),
            text_end(s@, from as int) == text_end(s@, i as int),
        decreases s@.len() - i,
    {
        i += 1;
    }
    i
}

fn scan_char(s: &Vec<char>, from: usize, c: char) -> (at: usize)
    requires
        from <= s@.len(),
    ensures
        at == find_char(s@, from as int, c),
        from <= at <= s@.len(),
        at < s@.len() ==> s@[at as int] == c,
{
    let mut i: usize = from;
    while i < s.len() && s[i] != c
        invariant
            from <= i <= s@.len(),
            find_char(s@, from as int, c) == find_char(s@, i as int, c),
        decreases s@.len() - i,
    {
        i += 1;
    }
    i
}

fn is_key_char(c: char) -> (r: bool)
    ensures
        r == key_char(c),
{
    let n = c as u32;
    (97 <= n && n <= 122) || (65 <= n && n <= 90) || (48 <= n && n <= 57) || n == 95 || n == 45
}

fn check_key(s: &Vec<char>, from: usize, to: usize) -> (r: bool)
    requires
        from <= to <= s@.len(),
    ensures
        r == key_ok(s@.subrange(from as int, to as int)),
{
    let ghost k = s@.subrange(from as int, to as int);
    if from == to {
        return false;
    }
    let mut i: usize = from;
    while i < to
        invariant
            from <= i <= to <= s@.len(),
            k == s@.subrange(from as int, to as int),
            forall|j: int| 0 <= j < i - from ==> key_char(#[trigger] k[j]),
        decreases to - i,
    {
        if !is_key_char(s[i]) {
            proof {
                assert(k[i - from] == s@[i as int]);
            }
            return false;
        }
        proof {
            assert(k[i - from] == s@[i as int]);
        }
        i += 1;
    }
    true
}

/// Attributes as character sequences.
pub open spec fn attrs_view(items: Seq<(Vec<char>, Vec<char>)>) -> Seq<(Seq<char>, Seq<char>)> {
    Seq::new(items.len(), |i: int| (items[i].0@, items[i].1@))
}

fn parse_attrs(s: &Vec<char>, pos: usize) -> (r: Option<(Vec<(Vec<char>, Vec<char>)>, usize, bool)>)
    requires
        pos <= s@.len(),
    ensures
        match r {
            Some((items, end, self_closing)) => parse_attrs_spec(s@, pos as int) == Some(
                Attrs { items: attrs_view(items@), end: end as int, self_closing },
            ) && pos < end <= s@.len(),
            None => parse_attrs_spec(s@, pos as int) is None,
        },
    decreases s@.len() - pos,
{
    let p = skip_ws(s, pos);
    if p >= s.len() {
        return None;
    }
    if s[p] == '>' {
        let items: Vec<(Vec<char>, Vec<char>)> = Vec::new();
        proof {
            assert(attrs_view(items@) =~= Seq::empty());
        }
        return Some((items, p + 1, false));
    }
    if s[p] == '/' {
        if p + 1 < s.len() && s[p + 1] == '>' {
            let items: Vec<(Vec<char>, Vec<char>)> = Vec::new();
            proof {
                assert(attrs_view(items@) =~= Seq::empty());
            }
            return Some((items, p + 2, true));
        }
        return None;
    }
    let eq = scan_char(s, p, '=');
    if eq <= p || eq >= s.len() - 1 || !check_key(s, p, eq) || s[eq + 1] != '"' {
        return None;
    }
    let q = scan_char(s, eq + 2, '"');
    if q >= s.len() {
        return None;
    }
    match parse_attrs(s, q + 1) {
        None => None,
        Some((rest, end, self_closing)) => {
            let key = subvec(s, p, eq);
            let val = subvec(s, eq + 2, q);
            let mut items = rest;
            items.insert(0, (key, val));
            proof {
                assert(attrs_view(items@) =~= seq![(key@, val@)] + attrs_view(rest@));
            }
            Some((items, end, self_closing))
        },
    }
}

fn get_attr<'a>(items: &'a Vec<(Vec<char>, Vec<char>)>, key: &Vec<char>) -> (r: Option<&'a Vec<char>>)
    ensures
        match r {
            Some(v) => attr_get(attrs_view(items@), key@) == Some(v@),
            None => attr_get(attrs_view(items@), key@) is None,
        },
{
    let mut i: usize = 0;
    proof {
        assert(attrs_view(items@).skip(0) =~= attrs_view(items@));
    }
    while i < items.len()
        invariant
            i <= items@.len(),
            attr_get(attrs_view(items@), key@) == attr_get(attrs_view(items@).skip(i as int), key@),
        decreases items@.len() - i,
    {
        let ghost rest = attrs_view(items@).skip(i as int);
        proof {
            assert(rest[0] == attrs_view(items@)[i as int]);
            assert(rest.drop_first() =~= attrs_view(items@).skip(i + 1));
        }
        if vec_eq(&items[i].0, key) {
            return Some(&items[i].1);
        }
        i += 1;
    }
    None
}

fn vec_eq(a: &Vec<char>, b: &Vec<char>) -> (r: bool)
    ensures
        r == (a@ == b@),
{
    if a.len() != b.len() {
        return false;
    }
    let r = matches_at(a, 0, b);
    proof {
        assert(a@.subrange(0, a@.len() as int) =~= a@);
    }
    r
}

fn text_of(v: &Vec<char>) -> (s: String)
    ensures
        s@ == v@,
{
    proof {
        assert(v@.subrange(0, v@.len() as int) =~= v@);
    }
    string_of(v, 0, v.len())
}

fn attr_text(items: &Vec<(Vec<char>, Vec<char>)>, key: &Vec<char>) -> (s: String)
    ensures
        s@ == attr_or_empty(attrs_view(items@), key@),
{
    match get_attr(items, key) {
        Some(v) => text_of(v),
        None => String::new(),
    }
}

fn check_name(n: &Vec<char>) -> (r: bool)
    ensures
        r == name_ok(n@),
{
    if n.len() == 0 {
        return false;
    }
    let mut i: usize = 0;
    while i < n.len()
        invariant
            i <= n@.len(),
            forall|j: int| 0 <= j < i ==> !is_space(#[trigger] n@[j]),
        decreases n@.len() - i,
    {
        if space(n[i]) {
            return false;
        }
        i += 1;
    }
    true
}

fn parse_var(s: &Vec<char>, pos: usize) -> (r: Result<(AstNode, usize), usize>)
    requires
        var_at(s@, pos as int),
    ensures
        match r {
            Ok((node, next)) => parse_var_spec(s@, pos as int) == Ok::<(NodeView, int), int>(
                (node@, next as int),
            ) && pos < next <= s@.len(),
            Err(e) => parse_var_spec(s@, pos as int) == Err::<(NodeView, int), int>(e as int) && e
                <= s@.len(),
        },
{
    assert(pos < s.len());
    let from = if s[pos] == '#' {
        pos + 2
    } else {
        pos + 1
    };
    let close = scan_char(s, from, '}');
    if close >= s.len() {
        return Err(pos);
    }
    let inner = subvec(s, from, close);
    let name = trim(&inner);
    if check_name(&name) {
        Ok((AstNode::Var(text_of(&name)), close + 1))
    } else {
        Err(pos)
    }
}

fn parse_include(s: &Vec<char>, pos: usize) -> (r: Result<(AstNode, usize), usize>)
    requires
        tag_at(s@, pos as int, open_include()),
    ensures
        match r {
            Ok((node, next)) => parse_include_spec(s@, pos as int) == Ok::<(NodeView, int), int>(
                (node@, next as int),
            ) && pos < next <= s@.len(),
            Err(e) => parse_include_spec(s@, pos as int) == Err::<(NodeView, int), int>(e as int)
                && e <= s@.len(),
        },
{
    let key = vec!['r', 'e', 'f', 'i', 'd'];
    proof {
        assert(key@ =~= key_refid());
    }
    assert(open_include().len() == 8);
    assert(pos + 8 < s.len());
    match parse_attrs(s, pos + 8) {
        None => Err(pos),
        Some((items, end, self_closing)) => match get_attr(&items, &key) {
            Some(refid) => {
                if self_closing && refid.len() > 0 {
                    Ok((AstNode::Include { refid: text_of(refid) }, end))
                } else {
                    Err(pos)
                }
            },
            None => Err(pos),
        },
    }
}

/// That `r` is what the grammar gives for one node: the node by its view,
/// or the same offset.
pub open spec fn node_parsed(
    r: Result<(AstNode, usize), usize>,
    expected: Result<(NodeView, int), int>,
) -> bool {
    match r {
        Ok((node, next)) => expected == Ok::<(NodeView, int), int>((node@, next as int)),
        Err(e) => expected == Err::<(NodeView, int), int>(e as int),
    }
}

/// That `r` is what the grammar gives for a list of nodes: the nodes by
/// their views, or the same offset.
pub open spec fn nodes_parsed(
    r: Result<(Vec<AstNode>, usize), usize>,
    expected: Result<(Seq<NodeView>, int), int>,
) -> bool {
    match r {
        Ok((nodes, end)) => expected == Ok::<(Seq<NodeView>, int), int>(
            (nodes_view(nodes@), end as int),
        ),
        Err(e) => expected == Err::<(Seq<NodeView>, int), int>(e as int),
    }
}

fn parse_node(s: &Vec<char>, pos: usize) -> (r: Result<(AstNode, usize), usize>)
    requires
        pos < s@.len(),
    ensures
        node_parsed(r, parse_node_spec(s@, pos as int)),
        r matches Ok((_, next)) ==> pos < next <= s@.len(),
        r matches Err(e) ==> e <= s@.len(),
    decreases s@.len() - pos, 0int,
{
    if is_tag(s, pos, &word_if()) {
        let key = vec!['t', 'e', 's', 't'];
        proof {
            assert(key@ =~= key_test());
        }
        assert(open_if().len() == 3);
        assert(pos + 3 < s.len());
        match parse_attrs(s, pos + 3) {
            None => Err(pos),
            Some((items, end, self_closing)) => match get_attr(&items, &key) {
                None => Err(pos),
                Some(test_chars) => {
                    let test = text_of(test_chars);
                    if self_closing || parse_test(test.as_str()).is_none() {
                        return Err(pos);
                    }
                    match parse_nodes(s, end, Closer::If, pos) {
                        Err(e) => Err(e),
                        Ok((body, next)) => {
                            let node = AstNode::If { test, body };
                            proof {
                                lemma_if_view(node);
                            }
                            Ok((node, next))
                        },
                    }
                },
            },
        }
    } else if is_tag(s, pos, &word_for()) {
        let k_item = vec!['i', 't', 'e', 'm'];
        let k_collection = vec!['c', 'o', 'l', 'l', 'e', 'c', 't', 'i', 'o', 'n'];
        let k_open = vec!['o', 'p', 'e', 'n'];
        let k_sep = vec!['s', 'e', 'p'];
        let k_close = vec!['c', 'l', 'o', 's', 'e'];
        proof {
            assert(k_item@ =~= key_item());
            assert(k_collection@ =~= key_collection());
            assert(k_open@ =~= key_open());
            assert(k_sep@ =~= key_sep());
            assert(k_close@ =~= key_close());
        }
        assert(open_for().len() == 4);
        assert(pos + 4 < s.len());
        match parse_attrs(s, pos + 4) {
            None => Err(pos),
            Some((items, end, self_closing)) => {
                match (get_attr(&items, &k_item), get_attr(&items, &k_collection)) {
                    (Some(item), Some(collection)) => {
                        if self_closing || !check_name(item) || !check_name(collection) {
                            return Err(pos);
                        }
                        let item = text_of(item);
                        let collection = text_of(collection);
                        let open = attr_text(&items, &k_open);
                        let sep = attr_text(&items, &k_sep);
                        let close = attr_text(&items, &k_close);
                        match parse_nodes(s, end, Closer::For, pos) {
                            Err(e) => Err(e),
                            Ok((body, next)) => {
                                let node = AstNode::For { item, collection, open, sep, close, body };
                                proof {
                                    lemma_for_view(node);
                                }
                                Ok((node, next))
                            },
                        }
                    },
                    _ => Err(pos),
                }
            },
        }
    } else if is_tag(s, pos, &word_include()) {
        parse_include(s, pos)
    } else if is_var(s, pos) {
        parse_var(s, pos)
    } else {
        assert(pos < s.len());
        let end = scan_text(s, pos + 1);
        Ok((AstNode::Text(string_of(s, pos, end)), end))
    }
}

fn parse_nodes(s: &Vec<char>, pos: usize, closer: Closer, opened: usize) -> (r: Result<
    (Vec<AstNode>, usize),
    usize,
>)
    requires
        pos <= s@.len(),
        opened <= s@.len(),
    ensures
        nodes_parsed(r, parse_nodes_spec(s@, pos as int, closer, opened as int)),
        r matches Ok((_, end)) ==> pos <= end <= s@.len(),
        r matches Err(e) ==> e <= s@.len(),
    decreases s@.len() - pos, 1int,
{
    if pos >= s.len() {
        return match closer {
            Closer::Top => {
                let nodes: Vec<AstNode> = Vec::new();
                proof {
                    assert(nodes_view(nodes@) =~= Seq::empty());
                }
                Ok((nodes, pos))
            },
            _ => Err(opened),
        };
    }
    if matches_at(s, pos, &word_close_if()) {
        return match closer {
            Closer::If => {
                let nodes: Vec<AstNode> = Vec::new();
                proof {
                    assert(nodes_view(nodes@) =~= Seq::empty());
                }
                Ok((nodes, pos + 5))
            },
            _ => Err(pos),
        };
    }
    if matches_at(s, pos, &word_close_for()) {
        return match closer {
            Closer::For => {
                let nodes: Vec<AstNode> = Vec::new();
                proof {
                    assert(nodes_view(nodes@) =~= Seq::empty());
                }
                Ok((nodes, pos + 6))
            },
            _ => Err(pos),
        };
    }
    match parse_node(s, pos) {
        Err(e) => Err(e),
        Ok((node, next)) => match parse_nodes(s, next, closer, opened) {
            Err(e) => Err(e),
            Ok((rest, end)) => {
                let mut nodes = rest;
                let ghost first = node@;
                nodes.insert(0, node);
                proof {
                    assert(nodes_view(nodes@) =~= seq![first] + nodes_view(rest@));
                }
                Ok((nodes, end))
            },
        },
    }
}

/// Computes [`snippet_spec`].
fn snippet(s: &Vec<char>, pos: usize) -> (t: String)
    requires
        pos <= s@.len(),
    ensures
        t@ == snippet_spec(s@, pos as int),
{
    if s.len() - pos >= 32 {
        string_of(s, pos, pos + 32)
    } else {
        string_of(s, pos, s.len())
    }
}

/// How the outcome of parsing the template `name` with the text `content`
/// relates to the grammar: the nodes that [`parse_spec`] gives, or a syntax
/// error that names the template and shows the text at the offending
/// directive.
pub open spec fn parsed(
    r: Result<Vec<AstNode>, TemplateError>,
    name: Seq<char>,
    content: Seq<char>,
) -> bool {
    match parse_spec(content) {
        Ok(nodes) => r matches Ok(v) && nodes_view(v@) == nodes,
        Err(pos) => r matches Err(e) && e@ == (TemplateErrorView::Syntax {
            name,
            snippet: snippet_spec(content, pos),
        }),
    }
}

/// Parses the template `name` with the text `content`.
pub fn parse(name: &str, content: &str) -> (r: Result<Vec<AstNode>, TemplateError>)
    ensures
        parsed(r, name@, content@),
{
    let s = chars_of(content);
    match parse_nodes(&s, 0, Closer::Top, 0) {
        Ok((nodes, _)) => Ok(nodes),
        Err(pos) => Err(TemplateError::Syntax { name: name.to_owned(), snippet: snippet(&s, pos) }),
    }
}

} // verus!
