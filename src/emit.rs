//! Lowering a function item to its flat sequence of token trees.
use vstd::prelude::*;
use crate::compose::composes_to;
use crate::item::{Attribute, FunctionItem, FunctionItemModel, InnerAttributeSpec, Item, MalformedInput};
use crate::tokens::{ident, is_ident, is_punct, Delimiter, Spacing, TokenTree};

verus! {

/// `s` starts with the path `::test_log::test`, the wrapper attribute's name.
pub open spec fn starts_with_wrapper_path(s: Seq<TokenTree>) -> bool {
    &&& s.len() >= 6
    &&& is_punct(s[0], ':', Spacing::Joint)
    &&& is_punct(s[1], ':', Spacing::Alone)
    &&& is_ident(s[2], "test_log"@)
    &&& is_punct(s[3], ':', Spacing::Joint)
    &&& is_punct(s[4], ':', Spacing::Alone)
    &&& is_ident(s[5], "test"@)
}

/// `s` is the content of the wrapper attribute: its path alone when there is
/// no inner attribute, else its path and the inner attribute in parentheses.
pub open spec fn is_wrapper_content(s: Seq<TokenTree>, inner: InnerAttributeSpec) -> bool {
    &&& starts_with_wrapper_path(s)
    &&& match inner {
        InnerAttributeSpec::Absent => s.len() == 6,
        InnerAttributeSpec::Present(v) => s.len() == 7 && s[6] == TokenTree::Group(
            Delimiter::Parenthesis,
            v,
        ),
    }
}

/// `s` is what stands inside `#[ ... ]` for the attribute `a`.
pub open spec fn is_attribute_content(a: Attribute, s: Seq<TokenTree>) -> bool {
    match a {
        Attribute::Wrapper(inner) => is_wrapper_content(s, inner),
        Attribute::Written(v) => s == v@,
    }
}

/// `t` is the attribute `a` as written before an item: `#` then a bracket group.
pub open spec fn is_attribute_pair(a: Attribute, h: TokenTree, t: TokenTree) -> bool {
    &&& is_punct(h, '#', Spacing::Alone)
    &&& t is Group
    &&& t->Group_0 == Delimiter::Bracket
    &&& is_attribute_content(a, t->Group_1@)
}

/// `s` is the item `m` written out: each attribute as `#[ ... ]` in order,
/// then visibility, signature and body.
pub open spec fn is_item_tokens(m: FunctionItemModel, s: Seq<TokenTree>) -> bool {
    let n = m.attributes.len() as int;
    let v = m.visibility.len() as int;
    let g = m.signature.len() as int;
    &&& s.len() == 2 * n + v + g + 1
    &&& forall|k: int|
        0 <= k < n ==> #[trigger] is_attribute_pair(m.attributes[k], s[2 * k], s[2 * k + 1])
    &&& s.subrange(2 * n, 2 * n + v) == m.visibility
    &&& s.subrange(2 * n + v, 2 * n + v + g) == m.signature
    &&& s[2 * n + v + g] == m.body
}

/// The content of the attribute `a`, as it stands inside `#[ ... ]`.
pub fn attribute_tokens(a: Attribute) -> (r: Vec<TokenTree>)
    ensures
        is_attribute_content(a, r@),
{
    match a {
        Attribute::Wrapper(inner) => {
            let mut s: Vec<TokenTree> = Vec::new();
            s.push(TokenTree::Punct(':', Spacing::Joint));
            s.push(TokenTree::Punct(':', Spacing::Alone));
            s.push(ident("test_log"));
            s.push(TokenTree::Punct(':', Spacing::Joint));
            s.push(TokenTree::Punct(':', Spacing::Alone));
            s.push(ident("test"));
            match inner {
                InnerAttributeSpec::Absent => {},
                InnerAttributeSpec::Present(v) => {
                    s.push(TokenTree::Group(Delimiter::Parenthesis, v));
                },
            }
            s
        },
        Attribute::Written(v) => v,
    }
}

/// Writes the item out as one sequence of token trees.
pub fn item_tokens(f: FunctionItem) -> (r: Vec<TokenTree>)
    ensures
        is_item_tokens(f@, r@),
{
    let ghost m = f@;
    let FunctionItem { mut attributes, mut visibility, mut signature, body } = f;
    let n = attributes.len();
    let mut out: Vec<TokenTree> = Vec::new();
    let mut i: usize = 0;
    while attributes.len() > 0
        invariant
            i <= n == m.attributes.len(),
            attributes@ == m.attributes.subrange(i as int, n as int),
            out@.len() == 2 * i,
            forall|k: int|
                0 <= k < i ==> #[trigger] is_attribute_pair(
                    m.attributes[k],
                    out@[2 * k],
                    out@[2 * k + 1],
                ),
        decreases attributes.len(),
    {
        let a = attributes.remove(0);
        let ghost ga = a;
        assert(ga == m.attributes[i as int]);
        let content = attribute_tokens(a);
        out.push(TokenTree::Punct('#', Spacing::Alone));
        out.push(TokenTree::Group(Delimiter::Bracket, content));
        assert(is_attribute_pair(m.attributes[i as int], out@[2 * i], out@[2 * i + 1]));
        i = i + 1;
    }
    let ghost head = out@;
    out.append(&mut visibility);
    out.append(&mut signature);
    out.push(body);
    assert(out@.subrange(2 * n, 2 * n + m.visibility.len()) =~= m.visibility);
    assert(out@.subrange(2 * n + m.visibility.len(), 2 * n + m.visibility.len() + m.signature.len())
        =~= m.signature);
    assert forall|k: int| 0 <= k < n implies #[trigger] is_attribute_pair(
        m.attributes[k],
        out@[2 * k],
        out@[2 * k + 1],
    ) by {
        assert(out@[2 * k] == head[2 * k]);
        assert(out@[2 * k + 1] == head[2 * k + 1]);
    }
    out
}

/// In the composed item, a supplied inner attribute stands nested in the
/// wrapper attribute's argument, in parentheses after its path; without
/// one, the wrapper attribute is its path alone and carries no argument.
pub proof fn lemma_inner_nested(
    inner: InnerAttributeSpec,
    f: FunctionItem,
    r: Result<FunctionItem, MalformedInput>,
    s: Seq<TokenTree>,
)
    requires
        composes_to(inner, Item::Function(f), r),
        is_attribute_content(r->Ok_0.attributes@[0], s),
    ensures
        starts_with_wrapper_path(s),
        inner is Present ==> s.len() == 7 && s[6] == TokenTree::Group(
            Delimiter::Parenthesis,
            inner->Present_0,
        ),
        inner is Absent ==> s.len() == 6 && forall|k: int| 0 <= k < s.len() ==> !(#[trigger] s[k] is Group),
{
    assert(r->Ok_0.attributes@[0] == Attribute::Wrapper(inner));
}

/// Written out, the composed item starts with the wrapper attribute,
/// followed by each of the function's own attributes in its original order,
/// then the function's visibility, signature and body as they were.
pub proof fn lemma_written_order(
    inner: InnerAttributeSpec,
    f: FunctionItem,
    r: Result<FunctionItem, MalformedInput>,
    s: Seq<TokenTree>,
)
    requires
        composes_to(inner, Item::Function(f), r),
        is_item_tokens(r->Ok_0@, s),
    ensures
        is_attribute_pair(Attribute::Wrapper(inner), s[0], s[1]),
        forall|k: int|
            0 <= k < f.attributes@.len() ==> #[trigger] is_attribute_pair(
                f.attributes@[k],
                s[2 * k + 2],
                s[2 * k + 3],
            ),
        s.subrange(
            s.len() - f.visibility@.len() - f.signature@.len() - 1,
            s.len() - f.signature@.len() - 1,
        ) == f.visibility@,
        s.subrange(s.len() - f.signature@.len() - 1, s.len() - 1) == f.signature@,
        s[s.len() - 1] == f.body,
{
    let c = r->Ok_0@;
    assert(c.attributes == seq![Attribute::Wrapper(inner)] + f.attributes@);
    assert(c.attributes.len() == f.attributes@.len() + 1);
    let z: int = 0;
    assert(is_attribute_pair(c.attributes[z], s[2 * z], s[2 * z + 1]));
    assert forall|k: int| 0 <= k < f.attributes@.len() implies #[trigger] is_attribute_pair(
        f.attributes@[k],
        s[2 * k + 2],
        s[2 * k + 3],
    ) by {
        assert(c.attributes[k + 1] == f.attributes@[k]);
        assert(is_attribute_pair(c.attributes[k + 1], s[2 * (k + 1)], s[2 * (k + 1) + 1]));
    }
}

} // verus!
