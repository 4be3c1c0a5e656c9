//! An owned, plain-value token tree.
use vstd::prelude::*;

verus! {

/// The delimiter around a group of tokens.
#[derive(Clone, Copy, Debug, PartialEq, Eq, Structural)]
pub enum Delimiter {
    Parenthesis,
    Brace,
    Bracket,
    Invisible,
}

/// Whether a punctuation character is joined to the one that follows it.
#[derive(Clone, Copy, Debug, PartialEq, Eq, Structural)]
pub enum Spacing {
    Alone,
    Joint,
}

/// One token tree: a delimited group of trees, or a single leaf.
#[derive(Debug, PartialEq, Eq)]
pub enum TokenTree {
    Group(Delimiter, Vec<TokenTree>),
    Ident(String),
    Punct(char, Spacing),
    Literal(String),
}

/// The tree is an identifier whose text is `name`.
pub open spec fn is_ident(t: TokenTree, name: Seq<char>) -> bool {
    t is Ident && t->Ident_0@ == name
}

/// The tree is the punctuation character `c` with spacing `s`.
pub open spec fn is_punct(t: TokenTree, c: char, s: Spacing) -> bool {
    t == TokenTree::Punct(c, s)
}

/// An identifier token.
pub fn ident(name: &str) -> (r: TokenTree)
    ensures
        is_ident(r, name@),
{
    TokenTree::Ident(String::from_str(name))
}

} // verus!
