//! The function item, its attributes, and the optional inner attribute.
use vstd::prelude::*;
use crate::tokens::TokenTree;

verus! {

/// The attribute nested inside the wrapper attribute, if any.
#[derive(Debug, PartialEq, Eq)]
pub enum InnerAttributeSpec {
    Absent,
    /// The content of the attribute, as it would stand inside `#[ ... ]`.
    Present(Vec<TokenTree>),
}

/// One attribute of a function item.
#[derive(Debug, PartialEq, Eq)]
pub enum Attribute {
    /// The fixed log-capturing wrapper, with the inner attribute nested in it.
    Wrapper(InnerAttributeSpec),
    /// An attribute as written, by the content inside `#[ ... ]`.
    Written(Vec<TokenTree>),
}

/// A function item split into its four parts.
#[derive(Debug, PartialEq, Eq)]
pub struct FunctionItem {
    pub attributes: Vec<Attribute>,
    pub visibility: Vec<TokenTree>,
    pub signature: Vec<TokenTree>,
    /// The body, a brace-delimited group.
    pub body: TokenTree,
}

/// The mathematical model of a function item.
pub ghost struct FunctionItemModel {
    pub attributes: Seq<Attribute>,
    pub visibility: Seq<TokenTree>,
    pub signature: Seq<TokenTree>,
    pub body: TokenTree,
}

impl View for FunctionItem {
    type V = FunctionItemModel;

    open spec fn view(&self) -> FunctionItemModel {
        FunctionItemModel {
            attributes: self.attributes@,
            visibility: self.visibility@,
            signature: self.signature@,
            body: self.body,
        }
    }
}

/// An item handed to the transformation: a function, or any other item.
#[derive(Debug, PartialEq, Eq)]
pub enum Item {
    Function(FunctionItem),
    /// Any item that is not a function (a struct, a constant, a module, ...).
    Other,
}

/// The one failure: the annotated item is not a function definition.
#[derive(Clone, Copy, Debug, PartialEq, Eq, Structural)]
pub enum MalformedInput {
    NotAFunction,
}

} // verus!
