//! Reading the macro argument and composing the attribute stack.
use vstd::prelude::*;
use crate::item::{Attribute, FunctionItem, FunctionItemModel, InnerAttributeSpec, Item, MalformedInput};
use crate::tokens::TokenTree;

verus! {

/// What the macro argument denotes: no inner attribute when it is empty,
/// else exactly that attribute.
pub open spec fn inner_of(args: Vec<TokenTree>) -> InnerAttributeSpec {
    if args@.len() == 0 {
        InnerAttributeSpec::Absent
    } else {
        InnerAttributeSpec::Present(args)
    }
}

/// The composed item: the wrapper attribute first, then the item's own
/// attributes in their order; visibility, signature and body unchanged.
pub open spec fn composed(inner: InnerAttributeSpec, f: FunctionItemModel) -> FunctionItemModel {
    FunctionItemModel {
        attributes: seq![Attribute::Wrapper(inner)] + f.attributes,
        visibility: f.visibility,
        signature: f.signature,
        body: f.body,
    }
}

/// `r` is what the transformation gives for `item` under `inner`: the
/// composed item for a function, `NotAFunction` for anything else.
pub open spec fn composes_to(
    inner: InnerAttributeSpec,
    item: Item,
    r: Result<FunctionItem, MalformedInput>,
) -> bool {
    match item {
        Item::Function(f) => r is Ok && r->Ok_0@ == composed(inner, f@),
        Item::Other => r is Err && r->Err_0 == MalformedInput::NotAFunction,
    }
}

/// Reads the macro argument: empty means no inner attribute, anything else
/// is taken as the content of one attribute, unchecked.
pub fn interpret_argument(args: Vec<TokenTree>) -> (r: InnerAttributeSpec)
    ensures
        r == inner_of(args),
{
    if args.len() == 0 {
        InnerAttributeSpec::Absent
    } else {
        InnerAttributeSpec::Present(args)
    }
}

/// Puts the wrapper attribute, carrying `inner`, in front of the function's
/// attributes. Fails on an item that is not a function.
pub fn compose(inner: InnerAttributeSpec, item: Item) -> (r: Result<FunctionItem, MalformedInput>)
    ensures
        composes_to(inner, item, r),
{
    match item {
        Item::Function(f) => {
            let ghost m = f@;
            let FunctionItem { mut attributes, visibility, signature, body } = f;
            let mut stack: Vec<Attribute> = Vec::new();
            stack.push(Attribute::Wrapper(inner));
            stack.append(&mut attributes);
            let r = FunctionItem { attributes: stack, visibility, signature, body };
            assert(r@.attributes =~= composed(inner, m).attributes);
            Ok(r)
        },
        Item::Other => Err(MalformedInput::NotAFunction),
    }
}

/// The whole transformation: reads the macro argument `attr`, then
/// composes the attribute stack of `item`.
pub fn rstest(attr: Vec<TokenTree>, item: Item) -> (r: Result<FunctionItem, MalformedInput>)
    ensures
        composes_to(inner_of(attr), item, r),
{
    let inner = interpret_argument(attr);
    compose(inner, item)
}

/// The wrapper attribute comes first in the composed item, followed by
/// exactly the item's own attributes in their original order: none is
/// added, dropped or moved.
pub proof fn lemma_attribute_order(
    inner: InnerAttributeSpec,
    f: FunctionItem,
    r: Result<FunctionItem, MalformedInput>,
)
    requires
        composes_to(inner, Item::Function(f), r),
    ensures
        r is Ok,
        r->Ok_0.attributes@.len() == f.attributes@.len() + 1,
        r->Ok_0.attributes@[0] == Attribute::Wrapper(inner),
        forall|k: int|
            0 <= k < f.attributes@.len() ==> r->Ok_0.attributes@[k + 1]
                == #[trigger] f.attributes@[k],
{
    let c = r->Ok_0.attributes@;
    assert forall|k: int| 0 <= k < f.attributes@.len() implies c[k + 1]
        == #[trigger] f.attributes@[k] by {
        assert(c == seq![Attribute::Wrapper(inner)] + f.attributes@);
    }
}

/// The composed item keeps the visibility, signature and body of the
/// function as they were.
pub proof fn lemma_body_unchanged(
    inner: InnerAttributeSpec,
    f: FunctionItem,
    r: Result<FunctionItem, MalformedInput>,
)
    requires
        composes_to(inner, Item::Function(f), r),
    ensures
        r is Ok,
        r->Ok_0.visibility@ == f.visibility@,
        r->Ok_0.signature@ == f.signature@,
        r->Ok_0.body == f.body,
{
}

/// Two runs of the transformation on the same argument and the same item
/// give the same result.
pub proof fn lemma_deterministic(
    attr: Vec<TokenTree>,
    item: Item,
    r1: Result<FunctionItem, MalformedInput>,
    r2: Result<FunctionItem, MalformedInput>,
)
    requires
        composes_to(inner_of(attr), item, r1),
        composes_to(inner_of(attr), item, r2),
    ensures
        r1 is Ok <==> r2 is Ok,
        r1 is Ok ==> r1->Ok_0@ == r2->Ok_0@,
        r1 is Err ==> r1->Err_0 == r2->Err_0,
{
}

/// Any item that is not a function is refused, with nothing composed.
pub proof fn lemma_refuses_other_items(
    inner: InnerAttributeSpec,
    r: Result<FunctionItem, MalformedInput>,
)
    requires
        composes_to(inner, Item::Other, r),
    ensures
        r == Err::<FunctionItem, MalformedInput>(MalformedInput::NotAFunction),
{
}

} // verus!
