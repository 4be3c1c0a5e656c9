use rstest_log::compose::{compose, interpret_argument, rstest};
use rstest_log::emit::{attribute_tokens, item_tokens};
use rstest_log::item::{Attribute, FunctionItem, InnerAttributeSpec, Item, MalformedInput};
use rstest_log::tokens::{ident, Delimiter, Spacing, TokenTree};

fn id(s: &str) -> TokenTree {
    TokenTree::Ident(s.to_string())
}

fn lit(s: &str) -> TokenTree {
    TokenTree::Literal(s.to_string())
}

fn punct(c: char) -> TokenTree {
    TokenTree::Punct(c, Spacing::Alone)
}

fn group(d: Delimiter, v: Vec<TokenTree>) -> TokenTree {
    TokenTree::Group(d, v)
}

/// `case(a, b)` with two negative integer literals.
fn case_attr(a: &str, b: &str) -> Vec<TokenTree> {
    vec![
        id("case"),
        group(
            Delimiter::Parenthesis,
            vec![punct('-'), lit(a), punct(','), punct('-'), lit(b)],
        ),
    ]
}

/// `fn name()`
fn signature(name: &str) -> Vec<TokenTree> {
    vec![id("fn"), id(name), group(Delimiter::Parenthesis, vec![])]
}

/// `async fn name()`
fn async_signature(name: &str) -> Vec<TokenTree> {
    vec![id("async"), id("fn"), id(name), group(Delimiter::Parenthesis, vec![])]
}

/// `{ assert!(x == -2); }`
fn body() -> TokenTree {
    group(
        Delimiter::Brace,
        vec![
            id("assert"),
            punct('!'),
            group(
                Delimiter::Parenthesis,
                vec![id("x"), TokenTree::Punct('=', Spacing::Joint), punct('='), punct('-'), lit("2")],
            ),
            punct(';'),
        ],
    )
}

fn function(attributes: Vec<Attribute>, signature: Vec<TokenTree>) -> FunctionItem {
    FunctionItem { attributes, visibility: vec![], signature, body: body() }
}

/// `tokio::test`
fn driver() -> Vec<TokenTree> {
    vec![id("tokio"), TokenTree::Punct(':', Spacing::Joint), punct(':'), id("test")]
}

/// `tokio::test(flavor = "multi_thread", worker_threads = 1)`
fn driver_with_arguments() -> Vec<TokenTree> {
    let mut v = driver();
    v.push(group(
        Delimiter::Parenthesis,
        vec![
            id("flavor"),
            punct('='),
            lit("\"multi_thread\""),
            punct(','),
            id("worker_threads"),
            punct('='),
            lit("1"),
        ],
    ));
    v
}

/// `::test_log::test`
fn wrapper_path() -> Vec<TokenTree> {
    vec![
        TokenTree::Punct(':', Spacing::Joint),
        punct(':'),
        id("test_log"),
        TokenTree::Punct(':', Spacing::Joint),
        punct(':'),
        id("test"),
    ]
}

#[test]
fn empty_argument_means_no_inner_attribute() {
    assert_eq!(interpret_argument(vec![]), InnerAttributeSpec::Absent);
}

#[test]
fn argument_is_kept_as_the_inner_attribute() {
    assert_eq!(interpret_argument(driver()), InnerAttributeSpec::Present(driver()));
}

#[test]
fn case_attribute_without_argument() {
    let item = Item::Function(function(vec![Attribute::Written(case_attr("2", "4"))], signature("f")));
    let r = rstest(vec![], item).unwrap();
    assert_eq!(
        r.attributes,
        vec![Attribute::Wrapper(InnerAttributeSpec::Absent), Attribute::Written(case_attr("2", "4"))]
    );
    assert_eq!(r.body, body());
    assert_eq!(r.signature, signature("f"));
}

#[test]
fn async_driver_argument_without_attributes() {
    let item = Item::Function(function(vec![], async_signature("g")));
    let r = rstest(driver(), item).unwrap();
    assert_eq!(r.attributes, vec![Attribute::Wrapper(InnerAttributeSpec::Present(driver()))]);
    assert_eq!(r.signature, async_signature("g"));
    assert_eq!(r.body, body());
}

#[test]
fn driver_with_arguments_and_one_case() {
    let item = Item::Function(function(
        vec![Attribute::Written(case_attr("2", "4"))],
        async_signature("h"),
    ));
    let r = rstest(driver_with_arguments(), item).unwrap();
    assert_eq!(
        r.attributes,
        vec![
            Attribute::Wrapper(InnerAttributeSpec::Present(driver_with_arguments())),
            Attribute::Written(case_attr("2", "4")),
        ]
    );
}

#[test]
fn wrapper_first_then_attributes_in_order() {
    let attrs = || {
        vec![
            Attribute::Written(case_attr("1", "2")),
            Attribute::Written(vec![id("should_panic")]),
            Attribute::Written(case_attr("3", "4")),
        ]
    };
    let r = compose(InnerAttributeSpec::Absent, Item::Function(function(attrs(), signature("f")))).unwrap();
    assert_eq!(r.attributes.len(), 4);
    assert_eq!(r.attributes[0], Attribute::Wrapper(InnerAttributeSpec::Absent));
    assert_eq!(&r.attributes[1..], &attrs()[..]);
}

#[test]
fn visibility_signature_and_body_pass_through() {
    let f = FunctionItem {
        attributes: vec![],
        visibility: vec![id("pub"), group(Delimiter::Parenthesis, vec![id("crate")])],
        signature: signature("k"),
        body: body(),
    };
    let r = compose(InnerAttributeSpec::Present(driver()), Item::Function(f)).unwrap();
    assert_eq!(r.visibility, vec![id("pub"), group(Delimiter::Parenthesis, vec![id("crate")])]);
    assert_eq!(r.signature, signature("k"));
    assert_eq!(r.body, body());
}

#[test]
fn same_input_gives_same_output() {
    let run = || {
        rstest(
            driver(),
            Item::Function(function(vec![Attribute::Written(case_attr("2", "4"))], signature("f"))),
        )
    };
    assert_eq!(run(), run());
    let a = item_tokens(run().unwrap());
    let b = item_tokens(run().unwrap());
    assert_eq!(a, b);
}

#[test]
fn non_function_item_is_refused() {
    assert_eq!(rstest(vec![], Item::Other), Err(MalformedInput::NotAFunction));
    assert_eq!(compose(InnerAttributeSpec::Present(driver()), Item::Other), Err(MalformedInput::NotAFunction));
}

#[test]
fn wrapper_without_inner_is_its_path_alone() {
    assert_eq!(attribute_tokens(Attribute::Wrapper(InnerAttributeSpec::Absent)), wrapper_path());
}

#[test]
fn inner_attribute_nested_in_wrapper_argument() {
    let mut expected = wrapper_path();
    expected.push(group(Delimiter::Parenthesis, driver_with_arguments()));
    assert_eq!(
        attribute_tokens(Attribute::Wrapper(InnerAttributeSpec::Present(driver_with_arguments()))),
        expected
    );
}

#[test]
fn written_attribute_content_unchanged() {
    assert_eq!(attribute_tokens(Attribute::Written(case_attr("2", "4"))), case_attr("2", "4"));
}

#[test]
fn item_written_out_in_order() {
    let f = FunctionItem {
        attributes: vec![Attribute::Wrapper(InnerAttributeSpec::Absent), Attribute::Written(case_attr("2", "4"))],
        visibility: vec![id("pub")],
        signature: signature("f"),
        body: body(),
    };
    let mut expected = vec![punct('#'), group(Delimiter::Bracket, wrapper_path())];
    expected.push(punct('#'));
    expected.push(group(Delimiter::Bracket, case_attr("2", "4")));
    expected.push(id("pub"));
    expected.extend(signature("f"));
    expected.push(body());
    assert_eq!(item_tokens(f), expected);
}

#[test]
fn ident_holds_its_text() {
    assert_eq!(ident("test_log"), id("test_log"));
}
