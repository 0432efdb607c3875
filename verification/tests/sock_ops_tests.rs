use std::str::FromStr;

use bpf_artifacts::sock_ops::{AttributeError, SockOps};
use proc_macro2::TokenStream;
use quote::ToTokens;

const HANDLER: &str = "fn prog(ctx: &mut ::aya_bpf::programs::SockOpsContext) -> u32 { 0 }";

fn tokens(text: &str) -> TokenStream {
    TokenStream::from_str(text).unwrap()
}

#[test]
fn attribute_without_arguments_on_a_function_is_accepted() {
    let handler = match SockOps::parse(tokens(""), tokens(HANDLER)) {
        Ok(handler) => handler,
        Err(_) => panic!("a function under a bare attribute is accepted"),
    };
    assert_eq!(handler.item().sig.ident.to_string(), "prog");
    assert_eq!(handler.item().to_token_stream().to_string(), tokens(HANDLER).to_string());
}

#[test]
fn attribute_with_arguments_is_refused() {
    assert!(matches!(
        SockOps::parse(tokens("name = \"x\""), tokens(HANDLER)),
        Err(AttributeError::UnexpectedAttribute)
    ));
    assert!(matches!(
        SockOps::parse(tokens("x"), tokens("struct NotAFunction;")),
        Err(AttributeError::UnexpectedAttribute)
    ));
}

#[test]
fn attribute_on_something_else_than_a_function_is_a_syntax_error() {
    assert!(matches!(
        SockOps::parse(tokens(""), tokens("struct NotAFunction;")),
        Err(AttributeError::Syntax { .. })
    ));
    assert!(matches!(
        SockOps::parse(tokens(""), tokens("")),
        Err(AttributeError::Syntax { .. })
    ));
}

#[test]
fn from_parsed_keeps_either_outcome() {
    let function = match syn::parse2::<syn::ItemFn>(tokens(HANDLER)) {
        Ok(function) => function,
        Err(_) => panic!("the handler is a function"),
    };
    let handler = match SockOps::from_parsed(Ok(function.clone())) {
        Ok(handler) => handler,
        Err(_) => panic!("a function is kept"),
    };
    assert_eq!(
        handler.item().to_token_stream().to_string(),
        function.to_token_stream().to_string()
    );
    let error = match syn::parse2::<syn::ItemFn>(tokens("1 + 1")) {
        Ok(_) => panic!("an expression is no function"),
        Err(error) => error,
    };
    let message = error.to_string();
    match SockOps::from_parsed(Err(error)) {
        Err(AttributeError::Syntax { error }) => assert_eq!(error.to_string(), message),
        _ => panic!("the reader's error is kept"),
    }
}
