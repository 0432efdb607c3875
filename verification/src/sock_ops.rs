//! The attribute that turns a handler function into the entry point of a
//! socket-operations program: what it accepts. The attribute takes no
//! arguments and stands on a function.
use vstd::prelude::*;

verus! {

/// `proc_macro2::TokenStream`: a run of token trees, carried through
/// unopened.
#[verifier::external_type_specification]
#[verifier::external_body]
pub struct ExTokenStream(proc_macro2::TokenStream);

/// `syn::ItemFn`: a function as syn reads it, carried through unopened.
#[verifier::external_type_specification]
#[verifier::external_body]
pub struct ExItemFn(syn::ItemFn);

/// `syn::Error`: why syn could not read an item, carried through unopened.
#[verifier::external_type_specification]
#[verifier::external_body]
pub struct ExSyntaxError(syn::Error);

/// The token trees that a stream holds, each as its text, in order.
pub uninterp spec fn tokens_of(stream: proc_macro2::TokenStream) -> Seq<Seq<char>>;

/// `proc_macro2::TokenStream::is_empty`: whether the stream holds no token
/// tree.
#[verifier::external_body]
fn has_no_tokens(stream: &proc_macro2::TokenStream) -> (empty: bool)
    ensures
        empty == (tokens_of(*stream).len() == 0),
{
    stream.is_empty()
}

/// The function that `syn` reads from a stream: `None` where the stream is
/// not exactly one function.
pub uninterp spec fn function_read_from(item: proc_macro2::TokenStream) -> Option<syn::ItemFn>;

/// `syn::parse2` at `syn::ItemFn`: reads the whole stream as one function.
/// What it finds is taken to depend on the stream alone: the function where
/// it returns one, and none where it returns an error. Nothing is claimed
/// of the error.
#[verifier::external_body]
fn parse_function(item: proc_macro2::TokenStream) -> (parsed: Result<syn::ItemFn, syn::Error>)
    ensures
        match parsed {
            Ok(found) => function_read_from(item) == Some(found),
            Err(_) => function_read_from(item).is_none(),
        },
{
    syn::parse2::<syn::ItemFn>(item)
}

/// Why the attribute cannot be expanded.
pub enum AttributeError {
    /// The attribute was given arguments; it takes none.
    UnexpectedAttribute,
    /// What the attribute stands on is not a function.
    Syntax { error: syn::Error },
}

/// A handler function that the attribute was put on.
pub struct SockOps {
    item: syn::ItemFn,
}

impl SockOps {
    /// The handler function.
    pub closed spec fn function(&self) -> syn::ItemFn {
        self.item
    }

    /// The handler function.
    pub fn item(&self) -> (item: &syn::ItemFn)
        ensures
            *item == self.function(),
    {
        &self.item
    }

    /// Settles the outcome once the item was read: the handler where a
    /// function was found, and the reader's error where none was.
    pub fn from_parsed(parsed: Result<syn::ItemFn, syn::Error>) -> (outcome: Result<
        SockOps,
        AttributeError,
    >)
        ensures
            match parsed {
                Ok(item) => outcome matches Ok(handler) && handler.function() == item,
                Err(found) => outcome matches Err(AttributeError::Syntax { error })
                    && error == found,
            },
    {
        match parsed {
            Ok(item) => Ok(SockOps { item }),
            Err(error) => Err(AttributeError::Syntax { error }),
        }
    }

    /// Accepts the attribute's arguments and the item it stands on. Any
    /// argument at all is refused, before the item is looked at. Without
    /// arguments the item is read: where it is one function, that function
    /// is kept as the handler; where it is not, the outcome is the reader's
    /// error.
    pub fn parse(attrs: proc_macro2::TokenStream, item: proc_macro2::TokenStream) -> (outcome:
        Result<SockOps, AttributeError>)
        ensures
            tokens_of(attrs).len() > 0 <==> outcome matches Err(
                AttributeError::UnexpectedAttribute,
            ),
            tokens_of(attrs).len() == 0 ==> match function_read_from(item) {
                Some(found) => outcome matches Ok(handler) && handler.function() == found,
                None => outcome matches Err(AttributeError::Syntax { .. }),
            },
    {
        if !has_no_tokens(&attrs) {
            return Err(AttributeError::UnexpectedAttribute);
        }
        SockOps::from_parsed(parse_function(item))
    }
}

} // verus!
