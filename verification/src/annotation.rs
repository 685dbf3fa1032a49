//! The annotation parser: the argument list attached to the annotation must be
//! exactly one identifier, which names the lock to acquire. The decision is
//! made here, on the library's own token model; only the reading of the raw
//! token stream into that model is trusted.

use vstd::prelude::*;

use crate::errors::TransformError;

verus! {

/// One token tree of the annotation's argument list, reduced to what the
/// grammar reads of it: an identifier and its text, or anything else
/// (punctuation, a literal, a delimited group).
#[derive(Debug, PartialEq, Eq)]
pub enum ArgToken {
    Ident(String),
    Other,
}

/// The name of the lock that an annotated function must acquire. It is not
/// resolved here: whether a lock of this name exists is settled later, by
/// ordinary compilation of the emitted code.
#[derive(Debug)]
pub struct LockRef {
    pub name: String,
}

/// The accepted argument grammar: exactly one identifier token and nothing
/// else.
pub open spec fn single_ident(tokens: Seq<ArgToken>) -> bool {
    tokens.len() == 1 && tokens[0] is Ident
}

/// The text of the lone identifier of a well-formed argument list.
pub open spec fn ident_text(tokens: Seq<ArgToken>) -> Seq<char>
    recommends
        single_ident(tokens),
{
    tokens[0]->Ident_0@
}

/// What a raw token stream holds, one model token per top-level token tree.
pub uninterp spec fn arg_tokens(ts: proc_macro2::TokenStream) -> Seq<ArgToken>;

/// Relies on proc_macro2::TokenStream's iterator and Ident::to_string: hands
/// the stream's top-level token trees out in order, each reduced to the model.
#[verifier::external_body]
pub(crate) fn read_arg_tokens(ts: &proc_macro2::TokenStream) -> (r: Vec<ArgToken>)
    ensures
        r@ == arg_tokens(*ts),
{
    ts.clone()
        .into_iter()
        .map(|tt| match tt {
            proc_macro2::TokenTree::Ident(i) => ArgToken::Ident(i.to_string()),
            _ => ArgToken::Other,
        })
        .collect()
}

/// Extract the lock reference from the annotation's argument tokens: succeeds
/// exactly on a lone identifier, and rejects everything else as a malformed
/// argument list.
pub fn parse_lock_ref(tokens: &Vec<ArgToken>) -> (r: Result<LockRef, TransformError>)
    ensures
        r is Ok <==> single_ident(tokens@),
        r is Ok ==> r->Ok_0.name@ == ident_text(tokens@),
        r is Err ==> r->Err_0 == TransformError::MalformedAnnotationArguments,
{
    if tokens.len() == 1 {
        match &tokens[0] {
            ArgToken::Ident(name) => Ok(LockRef { name: name.clone() }),
            ArgToken::Other => Err(TransformError::MalformedAnnotationArguments),
        }
    } else {
        Err(TransformError::MalformedAnnotationArguments)
    }
}

} // verus!
