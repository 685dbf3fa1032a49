//! Declarations of the outside types that the transformation carries through:
//! the token streams exchanged with the host toolchain and the parsed pieces
//! of a function item. Values of these types are opaque to the verifier; what
//! the logic reads of them is stated by the trusted items that handle them.

use vstd::prelude::*;

verus! {

#[verifier::external_type_specification]
#[verifier::external_body]
pub struct ExTokenStream(proc_macro2::TokenStream);

#[verifier::external_type_specification]
#[verifier::external_body]
pub struct ExItemFn(syn::ItemFn);

#[verifier::external_type_specification]
#[verifier::external_body]
pub struct ExStmt(syn::Stmt);

#[verifier::external_type_specification]
#[verifier::external_body]
pub struct ExSynError(syn::Error);

} // verus!
