//! Build-time rewriting of an annotated function so that its body first
//! acquires a named lock: the annotation's argument names the lock, the
//! annotated item must be a function, and the rewritten body begins with a
//! synthesized acquisition statement followed by the original statements.

use vstd::prelude::*;

pub mod annotation;
pub mod errors;
mod ext;
pub mod rewrite;

pub use errors::TransformError;

use annotation::arg_tokens;
use annotation::ident_text;
use annotation::parse_lock_ref;
use annotation::read_arg_tokens;
use annotation::single_ident;
use rewrite::acquire_parses;
use rewrite::acquire_stmt_of;
use rewrite::fn_frame;
use rewrite::fn_stmts;
use rewrite::make_acquire_stmt;
use rewrite::parse_fn_decl;
use rewrite::parses_as_fn;
use rewrite::render_decl;
use rewrite::rendered;

verus! {

/// The whole transformation, invoked once per annotated declaration: read the
/// lock name from the annotation's arguments, parse the annotated item as a
/// function, prepend the acquisition statement to its body, and re-emit the
/// declaration. It succeeds exactly when the argument list is one identifier,
/// the item is a function, and the synthesized statement parses; the emitted
/// tokens are then the input function re-serialized with the acquisition
/// statement for the named lock prepended to its body. Each failure names its
/// cause, and no output is emitted for a rejected item.
pub fn jo(attr: proc_macro2::TokenStream, item: proc_macro2::TokenStream) -> (r: Result<
    proc_macro2::TokenStream,
    TransformError,
>)
    ensures
        r is Ok <==> single_ident(arg_tokens(attr)) && parses_as_fn(item) && acquire_parses(
            ident_text(arg_tokens(attr)),
        ),
        r is Ok ==> r->Ok_0 == rendered(
            fn_frame(item),
            seq![acquire_stmt_of(ident_text(arg_tokens(attr)))] + fn_stmts(item),
        ),
        (r is Err && r->Err_0 == TransformError::MalformedAnnotationArguments) <==> !single_ident(
            arg_tokens(attr),
        ),
        (r is Err && r->Err_0 == TransformError::NotAFunction) <==> single_ident(arg_tokens(attr))
            && !parses_as_fn(item),
        (r is Err && r->Err_0 == TransformError::InternalInvariantViolation) <==> single_ident(
            arg_tokens(attr),
        ) && parses_as_fn(item) && !acquire_parses(ident_text(arg_tokens(attr))),
{
    let tokens = read_arg_tokens(&attr);
    let lock = match parse_lock_ref(&tokens) {
        Ok(lock) => lock,
        Err(e) => {
            return Err(e);
        },
    };
    let mut decl = match parse_fn_decl(item) {
        Ok(decl) => decl,
        Err(e) => {
            return Err(e);
        },
    };
    let stmt = match make_acquire_stmt(&lock) {
        Ok(stmt) => stmt,
        Err(e) => {
            return Err(e);
        },
    };
    decl.prepend(stmt);
    Ok(render_decl(decl))
}

} // verus!
