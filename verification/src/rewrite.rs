//! The declaration parser, body rewriter and emitter. The annotated item must
//! parse as a function; its body is then rewritten by prepending one
//! synthesized acquisition statement, preserving every original statement and
//! the order among them; the rewritten declaration is re-serialized into the
//! tokens that replace the original item. Parsing and serialization are the
//! outside crates' work, behind trusted items whose results are named so that
//! the callers' contracts pin the output; the acquisition text, the rewriting
//! itself and the error mapping are verified.

use vstd::prelude::*;
use vstd::string::StringExecFns;

use crate::annotation::LockRef;
use crate::errors::TransformError;

verus! {

/// A parsed function declaration, split into the part this system never
/// touches (attributes, visibility, signature, with an emptied body) and the
/// body's statements, in their original order.
pub struct FnDecl {
    pub frame: syn::ItemFn,
    pub stmts: Vec<syn::Stmt>,
}

/// Whether a token sequence parses as a complete function item.
pub uninterp spec fn parses_as_fn(ts: proc_macro2::TokenStream) -> bool;

/// The frame of the function item that a token sequence parses as: its
/// attributes, visibility and signature, with an emptied body.
pub uninterp spec fn fn_frame(ts: proc_macro2::TokenStream) -> syn::ItemFn;

/// The body statements of the function item that a token sequence parses as,
/// in their order.
pub uninterp spec fn fn_stmts(ts: proc_macro2::TokenStream) -> Seq<syn::Stmt>;

/// Whether a text parses as one statement of the host grammar.
pub uninterp spec fn stmt_parses(text: Seq<char>) -> bool;

/// The statement that a well-formed statement text parses as.
pub uninterp spec fn stmt_of(text: Seq<char>) -> syn::Stmt;

/// The token sequence that a declaration frame, with the given statements as
/// its body, serializes back into.
pub uninterp spec fn rendered(frame: syn::ItemFn, stmts: Seq<syn::Stmt>) -> proc_macro2::TokenStream;

/// The fixed acquisition text built around a lock name: a blocking exclusive
/// acquisition of the named lock, bound to the fixed, non-configurable guard
/// name, turning poisoning into a fatal run-time error with a fixed message.
pub open spec fn acquire_text_spec(lock: Seq<char>) -> Seq<char> {
    "let guard = "@ + lock + ".lock().expect(\"Could not lock mutex\");"@
}

/// Whether the acquisition text built around a lock name parses as a
/// statement.
pub open spec fn acquire_parses(lock: Seq<char>) -> bool {
    stmt_parses(acquire_text_spec(lock))
}

/// The acquisition statement synthesized for a lock name.
pub open spec fn acquire_stmt_of(lock: Seq<char>) -> syn::Stmt {
    stmt_of(acquire_text_spec(lock))
}

/// Relies on syn::parse2::<syn::ItemFn>: it succeeds exactly when the tokens
/// form a complete function item, and then yields, deterministically in the
/// tokens, the item's frame (body statements moved out) and those statements.
#[verifier::external_body]
fn parse_fn_tokens(item: proc_macro2::TokenStream) -> (r: Result<FnDecl, syn::Error>)
    ensures
        r is Ok <==> parses_as_fn(item),
        r is Ok ==> r->Ok_0.frame == fn_frame(item) && r->Ok_0.stmts@ == fn_stmts(item),
{
    match syn::parse2::<syn::ItemFn>(item) {
        Ok(mut f) => {
            let stmts = std::mem::take(&mut f.block.stmts);
            Ok(FnDecl { frame: f, stmts })
        },
        Err(e) => Err(e),
    }
}

/// Relies on syn::parse_str::<syn::Stmt>: it succeeds exactly when the text is
/// one well-formed statement and nothing more, and yields the statement the
/// text parses as, deterministically in the text.
#[verifier::external_body]
fn parse_stmt_text(text: &String) -> (r: Result<syn::Stmt, syn::Error>)
    ensures
        r is Ok <==> stmt_parses(text@),
        r is Ok ==> r->Ok_0 == stmt_of(text@),
{
    syn::parse_str::<syn::Stmt>(text.as_str())
}

/// Relies on quote::ToTokens for syn::ItemFn: re-serializes the declaration,
/// with its statements restored, into the tokens that replace the annotated
/// item, deterministically in the declaration.
#[verifier::external_body]
pub(crate) fn render_decl(decl: FnDecl) -> (r: proc_macro2::TokenStream)
    ensures
        r == rendered(decl.frame, decl.stmts@),
{
    let mut f = decl.frame;
    f.block.stmts = decl.stmts;
    quote::ToTokens::to_token_stream(&f)
}

/// Parse the annotated item as a function declaration; anything else is
/// rejected as not a function.
pub fn parse_fn_decl(item: proc_macro2::TokenStream) -> (r: Result<FnDecl, TransformError>)
    ensures
        r is Ok <==> parses_as_fn(item),
        r is Ok ==> r->Ok_0.frame == fn_frame(item) && r->Ok_0.stmts@ == fn_stmts(item),
        r is Err ==> r->Err_0 == TransformError::NotAFunction,
{
    match parse_fn_tokens(item) {
        Ok(decl) => Ok(decl),
        Err(_) => Err(TransformError::NotAFunction),
    }
}

/// Build the acquisition text around the lock name. The guard's binding name
/// and the poisoning message are fixed parts of the text, not
/// user-configurable.
fn acquire_text(lock: &LockRef) -> (r: String)
    ensures
        r@ == acquire_text_spec(lock.name@),
{
    let mut text = String::from_str("let guard = ");
    text.append(lock.name.as_str());
    text.append(".lock().expect(\"Could not lock mutex\");");
    text
}

/// Synthesize the acquisition statement for the named lock. The text is fixed,
/// generated by this system itself; if it nevertheless fails to parse, that is
/// an internal defect, not a caller error, and is signalled as such.
pub fn make_acquire_stmt(lock: &LockRef) -> (r: Result<syn::Stmt, TransformError>)
    ensures
        r is Ok <==> acquire_parses(lock.name@),
        r is Ok ==> r->Ok_0 == acquire_stmt_of(lock.name@),
        r is Err ==> r->Err_0 == TransformError::InternalInvariantViolation,
{
    let text = acquire_text(lock);
    match parse_stmt_text(&text) {
        Ok(stmt) => Ok(stmt),
        Err(_) => Err(TransformError::InternalInvariantViolation),
    }
}

impl FnDecl {
    /// The body rewrite: insert one statement at position zero, before every
    /// originally present statement, touching nothing else of the declaration.
    pub fn prepend(&mut self, stmt: syn::Stmt)
        ensures
            final(self).stmts@ == seq![stmt] + old(self).stmts@,
            final(self).frame == old(self).frame,
    {
        self.stmts.insert(0, stmt);
        proof {
            assert(self.stmts@ =~= seq![stmt] + old(self).stmts@);
        }
    }
}

/// Law: a rewritten body is the inserted statement followed by the original
/// statements — the new statement stands at position zero, and every original
/// statement keeps its relative position, shifted by one.
pub proof fn lemma_prepend_shape(orig: Seq<syn::Stmt>, stmt: syn::Stmt, out: Seq<syn::Stmt>)
    requires
        out == seq![stmt] + orig,
    ensures
        out.len() == orig.len() + 1,
        out[0] == stmt,
        forall|i: int| 0 <= i < orig.len() ==> out[i + 1] == orig[i],
{
}

/// Law: rewriting an already-rewritten body prepends a second acquisition
/// statement in front of the first; nothing is deduplicated.
pub proof fn lemma_rewrite_twice(orig: Seq<syn::Stmt>, first: syn::Stmt, second: syn::Stmt)
    ensures
        seq![second] + (seq![first] + orig) == seq![second, first] + orig,
        (seq![second] + (seq![first] + orig)).len() == orig.len() + 2,
{
    assert(seq![second] + (seq![first] + orig) =~= seq![second, first] + orig);
}

} // verus!
