use jo::TransformError;
use proc_macro2::TokenStream;
use quote::ToTokens;

fn ts(src: &str) -> TokenStream {
    src.parse().unwrap()
}

fn parsed_fn(tokens: TokenStream) -> syn::ItemFn {
    syn::parse2::<syn::ItemFn>(tokens).unwrap()
}

fn stmt_text(stmt: &syn::Stmt) -> String {
    stmt.to_token_stream().to_string()
}

fn acquire_text(lock: &str) -> String {
    let src = format!(
        "let guard = {}.lock().expect(\"Could not lock mutex\");",
        lock
    );
    stmt_text(&syn::parse_str::<syn::Stmt>(&src).unwrap())
}

#[test]
fn acquisition_statement_comes_first() {
    let out = jo::jo(ts("LOCK_A"), ts("fn f() { do_work(); }")).unwrap();
    let rewritten = parsed_fn(out);
    let original = parsed_fn(ts("fn f() { do_work(); }"));
    assert_eq!(rewritten.block.stmts.len(), 2);
    assert_eq!(stmt_text(&rewritten.block.stmts[0]), acquire_text("LOCK_A"));
    assert_eq!(
        stmt_text(&rewritten.block.stmts[1]),
        stmt_text(&original.block.stmts[0])
    );
}

#[test]
fn signature_attributes_and_generics_are_preserved() {
    let src = "#[inline] pub fn calc<T: Clone>(x: T, n: u32) -> T where T: Default { helper(n); x }";
    let out = jo::jo(ts("LOCK_A"), ts(src)).unwrap();
    let rewritten = parsed_fn(out);
    let original = parsed_fn(ts(src));
    assert_eq!(
        rewritten.sig.to_token_stream().to_string(),
        original.sig.to_token_stream().to_string()
    );
    assert_eq!(
        rewritten.vis.to_token_stream().to_string(),
        original.vis.to_token_stream().to_string()
    );
    assert_eq!(rewritten.attrs.len(), original.attrs.len());
    assert_eq!(
        rewritten.attrs[0].to_token_stream().to_string(),
        original.attrs[0].to_token_stream().to_string()
    );
    assert_eq!(rewritten.block.stmts.len(), original.block.stmts.len() + 1);
    for (i, stmt) in original.block.stmts.iter().enumerate() {
        assert_eq!(stmt_text(&rewritten.block.stmts[i + 1]), stmt_text(stmt));
    }
}

#[test]
fn empty_body_gets_only_the_acquisition() {
    let out = jo::jo(ts("LOCK_A"), ts("fn f() {}")).unwrap();
    let rewritten = parsed_fn(out);
    assert_eq!(rewritten.block.stmts.len(), 1);
    assert_eq!(stmt_text(&rewritten.block.stmts[0]), acquire_text("LOCK_A"));
}

#[test]
fn empty_arguments_fail_the_build() {
    let err = jo::jo(ts(""), ts("fn f() {}")).unwrap_err();
    assert_eq!(err, TransformError::MalformedAnnotationArguments);
}

#[test]
fn two_identifiers_fail_the_build() {
    let err = jo::jo(ts("LOCK_A, LOCK_B"), ts("fn f() {}")).unwrap_err();
    assert_eq!(err, TransformError::MalformedAnnotationArguments);
}

#[test]
fn literal_argument_fails_the_build() {
    let err = jo::jo(ts("42"), ts("fn f() {}")).unwrap_err();
    assert_eq!(err, TransformError::MalformedAnnotationArguments);
}

#[test]
fn grouped_argument_fails_the_build() {
    let err = jo::jo(ts("(LOCK_A)"), ts("fn f() {}")).unwrap_err();
    assert_eq!(err, TransformError::MalformedAnnotationArguments);
}

#[test]
fn struct_item_fails_the_build() {
    let err = jo::jo(ts("LOCK_A"), ts("struct S { x: i32 }")).unwrap_err();
    assert_eq!(err, TransformError::NotAFunction);
}

#[test]
fn const_item_fails_the_build() {
    let err = jo::jo(ts("LOCK_A"), ts("const N: u32 = 4;")).unwrap_err();
    assert_eq!(err, TransformError::NotAFunction);
}

#[test]
fn rerunning_prepends_a_second_acquisition() {
    // No deduplication happens: transforming an already-transformed function
    // prepends one more acquisition statement in front of the first.
    let once = jo::jo(ts("LOCK_A"), ts("fn f() { do_work(); }")).unwrap();
    let twice = jo::jo(ts("LOCK_A"), once).unwrap();
    let rewritten = parsed_fn(twice);
    assert_eq!(rewritten.block.stmts.len(), 3);
    assert_eq!(stmt_text(&rewritten.block.stmts[0]), acquire_text("LOCK_A"));
    assert_eq!(stmt_text(&rewritten.block.stmts[1]), acquire_text("LOCK_A"));
    let original = parsed_fn(ts("fn f() { do_work(); }"));
    assert_eq!(
        stmt_text(&rewritten.block.stmts[2]),
        stmt_text(&original.block.stmts[0])
    );
}

#[test]
fn same_name_binding_shadows_the_guard() {
    // The guard's binding name is fixed, so a function that declares its own
    // `guard` shadows the synthesized one from the second statement on. Both
    // bindings live to the end of the function scope, so the lock is still
    // held for the whole body; only the name `guard` refers to the function's
    // own value afterwards.
    let src = "fn f() { let guard = 0i32; work(guard); }";
    let out = jo::jo(ts("M"), ts(src)).unwrap();
    let rewritten = parsed_fn(out.clone());
    let original = parsed_fn(ts(src));
    assert_eq!(rewritten.block.stmts.len(), 3);
    assert_eq!(stmt_text(&rewritten.block.stmts[0]), acquire_text("M"));
    assert_eq!(
        stmt_text(&rewritten.block.stmts[1]),
        stmt_text(&original.block.stmts[0])
    );
    let text = out.to_string();
    assert_eq!(text.matches("let guard").count(), 2);
}

#[test]
fn raw_identifier_lock_name_is_accepted() {
    let out = jo::jo(ts("r#mod"), ts("fn f() {}")).unwrap();
    let rewritten = parsed_fn(out);
    assert_eq!(rewritten.block.stmts.len(), 1);
    assert_eq!(stmt_text(&rewritten.block.stmts[0]), acquire_text("r#mod"));
}

#[test]
fn keyword_lock_name_is_an_internal_failure() {
    // `struct` is an identifier token to the annotation grammar, but the
    // synthesized statement built around it does not parse, which is surfaced
    // as this system's own invariant failure rather than a caller error.
    let err = jo::jo(ts("struct"), ts("fn f() {}")).unwrap_err();
    assert_eq!(err, TransformError::InternalInvariantViolation);
}
