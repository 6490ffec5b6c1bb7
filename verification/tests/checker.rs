use ambient_overload::ast::Diagnostic;
use ambient_overload::ast::FnDecl;
use ambient_overload::ast::Ident;
use ambient_overload::ast::Span;
use ambient_overload::ast::Stmt;
use ambient_overload::checker::report_error_for_wrong_top_level_ambient_fns;

fn ident(name: &str, lo: u64) -> Ident {
    Ident {
        sym: name.as_bytes().to_vec(),
        span: Span { lo, hi: lo + name.len() as u64 },
    }
}

fn at(name: &str, lo: u64) -> Span {
    Span { lo, hi: lo + name.len() as u64 }
}

fn signature(name: &str, lo: u64) -> Stmt {
    Stmt::Fn(FnDecl { ident: ident(name, lo), declare: false, has_body: false })
}

fn implementation(name: &str, lo: u64) -> Stmt {
    Stmt::Fn(FnDecl { ident: ident(name, lo), declare: false, has_body: true })
}

fn declare_fn(name: &str, lo: u64) -> Stmt {
    Stmt::Fn(FnDecl { ident: ident(name, lo), declare: true, has_body: false })
}

fn check(nodes: Vec<Stmt>) -> Vec<Diagnostic> {
    report_error_for_wrong_top_level_ambient_fns(&nodes, false)
}

fn missing(span: Span) -> Diagnostic {
    Diagnostic::FnImplMissingOrNotFollowedByDecl { span }
}

fn mismatch(span: Span) -> Diagnostic {
    Diagnostic::WrongNameOfFnImpl { span }
}

#[test]
fn empty_unit_reports_nothing() {
    assert_eq!(check(vec![]), vec![]);
}

#[test]
fn unit_without_fn_decls_reports_nothing() {
    let nodes = vec![
        Stmt::Other,
        Stmt::Namespace { declare: false, body: vec![Stmt::Other, Stmt::Other] },
        Stmt::Other,
        Stmt::Module { declare: false, body: vec![] },
    ];
    assert_eq!(check(nodes), vec![]);
}

#[test]
fn signature_resolved_by_matching_impl() {
    let nodes = vec![signature("f", 0), implementation("f", 20)];
    assert_eq!(check(nodes), vec![]);
}

#[test]
fn repeated_signatures_resolved_by_one_impl() {
    let nodes = vec![signature("f", 0), signature("f", 20), signature("f", 40), implementation("f", 60)];
    assert_eq!(check(nodes), vec![]);
}

#[test]
fn two_resolved_runs_report_nothing() {
    let nodes = vec![
        signature("f", 0),
        implementation("f", 20),
        signature("g", 40),
        signature("g", 60),
        implementation("g", 80),
    ];
    assert_eq!(check(nodes), vec![]);
}

#[test]
fn signature_abandoned_by_differently_named_signature() {
    let nodes = vec![signature("f", 0), signature("g", 20), implementation("g", 40)];
    assert_eq!(check(nodes), vec![missing(at("f", 0))]);
}

#[test]
fn signature_abandoned_by_non_fn_statement() {
    let nodes = vec![signature("f", 0), Stmt::Other];
    assert_eq!(check(nodes), vec![missing(at("f", 0))]);
}

#[test]
fn impl_with_different_name_reports_mismatch_at_impl() {
    let nodes = vec![signature("f", 0), implementation("g", 20)];
    assert_eq!(check(nodes), vec![mismatch(at("g", 20))]);
}

#[test]
fn mismatch_consumes_pending_without_second_report() {
    let nodes = vec![signature("f", 0), implementation("h", 20), implementation("h", 40)];
    assert_eq!(check(nodes), vec![mismatch(at("h", 20))]);
}

#[test]
fn trailing_signature_flushed_at_end() {
    let nodes = vec![signature("f", 0)];
    assert_eq!(check(nodes), vec![missing(at("f", 0))]);
}

#[test]
fn trailing_signature_span_is_latest_occurrence() {
    let nodes = vec![signature("f", 0), signature("f", 20)];
    assert_eq!(check(nodes), vec![missing(at("f", 20))]);
}

#[test]
fn mismatch_then_trailing_signature() {
    let nodes = vec![signature("f", 0), implementation("g", 20), signature("h", 40)];
    assert_eq!(check(nodes), vec![mismatch(at("g", 20)), missing(at("h", 40))]);
}

#[test]
fn declare_fn_does_not_pend() {
    let nodes = vec![declare_fn("f", 0)];
    assert_eq!(check(nodes), vec![]);
}

#[test]
fn declare_fn_between_signature_and_impl_is_ignored() {
    let nodes = vec![signature("f", 0), declare_fn("g", 20), implementation("f", 40)];
    assert_eq!(check(nodes), vec![]);
}

#[test]
fn declare_namespace_body_is_suppressed() {
    let nodes = vec![Stmt::Namespace { declare: true, body: vec![signature("f", 10)] }];
    assert_eq!(check(nodes), vec![]);
}

#[test]
fn declare_module_body_is_suppressed() {
    let nodes = vec![Stmt::Module {
        declare: true,
        body: vec![signature("f", 10), implementation("g", 30), Stmt::Other],
    }];
    assert_eq!(check(nodes), vec![]);
}

#[test]
fn declare_namespace_still_abandons_outer_pending() {
    let nodes = vec![signature("f", 0), Stmt::Namespace { declare: true, body: vec![] }];
    assert_eq!(check(nodes), vec![missing(at("f", 0))]);
}

#[test]
fn namespace_body_checked_like_top_level() {
    let inner = vec![signature("f", 10), Stmt::Other];
    let nodes = vec![Stmt::Namespace { declare: false, body: inner }];
    assert_eq!(check(nodes), vec![missing(at("f", 10))]);
}

#[test]
fn module_body_checked_like_top_level() {
    let inner = vec![signature("f", 10), implementation("g", 30)];
    let nodes = vec![Stmt::Module { declare: false, body: inner }];
    assert_eq!(check(nodes), vec![mismatch(at("g", 30))]);
}

#[test]
fn pending_inside_namespace_does_not_leak_out() {
    let nodes = vec![
        Stmt::Namespace { declare: false, body: vec![signature("f", 10)] },
        implementation("f", 30),
    ];
    assert_eq!(check(nodes), vec![missing(at("f", 10))]);
}

#[test]
fn outer_pending_not_resolved_inside_namespace() {
    let nodes = vec![
        signature("f", 0),
        Stmt::Namespace { declare: false, body: vec![implementation("f", 20)] },
    ];
    assert_eq!(check(nodes), vec![missing(at("f", 0))]);
}

#[test]
fn inner_flush_reported_before_outer_abandon() {
    let nodes = vec![
        signature("f", 0),
        Stmt::Namespace { declare: false, body: vec![signature("g", 20)] },
    ];
    assert_eq!(check(nodes), vec![missing(at("g", 20)), missing(at("f", 0))]);
}

#[test]
fn nested_namespaces_scoped_independently() {
    let inner = Stmt::Namespace { declare: false, body: vec![signature("g", 20)] };
    let nodes = vec![Stmt::Namespace { declare: false, body: vec![signature("f", 10), inner] }];
    assert_eq!(check(nodes), vec![missing(at("g", 20)), missing(at("f", 10))]);
}

#[test]
fn declare_namespace_inside_plain_namespace_is_suppressed() {
    let inner = Stmt::Namespace { declare: true, body: vec![signature("g", 20)] };
    let nodes = vec![Stmt::Namespace { declare: false, body: vec![inner] }];
    assert_eq!(check(nodes), vec![]);
}

#[test]
fn builtin_unit_is_skipped() {
    let nodes = vec![signature("f", 0), Stmt::Other, implementation("g", 40)];
    assert_eq!(report_error_for_wrong_top_level_ambient_fns(&nodes, true), vec![]);
}

#[test]
fn checking_twice_reports_identical_diagnostics() {
    let make = || {
        vec![
            signature("f", 0),
            implementation("g", 20),
            signature("h", 40),
            Stmt::Namespace { declare: false, body: vec![signature("i", 60)] },
        ]
    };
    let first = check(make());
    let second = check(make());
    assert_eq!(first, second);
}

#[test]
fn same_name_lookalike_prefix_is_different() {
    let nodes = vec![signature("foo", 0), implementation("foobar", 20)];
    assert_eq!(check(nodes), vec![mismatch(at("foobar", 20))]);
}
