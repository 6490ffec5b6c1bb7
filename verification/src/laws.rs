//! Properties of the checker, proved against the specification model in
//! [`crate::checker`].

use vstd::prelude::*;

use crate::ast::Diagnostic;
use crate::ast::SpecIdent;
use crate::ast::Stmt;
use crate::checker::flush_diags;
use crate::checker::run_stmt;
use crate::checker::run_stmts;
use crate::checker::unit_diags;

verus! {

/// Holds when the statement is no function declaration and contains none in
/// any nested body.
pub open spec fn stmt_free_of_fn_decls(s: Stmt) -> bool
    decreases s, 0int,
{
    match s {
        Stmt::Fn(_) => false,
        Stmt::Namespace { declare: _, body } => seq_free_of_fn_decls(body@),
        Stmt::Module { declare: _, body } => seq_free_of_fn_decls(body@),
        Stmt::Other => true,
    }
}

/// Holds when the sequence contains no function declaration anywhere,
/// nested bodies included.
pub open spec fn seq_free_of_fn_decls(stmts: Seq<Stmt>) -> bool
    decreases stmts, 1int,
{
    stmts.len() == 0 || (stmt_free_of_fn_decls(stmts[0]) && seq_free_of_fn_decls(
        stmts.subrange(1, stmts.len() as int),
    ))
}

proof fn lemma_stmt_free_no_diags(s: Stmt, p: Option<SpecIdent>)
    requires
        stmt_free_of_fn_decls(s),
        p is None,
    ensures
        run_stmt(s, p).0 == Seq::<Diagnostic>::empty(),
        run_stmt(s, p).1 is None,
    decreases s, 0int,
{
    match s {
        Stmt::Fn(_) => {},
        Stmt::Namespace { declare, body } => {
            if !declare {
                lemma_seq_free_no_diags(body@, None::<SpecIdent>);
            }
            assert(run_stmt(s, p).0 =~= Seq::<Diagnostic>::empty());
        },
        Stmt::Module { declare, body } => {
            if !declare {
                lemma_seq_free_no_diags(body@, None::<SpecIdent>);
            }
            assert(run_stmt(s, p).0 =~= Seq::<Diagnostic>::empty());
        },
        Stmt::Other => {},
    }
}

proof fn lemma_seq_free_no_diags(stmts: Seq<Stmt>, p: Option<SpecIdent>)
    requires
        seq_free_of_fn_decls(stmts),
        p is None,
    ensures
        run_stmts(stmts, p).0 == Seq::<Diagnostic>::empty(),
        run_stmts(stmts, p).1 is None,
    decreases stmts, 1int,
{
    if stmts.len() > 0 {
        lemma_stmt_free_no_diags(stmts[0], p);
        lemma_seq_free_no_diags(stmts.subrange(1, stmts.len() as int), run_stmt(stmts[0], p).1);
        assert(run_stmts(stmts, p).0 =~= Seq::<Diagnostic>::empty());
    }
}

/// Law: a statement sequence containing no function declarations — however
/// deeply one looks into nested namespace and module bodies — yields no
/// diagnostics.
pub proof fn lemma_no_fn_decls_no_diags(stmts: Seq<Stmt>)
    requires
        seq_free_of_fn_decls(stmts),
    ensures
        unit_diags(stmts) == Seq::<Diagnostic>::empty(),
{
    lemma_seq_free_no_diags(stmts, None::<SpecIdent>);
    assert(unit_diags(stmts) =~= Seq::<Diagnostic>::empty());
}

/// The name of the pending signature, if one is pending.
pub open spec fn pending_name(pending: Option<SpecIdent>) -> Option<Seq<u8>> {
    match pending {
        Some(id) => Some(id.sym),
        None => None,
    }
}

/// The name pending after one statement, given the name pending before it:
/// a non-`declare` body-less declaration leaves its own name pending, a
/// `declare`d one changes nothing, and everything else leaves nothing
/// pending.
pub open spec fn next_pending_name(s: Stmt, pend: Option<Seq<u8>>) -> Option<Seq<u8>> {
    match s {
        Stmt::Fn(f) => if f.declare {
            pend
        } else if !f.has_body {
            Some(f.ident@.sym)
        } else {
            None
        },
        _ => None,
    }
}

/// Holds when one statement reports nothing, given the name pending before
/// it: a non-`declare` function declaration must match the pending name if
/// one is pending, and any other statement requires nothing pending; a
/// nested non-`declare` body must be well paired on its own.
pub open spec fn stmt_well_paired(s: Stmt, pend: Option<Seq<u8>>) -> bool
    decreases s, 0int,
{
    match s {
        Stmt::Fn(f) => f.declare || pend is None || pend == Some(f.ident@.sym),
        Stmt::Namespace { declare, body } => pend is None && (declare || seq_well_paired(
            body@,
            None,
        )),
        Stmt::Module { declare, body } => pend is None && (declare || seq_well_paired(
            body@,
            None,
        )),
        Stmt::Other => pend is None,
    }
}

/// Holds when every body-less declaration run in the sequence is resolved in
/// place: continued only by same-named signatures and ended by exactly one
/// same-named implementation before the sequence ends, with `declare`d
/// declarations not participating and nested bodies well paired on their
/// own.
pub open spec fn seq_well_paired(stmts: Seq<Stmt>, pend: Option<Seq<u8>>) -> bool
    decreases stmts, 1int,
{
    if stmts.len() == 0 {
        pend is None
    } else {
        stmt_well_paired(stmts[0], pend) && seq_well_paired(
            stmts.subrange(1, stmts.len() as int),
            next_pending_name(stmts[0], pend),
        )
    }
}

proof fn lemma_stmt_well_paired_no_diags(s: Stmt, p: Option<SpecIdent>)
    requires
        stmt_well_paired(s, pending_name(p)),
    ensures
        run_stmt(s, p).0 == Seq::<Diagnostic>::empty(),
        pending_name(run_stmt(s, p).1) == next_pending_name(s, pending_name(p)),
    decreases s, 0int,
{
    match s {
        Stmt::Fn(_) => {},
        Stmt::Namespace { declare, body } => {
            if !declare {
                lemma_seq_well_paired_no_diags(body@, None::<SpecIdent>);
            }
            assert(run_stmt(s, p).0 =~= Seq::<Diagnostic>::empty());
        },
        Stmt::Module { declare, body } => {
            if !declare {
                lemma_seq_well_paired_no_diags(body@, None::<SpecIdent>);
            }
            assert(run_stmt(s, p).0 =~= Seq::<Diagnostic>::empty());
        },
        Stmt::Other => {},
    }
}

proof fn lemma_seq_well_paired_no_diags(stmts: Seq<Stmt>, p: Option<SpecIdent>)
    requires
        seq_well_paired(stmts, pending_name(p)),
    ensures
        run_stmts(stmts, p).0 == Seq::<Diagnostic>::empty(),
        run_stmts(stmts, p).1 is None,
    decreases stmts, 1int,
{
    if stmts.len() > 0 {
        lemma_stmt_well_paired_no_diags(stmts[0], p);
        lemma_seq_well_paired_no_diags(
            stmts.subrange(1, stmts.len() as int),
            run_stmt(stmts[0], p).1,
        );
        assert(run_stmts(stmts, p).0 =~= Seq::<Diagnostic>::empty());
    }
}

/// Law: a unit in which every body-less declaration run is properly
/// terminated — repeated signatures of one name, ended by exactly one
/// implementation of that name, with nothing else intervening — yields no
/// diagnostics.
pub proof fn lemma_well_paired_no_diags(stmts: Seq<Stmt>)
    requires
        seq_well_paired(stmts, None::<Seq<u8>>),
    ensures
        unit_diags(stmts) == Seq::<Diagnostic>::empty(),
{
    lemma_seq_well_paired_no_diags(stmts, None::<SpecIdent>);
    assert(unit_diags(stmts) =~= Seq::<Diagnostic>::empty());
}

/// Law: a traversal that ends with a signature still pending yields exactly
/// one diagnostic beyond those of the traversal itself: a
/// missing-implementation report at the trailing signature's span, appended
/// last by the end-of-sequence flush.
pub proof fn lemma_trailing_signature_flushed(stmts: Seq<Stmt>, id: SpecIdent)
    requires
        run_stmts(stmts, None::<SpecIdent>).1 == Some(id),
    ensures
        unit_diags(stmts) == run_stmts(stmts, None::<SpecIdent>).0.push(
            Diagnostic::FnImplMissingOrNotFollowedByDecl { span: id.span },
        ),
{
    assert(unit_diags(stmts) =~= run_stmts(stmts, None::<SpecIdent>).0.push(
        Diagnostic::FnImplMissingOrNotFollowedByDecl { span: id.span },
    ));
}

/// Law: a `declare`d namespace or module is fully suppressed — whatever its
/// body holds, the body contributes no diagnostics; the container itself,
/// being a non-function statement, only abandons an already-pending
/// signature of the enclosing sequence.
pub proof fn lemma_declare_container_suppressed(s: Stmt, p: Option<SpecIdent>)
    requires
        match s {
            Stmt::Namespace { declare, body: _ } => declare,
            Stmt::Module { declare, body: _ } => declare,
            _ => false,
        },
    ensures
        run_stmt(s, p).0 == flush_diags(p),
        run_stmt(s, p).1 is None,
{
    assert(run_stmt(s, p).0 =~= flush_diags(p));
}

/// Law: a non-`declare` namespace or module body is checked exactly as a
/// top-level unit would be, and its pending state never leaks: afterwards
/// nothing is pending in the enclosing sequence, and a signature pending
/// outside the container is reported as abandoned, never resolved inside.
pub proof fn lemma_nested_scope_independent(body: Vec<Stmt>, p: Option<SpecIdent>)
    ensures
        run_stmt((Stmt::Namespace { declare: false, body }), p).0 == unit_diags(body@)
            + flush_diags(p),
        run_stmt((Stmt::Namespace { declare: false, body }), p).1 is None,
        run_stmt((Stmt::Module { declare: false, body }), p).0 == unit_diags(body@)
            + flush_diags(p),
        run_stmt((Stmt::Module { declare: false, body }), p).1 is None,
{
}

/// Law: the checker is deterministic — two runs over the same unchanged
/// statement sequence yield the identical diagnostic sequence, element for
/// element and in the same order.
pub proof fn lemma_check_deterministic(
    stmts: Seq<Stmt>,
    first: Seq<Diagnostic>,
    second: Seq<Diagnostic>,
)
    requires
        first == unit_diags(stmts),
        second == unit_diags(stmts),
    ensures
        first == second,
{
}

} // verus!
