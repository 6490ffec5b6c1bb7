//! The ambient-overload consistency checker.
//!
//! The specification side is a pure state machine: [`fn_decl_step`] gives the
//! transition for one function declaration, [`run_stmt`] and [`run_stmts`]
//! thread the pending signature through a statement sequence, and
//! [`unit_diags`] is the diagnostic sequence of one complete scope, final
//! flush included. The executable side is a visitor,
//! [`AmbientFunctionHandler`], proved to append exactly those diagnostics in
//! exactly that order.

use vstd::prelude::*;

use crate::ast::Diagnostic;
use crate::ast::FnDecl;
use crate::ast::Ident;
use crate::ast::SpecIdent;
use crate::ast::Stmt;

verus! {

/// The diagnostics that flushing the pending state produces: one
/// missing-implementation report at the pending signature's span, or nothing.
pub open spec fn flush_diags(pending: Option<SpecIdent>) -> Seq<Diagnostic> {
    match pending {
        Some(id) => seq![Diagnostic::FnImplMissingOrNotFollowedByDecl { span: id.span }],
        None => Seq::<Diagnostic>::empty(),
    }
}

/// The checker's transition for one function declaration: the diagnostics
/// reported and the pending signature afterwards.
///
/// A `declare`d site is ignored entirely. A body-less declaration becomes the
/// new pending signature, reporting the old one first if its name differs. An
/// implementation resolves a same-named pending signature silently, reports a
/// mismatch at its own identifier otherwise, and in either case clears the
/// pending state.
pub open spec fn fn_decl_step(f: FnDecl, pending: Option<SpecIdent>) -> (Seq<
    Diagnostic,
>, Option<SpecIdent>) {
    if f.declare {
        (Seq::<Diagnostic>::empty(), pending)
    } else if !f.has_body {
        match pending {
            Some(prev) => if prev.sym == f.ident@.sym {
                (Seq::<Diagnostic>::empty(), Some(f.ident@))
            } else {
                (
                    seq![Diagnostic::FnImplMissingOrNotFollowedByDecl { span: prev.span }],
                    Some(f.ident@),
                )
            },
            None => (Seq::<Diagnostic>::empty(), Some(f.ident@)),
        }
    } else {
        match pending {
            Some(prev) => if prev.sym == f.ident@.sym {
                (Seq::<Diagnostic>::empty(), None::<SpecIdent>)
            } else {
                (seq![Diagnostic::WrongNameOfFnImpl { span: f.ident@.span }], None::<SpecIdent>)
            },
            None => (Seq::<Diagnostic>::empty(), None::<SpecIdent>),
        }
    }
}

/// The checker's work on one statement: the diagnostics reported and the
/// pending signature afterwards.
///
/// A namespace or module first yields the diagnostics of its own body checked
/// as an independent scope — none at all if the container is `declare`d —
/// and then, being a non-function statement, abandons any pending signature
/// of the enclosing sequence. Any other non-function statement abandons the
/// pending signature as well.
pub open spec fn run_stmt(s: Stmt, pending: Option<SpecIdent>) -> (Seq<
    Diagnostic,
>, Option<SpecIdent>)
    decreases s, 0int,
{
    match s {
        Stmt::Fn(f) => fn_decl_step(f, pending),
        Stmt::Namespace { declare, body } => {
            let inner = if declare {
                Seq::<Diagnostic>::empty()
            } else {
                unit_diags(body@)
            };
            (inner + flush_diags(pending), None::<SpecIdent>)
        },
        Stmt::Module { declare, body } => {
            let inner = if declare {
                Seq::<Diagnostic>::empty()
            } else {
                unit_diags(body@)
            };
            (inner + flush_diags(pending), None::<SpecIdent>)
        },
        Stmt::Other => (flush_diags(pending), None::<SpecIdent>),
    }
}

/// [`run_stmt`], threaded through a statement sequence in document order.
pub open spec fn run_stmts(stmts: Seq<Stmt>, pending: Option<SpecIdent>) -> (Seq<
    Diagnostic,
>, Option<SpecIdent>)
    decreases stmts, 1int,
{
    if stmts.len() == 0 {
        (Seq::<Diagnostic>::empty(), pending)
    } else {
        let first = run_stmt(stmts[0], pending);
        let rest = run_stmts(stmts.subrange(1, stmts.len() as int), first.1);
        (first.0 + rest.0, rest.1)
    }
}

/// The diagnostics of one complete statement sequence checked as its own
/// scope: nothing pending at entry, and a still-pending signature at the end
/// flushed as one final missing-implementation report.
pub open spec fn unit_diags(stmts: Seq<Stmt>) -> Seq<Diagnostic>
    decreases stmts, 2int,
{
    let r = run_stmts(stmts, None::<SpecIdent>);
    r.0 + flush_diags(r.1)
}

/// Processing a sequence extended by one statement first processes the
/// sequence and then steps the extending statement from the state the
/// sequence left behind.
proof fn lemma_run_stmts_push(stmts: Seq<Stmt>, s: Stmt, pending: Option<SpecIdent>)
    ensures
        run_stmts(stmts.push(s), pending).0 == run_stmts(stmts, pending).0 + run_stmt(
            s,
            run_stmts(stmts, pending).1,
        ).0,
        run_stmts(stmts.push(s), pending).1 == run_stmt(s, run_stmts(stmts, pending).1).1,
    decreases stmts.len(),
{
    let whole = stmts.push(s);
    if stmts.len() == 0 {
        reveal_with_fuel(run_stmts, 2);
        let b = run_stmt(s, pending);
        assert(whole[0] == s);
        assert(whole.subrange(1, whole.len() as int) =~= Seq::<Stmt>::empty());
        assert(run_stmts(whole, pending).0 =~= b.0);
        assert(run_stmts(stmts, pending).0 + b.0 =~= b.0);
    } else {
        let first = run_stmt(stmts[0], pending);
        let tail = stmts.subrange(1, stmts.len() as int);
        assert(whole[0] == stmts[0]);
        assert(whole.subrange(1, whole.len() as int) =~= tail.push(s));
        lemma_run_stmts_push(tail, s, first.1);
        let tail_r = run_stmts(tail, first.1);
        let b = run_stmt(s, tail_r.1);
        assert(first.0 + (tail_r.0 + b.0) =~= (first.0 + tail_r.0) + b.0);
    }
}

/// Byte-for-byte equality of two identifier texts.
pub fn sym_eq(a: &Vec<u8>, b: &Vec<u8>) -> (r: bool)
    ensures
        r == (a@ == b@),
{
    if a.len() != b.len() {
        return false;
    }
    let mut i: usize = 0;
    while i < a.len()
        invariant
            i <= a.len(),
            a.len() == b.len(),
            forall|j: int| 0 <= j < i ==> a@[j] == b@[j],
        decreases a.len() - i,
    {
        if a[i] != b[i] {
            return false;
        }
        i += 1;
    }
    proof {
        assert(a@ =~= b@);
    }
    true
}

/// The checker's whole state: the most recent unresolved body-less function
/// declaration, if any, and the diagnostics reported so far, in order.
pub struct AmbientFunctionHandler {
    pub last_ambient_name: Option<Ident>,
    pub errors: Vec<Diagnostic>,
}

impl AmbientFunctionHandler {
    /// The mathematical value of the pending state.
    pub open spec fn pending(&self) -> Option<SpecIdent> {
        match self.last_ambient_name {
            Some(id) => Some(id@),
            None => None,
        }
    }

    /// A fresh checker: nothing pending, nothing reported.
    pub fn new() -> (h: Self)
        ensures
            h.pending() is None,
            h.errors@ == Seq::<Diagnostic>::empty(),
    {
        AmbientFunctionHandler { last_ambient_name: None, errors: Vec::new() }
    }

    /// Flushes the pending signature, if any, as one missing-implementation
    /// diagnostic at the signature's span.
    pub fn handle_missing_impl(&mut self)
        ensures
            final(self).pending() is None,
            final(self).errors@ == old(self).errors@ + flush_diags(old(self).pending()),
    {
        match self.last_ambient_name.take() {
            Some(id) => {
                self.errors.push(
                    Diagnostic::FnImplMissingOrNotFollowedByDecl { span: id.span },
                );
                proof {
                    assert(self.errors@ =~= old(self).errors@ + flush_diags(
                        old(self).pending(),
                    ));
                }
            },
            None => {
                proof {
                    assert(self.errors@ =~= old(self).errors@ + flush_diags(
                        old(self).pending(),
                    ));
                }
            },
        }
    }

    /// Visits one statement: children first (a non-`declare` namespace or
    /// module body, checked as an independent scope), then the statement's
    /// own shape, as [`run_stmt`] specifies it.
    pub fn visit(&mut self, node: &Stmt)
        ensures
            final(self).errors@ == old(self).errors@ + run_stmt(*node, old(self).pending()).0,
            final(self).pending() == run_stmt(*node, old(self).pending()).1,
        decreases *node, 3int,
    {
        match node {
            Stmt::Fn(f) => {
                self.visit_fn_decl(f);
            },
            Stmt::Namespace { declare, body } => {
                self.visit_nested(*declare, body);
            },
            Stmt::Module { declare, body } => {
                self.visit_nested(*declare, body);
            },
            Stmt::Other => {
                self.handle_missing_impl();
            },
        }
    }

    /// Visits a namespace or module: checks the nested body as its own scope
    /// unless the container is `declare`d, then abandons any pending
    /// signature of the enclosing sequence.
    fn visit_nested(&mut self, declare: bool, body: &Vec<Stmt>)
        ensures
            final(self).errors@ == old(self).errors@ + ((if declare {
                Seq::<Diagnostic>::empty()
            } else {
                unit_diags(body@)
            }) + flush_diags(old(self).pending())),
            final(self).pending() is None,
        decreases body@, 2int,
    {
        if !declare {
            let outer = self.last_ambient_name.take();
            self.visit_stmts(body);
            self.handle_missing_impl();
            self.last_ambient_name = outer;
        }
        self.handle_missing_impl();
        proof {
            assert(self.errors@ =~= old(self).errors@ + ((if declare {
                Seq::<Diagnostic>::empty()
            } else {
                unit_diags(body@)
            }) + flush_diags(old(self).pending())));
        }
    }

    /// Visits every statement of a sequence in document order, as
    /// [`run_stmts`] specifies it. The end-of-sequence flush is the caller's:
    /// a still-pending signature is left in place.
    pub fn visit_stmts(&mut self, stmts: &Vec<Stmt>)
        ensures
            final(self).errors@ == old(self).errors@ + run_stmts(stmts@, old(self).pending()).0,
            final(self).pending() == run_stmts(stmts@, old(self).pending()).1,
        decreases stmts@, 1int,
    {
        let ghost errs0 = self.errors@;
        let ghost pend0 = self.pending();
        proof {
            assert(stmts@.subrange(0, 0) =~= Seq::<Stmt>::empty());
            assert(errs0 + Seq::<Diagnostic>::empty() =~= errs0);
        }
        let mut i: usize = 0;
        while i < stmts.len()
            invariant
                i <= stmts.len(),
                self.errors@ == errs0 + run_stmts(stmts@.subrange(0, i as int), pend0).0,
                self.pending() == run_stmts(stmts@.subrange(0, i as int), pend0).1,
            decreases stmts.len() - i,
        {
            self.visit(&stmts[i]);
            i += 1;
            proof {
                let prefix = stmts@.subrange(0, i - 1);
                let s = stmts@[i - 1];
                assert(stmts@.subrange(0, i as int) =~= prefix.push(s));
                lemma_run_stmts_push(prefix, s, pend0);
                assert(errs0 + run_stmts(prefix.push(s), pend0).0 =~= (errs0 + run_stmts(
                    prefix,
                    pend0,
                ).0) + run_stmt(s, run_stmts(prefix, pend0).1).0);
            }
        }
        proof {
            assert(stmts@.subrange(0, stmts.len() as int) =~= stmts@);
        }
    }

    /// The state transition for one function declaration, as
    /// [`fn_decl_step`] specifies it.
    pub fn visit_fn_decl(&mut self, node: &FnDecl)
        ensures
            final(self).errors@ == old(self).errors@ + fn_decl_step(
                *node,
                old(self).pending(),
            ).0,
            final(self).pending() == fn_decl_step(*node, old(self).pending()).1,
    {
        if node.declare {
            proof {
                assert(self.errors@ =~= old(self).errors@ + fn_decl_step(
                    *node,
                    old(self).pending(),
                ).0);
            }
            return;
        }
        if !node.has_body {
            match self.last_ambient_name.take() {
                Some(prev) => {
                    if !sym_eq(&prev.sym, &node.ident.sym) {
                        self.errors.push(
                            Diagnostic::FnImplMissingOrNotFollowedByDecl { span: prev.span },
                        );
                    }
                },
                None => {},
            }
            self.last_ambient_name = Some(node.ident.clone());
            proof {
                assert(self.errors@ =~= old(self).errors@ + fn_decl_step(
                    *node,
                    old(self).pending(),
                ).0);
            }
        } else {
            match self.last_ambient_name.take() {
                Some(prev) => {
                    if !sym_eq(&prev.sym, &node.ident.sym) {
                        self.errors.push(
                            Diagnostic::WrongNameOfFnImpl { span: node.ident.span },
                        );
                    }
                },
                None => {},
            }
            proof {
                assert(self.errors@ =~= old(self).errors@ + fn_decl_step(
                    *node,
                    old(self).pending(),
                ).0);
            }
        }
    }
}

/// Checks one compilation unit's top-level statement sequence for
/// ambient-overload consistency and returns the diagnostics in report order.
///
/// A unit marked builtin is trusted as well-formed by construction: the check
/// is skipped entirely and nothing is reported. Otherwise the diagnostics are
/// exactly [`unit_diags`] of the sequence, final flush included.
pub fn report_error_for_wrong_top_level_ambient_fns(nodes: &Vec<Stmt>, is_builtin: bool) -> (errors:
    Vec<Diagnostic>)
    ensures
        is_builtin ==> errors@ == Seq::<Diagnostic>::empty(),
        !is_builtin ==> errors@ == unit_diags(nodes@),
{
    if is_builtin {
        return Vec::new();
    }
    let mut visitor = AmbientFunctionHandler::new();
    visitor.visit_stmts(nodes);
    visitor.handle_missing_impl();
    proof {
        assert(visitor.errors@ =~= unit_diags(nodes@));
    }
    visitor.errors
}

} // verus!
