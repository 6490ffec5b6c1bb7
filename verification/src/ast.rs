//! Statement shapes read by the ambient-overload checker, and the diagnostics
//! it reports.
//!
//! Only what the checker inspects is modelled: a function declaration carries
//! its identifier, whether a body is present, and whether the declaration site
//! is marked `declare`; a namespace or module carries its `declare` mark and
//! its nested statement sequence; every other statement kind is opaque.

use vstd::prelude::*;

verus! {

/// A source location, used only for pointing diagnostics at declarations.
#[derive(Clone, Copy, PartialEq, Eq, Structural, Debug)]
pub struct Span {
    pub lo: u64,
    pub hi: u64,
}

/// An identifier: the text of a function name together with the location of
/// its occurrence.
pub struct Ident {
    pub sym: Vec<u8>,
    pub span: Span,
}

/// The mathematical value of an [`Ident`]: its name as a byte sequence, and
/// its location.
pub ghost struct SpecIdent {
    pub sym: Seq<u8>,
    pub span: Span,
}

impl View for Ident {
    type V = SpecIdent;

    open spec fn view(&self) -> SpecIdent {
        SpecIdent { sym: self.sym@, span: self.span }
    }
}

impl Clone for Ident {
    fn clone(&self) -> (r: Self)
        ensures
            r@ == self@,
    {
        let sym = self.sym.clone();
        proof {
            assert forall|i: int| 0 <= i < self.sym@.len() implies sym@[i] == self.sym@[i] by {
                assert(cloned::<u8>(self.sym[i], sym[i]));
            }
            assert(sym@ =~= self.sym@);
        }
        Ident { sym, span: self.span }
    }
}

/// A function declaration: its identifier, whether this site is marked
/// `declare` (ambient), and whether an implementation body is present.
pub struct FnDecl {
    pub ident: Ident,
    pub declare: bool,
    pub has_body: bool,
}

/// A statement, as far as the checker reads it.
pub enum Stmt {
    /// A function declaration.
    Fn(FnDecl),
    /// A namespace declaration with a nested statement sequence.
    Namespace { declare: bool, body: Vec<Stmt> },
    /// A module declaration with a nested statement sequence.
    Module { declare: bool, body: Vec<Stmt> },
    /// Any other statement kind: it carries nothing the checker reads.
    Other,
}

/// A diagnostic reported by the checker.
#[derive(Clone, Copy, PartialEq, Eq, Structural, Debug)]
pub enum Diagnostic {
    /// A body-less function declaration was never followed, in its own scope,
    /// by a matching-named implementation. Points at the signature.
    FnImplMissingOrNotFollowedByDecl { span: Span },
    /// A function implementation appeared while a differently-named signature
    /// was pending. Points at the implementation.
    WrongNameOfFnImpl { span: Span },
}

} // verus!
