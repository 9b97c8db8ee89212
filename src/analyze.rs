//! Structural facts of a declaration and the purity policy.
use vstd::prelude::*;

use crate::decl::{
    is_mut_named,
    is_mut_receiver,
    is_receiver,
    is_unsupported_pattern,
    names_of,
    locals_of,
    FunctionDeclaration,
    Parameter,
    RefMode,
    Statement,
    StatementKind,
};
use crate::diagnostic::{Diagnostic, ErrorKind};

verus! {

/// The verdict of the policy on a declaration. The rules apply in order and
/// the first that a declaration breaks decides.
pub open spec fn verdict(d: FunctionDeclaration) -> Option<ErrorKind> {
    if d.has_mut_reference() {
        Some(ErrorKind::MutableArgumentNotAllowed)
    } else if d.has_receiver() {
        Some(ErrorKind::ReceiverNotAllowed)
    } else if d.is_async {
        Some(ErrorKind::AsyncNotAllowed)
    } else if d.has_unsupported_pattern() {
        Some(ErrorKind::UnsupportedParameterPattern)
    } else {
        None
    }
}

/// A declaration together with the facts that the policy and the rewrite
/// read from it.
#[derive(Debug)]
pub struct FnAnalysis {
    pub function: FunctionDeclaration,
    /// The identifiers of the named parameters, in declaration order.
    pub arg_names: Vec<String>,
    /// The bindings of the top-level `let` statements, in order.
    pub locals: Vec<Option<String>>,
}

pub open spec fn names_view(v: Seq<String>) -> Seq<Seq<char>> {
    v.map_values(|s: String| s@)
}

pub open spec fn locals_view(v: Seq<Option<String>>) -> Seq<Option<Seq<char>>> {
    v.map_values(
        |b: Option<String>|
            match b {
                Some(s) => Some(s@),
                None => None,
            },
    )
}

fn copy_binding(b: &Option<String>) -> (r: Option<String>)
    ensures
        r == *b,
{
    match b {
        Some(s) => Some(s.clone()),
        None => None,
    }
}

impl FnAnalysis {
    /// The facts agree with the declaration they were read from.
    pub open spec fn wf(&self) -> bool {
        &&& names_view(self.arg_names@) == self.function.param_names()
        &&& locals_view(self.locals@) == self.function.local_bindings()
    }

    /// Reads the facts of a declaration, which it takes over.
    pub fn new(item_fn: FunctionDeclaration) -> (r: FnAnalysis)
        ensures
            r.function == item_fn,
            r.wf(),
    {
        let arg_names = FnAnalysis::extract_names(&item_fn.params);
        let locals = FnAnalysis::extract_locals(&item_fn.stmts);
        FnAnalysis { function: item_fn, arg_names, locals }
    }

    /// The identifiers of the named parameters of `params`, in order.
    pub fn extract_names(params: &Vec<Parameter>) -> (r: Vec<String>)
        ensures
            names_view(r@) == names_of(params@),
    {
        let mut r: Vec<String> = Vec::new();
        let mut i: usize = 0;
        while i < params.len()
            invariant
                i <= params.len(),
                names_view(r@) == names_of(params@.take(i as int)),
            decreases params.len() - i,
        {
            assert(params@.take(i as int + 1).drop_last() == params@.take(i as int));
            match &params[i] {
                Parameter::Named { binding: Some(n), .. } => {
                    r.push(n.clone());
                },
                _ => {},
            }
            assert(names_view(r@) == names_of(params@.take(i as int + 1)));
            i = i + 1;
        }
        assert(params@.take(params.len() as int) == params@);
        r
    }

    /// The bindings of the `let` statements among `stmts`, in order; nested
    /// blocks are not entered.
    pub fn extract_locals(stmts: &Vec<Statement>) -> (r: Vec<Option<String>>)
        ensures
            locals_view(r@) == locals_of(stmts@),
    {
        let mut r: Vec<Option<String>> = Vec::new();
        let mut i: usize = 0;
        while i < stmts.len()
            invariant
                i <= stmts.len(),
                locals_view(r@) == locals_of(stmts@.take(i as int)),
            decreases stmts.len() - i,
        {
            assert(stmts@.take(i as int + 1).drop_last() == stmts@.take(i as int));
            match &stmts[i].kind {
                StatementKind::Local { binding } => {
                    r.push(copy_binding(binding));
                },
                _ => {},
            }
            assert(locals_view(r@) == locals_of(stmts@.take(i as int + 1)));
            i = i + 1;
        }
        assert(stmts@.take(stmts.len() as int) == stmts@);
        r
    }

    /// The parameter list of the declaration, receiver included.
    pub fn args(&self) -> (r: &Vec<Parameter>)
        ensures
            r == &self.function.params,
    {
        &self.function.params
    }

    /// The statements of the body.
    pub fn stmts(&self) -> (r: &Vec<Statement>)
        ensures
            r == &self.function.stmts,
    {
        &self.function.stmts
    }

    pub fn is_async(&self) -> (r: bool)
        ensures
            r == self.function.is_async,
    {
        self.function.is_async
    }

    /// Whether the declaration has a receiver, however passed.
    pub fn has_self(&self) -> (r: bool)
        ensures
            r == self.function.has_receiver(),
    {
        let ps = &self.function.params;
        let mut i: usize = 0;
        while i < ps.len()
            invariant
                i <= ps.len(),
                ps@ == self.function.params@,
                forall|j: int| 0 <= j < i ==> !is_receiver(#[trigger] ps@[j]),
            decreases ps.len() - i,
        {
            if let Parameter::Receiver { .. } = &ps[i] {
                assert(self.function.has_receiver());
                return true;
            }
            i = i + 1;
        }
        false
    }

    /// Whether a named parameter has a mutable reference type. The receiver
    /// is not a named parameter: see `has_mut_self`.
    pub fn has_mut_arg(&self) -> (r: bool)
        ensures
            r == self.function.has_mut_named(),
    {
        let ps = &self.function.params;
        let mut i: usize = 0;
        while i < ps.len()
            invariant
                i <= ps.len(),
                ps@ == self.function.params@,
                forall|j: int| 0 <= j < i ==> !is_mut_named(#[trigger] ps@[j]),
            decreases ps.len() - i,
        {
            if let Parameter::Named { mode: RefMode::Mutable, .. } = &ps[i] {
                assert(self.function.has_mut_named());
                return true;
            }
            i = i + 1;
        }
        false
    }

    /// Whether the receiver is `&mut self`.
    pub fn has_mut_self(&self) -> (r: bool)
        ensures
            r == self.function.has_mut_receiver(),
    {
        let ps = &self.function.params;
        let mut i: usize = 0;
        while i < ps.len()
            invariant
                i <= ps.len(),
                ps@ == self.function.params@,
                forall|j: int| 0 <= j < i ==> !is_mut_receiver(#[trigger] ps@[j]),
            decreases ps.len() - i,
        {
            if let Parameter::Receiver { mode: RefMode::Mutable } = &ps[i] {
                assert(self.function.has_mut_receiver());
                return true;
            }
            i = i + 1;
        }
        false
    }

    /// Whether a named parameter's pattern binds no single identifier.
    pub fn has_unsupported_pattern(&self) -> (r: bool)
        ensures
            r == self.function.has_unsupported_pattern(),
    {
        let ps = &self.function.params;
        let mut i: usize = 0;
        while i < ps.len()
            invariant
                i <= ps.len(),
                ps@ == self.function.params@,
                forall|j: int| 0 <= j < i ==> !is_unsupported_pattern(#[trigger] ps@[j]),
            decreases ps.len() - i,
        {
            if let Parameter::Named { binding: None, .. } = &ps[i] {
                assert(self.function.has_unsupported_pattern());
                return true;
            }
            i = i + 1;
        }
        false
    }
}

/// Applies the policy to a declaration: rejects it with the first rule that
/// it breaks, or hands back its facts.
pub fn analyze(function: FunctionDeclaration) -> (r: Result<FnAnalysis, Diagnostic>)
    ensures
        verdict(function) is None <==> r is Ok,
        verdict(function) matches Some(k) ==> r == Err::<FnAnalysis, Diagnostic>(
            Diagnostic { kind: k },
        ),
        r matches Ok(fa) ==> fa.function == function && fa.wf(),
{
    let fn_analysis = FnAnalysis::new(function);
    if fn_analysis.has_mut_arg() || fn_analysis.has_mut_self() {
        return Err(Diagnostic::new(ErrorKind::MutableArgumentNotAllowed));
    }
    if fn_analysis.has_self() {
        return Err(Diagnostic::new(ErrorKind::ReceiverNotAllowed));
    }
    if fn_analysis.is_async() {
        return Err(Diagnostic::new(ErrorKind::AsyncNotAllowed));
    }
    if fn_analysis.has_unsupported_pattern() {
        return Err(Diagnostic::new(ErrorKind::UnsupportedParameterPattern));
    }
    Ok(fn_analysis)
}

} // verus!
