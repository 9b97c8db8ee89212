//! A purity checker and transformer for function declarations.
//!
//! A declaration is parsed into a structural model, checked against a fixed
//! policy (no receiver, no mutable-reference parameter, not asynchronous), and
//! rewritten into a forwarding shim whose body hides the original function in
//! a private module, so that callers can reach it only through the shim.
use vstd::prelude::*;

pub mod analyze;
pub mod codegen;
pub mod decl;
pub mod diagnostic;
pub mod laws;
pub mod parse;
pub mod syntax;

use crate::analyze::{analyze, names_view, verdict};
use crate::codegen::{codegen, item_text, joined, synthesized_text, Synthesized};
use crate::decl::FunctionDeclaration;
use crate::diagnostic::{Diagnostic, ErrorKind};
use crate::parse::{declared_by, parse};
use crate::syntax::{compile_error_text, holds_no_tokens, is_function_item};

verus! {

/// What stands in place of a rejected declaration: the text of the
/// diagnostic, then the declaration as it was given, so that the rest of the
/// code still sees it.
pub open spec fn rejected_text(diagnostic: Seq<char>, input: Seq<char>) -> Seq<char> {
    diagnostic + " "@ + input
}

/// The text of the shim that the rewrite makes of a declaration: its own
/// visibility and signature, a private module that holds the declaration made
/// public, and a call of it with the named parameters in order.
pub open spec fn shim_text(d: FunctionDeclaration) -> Seq<char> {
    d.vis@ + " "@ + d.signature@ + " { mod inner_mod { "@ + item_text(
        d.attrs@,
        d.inner_attrs@,
        "pub"@,
        d.signature@,
        d.stmts@,
    ) + " } inner_mod :: "@ + d.name@ + " ("@ + joined(d.param_names(), " , "@) + ") }"@
}

/// `r` is what the policy and the rewrite make of `d`: the diagnostic of the
/// first rule that `d` breaks, or the shim of `d`.
pub open spec fn outcome_of(d: FunctionDeclaration, r: Result<Synthesized, Diagnostic>) -> bool {
    match verdict(d) {
        Some(kind) => r == Err::<Synthesized, Diagnostic>(Diagnostic { kind }),
        None => r matches Ok(s) && s.vis == d.vis && s.signature == d.signature && names_view(
            s.call_args@,
        ) == d.param_names() && synthesized_text(s) == shim_text(d),
    }
}

/// `r` is a text that may stand for `d`, given as `input`: a diagnostic
/// followed by `input` when the policy rejects `d`, the shim of `d` when it
/// accepts it.
pub open spec fn expands_to(d: FunctionDeclaration, input: Seq<char>, r: Seq<char>) -> bool {
    match verdict(d) {
        Some(_) => exists|t: Seq<char>| r == rejected_text(t, input),
        None => r == shim_text(d),
    }
}

/// The text that replaces a rejected declaration: the diagnostic that `syn`
/// prints for `error`, then `input`.
pub fn reject(error: Diagnostic, input: &str) -> (r: String)
    ensures
        exists|t: Seq<char>| r@ == rejected_text(t, input@),
{
    let message = error.message();
    let mut out = compile_error_text(message.as_str());
    let ghost t = out@;
    out.append(" ");
    out.append(input);
    assert(out@ == rejected_text(t, input@));
    out
}

/// Checks a parsed declaration and rewrites it when the policy accepts it.
pub fn expand(function: FunctionDeclaration) -> (r: Result<Synthesized, Diagnostic>)
    ensures
        outcome_of(function, r),
{
    match analyze(function) {
        Err(error) => Err(error),
        Ok(fn_analysis) => {
            let synthesized = codegen(fn_analysis);
            assert(synthesized_text(synthesized) =~= shim_text(function));
            Ok(synthesized)
        },
    }
}

/// The whole pipeline on the arguments of the attribute and the annotated
/// item: the diagnostic that ends it, or the rewritten declaration.
pub fn transform(args: &str, input: &str) -> (r: Result<Synthesized, Diagnostic>)
    ensures
        !holds_no_tokens(args@) ==> r == Err::<Synthesized, Diagnostic>(
            Diagnostic { kind: ErrorKind::UnexpectedArguments },
        ),
        holds_no_tokens(args@) && !is_function_item(input@) ==> r == Err::<
            Synthesized,
            Diagnostic,
        >(Diagnostic { kind: ErrorKind::NotAFunction }),
        holds_no_tokens(args@) && is_function_item(input@) ==> exists|d: FunctionDeclaration|
            declared_by(d, input@) && outcome_of(d, r),
{
    match parse(args, input) {
        Err(error) => Err(error),
        Ok(function) => expand(function),
    }
}

/// The attribute: from its arguments and the annotated item, both as source
/// text, to the text that replaces the item. Which diagnostic a rejection
/// carries is given by `transform`; the expansion of an item depends on its
/// structure alone (`laws::lemma_outcome_determined`).
pub fn pure_functional(args: &str, input: &str) -> (r: String)
    ensures
        !(holds_no_tokens(args@) && is_function_item(input@)) ==> exists|t: Seq<char>|
            r@ == rejected_text(t, input@),
        holds_no_tokens(args@) && is_function_item(input@) ==> exists|d: FunctionDeclaration|
            declared_by(d, input@) && expands_to(d, input@, r@),
{
    let outcome = transform(args, input);
    match outcome {
        Err(error) => reject(error, input),
        Ok(synthesized) => synthesized.to_source(),
    }
}

} // verus!
