//! Laws of the pipeline, proved over the specifications of its stages.
use vstd::prelude::*;

use crate::analyze::verdict;
use crate::codegen::joined;
use crate::decl::{
    is_mut_named,
    is_mut_receiver,
    is_receiver,
    is_unsupported_pattern,
    names_of,
    FunctionDeclaration,
    Parameter,
};
use crate::parse::{declared_by, param_read_from};
use crate::syntax::opt_text;
use crate::diagnostic::ErrorKind;
use crate::shim_text;

verus! {

/// An accepted declaration keeps its outward face: its shim begins with its
/// own visibility and its own signature (name, parameters and return type),
/// as they were.
pub proof fn lemma_signature_kept(d: FunctionDeclaration)
    requires
        verdict(d) is None,
    ensures
        ({
            let head = d.vis@ + " "@ + d.signature@;
            shim_text(d).subrange(0, head.len() as int) == head
        }),
{
    let head = d.vis@ + " "@ + d.signature@;
    let e = shim_text(d);
    assert(e.subrange(0, head.len() as int) =~= head);
}

/// A declaration with a receiver, mutable or not, is rejected: with
/// `MutableArgumentNotAllowed` when some parameter is a mutable reference,
/// with `ReceiverNotAllowed` otherwise.
pub proof fn lemma_receiver_rejected(d: FunctionDeclaration)
    requires
        d.has_receiver(),
    ensures
        verdict(d) == Some(ErrorKind::ReceiverNotAllowed) || verdict(d) == Some(
            ErrorKind::MutableArgumentNotAllowed,
        ),
        verdict(d) == Some(ErrorKind::ReceiverNotAllowed) <==> !d.has_mut_reference(),
{
}

/// A declaration with a named parameter of mutable reference type is
/// rejected with `MutableArgumentNotAllowed`.
pub proof fn lemma_mut_reference_rejected(d: FunctionDeclaration)
    requires
        exists|i: int| 0 <= i < d.params.len() && is_mut_named(#[trigger] d.params@[i]),
    ensures
        verdict(d) == Some(ErrorKind::MutableArgumentNotAllowed),
{
}

/// An asynchronous declaration is rejected with `AsyncNotAllowed`, unless an
/// earlier rule rejects it first: a receiver or a mutable reference
/// parameter.
pub proof fn lemma_async_rejected(d: FunctionDeclaration)
    requires
        d.is_async,
        !d.has_receiver(),
        !d.has_mut_reference(),
    ensures
        verdict(d) == Some(ErrorKind::AsyncNotAllowed),
{
}

/// In an accepted declaration every parameter is named by one identifier,
/// and the call in the shim forwards them all, each in its own position.
pub proof fn lemma_forwarding_order(d: FunctionDeclaration)
    requires
        verdict(d) is None,
    ensures
        d.param_names().len() == d.params.len(),
        forall|i: int|
            0 <= i < d.params.len() ==> (#[trigger] d.params@[i] matches Parameter::Named {
                binding: Some(n),
                ..
            } && d.param_names()[i] == n@),
{
    lemma_names_of_plain(d.params@);
}

/// Where every parameter is named by one identifier, `names_of` lists those
/// identifiers position by position.
proof fn lemma_names_of_plain(ps: Seq<Parameter>)
    requires
        forall|i: int| 0 <= i < ps.len() ==> (#[trigger] ps[i] matches Parameter::Named {
            binding: Some(_),
            ..
        }),
    ensures
        names_of(ps).len() == ps.len(),
        forall|i: int|
            0 <= i < ps.len() ==> (#[trigger] ps[i] matches Parameter::Named {
                binding: Some(n),
                ..
            } && names_of(ps)[i] == n@),
    decreases ps.len(),
{
    if ps.len() > 0 {
        let rest = ps.drop_last();
        assert forall|i: int| 0 <= i < rest.len() implies (#[trigger] rest[i] matches Parameter::Named {
            binding: Some(_),
            ..
        }) by {
            assert(rest[i] == ps[i]);
        }
        lemma_names_of_plain(rest);
        assert forall|i: int| 0 <= i < ps.len() implies (#[trigger] ps[i] matches Parameter::Named {
            binding: Some(n),
            ..
        } && names_of(ps)[i] == n@) by {
            if i < ps.len() - 1 {
                assert(rest[i] == ps[i]);
            }
        }
    }
}

/// The forwarded arguments of a shim stand in the call as a list of the
/// parameter identifiers, in order, separated by commas: for `(a: T1, b: T2)`
/// the call is `inner_mod :: name (a , b)`.
pub proof fn lemma_two_arguments_forwarded(d: FunctionDeclaration, a: Seq<char>, b: Seq<char>)
    requires
        verdict(d) is None,
        d.params.len() == 2,
        d.params@[0] matches Parameter::Named { binding: Some(n), .. } && n@ == a,
        d.params@[1] matches Parameter::Named { binding: Some(n), .. } && n@ == b,
    ensures
        joined(d.param_names(), " , "@) == a + " , "@ + b,
{
    lemma_forwarding_order(d);
    let names = d.param_names();
    assert(names.drop_last() =~= seq![a]);
    assert(joined(names.drop_last(), " , "@) == a);
}

/// Two parameters that agree in kind, in the way they are passed, and in
/// the identifier they bind.
pub open spec fn same_parameter(p: Parameter, q: Parameter) -> bool {
    match (p, q) {
        (Parameter::Receiver { mode: m1 }, Parameter::Receiver { mode: m2 }) => m1 == m2,
        (
            Parameter::Named { binding: b1, mode: m1 },
            Parameter::Named { binding: b2, mode: m2 },
        ) => m1 == m2 && opt_text(b1) == opt_text(b2),
        _ => false,
    }
}

proof fn lemma_names_agree(ps: Seq<Parameter>, qs: Seq<Parameter>)
    requires
        ps.len() == qs.len(),
        forall|i: int| 0 <= i < ps.len() ==> same_parameter(#[trigger] ps[i], qs[i]),
    ensures
        names_of(ps) == names_of(qs),
    decreases ps.len(),
{
    if ps.len() > 0 {
        assert forall|i: int| 0 <= i < ps.drop_last().len() implies same_parameter(
            #[trigger] ps.drop_last()[i],
            qs.drop_last()[i],
        ) by {
            assert(same_parameter(ps[i], qs[i]));
        }
        lemma_names_agree(ps.drop_last(), qs.drop_last());
        assert(same_parameter(ps[ps.len() - 1], qs[qs.len() - 1]));
    }
}

/// The text of an item fixes the outcome of the policy and the arguments of
/// the forwarding call: two declarations read from the same source get the
/// same verdict, have the same name, and forward the same identifiers.
pub proof fn lemma_outcome_determined(d1: FunctionDeclaration, d2: FunctionDeclaration, src: Seq<char>)
    requires
        declared_by(d1, src),
        declared_by(d2, src),
    ensures
        verdict(d1) == verdict(d2),
        d1.name@ == d2.name@,
        d1.param_names() == d2.param_names(),
{
    let ps = d1.params@;
    let qs = d2.params@;
    assert forall|i: int| 0 <= i < ps.len() implies same_parameter(#[trigger] ps[i], qs[i]) by {
        assert(param_read_from(ps[i], src, i));
        assert(param_read_from(qs[i], src, i));
    }
    lemma_names_agree(ps, qs);
    assert(d1.has_receiver() == d2.has_receiver()) by {
        if d1.has_receiver() {
            let i = choose|i: int| 0 <= i < ps.len() && is_receiver(#[trigger] ps[i]);
            assert(same_parameter(ps[i], qs[i]));
            assert(is_receiver(qs[i]));
        }
        if d2.has_receiver() {
            let i = choose|i: int| 0 <= i < qs.len() && is_receiver(#[trigger] qs[i]);
            assert(same_parameter(ps[i], qs[i]));
            assert(is_receiver(ps[i]));
        }
    }
    assert(d1.has_mut_named() == d2.has_mut_named()) by {
        if d1.has_mut_named() {
            let i = choose|i: int| 0 <= i < ps.len() && is_mut_named(#[trigger] ps[i]);
            assert(same_parameter(ps[i], qs[i]));
            assert(is_mut_named(qs[i]));
        }
        if d2.has_mut_named() {
            let i = choose|i: int| 0 <= i < qs.len() && is_mut_named(#[trigger] qs[i]);
            assert(same_parameter(ps[i], qs[i]));
            assert(is_mut_named(ps[i]));
        }
    }
    assert(d1.has_mut_receiver() == d2.has_mut_receiver()) by {
        if d1.has_mut_receiver() {
            let i = choose|i: int| 0 <= i < ps.len() && is_mut_receiver(#[trigger] ps[i]);
            assert(same_parameter(ps[i], qs[i]));
            assert(is_mut_receiver(qs[i]));
        }
        if d2.has_mut_receiver() {
            let i = choose|i: int| 0 <= i < qs.len() && is_mut_receiver(#[trigger] qs[i]);
            assert(same_parameter(ps[i], qs[i]));
            assert(is_mut_receiver(ps[i]));
        }
    }
    assert(d1.has_unsupported_pattern() == d2.has_unsupported_pattern()) by {
        if d1.has_unsupported_pattern() {
            let i = choose|i: int| 0 <= i < ps.len() && is_unsupported_pattern(#[trigger] ps[i]);
            assert(same_parameter(ps[i], qs[i]));
            assert(is_unsupported_pattern(qs[i]));
        }
        if d2.has_unsupported_pattern() {
            let i = choose|i: int| 0 <= i < qs.len() && is_unsupported_pattern(#[trigger] qs[i]);
            assert(same_parameter(ps[i], qs[i]));
            assert(is_unsupported_pattern(ps[i]));
        }
    }
}

} // verus!
