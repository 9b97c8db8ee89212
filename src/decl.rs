//! The structural model of a function declaration.
use vstd::prelude::*;

verus! {

/// How a parameter's value is passed.
#[derive(PartialEq, Eq, Structural, Clone, Copy, Debug)]
pub enum RefMode {
    /// By value.
    Owned,
    /// Through a shared reference (`&T`).
    Shared,
    /// Through a mutable reference (`&mut T`).
    Mutable,
}

/// One entry of a parameter list.
#[derive(Debug)]
pub enum Parameter {
    /// The `self` parameter of a method, with the way it is passed.
    Receiver { mode: RefMode },
    /// A parameter bound by a pattern. `binding` is the identifier when the
    /// pattern is a single identifier, and `None` otherwise.
    Named { binding: Option<String>, mode: RefMode },
}

/// The shape of one statement of a body.
#[derive(Debug)]
pub enum StatementKind {
    /// A `let` binding; `binding` as for parameters.
    Local { binding: Option<String> },
    /// An expression, with or without a trailing semicolon.
    Expr,
    /// An item or a macro in statement position.
    Other,
}

/// A statement of a body: its shape and its source text.
#[derive(Debug)]
pub struct Statement {
    pub kind: StatementKind,
    pub text: String,
}

/// A function declaration, as far as the policy and the rewrite need it.
///
/// The texts are source texts: `attrs` the outer attributes, which stand
/// before the item, `inner_attrs` the inner attributes (`#![...]`), which
/// open its body, `vis` the visibility (empty when private), `signature`
/// everything from the qualifiers to the return type. `params` describes the
/// parameter list of that signature, in order.
#[derive(Debug)]
pub struct FunctionDeclaration {
    pub attrs: String,
    pub inner_attrs: String,
    pub vis: String,
    pub name: String,
    pub signature: String,
    pub params: Vec<Parameter>,
    pub is_async: bool,
    pub stmts: Vec<Statement>,
}

pub open spec fn is_receiver(p: Parameter) -> bool {
    p is Receiver
}

/// A named parameter whose type is a mutable reference.
pub open spec fn is_mut_named(p: Parameter) -> bool {
    p is Named && p->Named_mode == RefMode::Mutable
}

/// A receiver passed as `&mut self`.
pub open spec fn is_mut_receiver(p: Parameter) -> bool {
    p is Receiver && p->Receiver_mode == RefMode::Mutable
}

/// A named parameter whose pattern binds no single identifier.
pub open spec fn is_unsupported_pattern(p: Parameter) -> bool {
    p is Named && p->Named_binding is None
}

/// The identifiers of the named parameters of `ps`, in order.
pub open spec fn names_of(ps: Seq<Parameter>) -> Seq<Seq<char>>
    decreases ps.len(),
{
    if ps.len() == 0 {
        Seq::empty()
    } else {
        let last = ps.last();
        let rest = names_of(ps.drop_last());
        match last {
            Parameter::Named { binding: Some(n), .. } => rest.push(n@),
            _ => rest,
        }
    }
}

/// The bindings of the `let` statements among `ss`, in order.
pub open spec fn locals_of(ss: Seq<Statement>) -> Seq<Option<Seq<char>>>
    decreases ss.len(),
{
    if ss.len() == 0 {
        Seq::empty()
    } else {
        let rest = locals_of(ss.drop_last());
        match ss.last().kind {
            StatementKind::Local { binding } => rest.push(
                match binding {
                    Some(n) => Some(n@),
                    None => None,
                },
            ),
            _ => rest,
        }
    }
}

impl FunctionDeclaration {
    pub open spec fn has_receiver(&self) -> bool {
        exists|i: int| 0 <= i < self.params.len() && is_receiver(#[trigger] self.params@[i])
    }

    pub open spec fn has_mut_named(&self) -> bool {
        exists|i: int| 0 <= i < self.params.len() && is_mut_named(#[trigger] self.params@[i])
    }

    pub open spec fn has_mut_receiver(&self) -> bool {
        exists|i: int| 0 <= i < self.params.len() && is_mut_receiver(#[trigger] self.params@[i])
    }

    pub open spec fn has_unsupported_pattern(&self) -> bool {
        exists|i: int|
            0 <= i < self.params.len() && is_unsupported_pattern(#[trigger] self.params@[i])
    }

    /// Some parameter, the receiver included, is a mutable reference.
    pub open spec fn has_mut_reference(&self) -> bool {
        self.has_mut_named() || self.has_mut_receiver()
    }

    pub open spec fn param_names(&self) -> Seq<Seq<char>> {
        names_of(self.params@)
    }

    pub open spec fn local_bindings(&self) -> Seq<Option<Seq<char>>> {
        locals_of(self.stmts@)
    }
}

} // verus!
