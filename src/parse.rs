//! From source text to the structural model of a declaration.
use vstd::prelude::*;

use crate::codegen::push_joined;
use crate::decl::{FunctionDeclaration, Parameter, RefMode, Statement, StatementKind};
use crate::diagnostic::{Diagnostic, ErrorKind};
use crate::syntax::{
    attr_count_in,
    attribute_count,
    attribute_is_inner,
    attribute_text,
    holds_no_tokens,
    is_async_in,
    is_function_item,
    item_is_async,
    item_name,
    local_binding,
    local_binding_in,
    name_in,
    opt_text,
    param_binding,
    param_binding_in,
    param_count,
    param_count_in,
    param_is_receiver,
    param_is_receiver_in,
    param_reference,
    param_reference_in,
    parse_function,
    parse_no_tokens,
    signature_text,
    stmt_count,
    stmt_count_in,
    stmt_is_expr,
    stmt_is_expr_in,
    stmt_is_local,
    stmt_is_local_in,
    stmt_text,
    visibility_text,
    ParsedItem,
};

verus! {

/// How a parameter whose type is described by `reference` is passed.
pub open spec fn mode_of(reference: Option<bool>) -> RefMode {
    match reference {
        None => RefMode::Owned,
        Some(false) => RefMode::Shared,
        Some(true) => RefMode::Mutable,
    }
}

/// `p` is parameter `i` of the item in `src`.
pub open spec fn param_read_from(p: Parameter, src: Seq<char>, i: int) -> bool {
    match p {
        Parameter::Receiver { mode } => param_is_receiver_in(src, i) && mode == mode_of(
            param_reference_in(src, i),
        ),
        Parameter::Named { binding, mode } => !param_is_receiver_in(src, i) && mode == mode_of(
            param_reference_in(src, i),
        ) && opt_text(binding) == param_binding_in(src, i),
    }
}

/// `s` is statement `i` of the body of the item in `src`.
pub open spec fn stmt_read_from(s: Statement, src: Seq<char>, i: int) -> bool {
    match s.kind {
        StatementKind::Local { binding } => stmt_is_local_in(src, i) && opt_text(binding)
            == local_binding_in(src, i),
        StatementKind::Expr => !stmt_is_local_in(src, i) && stmt_is_expr_in(src, i),
        StatementKind::Other => !stmt_is_local_in(src, i) && !stmt_is_expr_in(src, i),
    }
}

/// `d` has the structure of the function item that `src` holds: its name,
/// whether it is asynchronous, and each of its parameters and statements,
/// in order. The texts of its pieces are `syn`'s printing of them, of which
/// nothing is known.
pub open spec fn declared_by(d: FunctionDeclaration, src: Seq<char>) -> bool {
    &&& d.name@ == name_in(src)
    &&& d.is_async == is_async_in(src)
    &&& d.params.len() == param_count_in(src)
    &&& forall|i: int| 0 <= i < d.params.len() ==> param_read_from(#[trigger] d.params@[i], src, i)
    &&& d.stmts.len() == stmt_count_in(src)
    &&& forall|i: int| 0 <= i < d.stmts.len() ==> stmt_read_from(#[trigger] d.stmts@[i], src, i)
}

fn mode_from(reference: Option<bool>) -> (r: RefMode)
    ensures
        r == mode_of(reference),
{
    match reference {
        None => RefMode::Owned,
        Some(false) => RefMode::Shared,
        Some(true) => RefMode::Mutable,
    }
}

/// Parameter `i` of `p`.
fn parameter_of(p: &ParsedItem, i: usize) -> (r: Parameter)
    requires
        i < param_count_in(p@),
    ensures
        param_read_from(r, p@, i as int),
{
    let mode = mode_from(param_reference(p, i));
    if param_is_receiver(p, i) {
        Parameter::Receiver { mode }
    } else {
        Parameter::Named { binding: param_binding(p, i), mode }
    }
}

/// Statement `i` of the body of `p`.
fn statement_of(p: &ParsedItem, i: usize) -> (r: Statement)
    requires
        i < stmt_count_in(p@),
    ensures
        stmt_read_from(r, p@, i as int),
{
    let kind = if stmt_is_local(p, i) {
        StatementKind::Local { binding: local_binding(p, i) }
    } else if stmt_is_expr(p, i) {
        StatementKind::Expr
    } else {
        StatementKind::Other
    };
    Statement { kind, text: stmt_text(p, i) }
}

/// The texts of the outer attributes of `p` and those of the inner ones,
/// each list with one space between each two.
fn attributes_of(p: &ParsedItem) -> (String, String) {
    let n = attribute_count(p);
    let mut outer: Vec<String> = Vec::new();
    let mut inner: Vec<String> = Vec::new();
    let mut i: usize = 0;
    while i < n
        invariant
            i <= n,
            n == attr_count_in(p@),
        decreases n - i,
    {
        let text = attribute_text(p, i);
        if attribute_is_inner(p, i) {
            inner.push(text);
        } else {
            outer.push(text);
        }
        i = i + 1;
    }
    let mut outer_text = String::new();
    push_joined(&mut outer_text, &outer, " ");
    let mut inner_text = String::new();
    push_joined(&mut inner_text, &inner, " ");
    (outer_text, inner_text)
}

/// The model of a parsed function item.
fn declaration_of(p: &ParsedItem) -> (r: FunctionDeclaration)
    ensures
        declared_by(r, p@),
{
    let n = param_count(p);
    let mut params: Vec<Parameter> = Vec::new();
    let mut i: usize = 0;
    while i < n
        invariant
            i <= n,
            n == param_count_in(p@),
            params.len() == i,
            forall|k: int| 0 <= k < i ==> param_read_from(#[trigger] params@[k], p@, k),
        decreases n - i,
    {
        params.push(parameter_of(p, i));
        i = i + 1;
    }
    let m = stmt_count(p);
    let mut stmts: Vec<Statement> = Vec::new();
    let mut j: usize = 0;
    while j < m
        invariant
            j <= m,
            m == stmt_count_in(p@),
            stmts.len() == j,
            forall|k: int| 0 <= k < j ==> stmt_read_from(#[trigger] stmts@[k], p@, k),
        decreases m - j,
    {
        stmts.push(statement_of(p, j));
        j = j + 1;
    }
    let (attrs, inner_attrs) = attributes_of(p);
    FunctionDeclaration {
        attrs,
        inner_attrs,
        vis: visibility_text(p),
        name: item_name(p),
        signature: signature_text(p),
        params,
        is_async: item_is_async(p),
        stmts,
    }
}

/// Parses the arguments of the attribute, which must be empty, and the
/// annotated item, which must be a function, into the declaration that the
/// item makes.
pub fn parse(args: &str, input: &str) -> (r: Result<FunctionDeclaration, Diagnostic>)
    ensures
        !holds_no_tokens(args@) <==> r == Err::<FunctionDeclaration, Diagnostic>(
            Diagnostic { kind: ErrorKind::UnexpectedArguments },
        ),
        holds_no_tokens(args@) && !is_function_item(input@) <==> r == Err::<
            FunctionDeclaration,
            Diagnostic,
        >(Diagnostic { kind: ErrorKind::NotAFunction }),
        r is Ok <==> holds_no_tokens(args@) && is_function_item(input@),
        r matches Ok(d) ==> declared_by(d, input@),
{
    if !parse_no_tokens(args) {
        return Err(Diagnostic::new(ErrorKind::UnexpectedArguments));
    }
    match parse_function(input) {
        Some(p) => Ok(declaration_of(&p)),
        None => Err(Diagnostic::new(ErrorKind::NotAFunction)),
    }
}

} // verus!
