//! The boundary to the `syn` parser. A function item parsed by `syn` is kept
//! together with the text it was parsed from, and each structural fact of it
//! that the library reads is named as a function of that text. The texts of
//! its pieces are printed by `proc-macro2`, whose printer depends on the
//! process it runs in, so nothing is promised of them. Everything here is
//! taken on trust from `syn`, `quote` and `proc-macro2`.
use vstd::prelude::*;

use quote::ToTokens;

verus! {

#[verifier::external_type_specification]
#[verifier::external_body]
pub struct ExItemFn(syn::ItemFn);

/// Whether `syn` reads the text as an empty token stream.
pub uninterp spec fn holds_no_tokens(args: Seq<char>) -> bool;

/// Whether `syn` reads the text as one function item.
pub uninterp spec fn is_function_item(input: Seq<char>) -> bool;


/// The name of the function item in `src`.
pub uninterp spec fn name_in(src: Seq<char>) -> Seq<char>;



/// Whether its signature is `async`.
pub uninterp spec fn is_async_in(src: Seq<char>) -> bool;

/// How many attributes it has, outer ones and inner ones of the body together.
pub uninterp spec fn attr_count_in(src: Seq<char>) -> nat;

/// Whether its attribute `i` is an inner one (`#![...]`).
pub uninterp spec fn attr_is_inner_in(src: Seq<char>, i: int) -> bool;


/// How many parameters it has, the receiver included.
pub uninterp spec fn param_count_in(src: Seq<char>) -> nat;

/// Whether its parameter `i` is the receiver.
pub uninterp spec fn param_is_receiver_in(src: Seq<char>, i: int) -> bool;

/// Whether the type of its parameter `i` is a reference: `None` if not,
/// `Some(m)` if it is, with `m` whether it is a mutable one.
pub uninterp spec fn param_reference_in(src: Seq<char>, i: int) -> Option<bool>;

/// The identifier of its parameter `i`, when that is a named parameter whose
/// pattern is one identifier.
pub uninterp spec fn param_binding_in(src: Seq<char>, i: int) -> Option<Seq<char>>;

/// How many top-level statements its body has.
pub uninterp spec fn stmt_count_in(src: Seq<char>) -> nat;

/// Whether its statement `i` is a `let` statement.
pub uninterp spec fn stmt_is_local_in(src: Seq<char>, i: int) -> bool;

/// Whether its statement `i` is an expression.
pub uninterp spec fn stmt_is_expr_in(src: Seq<char>, i: int) -> bool;

/// The identifier that its statement `i` binds, when that is a `let` whose
/// pattern is one identifier, with or without a type.
pub uninterp spec fn local_binding_in(src: Seq<char>, i: int) -> Option<Seq<char>>;


pub open spec fn opt_text(o: Option<String>) -> Option<Seq<char>> {
    match o {
        Some(s) => Some(s@),
        None => None,
    }
}

/// A function item parsed by `syn`, with the text it was parsed from. Only
/// `parse_function` makes one, so the two always belong together.
pub struct ParsedItem {
    item: syn::ItemFn,
    source: Ghost<Seq<char>>,
}

impl View for ParsedItem {
    type V = Seq<char>;

    closed spec fn view(&self) -> Seq<char> {
        self.source@
    }
}

/// Relies on `syn::parse_str::<syn::parse::Nothing>`, which succeeds when the
/// text holds no tokens, as the empty text does.
#[verifier::external_body]
pub(crate) fn parse_no_tokens(args: &str) -> (r: bool)
    ensures
        r == holds_no_tokens(args@),
        args@.len() == 0 ==> r,
{
    syn::parse_str::<syn::parse::Nothing>(args).is_ok()
}

/// Relies on `syn::parse_str::<syn::ItemFn>`, which parses a function item.
#[verifier::external_body]
fn parse_item_fn(input: &str) -> (r: Option<syn::ItemFn>)
    ensures
        r is Some == is_function_item(input@),
{
    syn::parse_str::<syn::ItemFn>(input).ok()
}

/// Parses `input` as a function item.
pub(crate) fn parse_function(input: &str) -> (r: Option<ParsedItem>)
    ensures
        r is Some == is_function_item(input@),
        r matches Some(p) ==> p@ == input@,
{
    match parse_item_fn(input) {
        Some(item) => Some(ParsedItem { item, source: Ghost(input@) }),
        None => None,
    }
}

/// Relies on `proc_macro2::Ident`'s `to_string` for the name of the item.
#[verifier::external_body]
pub(crate) fn item_name(p: &ParsedItem) -> (r: String)
    ensures
        r@ == name_in(p@),
{
    p.item.sig.ident.to_string()
}

/// Relies on `quote::ToTokens` for the text of the visibility of the item.
#[verifier::external_body]
pub(crate) fn visibility_text(p: &ParsedItem) -> String {
    p.item.vis.to_token_stream().to_string()
}

/// Relies on `quote::ToTokens` for the text of the signature of the item.
#[verifier::external_body]
pub(crate) fn signature_text(p: &ParsedItem) -> String {
    p.item.sig.to_token_stream().to_string()
}

/// Relies on the `asyncness` field of `syn::Signature`.
#[verifier::external_body]
pub(crate) fn item_is_async(p: &ParsedItem) -> (r: bool)
    ensures
        r == is_async_in(p@),
{
    p.item.sig.asyncness.is_some()
}

/// Relies on the `attrs` field of `syn::ItemFn`, which holds the outer
/// attributes of the item and the inner ones of its body.
#[verifier::external_body]
pub(crate) fn attribute_count(p: &ParsedItem) -> (r: usize)
    ensures
        r as nat == attr_count_in(p@),
{
    p.item.attrs.len()
}

/// Relies on the `style` field of `syn::Attribute`.
#[verifier::external_body]
pub(crate) fn attribute_is_inner(p: &ParsedItem, i: usize) -> (r: bool)
    requires
        i < attr_count_in(p@),
    ensures
        r == attr_is_inner_in(p@, i as int),
{
    match p.item.attrs[i].style {
        syn::AttrStyle::Inner(_) => true,
        syn::AttrStyle::Outer => false,
    }
}

/// Relies on `quote::ToTokens` for the text of an attribute.
#[verifier::external_body]
pub(crate) fn attribute_text(p: &ParsedItem, i: usize) -> String
    requires
        i < attr_count_in(p@),
{
    p.item.attrs[i].to_token_stream().to_string()
}

/// Relies on the `inputs` field of `syn::Signature`.
#[verifier::external_body]
pub(crate) fn param_count(p: &ParsedItem) -> (r: usize)
    ensures
        r as nat == param_count_in(p@),
{
    p.item.sig.inputs.len()
}

/// Relies on the variant `Receiver` of `syn::FnArg`.
#[verifier::external_body]
pub(crate) fn param_is_receiver(p: &ParsedItem, i: usize) -> (r: bool)
    requires
        i < param_count_in(p@),
    ensures
        r == param_is_receiver_in(p@, i as int),
{
    match &p.item.sig.inputs[i] {
        syn::FnArg::Receiver(_) => true,
        syn::FnArg::Typed(_) => false,
    }
}

/// Relies on the `ty` fields of `syn::Receiver` and `syn::PatType`, and on
/// `syn::Type::Reference` with its `mutability`. The type of `&mut self` is
/// `&mut Self`.
#[verifier::external_body]
pub(crate) fn param_reference(p: &ParsedItem, i: usize) -> (r: Option<bool>)
    requires
        i < param_count_in(p@),
    ensures
        r == param_reference_in(p@, i as int),
{
    let ty = match &p.item.sig.inputs[i] {
        syn::FnArg::Receiver(r) => &*r.ty,
        syn::FnArg::Typed(t) => &*t.ty,
    };
    match ty {
        syn::Type::Reference(r) => Some(r.mutability.is_some()),
        _ => None,
    }
}

/// Relies on the `pat` field of `syn::PatType` and the variant `Ident` of
/// `syn::Pat`.
#[verifier::external_body]
pub(crate) fn param_binding(p: &ParsedItem, i: usize) -> (r: Option<String>)
    requires
        i < param_count_in(p@),
    ensures
        opt_text(r) == param_binding_in(p@, i as int),
{
    match &p.item.sig.inputs[i] {
        syn::FnArg::Typed(t) => match &*t.pat {
            syn::Pat::Ident(id) => Some(id.ident.to_string()),
            _ => None,
        },
        syn::FnArg::Receiver(_) => None,
    }
}

/// Relies on the `stmts` field of `syn::Block`: the top-level statements.
#[verifier::external_body]
pub(crate) fn stmt_count(p: &ParsedItem) -> (r: usize)
    ensures
        r as nat == stmt_count_in(p@),
{
    p.item.block.stmts.len()
}

/// Relies on the variant `Local` of `syn::Stmt`.
#[verifier::external_body]
pub(crate) fn stmt_is_local(p: &ParsedItem, i: usize) -> (r: bool)
    requires
        i < stmt_count_in(p@),
    ensures
        r == stmt_is_local_in(p@, i as int),
{
    matches!(p.item.block.stmts[i], syn::Stmt::Local(_))
}

/// Relies on the variant `Expr` of `syn::Stmt`.
#[verifier::external_body]
pub(crate) fn stmt_is_expr(p: &ParsedItem, i: usize) -> (r: bool)
    requires
        i < stmt_count_in(p@),
    ensures
        r == stmt_is_expr_in(p@, i as int),
{
    matches!(p.item.block.stmts[i], syn::Stmt::Expr(..))
}

/// Relies on the `pat` field of `syn::Local` and the variants `Ident` and
/// `Type` of `syn::Pat`.
#[verifier::external_body]
pub(crate) fn local_binding(p: &ParsedItem, i: usize) -> (r: Option<String>)
    requires
        i < stmt_count_in(p@),
    ensures
        opt_text(r) == local_binding_in(p@, i as int),
{
    let pat = match &p.item.block.stmts[i] {
        syn::Stmt::Local(l) => match &l.pat {
            syn::Pat::Type(t) => &*t.pat,
            other => other,
        },
        _ => return None,
    };
    match pat {
        syn::Pat::Ident(id) => Some(id.ident.to_string()),
        _ => None,
    }
}

/// Relies on `quote::ToTokens` for the text of a statement, its semicolon
/// included.
#[verifier::external_body]
pub(crate) fn stmt_text(p: &ParsedItem, i: usize) -> String
    requires
        i < stmt_count_in(p@),
{
    p.item.block.stmts[i].to_token_stream().to_string()
}

/// Relies on `syn::Error::to_compile_error` for the text of a
/// `compile_error!` invocation that carries `message`. The printed form
/// depends on the process, so nothing is promised of it.
#[verifier::external_body]
pub(crate) fn compile_error_text(message: &str) -> String {
    syn::Error::new(proc_macro2::Span::call_site(), message).to_compile_error().to_string()
}

} // verus!
