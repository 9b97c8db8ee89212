//! The rewrite of an accepted declaration into a forwarding shim, and its
//! source text.
use vstd::prelude::*;

use crate::analyze::{names_view, FnAnalysis};
use crate::decl::{FunctionDeclaration, Statement};

verus! {

/// The rewritten declaration: the original visibility and signature, around
/// a body that declares `inner` in a private module and calls it with
/// `call_args`.
#[derive(Debug)]
pub struct Synthesized {
    pub vis: String,
    pub signature: String,
    /// The original declaration, made public so the shim can reach it.
    pub inner: FunctionDeclaration,
    pub call_args: Vec<String>,
}

/// `parts` with `sep` between each two of them.
pub open spec fn joined(parts: Seq<Seq<char>>, sep: Seq<char>) -> Seq<char>
    decreases parts.len(),
{
    if parts.len() == 0 {
        Seq::empty()
    } else if parts.len() == 1 {
        parts[0]
    } else {
        joined(parts.drop_last(), sep) + sep + parts.last()
    }
}

pub open spec fn stmt_texts(ss: Seq<Statement>) -> Seq<Seq<char>> {
    ss.map_values(|s: Statement| s.text@)
}

/// The source text of a body: its inner attributes, then its statements.
pub open spec fn body_text(inner_attrs: Seq<char>, ss: Seq<Statement>) -> Seq<char> {
    "{ "@ + inner_attrs + " "@ + joined(stmt_texts(ss), " "@) + " }"@
}

/// The source text of a declaration made of these parts.
pub open spec fn item_text(
    attrs: Seq<char>,
    inner_attrs: Seq<char>,
    vis: Seq<char>,
    signature: Seq<char>,
    stmts: Seq<Statement>,
) -> Seq<char> {
    attrs + " "@ + vis + " "@ + signature + " "@ + body_text(inner_attrs, stmts)
}

/// The source text of a declaration.
pub open spec fn decl_text(d: FunctionDeclaration) -> Seq<char> {
    item_text(d.attrs@, d.inner_attrs@, d.vis@, d.signature@, d.stmts@)
}

/// The source text of a rewritten declaration.
pub open spec fn synthesized_text(s: Synthesized) -> Seq<char> {
    s.vis@ + " "@ + s.signature@ + " { mod inner_mod { "@ + decl_text(s.inner)
        + " } inner_mod :: "@ + s.inner.name@ + " ("@ + joined(names_view(s.call_args@), " , "@)
        + ") }"@
}

/// The rewrite of `fn_analysis`: a shim with the original visibility and
/// signature that forwards the named parameters, in order, to the original
/// declaration made public.
pub fn codegen(fn_analysis: FnAnalysis) -> (r: Synthesized)
    ensures
        r.vis == fn_analysis.function.vis,
        r.signature == fn_analysis.function.signature,
        r.inner.vis@ == "pub"@,
        r.inner.attrs == fn_analysis.function.attrs,
        r.inner.inner_attrs == fn_analysis.function.inner_attrs,
        r.inner.name == fn_analysis.function.name,
        r.inner.signature == fn_analysis.function.signature,
        r.inner.params == fn_analysis.function.params,
        r.inner.is_async == fn_analysis.function.is_async,
        r.inner.stmts == fn_analysis.function.stmts,
        r.call_args == fn_analysis.arg_names,
{
    let FnAnalysis { function, arg_names, .. } = fn_analysis;
    let FunctionDeclaration { attrs, inner_attrs, vis, name, signature, params, is_async, stmts } =
        function;
    let outer_signature = signature.clone();
    let inner = FunctionDeclaration {
        attrs,
        inner_attrs,
        vis: String::from_str("pub"),
        name,
        signature,
        params,
        is_async,
        stmts,
    };
    Synthesized { vis, signature: outer_signature, inner, call_args: arg_names }
}

/// Appends the texts of `stmts` to `out`, one space between each two.
fn push_statements(out: &mut String, stmts: &Vec<Statement>)
    ensures
        final(out)@ == old(out)@ + joined(stmt_texts(stmts@), " "@),
{
    let ghost start = out@;
    let mut i: usize = 0;
    while i < stmts.len()
        invariant
            i <= stmts.len(),
            out@ == start + joined(stmt_texts(stmts@.take(i as int)), " "@),
        decreases stmts.len() - i,
    {
        assert(stmt_texts(stmts@.take(i as int + 1)).drop_last() == stmt_texts(
            stmts@.take(i as int),
        ));
        if i > 0 {
            out.append(" ");
        }
        out.append(stmts[i].text.as_str());
        proof {
            let parts = stmt_texts(stmts@.take(i as int + 1));
            assert(parts.last() == stmts@[i as int].text@);
            if i == 0 {
                assert(joined(parts, " "@) == parts[0]);
            }
            assert(out@ == start + joined(parts, " "@));
        }
        i = i + 1;
    }
    assert(stmts@.take(stmts.len() as int) == stmts@);
}

/// Appends `names` to `out`, with `sep` between each two.
pub(crate) fn push_joined(out: &mut String, names: &Vec<String>, sep: &str)
    ensures
        final(out)@ == old(out)@ + joined(names_view(names@), sep@),
{
    let ghost start = out@;
    let mut i: usize = 0;
    while i < names.len()
        invariant
            i <= names.len(),
            out@ == start + joined(names_view(names@.take(i as int)), sep@),
        decreases names.len() - i,
    {
        assert(names_view(names@.take(i as int + 1)).drop_last() == names_view(
            names@.take(i as int),
        ));
        if i > 0 {
            out.append(sep);
        }
        out.append(names[i].as_str());
        proof {
            let parts = names_view(names@.take(i as int + 1));
            assert(parts.last() == names@[i as int]@);
            if i == 0 {
                assert(joined(parts, sep@) == parts[0]);
            }
            assert(out@ == start + joined(parts, sep@));
        }
        i = i + 1;
    }
    assert(names@.take(names.len() as int) == names@);
}

impl FunctionDeclaration {
    /// The source text of this declaration.
    pub fn to_source(&self) -> (r: String)
        ensures
            r@ == decl_text(*self),
    {
        let mut out = self.attrs.clone();
        out.append(" ");
        out.append(self.vis.as_str());
        out.append(" ");
        out.append(self.signature.as_str());
        out.append(" ");
        out.append("{ ");
        out.append(self.inner_attrs.as_str());
        out.append(" ");
        push_statements(&mut out, &self.stmts);
        out.append(" }");
        assert(out@ =~= decl_text(*self));
        out
    }
}

impl Synthesized {
    /// The source text of the rewritten declaration.
    pub fn to_source(&self) -> (r: String)
        ensures
            r@ == synthesized_text(*self),
    {
        let mut out = self.vis.clone();
        out.append(" ");
        out.append(self.signature.as_str());
        out.append(" { mod inner_mod { ");
        let inner = self.inner.to_source();
        out.append(inner.as_str());
        out.append(" } inner_mod :: ");
        out.append(self.inner.name.as_str());
        out.append(" (");
        push_joined(&mut out, &self.call_args, " , ");
        out.append(") }");
        assert(out@ =~= synthesized_text(*self));
        out
    }
}

} // verus!
