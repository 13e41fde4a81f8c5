use vstd::prelude::*;
use crate::decl::{DeclView, FnDecl};

verus! {

/// The parameters written back as a list separated by `", "`.
pub open spec fn joined(params: Seq<Seq<char>>) -> Seq<char>
    decreases params.len(),
{
    if params.len() == 0 {
        Seq::empty()
    } else if params.len() == 1 {
        params[0]
    } else {
        joined(params.drop_last()) + ", "@ + params.last()
    }
}

/// The return type that every rewritten function declares.
pub open spec fn return_type_text() -> Seq<char> {
    "std::pin::Pin<Box<dyn std::future::Future<Output = error::Result<()>>>>"@
}

/// The parameter list between the parentheses, with the comma after the
/// last parameter where the original had one.
pub open spec fn param_list(d: DeclView) -> Seq<char> {
    if d.trailing_comma {
        joined(d.params) + ","@
    } else {
        joined(d.params)
    }
}

/// What a caller sees of a declaration: visibility, name and parameter list.
pub open spec fn surface(d: DeclView) -> Seq<char> {
    d.vis + " fn "@ + d.name + "("@ + param_list(d) + ")"@
}

/// The rewritten body: a single expression that boxes and pins an
/// `async move` block whose block is the original body.
pub open spec fn deferred_body(body: Seq<char>) -> Seq<char> {
    "{ Box::pin(async move "@ + body + ") }"@
}

/// The part of the rewritten declaration between the parameter list and the
/// body: the arrow and the fixed return type.
pub open spec fn return_clause() -> Seq<char> {
    " -> "@ + return_type_text() + " "@
}

/// The full text of the rewritten declaration.
pub open spec fn wrapped_text(d: DeclView) -> Seq<char> {
    surface(d) + return_clause() + deferred_body(d.body)
}

/// Writes the parameters back as a comma-separated list.
pub fn join_params(params: &Vec<String>) -> (r: String)
    ensures
        r@ == joined(params.deep_view()),
{
    let ghost all = params.deep_view();
    let mut r = String::new();
    let mut i: usize = 0;
    while i < params.len()
        invariant
            i <= params.len(),
            all == params.deep_view(),
            r@ == joined(all.take(i as int)),
        decreases params.len() - i,
    {
        if i > 0 {
            r.append(", ");
        }
        r.append(params[i].as_str());
        proof {
            assert(all[i as int] == params@[i as int]@);
            assert(all.take(i + 1).drop_last() =~= all.take(i as int));
            if i == 0 {
                assert(r@ =~= all.take(1)[0]);
            }
        }
        i += 1;
    }
    assert(all.take(params.len() as int) =~= all);
    r
}

/// Emits the rewritten declaration: the same visibility, name and parameters,
/// the fixed return type, and a body that defers the original one.
pub fn emit_wrapped(d: &FnDecl) -> (r: String)
    ensures
        r@ == wrapped_text(d@),
{
    let params = join_params(&d.params);
    let mut r = String::new();
    r.append(d.vis.as_str());
    r.append(" fn ");
    r.append(d.name.as_str());
    r.append("(");
    r.append(params.as_str());
    if d.trailing_comma {
        r.append(",");
    }
    r.append(")");
    r.append(" -> ");
    r.append("std::pin::Pin<Box<dyn std::future::Future<Output = error::Result<()>>>>");
    r.append(" ");
    r.append("{ Box::pin(async move ");
    r.append(d.body.as_str());
    r.append(") }");
    assert(r@ =~= wrapped_text(d@));
    r
}

} // verus!
