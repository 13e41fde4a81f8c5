use vstd::prelude::*;
use crate::decl::DeclView;
use crate::emit::{deferred_body, joined, param_list, return_clause, surface, wrapped_text};

verus! {

/// The text in front of the parameter list: visibility, `fn` and the name.
pub open spec fn head(d: DeclView) -> Seq<char> {
    d.vis + " fn "@ + d.name + "("@
}

/// The text after the parameter list: the fixed return type and the
/// deferred body.
pub open spec fn tail(d: DeclView) -> Seq<char> {
    ")"@ + return_clause() + deferred_body(d.body)
}

/// The rewritten declaration opens with the visibility, name and parameter
/// list of the original, each written out unchanged: the parameters in their
/// order, and a comma after the last one exactly where the original had it.
pub proof fn lemma_call_surface_kept(d: DeclView)
    ensures
        wrapped_text(d).subrange(0, surface(d).len() as int)
            == d.vis + " fn "@ + d.name + "("@ + param_list(d) + ")"@,
        d.trailing_comma ==> param_list(d) == joined(d.params) + ","@,
        !d.trailing_comma ==> param_list(d) == joined(d.params),
{
    assert(wrapped_text(d).subrange(0, surface(d).len() as int) =~= surface(d));
}

/// The original body stands once, unchanged, as the block of the
/// `async move` expression that the rewritten body boxes and pins, and that
/// expression is the whole of the rewritten body.
pub proof fn lemma_body_deferred_verbatim(d: DeclView)
    ensures
        ({
            let w = wrapped_text(d);
            let k: int = (surface(d).len() + return_clause().len()
                + "{ Box::pin(async move "@.len()) as int;
            &&& w.subrange(0, k) == surface(d) + return_clause()
                + "{ Box::pin(async move "@
            &&& w.subrange(k, k + d.body.len()) == d.body
            &&& w.subrange(k + d.body.len(), w.len() as int) == ") }"@
        }),
{
    let w = wrapped_text(d);
    let k: int = (surface(d).len() + return_clause().len() + "{ Box::pin(async move "@.len()) as int;
    assert(w.subrange(0, k) =~= surface(d) + return_clause() + "{ Box::pin(async move "@);
    assert(w.subrange(k, k + d.body.len()) =~= d.body);
    assert(w.subrange(k + d.body.len(), w.len() as int) =~= ") }"@);
}

/// Right after the parameter list every rewritten declaration states the
/// same return type, whatever the original declared.
pub proof fn lemma_fixed_return_type(d: DeclView)
    ensures
        wrapped_text(d).subrange(
            surface(d).len() as int,
            surface(d).len() + return_clause().len() as int,
        ) == " -> "@ + "std::pin::Pin<Box<dyn std::future::Future<Output = error::Result<()>>>>"@
            + " "@,
{
    let s = surface(d).len() as int;
    assert(wrapped_text(d).subrange(s, s + return_clause().len() as int) =~= return_clause());
}

/// The parameters enter the rewritten text only as the written-out list:
/// two declarations that differ in their parameter lists alone, in count,
/// types or a final comma, are rewritten around the same head and tail.
pub proof fn lemma_params_only_listed(d1: DeclView, d2: DeclView)
    requires
        d1.vis == d2.vis,
        d1.name == d2.name,
        d1.body == d2.body,
    ensures
        head(d1) == head(d2),
        tail(d1) == tail(d2),
        wrapped_text(d1) == head(d1) + param_list(d1) + tail(d1),
        wrapped_text(d2) == head(d2) + param_list(d2) + tail(d2),
{
    assert(wrapped_text(d1) =~= head(d1) + param_list(d1) + tail(d1));
    assert(wrapped_text(d2) =~= head(d2) + param_list(d2) + tail(d2));
}

} // verus!
