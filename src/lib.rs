//! Rewrites a handler function declaration into one that returns a pinned,
//! boxed future running the original body, so that handlers of any shape can
//! be stored and driven uniformly by a dispatcher.

pub mod decl;
pub mod emit;
pub mod laws;

use vstd::prelude::*;
use crate::decl::{parse_declaration, parts_shaped, ActionError, DeclView, FnDecl};
use crate::emit::{emit_wrapped, wrapped_text};

verus! {

/// Finishes a rewrite from the outcome of parsing the marked item: a parsed
/// declaration is emitted in its wrapped form, and a parse failure is passed
/// on, with nothing emitted.
pub fn rewrite_parsed(parsed: Result<FnDecl, ActionError>) -> (r: Result<String, ActionError>)
    ensures
        parsed is Ok <==> r is Ok,
        parsed is Ok ==> r->Ok_0@ == wrapped_text(parsed->Ok_0@),
        parsed is Err ==> r->Err_0 == parsed->Err_0,
{
    match parsed {
        Ok(d) => Ok(emit_wrapped(&d)),
        Err(e) => Err(e),
    }
}

/// Rewrites the marked function definition `item`.
///
/// The result keeps the visibility, name and parameters of `item`, replaces
/// whatever return type it had with a pinned, boxed future of
/// `error::Result<()>`, and moves the original body into an `async move`
/// block that runs only when the future is driven. `_attr`, the marker's
/// configuration, has no effect. Text that is not a function definition is
/// refused, and nothing is emitted for it; so is empty text.
pub fn action(_attr: &str, item: &str) -> (r: Result<String, ActionError>)
    ensures
        item@.len() == 0 ==> r is Err,
        r is Ok ==> exists|d: DeclView| parts_shaped(d) && r->Ok_0@ == wrapped_text(d),
{
    let parsed = parse_declaration(item);
    let ghost p = parsed;
    let r = rewrite_parsed(parsed);
    proof {
        if r is Ok {
            assert(parts_shaped(p->Ok_0@) && r->Ok_0@ == wrapped_text(p->Ok_0@));
        }
    }
    r
}

} // verus!
