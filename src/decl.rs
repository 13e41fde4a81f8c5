use vstd::prelude::*;
use quote::ToTokens;

verus! {

/// The abstract value of a [`FnDecl`]: each part as the text of its tokens.
pub struct DeclView {
    pub vis: Seq<char>,
    pub name: Seq<char>,
    pub params: Seq<Seq<char>>,
    pub trailing_comma: bool,
    pub body: Seq<char>,
}

/// The parts of a function declaration that the rewrite keeps.
///
/// Each part holds the printed tokens of the source: the visibility (empty
/// where none was written), the function's name, one entry per parameter in
/// source order, whether a comma followed the last parameter, and the body
/// block with its braces.
#[derive(Debug)]
pub struct FnDecl {
    pub vis: String,
    pub name: String,
    pub params: Vec<String>,
    pub trailing_comma: bool,
    pub body: String,
}

impl View for FnDecl {
    type V = DeclView;

    open spec fn view(&self) -> DeclView {
        DeclView {
            vis: self.vis@,
            name: self.name@,
            params: self.params.deep_view(),
            trailing_comma: self.trailing_comma,
            body: self.body@,
        }
    }
}

/// What holds of the parts of every declaration that parses, however its
/// tokens are spaced: a name is never empty, the body is printed as one
/// braced block, and a comma can only follow a parameter.
pub open spec fn parts_shaped(d: DeclView) -> bool {
    &&& d.name.len() > 0
    &&& d.body.len() >= 2
    &&& d.body[0] == '{'
    &&& d.body.last() == '}'
    &&& d.trailing_comma ==> d.params.len() > 0
}

/// A parse failure from `syn`, kept whole so that the caller can turn it
/// into a compile error that halts the build.
#[verifier::external_type_specification]
#[verifier::external_body]
pub struct ExSynError(syn::Error);

/// Why a declaration cannot be rewritten.
#[derive(Debug)]
pub enum ActionError {
    /// The marked item is not a well-formed function definition.
    Malformed(syn::Error),
}

/// Relies on `syn::parse_str::<syn::ItemFn>` to parse one function
/// definition, and on `quote::ToTokens` to print the parts that are kept.
/// How tokens are spaced in that print depends on whether the process runs
/// inside the compiler, so of the parts' text only what holds either way is
/// stated: empty text has no `fn` token and is refused, an identifier is
/// never empty, a block prints as one brace-delimited group, and
/// `Punctuated::trailing_punct` is false on an empty list.
#[verifier::external_body]
fn parse_item_fn(src: &str) -> (r: Result<FnDecl, syn::Error>)
    ensures
        src@.len() == 0 ==> r is Err,
        r is Ok ==> r->Ok_0@.name.len() > 0,
        r is Ok ==> r->Ok_0@.body.len() >= 2 && r->Ok_0@.body[0] == '{'
            && r->Ok_0@.body.last() == '}',
        r is Ok && r->Ok_0@.trailing_comma ==> r->Ok_0@.params.len() > 0,
{
    let f = syn::parse_str::<syn::ItemFn>(src)?;
    Ok(FnDecl {
        vis: f.vis.to_token_stream().to_string(),
        name: f.sig.ident.to_string(),
        params: f.sig.inputs.iter().map(|p| p.to_token_stream().to_string()).collect(),
        trailing_comma: f.sig.inputs.trailing_punct(),
        body: f.block.to_token_stream().to_string(),
    })
}

/// Splits the text of a function definition into the parts that the rewrite
/// keeps. Any text that is not exactly one function definition is refused as
/// malformed.
pub fn parse_declaration(src: &str) -> (r: Result<FnDecl, ActionError>)
    ensures
        src@.len() == 0 ==> r is Err,
        r is Ok ==> parts_shaped(r->Ok_0@),
{
    match parse_item_fn(src) {
        Ok(d) => Ok(d),
        Err(e) => Err(ActionError::Malformed(e)),
    }
}

} // verus!
