//! The declaration model: the parts of a method block and of a type
//! definition that the transformers read, carried as plain token text.
//! Parsing source into this model and printing the results back out is the
//! host pipeline's job; everything here is ordinary data.

use vstd::prelude::*;

verus! {

/// One generic parameter of a declaration, carried as its token text.
pub enum GenericParam {
    /// A lifetime parameter, e.g. `'a`.
    Lifetime { text: String },
    /// A type parameter; `ident` is its bare name, `text` its full token text.
    Type { ident: String, text: String },
    /// A const parameter, e.g. `const N : usize`.
    Const { text: String },
}

/// The generic-parameter list of a declaration, with its optional
/// where-clause kept as token text.
pub struct GenericsDecl {
    pub params: Vec<GenericParam>,
    pub where_clause: Option<String>,
}

/// The normalized textual form of a generic-parameter list, used for
/// cross-pass equality checking.
#[derive(Debug)]
pub struct GenericSignature {
    /// The rendered parameter list, e.g. `< 'a , T , const N : usize >`.
    pub params: String,
    /// The where-clause token text, if any.
    pub where_clause: Option<String>,
}

/// One memoization slot: the method it caches and the cached value's type.
pub struct SlotSpec {
    pub method_name: String,
    pub value_type: String,
}

/// A method declaration inside an inherent method block.
pub struct MethodDecl {
    /// Visibility token text, e.g. `pub` (empty for private).
    pub vis: String,
    pub name: String,
    /// The parenthesized receiver and parameter list, e.g. `(& self)`.
    pub params: String,
    /// The declared return type's token text, if any.
    pub return_type: Option<String>,
    /// The body block's token text, braces included.
    pub body: String,
}

/// One item of a method block: a method, or anything else passed through.
pub enum ImplItem {
    Method(MethodDecl),
    Other { text: String },
}

/// A type path, e.g. `path :: to :: Foo`, with generic arguments stripped.
pub struct TypePath {
    pub segments: Vec<String>,
}

/// An inherent method block for one owning type.
pub struct ImplBlock {
    pub self_ty: TypePath,
    /// The implemented trait's token text, if the block is a trait impl.
    pub trait_name: Option<String>,
    pub generics: GenericsDecl,
    pub items: Vec<ImplItem>,
}

/// One named field of a type definition.
pub struct FieldDecl {
    pub vis: String,
    pub name: String,
    pub ty: String,
}

/// The field list of a type definition.
pub enum FieldsKind {
    Named(Vec<FieldDecl>),
    /// Tuple-style or unit field lists, which the embedder rejects.
    Unnamed,
}

/// A type definition with its generic-parameter list.
pub struct StructDecl {
    pub vis: String,
    pub name: String,
    pub generics: GenericsDecl,
    pub fields: FieldsKind,
}

/// Everything that can go wrong in either transformer or in the registry.
#[derive(Debug)]
pub enum CacheError {
    /// A method in the block has no explicit return type.
    MissingReturnType { method: String },
    /// The block implements a trait instead of being a bare inherent block.
    UnsupportedImplKind,
    /// The annotation was given a non-empty argument list.
    UnexpectedArguments,
    /// The type definition does not use named fields.
    UnnamedFields,
    /// An entry for the same type key is already registered.
    DuplicateRegistration,
    /// No entry is registered under the type key.
    EntryMissing,
    /// The signature presented at withdrawal differs from the recorded one.
    GenericsMismatch { registered: GenericSignature, presented: GenericSignature },
}

/// The text of an optional token string, for contracts over `Option<String>`.
pub open spec fn opt_text(o: Option<String>) -> Option<Seq<char>> {
    match o {
        Some(s) => Some(s@),
        None => None,
    }
}

/// Two generic signatures are equal as text: same rendered parameter list and
/// the same where-clause (or none on both sides).
pub open spec fn sig_matches(a: GenericSignature, b: GenericSignature) -> bool {
    a.params@ == b.params@ && opt_text(a.where_clause) == opt_text(b.where_clause)
}

/// Textual equality of two optional token strings.
pub fn opt_str_eq(a: &Option<String>, b: &Option<String>) -> (r: bool)
    ensures
        r == (opt_text(*a) == opt_text(*b)),
{
    match a {
        None => match b {
            None => true,
            Some(_) => false,
        },
        Some(x) => match b {
            None => false,
            Some(y) => *x == *y,
        },
    }
}

/// Textual equality of two generic signatures.
pub fn sig_eq(a: &GenericSignature, b: &GenericSignature) -> (r: bool)
    ensures
        r == sig_matches(*a, *b),
{
    a.params == b.params && opt_str_eq(&a.where_clause, &b.where_clause)
}

/// A copy of an optional token string.
pub fn clone_opt_str(o: &Option<String>) -> (r: Option<String>)
    ensures
        opt_text(r) == opt_text(*o),
{
    match o {
        None => None,
        Some(s) => Some(s.clone()),
    }
}

/// A copy of a list of token strings.
pub fn clone_string_vec(v: &Vec<String>) -> (r: Vec<String>)
    ensures
        r@ == v@,
{
    let mut r: Vec<String> = Vec::new();
    let mut i: usize = 0;
    while i < v.len()
        invariant
            i <= v@.len(),
            r@ == v@.subrange(0, i as int),
        decreases v@.len() - i,
    {
        r.push(v[i].clone());
        proof {
            assert(v@.subrange(0, i + 1int) =~= v@.subrange(0, i as int).push(v@[i as int]));
        }
        i = i + 1;
    }
    assert(v@.subrange(0, v@.len() as int) =~= v@);
    r
}

/// A copy of a generic-parameter list.
pub fn clone_params(params: &Vec<GenericParam>) -> (r: Vec<GenericParam>)
    ensures
        r@ == params@,
{
    let mut r: Vec<GenericParam> = Vec::new();
    let mut i: usize = 0;
    while i < params.len()
        invariant
            i <= params@.len(),
            r@ == params@.subrange(0, i as int),
        decreases params@.len() - i,
    {
        match &params[i] {
            GenericParam::Lifetime { text } => {
                r.push(GenericParam::Lifetime { text: text.clone() });
            },
            GenericParam::Type { ident, text } => {
                r.push(GenericParam::Type { ident: ident.clone(), text: text.clone() });
            },
            GenericParam::Const { text } => {
                r.push(GenericParam::Const { text: text.clone() });
            },
        }
        proof {
            assert(params@.subrange(0, i + 1int) =~= params@.subrange(0, i as int).push(
                params@[i as int],
            ));
        }
        i = i + 1;
    }
    assert(params@.subrange(0, params@.len() as int) =~= params@);
    r
}

/// A copy of a declaration's generics.
pub fn clone_generics(g: &GenericsDecl) -> (r: GenericsDecl)
    ensures
        r.params@ == g.params@,
        opt_text(r.where_clause) == opt_text(g.where_clause),
{
    GenericsDecl { params: clone_params(&g.params), where_clause: clone_opt_str(&g.where_clause) }
}

} // verus!
