//! Rendering of model values into normalized token text: the generic
//! signature recorded in the registry, the companion type's name and
//! parameter list, and the type key that correlates the two passes.

use vstd::prelude::*;
use vstd::string::StringExecFns;
use crate::model::GenericParam;
use crate::model::GenericsDecl;
use crate::model::GenericSignature;
use crate::model::TypePath;
use crate::model::clone_opt_str;
use crate::model::opt_text;

verus! {

/// The full token text of one generic parameter.
pub open spec fn param_text(p: GenericParam) -> Seq<char> {
    match p {
        GenericParam::Lifetime { text } => text@,
        GenericParam::Type { ident, text } => text@,
        GenericParam::Const { text } => text@,
    }
}

/// The bare identifier of a type parameter (and the full text of any other
/// parameter kind, which never reaches a companion's parameter list).
pub open spec fn param_ident(p: GenericParam) -> Seq<char> {
    match p {
        GenericParam::Lifetime { text } => text@,
        GenericParam::Type { ident, text } => ident@,
        GenericParam::Const { text } => text@,
    }
}

/// The parameters' full texts joined with ` , `.
pub open spec fn joined_params(params: Seq<GenericParam>) -> Seq<char>
    decreases params.len(),
{
    if params.len() == 0 {
        Seq::empty()
    } else if params.len() == 1 {
        param_text(params[0])
    } else {
        joined_params(params.drop_last()) + " , "@ + param_text(params.last())
    }
}

/// The parameters' bare identifiers joined with ` , `.
pub open spec fn joined_idents(params: Seq<GenericParam>) -> Seq<char>
    decreases params.len(),
{
    if params.len() == 0 {
        Seq::empty()
    } else if params.len() == 1 {
        param_ident(params[0])
    } else {
        joined_idents(params.drop_last()) + " , "@ + param_ident(params.last())
    }
}

/// The normalized text of a generic-parameter list: empty when there are no
/// parameters, otherwise the full texts in angle brackets.
pub open spec fn spec_render_params(params: Seq<GenericParam>) -> Seq<char> {
    if params.len() == 0 {
        Seq::empty()
    } else {
        "< "@ + joined_params(params) + " >"@
    }
}

/// The type parameters of a list, in order, lifetime and const parameters
/// left out.
pub open spec fn type_params(params: Seq<GenericParam>) -> Seq<GenericParam>
    decreases params.len(),
{
    if params.len() == 0 {
        Seq::empty()
    } else if params.last() is Type {
        type_params(params.drop_last()).push(params.last())
    } else {
        type_params(params.drop_last())
    }
}

/// The companion's own parameter list: the type parameters' identifiers in
/// angle brackets, or empty when the owning type has no type parameter.
pub open spec fn spec_type_param_list(params: Seq<GenericParam>) -> Seq<char> {
    if type_params(params).len() == 0 {
        Seq::empty()
    } else {
        "< "@ + joined_idents(type_params(params)) + " >"@
    }
}

/// The companion type's name, a pure function of the owning type's name.
pub open spec fn spec_companion_name(owner: Seq<char>) -> Seq<char> {
    "__struct_cache_field__"@ + owner + "CacheFields"@
}

/// The path segments joined with ` :: `: the type key under which the two
/// passes correlate, independent of concrete generic arguments.
pub open spec fn spec_join_path(segments: Seq<String>) -> Seq<char>
    decreases segments.len(),
{
    if segments.len() == 0 {
        Seq::empty()
    } else if segments.len() == 1 {
        segments[0]@
    } else {
        spec_join_path(segments.drop_last()) + " :: "@ + segments.last()@
    }
}

/// The decimal digit character for one digit value.
pub open spec fn decimal_digit(d: nat) -> char {
    if d == 0 {
        '0'
    } else if d == 1 {
        '1'
    } else if d == 2 {
        '2'
    } else if d == 3 {
        '3'
    } else if d == 4 {
        '4'
    } else if d == 5 {
        '5'
    } else if d == 6 {
        '6'
    } else if d == 7 {
        '7'
    } else if d == 8 {
        '8'
    } else {
        '9'
    }
}

/// The decimal notation of a number, most significant digit first.
pub open spec fn spec_decimal(n: nat) -> Seq<char>
    decreases n,
{
    if n < 10 {
        seq![decimal_digit(n)]
    } else {
        spec_decimal(n / 10) + seq![decimal_digit(n % 10)]
    }
}

pub(crate) fn append_param_text(out: &mut String, p: &GenericParam)
    ensures
        final(out)@ == old(out)@ + param_text(*p),
{
    match p {
        GenericParam::Lifetime { text } => out.append(text.as_str()),
        GenericParam::Type { ident, text } => out.append(text.as_str()),
        GenericParam::Const { text } => out.append(text.as_str()),
    }
}

fn append_param_ident(out: &mut String, p: &GenericParam)
    ensures
        final(out)@ == old(out)@ + param_ident(*p),
{
    match p {
        GenericParam::Lifetime { text } => out.append(text.as_str()),
        GenericParam::Type { ident, text } => out.append(ident.as_str()),
        GenericParam::Const { text } => out.append(text.as_str()),
    }
}

/// Renders a generic-parameter list into its normalized text.
pub fn render_params(params: &Vec<GenericParam>) -> (r: String)
    ensures
        r@ == spec_render_params(params@),
{
    if params.len() == 0 {
        return String::new();
    }
    let mut joined = String::new();
    let mut i: usize = 0;
    while i < params.len()
        invariant
            i <= params@.len(),
            joined@ == joined_params(params@.subrange(0, i as int)),
        decreases params@.len() - i,
    {
        if i > 0 {
            joined.append(" , ");
        }
        append_param_text(&mut joined, &params[i]);
        proof {
            let pre = params@.subrange(0, i as int);
            let post = params@.subrange(0, i + 1int);
            assert(post.drop_last() =~= pre);
            assert(post.last() == params@[i as int]);
            if i == 0 {
                assert(joined@ =~= joined_params(post));
            }
        }
        i = i + 1;
    }
    assert(params@.subrange(0, params@.len() as int) =~= params@);
    let mut r = String::new();
    r.append("< ");
    r.append(joined.as_str());
    r.append(" >");
    r
}

/// Captures a declaration's generics as the normalized signature recorded in
/// (and checked against) the registry.
pub fn render_signature(g: &GenericsDecl) -> (r: GenericSignature)
    ensures
        r.params@ == spec_render_params(g.params@),
        opt_text(r.where_clause) == opt_text(g.where_clause),
{
    GenericSignature {
        params: render_params(&g.params),
        where_clause: clone_opt_str(&g.where_clause),
    }
}

/// Collects the type parameters of a list, in order.
pub fn collect_type_params(params: &Vec<GenericParam>) -> (r: Vec<GenericParam>)
    ensures
        r@ == type_params(params@),
{
    let mut r: Vec<GenericParam> = Vec::new();
    let mut i: usize = 0;
    while i < params.len()
        invariant
            i <= params@.len(),
            r@ == type_params(params@.subrange(0, i as int)),
        decreases params@.len() - i,
    {
        match &params[i] {
            GenericParam::Type { ident, text } => {
                r.push(GenericParam::Type { ident: ident.clone(), text: text.clone() });
            },
            _ => {},
        }
        proof {
            let pre = params@.subrange(0, i as int);
            let post = params@.subrange(0, i + 1int);
            assert(post.drop_last() =~= pre);
            assert(post.last() == params@[i as int]);
        }
        i = i + 1;
    }
    assert(params@.subrange(0, params@.len() as int) =~= params@);
    r
}

/// Renders the companion's parameter list from the owning type's parameters.
pub fn type_param_list(params: &Vec<GenericParam>) -> (r: String)
    ensures
        r@ == spec_type_param_list(params@),
{
    let ty_params = collect_type_params(params);
    if ty_params.len() == 0 {
        return String::new();
    }
    let mut joined = String::new();
    let mut i: usize = 0;
    while i < ty_params.len()
        invariant
            i <= ty_params@.len(),
            ty_params@ == type_params(params@),
            joined@ == joined_idents(ty_params@.subrange(0, i as int)),
        decreases ty_params@.len() - i,
    {
        if i > 0 {
            joined.append(" , ");
        }
        append_param_ident(&mut joined, &ty_params[i]);
        proof {
            let pre = ty_params@.subrange(0, i as int);
            let post = ty_params@.subrange(0, i + 1int);
            assert(post.drop_last() =~= pre);
            assert(post.last() == ty_params@[i as int]);
        }
        i = i + 1;
    }
    assert(ty_params@.subrange(0, ty_params@.len() as int) =~= ty_params@);
    let mut r = String::new();
    r.append("< ");
    r.append(joined.as_str());
    r.append(" >");
    r
}

/// The deterministic name of the companion aggregate for one owning type.
pub fn companion_name(owner: &String) -> (r: String)
    ensures
        r@ == spec_companion_name(owner@),
{
    let mut r = String::new();
    r.append("__struct_cache_field__");
    r.append(owner.as_str());
    r.append("CacheFields");
    r
}

/// The type key of a path: its segments joined with ` :: `.
pub fn type_key(path: &TypePath) -> (r: String)
    ensures
        r@ == spec_join_path(path.segments@),
{
    let mut r = String::new();
    let mut i: usize = 0;
    while i < path.segments.len()
        invariant
            i <= path.segments@.len(),
            r@ == spec_join_path(path.segments@.subrange(0, i as int)),
        decreases path.segments@.len() - i,
    {
        if i > 0 {
            r.append(" :: ");
        }
        r.append(path.segments[i].as_str());
        proof {
            let pre = path.segments@.subrange(0, i as int);
            let post = path.segments@.subrange(0, i + 1int);
            assert(post.drop_last() =~= pre);
            assert(post.last() == path.segments@[i as int]);
        }
        i = i + 1;
    }
    assert(path.segments@.subrange(0, path.segments@.len() as int) =~= path.segments@);
    r
}

fn append_digit(out: &mut String, d: usize)
    requires
        d < 10,
    ensures
        final(out)@ == old(out)@ + seq![decimal_digit(d as nat)],
{
    proof {
        reveal_strlit("0");
        reveal_strlit("1");
        reveal_strlit("2");
        reveal_strlit("3");
        reveal_strlit("4");
        reveal_strlit("5");
        reveal_strlit("6");
        reveal_strlit("7");
        reveal_strlit("8");
        reveal_strlit("9");
    }
    if d == 0 {
        assert("0"@ =~= seq![decimal_digit(d as nat)]);
        out.append("0");
    } else if d == 1 {
        assert("1"@ =~= seq![decimal_digit(d as nat)]);
        out.append("1");
    } else if d == 2 {
        assert("2"@ =~= seq![decimal_digit(d as nat)]);
        out.append("2");
    } else if d == 3 {
        assert("3"@ =~= seq![decimal_digit(d as nat)]);
        out.append("3");
    } else if d == 4 {
        assert("4"@ =~= seq![decimal_digit(d as nat)]);
        out.append("4");
    } else if d == 5 {
        assert("5"@ =~= seq![decimal_digit(d as nat)]);
        out.append("5");
    } else if d == 6 {
        assert("6"@ =~= seq![decimal_digit(d as nat)]);
        out.append("6");
    } else if d == 7 {
        assert("7"@ =~= seq![decimal_digit(d as nat)]);
        out.append("7");
    } else if d == 8 {
        assert("8"@ =~= seq![decimal_digit(d as nat)]);
        out.append("8");
    } else {
        assert("9"@ =~= seq![decimal_digit(d as nat)]);
        out.append("9");
    }
}

/// Appends the decimal notation of a number.
pub fn push_decimal(n: usize, out: &mut String)
    ensures
        final(out)@ == old(out)@ + spec_decimal(n as nat),
    decreases n,
{
    if n >= 10 {
        push_decimal(n / 10, out);
    }
    append_digit(out, n % 10);
}

} // verus!
