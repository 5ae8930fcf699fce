//! The struct embedder: withdraws the slot specifications registered for a
//! named-field type definition, verifies that the generic signatures of the
//! two passes agree, synthesizes the companion aggregate holding one lazy
//! slot per specification (plus one zero-sized marker per type parameter, so
//! the companion's parameter list is referenced), and appends a field
//! holding the companion to the owning type.

use vstd::prelude::*;
use vstd::string::StringExecFns;
use crate::model::CacheError;
use crate::model::FieldDecl;
use crate::model::FieldsKind;
use crate::model::GenericParam;
use crate::model::SlotSpec;
use crate::model::StructDecl;
use crate::model::clone_generics;
use crate::model::clone_opt_str;
use crate::model::opt_text;
use crate::registry::CacheRegistry;
use crate::registry::RegistryEntry;
use crate::registry::decl_sig_matches;
use crate::registry::withdraw_cache_fields;
use crate::render::append_param_text;
use crate::render::companion_name;
use crate::render::collect_type_params;
use crate::render::param_text;
use crate::render::push_decimal;
use crate::render::spec_companion_name;
use crate::render::spec_decimal;
use crate::render::spec_type_param_list;
use crate::render::type_param_list;
use crate::render::type_params;

verus! {

/// The synthesized companion aggregate's declaration: default-derivable,
/// parameterized by the owning type's type parameters.
pub struct CompanionDecl {
    pub name: String,
    /// The rendered parameter list, e.g. `< T , S >` (empty when the owning
    /// type has no type parameter).
    pub params: String,
    pub where_clause: Option<String>,
    /// The slot fields, in the order the slots were registered, followed by
    /// one marker field per type parameter.
    pub fields: Vec<FieldDecl>,
}

/// What the embedder emits: the owning type with the companion field
/// appended, and the companion aggregate's declaration.
pub struct EmbedOutput {
    pub amended: StructDecl,
    pub companion: CompanionDecl,
}

/// The type of one slot field: a once-initialized cell of the cached value.
pub open spec fn once_cell_ty(t: Seq<char>) -> Seq<char> {
    ":: core :: cell :: OnceCell < "@ + t + " >"@
}

/// The type of one marker field: zero-sized, referencing one type parameter.
pub open spec fn phantom_ty(t: Seq<char>) -> Seq<char> {
    ":: core :: marker :: PhantomData < "@ + t + " >"@
}

/// The name of the marker field for the parameter at one position.
pub open spec fn phantom_name(j: nat) -> Seq<char> {
    "_phantom"@ + spec_decimal(j)
}

/// A private field holding one memoization slot.
pub open spec fn is_slot_field(f: FieldDecl, s: SlotSpec) -> bool {
    &&& f.vis@ == Seq::<char>::empty()
    &&& f.name@ == s.method_name@
    &&& f.ty@ == once_cell_ty(s.value_type@)
}

/// A private marker field for the type parameter at position `j`.
pub open spec fn is_phantom_field(f: FieldDecl, j: nat, p: GenericParam) -> bool {
    &&& f.vis@ == Seq::<char>::empty()
    &&& f.name@ == phantom_name(j)
    &&& f.ty@ == phantom_ty(param_text(p))
}

/// The companion's field list: the slot fields in registration order, then
/// the marker fields in parameter order.
pub open spec fn companion_fields_ok(
    fields: Seq<FieldDecl>,
    slots: Seq<SlotSpec>,
    tparams: Seq<GenericParam>,
) -> bool {
    &&& fields.len() == slots.len() + tparams.len()
    &&& forall|i: int| 0 <= i < slots.len() ==> is_slot_field(#[trigger] fields[i], slots[i])
    &&& forall|j: int|
        0 <= j < tparams.len() ==> is_phantom_field(
            #[trigger] fields[slots.len() + j],
            j as nat,
            tparams[j],
        )
}

/// The reference to the companion aggregate, parameterized identically to
/// the owning type's type parameters.
pub open spec fn embed_field_ty(owner: Seq<char>, params: Seq<GenericParam>) -> Seq<char> {
    if spec_type_param_list(params).len() == 0 {
        spec_companion_name(owner)
    } else {
        spec_companion_name(owner) + " "@ + spec_type_param_list(params)
    }
}

/// The field spliced into the owning type to hold the companion aggregate.
pub open spec fn embed_field_ok(f: FieldDecl, owner: Seq<char>, params: Seq<GenericParam>) -> bool {
    &&& f.vis@ == Seq::<char>::empty()
    &&& f.name@ == "__cache_fields__"@
    &&& f.ty@ == embed_field_ty(owner, params)
}

/// The amended type: the original named fields unchanged, with the companion
/// field appended.
pub open spec fn amended_fields_ok(orig: StructDecl, amended: StructDecl) -> bool {
    match (orig.fields, amended.fields) {
        (FieldsKind::Named(fs), FieldsKind::Named(gs)) => {
            &&& gs@.len() == fs@.len() + 1
            &&& (forall|i: int| 0 <= i < fs@.len() ==> #[trigger] gs@[i] == fs@[i])
            &&& embed_field_ok(gs@[fs@.len() as int], orig.name@, orig.generics.params@)
        },
        _ => false,
    }
}

/// The whole contract of the struct embedder, relating the type definition,
/// the registry before and after, and the result.
pub open spec fn embed_result_ok(
    args: String,
    decl: StructDecl,
    pre: Map<Seq<char>, RegistryEntry>,
    post: Map<Seq<char>, RegistryEntry>,
    r: Result<EmbedOutput, CacheError>,
) -> bool {
    let key = decl.name@;
    if args@.len() > 0 {
        r == Err::<EmbedOutput, CacheError>(CacheError::UnexpectedArguments) && post == pre
    } else if !(decl.fields is Named) {
        r == Err::<EmbedOutput, CacheError>(CacheError::UnnamedFields) && post == pre
    } else if !pre.contains_key(key) {
        r == Err::<EmbedOutput, CacheError>(CacheError::EntryMissing) && post == pre
    } else if !decl_sig_matches(pre[key].generics, decl.generics) {
        &&& post == pre.remove(key)
        &&& match r {
            Err(CacheError::GenericsMismatch { registered, presented }) => registered
                == pre[key].generics && decl_sig_matches(presented, decl.generics),
            _ => false,
        }
    } else {
        &&& post == pre.remove(key)
        &&& match r {
            Ok(out) => {
                &&& out.companion.name@ == spec_companion_name(decl.name@)
                &&& out.companion.params@ == spec_type_param_list(decl.generics.params@)
                &&& opt_text(out.companion.where_clause) == opt_text(decl.generics.where_clause)
                &&& companion_fields_ok(
                    out.companion.fields@,
                    pre[key].slots@,
                    type_params(decl.generics.params@),
                )
                &&& out.amended.vis@ == decl.vis@
                &&& out.amended.name@ == decl.name@
                &&& out.amended.generics.params@ == decl.generics.params@
                &&& opt_text(out.amended.generics.where_clause) == opt_text(
                    decl.generics.where_clause,
                )
                &&& amended_fields_ok(decl, out.amended)
            },
            Err(_) => false,
        }
    }
}

/// Builds the companion's field list from the withdrawn slot specifications
/// and the owning type's type parameters.
fn build_companion_fields(slots: &Vec<SlotSpec>, tparams: &Vec<GenericParam>) -> (r: Vec<FieldDecl>)
    ensures
        companion_fields_ok(r@, slots@, tparams@),
{
    let mut fields: Vec<FieldDecl> = Vec::new();
    let mut i: usize = 0;
    while i < slots.len()
        invariant
            i <= slots@.len(),
            fields@.len() == i,
            forall|k: int| 0 <= k < i ==> is_slot_field(#[trigger] fields@[k], slots@[k]),
        decreases slots@.len() - i,
    {
        let mut ty = String::new();
        ty.append(":: core :: cell :: OnceCell < ");
        ty.append(slots[i].value_type.as_str());
        ty.append(" >");
        fields.push(FieldDecl { vis: String::new(), name: slots[i].method_name.clone(), ty });
        i = i + 1;
    }
    let mut j: usize = 0;
    while j < tparams.len()
        invariant
            j <= tparams@.len(),
            fields@.len() == slots@.len() + j,
            forall|k: int| 0 <= k < slots@.len() ==> is_slot_field(#[trigger] fields@[k], slots@[k]),
            forall|k: int|
                0 <= k < j ==> is_phantom_field(
                    #[trigger] fields@[slots@.len() + k],
                    k as nat,
                    tparams@[k],
                ),
        decreases tparams@.len() - j,
    {
        let mut name = String::new();
        name.append("_phantom");
        push_decimal(j, &mut name);
        let mut ty = String::new();
        ty.append(":: core :: marker :: PhantomData < ");
        append_param_text(&mut ty, &tparams[j]);
        ty.append(" >");
        fields.push(FieldDecl { vis: String::new(), name, ty });
        j = j + 1;
    }
    fields
}

/// A copy of a named field list.
fn clone_fields(v: &Vec<FieldDecl>) -> (r: Vec<FieldDecl>)
    ensures
        r@ == v@,
{
    let mut r: Vec<FieldDecl> = Vec::new();
    let mut i: usize = 0;
    while i < v.len()
        invariant
            i <= v@.len(),
            r@ == v@.subrange(0, i as int),
        decreases v@.len() - i,
    {
        r.push(
            FieldDecl { vis: v[i].vis.clone(), name: v[i].name.clone(), ty: v[i].ty.clone() },
        );
        proof {
            assert(v@.subrange(0, i + 1int) =~= v@.subrange(0, i as int).push(v@[i as int]));
        }
        i = i + 1;
    }
    assert(v@.subrange(0, v@.len() as int) =~= v@);
    r
}

/// Embeds memoization support into one named-field type definition: rejects
/// a non-empty annotation argument list and tuple-style fields, withdraws
/// the matching registry entry (propagating `EntryMissing` and
/// `GenericsMismatch` verbatim), synthesizes the companion aggregate, and
/// appends the companion field to the owning type.
pub fn add_cache_field(args: &String, decl: &StructDecl, registry: &mut CacheRegistry) -> (r:
    Result<EmbedOutput, CacheError>)
    requires
        old(registry).wf(),
    ensures
        final(registry).wf(),
        embed_result_ok(*args, *decl, old(registry)@, final(registry)@, r),
{
    if !args.as_str().is_empty() {
        return Err(CacheError::UnexpectedArguments);
    }
    let fields = match &decl.fields {
        FieldsKind::Named(fs) => fs,
        FieldsKind::Unnamed => {
            return Err(CacheError::UnnamedFields);
        },
    };
    let slots = match withdraw_cache_fields(registry, &decl.name, &decl.generics) {
        Err(e) => {
            return Err(e);
        },
        Ok(s) => s,
    };
    let tparams = collect_type_params(&decl.generics.params);
    let companion_fields = build_companion_fields(&slots, &tparams);
    let cname = companion_name(&decl.name);
    let plist = type_param_list(&decl.generics.params);
    let mut embed_ty = String::new();
    embed_ty.append(cname.as_str());
    if !plist.as_str().is_empty() {
        embed_ty.append(" ");
        embed_ty.append(plist.as_str());
    }
    let mut new_fields = clone_fields(fields);
    new_fields.push(
        FieldDecl { vis: String::new(), name: "__cache_fields__".to_owned(), ty: embed_ty },
    );
    let amended = StructDecl {
        vis: decl.vis.clone(),
        name: decl.name.clone(),
        generics: clone_generics(&decl.generics),
        fields: FieldsKind::Named(new_fields),
    };
    let companion = CompanionDecl {
        name: cname,
        params: plist,
        where_clause: clone_opt_str(&decl.generics.where_clause),
        fields: companion_fields,
    };
    Ok(EmbedOutput { amended, companion })
}

} // verus!
