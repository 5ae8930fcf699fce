//! The method transformer: rewrites each method of an inherent method block
//! into compute-once form — look the method's slot up in the owning object's
//! companion aggregate, fill it from the original body on first use, and hand
//! back a reference to the stored value — and registers one slot
//! specification per method under the owning type's key.

use vstd::prelude::*;
use vstd::string::StringExecFns;
use crate::model::CacheError;
use crate::model::ImplBlock;
use crate::model::ImplItem;
use crate::model::MethodDecl;
use crate::model::SlotSpec;
use crate::model::TypePath;
use crate::model::clone_generics;
use crate::model::clone_string_vec;
use crate::model::opt_text;
use crate::registry::CacheRegistry;
use crate::registry::RegistryEntry;
use crate::registry::decl_sig_matches;
use crate::registry::register_cache_fields;
use crate::render::spec_join_path;

verus! {

/// The declared return type's text (empty when there is none).
pub open spec fn ret_ty(m: MethodDecl) -> Seq<char> {
    match m.return_type {
        Some(t) => t@,
        None => Seq::empty(),
    }
}

/// The rewritten return type: a reference to the original one, so the cached
/// value is handed out without copying.
pub open spec fn rewritten_return(t: Seq<char>) -> Seq<char> {
    "& "@ + t
}

/// The rewritten body: get the method's slot from the companion aggregate,
/// or initialize it from the original body on first use.
pub open spec fn rewritten_block(name: Seq<char>, body: Seq<char>) -> Seq<char> {
    "{ self.__cache_fields__."@ + name + ".get_or_init(|| "@ + body + ") }"@
}

/// The slot specification produced for one method: its name, and the
/// declared return type as the cached value's type.
pub open spec fn is_slot_of(s: SlotSpec, m: MethodDecl) -> bool {
    &&& m.return_type is Some
    &&& s.method_name@ == m.name@
    &&& s.value_type@ == ret_ty(m)
}

/// The memoized form of one method: same visibility, name and parameters;
/// the return type and body rewritten.
pub open spec fn is_rewritten_method(orig: MethodDecl, new: MethodDecl) -> bool {
    &&& orig.return_type is Some
    &&& new.vis@ == orig.vis@
    &&& new.name@ == orig.name@
    &&& new.params@ == orig.params@
    &&& new.return_type is Some
    &&& ret_ty(new) == rewritten_return(ret_ty(orig))
    &&& new.body@ == rewritten_block(orig.name@, orig.body@)
}

/// A method is rewritten; any other item passes through unchanged.
pub open spec fn is_rewritten_item(orig: ImplItem, new: ImplItem) -> bool {
    match (orig, new) {
        (ImplItem::Method(m), ImplItem::Method(n)) => is_rewritten_method(m, n),
        (ImplItem::Other { text: a }, ImplItem::Other { text: b }) => a@ == b@,
        _ => false,
    }
}

/// Every item is rewritten (or passed through) in place.
pub open spec fn items_rewritten(orig: Seq<ImplItem>, new: Seq<ImplItem>) -> bool {
    &&& new.len() == orig.len()
    &&& forall|i: int| 0 <= i < orig.len() ==> is_rewritten_item(orig[i], #[trigger] new[i])
}

/// The slots are exactly the slot specifications of the methods, in
/// declaration order; non-method items contribute none.
pub open spec fn slots_match(items: Seq<ImplItem>, slots: Seq<SlotSpec>) -> bool
    decreases items.len(),
{
    if items.len() == 0 {
        slots.len() == 0
    } else {
        match items.last() {
            ImplItem::Method(m) => slots.len() > 0 && is_slot_of(slots.last(), m) && slots_match(
                items.drop_last(),
                slots.drop_last(),
            ),
            ImplItem::Other { .. } => slots_match(items.drop_last(), slots),
        }
    }
}

/// An item that does not block the rewrite: a method with an explicit return
/// type, or a non-method item.
pub open spec fn typed_item(item: ImplItem) -> bool {
    match item {
        ImplItem::Method(m) => m.return_type is Some,
        ImplItem::Other { .. } => true,
    }
}

/// Every method of the block declares a return type.
pub open spec fn all_methods_typed(items: Seq<ImplItem>) -> bool {
    forall|i: int| 0 <= i < items.len() ==> typed_item(#[trigger] items[i])
}

/// The item is a method named `name` that lacks a return type.
pub open spec fn untyped_method_named(item: ImplItem, name: Seq<char>) -> bool {
    match item {
        ImplItem::Method(m) => m.return_type is None && m.name@ == name,
        ImplItem::Other { .. } => false,
    }
}

/// `name` names the first method of the block that lacks a return type.
pub open spec fn is_first_untyped(items: Seq<ImplItem>, name: Seq<char>) -> bool {
    exists|i: int|
        0 <= i < items.len() && untyped_method_named(#[trigger] items[i], name) && (forall|j: int|
            0 <= j < i ==> typed_item(#[trigger] items[j]))
}

/// What rewriting one item returns: the rewritten item and its slot for a
/// typed method, the item unchanged and no slot for a non-method item, and
/// `MissingReturnType` naming the method when it declares no return type.
pub open spec fn rewrite_result_ok(item: ImplItem, r: Result<
    (ImplItem, Option<SlotSpec>),
    CacheError,
>) -> bool {
    match item {
        ImplItem::Other { .. } => match r {
            Ok((n, s)) => is_rewritten_item(item, n) && s is None,
            Err(_) => false,
        },
        ImplItem::Method(m) => {
            if m.return_type is Some {
                match r {
                    Ok((n, s)) => is_rewritten_item(item, n) && match s {
                        Some(sl) => is_slot_of(sl, m),
                        None => false,
                    },
                    Err(_) => false,
                }
            } else {
                match r {
                    Err(CacheError::MissingReturnType { method }) => method@ == m.name@,
                    _ => false,
                }
            }
        },
    }
}

/// Rewrites one item of a method block into memoized form, producing the
/// slot specification for its cache slot; non-method items pass through.
pub fn rewrite_cached_method(item: &ImplItem) -> (r: Result<
    (ImplItem, Option<SlotSpec>),
    CacheError,
>)
    ensures
        rewrite_result_ok(*item, r),
{
    match item {
        ImplItem::Other { text } => Ok((ImplItem::Other { text: text.clone() }, None)),
        ImplItem::Method(m) => {
            match &m.return_type {
                None => Err(CacheError::MissingReturnType { method: m.name.clone() }),
                Some(t) => {
                    let mut new_body = String::new();
                    new_body.append("{ self.__cache_fields__.");
                    new_body.append(m.name.as_str());
                    new_body.append(".get_or_init(|| ");
                    new_body.append(m.body.as_str());
                    new_body.append(") }");
                    let mut new_ret = String::new();
                    new_ret.append("& ");
                    new_ret.append(t.as_str());
                    let new_m = MethodDecl {
                        vis: m.vis.clone(),
                        name: m.name.clone(),
                        params: m.params.clone(),
                        return_type: Some(new_ret),
                        body: new_body,
                    };
                    let slot = SlotSpec { method_name: m.name.clone(), value_type: t.clone() };
                    Ok((ImplItem::Method(new_m), Some(slot)))
                },
            }
        },
    }
}

/// The whole-block contract of the method transformer, relating the block,
/// the registry before and after, and the result.
pub open spec fn transform_result_ok(
    args: String,
    block: ImplBlock,
    pre: Map<Seq<char>, RegistryEntry>,
    post: Map<Seq<char>, RegistryEntry>,
    r: Result<ImplBlock, CacheError>,
) -> bool {
    let key = spec_join_path(block.self_ty.segments@);
    if args@.len() > 0 {
        r == Err::<ImplBlock, CacheError>(CacheError::UnexpectedArguments) && post == pre
    } else if block.trait_name is Some {
        r == Err::<ImplBlock, CacheError>(CacheError::UnsupportedImplKind) && post == pre
    } else if !all_methods_typed(block.items@) {
        &&& post == pre
        &&& match r {
            Err(CacheError::MissingReturnType { method }) => is_first_untyped(
                block.items@,
                method@,
            ),
            _ => false,
        }
    } else if pre.contains_key(key) {
        r == Err::<ImplBlock, CacheError>(CacheError::DuplicateRegistration) && post == pre
    } else {
        &&& post.contains_key(key)
        &&& post[key].key@ == key
        &&& decl_sig_matches(post[key].generics, block.generics)
        &&& slots_match(block.items@, post[key].slots@)
        &&& post.remove(key) == pre
        &&& match r {
            Ok(out) => {
                &&& out.self_ty.segments@ == block.self_ty.segments@
                &&& out.trait_name is None
                &&& out.generics.params@ == block.generics.params@
                &&& opt_text(out.generics.where_clause) == opt_text(block.generics.where_clause)
                &&& items_rewritten(block.items@, out.items@)
            },
            Err(_) => false,
        }
    }
}

/// Transforms one inherent method block: rejects a non-empty annotation
/// argument list and trait impls, rewrites every method into memoized form,
/// and registers the block's slot specifications under the owning type's
/// key. On any failure the registry is left untouched, so the caller can
/// re-emit the original declaration beside the diagnostic.
pub fn impl_cached_method(args: &String, block: &ImplBlock, registry: &mut CacheRegistry) -> (r:
    Result<ImplBlock, CacheError>)
    requires
        old(registry).wf(),
    ensures
        final(registry).wf(),
        transform_result_ok(*args, *block, old(registry)@, final(registry)@, r),
{
    if !args.as_str().is_empty() {
        return Err(CacheError::UnexpectedArguments);
    }
    match &block.trait_name {
        Some(_) => {
            return Err(CacheError::UnsupportedImplKind);
        },
        None => {},
    }
    let mut new_items: Vec<ImplItem> = Vec::new();
    let mut slots: Vec<SlotSpec> = Vec::new();
    let mut i: usize = 0;
    while i < block.items.len()
        invariant
            i <= block.items@.len(),
            *registry == *old(registry),
            old(registry).wf(),
            args@.len() == 0,
            block.trait_name is None,
            items_rewritten(block.items@.subrange(0, i as int), new_items@),
            slots_match(block.items@.subrange(0, i as int), slots@),
            forall|j: int| 0 <= j < i ==> typed_item(#[trigger] block.items@[j]),
        decreases block.items@.len() - i,
    {
        match rewrite_cached_method(&block.items[i]) {
            Err(e) => {
                proof {
                    let name = match &e {
                        CacheError::MissingReturnType { method } => method@,
                        _ => Seq::empty(),
                    };
                    assert(untyped_method_named(block.items@[i as int], name));
                    assert(is_first_untyped(block.items@, name)) by {
                        assert(untyped_method_named(block.items@[i as int], name) && (forall|
                            j: int,
                        |
                            0 <= j < i ==> typed_item(#[trigger] block.items@[j])));
                    }
                }
                return Err(e);
            },
            Ok((n, s)) => {
                let ghost pre_slots = slots@;
                new_items.push(n);
                match s {
                    Some(sl) => slots.push(sl),
                    None => {},
                }
                proof {
                    let pre_items = block.items@.subrange(0, i as int);
                    let post_items = block.items@.subrange(0, i + 1int);
                    assert(post_items.drop_last() =~= pre_items);
                    assert(post_items.last() == block.items@[i as int]);
                    match block.items@[i as int] {
                        ImplItem::Method(m) => {
                            assert(slots@.drop_last() =~= pre_slots);
                            assert(slots_match(post_items, slots@));
                        },
                        ImplItem::Other { .. } => {
                            assert(slots@ == pre_slots);
                            assert(slots_match(post_items, slots@));
                        },
                    }
                }
            },
        }
        i = i + 1;
    }
    proof {
        assert(block.items@.subrange(0, block.items@.len() as int) =~= block.items@);
    }
    match register_cache_fields(registry, &block.self_ty, &block.generics, slots) {
        Err(e) => Err(e),
        Ok(_) => Ok(
            ImplBlock {
                self_ty: TypePath { segments: clone_string_vec(&block.self_ty.segments) },
                trait_name: None,
                generics: clone_generics(&block.generics),
                items: new_items,
            },
        ),
    }
}

} // verus!
