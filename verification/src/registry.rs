//! The cache registry: the shared keyed store through which the method
//! transformer hands slot specifications to the struct embedder. An entry is
//! inserted at most once per type key and withdrawn at most once; a
//! withdrawal must present the generic signature recorded at insertion.
//!
//! The store is a sequence of entries with pairwise distinct keys, abstracted
//! as a `Map` from key text to entry. Serializing concurrent callers behind a
//! lock is the host pipeline's job; each operation here is one atomic
//! read-modify-write of the table.

use vstd::prelude::*;
use crate::model::CacheError;
use crate::model::GenericSignature;
use crate::model::GenericsDecl;
use crate::model::SlotSpec;
use crate::model::TypePath;
use crate::model::sig_matches;
use crate::model::sig_eq;
use crate::model::opt_text;
use crate::render::render_signature;
use crate::render::spec_render_params;
use crate::render::spec_join_path;
use crate::render::type_key;

verus! {

/// What the registry holds for one type key.
pub struct RegistryEntry {
    pub key: String,
    pub generics: GenericSignature,
    pub slots: Vec<SlotSpec>,
}

/// No two entries share a key.
pub open spec fn unique_keys(s: Seq<RegistryEntry>) -> bool {
    forall|i: int, j: int|
        0 <= i < j < s.len() ==> #[trigger] s[i].key@ != #[trigger] s[j].key@
}

/// The entries as a map from key text to entry.
pub open spec fn map_of(s: Seq<RegistryEntry>) -> Map<Seq<char>, RegistryEntry>
    decreases s.len(),
{
    if s.len() == 0 {
        Map::empty()
    } else {
        map_of(s.drop_last()).insert(s.last().key@, s.last())
    }
}

pub proof fn lemma_map_of_contains(s: Seq<RegistryEntry>, k: Seq<char>)
    ensures
        map_of(s).contains_key(k) <==> exists|i: int| 0 <= i < s.len() && #[trigger] s[i].key@ == k,
    decreases s.len(),
{
    if s.len() > 0 {
        lemma_map_of_contains(s.drop_last(), k);
        if map_of(s).contains_key(k) {
            if s.last().key@ == k {
                assert(s[s.len() - 1].key@ == k);
            } else {
                let i = choose|i: int| 0 <= i < s.drop_last().len() && #[trigger] s.drop_last()[i].key@ == k;
                assert(s[i].key@ == k);
            }
        }
        if exists|i: int| 0 <= i < s.len() && #[trigger] s[i].key@ == k {
            let i = choose|i: int| 0 <= i < s.len() && #[trigger] s[i].key@ == k;
            if i < s.len() - 1 {
                assert(s.drop_last()[i].key@ == k);
            }
        }
    }
}

pub proof fn lemma_map_of_index(s: Seq<RegistryEntry>, i: int)
    requires
        unique_keys(s),
        0 <= i < s.len(),
    ensures
        map_of(s).contains_key(s[i].key@),
        map_of(s)[s[i].key@] == s[i],
    decreases s.len(),
{
    if i == s.len() - 1 {
        assert(map_of(s)[s.last().key@] == s.last());
    } else {
        assert(unique_keys(s.drop_last())) by {
            assert(forall|x: int, y: int|
                0 <= x < y < s.drop_last().len() ==> s.drop_last()[x] == s[x] && s.drop_last()[y] == s[y]);
        }
        lemma_map_of_index(s.drop_last(), i);
        assert(s.drop_last()[i] == s[i]);
        assert(s[i].key@ != s.last().key@);
    }
}

pub proof fn lemma_map_of_remove(s: Seq<RegistryEntry>, i: int)
    requires
        unique_keys(s),
        0 <= i < s.len(),
    ensures
        unique_keys(s.remove(i)),
        map_of(s.remove(i)) == map_of(s).remove(s[i].key@),
    decreases s.len(),
{
    assert(unique_keys(s.remove(i))) by {
        assert(forall|x: int|
            0 <= x < s.remove(i).len() ==> #[trigger] s.remove(i)[x] == (if x < i { s[x] } else { s[x + 1] }));
    }
    let k = s[i].key@;
    if i == s.len() - 1 {
        assert(s.remove(i) =~= s.drop_last());
        lemma_map_of_contains(s.drop_last(), k);
        assert(forall|x: int| 0 <= x < s.drop_last().len() ==> #[trigger] s.drop_last()[x] == s[x]);
        assert(!map_of(s.drop_last()).contains_key(k));
        assert(map_of(s.remove(i)) =~= map_of(s).remove(k));
    } else {
        assert(unique_keys(s.drop_last())) by {
            assert(forall|x: int, y: int|
                0 <= x < y < s.drop_last().len() ==> s.drop_last()[x] == s[x] && s.drop_last()[y] == s[y]);
        }
        assert(s.drop_last()[i] == s[i]);
        lemma_map_of_remove(s.drop_last(), i);
        assert(s.remove(i).drop_last() =~= s.drop_last().remove(i));
        assert(s.remove(i).last() == s.last());
        assert(s.remove(i).len() == s.len() - 1 > 0);
        assert(map_of(s.remove(i)) == map_of(s.drop_last().remove(i)).insert(s.last().key@, s.last()));
        assert(s.last().key@ != k);
        assert(map_of(s.remove(i)) =~= map_of(s).remove(k));
    }
}

/// What `insert` does to the table: a duplicate key fails and leaves the
/// table untouched; otherwise the entry goes in under its key.
pub open spec fn spec_insert(m: Map<Seq<char>, RegistryEntry>, entry: RegistryEntry) -> (
    Map<Seq<char>, RegistryEntry>,
    Result<(), CacheError>,
) {
    if m.contains_key(entry.key@) {
        (m, Err(CacheError::DuplicateRegistration))
    } else {
        (m.insert(entry.key@, entry), Ok(()))
    }
}

/// What `withdraw` does to the table: a missing key fails and leaves the
/// table untouched; a present key is consumed either way, returning the
/// recorded slots when the presented signature matches the recorded one and
/// both conflicting signatures when it does not.
pub open spec fn spec_withdraw(
    m: Map<Seq<char>, RegistryEntry>,
    key: Seq<char>,
    presented: GenericSignature,
) -> (Map<Seq<char>, RegistryEntry>, Result<Seq<SlotSpec>, CacheError>) {
    if !m.contains_key(key) {
        (m, Err(CacheError::EntryMissing))
    } else if sig_matches(m[key].generics, presented) {
        (m.remove(key), Ok(m[key].slots@))
    } else {
        (
            m.remove(key),
            Err(CacheError::GenericsMismatch { registered: m[key].generics, presented }),
        )
    }
}

/// The executable withdrawal result agrees with the abstract one.
pub open spec fn withdraw_result_matches(
    r: Result<Vec<SlotSpec>, CacheError>,
    s: Result<Seq<SlotSpec>, CacheError>,
) -> bool {
    match (r, s) {
        (Ok(v), Ok(sq)) => v@ == sq,
        (Err(a), Err(b)) => a == b,
        _ => false,
    }
}

/// The table correlating method-block registrations with type-definition
/// withdrawals, keyed by type identity.
pub struct CacheRegistry {
    entries: Vec<RegistryEntry>,
}

impl View for CacheRegistry {
    type V = Map<Seq<char>, RegistryEntry>;

    closed spec fn view(&self) -> Map<Seq<char>, RegistryEntry> {
        map_of(self.entries@)
    }
}

impl CacheRegistry {
    /// The registry's keys are pairwise distinct.
    pub closed spec fn wf(self) -> bool {
        unique_keys(self.entries@)
    }

    /// An empty registry.
    pub fn new() -> (r: CacheRegistry)
        ensures
            r.wf(),
            r@ == Map::<Seq<char>, RegistryEntry>::empty(),
    {
        CacheRegistry { entries: Vec::new() }
    }

    fn find_index(&self, key: &String) -> (r: Option<usize>)
        ensures
            match r {
                Some(i) => i < self.entries@.len() && self.entries@[i as int].key@ == key@,
                None => forall|i: int|
                    0 <= i < self.entries@.len() ==> #[trigger] self.entries@[i].key@ != key@,
            },
    {
        let mut i: usize = 0;
        while i < self.entries.len()
            invariant
                i <= self.entries@.len(),
                forall|j: int| 0 <= j < i ==> #[trigger] self.entries@[j].key@ != key@,
            decreases self.entries@.len() - i,
        {
            if self.entries[i].key == *key {
                return Some(i);
            }
            i = i + 1;
        }
        None
    }

    /// Atomic check-then-insert: records `{generics, slots}` under `key`
    /// unless an entry for `key` already exists, in which case it fails with
    /// `DuplicateRegistration` and mutates nothing.
    pub fn insert(&mut self, key: String, generics: GenericSignature, slots: Vec<SlotSpec>) -> (r:
        Result<(), CacheError>)
        requires
            old(self).wf(),
        ensures
            final(self).wf(),
            final(self)@ == spec_insert(
                old(self)@,
                RegistryEntry { key, generics, slots },
            ).0,
            r == spec_insert(old(self)@, RegistryEntry { key, generics, slots }).1,
    {
        let found = self.find_index(&key);
        proof {
            lemma_map_of_contains(self.entries@, key@);
        }
        match found {
            Some(_) => Err(CacheError::DuplicateRegistration),
            None => {
                let ghost pre = self.entries@;
                let entry = RegistryEntry { key, generics, slots };
                self.entries.push(entry);
                proof {
                    assert(self.entries@.drop_last() =~= pre);
                    assert(forall|x: int|
                        0 <= x < self.entries@.len() - 1 ==> #[trigger] self.entries@[x] == pre[x]);
                }
                Ok(())
            },
        }
    }

    /// Atomic remove-and-check: consumes the entry under `key` if one exists.
    /// Fails with `EntryMissing` (mutating nothing) when none does, and with
    /// `GenericsMismatch`, carrying both signatures, when the presented
    /// signature differs textually from the recorded one.
    pub fn withdraw(&mut self, key: &String, presented: GenericSignature) -> (r: Result<
        Vec<SlotSpec>,
        CacheError,
    >)
        requires
            old(self).wf(),
        ensures
            final(self).wf(),
            final(self)@ == spec_withdraw(old(self)@, key@, presented).0,
            withdraw_result_matches(r, spec_withdraw(old(self)@, key@, presented).1),
    {
        let found = self.find_index(key);
        proof {
            lemma_map_of_contains(self.entries@, key@);
        }
        match found {
            None => Err(CacheError::EntryMissing),
            Some(i) => {
                proof {
                    lemma_map_of_index(self.entries@, i as int);
                    lemma_map_of_remove(self.entries@, i as int);
                }
                let entry = self.entries.remove(i);
                if sig_eq(&entry.generics, &presented) {
                    Ok(entry.slots)
                } else {
                    Err(CacheError::GenericsMismatch { registered: entry.generics, presented })
                }
            },
        }
    }
}

/// The recorded signature is the rendering of a declaration's generics.
pub open spec fn decl_sig_matches(stored: GenericSignature, g: GenericsDecl) -> bool {
    stored.params@ == spec_render_params(g.params@) && opt_text(stored.where_clause) == opt_text(
        g.where_clause,
    )
}

/// Registers the slot specifications produced for one method block under the
/// owning type's key, recording the rendered generic signature beside them.
pub fn register_cache_fields(
    registry: &mut CacheRegistry,
    self_ty: &TypePath,
    generics: &GenericsDecl,
    slots: Vec<SlotSpec>,
) -> (r: Result<(), CacheError>)
    requires
        old(registry).wf(),
    ensures
        final(registry).wf(),
        old(registry)@.contains_key(spec_join_path(self_ty.segments@)) ==> r == Err::<
            (),
            CacheError,
        >(CacheError::DuplicateRegistration) && final(registry)@ == old(registry)@,
        !old(registry)@.contains_key(spec_join_path(self_ty.segments@)) ==> {
            let k = spec_join_path(self_ty.segments@);
            &&& r is Ok
            &&& final(registry)@.contains_key(k)
            &&& final(registry)@[k].key@ == k
            &&& decl_sig_matches(final(registry)@[k].generics, *generics)
            &&& final(registry)@[k].slots == slots
            &&& final(registry)@.remove(k) == old(registry)@
        },
{
    let key = type_key(self_ty);
    let sig = render_signature(generics);
    let ghost pre = registry@;
    let r = registry.insert(key, sig, slots);
    proof {
        let k = spec_join_path(self_ty.segments@);
        if !pre.contains_key(k) {
            assert(final(registry)@.remove(k) =~= pre);
        }
    }
    r
}

/// Withdraws the slot specifications recorded for one type name, verifying
/// that the signature rendered from the type definition's generics equals the
/// recorded one.
pub fn withdraw_cache_fields(
    registry: &mut CacheRegistry,
    name: &String,
    generics: &GenericsDecl,
) -> (r: Result<Vec<SlotSpec>, CacheError>)
    requires
        old(registry).wf(),
    ensures
        final(registry).wf(),
        !old(registry)@.contains_key(name@) ==> r == Err::<Vec<SlotSpec>, CacheError>(
            CacheError::EntryMissing,
        ) && final(registry)@ == old(registry)@,
        old(registry)@.contains_key(name@) ==> {
            let stored = old(registry)@[name@];
            &&& final(registry)@ == old(registry)@.remove(name@)
            &&& (decl_sig_matches(stored.generics, *generics) ==> r is Ok && (r matches Ok(v)
                ==> v@ == stored.slots@))
            &&& (!decl_sig_matches(stored.generics, *generics) ==> r is Err && (r matches Err(e)
                ==> e matches CacheError::GenericsMismatch { registered, presented }
                && registered == stored.generics && decl_sig_matches(presented, *generics)))
        },
{
    let sig = render_signature(generics);
    registry.withdraw(name, sig)
}

/// Inserting an entry and then withdrawing the same key with a matching
/// signature succeeds and returns exactly the inserted slots, in order.
pub proof fn lemma_insert_then_withdraw(
    m: Map<Seq<char>, RegistryEntry>,
    entry: RegistryEntry,
    presented: GenericSignature,
)
    requires
        spec_insert(m, entry).1 is Ok,
        sig_matches(entry.generics, presented),
    ensures
        spec_withdraw(spec_insert(m, entry).0, entry.key@, presented).1 == Ok::<
            Seq<SlotSpec>,
            CacheError,
        >(entry.slots@),
{
}

/// After a withdrawal that found the key — successful or failing on the
/// signature — a second withdrawal for the same key fails with
/// `EntryMissing`: the first one consumed the entry.
pub proof fn lemma_second_withdraw_fails(
    m: Map<Seq<char>, RegistryEntry>,
    key: Seq<char>,
    first: GenericSignature,
    second: GenericSignature,
)
    requires
        m.contains_key(key),
    ensures
        spec_withdraw(spec_withdraw(m, key, first).0, key, second).1 == Err::<
            Seq<SlotSpec>,
            CacheError,
        >(CacheError::EntryMissing),
{
}

/// A withdrawal whose signature differs from the recorded one — for example
/// only in the where-clause text — fails with `GenericsMismatch`, and the
/// error carries both conflicting signatures.
pub proof fn lemma_where_clause_mismatch(
    m: Map<Seq<char>, RegistryEntry>,
    key: Seq<char>,
    presented: GenericSignature,
)
    requires
        m.contains_key(key),
        m[key].generics.params@ == presented.params@,
        opt_text(m[key].generics.where_clause) != opt_text(presented.where_clause),
    ensures
        spec_withdraw(m, key, presented).1 == Err::<Seq<SlotSpec>, CacheError>(
            CacheError::GenericsMismatch { registered: m[key].generics, presented },
        ),
{
}

/// A withdrawal for a key that was never registered — or whose registration
/// was rolled back — fails with `EntryMissing` and leaves the table as it is.
pub proof fn lemma_withdraw_missing(
    m: Map<Seq<char>, RegistryEntry>,
    key: Seq<char>,
    presented: GenericSignature,
)
    requires
        !m.contains_key(key),
    ensures
        spec_withdraw(m, key, presented) == (m, Err::<Seq<SlotSpec>, CacheError>(
            CacheError::EntryMissing,
        )),
{
}

} // verus!
