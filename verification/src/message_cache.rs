use vstd::prelude::*;
use ritelinked::LinkedHashMap;

verus! {

#[verifier::external_type_specification]
#[verifier::external_body]
#[verifier::reject_recursive_types(K)]
#[verifier::reject_recursive_types(V)]
#[verifier::reject_recursive_types(S)]
pub struct ExLinkedHashMap<K, V, S>(LinkedHashMap<K, V, S>);

#[verifier::external_type_specification]
#[verifier::external_body]
pub struct ExDefaultHashBuilder(ritelinked::DefaultHashBuilder);

/// The entries of a linked hash map of serialized messages, in the order of
/// its internal list (insertion order), each key with the bytes it maps to.
pub uninterp spec fn cached_entries(m: LinkedHashMap<u128, Vec<u8>>) -> Seq<(u128, Seq<u8>)>;

/// `LinkedHashMap::new`: the source builds a map with no entries.
#[verifier::external_body]
pub(crate) fn cache_new() -> (m: LinkedHashMap<u128, Vec<u8>>)
    ensures
        cached_entries(m) == Seq::<(u128, Seq<u8>)>::empty(),
{
    LinkedHashMap::new()
}

/// `LinkedHashMap::len`: the source returns the number of entries.
#[verifier::external_body]
pub(crate) fn cache_len(m: &LinkedHashMap<u128, Vec<u8>>) -> (n: usize)
    ensures
        n == cached_entries(*m).len(),
{
    m.len()
}

/// `LinkedHashMap::insert`: the source appends the pair at the back of the
/// list and returns `None` when the key is absent; when the key is present
/// it moves that entry to the back with the new value and returns the old
/// value.
#[verifier::external_body]
pub(crate) fn cache_insert(m: &mut LinkedHashMap<u128, Vec<u8>>, k: u128, v: Vec<u8>) -> (previous:
    Option<Vec<u8>>)
    ensures
        previous is None ==> {
            &&& forall|i: int|
                0 <= i < cached_entries(*old(m)).len() ==> #[trigger] cached_entries(
                    *old(m),
                )[i].0 != k
            &&& cached_entries(*final(m)) == cached_entries(*old(m)).push((k, v@))
        },
        previous matches Some(p) ==> exists|i: int|
            0 <= i < cached_entries(*old(m)).len() && #[trigger] cached_entries(*old(m))[i] == (
                k,
                p@,
            ) && cached_entries(*final(m)) == cached_entries(*old(m)).remove(i).push((k, v@)),
{
    m.insert(k, v)
}

/// `Clone` of `LinkedHashMap`: the source builds a map with a clone of the
/// hasher and inserts clones of the entries in order. Nothing is stated of
/// the copy here: the entries have no name at these generic types.
pub assume_specification<K: core::hash::Hash + Eq + Clone, V: Clone, S: core::hash::BuildHasher + Clone>[
    <LinkedHashMap<K, V, S> as Clone>::clone
](m: &LinkedHashMap<K, V, S>) -> LinkedHashMap<K, V, S>;

} // verus!
