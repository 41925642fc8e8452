//! Small helpers that the rest of the library leans on.

use vstd::prelude::*;
use std::borrow::Borrow;
use std::collections::HashMap;
use std::hash::Hash;
use vstd::std_specs::hash::*;
use vstd::std_specs::iter::IteratorSpec;
use vstd::string::*;

verus! {

/// An owned copy of a path.
pub fn path_buf(path: &str) -> (r: String)
    ensures
        r@ == path@,
{
    path.to_owned()
}

/// Whether a path can be written in the native string form of the platform,
/// which ends a string at the first zero character.
pub open spec fn spec_path_valid(path: Seq<char>) -> bool {
    !path.contains('\0')
}

/// Whether a path can be written in the native string form of the platform:
/// whether it is free of zero characters.
pub fn path_valid(path: &str) -> (r: bool)
    ensures
        r == spec_path_valid(path@),
{
    let mut valid: bool = true;
    let ghost mut seen: Seq<char> = Seq::empty();
    for c in it: path.chars()
        invariant
            it.seq() == path@,
            seen == it.seq().take(it.index()),
            valid == !seen.contains('\0'),
    {
        let ghost before = seen;
        proof {
            seen = before.push(c);
        }
        assert(before.push(c).contains('\0') <==> (before.contains('\0') || c == '\0')) by {
            if before.contains('\0') {
                let k = choose|k: int| 0 <= k < before.len() && before[k] == '\0';
                assert(before.push(c)[k] == '\0');
            }
            if c == '\0' {
                assert(before.push(c)[before.len() as int] == '\0');
            }
        }
        if c == '\0' {
            valid = false;
        }
    }
    assert(seen =~= path@);
    valid
}

/// What `str::encode_utf16` of the standard library yields for a text: its
/// UTF-16 code units, in order.
pub uninterp spec fn utf16_of(text: Seq<char>) -> Seq<u16>;

/// `str::encode_utf16`: the UTF-16 code units of a text. The result depends
/// on the text alone.
#[verifier::external_body]
fn encode_utf16(text: &str) -> (units: Vec<u16>)
    ensures
        units@ == utf16_of(text@),
{
    text.encode_utf16().collect()
}

/// The code units with a zero behind them.
pub fn terminated(units: Vec<u16>) -> (wide: Vec<u16>)
    ensures
        wide@ == units@.push(0),
{
    let mut wide = units;
    wide.push(0);
    wide
}

/// The path in the native string form of Windows: its UTF-16 code units and
/// a zero that ends the string.
pub fn path_to_utf16(path: &str) -> (wide: Vec<u16>)
    ensures
        wide@ == utf16_of(path@).push(0),
{
    terminated(encode_utf16(path))
}

/// Whether `k` is the key under which `m` holds an entry for the borrowed
/// key `i`: `m` holds `k`, and to remove the entry of `i` from `m` is to
/// remove `k`.
pub open spec fn key_borrowed_as<K, V, Q>(m: Map<K, V>, k: K, i: &Q) -> bool {
    m.contains_key(k) && borrowed_key_removed(m, m.remove(k), i)
}

/// `HashMap::get_mut` of the standard library: a mutable reference to the
/// value that `m` holds for the key `i`, or `None` if it holds none. The
/// reference starts at that value; what the map holds in the end is what it
/// held before with that one value replaced by what the reference is left
/// with. Without an entry for `i` the map does not change.
#[verifier::external_body]
fn get_mut<'a, K, V, Q>(m: &'a mut HashMap<K, V>, i: &Q) -> (r: Option<&'a mut V>) where
    K: Eq + Hash + Borrow<Q>,
    Q: Eq + Hash,

    ensures
        obeys_key_model::<K>() ==> match r {
            Some(v) => exists|k: K|
                #![trigger key_borrowed_as(old(m)@, k, i)]
                {
                    &&& key_borrowed_as(old(m)@, k, i)
                    &&& *v == old(m)@[k]
                    &&& final(m)@ == old(m)@.insert(k, *final(v))
                },
            None => !contains_borrowed_key(old(m)@, i) && final(m)@ == old(m)@,
        },
{
    m.get_mut(i)
}

/// A mutable reference to the value that `m` holds for the key `i`, which
/// `m` must hold: through it that value, and nothing else in the map, can be
/// replaced.
pub fn idxmut_map<'a, K, V, Q>(m: &'a mut HashMap<K, V>, i: &Q) -> (r: &'a mut V) where
    K: Eq + Hash + Borrow<Q>,
    Q: Eq + Hash,

    requires
        obeys_key_model::<K>(),
        contains_borrowed_key(old(m)@, i),
    ensures
        exists|k: K|
            #![trigger key_borrowed_as(old(m)@, k, i)]
            {
                &&& key_borrowed_as(old(m)@, k, i)
                &&& *r == old(m)@[k]
                &&& final(m)@ == old(m)@.insert(k, *final(r))
            },
{
    match get_mut(m, i) {
        Some(v) => v,
        None => vstd::pervasive::unreached(),
    }
}

} // verus!
