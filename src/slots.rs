//! Generation-checked key allocation, backed by `slotmap`.
//!
//! A key is handled in its 64-bit form (`KeyData::as_ffi`): its version in
//! the high half, its slot index in the low half. A live key always has an
//! odd version.
use slotmap::{DefaultKey, Key, KeyData, SlotMap};
use vstd::prelude::*;

verus! {

/// A `slotmap::SlotMap` from keys to positions. Verus cannot take the
/// declaration of `SlotMap` itself (its key bound is an outside trait), so
/// the map is held here, out of Verus's sight.
#[verifier::external_body]
pub struct Slots {
    map: SlotMap<DefaultKey, usize>,
}

/// The entries of a slot map of positions, by key in 64-bit form.
pub uninterp spec fn slot_entries(m: Slots) -> Map<u64, usize>;

/// A key in 64-bit form whose version is odd, as every live key's is.
pub open spec fn has_live_version(bits: u64) -> bool {
    (bits as int / 0x1_0000_0000) % 2 == 1
}

/// Relies on `SlotMap::new`: the new map holds nothing.
#[verifier::external_body]
pub(crate) fn new_slot_map() -> (r: Slots)
    ensures
        slot_entries(r).dom() == Set::<u64>::empty(),
{
    Slots { map: SlotMap::new() }
}

/// Relies on `SlotMap::insert`: the value is stored under a key that no
/// entry had, and whose version is odd. It panics only when no slot is free
/// and `u32::MAX` slots exist, which the bound on the number of entries
/// rules out.
#[verifier::external_body]
pub(crate) fn slot_insert(m: &mut Slots, value: usize) -> (r: u64)
    requires
        slot_entries(*old(m)).dom().finite(),
        slot_entries(*old(m)).dom().len() + 2 < u32::MAX,
    ensures
        !slot_entries(*old(m)).contains_key(r),
        has_live_version(r),
        slot_entries(*final(m)) == slot_entries(*old(m)).insert(r, value),
{
    m.map.insert(value).data().as_ffi()
}

/// Relies on `SlotMap::get` and `KeyData::from_ffi`: for a key with an odd
/// version, `from_ffi` gives back the key whose 64-bit form it is, and `get`
/// finds the entry stored under it, if any.
#[verifier::external_body]
pub(crate) fn slot_get(m: &Slots, key: u64) -> (r: Option<usize>)
    requires
        has_live_version(key),
    ensures
        r == (if slot_entries(*m).contains_key(key) {
            Some(slot_entries(*m)[key])
        } else {
            None::<usize>
        }),
{
    m.map.get(DefaultKey::from(KeyData::from_ffi(key))).copied()
}

} // verus!
