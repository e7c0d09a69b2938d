//! Encoding of the per-app launch counts kept in the on-disk usage store.
use vstd::prelude::*;
use vstd::utf8::{decode_utf8, valid_utf8};

verus! {

/// The little-endian value of four bytes.
pub open spec fn le_u32(b: Seq<u8>) -> nat {
    b[0] as nat + 256 * (b[1] as nat) + 65536 * (b[2] as nat) + 16777216 * (b[3] as nat)
}

/// The count a stored value encodes: a four-byte little-endian number; anything else
/// (or no value) counts as zero.
pub open spec fn stored_count(v: Option<Seq<u8>>) -> nat {
    match v {
        Some(b) => if b.len() == 4 { le_u32(b) } else { 0 },
        None => 0,
    }
}

/// Decodes a stored launch count (0 for a missing or malformed value).
pub fn count_from_stored(v: Option<&[u8]>) -> (r: u32)
    ensures
        r == stored_count(match v { Some(b) => Some(b@), None => None }),
{
    match v {
        Some(b) => {
            if b.len() == 4 {
                (b[0] as u32) + 256 * (b[1] as u32) + 65536 * (b[2] as u32) + 16777216 * (b[3] as u32)
            } else {
                0
            }
        },
        None => 0,
    }
}

/// The four little-endian bytes of `n`.
pub fn count_bytes(n: u32) -> (r: [u8; 4])
    ensures
        r@.len() == 4,
        le_u32(r@) == n,
{
    let b0 = (n % 256) as u8;
    let b1 = ((n / 256) % 256) as u8;
    let b2 = ((n / 65536) % 256) as u8;
    let b3 = (n / 16777216) as u8;
    let r = [b0, b1, b2, b3];
    assert(r@ =~= seq![b0, b1, b2, b3]);
    r
}

/// The value stored after one more launch of an app launched `current` times:
/// the count plus one, saturating at `u32::MAX`.
pub fn incremented(current: u32) -> (r: [u8; 4])
    ensures
        r@.len() == 4,
        le_u32(r@) == if current == u32::MAX { current as int } else { current + 1 },
{
    count_bytes(current.saturating_add(1))
}

/// Decoding what was encoded gives the count back.
pub proof fn lemma_count_round_trip(n: u32, b: Seq<u8>)
    requires
        b.len() == 4,
        le_u32(b) == n,
    ensures
        stored_count(Some(b)) == n,
{
}

/// The launch count a store with contents `m` (key bytes to value bytes) holds for `key`.
pub open spec fn store_count(m: Map<Seq<u8>, Seq<u8>>, key: Seq<u8>) -> nat {
    stored_count(if m.dom().contains(key) { Some(m[key]) } else { None })
}

/// Counting a launch: storing `incremented` of an app's count under its key raises that
/// count by one (saturating at `u32::MAX`) and leaves every other app's count as it was.
pub proof fn lemma_increment_keeps_others(
    m: Map<Seq<u8>, Seq<u8>>,
    key: Seq<u8>,
    current: u32,
    stored: Seq<u8>,
)
    requires
        store_count(m, key) == current,
        stored.len() == 4,
        le_u32(stored) == if current == u32::MAX { current as int } else { current + 1 },
    ensures
        store_count(m.insert(key, stored), key) == if current == u32::MAX {
            current as int
        } else {
            current + 1
        },
        forall|k: Seq<u8>| k != key ==> store_count(m.insert(key, stored), k) == store_count(m, k),
{
    assert(m.insert(key, stored).dom().contains(key));
    assert forall|k: Seq<u8>| k != key implies store_count(m.insert(key, stored), k) == store_count(
        m,
        k,
    ) by {
        assert(m.insert(key, stored).dom().contains(k) == m.dom().contains(k));
        if m.dom().contains(k) {
            assert(m.insert(key, stored)[k] == m[k]);
        }
    }
}

/// The `(app id, count)` pair of one stored record, or `None` when the key is not UTF-8
/// or the value is not four bytes.
pub fn record_from_stored(key: &[u8], value: &[u8]) -> (r: Option<(String, u32)>)
    ensures
        match r {
            Some((id, n)) => valid_utf8(key@) && id@ == decode_utf8(key@) && value@.len() == 4
                && n == le_u32(value@),
            None => !valid_utf8(key@) || value@.len() != 4,
        },
{
    let id = match crate::text::utf8_string(key) {
        Some(s) => s,
        None => return None,
    };
    if value.len() != 4 {
        return None;
    }
    let n = count_from_stored(Some(value));
    Some((id, n))
}

} // verus!
