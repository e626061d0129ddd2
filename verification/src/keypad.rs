//! The sixteen-key pad, and the scan that ends a wait for a key.

use vstd::prelude::*;

verus! {

/// Number of keys.
pub const KEY_COUNT: usize = 16;

/// Key `k` is down in `now` and was up in `before`.
pub open spec fn newly_pressed(before: Seq<bool>, now: Seq<bool>, k: int) -> bool {
    0 <= k < KEY_COUNT && now[k] && !before[k]
}

/// Key `k` is newly pressed and no key below it is.
pub open spec fn is_first_new_key(before: Seq<bool>, now: Seq<bool>, k: int) -> bool {
    &&& newly_pressed(before, now, k)
    &&& forall|j: int| 0 <= j < k ==> !newly_pressed(before, now, j)
}

/// The lowest key that is down in `now` and was up in `before`, if there
/// is one.
pub open spec fn first_new_key(before: Seq<bool>, now: Seq<bool>) -> Option<u8> {
    if exists|k: int| is_first_new_key(before, now, k) {
        Some((choose|k: int| is_first_new_key(before, now, k)) as u8)
    } else {
        None
    }
}

/// Only one key can be the first newly pressed one.
pub proof fn first_new_key_is_unique(before: Seq<bool>, now: Seq<bool>, j: int, k: int)
    requires
        is_first_new_key(before, now, j),
        is_first_new_key(before, now, k),
    ensures
        j == k,
{
    if j < k {
        assert(!newly_pressed(before, now, j));
    } else if k < j {
        assert(!newly_pressed(before, now, k));
    }
}

/// What `first_new_key` finds is the lowest newly pressed key, and it finds
/// nothing only where no key is newly pressed.
pub proof fn first_new_key_is_lowest(before: Seq<bool>, now: Seq<bool>)
    ensures
        match first_new_key(before, now) {
            Some(k) => is_first_new_key(before, now, k as int),
            None => forall|k: int| !newly_pressed(before, now, k),
        },
{
    if exists|k: int| is_first_new_key(before, now, k) {
        let k = choose|k: int| is_first_new_key(before, now, k);
        assert(0 <= k < KEY_COUNT);
    } else {
        assert forall|k: int| !newly_pressed(before, now, k) by {
            if newly_pressed(before, now, k) {
                lowest_new_key_exists(before, now, k);
            }
        }
    }
}

/// Where some key up to `k` is newly pressed, there is a first one.
proof fn lowest_new_key_exists(before: Seq<bool>, now: Seq<bool>, k: int)
    requires
        newly_pressed(before, now, k),
    ensures
        exists|j: int| is_first_new_key(before, now, j),
    decreases k,
{
    if exists|j: int| 0 <= j < k && newly_pressed(before, now, j) {
        let j = choose|j: int| 0 <= j < k && newly_pressed(before, now, j);
        lowest_new_key_exists(before, now, j);
    } else {
        assert(is_first_new_key(before, now, k));
    }
}

/// Scans the pad from key 0 upwards for a key that went down between two
/// snapshots.
pub fn scan_new_key(before: &[bool; 16], now: &[bool; 16]) -> (key: Option<u8>)
    ensures
        key == first_new_key(before@, now@),
        key matches Some(k) ==> k < KEY_COUNT,
{
    let mut k: u8 = 0;
    while k < 16
        invariant
            k <= 16,
            forall|j: int| 0 <= j < k ==> !newly_pressed(before@, now@, j),
        decreases 16 - k,
    {
        if now[k as usize] && !before[k as usize] {
            proof {
                assert(is_first_new_key(before@, now@, k as int));
                let c = choose|c: int| is_first_new_key(before@, now@, c);
                first_new_key_is_unique(before@, now@, c, k as int);
            }
            return Some(k);
        }
        k = k + 1;
    }
    assert forall|c: int| !is_first_new_key(before@, now@, c) by {
        if is_first_new_key(before@, now@, c) {
            assert(newly_pressed(before@, now@, c));
        }
    }
    None
}

} // verus!
