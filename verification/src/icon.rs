//! Picking the richest frame of the tray icon's image: among the frames of
//! an icon directory listing, the one with the largest pixel area is decoded
//! and shown.

use vstd::prelude::*;

verus! {

/// The pixel area of one icon frame, from its width and height.
pub open spec fn frame_area(dims: (u32, u32)) -> int {
    dims.0 * dims.1
}

/// The index of the frame with the largest pixel area, ties going to the
/// later entry; `None` only for an empty listing.
pub fn largest_frame_index(dims: &Vec<(u32, u32)>) -> (best: Option<usize>)
    ensures
        match best {
            Option::None => dims@.len() == 0,
            Option::Some(b) => b < dims@.len() && forall|j: int|
                0 <= j < dims@.len() ==> frame_area(#[trigger] dims@[j]) < frame_area(
                    dims@[b as int],
                ) || (frame_area(dims@[j]) == frame_area(dims@[b as int]) && j <= b),
        },
{
    let n = dims.len();
    if n == 0 {
        return None;
    }
    let first = dims[0];
    let mut best: usize = 0;
    proof {
        vstd::arithmetic::mul::lemma_mul_upper_bound(
            first.0 as int,
            0xFFFF_FFFF,
            first.1 as int,
            0xFFFF_FFFF,
        );
    }
    let mut best_area: u64 = (first.0 as u64) * (first.1 as u64);
    let mut i: usize = 1;
    while i < n
        invariant
            n == dims@.len(),
            1 <= i <= n,
            best < i,
            best_area == frame_area(dims@[best as int]),
            forall|j: int|
                0 <= j < i ==> frame_area(#[trigger] dims@[j]) < frame_area(dims@[best as int]) || (
                frame_area(dims@[j]) == frame_area(dims@[best as int]) && j <= best),
        decreases n - i,
    {
        let entry = dims[i];
        proof {
            vstd::arithmetic::mul::lemma_mul_upper_bound(
                entry.0 as int,
                0xFFFF_FFFF,
                entry.1 as int,
                0xFFFF_FFFF,
            );
        }
        let area = (entry.0 as u64) * (entry.1 as u64);
        if area >= best_area {
            best = i;
            best_area = area;
        }
        i += 1;
    }
    Some(best)
}

} // verus!
