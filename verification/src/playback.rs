use vstd::prelude::*;

verus! {

/// A seek by `move_pos` samples from position `pos` does not overflow: a
/// backward seek compares the distance with the position cut to 32 bits
/// and, when the distance is larger, steps back by it; a forward seek adds
/// the distance.
pub open spec fn seek_defined(pos: usize, move_pos: i32) -> bool {
    if move_pos < 0 {
        let back = -move_pos;
        &&& move_pos != i32::MIN
        &&& i32::MIN <= back - (pos as i32) <= i32::MAX
        &&& back - (pos as i32) > 0 ==> back <= pos
    } else {
        pos + move_pos <= usize::MAX
    }
}

/// The position after the seek: back to the start when the backward
/// distance is at most the (32-bit) position, back by the distance
/// otherwise, forward by the distance for a forward seek.
pub open spec fn seek_result(pos: usize, move_pos: i32) -> int {
    if move_pos < 0 {
        let back = -move_pos;
        if back - (pos as i32) <= 0 {
            0
        } else {
            pos - back
        }
    } else {
        pos + move_pos
    }
}

/// Moves a playback position by `move_pos` samples.
pub fn seek_position(pos: usize, move_pos: i32) -> (r: usize)
    requires
        seek_defined(pos, move_pos),
    ensures
        r == seek_result(pos, move_pos),
{
    if move_pos < 0i32 {
        let back = -move_pos;
        if back - (pos as i32) <= 0i32 {
            0
        } else {
            pos - (back as usize)
        }
    } else {
        pos + (move_pos as usize)
    }
}

/// Index of the last sample of a buffer of `len` samples.
pub fn last_sample(len: usize) -> (r: usize)
    requires
        len > 0,
    ensures
        r == len - 1,
{
    len - 1
}

} // verus!
