use vstd::prelude::*;

verus! {

/// The first four bytes of `s`.
pub open spec fn first_pixel(s: Seq<u8>) -> [u8; 4] {
    [s[0], s[1], s[2], s[3]]
}

/// Source-over blending of the pixel `other` onto the pixel `current`, for
/// the alphas that need no mixing: a fully transparent `other` leaves
/// `current`, a fully opaque one replaces it. `None` when the alpha of
/// `other` lies strictly between, where the channels have to be mixed in
/// fractions, which is left to the caller.
pub fn blend(current: &[u8], other: &[u8]) -> (r: Option<[u8; 4]>)
    requires
        other@.len() >= 4,
        other@[3] != 255 ==> current@.len() >= 4,
    ensures
        other@[3] == 0 ==> r == Some(first_pixel(current@)),
        other@[3] == 255 ==> r == Some(first_pixel(other@)),
        0 < other@[3] < 255 ==> r is None,
{
    if other[3] == 0 {
        return Some([current[0], current[1], current[2], current[3]]);
    }
    if other[3] == u8::MAX {
        return Some([other[0], other[1], other[2], other[3]]);
    }
    None
}

} // verus!
