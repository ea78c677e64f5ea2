use vstd::prelude::*;

verus! {

/// Number of whole four-byte pixels in a buffer of `len` bytes.
pub open spec fn whole_pixels(len: int) -> int {
    len / 4
}

/// Copies the picture in `img_data` onto `frame`, one whole pixel at a time,
/// for as many pixels as both hold; the bytes beyond stay as they were.
pub fn test_draw(frame: &mut [u8], img_data: &[u8])
    ensures
        final(frame)@.len() == old(frame)@.len(),
        ({
            let n = 4 * if whole_pixels(old(frame)@.len() as int) <= whole_pixels(
                img_data@.len() as int,
            ) {
                whole_pixels(old(frame)@.len() as int)
            } else {
                whole_pixels(img_data@.len() as int)
            };
            &&& forall|i: int| 0 <= i < n ==> #[trigger] final(frame)@[i] == img_data@[i]
            &&& forall|i: int| n <= i < old(frame)@.len() ==> #[trigger] final(frame)@[i]
                == old(frame)@[i]
        }),
{
    let pixels = if frame.len() / 4 <= img_data.len() / 4 {
        frame.len() / 4
    } else {
        img_data.len() / 4
    };
    let end: usize = pixels * 4;
    let mut i: usize = 0;
    while i < end
        invariant
            end == 4 * pixels,
            pixels <= old(frame)@.len() / 4,
            pixels <= img_data@.len() / 4,
            i <= end,
            frame@.len() == old(frame)@.len(),
            forall|j: int| 0 <= j < i ==> #[trigger] frame@[j] == img_data@[j],
            forall|j: int| i <= j < old(frame)@.len() ==> #[trigger] frame@[j] == old(frame)@[j],
        decreases end - i,
    {
        frame[i] = img_data[i];
        i = i + 1;
    }
}

/// Paints every whole pixel of `frame` with `rgba`; the bytes of a last,
/// partial pixel stay as they were.
pub fn fill_pixels(frame: &mut [u8], rgba: [u8; 4])
    ensures
        final(frame)@.len() == old(frame)@.len(),
        forall|i: int|
            0 <= i < 4 * whole_pixels(old(frame)@.len() as int) ==> #[trigger] final(frame)@[i]
                == rgba[i % 4],
        forall|i: int|
            4 * whole_pixels(old(frame)@.len() as int) <= i < old(frame)@.len() ==> #[trigger] final(frame)@[i]
                == old(frame)@[i],
{
    let end: usize = frame.len() / 4 * 4;
    let mut i: usize = 0;
    while i < end
        invariant
            end == 4 * whole_pixels(old(frame)@.len() as int),
            i <= end,
            frame@.len() == old(frame)@.len(),
            forall|j: int| 0 <= j < i ==> #[trigger] frame@[j] == rgba[j % 4],
            forall|j: int| i <= j < old(frame)@.len() ==> #[trigger] frame@[j] == old(frame)@[j],
        decreases end - i,
    {
        frame[i] = rgba[i % 4];
        i = i + 1;
    }
}

} // verus!
