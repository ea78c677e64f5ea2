use crate::render::colors;
use crate::render::colors::spec_map_color;
use crate::render::{Layers, AMOUNT_LAYER, LAYER_PITCH, LAYER_SIZE, PIXEL_LAYER};
use vstd::prelude::*;

verus! {

/// Packs four channels into a color; the form scripts call.
pub fn create_color(r: u8, g: u8, b: u8, a: u8) -> (color: u16)
    ensures
        color == colors::spec_create_color(r, g, b, a),
{
    colors::create_color(r, g, b, a)
}

/// The layer index selected after switching away from `current`: the first
/// layer becomes the second, anything else the first.
pub open spec fn switched(current: u32) -> u32 {
    if current == 0 {
        1
    } else {
        0
    }
}

/// Switches between the two entity layers and returns the one now selected.
pub fn switch_entity_layer(layers: &mut Layers) -> (now: u32)
    ensures
        now == switched(old(layers).current_entity_layer),
        final(layers).current_entity_layer == now,
        final(layers).current_tile_layer == old(layers).current_tile_layer,
        final(layers).allow_pixel_layer == old(layers).allow_pixel_layer,
        final(layers).layers == old(layers).layers,
{
    layers.current_entity_layer = match layers.current_entity_layer {
        0 => 1,
        _ => 0,
    };
    layers.current_entity_layer
}

/// Switches between the two tile layers and returns the one now selected.
pub fn switch_tile_layer(layers: &mut Layers) -> (now: u32)
    ensures
        now == switched(old(layers).current_tile_layer),
        final(layers).current_tile_layer == now,
        final(layers).current_entity_layer == old(layers).current_entity_layer,
        final(layers).allow_pixel_layer == old(layers).allow_pixel_layer,
        final(layers).layers == old(layers).layers,
{
    layers.current_tile_layer = match layers.current_tile_layer {
        0 => 1,
        _ => 0,
    };
    layers.current_tile_layer
}

/// Turns the pixel layer on or off and returns whether it is now on.
pub fn toggle_pixel_layer(layers: &mut Layers) -> (on: bool)
    ensures
        on == !old(layers).allow_pixel_layer,
        final(layers).allow_pixel_layer == on,
        final(layers).current_entity_layer == old(layers).current_entity_layer,
        final(layers).current_tile_layer == old(layers).current_tile_layer,
        final(layers).layers == old(layers).layers,
{
    layers.allow_pixel_layer = !layers.allow_pixel_layer;
    layers.allow_pixel_layer
}

/// Where the four bytes of pixel `(x, y)` start in a layer.
pub open spec fn pixel_offset(x: u32, y: u32) -> int {
    x * 4 + y * LAYER_PITCH
}

/// Whether pixel `(x, y)` can be written: its column times four fits in a
/// `u32` and its four bytes lie inside a layer.
pub open spec fn pixel_in_layer(x: u32, y: u32) -> bool {
    x * 4 <= u32::MAX && pixel_offset(x, y) + 4 <= LAYER_SIZE
}

/// `buffer` with the four bytes at `offset` replaced by the channels of `color`.
pub open spec fn with_pixel(buffer: Seq<u8>, offset: int, color: u16) -> Seq<u8> {
    let (r, g, b, a) = spec_map_color(color);
    buffer.subrange(0, offset) + seq![r, g, b, a] + buffer.subrange(offset + 4, buffer.len() as int)
}

/// Writes `color` at pixel `(x, y)` of the pixel layer when that layer is on;
/// does nothing when it is off.
pub fn draw_pixel(layers: &mut Layers, x: u32, y: u32, color: u16)
    requires
        old(layers).wf(),
        old(layers).allow_pixel_layer ==> pixel_in_layer(x, y),
    ensures
        final(layers).wf(),
        final(layers).allow_pixel_layer == old(layers).allow_pixel_layer,
        final(layers).current_entity_layer == old(layers).current_entity_layer,
        final(layers).current_tile_layer == old(layers).current_tile_layer,
        forall|i: int|
            0 <= i < AMOUNT_LAYER && i != PIXEL_LAYER ==> #[trigger] final(layers).layers@[i]
                == old(layers).layers@[i],
        final(layers).layers@[PIXEL_LAYER as int]@ == if old(layers).allow_pixel_layer {
            with_pixel(old(layers).layers@[PIXEL_LAYER as int]@, pixel_offset(x, y), color)
        } else {
            old(layers).layers@[PIXEL_LAYER as int]@
        },
{
    if !layers.allow_pixel_layer {
        return ;
    }
    let offset: usize = (x * 4) as usize + (y as usize * LAYER_PITCH);
    let rgba: Vec<u8> = colors::map_color_vec(color);
    let buffer = &mut layers.layers[PIXEL_LAYER];
    buffer[offset] = rgba[0];
    buffer[offset + 1] = rgba[1];
    buffer[offset + 2] = rgba[2];
    buffer[offset + 3] = rgba[3];
}

/// Switching selects one of the first two layers, and switching twice from
/// one of them selects it again.
pub proof fn lemma_switch_twice(current: u32)
    ensures
        switched(current) <= 1,
        current <= 1 ==> switched(switched(current)) == current,
{
}

/// The layer selected after switching `k` times from `start`.
pub open spec fn switched_times(start: u32, k: nat) -> u32
    decreases k,
{
    if k == 0 {
        start
    } else {
        switched(switched_times(start, (k - 1) as nat))
    }
}

/// From the first layer, the `k`-th switch selects layer `k % 2`.
pub proof fn lemma_switch_parity(k: nat)
    ensures
        switched_times(0, k) == k % 2,
    decreases k,
{
    if k > 0 {
        lemma_switch_parity((k - 1) as nat);
    }
}

/// Pixels are laid out row by row: the offset of pixel `(x, y)` on the
/// screen lies in row `y` (of `LAYER_PITCH` bytes) at column byte `4 * x`, so
/// the pixel can be read back from its offset, the first pixel is at 0, and
/// stepping right moves four bytes, stepping down one row.
pub proof fn lemma_pixel_layout(x: u32, y: u32)
    requires
        x < crate::render::LAYER_WIDTH,
    ensures
        pixel_offset(x, y) / 32768 == y,
        pixel_offset(x, y) % 32768 == 4 * x,
        pixel_offset(0, 0) == 0,
        x + 1 < crate::render::LAYER_WIDTH ==> pixel_offset((x + 1) as u32, y) == pixel_offset(
            x,
            y,
        ) + 4,
        y + 1 <= u32::MAX ==> pixel_offset(x, (y + 1) as u32) == pixel_offset(x, y) + 32768,
{
    assert(crate::render::LAYER_WIDTH == 8192);
    assert(LAYER_PITCH == 32768);
    let o = pixel_offset(x, y);
    assert(o == 4 * x + 32768 * y);
    vstd::arithmetic::div_mod::lemma_fundamental_div_mod_converse(
        o,
        32768,
        y as int,
        4 * x as int,
    );
}

/// Two different screen pixels have different offsets.
pub proof fn lemma_pixel_offsets_distinct(x1: u32, y1: u32, x2: u32, y2: u32)
    requires
        x1 < crate::render::LAYER_WIDTH,
        x2 < crate::render::LAYER_WIDTH,
        x1 != x2 || y1 != y2,
    ensures
        pixel_offset(x1, y1) != pixel_offset(x2, y2),
{
    lemma_pixel_layout(x1, y1);
    lemma_pixel_layout(x2, y2);
}

/// Every pixel of the screen, up to `LAYER_WIDTH` by `LAYER_HEIGHT`, can be
/// written.
pub proof fn lemma_screen_pixels_in_layer(x: u32, y: u32)
    requires
        x < crate::render::LAYER_WIDTH,
        y < crate::render::LAYER_HEIGHT,
    ensures
        pixel_in_layer(x, y),
{
    assert(crate::render::LAYER_WIDTH == 8192);
    assert(crate::render::LAYER_HEIGHT == 4096);
    assert(LAYER_PITCH == 32768);
    assert(LAYER_SIZE == 134217728);
    assert(y * 32768 <= 4095 * 32768) by (nonlinear_arith)
        requires
            y <= 4095,
    ;
}

/// Reading back a written pixel gives the channels of its color; every other
/// byte is as before, and the buffer keeps its length.
pub proof fn lemma_read_back(buffer: Seq<u8>, offset: int, color: u16)
    requires
        0 <= offset,
        offset + 4 <= buffer.len(),
    ensures
        with_pixel(buffer, offset, color).len() == buffer.len(),
        with_pixel(buffer, offset, color)[offset] == spec_map_color(color).0,
        with_pixel(buffer, offset, color)[offset + 1] == spec_map_color(color).1,
        with_pixel(buffer, offset, color)[offset + 2] == spec_map_color(color).2,
        with_pixel(buffer, offset, color)[offset + 3] == spec_map_color(color).3,
        forall|i: int|
            0 <= i < buffer.len() && !(offset <= i < offset + 4) ==> #[trigger] with_pixel(
                buffer,
                offset,
                color,
            )[i] == buffer[i],
{
}

/// Writing a pixel twice leaves only the second color.
pub proof fn lemma_overwrite(buffer: Seq<u8>, offset: int, first: u16, second: u16)
    requires
        0 <= offset,
        offset + 4 <= buffer.len(),
    ensures
        with_pixel(with_pixel(buffer, offset, first), offset, second) == with_pixel(
            buffer,
            offset,
            second,
        ),
{
    lemma_read_back(buffer, offset, first);
    lemma_read_back(with_pixel(buffer, offset, first), offset, second);
    lemma_read_back(buffer, offset, second);
    assert(with_pixel(with_pixel(buffer, offset, first), offset, second) =~= with_pixel(
        buffer,
        offset,
        second,
    ));
}

/// Writes to two pixels whose bytes do not overlap can be done in either
/// order.
pub proof fn lemma_writes_commute(buffer: Seq<u8>, o1: int, c1: u16, o2: int, c2: u16)
    requires
        0 <= o1,
        o1 + 4 <= buffer.len(),
        0 <= o2,
        o2 + 4 <= buffer.len(),
        o1 + 4 <= o2 || o2 + 4 <= o1,
    ensures
        with_pixel(with_pixel(buffer, o1, c1), o2, c2) == with_pixel(
            with_pixel(buffer, o2, c2),
            o1,
            c1,
        ),
{
    lemma_read_back(buffer, o1, c1);
    lemma_read_back(buffer, o2, c2);
    lemma_read_back(with_pixel(buffer, o1, c1), o2, c2);
    lemma_read_back(with_pixel(buffer, o2, c2), o1, c1);
    assert(with_pixel(with_pixel(buffer, o1, c1), o2, c2) =~= with_pixel(
        with_pixel(buffer, o2, c2),
        o1,
        c1,
    ));
}

} // verus!
