use vstd::prelude::*;

verus! {

/// The 4-bit channel that a byte contributes to a packed color: its low nibble.
pub open spec fn nibble(v: int) -> int {
    v % 16
}

/// The packed color of four channels: red in the top nibble, then green,
/// blue, and alpha in the bottom nibble.
pub open spec fn spec_create_color(r: u8, g: u8, b: u8, a: u8) -> u16 {
    (nibble(r as int) * 4096 + nibble(g as int) * 256 + nibble(b as int) * 16 + nibble(
        a as int,
    )) as u16
}

/// The red, green, blue and alpha nibbles of a packed color.
pub open spec fn red_nibble(color: u16) -> int {
    (color as int / 4096) % 16
}

pub open spec fn green_nibble(color: u16) -> int {
    (color as int / 256) % 16
}

pub open spec fn blue_nibble(color: u16) -> int {
    (color as int / 16) % 16
}

pub open spec fn alpha_nibble(color: u16) -> int {
    color as int % 16
}

/// A packed color expanded to 8-bit channels: each nibble `n` becomes `n * 17`,
/// so that 0 maps to 0 and 15 maps to 255.
pub open spec fn spec_map_color(color: u16) -> (u8, u8, u8, u8) {
    (
        (red_nibble(color) * 17) as u8,
        (green_nibble(color) * 17) as u8,
        (blue_nibble(color) * 17) as u8,
        (alpha_nibble(color) * 17) as u8,
    )
}

/// Opaque white.
pub const WHITE: u16 = 0xffff;

/// Opaque black.
pub const BLACK: u16 = 0x000f;

/// Packs four channels into a 16-bit color, keeping the low nibble of each.
pub fn create_color(r: u8, g: u8, b: u8, a: u8) -> (color: u16)
    ensures
        color == spec_create_color(r, g, b, a),
        red_nibble(color) == nibble(r as int),
        green_nibble(color) == nibble(g as int),
        blue_nibble(color) == nibble(b as int),
        alpha_nibble(color) == nibble(a as int),
{
    let color: u16 = (((r & 15) as u16) << 12) | (((g & 15) as u16) << 8) | (((b & 15) as u16)
        << 4) | ((a & 15) as u16);
    assert(color == ((r % 16) * 4096 + (g % 16) * 256 + (b % 16) * 16 + (a % 16)) && (color
        / 4096) % 16 == r % 16 && (color / 256) % 16 == g % 16 && (color / 16) % 16 == b % 16
        && color % 16 == a % 16) by (bit_vector)
        requires
            color == (((r & 15) as u16) << 12) | (((g & 15) as u16) << 8) | (((b & 15) as u16)
                << 4) | ((a & 15) as u16),
    ;
    color
}

/// Expands a packed color into four 8-bit channels.
pub fn map_color(color: u16) -> (rgba: (u8, u8, u8, u8))
    ensures
        rgba == spec_map_color(color),
{
    let rn: u8 = 15 & (#[verifier::truncate] ((color >> 12) as u8));
    let gn: u8 = 15 & (#[verifier::truncate] ((color >> 8) as u8));
    let bn: u8 = 15 & (#[verifier::truncate] ((color >> 4) as u8));
    let an: u8 = #[verifier::truncate] ((15 & color) as u8);
    assert(rn == (color / 4096) % 16 && gn == (color / 256) % 16 && bn == (color / 16) % 16 && an
        == color % 16) by (bit_vector)
        requires
            rn == 15 & (#[verifier::truncate] ((color >> 12) as u8)),
            gn == 15 & (#[verifier::truncate] ((color >> 8) as u8)),
            bn == 15 & (#[verifier::truncate] ((color >> 4) as u8)),
            an == #[verifier::truncate] ((15 & color) as u8),
    ;
    let r: u8 = rn * 17;
    let g: u8 = gn * 17;
    let b: u8 = bn * 17;
    let a: u8 = an * 17;
    (r, g, b, a)
}

/// A packed color expanded into a vector of its red, green, blue and alpha bytes.
pub fn map_color_vec(color: u16) -> (rgba: Vec<u8>)
    ensures
        rgba@ == seq![
            spec_map_color(color).0,
            spec_map_color(color).1,
            spec_map_color(color).2,
            spec_map_color(color).3,
        ],
{
    let (r, g, b, a) = map_color(color);
    vec![r, g, b, a]
}

/// Expanding a packed color gives back each channel's nibble times 17.
pub proof fn lemma_map_create(r: u8, g: u8, b: u8, a: u8)
    ensures
        spec_map_color(spec_create_color(r, g, b, a)) == (
            (nibble(r as int) * 17) as u8,
            (nibble(g as int) * 17) as u8,
            (nibble(b as int) * 17) as u8,
            (nibble(a as int) * 17) as u8,
        ),
{
    let c = spec_create_color(r, g, b, a);
    assert(c == ((r % 16) * 4096 + (g % 16) * 256 + (b % 16) * 16 + (a % 16)) && (c / 4096) % 16
        == r % 16 && (c / 256) % 16 == g % 16 && (c / 16) % 16 == b % 16 && c % 16 == a % 16)
        by (bit_vector)
        requires
            c == ((r % 16) * 4096 + (g % 16) * 256 + (b % 16) * 16 + (a % 16)) as u16,
    ;
}

/// Packing the channels that a color expands to, each divided by 17, gives
/// back the color: expansion loses nothing.
pub proof fn lemma_create_map(color: u16)
    ensures
        ({
            let m = spec_map_color(color);
            spec_create_color(
                (m.0 as int / 17) as u8,
                (m.1 as int / 17) as u8,
                (m.2 as int / 17) as u8,
                (m.3 as int / 17) as u8,
            ) == color
        }),
{
    let c = color as int;
    assert(c == (c / 4096) % 16 * 4096 + (c / 256) % 16 * 256 + (c / 16) % 16 * 16 + c % 16)
        by (nonlinear_arith)
        requires
            0 <= c < 65536,
    ;
}

/// Two colors that expand to the same channels are the same color.
pub proof fn lemma_map_color_injective(c1: u16, c2: u16)
    requires
        spec_map_color(c1) == spec_map_color(c2),
    ensures
        c1 == c2,
{
    lemma_create_map(c1);
    lemma_create_map(c2);
}

/// White and black are the packed colors of full and empty channels with
/// full alpha.
pub proof fn lemma_named_colors()
    ensures
        WHITE == spec_create_color(15, 15, 15, 15),
        BLACK == spec_create_color(0, 0, 0, 15),
        spec_map_color(WHITE) == (255u8, 255u8, 255u8, 255u8),
        spec_map_color(BLACK) == (0u8, 0u8, 0u8, 255u8),
{
}

} // verus!
