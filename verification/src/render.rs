pub mod colors;
pub mod commands;

use std::collections::HashMap;
use vstd::prelude::*;

verus! {

/// Width of a tile in pixels.
pub const TILE_WIDTH: u32 = 16;

/// Height of a tile in pixels.
pub const TILE_HEIGHT: u32 = 16;

/// Bytes in one row of a tile (four bytes per pixel).
pub const TILE_PITCH: usize = TILE_WIDTH as usize * 4;

/// Bytes in one tile.
#[verifier::nonlinear]
pub const TILE_SIZE: usize = TILE_PITCH * TILE_HEIGHT as usize;

/// Tiles in one tile map.
pub const AMOUNT_TILES: usize = 16;

/// Bytes in one tile map.
#[verifier::nonlinear]
pub const TILE_MAP_SIZE: usize = TILE_SIZE * AMOUNT_TILES;

/// Number of tile maps.
pub const AMOUNT_TILE_MAP: usize = 4;

/// Width of a layer in pixels: 512 tiles.
pub const LAYER_WIDTH: u32 = 512 * TILE_WIDTH;

/// Height of a layer in pixels: 256 tiles.
pub const LAYER_HEIGHT: u32 = 256 * TILE_HEIGHT;

/// Bytes in one row of a layer.
pub const LAYER_PITCH: usize = LAYER_WIDTH as usize * 4;

/// Bytes in one layer.
#[verifier::nonlinear]
pub const LAYER_SIZE: usize = LAYER_PITCH * LAYER_HEIGHT as usize;

/// Number of layers.
pub const AMOUNT_LAYER: usize = 6;

/// Index of the pixel layer, the last one.
pub const PIXEL_LAYER: usize = AMOUNT_LAYER - 1;

/// Width of a sprite in pixels.
pub const SPRITE_WIDTH: u32 = 16;

/// Height of a sprite in pixels.
pub const SPRITE_HEIGHT: u32 = 16;

/// Bytes in one row of a sprite.
pub const SPRITE_PITCH: usize = SPRITE_WIDTH as usize * 4;

/// Bytes in one sprite.
#[verifier::nonlinear]
pub const SPRITE_SIZE: usize = SPRITE_PITCH * SPRITE_HEIGHT as usize;

/// Most entities at once.
pub const MAX_ENTITIES: u32 = 256;

/// Sprites in the sprite map, one per possible entity.
pub const AMOUNT_SPRITES: usize = MAX_ENTITIES as usize;

/// Bytes in the sprite map.
#[verifier::nonlinear]
pub const SPRITE_MAP_SIZE: usize = SPRITE_SIZE * AMOUNT_SPRITES;

/// Width of the font sheet in pixels.
pub const FONT_WIDTH: u32 = 128;

/// Height of the font sheet in pixels.
pub const FONT_HEIGHT: u32 = 64;

/// Bytes in one row of the font sheet.
pub const FONT_PITCH: usize = FONT_WIDTH as usize * 4;

/// Bytes in the font sheet.
#[verifier::nonlinear]
pub const FONT_SIZE: usize = FONT_PITCH * FONT_HEIGHT as usize;

/// What a layer shows.
#[derive(PartialEq, Eq, Structural, Clone, Copy, Debug)]
pub enum Layer {
    Tile,
    Entity,
    Text,
    Pixel,
}

/// The kind of each layer, bottom to top.
pub open spec fn layer_type(i: int) -> Layer {
    if i == 0 || i == 2 {
        Layer::Tile
    } else if i == 1 || i == 3 {
        Layer::Entity
    } else if i == 4 {
        Layer::Text
    } else {
        Layer::Pixel
    }
}

/// The kind of layer `i`, for `i` below `AMOUNT_LAYER`.
pub fn layer_types(i: usize) -> (t: Layer)
    requires
        i < AMOUNT_LAYER,
    ensures
        t == layer_type(i as int),
{
    if i == 0 || i == 2 {
        Layer::Tile
    } else if i == 1 || i == 3 {
        Layer::Entity
    } else if i == 4 {
        Layer::Text
    } else {
        Layer::Pixel
    }
}

/// A buffer of `n` zero bytes.
pub open spec fn zeros(n: nat) -> Seq<u8> {
    Seq::new(n, |i: int| 0u8)
}

fn zeroed(n: usize) -> (v: Vec<u8>)
    ensures
        v@ == zeros(n as nat),
{
    let v = vec![0u8; n];
    assert(v@ =~= zeros(n as nat));
    v
}

/// The six drawing layers and which of them are in use.
pub struct Layers {
    pub layers: [Vec<u8>; AMOUNT_LAYER],
    pub current_entity_layer: u32,
    pub current_tile_layer: u32,
    pub allow_pixel_layer: bool,
}

impl Layers {
    /// Every layer holds a full screen of pixels.
    pub open spec fn wf(&self) -> bool {
        forall|i: int| 0 <= i < AMOUNT_LAYER ==> #[trigger] self.layers@[i]@.len() == LAYER_SIZE
    }

    /// All layers blank, the first entity and tile layers selected, the pixel
    /// layer off.
    pub fn new() -> (l: Layers)
        ensures
            l.wf(),
            forall|i: int| 0 <= i < AMOUNT_LAYER ==> #[trigger] l.layers@[i]@ == zeros(
                LAYER_SIZE as nat,
            ),
            l.current_entity_layer == 0,
            l.current_tile_layer == 0,
            !l.allow_pixel_layer,
    {
        Layers {
            layers: [
                zeroed(LAYER_SIZE),
                zeroed(LAYER_SIZE),
                zeroed(LAYER_SIZE),
                zeroed(LAYER_SIZE),
                zeroed(LAYER_SIZE),
                zeroed(LAYER_SIZE),
            ],
            current_entity_layer: 0,
            current_tile_layer: 0,
            allow_pixel_layer: false,
        }
    }
}

/// The sprite sheet and the entities placed on screen, each keyed by its id
/// with its x, y, sprite number and whether it is drawn.
pub struct Entities {
    pub sprite_map: Vec<u8>,
    pub e_map: HashMap<u8, (u16, u16, u8, bool)>,
}

impl Entities {
    /// A blank sprite sheet and no entities.
    pub fn new() -> (e: Entities)
        ensures
            e.sprite_map@ == zeros(SPRITE_MAP_SIZE as nat),
            e.e_map@ == Map::<u8, (u16, u16, u8, bool)>::empty(),
    {
        Entities {
            sprite_map: zeroed(SPRITE_MAP_SIZE),
            e_map: HashMap::with_capacity(MAX_ENTITIES as usize),
        }
    }
}

/// The tile maps and the tile selected in them.
pub struct TileMaps {
    pub tile_maps: [Vec<u8>; AMOUNT_TILE_MAP],
    pub current_map: u32,
    pub current_tile: u32,
}

impl TileMaps {
    /// Blank tile maps with the first map and tile selected.
    pub fn new() -> (t: TileMaps)
        ensures
            forall|i: int| 0 <= i < AMOUNT_TILE_MAP ==> #[trigger] t.tile_maps@[i]@ == zeros(
                TILE_MAP_SIZE as nat,
            ),
            t.current_map == 0,
            t.current_tile == 0,
    {
        TileMaps {
            tile_maps: [
                zeroed(TILE_MAP_SIZE),
                zeroed(TILE_MAP_SIZE),
                zeroed(TILE_MAP_SIZE),
                zeroed(TILE_MAP_SIZE),
            ],
            current_map: 0,
            current_tile: 0,
        }
    }
}

/// The light and dark font sheets and which one is in use.
pub struct FontMap {
    pub font_map_light: Vec<u8>,
    pub font_map_dark: Vec<u8>,
    pub current_map_light: bool,
}

impl FontMap {
    /// Blank font sheets with the light one in use.
    pub fn new() -> (f: FontMap)
        ensures
            f.font_map_light@ == zeros(FONT_SIZE as nat),
            f.font_map_dark@ == zeros(FONT_SIZE as nat),
            f.current_map_light,
    {
        FontMap {
            font_map_light: zeroed(FONT_SIZE),
            font_map_dark: zeroed(FONT_SIZE),
            current_map_light: true,
        }
    }
}

/// Prepares the textures; there is nothing to prepare yet.
pub fn init_textures() {
}

/// Draws the layers; drawing always succeeds so far.
pub fn draw() -> (r: Result<(), String>)
    ensures
        r is Ok,
{
    Ok(())
}

} // verus!
