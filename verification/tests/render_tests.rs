use snow64::render::colors::{create_color, map_color, map_color_vec, BLACK, WHITE};
use snow64::render::commands;
use snow64::render::{
    draw, init_textures, layer_types, Entities, FontMap, Layer, Layers, TileMaps, LAYER_HEIGHT,
    LAYER_PITCH, LAYER_SIZE, LAYER_WIDTH, PIXEL_LAYER,
};

#[test]
fn create_color_packs_nibbles() {
    assert_eq!(create_color(0x1, 0x2, 0x3, 0x4), 0x1234);
    assert_eq!(create_color(15, 15, 15, 15), 0xffff);
    assert_eq!(create_color(0, 0, 0, 15), 0x000f);
}

#[test]
fn create_color_keeps_low_nibble_only() {
    assert_eq!(create_color(0xab, 0xcd, 0xef, 0x12), 0xbdf2);
}

#[test]
fn map_color_expands_nibbles() {
    assert_eq!(map_color(0x1234), (17, 34, 51, 68));
    assert_eq!(map_color(0xf00f), (255, 0, 0, 255));
}

#[test]
fn map_color_vec_matches_map_color() {
    assert_eq!(map_color_vec(0x8a5f), vec![136, 170, 85, 255]);
}

#[test]
fn named_colors() {
    assert_eq!(WHITE, create_color(15, 15, 15, 15));
    assert_eq!(BLACK, create_color(0, 0, 0, 15));
    assert_eq!(map_color(WHITE), (255, 255, 255, 255));
    assert_eq!(map_color(BLACK), (0, 0, 0, 255));
}

#[test]
fn map_then_create_round_trips() {
    for c in [0u16, 1, 0x1234, 0xbeef, 0xffff, 0x0f0f] {
        let (r, g, b, a) = map_color(c);
        assert_eq!(create_color(r / 17, g / 17, b / 17, a / 17), c);
    }
}

#[test]
fn command_create_color_matches() {
    assert_eq!(commands::create_color(3, 4, 5, 6), 0x3456);
}

#[test]
fn layer_types_in_order() {
    assert_eq!(layer_types(0), Layer::Tile);
    assert_eq!(layer_types(1), Layer::Entity);
    assert_eq!(layer_types(2), Layer::Tile);
    assert_eq!(layer_types(3), Layer::Entity);
    assert_eq!(layer_types(4), Layer::Text);
    assert_eq!(layer_types(5), Layer::Pixel);
}

#[test]
fn switch_layers_alternate() {
    let mut layers = Layers::new();
    assert_eq!(layers.current_entity_layer, 0);
    assert_eq!(commands::switch_entity_layer(&mut layers), 1);
    assert_eq!(commands::switch_entity_layer(&mut layers), 0);
    assert_eq!(commands::switch_tile_layer(&mut layers), 1);
    assert_eq!(layers.current_tile_layer, 1);
    assert_eq!(layers.current_entity_layer, 0);
    layers.current_tile_layer = 7;
    assert_eq!(commands::switch_tile_layer(&mut layers), 0);
}

#[test]
fn toggle_pixel_layer_twice_restores() {
    let mut layers = Layers::new();
    assert!(!layers.allow_pixel_layer);
    assert!(commands::toggle_pixel_layer(&mut layers));
    assert!(!commands::toggle_pixel_layer(&mut layers));
    assert!(!layers.allow_pixel_layer);
}

#[test]
fn draw_pixel_writes_color_when_enabled() {
    let mut layers = Layers::new();
    assert_eq!(layers.layers[PIXEL_LAYER].len(), LAYER_SIZE);
    commands::toggle_pixel_layer(&mut layers);
    commands::draw_pixel(&mut layers, 3, 2, 0xf00f);
    let off = 3 * 4 + 2 * LAYER_PITCH;
    assert_eq!(&layers.layers[PIXEL_LAYER][off..off + 4], &[255, 0, 0, 255]);
    assert_eq!(layers.layers[PIXEL_LAYER][off - 1], 0);
    assert_eq!(layers.layers[PIXEL_LAYER][off + 4], 0);
    assert_eq!(layers.layers[0][off], 0);
    commands::draw_pixel(&mut layers, 3, 2, 0x1234);
    assert_eq!(&layers.layers[PIXEL_LAYER][off..off + 4], &[17, 34, 51, 68]);
}

#[test]
fn draw_pixel_last_pixel_of_layer() {
    let mut layers = Layers::new();
    commands::toggle_pixel_layer(&mut layers);
    commands::draw_pixel(&mut layers, LAYER_WIDTH - 1, LAYER_HEIGHT - 1, WHITE);
    assert_eq!(&layers.layers[PIXEL_LAYER][LAYER_SIZE - 4..], &[255, 255, 255, 255]);
}

#[test]
fn draw_pixel_ignored_when_disabled() {
    let mut layers = Layers::new();
    commands::draw_pixel(&mut layers, 0, 0, WHITE);
    assert_eq!(&layers.layers[PIXEL_LAYER][0..4], &[0, 0, 0, 0]);
}

#[test]
fn other_stores_start_blank() {
    let e = Entities::new();
    assert_eq!(e.sprite_map.len(), 262144);
    assert!(e.sprite_map.iter().all(|b| *b == 0));
    assert!(e.e_map.is_empty());
    let t = TileMaps::new();
    assert_eq!(t.tile_maps[3].len(), 16384);
    assert_eq!(t.current_map, 0);
    let f = FontMap::new();
    assert_eq!(f.font_map_dark.len(), 32768);
    assert!(f.current_map_light);
}

#[test]
fn draw_succeeds() {
    init_textures();
    assert_eq!(draw(), Ok(()));
}

#[test]
fn separate_pixel_writes_commute() {
    let mut a = Layers::new();
    let mut b = Layers::new();
    commands::toggle_pixel_layer(&mut a);
    commands::toggle_pixel_layer(&mut b);
    commands::draw_pixel(&mut a, 10, 0, 0x1234);
    commands::draw_pixel(&mut a, 11, 0, 0xabcd);
    commands::draw_pixel(&mut b, 11, 0, 0xabcd);
    commands::draw_pixel(&mut b, 10, 0, 0x1234);
    assert_eq!(&a.layers[PIXEL_LAYER][40..48], &b.layers[PIXEL_LAYER][40..48]);
    assert_eq!(&a.layers[PIXEL_LAYER][40..48], &[17, 34, 51, 68, 170, 187, 204, 221]);
}

#[test]
fn kth_switch_from_start_is_parity() {
    let mut layers = Layers::new();
    for k in 1..=7u32 {
        assert_eq!(commands::switch_entity_layer(&mut layers), k % 2);
    }
}
