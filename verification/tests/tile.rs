use ctrait::math::Vec2;
use ctrait::rect::Color;
use ctrait::tile::{Tile, Tilemap, TilemapLayout};

#[test]
fn tile_layout_default() {
    // The default layout has one cell per grid position.
    let tile_layout = TilemapLayout::<2, 3>::default();
    assert_eq!(tile_layout.0.len(), 6);
    // By default, all tiles in the layout should be None.
    assert!(tile_layout.0.iter().all(|&tile| tile.is_none()));
}

#[test]
fn tile_layout_new() {
    let tile_layout = TilemapLayout::<3, 2>::new(&[None; 6]).unwrap();
    assert_eq!(tile_layout.0.len(), 6);
}

#[test]
fn tile_layout_new_error() {
    let result = TilemapLayout::<3, 2>::new(&[None]);
    assert!(result.is_err());
}

#[test]
fn tile_layout_index() {
    let tile_layout = TilemapLayout::<2, 2>::new(&[None, None, Some(0), None]).unwrap();
    assert_eq!(tile_layout.get(1, 0), Some(0));
}

#[test]
fn tile_layout_index_mut() {
    let mut tile_layout = TilemapLayout::<2, 2>::new(&[None, None, None, None]).unwrap();
    tile_layout.set(1, 0, Some(0));
    assert_eq!(tile_layout.get(1, 0), Some(0));
}

#[test]
fn tile_layout_get_out_of_bounds() {
    let tile_layout = TilemapLayout::<2, 2>::new(&[Some(1); 4]).unwrap();
    assert_eq!(tile_layout.get(2, 0), None);
    assert_eq!(tile_layout.get(0, 2), None);
}

#[test]
fn tilemap_new() {
    let tilemap = Tilemap::<10, 5>::new(
        vec![
            Tile::Color(Color::rgb(255, 0, 0)),
            Tile::Sprite(String::from("texture.png")),
        ],
        64,
    );
    assert_eq!(tilemap.position, Vec2 { x: 0, y: 0 });
    assert_eq!(tilemap.layout, TilemapLayout::default());
    assert_eq!(
        tilemap.tile_set,
        vec![
            Tile::Color(Color::rgb(255, 0, 0)),
            Tile::Sprite(String::from("texture.png"))
        ]
    );
    assert_eq!(tilemap.tile_size, 64);
}

#[test]
fn tilemap_with_position() {
    let tilemap = Tilemap::<1, 1>::new(vec![], 0).with_position(&Vec2 { x: 5, y: 3 });
    assert_eq!(tilemap.position, Vec2 { x: 5, y: 3 });
}

#[test]
fn tilemap_with_layout() {
    let tile_layout = TilemapLayout::<1, 2>::new(&[None, None]).unwrap();
    let tilemap = Tilemap::new(vec![], 0).with_layout(tile_layout.clone());
    assert_eq!(tilemap.layout, tile_layout);
}
