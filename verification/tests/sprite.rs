use ctrait::rect::Rect;
use ctrait::sprite::Sprite;

#[test]
fn sprite_new() {
    let sprite = Sprite::new("image.png", &Rect::from_center(20, 20, 5, 5));
    assert_eq!(sprite.path, "image.png");
}

#[test]
fn sprite_keeps_rect() {
    let rect = Rect::from_center(20, 20, 6, 6);
    let sprite = Sprite::new("image.png", &rect);
    assert_eq!(sprite.rect, rect);
}
