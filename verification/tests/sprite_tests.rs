use graphics::draw_state::DrawState;
use graphics::math::Matrix2d;
use graphics::rectangle::Rectangle;
use opengl_graphics::Texture;
use sprites::DrawCommand;
use sprites::Positioned;
use sprites::RenderInfo;
use sprites::Sprite;
use sprites::SpriteDescriptor;

#[test]
fn fresh_sprite_defaults() {
    let s = Sprite::new();
    assert_eq!(s.get_position(), (0, 0));
    assert_eq!(s.w, 0);
    assert_eq!(s.h, 0);
    assert!(matches!(s.portrait, RenderInfo::Empty));
    assert_eq!(s.draw_state, DrawState::default());
}

#[test]
fn fresh_sprite_draws_nothing() {
    let s = Sprite::new();
    let id: Matrix2d = graphics::math::identity();
    let cmd = s.draw(id);
    assert!(cmd.is_none());
}

#[test]
fn set_then_get_returns_exactly_the_point() {
    let mut s = Sprite::new();
    s.set_position(3, -5);
    assert_eq!(s.get_position(), (3, -5));
    s.set_position(0, 0);
    assert_eq!(s.get_position(), (0, 0));
}

#[test]
fn shift_after_set_adds_the_offsets() {
    let mut s = Sprite::new();
    s.set_position(10, 20);
    s.shift_position(5, -7);
    assert_eq!(s.get_position(), (15, 13));
}

#[test]
fn shifts_accumulate() {
    let mut s = Sprite::new();
    s.set_position(-4, 4);
    s.shift_position(1, 1);
    s.shift_position(2, -2);
    assert_eq!(s.get_position(), (-1, 3));
}

#[test]
fn shift_reaches_the_extremes() {
    let mut s = Sprite::new();
    s.set_position(i64::MAX - 5, i64::MIN + 5);
    s.shift_position(5, -5);
    assert_eq!(s.get_position(), (i64::MAX, i64::MIN));
}

#[test]
fn rectangle_portrait_issues_one_rectangle_call() {
    let mut s = Sprite::new();
    s.set_position(1, 2);
    s.w = 3;
    s.h = 4;
    s.portrait = RenderInfo::Rectangle(Rectangle::new([0.25, 0.5, 0.75, 1.0]));
    let id: Matrix2d = graphics::math::identity();
    match s.draw(id) {
        Some(DrawCommand::Rectangle { rect, bounds, draw_state, transform }) => {
            assert_eq!(bounds, [1, 2, 3, 4]);
            assert_eq!(transform, id);
            assert_eq!(rect.color, [0.25, 0.5, 0.75, 1.0]);
            assert_eq!(*draw_state, s.draw_state);
        }
        _ => panic!("expected exactly one rectangle draw call"),
    }
}

#[test]
fn image_portrait_issues_one_image_call_per_draw() {
    let mut s = Sprite::new();
    s.set_position(5, 6);
    s.w = 7;
    s.h = 8;
    s.portrait = RenderInfo::new_image(Texture::new(42, 16, 16));
    let t1: Matrix2d = graphics::math::identity();
    let t2: Matrix2d = [[2.0, 0.0, 1.0], [0.0, 2.0, -1.0]];
    match s.draw(t1) {
        Some(DrawCommand::Image { texture, transform, .. }) => {
            assert_eq!(texture.get_id(), 42);
            assert_eq!(transform, t1);
        }
        _ => panic!("expected exactly one image draw call"),
    }
    match s.draw(t2) {
        Some(DrawCommand::Image { image, texture, transform, draw_state }) => {
            assert_eq!(texture.get_id(), 42);
            assert_eq!(transform, t2);
            assert!(image.color.is_none());
            assert_eq!(*draw_state, s.draw_state);
        }
        _ => panic!("expected exactly one image draw call"),
    }
    assert_eq!(s.get_position(), (5, 6));
    assert_eq!(s.w, 7);
    assert_eq!(s.h, 8);
    // The texture's drop calls into OpenGL, which no test harness has loaded.
    std::mem::forget(s);
}

#[test]
fn new_image_holds_the_given_texture() {
    let ri = RenderInfo::new_image(Texture::new(7, 2, 3));
    match &ri {
        RenderInfo::Image(img, tex) => {
            assert_eq!(tex.get_id(), 7);
            assert!(img.color.is_none());
            assert!(img.rectangle.is_none());
            assert!(img.source_rectangle.is_none());
        }
        _ => panic!("expected an image portrait"),
    }
    std::mem::forget(ri);
}
