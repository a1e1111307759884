use lumi2d::objects::{Color, Object, Rect, Rounding, color_from_rgba};
use lumi2d::scale::{Scale, descale_i32, descale_u32, scale_i32, scale_u32};
use lumi2d::structs::{Dimensions, Position};
use lumi2d::window::{Window, WinitWindow, WindowId};

fn rect_of(object: Object) -> Rect {
    match object {
        Object::Rectangle { rect, .. } => rect,
        _ => panic!("expected a rectangle"),
    }
}

#[test]
fn scaling_by_one_is_identity() {
    let object = Object::rectangle(10, 10, 100, 50, 0xFFFFFFFF, None);
    let scaled = object.scale_by(Scale::one());
    assert_eq!(rect_of(scaled), Object::rect(10, 10, 100, 50));
}

#[test]
fn scaling_by_two_doubles_every_field() {
    let object = Object::rectangle(10, 10, 100, 50, 0xFFFFFFFF, None);
    let scaled = object.scale_by(Scale::from_millis(2000));
    assert_eq!(rect_of(scaled), Object::rect(20, 20, 200, 100));
}

#[test]
fn scaling_by_half_rounds_to_nearest() {
    let object = Object::rectangle(10, 10, 100, 50, 0xFFFFFFFF, None);
    let scaled = object.scale_by(Scale::from_millis(500));
    assert_eq!(rect_of(scaled), Object::rect(5, 5, 50, 25));

    // Halves round away from zero, in both directions.
    let odd = Object::rectangle(3, -3, 5, 7, 0, None);
    let scaled_odd = odd.scale_by(Scale::from_millis(500));
    assert_eq!(rect_of(scaled_odd), Object::rect(2, -2, 3, 4));
}

#[test]
fn text_size_scales_linearly_position_rounds() {
    let object = Object::text(7, 9, "hi".to_string(), None, 16000, 0xFF0000FF);
    match object.scale_by(Scale::from_millis(1500)) {
        Object::Text { size_millis, position, .. } => {
            assert_eq!(size_millis, 24000);
            assert_eq!(position, Position::new(11, 14));
        }
        _ => panic!("expected text"),
    }
}

#[test]
fn scale_helpers_round_and_saturate() {
    assert_eq!(scale_i32(10, Scale::from_millis(500)), 5);
    assert_eq!(scale_i32(-3, Scale::from_millis(500)), -2);
    assert_eq!(scale_u32(50, Scale::from_millis(500)), 25);
    assert_eq!(scale_u32(u32::MAX, Scale::from_millis(4000)), u32::MAX);
    assert_eq!(descale_i32(100, Scale::from_millis(2000)), 50);
    assert_eq!(descale_u32(75, Scale::from_millis(500)), 150);
    // 5 physical pixels at scale 3.0 is 5/3 = 1.666...: nearest is 2.
    assert_eq!(descale_u32(5, Scale::from_millis(3000)), 2);
}

#[test]
fn scale_with_uses_window_current_scale() {
    let window = Window::Winit(WinitWindow {
        id: WindowId::Winit(1),
        physical: Dimensions::new(800, 600),
        target_scale: Scale::one(),
        current_scale: Scale::from_millis(2000),
    });
    let object = Object::rectangle(1, 2, 3, 4, 0, None);
    assert_eq!(rect_of(object.scale_with(&window)), Object::rect(2, 4, 6, 8));
}

#[test]
fn window_dimensions_descale_physical() {
    let mut window = Window::Winit(WinitWindow {
        id: WindowId::Winit(7),
        physical: Dimensions::new(800, 601),
        target_scale: Scale::from_millis(2000),
        current_scale: Scale::from_millis(2000),
    });
    assert_eq!(window.physical_dimensions(), Dimensions::new(800, 601));
    // 601 / 2 = 300.5: halves round away from zero.
    assert_eq!(window.dimensions(), Dimensions::new(400, 301));
    window.set_scale(Scale::one());
    assert_eq!(window.dimensions(), Dimensions::new(800, 601));
    assert_eq!(window.target_scale(), Scale::from_millis(2000));
    assert_eq!(window.id(), WindowId::Winit(7));
}

#[test]
fn rounding_constructors_fill_corners() {
    assert_eq!(Rounding::new_uniform(3), Rounding::new(3, 3, 3, 3));
    assert_eq!(Rounding::new_horizontal(1, 2), Rounding::new(1, 1, 2, 2));
    assert_eq!(Rounding::new_vertical(1, 2), Rounding::new(1, 2, 1, 2));
}

#[test]
fn color_channels_unpack() {
    let c = color_from_rgba(0x11223344);
    assert_eq!(c, Color { r: 0x11, g: 0x22, b: 0x33, a: 0x44 });
}
