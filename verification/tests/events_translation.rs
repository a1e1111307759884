use lumi2d::events::{
    NativeEvent, NativeMouseButton, NativeScrollDelta, WindowEvent, translate_event,
};
use lumi2d::keys::{KeyAction, Modifiers, PhysicalKey, MOD_CONTROL, MOD_SHIFT};
use lumi2d::scale::Scale;
use lumi2d::structs::{Dimensions, Position};

#[test]
fn lifecycle_events_translate_one_to_one() {
    assert_eq!(translate_event(NativeEvent::RedrawRequested), Some(WindowEvent::Redraw));
    assert_eq!(translate_event(NativeEvent::CloseRequested), Some(WindowEvent::CloseRequested));
    assert_eq!(
        translate_event(NativeEvent::Focused(true)),
        Some(WindowEvent::FocusChange(true))
    );
    assert_eq!(
        translate_event(NativeEvent::DroppedFile("a.txt".to_string())),
        Some(WindowEvent::FileDropped("a.txt".to_string()))
    );
}

#[test]
fn geometry_events_stay_in_physical_space() {
    assert_eq!(
        translate_event(NativeEvent::CursorMoved { x: 3, y: 4 }),
        Some(WindowEvent::CursorPos(Position::new(3, 4)))
    );
    assert_eq!(
        translate_event(NativeEvent::Resized { width: 800, height: 600 }),
        Some(WindowEvent::WindowSize(Dimensions::new(800, 600)))
    );
    assert_eq!(
        translate_event(NativeEvent::Moved { x: -5, y: 9 }),
        Some(WindowEvent::WindowPos(Position::new(-5, 9)))
    );
}

#[test]
fn key_events_carry_action_and_text() {
    let pressed = NativeEvent::KeyboardInput {
        key: PhysicalKey::KeyA,
        text: Some("a".to_string()),
        pressed: true,
        repeat: false,
        synthetic: false,
    };
    assert_eq!(
        translate_event(pressed),
        Some(WindowEvent::Key(
            PhysicalKey::KeyA,
            Some("a".to_string()),
            KeyAction::Press,
            Modifiers::empty()
        ))
    );

    let repeated = NativeEvent::KeyboardInput {
        key: PhysicalKey::KeyA,
        text: None,
        pressed: true,
        repeat: true,
        synthetic: false,
    };
    assert!(matches!(
        translate_event(repeated),
        Some(WindowEvent::Key(PhysicalKey::KeyA, None, KeyAction::Hold, _))
    ));

    let released = NativeEvent::KeyboardInput {
        key: PhysicalKey::Escape,
        text: None,
        pressed: false,
        repeat: false,
        synthetic: false,
    };
    assert!(matches!(
        translate_event(released),
        Some(WindowEvent::Key(PhysicalKey::Escape, None, KeyAction::Release, _))
    ));
}

#[test]
fn unstable_events_are_dropped_not_forwarded() {
    // Synthetic key events, raw touch points, and standalone modifier
    // changes have no stable cross-backend meaning.
    let synthetic = NativeEvent::KeyboardInput {
        key: PhysicalKey::KeyA,
        text: None,
        pressed: true,
        repeat: false,
        synthetic: true,
    };
    assert_eq!(translate_event(synthetic), None);
    assert_eq!(translate_event(NativeEvent::Touch), None);
    assert_eq!(translate_event(NativeEvent::ModifiersChanged), None);
    assert_eq!(translate_event(NativeEvent::Other), None);
}

#[test]
fn mouse_buttons_number_consistently() {
    let cases = [
        (NativeMouseButton::Left, 1),
        (NativeMouseButton::Right, 2),
        (NativeMouseButton::Middle, 3),
        (NativeMouseButton::Back, 4),
        (NativeMouseButton::Forward, 5),
        (NativeMouseButton::Other(11), 11),
    ];
    for (button, number) in cases {
        assert_eq!(
            translate_event(NativeEvent::MouseInput { button, pressed: true }),
            Some(WindowEvent::MouseButton(number, KeyAction::Press))
        );
    }
    assert_eq!(
        translate_event(NativeEvent::MouseInput {
            button: NativeMouseButton::Left,
            pressed: false
        }),
        Some(WindowEvent::MouseButton(1, KeyAction::Release))
    );
}

#[test]
fn scroll_lines_scale_pixels_pass() {
    assert_eq!(
        translate_event(NativeEvent::MouseWheel(NativeScrollDelta::Lines { x: 1, y: -2 })),
        Some(WindowEvent::MouseScroll(10, -20))
    );
    assert_eq!(
        translate_event(NativeEvent::MouseWheel(NativeScrollDelta::Pixels { x: 7, y: 8 })),
        Some(WindowEvent::MouseScroll(7, 8))
    );
}

#[test]
fn scale_factor_change_carries_scale() {
    assert_eq!(
        translate_event(NativeEvent::ScaleFactorChanged { scale: Scale::from_millis(1500) }),
        Some(WindowEvent::ScaleFactor(Scale::from_millis(1500)))
    );
}

#[test]
fn scale_with_divides_only_scale_dependent_events() {
    let scale = Scale::from_millis(2000);
    assert_eq!(
        WindowEvent::WindowSize(Dimensions::new(800, 601)).scale_with(scale),
        WindowEvent::WindowSize(Dimensions::new(400, 301))
    );
    assert_eq!(
        WindowEvent::CursorPos(Position::new(-10, 15)).scale_with(scale),
        WindowEvent::CursorPos(Position::new(-5, 8))
    );
    assert_eq!(
        WindowEvent::MouseScroll(10, 10).scale_with(scale),
        WindowEvent::MouseScroll(10, 10)
    );
    assert_eq!(WindowEvent::Redraw.scale_with(scale), WindowEvent::Redraw);
}

#[test]
fn modifier_bits_combine() {
    let shift = Modifiers::from_bits(MOD_SHIFT);
    let both = shift.union(Modifiers::from_bits(MOD_CONTROL));
    assert!(both.contains(shift));
    assert!(both.contains(Modifiers::from_bits(MOD_CONTROL)));
    assert!(!shift.contains(both));
    assert_eq!(Modifiers::empty().bits, 0);
}
