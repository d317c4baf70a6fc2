use mir2_client::controls::control::{clamp_unit, MirControl};
use mir2_client::controls::types::{BlendMode, Color, Point, Size};

#[test]
fn test_control_creation() {
    let control = MirControl::new();
    assert_eq!(control.location(), Point::new(0, 0));
    assert_eq!(control.size(), Size::zero());
    assert!(control.visible());
    assert!(control.enabled());
}

#[test]
fn test_control_builder() {
    let control = MirControl::new()
        .with_location(Point::new(10, 20))
        .with_size(Size::new(100, 50))
        .with_back_color(Color::red())
        .with_visible(false);

    assert_eq!(control.location(), Point::new(10, 20));
    assert_eq!(control.size(), Size::new(100, 50));
    assert_eq!(control.back_color(), Color::red());
    assert!(!control.visible());
}

#[test]
fn test_control_properties() {
    let mut control = MirControl::new();

    control.set_location(Point::new(50, 100));
    assert_eq!(control.location(), Point::new(50, 100));

    control.set_size(Size::new(200, 150));
    assert_eq!(control.size(), Size::new(200, 150));

    control.set_visible(false);
    assert!(!control.visible());

    control.set_enabled(false);
    assert!(!control.enabled());
}

#[test]
fn test_control_colors() {
    let mut control = MirControl::new();

    control.set_back_color(Color::blue());
    assert_eq!(control.back_color(), Color::blue());

    control.set_fore_color(Color::yellow());
    assert_eq!(control.fore_color(), Color::yellow());

    control.set_border_color(Color::green());
    assert_eq!(control.border_color(), Color::green());
}

#[test]
fn test_display_rectangle() {
    let control = MirControl::new().with_location(Point::new(10, 20)).with_size(Size::new(100, 50));

    let rect = control.display_rectangle();
    assert_eq!(rect.left(), 10);
    assert_eq!(rect.top(), 20);
    assert_eq!(rect.right(), 110);
    assert_eq!(rect.bottom(), 70);
}

#[test]
fn test_children() {
    let mut parent = MirControl::new();
    let child1 = MirControl::new();
    let child2 = MirControl::new();

    parent.add_child(child1);
    parent.add_child(child2);

    assert_eq!(parent.children().len(), 2);

    parent.remove_child(0);
    assert_eq!(parent.children().len(), 1);
}

#[test]
fn test_visual_effects() {
    let mut control = MirControl::new();

    control.set_gray_scale(true);
    assert!(control.gray_scale());

    control.set_blending(true);
    assert!(control.blending());

    control.set_blending_rate(0.5f32.to_bits());
    assert_eq!(f32::from_bits(control.blending_rate()), 0.5);

    control.set_blend_mode(BlendMode::Additive);
    assert_eq!(control.blend_mode(), BlendMode::Additive);
}

#[test]
fn blending_rate_clamps_like_f32_clamp() {
    let samples = [
        -1.0f32, -0.0, 0.0, 0.25, 1.0, 1.0000001, 2.0, 1e30, -1e-40, f32::INFINITY, f32::NEG_INFINITY, 3e-39,
    ];
    for x in samples {
        assert_eq!(clamp_unit(x.to_bits()), x.clamp(0.0, 1.0).to_bits(), "x = {}", x);
    }
    assert!(f32::from_bits(clamp_unit(f32::NAN.to_bits())).is_nan());
}

#[test]
fn children_are_found_in_order() {
    let mut parent = MirControl::new();
    parent.add_child(MirControl::new().with_location(Point::new(1, 1)));
    parent.add_child(MirControl::new().with_location(Point::new(2, 2)).with_visible(false));
    parent.add_child(MirControl::new().with_location(Point::new(3, 3)).with_visible(false));
    let hidden = parent.find_child(|c| !c.visible()).unwrap();
    assert_eq!(hidden.location(), Point::new(2, 2));
    assert!(parent.find_child(|c| c.location() == Point::new(9, 9)).is_none());
    assert!(parent.remove_child(5).is_none());
    assert_eq!(parent.children().len(), 3);
}

#[test]
fn hint_and_name() {
    let mut c = MirControl::default();
    assert_eq!(c.hint(), "");
    c.set_hint(String::from("tooltip"));
    assert_eq!(c.hint(), "tooltip");
    assert_eq!(c.name(), "MirControl");
    assert!(c.is_really_visible() && c.is_really_enabled());
    assert_eq!(c.display_location(), Point::new(0, 0));
}

#[test]
fn children_can_be_changed_in_place() {
    let mut parent = MirControl::new();
    parent.children_mut().push(MirControl::new().with_location(Point::new(1, 2)));
    parent.children_mut().push(MirControl::new());
    assert_eq!(parent.children().len(), 2);
    assert_eq!(parent.children()[0].location(), Point::new(1, 2));
    parent.children_mut().clear();
    assert!(parent.children().is_empty());
}
