// The control registry: declaration defaults, value write-back and slider
// quantization.

use plotbridge::color::Rgb;
use plotbridge::controls::{quantize_value, Control, ControlValue, Registry};

#[test]
fn slider_defaults_and_declared_values() {
    let mut reg = Registry::new();
    reg.register_slider("radius".to_string(), None, None, None, None);
    reg.register_slider(
        "speed".to_string(),
        Some(500_000),
        Some(5_000_000),
        Some(1_000),
        Some(1_000_000),
    );
    assert_eq!(reg.len(), 2);
    match &reg.items[0] {
        Control::Slider(s) => {
            assert_eq!(s.name, "radius");
            assert_eq!((s.min, s.max, s.step, s.value), (0, 1_000_000, 100_000, 0));
        }
        _ => panic!("expected a slider"),
    }
    match &reg.items[1] {
        Control::Slider(s) => {
            assert_eq!((s.min, s.max, s.step, s.value), (500_000, 5_000_000, 1_000, 1_000_000));
        }
        _ => panic!("expected a slider"),
    }
}

#[test]
fn slider_default_outside_bounds_is_kept() {
    // The declared default is stored even outside [min, max], honoring the
    // script's declared intent.
    let mut reg = Registry::new();
    reg.register_slider(
        "k".to_string(),
        Some(0),
        Some(1_000_000),
        None,
        Some(9_000_000),
    );
    match &reg.items[0] {
        Control::Slider(s) => assert_eq!(s.value, 9_000_000),
        _ => panic!("expected a slider"),
    }
}

#[test]
fn checkbox_default_is_true() {
    let mut reg = Registry::new();
    reg.register_checkbox("show".to_string(), "Show the shape".to_string(), None);
    reg.register_checkbox("grid".to_string(), "Grid".to_string(), Some(false));
    match &reg.items[0] {
        Control::Checkbox(cb) => {
            assert_eq!(cb.name, "show");
            assert_eq!(cb.label, "Show the shape");
            assert!(cb.value);
        }
        _ => panic!("expected a checkbox"),
    }
    match &reg.items[1] {
        Control::Checkbox(cb) => assert!(!cb.value),
        _ => panic!("expected a checkbox"),
    }
}

#[test]
fn colorpicker_roundtrip_and_default() {
    let mut reg = Registry::new();
    reg.register_colorpicker("c".to_string(), Some(Rgb { r: 10, g: 20, b: 30 }));
    reg.register_colorpicker("d".to_string(), None);
    match &reg.items[0] {
        Control::ColorPicker(p) => {
            assert_eq!(p.name, "c");
            assert_eq!((p.value.r, p.value.g, p.value.b), (10, 20, 30));
        }
        _ => panic!("expected a color picker"),
    }
    match &reg.items[1] {
        Control::ColorPicker(p) => {
            assert_eq!((p.value.r, p.value.g, p.value.b), (255, 255, 255));
        }
        _ => panic!("expected a color picker"),
    }
}

#[test]
fn set_value_hits_first_matching_kind() {
    let mut reg = Registry::new();
    reg.register_checkbox("x".to_string(), "flag".to_string(), None);
    reg.register_slider("x".to_string(), None, None, None, None);
    reg.register_slider("x".to_string(), None, None, None, Some(7));

    // A numeric write skips the checkbox and lands on the first slider.
    assert!(reg.set_value(&"x".to_string(), ControlValue::Num(123_456)));
    match &reg.items[1] {
        Control::Slider(s) => assert_eq!(s.value, 123_456),
        _ => panic!("expected a slider"),
    }
    match &reg.items[2] {
        Control::Slider(s) => assert_eq!(s.value, 7),
        _ => panic!("expected a slider"),
    }
    // The checkbox is untouched and still takes boolean writes.
    assert!(reg.set_value(&"x".to_string(), ControlValue::Flag(false)));
    match &reg.items[0] {
        Control::Checkbox(cb) => assert!(!cb.value),
        _ => panic!("expected a checkbox"),
    }
}

#[test]
fn set_value_unknown_name_changes_nothing() {
    let mut reg = Registry::new();
    reg.register_slider("a".to_string(), None, None, None, Some(5));
    assert!(!reg.set_value(&"b".to_string(), ControlValue::Num(9)));
    assert!(!reg.set_value(&"a".to_string(), ControlValue::Flag(true)));
    match &reg.items[0] {
        Control::Slider(s) => assert_eq!(s.value, 5),
        _ => panic!("expected a slider"),
    }
}

#[test]
fn bindings_carry_names_and_values_in_order() {
    let mut reg = Registry::new();
    reg.register_slider("r".to_string(), None, None, None, Some(250_000));
    reg.register_checkbox("show".to_string(), "Show".to_string(), None);
    reg.register_colorpicker("col".to_string(), Some(Rgb { r: 1, g: 2, b: 3 }));
    let b = reg.bindings();
    assert_eq!(b.len(), 3);
    assert_eq!(b[0].0, "r");
    assert_eq!(b[0].1, ControlValue::Num(250_000));
    assert_eq!(b[1].0, "show");
    assert_eq!(b[1].1, ControlValue::Flag(true));
    assert_eq!(b[2].0, "col");
    assert_eq!(b[2].1, ControlValue::ColorVal(Rgb { r: 1, g: 2, b: 3 }));
}

#[test]
fn quantization_snaps_to_step_grid() {
    // Grid min + n * step with ties away from zero, then clamped.
    assert_eq!(quantize_value(0, 1_000_000, 100_000, 437_000), 400_000);
    assert_eq!(quantize_value(0, 1_000_000, 100_000, 450_000), 500_000);
    assert_eq!(quantize_value(0, 1_000_000, 100_000, 2_000_000), 1_000_000);
    assert_eq!(quantize_value(0, 1_000_000, 100_000, -500_000), 0);
    // The grid is anchored at min.
    assert_eq!(quantize_value(50_000, 1_000_000, 100_000, 190_000), 150_000);
    // Non-positive step only clamps.
    assert_eq!(quantize_value(0, 1_000_000, 0, 437_001), 437_001);
}
