// The evaluation state machine: reload/redraw decisions, failure semantics
// and steady-state idleness, driven the way a host shell drives it.

use plotbridge::bridge::{Bridge, TickState};
use plotbridge::color::Rgb;
use plotbridge::controls::{Control, ControlValue};
use plotbridge::diag::LogKind;
use plotbridge::geom::Point;

// One successful reload + redraw of a "script" that declares a slider and a
// colorpicker in setup and draws one curve and one vector in draw.
fn run_good_tick(b: &mut Bridge, source: &str) {
    assert_eq!(
        b.decide(&source.to_string(), false, false),
        TickState::NeedsFullReload
    );
    b.begin_reload(source.to_string());
    // ... the engine evaluates the source and runs setup(), during which the
    // host functions declare into the staging registry:
    b.staging_controls
        .register_slider("radius".to_string(), Some(500_000), Some(5_000_000), None, Some(1_000_000));
    b.staging_controls
        .register_colorpicker("tint".to_string(), Some(Rgb { r: 10, g: 20, b: 30 }));
    assert!(b.finish_setup(None));
    // A reload always falls through into a redraw.
    let bindings = b.begin_redraw();
    assert_eq!(bindings.len(), 2);
    b.staging_frame.push_curve(
        "curve".to_string(),
        vec![Some(Point { x: 0, y: 0 }), Some(Point { x: 1, y: 1 })],
        None,
        None,
    );
    b.staging_frame.push_vector(
        "arrow".to_string(),
        Some(Point { x: 0, y: 0 }),
        Some(Point { x: 1_000_000, y: 0 }),
        None,
        None,
    );
    b.finish_redraw(None);
}

#[test]
fn first_tick_forces_full_reload() {
    let b = Bridge::new();
    assert_eq!(b.decide(&String::new(), false, false), TickState::NeedsFullReload);
}

#[test]
fn reload_promotes_staged_controls_and_frame() {
    let mut b = Bridge::new();
    run_good_tick(&mut b, "script-v1");
    assert_eq!(b.controls.len(), 2);
    assert_eq!(b.frame.curves.len(), 1);
    assert_eq!(b.frame.vectors.len(), 1);
    let v = &b.frame.vectors[0];
    assert_eq!((v.tip.x, v.tip.y), (1_000_000, 0));
    let (p1, p2) = v.head.expect("head expected");
    assert_eq!((p1.x, p1.y), (864_855, -65_082));
    assert_eq!((p2.x, p2.y), (864_855, 65_082));
    // Defaults of the vector style.
    assert_eq!((v.color.r, v.color.g, v.color.b), (0, 150, 200));
    assert_eq!(v.weight, 1_500_000);
}

#[test]
fn steady_tick_is_idle_and_changes_nothing() {
    let mut b = Bridge::new();
    run_good_tick(&mut b, "script-v1");
    let points_before = b.frame.curves[0].points.clone();
    // No source change, no control change: Idle, again and again; an Idle
    // tick performs no script work, so every output stays byte-identical.
    for _ in 0..3 {
        assert_eq!(b.decide(&"script-v1".to_string(), false, false), TickState::Idle);
    }
    assert_eq!(b.frame.curves.len(), 1);
    assert_eq!(b.frame.curves[0].points, points_before);
    assert_eq!(b.frame.vectors.len(), 1);
    assert_eq!(b.controls.len(), 2);
    assert_eq!(b.log.len(), 0);
}

#[test]
fn source_change_and_rerun_force_reload() {
    let mut b = Bridge::new();
    run_good_tick(&mut b, "script-v1");
    assert_eq!(
        b.decide(&"script-v2".to_string(), false, false),
        TickState::NeedsFullReload
    );
    assert_eq!(b.decide(&"script-v1".to_string(), true, false), TickState::NeedsFullReload);
}

#[test]
fn control_change_forces_redraw_only() {
    let mut b = Bridge::new();
    run_good_tick(&mut b, "script-v1");
    assert_eq!(
        b.decide(&"script-v1".to_string(), false, true),
        TickState::NeedsRedrawOnly
    );
}

#[test]
fn redraw_keeps_adjusted_control_values() {
    let mut b = Bridge::new();
    run_good_tick(&mut b, "script-v1");
    // The user drags the slider.
    assert!(b.controls.set_value(&"radius".to_string(), ControlValue::Num(2_500_000)));
    // A redraw-only tick: injection, draw, swap.
    let bindings = b.begin_redraw();
    assert_eq!(bindings[0].1, ControlValue::Num(2_500_000));
    b.staging_frame.push_curve("curve".to_string(), vec![Some(Point { x: 5, y: 5 })], None, None);
    b.finish_redraw(None);
    // The adjusted value survived the redraw untouched.
    match &b.controls.items[0] {
        Control::Slider(s) => assert_eq!(s.value, 2_500_000),
        _ => panic!("expected a slider"),
    }
    assert_eq!(b.frame.curves.len(), 1);
    assert_eq!(b.frame.curves[0].points.len(), 1);
}

#[test]
fn load_error_preserves_controls_and_frame() {
    let mut b = Bridge::new();
    run_good_tick(&mut b, "script-v1");
    // The user types a broken script: reload starts, the engine reports a
    // parse error, and everything previously rendered stays.
    b.begin_reload("script-v2-with-typo".to_string());
    b.fail_load("SyntaxError: unexpected token".to_string());
    assert_eq!(b.controls.len(), 2);
    assert_eq!(b.frame.curves.len(), 1);
    assert_eq!(b.frame.vectors.len(), 1);
    assert_eq!(b.log.len(), 1);
    assert_eq!(b.log.entries[0].kind, LogKind::Stderr);
    assert!(!b.log.entries[0].message.is_empty());
    // The broken source counts as evaluated: no reload loop.
    assert_eq!(
        b.decide(&"script-v2-with-typo".to_string(), false, false),
        TickState::Idle
    );
}

#[test]
fn setup_error_keeps_last_good_controls() {
    let mut b = Bridge::new();
    run_good_tick(&mut b, "script-v1");
    b.begin_reload("script-v2".to_string());
    b.staging_controls.register_slider("other".to_string(), None, None, None, None);
    assert!(!b.finish_setup(Some("TypeError: setup exploded".to_string())));
    // Last good controls survive; the error is in the log.
    assert_eq!(b.controls.len(), 2);
    match &b.controls.items[0] {
        Control::Slider(s) => assert_eq!(s.name, "radius"),
        _ => panic!("expected a slider"),
    }
    assert_eq!(b.log.len(), 1);
    assert_eq!(b.log.entries[0].kind, LogKind::Stderr);
}

#[test]
fn draw_error_discards_partial_frame() {
    let mut b = Bridge::new();
    run_good_tick(&mut b, "script-v1");
    let _ = b.begin_redraw();
    // draw() emits one polygon and then throws.
    b.staging_frame.push_polygon(
        "tri".to_string(),
        vec![Point { x: 0, y: 0 }, Point { x: 10, y: 0 }, Point { x: 0, y: 10 }],
        None,
        None,
        None,
    );
    b.finish_redraw(Some("RangeError: boom".to_string()));
    // The half-built frame is gone; the previous frame is still shown.
    assert_eq!(b.frame.polygons.len(), 0);
    assert_eq!(b.frame.curves.len(), 1);
    assert_eq!(b.frame.vectors.len(), 1);
    assert_eq!(b.log.len(), 1);
    assert_eq!(b.log.entries[0].kind, LogKind::Stderr);
}

#[test]
fn empty_frame_forces_redraw() {
    let mut b = Bridge::new();
    b.begin_reload("draws-nothing".to_string());
    assert!(b.finish_setup(None));
    let _ = b.begin_redraw();
    b.finish_redraw(None);
    // Nothing was drawn, so the next tick redraws rather than idling.
    assert_eq!(
        b.decide(&"draws-nothing".to_string(), false, false),
        TickState::NeedsRedrawOnly
    );
}

#[test]
fn malformed_vector_emits_nothing() {
    let mut b = Bridge::new();
    b.begin_reload("s".to_string());
    assert!(b.finish_setup(None));
    let _ = b.begin_redraw();
    b.staging_frame.push_vector("bad".to_string(), None, Some(Point { x: 1, y: 1 }), None, None);
    b.staging_frame.push_vector("bad2".to_string(), Some(Point { x: 1, y: 1 }), None, None, None);
    b.finish_redraw(None);
    assert_eq!(b.frame.vectors.len(), 0);
}

#[test]
fn degenerate_vector_renders_body_only() {
    let mut b = Bridge::new();
    b.begin_reload("s".to_string());
    assert!(b.finish_setup(None));
    let _ = b.begin_redraw();
    // A delta below the degenerate threshold (here: the zero vector once
    // quantized to micro-units) still emits the body, with no head.
    b.staging_frame.push_vector(
        "tiny".to_string(),
        Some(Point { x: 300_000, y: 400_000 }),
        Some(Point { x: 0, y: 0 }),
        None,
        None,
    );
    b.finish_redraw(None);
    assert_eq!(b.frame.vectors.len(), 1);
    let v = &b.frame.vectors[0];
    assert_eq!((v.origin.x, v.origin.y), (300_000, 400_000));
    assert_eq!((v.tip.x, v.tip.y), (300_000, 400_000));
    assert!(v.head.is_none());
}

#[test]
fn script_output_lands_in_the_log() {
    let mut b = Bridge::new();
    b.begin_reload("s".to_string());
    b.log.push_stdout("hello".to_string());
    b.log.push_stderr("careful".to_string());
    assert_eq!(b.log.len(), 2);
    assert_eq!(b.log.entries[0].kind, LogKind::Stdout);
    assert_eq!(b.log.entries[0].message, "hello");
    assert_eq!(b.log.entries[1].kind, LogKind::Stderr);
    // A new reload clears the log.
    b.begin_reload("s2".to_string());
    assert_eq!(b.log.len(), 0);
}

#[test]
fn polygon_style_defaults() {
    let mut b = Bridge::new();
    b.begin_reload("s".to_string());
    assert!(b.finish_setup(None));
    let _ = b.begin_redraw();
    b.staging_frame.push_polygon(
        "tri".to_string(),
        vec![Point { x: 0, y: 0 }, Point { x: 10, y: 0 }, Point { x: 0, y: 10 }],
        None,
        None,
        None,
    );
    b.finish_redraw(None);
    let p = &b.frame.polygons[0];
    assert_eq!(p.vertices.len(), 3);
    assert_eq!((p.stroke.r, p.stroke.g, p.stroke.b), (0, 0, 0));
    assert_eq!((p.fill.r, p.fill.g, p.fill.b), (128, 128, 255));
    assert_eq!(p.weight, 1_500_000);
}
