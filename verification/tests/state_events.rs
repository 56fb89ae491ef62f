use cam_vis::geometry::Extent;
use cam_vis::geometry::Frac;
use cam_vis::geometry::Scale;
use cam_vis::geometry::ndc_offset;
use cam_vis::geometry::scaled_length;
use cam_vis::present::ConfigError;
use cam_vis::present::PresentMode;
use cam_vis::present::parse_mode;
use cam_vis::state::RenderState;
use cam_vis::state::WindowEvent;
use cam_vis::state::drain_events;
use cam_vis::state::handle;

fn start_state() -> RenderState {
    RenderState::initial(Extent { width: 612, height: 512 }, Scale { num: 1, den: 1 })
}

#[test]
fn parse_mode_recognizes_all_options() {
    assert_eq!(parse_mode("immediate"), Ok(PresentMode::Immediate));
    assert_eq!(parse_mode("mailbox"), Ok(PresentMode::Mailbox));
    assert_eq!(parse_mode("fifo"), Ok(PresentMode::Fifo));
    assert_eq!(parse_mode("relaxed"), Ok(PresentMode::Relaxed));
}

#[test]
fn parse_mode_rejects_unknown_input() {
    assert_eq!(parse_mode(""), Err(ConfigError::UnknownPresentMode));
    assert_eq!(parse_mode("Fifo"), Err(ConfigError::UnknownPresentMode));
    assert_eq!(parse_mode("vsync"), Err(ConfigError::UnknownPresentMode));
}

#[test]
fn default_mode_is_fifo() {
    assert_eq!(PresentMode::default(), PresentMode::Fifo);
}

#[test]
fn close_request_sets_termination_flag() {
    let mut s = start_state();
    assert!(!s.termination_requested);
    handle(WindowEvent::CloseRequested, &mut s);
    assert!(s.termination_requested);
}

#[test]
fn scale_change_replaces_scale_factor() {
    let mut s = start_state();
    handle(WindowEvent::ScaleFactorChanged { scale: Scale { num: 3, den: 2 } }, &mut s);
    assert_eq!(s.scale, Scale { num: 3, den: 2 });
    assert!(!s.surface_invalid);
}

#[test]
fn resize_invalidates_surface_and_records_size() {
    let mut s = start_state();
    handle(WindowEvent::Resized { width: 800, height: 600 }, &mut s);
    assert!(s.surface_invalid);
    assert_eq!(s.window_width, 800);
    assert_eq!(s.window_height, 600);
    // the draw offset and the viewport are untouched
    assert_eq!(s.offset_x, Frac { num: 0, den: 1 });
    assert_eq!(s.viewport_state, start_state().viewport_state);
}

#[test]
fn pointer_at_center_gives_zero_offset() {
    let mut s = start_state();
    handle(WindowEvent::PointerMoved { x: 306, y: 256 }, &mut s);
    assert_eq!(s.offset_x.num, 0);
    assert_eq!(s.offset_y.num, 0);
    assert_eq!(s.offset_x.den, 612);
    assert_eq!(s.offset_y.den, 512);
}

#[test]
fn pointer_at_corners_gives_unit_offsets() {
    let mut s = start_state();
    handle(WindowEvent::PointerMoved { x: 0, y: 0 }, &mut s);
    // (2*0 - w) / w == -1 on each axis
    assert_eq!(s.offset_x.num, -s.offset_x.den);
    assert_eq!(s.offset_y.num, -s.offset_y.den);
    handle(WindowEvent::PointerMoved { x: 612, y: 512 }, &mut s);
    // (2*w - w) / w == 1 on each axis
    assert_eq!(s.offset_x.num, s.offset_x.den);
    assert_eq!(s.offset_y.num, s.offset_y.den);
}

#[test]
fn unrecognized_events_are_ignored() {
    let mut s = start_state();
    let before = s;
    handle(WindowEvent::Other, &mut s);
    assert_eq!(s, before);
}

#[test]
fn drain_applies_events_in_order() {
    let mut s = start_state();
    let events = vec![
        WindowEvent::Resized { width: 100, height: 50 },
        WindowEvent::PointerMoved { x: 25, y: 25 },
    ];
    drain_events(&mut s, &events);
    // the pointer offset uses the size the resize just recorded
    assert_eq!(s.offset_x.num, 2 * 25 - 100);
    assert_eq!(s.offset_x.den, 100);
    assert_eq!(s.offset_y.num, 0);
    assert!(s.surface_invalid);
}

#[test]
fn drain_of_nothing_changes_nothing() {
    let mut s = start_state();
    handle(WindowEvent::PointerMoved { x: 10, y: 20 }, &mut s);
    let before = s;
    drain_events(&mut s, &Vec::new());
    assert_eq!(s, before);
}

#[test]
fn ndc_offset_is_exact() {
    assert_eq!(ndc_offset(306, 612), Frac { num: 0, den: 612 });
    assert_eq!(ndc_offset(0, 300), Frac { num: -300, den: 300 });
    assert_eq!(ndc_offset(300, 300), Frac { num: 300, den: 300 });
    assert_eq!(ndc_offset(75, 100), Frac { num: 50, den: 100 });
}

#[test]
fn scaled_length_follows_the_formula() {
    // floor(len * num / den)
    assert_eq!(scaled_length(100, Scale { num: 3, den: 2 }), 150);
    assert_eq!(scaled_length(101, Scale { num: 3, den: 2 }), 151);
    assert_eq!(scaled_length(612, Scale { num: 1, den: 1 }), 612);
    assert_eq!(scaled_length(5, Scale { num: 1, den: 3 }), 1);
}

#[test]
fn scaled_length_clamps_to_u32() {
    assert_eq!(scaled_length(-4, Scale { num: 2, den: 1 }), 0);
    assert_eq!(scaled_length(0, Scale { num: 2, den: 1 }), 0);
    assert_eq!(scaled_length(i64::MAX, Scale { num: u32::MAX, den: 1 }), u32::MAX);
}
