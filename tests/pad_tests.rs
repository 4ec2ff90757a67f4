use pen_canvas::canvas::{back_canvas, front_canvas, Rect};
use pen_canvas::mode::{DrawMode, InkColor};
use pen_canvas::pad::{
    Button, ButtonAction, ButtonEvent, PenAction, PenError, PenEvent, Sketchpad, Tool,
};
use pen_canvas::stroke::{PenPoint, PenSample};

fn draw(x: u32, y: u32, pressure: u16) -> PenEvent {
    PenEvent::Draw { sample: PenSample { point: PenPoint { x, y }, pressure } }
}

fn pad() -> Sketchpad {
    Sketchpad::new(front_canvas())
}

#[test]
fn canvas_contains_its_edges() {
    let c = front_canvas();
    assert_eq!(c, Rect { top: 74, left: 4, height: 896, width: 1396 });
    assert!(c.contains_point(PenPoint { x: 4, y: 74 }));
    assert!(c.contains_point(PenPoint { x: 1400, y: 970 }));
    assert!(!c.contains_point(PenPoint { x: 1401, y: 500 }));
    assert!(!c.contains_point(PenPoint { x: 3, y: 500 }));
    assert!(!c.contains_point(PenPoint { x: 500, y: 73 }));
    assert!(!c.contains_point(PenPoint { x: 500, y: 971 }));
    assert_eq!(back_canvas().top, 972);
    let huge = Rect { top: u32::MAX, left: u32::MAX, height: u32::MAX, width: u32::MAX };
    assert!(huge.contains_point(PenPoint { x: u32::MAX, y: u32::MAX }));
}

#[test]
fn new_pad_starts_idle() {
    let p = pad();
    assert_eq!(p.mode(), DrawMode::Draw(2));
    assert!(!p.in_range());
    assert!(!p.rubber_side());
    assert!(!p.pending_activation());
    assert_eq!(p.window_len(), 0);
    assert_eq!(p.canvas(), front_canvas());
}

#[test]
fn in_canvas_samples_render_from_the_third_on() {
    let mut p = pad();
    assert_eq!(p.on_wacom_input(draw(100, 100, 1000)), Ok(PenAction::Nothing));
    assert_eq!(p.on_wacom_input(draw(101, 101, 1000)), Ok(PenAction::Nothing));
    for i in 0..10u32 {
        match p.on_wacom_input(draw(102 + i, 102 + i, 1000)) {
            Ok(PenAction::Render(c)) => {
                assert_eq!(c.color, InkColor::Black);
                assert_eq!(c.ctrl_width, 2 * 2 * 1000);
            }
            other => panic!("expected a segment, got {:?}", other),
        }
        assert!(p.window_len() <= 2);
    }
}

#[test]
fn outside_samples_never_render() {
    let mut p = pad();
    p.on_wacom_input(draw(100, 100, 1000)).unwrap();
    p.on_wacom_input(draw(101, 101, 1000)).unwrap();
    assert_eq!(p.on_wacom_input(draw(100, 10, 1000)), Ok(PenAction::Nothing));
    assert_eq!(p.window_len(), 0);
    for y in [0u32, 10, 73, 971, 1500] {
        assert_eq!(p.on_wacom_input(draw(100, y, 1000)), Ok(PenAction::Nothing));
    }
}

#[test]
fn hover_then_tap_outside_activates_once() {
    let mut p = pad();
    assert_eq!(p.on_wacom_input(PenEvent::Hover { distance: 5 }), Ok(PenAction::Nothing));
    assert!(p.pending_activation());
    assert_eq!(p.on_wacom_input(draw(50, 20, 300)), Ok(PenAction::Activate(PenPoint { x: 50, y: 20 })));
    assert!(!p.pending_activation());
    assert_eq!(p.on_wacom_input(draw(50, 20, 300)), Ok(PenAction::Nothing));
    assert_eq!(p.on_wacom_input(draw(52, 21, 300)), Ok(PenAction::Nothing));
}

#[test]
fn close_hover_does_not_arm() {
    let mut p = pad();
    p.on_wacom_input(draw(100, 100, 1000)).unwrap();
    assert_eq!(p.on_wacom_input(PenEvent::Hover { distance: 1 }), Ok(PenAction::Nothing));
    assert!(!p.pending_activation());
    assert_eq!(p.window_len(), 1);
    assert_eq!(p.on_wacom_input(draw(50, 20, 300)), Ok(PenAction::Nothing));
}

#[test]
fn lift_and_hover_end_the_stroke() {
    let mut p = pad();
    p.on_wacom_input(draw(100, 100, 1000)).unwrap();
    p.on_wacom_input(draw(101, 101, 1000)).unwrap();
    let touch = |active| PenEvent::InstrumentChange { tool: Tool::Touch, active };
    assert_eq!(p.on_wacom_input(touch(true)), Ok(PenAction::Nothing));
    assert_eq!(p.window_len(), 2);
    assert_eq!(p.on_wacom_input(touch(false)), Ok(PenAction::Nothing));
    assert_eq!(p.window_len(), 0);
    p.on_wacom_input(draw(100, 100, 1000)).unwrap();
    p.on_wacom_input(PenEvent::Hover { distance: 2 }).unwrap();
    assert_eq!(p.window_len(), 0);
}

#[test]
fn tool_ends_set_range_and_rubber() {
    let mut p = pad();
    let change = |tool, active| PenEvent::InstrumentChange { tool, active };
    p.on_wacom_input(change(Tool::Rubber, true)).unwrap();
    assert!(p.in_range() && p.rubber_side());
    p.on_wacom_input(change(Tool::Pen, true)).unwrap();
    assert!(p.in_range() && !p.rubber_side());
    p.on_wacom_input(change(Tool::Rubber, false)).unwrap();
    assert!(!p.in_range() && p.rubber_side());
    assert_eq!(p.on_wacom_input(change(Tool::Stylus, true)), Err(PenError::UnsupportedTool));
    assert_eq!(p.on_wacom_input(change(Tool::Stylus2, false)), Err(PenError::UnsupportedTool));
    assert!(!p.in_range() && p.rubber_side());
    assert_eq!(p.on_wacom_input(PenEvent::Unknown), Ok(PenAction::Nothing));
}

#[test]
fn rubber_end_draws_white_at_fixed_width() {
    let mut p = pad();
    p.change_brush_width(40);
    p.on_wacom_input(PenEvent::InstrumentChange { tool: Tool::Rubber, active: true }).unwrap();
    p.on_wacom_input(draw(100, 100, 2048)).unwrap();
    p.on_wacom_input(draw(101, 100, 2048)).unwrap();
    match p.on_wacom_input(draw(102, 100, 2048)) {
        Ok(PenAction::Render(c)) => {
            assert_eq!(c.color, InkColor::White);
            assert_eq!(c.ctrl_width, 2 * 50 * 2048);
        }
        other => panic!("expected a segment, got {:?}", other),
    }
}

#[test]
fn buttons_change_the_brush() {
    let mut p = pad();
    assert_eq!(p.on_button_press(ButtonEvent::Press(Button::Middle)), ButtonAction::Nothing);
    assert_eq!(p.mode(), DrawMode::Draw(3));
    p.on_button_press(ButtonEvent::Press(Button::Left));
    p.on_button_press(ButtonEvent::Press(Button::Left));
    p.on_button_press(ButtonEvent::Press(Button::Left));
    assert_eq!(p.mode(), DrawMode::Draw(1));
    p.on_button_press(ButtonEvent::Press(Button::Right));
    assert_eq!(p.mode(), DrawMode::Erase(1));
    p.on_button_press(ButtonEvent::Unpress(Button::Right));
    assert_eq!(p.mode(), DrawMode::Erase(1));
    assert_eq!(p.on_button_press(ButtonEvent::Press(Button::Power)), ButtonAction::LaunchHost);
    assert_eq!(p.on_button_press(ButtonEvent::Press(Button::Wakeup)), ButtonAction::Wakeup);
    assert_eq!(p.on_button_press(ButtonEvent::Unknown), ButtonAction::Nothing);
}

#[test]
fn buttons_are_ignored_while_the_stylus_is_in_range() {
    let mut p = pad();
    p.on_wacom_input(PenEvent::InstrumentChange { tool: Tool::Pen, active: true }).unwrap();
    assert_eq!(p.on_button_press(ButtonEvent::Press(Button::Right)), ButtonAction::Nothing);
    assert_eq!(p.on_button_press(ButtonEvent::Press(Button::Power)), ButtonAction::Nothing);
    assert_eq!(p.mode(), DrawMode::Draw(2));
}

#[test]
fn width_and_eraser_commands() {
    let mut p = pad();
    p.change_brush_width(-5);
    assert_eq!(p.mode(), DrawMode::Draw(1));
    p.change_brush_width(500);
    assert_eq!(p.mode(), DrawMode::Draw(99));
    p.change_brush_width(5);
    assert_eq!(p.mode(), DrawMode::Draw(99));
    p.on_toggle_eraser();
    assert_eq!(p.mode(), DrawMode::Erase(99));
    p.on_toggle_eraser();
    assert_eq!(p.mode(), DrawMode::Draw(99));
}
