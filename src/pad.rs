use vstd::prelude::*;

use crate::canvas::Rect;
use crate::mode::{DrawMode, InkColor};
use crate::stroke::{
    brush_for, curve_of, spec_brush_for, spec_push, Brush, PenPoint, PenSample, StrokeWindow,
    TaperedCurve, RUBBER_MULTIPLIER,
};

verus! {

/// The ends and buttons of the stylus that the digitizer reports.
#[derive(Clone, Copy, Debug, PartialEq, Eq, Structural)]
pub enum Tool {
    /// The writing tip came in or left range.
    Pen,
    /// The rubber end came in or left range.
    Rubber,
    /// The stylus touches the glass or leaves it.
    Touch,
    Stylus,
    Stylus2,
}

/// One event of the digitizer.
#[derive(Clone, Copy, Debug, PartialEq, Eq, Structural)]
pub enum PenEvent {
    InstrumentChange { tool: Tool, active: bool },
    Hover { distance: u16 },
    Draw { sample: PenSample },
    Unknown,
}

/// What the caller has to do after an event.
#[derive(Clone, Copy, Debug, PartialEq, Eq, Structural)]
pub enum PenAction {
    Nothing,
    /// Draw this segment, then refresh the rectangle that drawing it covered.
    Render(TaperedCurve),
    /// The pen tapped outside the canvas after a lift: run the handler of
    /// the element under this point, if there is one.
    Activate(PenPoint),
}

#[derive(Clone, Copy, Debug, PartialEq, Eq, Structural)]
pub enum PenError {
    /// The digitizer named a tool that the pad does not know how to use.
    UnsupportedTool,
}

/// The whole state of the pad, as mathematics.
pub struct PadModel {
    pub mode: DrawMode,
    pub in_range: bool,
    pub rubber_side: bool,
    pub pending_activation: bool,
    pub window: Seq<PenSample>,
    pub canvas: Rect,
}

impl PadModel {
    pub open spec fn wf(self) -> bool {
        &&& self.mode.wf()
        &&& self.window.len() <= 2
    }

    pub open spec fn with_window(self, window: Seq<PenSample>) -> PadModel {
        PadModel { window, ..self }
    }
}

/// The pad after a digitizer event, and what the caller has to do.
///
/// A sample outside the canvas empties the window; it activates what lies
/// under it only when a lift was seen since the last activation, and that
/// lift is used up. A sample inside the canvas goes to the stroke window.
/// A hover above the glass and a lift off it end the stroke; the hover also
/// arms the next activation. The two ends of the stylus set whether it is
/// in range and which end is in play.
pub open spec fn spec_on_wacom_input(s: PadModel, event: PenEvent) -> (PadModel, Result<PenAction, PenError>) {
    match event {
        PenEvent::Draw { sample } => {
            if !s.canvas.spec_contains(sample.point) {
                let next = PadModel { window: Seq::empty(), pending_activation: false, ..s };
                if s.pending_activation {
                    (next, Ok(PenAction::Activate(sample.point)))
                } else {
                    (next, Ok(PenAction::Nothing))
                }
            } else {
                let (window, drawn) = spec_push(
                    s.window,
                    sample,
                    spec_brush_for(s.mode, s.rubber_side),
                );
                let action = match drawn {
                    Some(c) => PenAction::Render(c),
                    None => PenAction::Nothing,
                };
                (s.with_window(window), Ok(action))
            }
        },
        PenEvent::InstrumentChange { tool, active } => match tool {
            Tool::Pen => (PadModel { in_range: active, rubber_side: false, ..s }, Ok(PenAction::Nothing)),
            Tool::Rubber => (PadModel { in_range: active, rubber_side: true, ..s }, Ok(PenAction::Nothing)),
            Tool::Touch => {
                if active {
                    (s, Ok(PenAction::Nothing))
                } else {
                    (s.with_window(Seq::empty()), Ok(PenAction::Nothing))
                }
            },
            _ => (s, Err(PenError::UnsupportedTool)),
        },
        PenEvent::Hover { distance } => {
            if distance > 1 {
                (PadModel { window: Seq::empty(), pending_activation: true, ..s }, Ok(PenAction::Nothing))
            } else {
                (s, Ok(PenAction::Nothing))
            }
        },
        PenEvent::Unknown => (s, Ok(PenAction::Nothing)),
    }
}

/// A hardware button of the device.
#[derive(Clone, Copy, Debug, PartialEq, Eq, Structural)]
pub enum Button {
    Left,
    Middle,
    Right,
    Power,
    Wakeup,
}

/// One event of the hardware buttons.
#[derive(Clone, Copy, Debug, PartialEq, Eq, Structural)]
pub enum ButtonEvent {
    Press(Button),
    Unpress(Button),
    Unknown,
}

/// What the caller has to do after a button event.
#[derive(Clone, Copy, Debug, PartialEq, Eq, Structural)]
pub enum ButtonAction {
    Nothing,
    /// Hand the screen back to the host application and quit.
    LaunchHost,
    /// The wake-up button was pressed.
    Wakeup,
}

/// The pad after a button event, and what the caller has to do. Only a
/// press counts, and none while the stylus is in range (a palm on the
/// buttons while writing). Left narrows the brush, middle widens it, right
/// toggles the eraser.
pub open spec fn spec_on_button_press(s: PadModel, event: ButtonEvent) -> (PadModel, ButtonAction) {
    match event {
        ButtonEvent::Press(b) => {
            if s.in_range {
                (s, ButtonAction::Nothing)
            } else {
                match b {
                    Button::Left => (PadModel { mode: s.mode.spec_resized(-1), ..s }, ButtonAction::Nothing),
                    Button::Middle => (PadModel { mode: s.mode.spec_resized(1), ..s }, ButtonAction::Nothing),
                    Button::Right => (PadModel { mode: s.mode.spec_toggled(), ..s }, ButtonAction::Nothing),
                    Button::Power => (s, ButtonAction::LaunchHost),
                    Button::Wakeup => (s, ButtonAction::Wakeup),
                }
            }
        },
        _ => (s, ButtonAction::Nothing),
    }
}

/// The pad after a run of digitizer events, one after the other.
pub open spec fn spec_run(s: PadModel, events: Seq<PenEvent>) -> PadModel
    decreases events.len(),
{
    if events.len() == 0 {
        s
    } else {
        spec_run(spec_on_wacom_input(s, events[0]).0, events.drop_first())
    }
}

/// The pad after one event, well-formed if it was before.
pub proof fn lemma_step_wf(s: PadModel, event: PenEvent)
    requires
        s.wf(),
    ensures
        spec_on_wacom_input(s, event).0.wf(),
{
}

/// However many samples and other digitizer events arrive, the stroke
/// window holds at most two samples once each has been handled.
pub proof fn lemma_window_stays_small(s: PadModel, events: Seq<PenEvent>)
    requires
        s.wf(),
    ensures
        spec_run(s, events).wf(),
        spec_run(s, events).window.len() <= 2,
    decreases events.len(),
{
    if events.len() > 0 {
        lemma_step_wf(s, events[0]);
        lemma_window_stays_small(spec_on_wacom_input(s, events[0]).0, events.drop_first());
    }
}

/// A sample outside the canvas is never rendered.
pub proof fn lemma_outside_never_renders(s: PadModel, sample: PenSample)
    requires
        !s.canvas.spec_contains(sample.point),
    ensures
        forall|c: TaperedCurve| spec_on_wacom_input(s, PenEvent::Draw { sample }).1 != Ok::<PenAction, PenError>(PenAction::Render(c)),
{
}

/// A hover above the glass followed by a tap outside the canvas activates
/// the point tapped, once; a second tap right after activates nothing.
pub proof fn lemma_tap_after_hover_activates_once(
    s: PadModel,
    distance: u16,
    first: PenSample,
    second: PenSample,
)
    requires
        distance > 1,
        !s.canvas.spec_contains(first.point),
        !s.canvas.spec_contains(second.point),
    ensures
        ({
            let hovered = spec_on_wacom_input(s, PenEvent::Hover { distance }).0;
            let (tapped, a1) = spec_on_wacom_input(hovered, PenEvent::Draw { sample: first });
            let (_, a2) = spec_on_wacom_input(tapped, PenEvent::Draw { sample: second });
            &&& a1 == Ok::<PenAction, PenError>(PenAction::Activate(first.point))
            &&& a2 == Ok::<PenAction, PenError>(PenAction::Nothing)
        }),
{
}

/// With the rubber end in play while the brush is set to draw, the segment
/// drawn is white and as wide as the rubber, whatever width is stored.
pub proof fn lemma_rubber_draws_white(s: PadModel, sample: PenSample)
    requires
        s.rubber_side,
        s.mode is Draw,
        s.canvas.spec_contains(sample.point),
        s.window.len() == 2,
    ensures
        spec_on_wacom_input(s, PenEvent::Draw { sample }).1 == Ok::<PenAction, PenError>(
            PenAction::Render(
                curve_of(
                    s.window[0],
                    s.window[1],
                    sample,
                    Brush { color: InkColor::White, multiplier: RUBBER_MULTIPLIER },
                ),
            ),
        ),
{
}

/// The pad state that the pen input handler and the buttons share: the brush,
/// what the digitizer last said about the stylus, and the stroke in progress.
pub struct Sketchpad {
    mode: DrawMode,
    in_range: bool,
    rubber_side: bool,
    pending_activation: bool,
    window: StrokeWindow,
    canvas: Rect,
}

impl View for Sketchpad {
    type V = PadModel;

    closed spec fn view(&self) -> PadModel {
        PadModel {
            mode: self.mode,
            in_range: self.in_range,
            rubber_side: self.rubber_side,
            pending_activation: self.pending_activation,
            window: self.window@,
            canvas: self.canvas,
        }
    }
}

impl Sketchpad {
    pub open spec fn wf(&self) -> bool {
        self@.wf()
    }

    /// A pad drawing on `canvas` with a thin black brush, no stylus in range
    /// and nothing armed.
    pub fn new(canvas: Rect) -> (r: Sketchpad)
        ensures
            r@ == (PadModel {
                mode: DrawMode::Draw(2),
                in_range: false,
                rubber_side: false,
                pending_activation: false,
                window: Seq::empty(),
                canvas,
            }),
            r.wf(),
    {
        Sketchpad {
            mode: DrawMode::Draw(2),
            in_range: false,
            rubber_side: false,
            pending_activation: false,
            window: StrokeWindow::new(),
            canvas,
        }
    }

    pub fn mode(&self) -> (r: DrawMode)
        ensures
            r == self@.mode,
    {
        self.mode
    }

    pub fn in_range(&self) -> (r: bool)
        ensures
            r == self@.in_range,
    {
        self.in_range
    }

    pub fn rubber_side(&self) -> (r: bool)
        ensures
            r == self@.rubber_side,
    {
        self.rubber_side
    }

    pub fn pending_activation(&self) -> (r: bool)
        ensures
            r == self@.pending_activation,
    {
        self.pending_activation
    }

    pub fn window_len(&self) -> (r: usize)
        ensures
            r == self@.window.len(),
    {
        self.window.len()
    }

    pub fn canvas(&self) -> (r: Rect)
        ensures
            r == self@.canvas,
    {
        self.canvas
    }

    /// Changes the brush width by `delta`, clamped into the legal range.
    pub fn change_brush_width(&mut self, delta: i32)
        requires
            old(self).wf(),
        ensures
            final(self)@ == (PadModel { mode: old(self)@.mode.spec_resized(delta as int), ..old(self)@ }),
            final(self).wf(),
    {
        self.mode = self.mode.resized(delta);
    }

    /// Swaps drawing and erasing, keeping the width.
    pub fn on_toggle_eraser(&mut self)
        requires
            old(self).wf(),
        ensures
            final(self)@ == (PadModel { mode: old(self)@.mode.spec_toggled(), ..old(self)@ }),
            final(self).wf(),
    {
        self.mode = self.mode.toggled();
    }

    /// Handles one event of the hardware buttons.
    pub fn on_button_press(&mut self, event: ButtonEvent) -> (r: ButtonAction)
        requires
            old(self).wf(),
        ensures
            (final(self)@, r) == spec_on_button_press(old(self)@, event),
            final(self).wf(),
    {
        let button = match event {
            ButtonEvent::Press(b) => b,
            _ => return ButtonAction::Nothing,
        };
        // A press while the stylus is near the glass is most likely a palm.
        if self.in_range {
            return ButtonAction::Nothing;
        }
        match button {
            Button::Left => {
                self.change_brush_width(-1);
                ButtonAction::Nothing
            },
            Button::Middle => {
                self.change_brush_width(1);
                ButtonAction::Nothing
            },
            Button::Right => {
                self.on_toggle_eraser();
                ButtonAction::Nothing
            },
            Button::Power => ButtonAction::LaunchHost,
            Button::Wakeup => ButtonAction::Wakeup,
        }
    }

    /// Handles one digitizer event.
    pub fn on_wacom_input(&mut self, event: PenEvent) -> (r: Result<PenAction, PenError>)
        requires
            old(self).wf(),
        ensures
            (final(self)@, r) == spec_on_wacom_input(old(self)@, event),
            final(self).wf(),
            event matches PenEvent::Draw { sample } && !old(self)@.canvas.spec_contains(
                sample.point,
            ) ==> r !is Ok || r->Ok_0 !is Render,
    {
        match event {
            PenEvent::Draw { sample } => {
                if !self.canvas.contains_point(sample.point) {
                    self.window.clear();
                    let armed = self.pending_activation;
                    self.pending_activation = false;
                    if armed {
                        Ok(PenAction::Activate(sample.point))
                    } else {
                        Ok(PenAction::Nothing)
                    }
                } else {
                    let brush = brush_for(self.mode, self.rubber_side);
                    match self.window.push(sample, brush) {
                        Some(c) => Ok(PenAction::Render(c)),
                        None => Ok(PenAction::Nothing),
                    }
                }
            },
            PenEvent::InstrumentChange { tool, active } => match tool {
                Tool::Pen => {
                    self.in_range = active;
                    self.rubber_side = false;
                    Ok(PenAction::Nothing)
                },
                Tool::Rubber => {
                    self.in_range = active;
                    self.rubber_side = true;
                    Ok(PenAction::Nothing)
                },
                Tool::Touch => {
                    if !active {
                        self.window.clear();
                    }
                    Ok(PenAction::Nothing)
                },
                _ => Err(PenError::UnsupportedTool),
            },
            PenEvent::Hover { distance } => {
                if distance > 1 {
                    self.window.clear();
                    self.pending_activation = true;
                }
                Ok(PenAction::Nothing)
            },
            PenEvent::Unknown => Ok(PenAction::Nothing),
        }
    }
}

} // verus!
