use vstd::prelude::*;

use crate::canvas::Rect;

verus! {

/// Whether a refresh returns at once or waits for the panel to settle.
#[derive(Clone, Copy, Debug, PartialEq, Eq, Structural)]
pub enum RefreshMode {
    Async,
    Wait,
}

/// Display-controller waveform. Direct update is the fast two-tone one,
/// which only knows black and white.
#[derive(Clone, Copy, Debug, PartialEq, Eq, Structural)]
pub enum Waveform {
    DirectUpdate,
}

/// Temperature profile the panel is driven with.
#[derive(Clone, Copy, Debug, PartialEq, Eq, Structural)]
pub enum Temperature {
    Drawing,
}

/// Dither setting of the refresh.
#[derive(Clone, Copy, Debug, PartialEq, Eq, Structural)]
pub enum Dither {
    Exp1,
}

/// Quantization setting of the refresh.
#[derive(Clone, Copy, Debug, PartialEq, Eq, Structural)]
pub enum Quantization {
    Drawing,
}

/// A partial refresh of one rectangle of the screen.
#[derive(Clone, Copy, Debug, PartialEq, Eq, Structural)]
pub struct RefreshRequest {
    pub rect: Rect,
    pub mode: RefreshMode,
    pub waveform: Waveform,
    pub temperature: Temperature,
    pub dither: Dither,
    pub quantization: Quantization,
    pub force_full: bool,
}

/// The refresh issued for a freshly drawn segment: exactly the rectangle
/// that the drawing reported, with the fast two-tone profile for ink, not
/// waiting for the panel unless `synchronous` asks for it.
pub open spec fn spec_stroke_refresh(rect: Rect, synchronous: bool) -> RefreshRequest {
    RefreshRequest {
        rect,
        mode: if synchronous { RefreshMode::Wait } else { RefreshMode::Async },
        waveform: Waveform::DirectUpdate,
        temperature: Temperature::Drawing,
        dither: Dither::Exp1,
        quantization: Quantization::Drawing,
        force_full: false,
    }
}

pub fn stroke_refresh(rect: Rect, synchronous: bool) -> (r: RefreshRequest)
    ensures
        r == spec_stroke_refresh(rect, synchronous),
        r.rect == rect,
        r.mode == (if synchronous { RefreshMode::Wait } else { RefreshMode::Async }),
{
    RefreshRequest {
        rect,
        mode: if synchronous {
            RefreshMode::Wait
        } else {
            RefreshMode::Async
        },
        waveform: Waveform::DirectUpdate,
        temperature: Temperature::Drawing,
        dither: Dither::Exp1,
        quantization: Quantization::Drawing,
        force_full: false,
    }
}

} // verus!
