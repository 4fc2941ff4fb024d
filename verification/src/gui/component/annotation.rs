//! The annotation canvas: what a click on it does, given the tool chosen
//! and the text being placed.

use vstd::prelude::*;

verus! {

/// Where the text tool is: idle, waiting for the click that places the
/// text, waiting for the text to be typed, or done.
#[derive(Clone, Copy, Debug, PartialEq, Eq, Structural)]
pub enum Status {
    Inactive,
    TextPressed,
    TextPositioned,
    TextAdded,
}

/// The shapes that the canvas draws.
#[derive(Clone, Copy, Debug, PartialEq, Eq, Structural)]
pub enum ShapeKind {
    Rectangle,
    Circle,
    Arrow,
    Line,
}

/// The canvas's own state between clicks: no shape started, a shape
/// started at a point, or one of the two states that clicks never enter.
#[derive(Clone, Copy, Debug, PartialEq, Eq, Structural)]
pub enum PendingKind {
    Idle,
    One,
    Two,
    NonePosition,
}

/// What reaches the canvas.
#[derive(Clone, Copy, Debug, PartialEq, Eq, Structural)]
pub enum CanvasInput {
    LeftPress,
    OtherMouse,
    Other,
}

/// Whether the canvas keeps the event from the widgets under it.
#[derive(Clone, Copy, Debug, PartialEq, Eq, Structural)]
pub enum EventStatus {
    Ignored,
    Captured,
}

/// What the canvas asks the application to do.
#[derive(Clone, Copy, Debug, PartialEq, Eq, Structural)]
pub enum CanvasRequest {
    Nothing,
    /// Place the pending text at the cursor.
    SaveTextPosition,
    /// Add a shape from the point where it was started to the cursor.
    AddShape(ShapeKind),
}

/// The canvas's answer to `input`: its next state, whether it captures the
/// event, and what it asks of the application.
pub open spec fn canvas_step(
    pending: PendingKind,
    text_status: Status,
    selected: Option<ShapeKind>,
    cursor_inside: bool,
    input: CanvasInput,
) -> (PendingKind, EventStatus, CanvasRequest) {
    if !cursor_inside {
        (pending, EventStatus::Ignored, CanvasRequest::Nothing)
    } else {
        match input {
            CanvasInput::Other => (pending, EventStatus::Ignored, CanvasRequest::Nothing),
            CanvasInput::OtherMouse => (pending, EventStatus::Captured, CanvasRequest::Nothing),
            CanvasInput::LeftPress => match pending {
                PendingKind::Idle => if text_status == Status::TextPressed {
                    (PendingKind::Idle, EventStatus::Captured, CanvasRequest::SaveTextPosition)
                } else {
                    (PendingKind::One, EventStatus::Captured, CanvasRequest::Nothing)
                },
                PendingKind::One => match selected {
                    Some(shape) => (PendingKind::Idle, EventStatus::Captured, CanvasRequest::AddShape(shape)),
                    None => (PendingKind::Idle, EventStatus::Captured, CanvasRequest::AddShape(ShapeKind::Circle)),
                },
                _ => (pending, EventStatus::Captured, CanvasRequest::Nothing),
            },
        }
    }
}

/// Decides what an event on the canvas does: a first click starts a shape
/// (or places the pending text), a second click finishes the chosen shape
/// (a circle when none is chosen).
pub fn canvas_update(
    pending: PendingKind,
    text_status: Status,
    selected: Option<ShapeKind>,
    cursor_inside: bool,
    input: CanvasInput,
) -> (r: (PendingKind, EventStatus, CanvasRequest))
    ensures
        r == canvas_step(pending, text_status, selected, cursor_inside, input),
{
    if !cursor_inside {
        return (pending, EventStatus::Ignored, CanvasRequest::Nothing);
    }
    match input {
        CanvasInput::Other => (pending, EventStatus::Ignored, CanvasRequest::Nothing),
        CanvasInput::OtherMouse => (pending, EventStatus::Captured, CanvasRequest::Nothing),
        CanvasInput::LeftPress => match pending {
            PendingKind::Idle => {
                if text_status == Status::TextPressed {
                    (PendingKind::Idle, EventStatus::Captured, CanvasRequest::SaveTextPosition)
                } else {
                    (PendingKind::One, EventStatus::Captured, CanvasRequest::Nothing)
                }
            },
            PendingKind::One => match selected {
                Some(shape) => (PendingKind::Idle, EventStatus::Captured, CanvasRequest::AddShape(shape)),
                None => (PendingKind::Idle, EventStatus::Captured, CanvasRequest::AddShape(ShapeKind::Circle)),
            },
            _ => (pending, EventStatus::Captured, CanvasRequest::Nothing),
        },
    }
}

/// Two clicks inside the canvas, with no text waiting to be placed, add
/// exactly one shape, of the kind chosen (a circle when none is), and
/// leave the canvas idle again.
pub proof fn lemma_two_clicks_add_shape(text_status: Status, selected: Option<ShapeKind>)
    requires
        text_status != Status::TextPressed,
    ensures
        ({
            let first = canvas_step(PendingKind::Idle, text_status, selected, true, CanvasInput::LeftPress);
            let second = canvas_step(first.0, text_status, selected, true, CanvasInput::LeftPress);
            &&& first.2 == CanvasRequest::Nothing
            &&& second.0 == PendingKind::Idle
            &&& second.2 == CanvasRequest::AddShape(match selected {
                Some(s) => s,
                None => ShapeKind::Circle,
            })
        }),
{
}


/// Events away from the canvas leave it as it is, are not captured, and
/// ask nothing; a click while text waits to be placed places it and starts
/// no shape.
pub proof fn lemma_canvas_outside_and_text(pending: PendingKind, text_status: Status, selected: Option<ShapeKind>, input: CanvasInput)
    ensures
        canvas_step(pending, text_status, selected, false, input) == (pending, EventStatus::Ignored, CanvasRequest::Nothing),
        text_status == Status::TextPressed ==> canvas_step(PendingKind::Idle, text_status, selected, true, CanvasInput::LeftPress)
            == (PendingKind::Idle, EventStatus::Captured, CanvasRequest::SaveTextPosition),
{
}

} // verus!
