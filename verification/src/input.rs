use vstd::prelude::*;

verus! {

/// A key event, already identified by the windowing layer.
#[derive(Clone, Copy, PartialEq, Eq, Structural, Debug)]
pub enum KeyEvent {
    PanLeft,
    PanRight,
    PanUp,
    PanDown,
    ZoomIn,
    ZoomOut,
    Export,
    Unrecognized,
}

/// What one key event does to the view.
///
/// The pan fields give the change of the pan offset in tenths of the zoom
/// scalar, so every coefficient of the view update is exact here:
/// a horizontal pan moves the offset by `pan_x_tenths / 10` of the zoom,
/// a vertical pan by `pan_y_tenths / 10` of it, and the zoom is multiplied
/// by two to the power `zoom_doublings`.
#[derive(Clone, Copy, PartialEq, Eq, Structural, Debug)]
pub struct ViewStep {
    pub pan_x_tenths: i8,
    pub pan_y_tenths: i8,
    pub zoom_doublings: i8,
    pub export: bool,
    pub redraw: bool,
}

/// The command table: what each key event does.
pub open spec fn step_spec(e: KeyEvent) -> ViewStep {
    match e {
        KeyEvent::PanLeft => ViewStep {
            pan_x_tenths: 1,
            pan_y_tenths: 0,
            zoom_doublings: 0,
            export: false,
            redraw: true,
        },
        KeyEvent::PanRight => ViewStep {
            pan_x_tenths: -1i8,
            pan_y_tenths: 0,
            zoom_doublings: 0,
            export: false,
            redraw: true,
        },
        KeyEvent::PanUp => ViewStep {
            pan_x_tenths: 0,
            pan_y_tenths: 4,
            zoom_doublings: 0,
            export: false,
            redraw: true,
        },
        KeyEvent::PanDown => ViewStep {
            pan_x_tenths: 0,
            pan_y_tenths: -4i8,
            zoom_doublings: 0,
            export: false,
            redraw: true,
        },
        KeyEvent::ZoomIn => ViewStep {
            pan_x_tenths: 0,
            pan_y_tenths: 0,
            zoom_doublings: 1,
            export: false,
            redraw: true,
        },
        KeyEvent::ZoomOut => ViewStep {
            pan_x_tenths: 0,
            pan_y_tenths: 0,
            zoom_doublings: -1i8,
            export: false,
            redraw: true,
        },
        KeyEvent::Export => ViewStep {
            pan_x_tenths: 0,
            pan_y_tenths: 0,
            zoom_doublings: 0,
            export: true,
            redraw: true,
        },
        KeyEvent::Unrecognized => ViewStep {
            pan_x_tenths: 0,
            pan_y_tenths: 0,
            zoom_doublings: 0,
            export: false,
            redraw: true,
        },
    }
}

/// Decide what a key event does to the view.
///
/// Every event requests a redraw; the zoom is only ever doubled or halved,
/// never set, so a positive zoom stays positive; an export is triggered by
/// the export key alone, and an unrecognized key changes nothing.
pub fn step_for_event(e: KeyEvent) -> (s: ViewStep)
    ensures
        s == step_spec(e),
        s.redraw,
        -1 <= s.zoom_doublings <= 1,
        s.export <==> e == KeyEvent::Export,
        e == KeyEvent::Unrecognized ==> s.pan_x_tenths == 0 && s.pan_y_tenths == 0
            && s.zoom_doublings == 0 && !s.export,
{
    match e {
        KeyEvent::PanLeft => ViewStep {
            pan_x_tenths: 1,
            pan_y_tenths: 0,
            zoom_doublings: 0,
            export: false,
            redraw: true,
        },
        KeyEvent::PanRight => ViewStep {
            pan_x_tenths: -1,
            pan_y_tenths: 0,
            zoom_doublings: 0,
            export: false,
            redraw: true,
        },
        KeyEvent::PanUp => ViewStep {
            pan_x_tenths: 0,
            pan_y_tenths: 4,
            zoom_doublings: 0,
            export: false,
            redraw: true,
        },
        KeyEvent::PanDown => ViewStep {
            pan_x_tenths: 0,
            pan_y_tenths: -4,
            zoom_doublings: 0,
            export: false,
            redraw: true,
        },
        KeyEvent::ZoomIn => ViewStep {
            pan_x_tenths: 0,
            pan_y_tenths: 0,
            zoom_doublings: 1,
            export: false,
            redraw: true,
        },
        KeyEvent::ZoomOut => ViewStep {
            pan_x_tenths: 0,
            pan_y_tenths: 0,
            zoom_doublings: -1,
            export: false,
            redraw: true,
        },
        KeyEvent::Export => ViewStep {
            pan_x_tenths: 0,
            pan_y_tenths: 0,
            zoom_doublings: 0,
            export: true,
            redraw: true,
        },
        KeyEvent::Unrecognized => ViewStep {
            pan_x_tenths: 0,
            pan_y_tenths: 0,
            zoom_doublings: 0,
            export: false,
            redraw: true,
        },
    }
}

} // verus!
