use vstd::prelude::*;

use crate::painting::{drawn, drawn_lines, lines_view, record_frame, step_changes, step_lines};
use crate::point::{Hover, Point};

verus! {

/// Bit pattern of the single-precision number `1.0`.
pub const ONE_BITS: u32 = 0x3f80_0000;

/// Width and colour of the drawn polylines: the width as the bit pattern of a
/// single-precision number, the colour as premultiplied RGBA bytes.
#[derive(Clone, Copy, Debug, PartialEq, Eq, Structural)]
pub struct StrokeStyle {
    pub width_bits: u32,
    pub r: u8,
    pub g: u8,
    pub b: u8,
    pub a: u8,
}

impl StrokeStyle {
    /// The stroke that polylines are drawn with unless the stored state says
    /// otherwise: width one, opaque green `(25, 200, 100)`.
    pub open spec fn is_default(self) -> bool {
        &&& self.width_bits == ONE_BITS
        &&& self.r == 25
        &&& self.g == 200
        &&& self.b == 100
        &&& self.a == 255
    }
}

impl Default for StrokeStyle {
    fn default() -> (r: Self)
        ensures
            r.is_default(),
    {
        StrokeStyle { width_bits: ONE_BITS, r: 25, g: 200, b: 100, a: 255 }
    }
}

/// The viewer's state: the persisted view placeholders `x`, `y` and `zoom`,
/// the last pointer position on screen and in canvas space, the polylines
/// drawn so far (the last one is in progress) and the stroke they are drawn
/// with.
pub struct MandelbrotViewerApp {
    pub x: u8,
    pub y: u8,
    pub zoom: u8,
    pub pointer_pos: Point,
    pub canvas_pos: Point,
    pub lines: Vec<Vec<Point>>,
    pub stroke: StrokeStyle,
}

impl MandelbrotViewerApp {
    /// The polylines, as sequences of points.
    pub open spec fn painting(&self) -> Seq<Seq<Point>> {
        lines_view(self.lines@)
    }

    /// The state of a first start: view at `(0, 0)` with zoom one, both
    /// positions at the origin, no polylines, the default stroke.
    pub open spec fn is_default(&self) -> bool {
        &&& self.x == 0
        &&& self.y == 0
        &&& self.zoom == 1
        &&& self.pointer_pos == Point { x_bits: 0, y_bits: 0 }
        &&& self.canvas_pos == Point { x_bits: 0, y_bits: 0 }
        &&& self.lines@.len() == 0
        &&& self.stroke.is_default()
    }

    /// The state at startup: the one stored by an earlier session if there is
    /// one, else the default.
    pub fn new(stored: Option<MandelbrotViewerApp>) -> (r: Self)
        ensures
            stored is Some ==> r == stored->Some_0,
            stored is None ==> r.is_default(),
    {
        match stored {
            Some(app) => app,
            None => MandelbrotViewerApp::default(),
        }
    }

    /// Empties the painting; everything else is kept.
    pub fn clear_painting(&mut self)
        ensures
            final(self).painting() == Seq::<Seq<Point>>::empty(),
            final(self).x == old(self).x,
            final(self).y == old(self).y,
            final(self).zoom == old(self).zoom,
            final(self).pointer_pos == old(self).pointer_pos,
            final(self).canvas_pos == old(self).canvas_pos,
            final(self).stroke == old(self).stroke,
    {
        self.lines.clear();
        assert(self.painting() =~= Seq::<Seq<Point>>::empty());
    }

    /// Handles one frame of the canvas. With the pointer over the canvas, both
    /// positions are recorded and the canvas position extends the polyline in
    /// progress unless it repeats its last point; without, a non-empty polyline
    /// in progress is closed. Returns whether what is drawn changed.
    pub fn on_frame(&mut self, hover: Option<Hover>) -> (changed: bool)
        ensures
            final(self).painting() == step_lines(old(self).painting(), hover_canvas(hover)),
            changed == step_changes(old(self).painting(), hover_canvas(hover)),
            hover is Some ==> final(self).pointer_pos == hover->Some_0.screen,
            hover is Some ==> final(self).canvas_pos == hover->Some_0.canvas,
            hover is None ==> final(self).pointer_pos == old(self).pointer_pos,
            hover is None ==> final(self).canvas_pos == old(self).canvas_pos,
            final(self).x == old(self).x,
            final(self).y == old(self).y,
            final(self).zoom == old(self).zoom,
            final(self).stroke == old(self).stroke,
    {
        let canvas = match hover {
            Some(h) => {
                self.pointer_pos = h.screen;
                self.canvas_pos = h.canvas;
                Some(h.canvas)
            },
            None => None,
        };
        record_frame(&mut self.lines, canvas)
    }

    /// The polylines to draw this frame: those of at least two points, in
    /// order.
    pub fn drawn_lines(&self) -> (r: Vec<Vec<Point>>)
        ensures
            lines_view(r@) == drawn_lines(self.painting()),
    {
        drawn(&self.lines)
    }
}

/// The canvas-space position of a hover, if any.
pub open spec fn hover_canvas(hover: Option<Hover>) -> Option<Point> {
    match hover {
        Some(h) => Some(h.canvas),
        None => None,
    }
}

impl Default for MandelbrotViewerApp {
    fn default() -> (r: Self)
        ensures
            r.is_default(),
    {
        MandelbrotViewerApp {
            x: 0,
            y: 0,
            zoom: 1,
            pointer_pos: Point::zero(),
            canvas_pos: Point::zero(),
            lines: Vec::new(),
            stroke: StrokeStyle::default(),
        }
    }
}

} // verus!
