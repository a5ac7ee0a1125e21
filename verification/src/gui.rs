//! Per-frame GUI logic: the application state the widgets control, the
//! stable widget identifiers, and the frame function that applies this
//! frame's widget interactions to the state and declares the whole widget
//! tree from it.
//!
//! All scalar quantities are in tenths of a logical unit; see `state`.

use vstd::prelude::*;

use crate::state::BallColor;
use crate::state::ImageId;
use crate::state::Point;
use crate::state::DIM_LIMIT;
use crate::state::FREQ_MAX;
use crate::state::FREQ_MIN;

verus! {

/// Padding between the scrollable canvas and its children, in tenths.
pub const MARGIN: i64 = 300;

/// Horizontal gap between neighbouring shapes, in tenths.
pub const SHAPE_GAP: i64 = 500;

/// Font size of the page title.
pub const TITLE_SIZE: u32 = 42;

/// Font size of the section headings.
pub const SUBTITLE_SIZE: u32 = 32;

/// Side of the square logo image, in tenths.
pub const LOGO_SIDE: i64 = 1440;

/// Side of the square button and of the pad next to it, in tenths.
pub const BUTTON_SIDE: i64 = 1300;

/// Radius of the ball, in tenths.
pub const BALL_RADIUS: i64 = 200;

/// Corner radius of the rounded backdrop rectangle, in tenths.
pub const ROUNDED_RADIUS: i64 = 100;

/// How far under the pad's centre the ball hangs: half the pad's side plus
/// the canvas margin.
pub const BALL_DROP: i64 = 650 + 300;

/// Application state the widgets control.
pub struct State {
    pub ball_xy: Point,
    pub ball_color: BallColor,
    pub sine_frequency: i64,
    pub rust_logo: ImageId,
}

impl State {
    /// The frequency stays within the dialer's range and the ball stays
    /// within the global coordinate bound.
    pub open spec fn wf(self) -> bool {
        &&& FREQ_MIN <= self.sine_frequency <= FREQ_MAX
        &&& -DIM_LIMIT <= self.ball_xy.x <= DIM_LIMIT
        &&& -DIM_LIMIT <= self.ball_xy.y <= DIM_LIMIT
    }

    /// Simple constructor: ball at the origin, white, frequency one unit.
    pub fn new(rust_logo: ImageId) -> (r: State)
        ensures
            r.ball_xy == (Point { x: 0, y: 0 }),
            r.ball_color == BallColor::White,
            r.sine_frequency == 10,
            r.rust_logo == rust_logo,
            r.wf(),
    {
        State {
            ball_xy: Point { x: 0, y: 0 },
            ball_color: BallColor::White,
            sine_frequency: 10,
            rust_logo,
        }
    }
}

/// Hands out widget identifiers, one at a time, never twice the same.
pub struct WidgetIdGenerator {
    pub next: u64,
}

/// One stable identifier per widget instance, generated once at startup and
/// referenced every frame.
pub struct Ids {
    pub canvas: u64,
    pub title: u64,
    pub introduction: u64,
    pub shapes_canvas: u64,
    pub rounded_rectangle: u64,
    pub shapes_left_col: u64,
    pub shapes_right_col: u64,
    pub shapes_title: u64,
    pub line: u64,
    pub point_path: u64,
    pub rectangle_fill: u64,
    pub rectangle_outline: u64,
    pub trapezoid: u64,
    pub oval_fill: u64,
    pub oval_outline: u64,
    pub circle: u64,
    pub image_title: u64,
    pub rust_logo: u64,
    pub button_title: u64,
    pub button: u64,
    pub xy_pad: u64,
    pub toggle: u64,
    pub ball: u64,
    pub dialer_title: u64,
    pub number_dialer: u64,
    pub plot_path: u64,
    pub canvas_scrollbar: u64,
}

impl Ids {
    /// Draws twenty-seven consecutive identifiers from the generator, one
    /// per widget, in declaration order.
    pub fn new(gen: &mut WidgetIdGenerator) -> (ids: Ids)
        requires
            old(gen).next + 27 <= u64::MAX,
        ensures
            final(gen).next == old(gen).next + 27,
            ids.canvas == old(gen).next + 0,
            ids.title == old(gen).next + 1,
            ids.introduction == old(gen).next + 2,
            ids.shapes_canvas == old(gen).next + 3,
            ids.rounded_rectangle == old(gen).next + 4,
            ids.shapes_left_col == old(gen).next + 5,
            ids.shapes_right_col == old(gen).next + 6,
            ids.shapes_title == old(gen).next + 7,
            ids.line == old(gen).next + 8,
            ids.point_path == old(gen).next + 9,
            ids.rectangle_fill == old(gen).next + 10,
            ids.rectangle_outline == old(gen).next + 11,
            ids.trapezoid == old(gen).next + 12,
            ids.oval_fill == old(gen).next + 13,
            ids.oval_outline == old(gen).next + 14,
            ids.circle == old(gen).next + 15,
            ids.image_title == old(gen).next + 16,
            ids.rust_logo == old(gen).next + 17,
            ids.button_title == old(gen).next + 18,
            ids.button == old(gen).next + 19,
            ids.xy_pad == old(gen).next + 20,
            ids.toggle == old(gen).next + 21,
            ids.ball == old(gen).next + 22,
            ids.dialer_title == old(gen).next + 23,
            ids.number_dialer == old(gen).next + 24,
            ids.plot_path == old(gen).next + 25,
            ids.canvas_scrollbar == old(gen).next + 26,
    {
        let base = gen.next;
        gen.next = base + 27;
        Ids {
            canvas: base,
            title: base + 1,
            introduction: base + 2,
            shapes_canvas: base + 3,
            rounded_rectangle: base + 4,
            shapes_left_col: base + 5,
            shapes_right_col: base + 6,
            shapes_title: base + 7,
            line: base + 8,
            point_path: base + 9,
            rectangle_fill: base + 10,
            rectangle_outline: base + 11,
            trapezoid: base + 12,
            oval_fill: base + 13,
            oval_outline: base + 14,
            circle: base + 15,
            image_title: base + 16,
            rust_logo: base + 17,
            button_title: base + 18,
            button: base + 19,
            xy_pad: base + 20,
            toggle: base + 21,
            ball: base + 22,
            dialer_title: base + 23,
            number_dialer: base + 24,
            plot_path: base + 25,
            canvas_scrollbar: base + 26,
        }
    }
}

/// The box the ball may occupy, derived from the container's dimensions.
#[derive(Clone, Copy, PartialEq, Eq, Structural, Debug)]
pub struct Bounds {
    pub min_x: i64,
    pub max_x: i64,
    pub min_y: i64,
    pub max_y: i64,
}

/// The ball's box: a third of the canvas's width to each side, and a third
/// of half the window's height up and down.
pub open spec fn spec_ball_bounds(canvas_kid_w: i64, window_h: i64) -> Bounds {
    let max_x = canvas_kid_w / 3;
    let max_y = (window_h / 2) / 3;
    Bounds {
        min_x: (-max_x) as i64,
        max_x: max_x as i64,
        min_y: (-max_y) as i64,
        max_y: max_y as i64,
    }
}

/// `p` lies within `b`.
pub open spec fn in_bounds(p: Point, b: Bounds) -> bool {
    &&& b.min_x <= p.x <= b.max_x
    &&& b.min_y <= p.y <= b.max_y
}

/// Executable form of `spec_ball_bounds`.
pub fn ball_bounds(canvas_kid_w: i64, window_h: i64) -> (b: Bounds)
    requires
        0 <= canvas_kid_w <= DIM_LIMIT,
        0 <= window_h <= DIM_LIMIT,
    ensures
        b == spec_ball_bounds(canvas_kid_w, window_h),
        b.min_x == -b.max_x,
        b.min_y == -b.max_y,
        0 <= b.max_x <= DIM_LIMIT,
        0 <= b.max_y <= DIM_LIMIT,
{
    let max_x = ((canvas_kid_w as u64) / 3) as i64;
    let max_y = (((window_h as u64) / 2) / 3) as i64;
    Bounds { min_x: -max_x, max_x, min_y: -max_y, max_y }
}

/// The frequency the dialer's interaction leaves behind: the given value,
/// clamped into the dialer's range.
pub open spec fn spec_clamp_frequency(f: i64) -> i64 {
    if f < FREQ_MIN {
        FREQ_MIN
    } else if f > FREQ_MAX {
        FREQ_MAX
    } else {
        f
    }
}

/// Executable form of `spec_clamp_frequency`.
pub fn clamp_frequency(f: i64) -> (r: i64)
    ensures
        r == spec_clamp_frequency(f),
        FREQ_MIN <= r <= FREQ_MAX,
{
    if f < FREQ_MIN {
        FREQ_MIN
    } else if f > FREQ_MAX {
        FREQ_MAX
    } else {
        f
    }
}

/// Relies on `rand::random`: draws a fresh 64-bit value from the thread's
/// generator. The result depends on the generator's state, so nothing is
/// promised of it; callers state what holds of every outcome.
#[verifier::external_body]
fn random_draw() -> u64 {
    rand::random::<u64>()
}

/// Maps a raw 64-bit draw into `[lo, hi]`: `lo` plus the draw reduced
/// modulo the width of the range. The result never reaches `hi` itself
/// unless the range is a single point.
pub fn scale_to_range(draw: u64, lo: i64, hi: i64) -> (r: i64)
    requires
        lo <= hi,
        hi - lo <= i64::MAX,
    ensures
        lo <= r <= hi,
        lo < hi ==> r == lo + draw as int % (hi - lo),
        lo == hi ==> r == lo,
{
    let span = ((hi as i128 - lo as i128) as u64);
    if span == 0 {
        lo
    } else {
        let rem = draw % span;
        lo + (rem as i64)
    }
}

/// Everything one frame's evaluation reads besides the state itself: the
/// container dimensions the layout derives bounds from, and the
/// zero-or-one interaction each widget produced this frame. The button may
/// fire more than once in a frame; each press is one entry of the count.
pub struct FrameInput {
    pub canvas_kid_w: i64,
    pub window_h: i64,
    pub shapes_w: i64,
    pub shapes_h: i64,
    pub button_presses: u64,
    pub xy_pad: Option<Point>,
    pub toggle: Option<bool>,
    pub dialer: Option<i64>,
}

impl FrameInput {
    /// Dimensions are nonnegative and bounded, and a pad interaction lies
    /// within the pad's own range, which is the ball's box.
    pub open spec fn wf(self) -> bool {
        &&& 0 <= self.canvas_kid_w <= DIM_LIMIT
        &&& 0 <= self.window_h <= DIM_LIMIT
        &&& 0 <= self.shapes_w <= DIM_LIMIT
        &&& 0 <= self.shapes_h <= DIM_LIMIT
        &&& self.xy_pad matches Some(p) ==> in_bounds(
            p,
            spec_ball_bounds(self.canvas_kid_w, self.window_h),
        )
    }
}

/// Height of the rounded backdrop rectangle: five sixths of the shapes
/// canvas's height.
pub open spec fn spec_shapes_rect_h(shapes_h: i64) -> i64 {
    ((5 * shapes_h) / 6) as i64
}

/// What one widget is declared as this frame. Fixed shapes carry no
/// parameters; widgets whose declaration depends on the state or on the
/// container dimensions carry them.
#[derive(Clone, Copy, PartialEq, Eq, Debug)]
pub enum DeclKind {
    Canvas,
    Text { font_size: Option<u32> },
    RoundedRectangle { w: i64, h: i64, radius: i64 },
    Line,
    PointPath,
    RectangleFill,
    RectangleOutline,
    Trapezoid,
    OvalFill,
    OvalOutline,
    CircleShape,
    Image { image: ImageId, w: i64, h: i64 },
    Button { w: i64, h: i64 },
    XyPad { x: i64, y: i64, min_x: i64, max_x: i64, min_y: i64, max_y: i64 },
    Toggle { value: bool },
    Ball { x: i64, y: i64, color: BallColor, radius: i64 },
    NumberDialer { value: i64, min: i64, max: i64, precision: u8 },
    PlotPath { frequency: i64 },
    Scrollbar,
}

/// One widget placement: which widget, declared as what.
#[derive(Clone, Copy, PartialEq, Eq, Debug)]
pub struct WidgetDecl {
    pub id: u64,
    pub kind: DeclKind,
}

/// Evaluates one frame: applies this frame's interactions to the state in
/// declaration order (button, pad, toggle, dialer) and returns the whole
/// widget tree as declared from the values current at each widget's place
/// in that order. A button press moves the ball to a fresh random point
/// within its box; the pad sets the ball directly; the toggle picks the
/// ball's color; the dialer sets the frequency, clamped to its range.
pub fn render(ui: &FrameInput, ids: &Ids, state: &mut State) -> (out: Vec<WidgetDecl>)
    requires
        ui.wf(),
        old(state).wf(),
    ensures
        final(state).wf(),
        final(state).rust_logo == old(state).rust_logo,
        ui.dialer matches Some(f) ==> final(state).sine_frequency == spec_clamp_frequency(f),
        ui.dialer is None ==> final(state).sine_frequency == old(state).sine_frequency,
        ui.toggle matches Some(w) ==> final(state).ball_color == (if w {
            BallColor::White
        } else {
            BallColor::Black
        }),
        ui.toggle is None ==> final(state).ball_color == old(state).ball_color,
        ui.xy_pad matches Some(p) ==> final(state).ball_xy == p,
        ui.xy_pad is None && ui.button_presses > 0 ==> in_bounds(
            final(state).ball_xy,
            spec_ball_bounds(ui.canvas_kid_w, ui.window_h),
        ),
        ui.xy_pad is None && ui.button_presses == 0 ==> final(state).ball_xy == old(state).ball_xy,
        out@.len() == 27,
        out@[0] == (WidgetDecl { id: ids.canvas, kind: DeclKind::Canvas }),
        out@[1] == (WidgetDecl { id: ids.title, kind: DeclKind::Text { font_size: Some(TITLE_SIZE) } }),
        out@[2] == (WidgetDecl { id: ids.introduction, kind: DeclKind::Text { font_size: None } }),
        out@[3] == (WidgetDecl {
            id: ids.shapes_title,
            kind: DeclKind::Text { font_size: Some(SUBTITLE_SIZE) },
        }),
        out@[4] == (WidgetDecl { id: ids.shapes_canvas, kind: DeclKind::Canvas }),
        out@[5] == (WidgetDecl { id: ids.shapes_left_col, kind: DeclKind::Canvas }),
        out@[6] == (WidgetDecl { id: ids.shapes_right_col, kind: DeclKind::Canvas }),
        out@[7] == (WidgetDecl {
            id: ids.rounded_rectangle,
            kind: DeclKind::RoundedRectangle {
                w: ui.shapes_w,
                h: spec_shapes_rect_h(ui.shapes_h),
                radius: ROUNDED_RADIUS,
            },
        }),
        out@[8] == (WidgetDecl { id: ids.line, kind: DeclKind::Line }),
        out@[9] == (WidgetDecl { id: ids.point_path, kind: DeclKind::PointPath }),
        out@[10] == (WidgetDecl { id: ids.rectangle_fill, kind: DeclKind::RectangleFill }),
        out@[11] == (WidgetDecl { id: ids.rectangle_outline, kind: DeclKind::RectangleOutline }),
        out@[12] == (WidgetDecl { id: ids.trapezoid, kind: DeclKind::Trapezoid }),
        out@[13] == (WidgetDecl { id: ids.oval_fill, kind: DeclKind::OvalFill }),
        out@[14] == (WidgetDecl { id: ids.oval_outline, kind: DeclKind::OvalOutline }),
        out@[15] == (WidgetDecl { id: ids.circle, kind: DeclKind::CircleShape }),
        out@[16] == (WidgetDecl {
            id: ids.image_title,
            kind: DeclKind::Text { font_size: Some(SUBTITLE_SIZE) },
        }),
        out@[17] == (WidgetDecl {
            id: ids.rust_logo,
            kind: DeclKind::Image { image: old(state).rust_logo, w: LOGO_SIDE, h: LOGO_SIDE },
        }),
        out@[18] == (WidgetDecl {
            id: ids.button_title,
            kind: DeclKind::Text { font_size: Some(SUBTITLE_SIZE) },
        }),
        out@[19] == (WidgetDecl {
            id: ids.button,
            kind: DeclKind::Button { w: BUTTON_SIDE, h: BUTTON_SIDE },
        }),
        out@[20].id == ids.xy_pad,
        out@[20].kind matches DeclKind::XyPad { x, y, min_x, max_x, min_y, max_y } ==> {
            let b = spec_ball_bounds(ui.canvas_kid_w, ui.window_h);
            &&& min_x == b.min_x
            &&& max_x == b.max_x
            &&& min_y == b.min_y
            &&& max_y == b.max_y
            &&& ui.button_presses == 0 ==> (x == old(state).ball_xy.x
                && y == old(state).ball_xy.y)
            &&& ui.button_presses > 0 ==> in_bounds(Point { x, y }, b)
            &&& ui.xy_pad is None ==> (x == final(state).ball_xy.x
                && y == final(state).ball_xy.y)
        },
        out@[20].kind is XyPad,
        out@[21] == (WidgetDecl {
            id: ids.toggle,
            kind: DeclKind::Toggle { value: old(state).ball_color == BallColor::White },
        }),
        out@[22] == (WidgetDecl {
            id: ids.ball,
            kind: DeclKind::Ball {
                x: final(state).ball_xy.x,
                y: (final(state).ball_xy.y - spec_ball_bounds(ui.canvas_kid_w, ui.window_h).max_y
                    - BALL_DROP) as i64,
                color: final(state).ball_color,
                radius: BALL_RADIUS,
            },
        }),
        out@[23] == (WidgetDecl {
            id: ids.dialer_title,
            kind: DeclKind::Text { font_size: Some(SUBTITLE_SIZE) },
        }),
        out@[24] == (WidgetDecl {
            id: ids.number_dialer,
            kind: DeclKind::NumberDialer {
                value: old(state).sine_frequency,
                min: FREQ_MIN,
                max: FREQ_MAX,
                precision: 1,
            },
        }),
        out@[25] == (WidgetDecl {
            id: ids.plot_path,
            kind: DeclKind::PlotPath { frequency: final(state).sine_frequency },
        }),
        out@[26] == (WidgetDecl { id: ids.canvas_scrollbar, kind: DeclKind::Scrollbar }),
{
    let bounds = ball_bounds(ui.canvas_kid_w, ui.window_h);

    // The button: each press this frame moves the ball to a fresh random
    // point within its box.
    let mut presses: u64 = 0;
    while presses < ui.button_presses
        invariant
            ui.wf(),
            presses <= ui.button_presses,
            bounds == spec_ball_bounds(ui.canvas_kid_w, ui.window_h),
            bounds.min_x == -bounds.max_x,
            bounds.min_y == -bounds.max_y,
            0 <= bounds.max_x <= DIM_LIMIT,
            0 <= bounds.max_y <= DIM_LIMIT,
            state.rust_logo == old(state).rust_logo,
            state.ball_color == old(state).ball_color,
            state.sine_frequency == old(state).sine_frequency,
            old(state).wf(),
            state.wf(),
            presses == 0 ==> state.ball_xy == old(state).ball_xy,
            presses > 0 ==> in_bounds(state.ball_xy, bounds),
        decreases ui.button_presses - presses,
    {
        let draw_x = random_draw();
        let draw_y = random_draw();
        let x = scale_to_range(draw_x, bounds.min_x, bounds.max_x);
        let y = scale_to_range(draw_y, bounds.min_y, bounds.max_y);
        state.ball_xy = Point { x, y };
        presses += 1;
    }

    // The pad: a drag sets the ball directly, over whatever the button did.
    let pad_pos = state.ball_xy;
    if let Some(p) = ui.xy_pad {
        state.ball_xy = p;
    }

    // The toggle: declared showing the current color, then applied.
    let was_white = matches!(state.ball_color, BallColor::White);
    if let Some(to_white) = ui.toggle {
        state.ball_color = if to_white {
            BallColor::White
        } else {
            BallColor::Black
        };
    }

    // The dialer: declared showing the current frequency, then applied,
    // clamped into its range.
    let shown_frequency = state.sine_frequency;
    if let Some(f) = ui.dialer {
        state.sine_frequency = clamp_frequency(f);
    }

    let shapes_rect_h = (((ui.shapes_h as u64) * 5) / 6) as i64;

    let mut out: Vec<WidgetDecl> = Vec::new();
    out.push(WidgetDecl { id: ids.canvas, kind: DeclKind::Canvas });
    out.push(WidgetDecl { id: ids.title, kind: DeclKind::Text { font_size: Some(TITLE_SIZE) } });
    out.push(WidgetDecl { id: ids.introduction, kind: DeclKind::Text { font_size: None } });
    out.push(WidgetDecl {
        id: ids.shapes_title,
        kind: DeclKind::Text { font_size: Some(SUBTITLE_SIZE) },
    });
    out.push(WidgetDecl { id: ids.shapes_canvas, kind: DeclKind::Canvas });
    out.push(WidgetDecl { id: ids.shapes_left_col, kind: DeclKind::Canvas });
    out.push(WidgetDecl { id: ids.shapes_right_col, kind: DeclKind::Canvas });
    out.push(WidgetDecl {
        id: ids.rounded_rectangle,
        kind: DeclKind::RoundedRectangle {
            w: ui.shapes_w,
            h: shapes_rect_h,
            radius: ROUNDED_RADIUS,
        },
    });
    out.push(WidgetDecl { id: ids.line, kind: DeclKind::Line });
    out.push(WidgetDecl { id: ids.point_path, kind: DeclKind::PointPath });
    out.push(WidgetDecl { id: ids.rectangle_fill, kind: DeclKind::RectangleFill });
    out.push(WidgetDecl { id: ids.rectangle_outline, kind: DeclKind::RectangleOutline });
    out.push(WidgetDecl { id: ids.trapezoid, kind: DeclKind::Trapezoid });
    out.push(WidgetDecl { id: ids.oval_fill, kind: DeclKind::OvalFill });
    out.push(WidgetDecl { id: ids.oval_outline, kind: DeclKind::OvalOutline });
    out.push(WidgetDecl { id: ids.circle, kind: DeclKind::CircleShape });
    out.push(WidgetDecl {
        id: ids.image_title,
        kind: DeclKind::Text { font_size: Some(SUBTITLE_SIZE) },
    });
    out.push(WidgetDecl {
        id: ids.rust_logo,
        kind: DeclKind::Image { image: state.rust_logo, w: LOGO_SIDE, h: LOGO_SIDE },
    });
    out.push(WidgetDecl {
        id: ids.button_title,
        kind: DeclKind::Text { font_size: Some(SUBTITLE_SIZE) },
    });
    out.push(WidgetDecl { id: ids.button, kind: DeclKind::Button { w: BUTTON_SIDE, h: BUTTON_SIDE } });
    out.push(WidgetDecl {
        id: ids.xy_pad,
        kind: DeclKind::XyPad {
            x: pad_pos.x,
            y: pad_pos.y,
            min_x: bounds.min_x,
            max_x: bounds.max_x,
            min_y: bounds.min_y,
            max_y: bounds.max_y,
        },
    });
    out.push(WidgetDecl { id: ids.toggle, kind: DeclKind::Toggle { value: was_white } });
    out.push(WidgetDecl {
        id: ids.ball,
        kind: DeclKind::Ball {
            x: state.ball_xy.x,
            y: state.ball_xy.y - bounds.max_y - BALL_DROP,
            color: state.ball_color,
            radius: BALL_RADIUS,
        },
    });
    out.push(WidgetDecl {
        id: ids.dialer_title,
        kind: DeclKind::Text { font_size: Some(SUBTITLE_SIZE) },
    });
    out.push(WidgetDecl {
        id: ids.number_dialer,
        kind: DeclKind::NumberDialer {
            value: shown_frequency,
            min: FREQ_MIN,
            max: FREQ_MAX,
            precision: 1,
        },
    });
    out.push(WidgetDecl {
        id: ids.plot_path,
        kind: DeclKind::PlotPath { frequency: state.sine_frequency },
    });
    out.push(WidgetDecl { id: ids.canvas_scrollbar, kind: DeclKind::Scrollbar });
    out
}

} // verus!
