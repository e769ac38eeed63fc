//! What the picker's overlay shows, and where: the layout of the magnifier
//! window and the contents of one frame.

use crate::color::Color;
use crate::sampling::Frame;
use crate::sampling::Point;
use crate::text::push_signed_decimal;
use crate::text::signed_decimal;
use vstd::prelude::*;

verus! {

/// Size of the overlay window.
pub const MAGNIFIER_WIDTH: i32 = 280;

pub const MAGNIFIER_HEIGHT: i32 = 320;

/// Side of the square in which the capture is shown, magnified.
pub const PREVIEW_SIZE: i32 = 200;

/// Side of the square of screen that is captured around the pointer.
pub const CAPTURE_SIZE: i32 = 20;

/// How far right of and below the pointer the window stands.
pub const CURSOR_OFFSET: i32 = 30;

/// Distance of the preview from the left and top edge of the window.
pub const PREVIEW_MARGIN: i32 = 40;

/// Thickness of the border round the preview.
pub const BORDER_WIDTH: i32 = 2;

/// How far each arm of the crosshair reaches from the centre, and how far
/// from the centre it begins.
pub const CROSSHAIR_REACH: i32 = 15;

pub const CROSSHAIR_GAP: i32 = 3;

/// Opacity of the window, out of 255.
pub const OVERLAY_ALPHA: u8 = 240;

/// Height of the font.
pub const FONT_HEIGHT: i32 = 16;

/// Left edge of the text lines, the top of the first, and their pitch.
pub const TEXT_LEFT: i32 = 15;

pub const TEXT_TOP: i32 = 255;

pub const LINE_HEIGHT: i32 = 22;

/// Extra space above the help lines.
pub const HELP_GAP: i32 = 5;

/// The two lines of help at the bottom of the overlay.
pub const HELP_CONFIRM: &'static str = "左键: 确认  ESC: 取消";

pub const HELP_COPY: &'static str = "C: 复制  Shift: 切换格式";

/// A rectangle in window coordinates; `right` and `bottom` lie outside.
#[derive(Debug, Clone, Copy, PartialEq, Eq, Structural)]
pub struct Rect {
    pub left: i32,
    pub top: i32,
    pub right: i32,
    pub bottom: i32,
}

/// `v`, held within the range of `i32`.
pub open spec fn clamp_i32(v: int) -> i32 {
    if v < i32::MIN {
        i32::MIN
    } else if v > i32::MAX {
        i32::MAX
    } else {
        v as i32
    }
}

/// The rectangle with these four edges.
pub open spec fn rect_of(left: int, top: int, right: int, bottom: int) -> Rect {
    Rect { left: left as i32, top: top as i32, right: right as i32, bottom: bottom as i32 }
}

/// The four bars of the border: top, bottom, left, right.
pub open spec fn border_layout() -> Seq<Rect> {
    let inner = PREVIEW_MARGIN as int;
    let outer = PREVIEW_MARGIN - BORDER_WIDTH;
    let far = PREVIEW_MARGIN + PREVIEW_SIZE;
    let beyond = far + BORDER_WIDTH;
    seq![
        rect_of(outer, outer, beyond, inner),
        rect_of(outer, far, beyond, beyond),
        rect_of(outer, outer, inner, beyond),
        rect_of(far, outer, beyond, beyond),
    ]
}

/// The centre of the preview, in both directions.
pub open spec fn preview_center() -> int {
    PREVIEW_MARGIN + PREVIEW_SIZE / 2
}

/// The four arms of the crosshair: left, right, up, down.
pub open spec fn crosshair_layout() -> Seq<Rect> {
    let c = preview_center();
    seq![
        rect_of(c - CROSSHAIR_REACH, c - 1, c - CROSSHAIR_GAP, c + 1),
        rect_of(c + CROSSHAIR_GAP, c - 1, c + CROSSHAIR_REACH, c + 1),
        rect_of(c - 1, c - CROSSHAIR_REACH, c + 1, c - CROSSHAIR_GAP),
        rect_of(c - 1, c + CROSSHAIR_GAP, c + 1, c + CROSSHAIR_REACH),
    ]
}

/// The mark on the pixel at the centre.
pub open spec fn center_mark_layout() -> Rect {
    let c = preview_center();
    rect_of(c - 1, c - 1, c + 1, c + 1)
}

/// Where the four lines of text begin: coordinates, colour, and the two
/// lines of help.
pub open spec fn text_layout() -> Seq<Point> {
    seq![
        Point { x: TEXT_LEFT, y: TEXT_TOP },
        Point { x: TEXT_LEFT, y: (TEXT_TOP + LINE_HEIGHT) as i32 },
        Point { x: TEXT_LEFT, y: (TEXT_TOP + 2 * LINE_HEIGHT + HELP_GAP) as i32 },
        Point { x: TEXT_LEFT, y: (TEXT_TOP + 3 * LINE_HEIGHT + HELP_GAP) as i32 },
    ]
}

/// The window as a rectangle of its own.
pub fn window_rect() -> (rect: Rect)
    ensures
        rect == (Rect { left: 0, top: 0, right: MAGNIFIER_WIDTH, bottom: MAGNIFIER_HEIGHT }),
{
    Rect { left: 0, top: 0, right: MAGNIFIER_WIDTH, bottom: MAGNIFIER_HEIGHT }
}

/// The four bars of the border round the preview.
pub fn border_rects() -> (rects: [Rect; 4])
    ensures
        rects@ == border_layout(),
{
    let near = PREVIEW_MARGIN - BORDER_WIDTH;
    let far = PREVIEW_MARGIN + PREVIEW_SIZE;
    let rects = [
        Rect { left: near, top: near, right: far + BORDER_WIDTH, bottom: PREVIEW_MARGIN },
        Rect { left: near, top: far, right: far + BORDER_WIDTH, bottom: far + BORDER_WIDTH },
        Rect { left: near, top: near, right: PREVIEW_MARGIN, bottom: far + BORDER_WIDTH },
        Rect { left: far, top: near, right: far + BORDER_WIDTH, bottom: far + BORDER_WIDTH },
    ];
    assert(rects@ =~= border_layout());
    rects
}

/// The four arms of the crosshair.
pub fn crosshair_rects() -> (rects: [Rect; 4])
    ensures
        rects@ == crosshair_layout(),
{
    let c = PREVIEW_MARGIN + PREVIEW_SIZE / 2;
    let rects = [
        Rect { left: c - CROSSHAIR_REACH, top: c - 1, right: c - CROSSHAIR_GAP, bottom: c + 1 },
        Rect { left: c + CROSSHAIR_GAP, top: c - 1, right: c + CROSSHAIR_REACH, bottom: c + 1 },
        Rect { left: c - 1, top: c - CROSSHAIR_REACH, right: c + 1, bottom: c - CROSSHAIR_GAP },
        Rect { left: c - 1, top: c + CROSSHAIR_GAP, right: c + 1, bottom: c + CROSSHAIR_REACH },
    ];
    assert(rects@ =~= crosshair_layout());
    rects
}

/// The mark on the pixel at the centre of the preview.
pub fn center_mark() -> (rect: Rect)
    ensures
        rect == center_mark_layout(),
{
    let c = PREVIEW_MARGIN + PREVIEW_SIZE / 2;
    Rect { left: c - 1, top: c - 1, right: c + 1, bottom: c + 1 }
}

/// Where the four lines of text begin.
pub fn text_origins() -> (origins: [Point; 4])
    ensures
        origins@ == text_layout(),
{
    let origins = [
        Point { x: TEXT_LEFT, y: TEXT_TOP },
        Point { x: TEXT_LEFT, y: TEXT_TOP + LINE_HEIGHT },
        Point { x: TEXT_LEFT, y: TEXT_TOP + 2 * LINE_HEIGHT + HELP_GAP },
        Point { x: TEXT_LEFT, y: TEXT_TOP + 3 * LINE_HEIGHT + HELP_GAP },
    ];
    assert(origins@ =~= text_layout());
    origins
}

/// The colours of the overlay: background, border and centre mark,
/// crosshair, text, help.
pub fn background_color() -> (color: Color)
    ensures
        color == (Color { r: 45, g: 45, b: 48 }),
{
    Color { r: 45, g: 45, b: 48 }
}

pub fn border_color() -> (color: Color)
    ensures
        color == (Color { r: 255, g: 255, b: 255 }),
{
    Color { r: 255, g: 255, b: 255 }
}

pub fn crosshair_color() -> (color: Color)
    ensures
        color == (Color { r: 0, g: 255, b: 255 }),
{
    Color { r: 0, g: 255, b: 255 }
}

pub fn text_color() -> (color: Color)
    ensures
        color == (Color { r: 255, g: 255, b: 255 }),
{
    Color { r: 255, g: 255, b: 255 }
}

pub fn help_color() -> (color: Color)
    ensures
        color == (Color { r: 180, g: 180, b: 180 }),
{
    Color { r: 180, g: 180, b: 180 }
}

fn shifted(v: i32, by: i32) -> (out: i32)
    ensures
        out == clamp_i32(v + by),
{
    let wide: i64 = v as i64 + by as i64;
    if wide < i32::MIN as i64 {
        i32::MIN
    } else if wide > i32::MAX as i64 {
        i32::MAX
    } else {
        wide as i32
    }
}

impl Frame {
    /// Where the window stands: right of and below the pointer, held on the
    /// range of `i32`.
    pub open spec fn window_origin(self) -> Point {
        Point {
            x: clamp_i32(self.cursor.x + CURSOR_OFFSET),
            y: clamp_i32(self.cursor.y + CURSOR_OFFSET),
        }
    }

    /// The top left corner of the captured square, which has the pointer at
    /// its centre.
    pub open spec fn capture_corner(self) -> Point {
        Point {
            x: clamp_i32(self.cursor.x - CAPTURE_SIZE / 2),
            y: clamp_i32(self.cursor.y - CAPTURE_SIZE / 2),
        }
    }

    /// The line that shows the pointer's coordinates.
    pub open spec fn coord_line(self) -> Seq<char> {
        "坐标: ("@ + signed_decimal(self.cursor.x as int) + ", "@ + signed_decimal(
            self.cursor.y as int,
        ) + ")"@
    }

    /// Where the window stands.
    pub fn window_pos(&self) -> (pos: Point)
        ensures
            pos == self.window_origin(),
    {
        Point { x: shifted(self.cursor.x, CURSOR_OFFSET), y: shifted(self.cursor.y, CURSOR_OFFSET) }
    }

    /// The top left corner of the square of screen to capture.
    pub fn capture_origin(&self) -> (pos: Point)
        ensures
            pos == self.capture_corner(),
    {
        let half = CAPTURE_SIZE / 2;
        Point { x: shifted(self.cursor.x, -half), y: shifted(self.cursor.y, -half) }
    }

    /// The line that shows the pointer's coordinates.
    pub fn coord_text(&self) -> (text: String)
        ensures
            text@ == self.coord_line(),
    {
        let mut text = String::new();
        text.append("坐标: (");
        push_signed_decimal(&mut text, self.cursor.x);
        text.append(", ");
        push_signed_decimal(&mut text, self.cursor.y);
        text.append(")");
        text
    }

    /// The line that shows the colour, in the current format.
    pub fn color_text(&self) -> (text: String)
        ensures
            text@ == self.color.overlay_text(self.format),
    {
        self.color.to_overlay_text(self.format)
    }
}

} // verus!
