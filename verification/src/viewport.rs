//! Mapping between pixels and buffer positions for the visible window.

use crate::text_editor::{clamp_line, Pos, TextEditor};
use vstd::prelude::*;

verus! {

/// A rectangle in pixels, from its upper left corner to its lower right one.
#[derive(Clone, Copy, Debug, PartialEq, Eq)]
pub struct Rect {
    pub min: Pos<i64>,
    pub max: Pos<i64>,
}

/// The lines that are drawn: `first_line_index` up to, and without,
/// `last_line_index`.
#[derive(Clone, Copy, Debug, PartialEq, Eq)]
pub struct ViewportWindow {
    pub first_line_index: usize,
    pub last_line_index: usize,
}

/// What the host reports of the text area: its corners, the size of a
/// character cell and how far the content is scrolled, all in pixels.
#[derive(Clone, Copy, Debug, PartialEq, Eq)]
pub struct Geometry {
    pub viewport_min: Pos<u32>,
    pub viewport_max: Pos<u32>,
    pub line_height: u32,
    pub char_width: u32,
    pub scroll_offset: Pos<u32>,
}

/// `v` as a pixel coordinate: values that a coordinate cannot hold become the
/// nearest one that it can.
pub open spec fn pixel(v: int) -> i64 {
    if v < i64::MIN {
        i64::MIN
    } else if v > i64::MAX {
        i64::MAX
    } else {
        v as i64
    }
}

/// `v` as an index: values that an index cannot hold become the nearest one
/// that it can.
pub open spec fn index(v: int) -> usize {
    if v < 0 {
        0
    } else if v > usize::MAX {
        usize::MAX
    } else {
        v as usize
    }
}

/// `v` as a scroll offset: values that an offset cannot hold become the
/// nearest one that it can.
pub open spec fn offset(v: int) -> u32 {
    if v < 0 {
        0
    } else if v > u32::MAX {
        u32::MAX
    } else {
        v as u32
    }
}

/// The decimal digits of `number`, counted up to nine.
pub open spec fn digits(number: int) -> int {
    if number >= 100_000_000 {
        9
    } else if number >= 10_000_000 {
        8
    } else if number >= 1_000_000 {
        7
    } else if number >= 100_000 {
        6
    } else if number >= 10_000 {
        5
    } else if number >= 1_000 {
        4
    } else if number >= 100 {
        3
    } else if number >= 10 {
        2
    } else {
        1
    }
}

impl Geometry {
    /// A character cell has an extent in both directions.
    pub open spec fn valid(self) -> bool {
        self.line_height > 0 && self.char_width > 0
    }

    pub open spec fn height(self) -> int {
        if self.viewport_max.y >= self.viewport_min.y {
            self.viewport_max.y - self.viewport_min.y
        } else {
            0
        }
    }

    pub open spec fn width(self) -> int {
        if self.viewport_max.x >= self.viewport_min.x {
            self.viewport_max.x - self.viewport_min.x
        } else {
            0
        }
    }

    /// Where place 0 of a line is drawn.
    pub open spec fn line_x_offset(self) -> int {
        self.viewport_min.x - self.scroll_offset.x / 2
    }

    /// Where place `i` of a line is drawn.
    pub open spec fn index_to_x(self, i: int) -> int {
        i * self.char_width + self.line_x_offset()
    }

    /// How far line `i` lies below the top of the document.
    pub open spec fn index_to_y(self, i: int) -> int {
        i * self.line_height
    }

    /// How far line `i` lies below the first visible line.
    pub open spec fn index_to_y_in_virtual_scroll(self, i: int, first_visible: int) -> int {
        (i - first_visible) * self.line_height
    }

    /// The place on a line that lies `x` pixels right of place 0.
    pub open spec fn x_to_index(self, x: int) -> int {
        if x <= 0 {
            0
        } else {
            x / (self.char_width as int)
        }
    }

    /// The line that lies `y` pixels below the top of the text area.
    pub open spec fn y_to_index(self, y: int) -> int {
        if y + self.scroll_offset.y <= 0 {
            0
        } else {
            (y + self.scroll_offset.y) / (self.line_height as int)
        }
    }

    /// The position under the pointer at `p`.
    pub open spec fn pixel_to_index(self, p: Pos<u32>) -> Pos<usize> {
        Pos {
            x: index(self.x_to_index(p.x - self.line_x_offset())),
            y: index(self.y_to_index(p.y - self.viewport_min.y)),
        }
    }

    /// Where the position `p` is drawn, measured from the top of the document.
    pub open spec fn index_to_pixel(self, p: Pos<usize>) -> Pos<i64> {
        Pos { x: pixel(self.index_to_x(p.x as int)), y: pixel(self.index_to_y(p.y as int)) }
    }

    /// The first line that is drawn in a document of `line_count` lines: the
    /// line the scroll offset points at, or, where the document ends before
    /// it, the last line but one (the only line of a document of one).
    pub open spec fn first_visible_line(self, line_count: int) -> int {
        let raw = self.scroll_offset.y / self.line_height;
        if raw <= line_count - 1 {
            raw as int
        } else if line_count > 1 {
            line_count - 2
        } else {
            0
        }
    }

    /// The lines that fit into the text area, a cut one counted whole.
    pub open spec fn lines_per_page(self) -> int {
        (self.height() + self.line_height - 1) / (self.line_height as int)
    }

    /// The end of the lines that are drawn from line `first` on.
    pub open spec fn last_visible_line(self, first: int, line_count: int) -> int {
        if first + self.lines_per_page() <= line_count {
            first + self.lines_per_page()
        } else {
            line_count
        }
    }

    /// The lines that are drawn of a document of `line_count` lines.
    pub open spec fn window(self, line_count: int) -> ViewportWindow {
        let first = self.first_visible_line(line_count);
        ViewportWindow {
            first_line_index: index(first),
            last_line_index: index(self.last_visible_line(first, line_count)),
        }
    }

    /// The scroll offset after one correction that brings the caret at
    /// `cursor` towards the text area: down or up by whole lines until its
    /// line shows, and sideways by at most one step.
    pub open spec fn scrolled_to(self, cursor: Pos<usize>) -> Pos<u32> {
        let slack = self.scroll_offset.y + self.height() - self.line_height - self.index_to_y(
            cursor.y as int,
        );
        let y = if slack < 0 {
            self.scroll_offset.y + ((-slack) / (self.line_height as int) + 1) * self.line_height
        } else if slack > self.height() {
            self.scroll_offset.y - ((slack - self.height()) / (self.line_height as int) + 1)
                * self.line_height
        } else {
            self.scroll_offset.y as int
        };
        let caret = self.index_to_x(cursor.x as int);
        let x = if caret - self.viewport_min.x < 0 {
            self.scroll_offset.x + caret - self.viewport_min.x - self.char_width
        } else if caret > self.width() + self.viewport_min.x - 2 * self.char_width {
            self.scroll_offset.x + self.char_width
        } else {
            self.scroll_offset.x as int
        };
        Pos { x: offset(x), y: offset(y) }
    }
}

/// `v` as a pixel coordinate.
pub(crate) fn to_pixel(v: i128) -> (p: i64)
    ensures
        p == pixel(v as int),
{
    if v < i64::MIN as i128 {
        i64::MIN
    } else if v > i64::MAX as i128 {
        i64::MAX
    } else {
        v as i64
    }
}

/// `v` as an index.
pub(crate) fn to_index(v: i128) -> (i: usize)
    ensures
        i == index(v as int),
{
    if v < 0 {
        0
    } else if v > usize::MAX as i128 {
        usize::MAX
    } else {
        v as usize
    }
}

/// `v` as a scroll offset.
pub(crate) fn to_offset(v: i128) -> (o: u32)
    ensures
        o == offset(v as int),
{
    if v < 0 {
        0
    } else if v > u32::MAX as i128 {
        u32::MAX
    } else {
        v as u32
    }
}

/// `i * size`, which a wide integer always holds.
pub(crate) fn scaled(i: i128, size: u32) -> (v: i128)
    requires
        -0x1_0000_0000_0000_0000 <= i <= 0x1_0000_0000_0000_0000,
    ensures
        v == i * size,
        -0x1_0000_0000_0000_0000_0000_0000 <= v <= 0x1_0000_0000_0000_0000_0000_0000,
{
    assert(-0x1_0000_0000_0000_0000_0000_0000 <= i * size <= 0x1_0000_0000_0000_0000_0000_0000)
        by (nonlinear_arith)
        requires
            -0x1_0000_0000_0000_0000 <= i <= 0x1_0000_0000_0000_0000,
            0 <= size <= 0xffff_ffff,
    ;
    i * (size as i128)
}

/// The least multiple of `size` above `gap`.
fn whole_steps(gap: i128, size: u32) -> (v: i128)
    requires
        0 <= gap <= 0x1_0000_0000_0000_0000_0000_0000_0000,
        size > 0,
    ensures
        v == ((gap as int) / (size as int) + 1) * size,
        0 <= v <= gap + size,
{
    let steps = gap / size as i128;
    let ghost g = gap as int;
    let ghost d = size as int;
    assert(0 <= (g / d) * d <= g && (g / d + 1) * d == (g / d) * d + d && 0 <= g / d)
        by (nonlinear_arith)
        requires
            0 <= g,
            d > 0,
    ;
    (steps + 1) * (size as i128)
}

impl TextEditor {
    /// The scroll offset after one correction that brings the caret towards
    /// the text area.
    pub fn scrolled_to_cursor(&self) -> (scroll_offset: Pos<u32>)
        requires
            self.model().grounded(),
        ensures
            scroll_offset == self.model().geometry.scrolled_to(self.model().cursor),
    {
        let g = &self.geometry;
        let height: i128 = if g.viewport_max.y >= g.viewport_min.y {
            (g.viewport_max.y - g.viewport_min.y) as i128
        } else {
            0
        };
        let width: i128 = if g.viewport_max.x >= g.viewport_min.x {
            (g.viewport_max.x - g.viewport_min.x) as i128
        } else {
            0
        };
        let slack = g.scroll_offset.y as i128 + height - g.line_height as i128 - scaled(
            self.cursor_index.y as i128,
            g.line_height,
        );
        let y = if slack < 0 {
            g.scroll_offset.y as i128 + whole_steps(-slack, g.line_height)
        } else if slack > height {
            g.scroll_offset.y as i128 - whole_steps(slack - height, g.line_height)
        } else {
            g.scroll_offset.y as i128
        };
        let caret = scaled(self.cursor_index.x as i128, g.char_width) + self.line_x_offset() as i128;
        let x = if caret - (g.viewport_min.x as i128) < 0 {
            g.scroll_offset.x as i128 + caret - g.viewport_min.x as i128 - g.char_width as i128
        } else if caret > width + g.viewport_min.x as i128 - 2 * (g.char_width as i128) {
            g.scroll_offset.x as i128 + g.char_width as i128
        } else {
            g.scroll_offset.x as i128
        };
        Pos { x: to_offset(x), y: to_offset(y) }
    }

    /// The decimal digits of `number`, counted up to nine.
    pub fn count_digit(number: usize) -> (count: usize)
        ensures
            count == digits(number as int),
    {
        if number >= 100_000_000 {
            9
        } else if number >= 10_000_000 {
            8
        } else if number >= 1_000_000 {
            7
        } else if number >= 100_000 {
            6
        } else if number >= 10_000 {
            5
        } else if number >= 1_000 {
            4
        } else if number >= 100 {
            3
        } else if number >= 10 {
            2
        } else {
            1
        }
    }

    /// Where place 0 of a line is drawn.
    pub fn line_x_offset(&self) -> (x: i64)
        ensures
            x == self.model().geometry.line_x_offset(),
    {
        self.geometry.viewport_min.x as i64 - (self.geometry.scroll_offset.x / 2) as i64
    }

    /// Where place `index` of a line is drawn.
    pub fn index_to_x(&self, index: usize) -> (x: i64)
        ensures
            x == pixel(self.model().geometry.index_to_x(index as int)),
    {
        to_pixel(scaled(index as i128, self.geometry.char_width) + self.line_x_offset() as i128)
    }

    /// How far line `index` lies below the top of the document.
    pub fn index_to_y(&self, index: usize) -> (y: i64)
        ensures
            y == pixel(self.model().geometry.index_to_y(index as int)),
    {
        to_pixel(scaled(index as i128, self.geometry.line_height))
    }

    /// How far line `index` lies below the line `first_visible_index`.
    pub fn index_to_y_in_virtual_scroll(&self, index: usize, first_visible_index: usize) -> (y:
        i64)
        ensures
            y == pixel(
                self.model().geometry.index_to_y_in_virtual_scroll(
                    index as int,
                    first_visible_index as int,
                ),
            ),
    {
        to_pixel(
            scaled(index as i128 - first_visible_index as i128, self.geometry.line_height),
        )
    }

    /// The upper edge of line `index` on the screen, when `first_visible_index`
    /// is the first line drawn.
    pub fn row_top(&self, index: usize, first_visible_index: usize) -> (y: i64)
        ensures
            y == self.model().geometry.row_top(index as int, first_visible_index as int),
    {
        to_pixel(
            self.geometry.viewport_min.y as i128 + scaled(
                index as i128 - first_visible_index as i128,
                self.geometry.line_height,
            ),
        )
    }

    /// The lower edge of line `index` on the screen, when `first_visible_index`
    /// is the first line drawn.
    pub fn row_bottom(&self, index: usize, first_visible_index: usize) -> (y: i64)
        ensures
            y == self.model().geometry.row_bottom(index as int, first_visible_index as int),
    {
        to_pixel(
            self.geometry.viewport_min.y as i128 + scaled(
                index as i128 - first_visible_index as i128,
                self.geometry.line_height,
            ) + self.geometry.line_height as i128,
        )
    }

    /// Where the position `index` is drawn, measured from the top of the
    /// document.
    pub fn index_to_pos(&self, index: Pos<usize>) -> (p: Pos<i64>)
        ensures
            p == self.model().geometry.index_to_pixel(index),
    {
        Pos { x: self.index_to_x(index.x), y: self.index_to_y(index.y) }
    }

    /// The place on a line that lies `x` pixels right of place 0.
    pub fn x_to_index(&self, x: i64) -> (i: usize)
        requires
            self.model().geometry.valid(),
        ensures
            i == index(self.model().geometry.x_to_index(x as int)),
    {
        if x <= 0 {
            0
        } else {
            to_index((x / self.geometry.char_width as i64) as i128)
        }
    }

    /// The line that lies `y` pixels below the top of the text area.
    pub fn y_to_index(&self, y: i64) -> (i: usize)
        requires
            self.model().geometry.valid(),
        ensures
            i == index(self.model().geometry.y_to_index(y as int)),
    {
        let below = y as i128 + self.geometry.scroll_offset.y as i128;
        if below <= 0 {
            0
        } else {
            to_index(below / self.geometry.line_height as i128)
        }
    }

    /// The position under the pointer at `p`.
    pub fn pixel_to_index(&self, p: Pos<u32>) -> (at: Pos<usize>)
        requires
            self.model().geometry.valid(),
        ensures
            at == self.model().geometry.pixel_to_index(p),
    {
        Pos {
            x: self.x_to_index(p.x as i64 - self.line_x_offset()),
            y: self.y_to_index(p.y as i64 - self.geometry.viewport_min.y as i64),
        }
    }

    /// The line that lies `y` pixels below the top of the text area, or the
    /// last line where the document ends above.
    pub fn line_at(&self, y: i64) -> (line: &str)
        requires
            self.model().grounded(),
        ensures
            line@ == self.model().text[clamp_line(
                self.model().text,
                index(self.model().geometry.y_to_index(y as int)) as int,
            ) as int],
    {
        let at = self.y_to_index(y);
        let at = if at < self.lines.len() {
            at
        } else {
            self.lines.len() - 1
        };
        self.lines[at].as_str()
    }

    /// The first line that is drawn.
    pub fn first_line_index(&self) -> (first: usize)
        requires
            self.model().grounded(),
        ensures
            first == self.model().geometry.first_visible_line(self.model().text.len() as int),
            first < self.model().text.len(),
    {
        let count = self.lines.len();
        let raw = self.geometry.scroll_offset.y / self.geometry.line_height;
        if raw as u64 <= (count - 1) as u64 {
            raw as usize
        } else if count > 1 {
            count - 2
        } else {
            0
        }
    }

    /// The end of the lines that are drawn from `first_line_index` on.
    pub fn last_line_index(&self, first_line_index: usize) -> (last: usize)
        requires
            self.model().grounded(),
        ensures
            last == index(
                self.model().geometry.last_visible_line(
                    first_line_index as int,
                    self.model().text.len() as int,
                ),
            ),
            last <= self.model().text.len(),
    {
        let count = self.lines.len();
        let height = if self.geometry.viewport_max.y >= self.geometry.viewport_min.y {
            self.geometry.viewport_max.y - self.geometry.viewport_min.y
        } else {
            0
        };
        let page = (height as u64 + self.geometry.line_height as u64 - 1)
            / self.geometry.line_height as u64;
        if first_line_index as u128 + page as u128 <= count as u128 {
            (first_line_index as u128 + page as u128) as usize
        } else {
            count
        }
    }

    /// The lines that are drawn.
    pub fn window(&self) -> (window: ViewportWindow)
        requires
            self.model().grounded(),
        ensures
            window == self.model().geometry.window(self.model().text.len() as int),
            window.first_line_index < self.model().text.len(),
            window.last_line_index <= self.model().text.len(),
    {
        let first_line_index = self.first_line_index();
        ViewportWindow { first_line_index, last_line_index: self.last_line_index(first_line_index) }
    }
}

} // verus!
