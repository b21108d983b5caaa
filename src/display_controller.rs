use vstd::prelude::*;
use crate::cell_map::CellMap;
use crate::drawable::{Drawable, DrawableState};
use crate::element::{default_element, Color, Element};
use crate::point::{fits_i64, Point};

verus! {

/// What can go wrong while setting up the display or drawing into it.
#[derive(Clone, Copy, Debug, PartialEq, Eq, Structural)]
pub enum DisplayControllerError {
    /// The requested play area is larger than the terminal on some axis.
    DisplayTooSmallForDimensions,
    /// A draw call targeted a position outside the play area.
    PositionOutOfRange,
    /// The terminal layer reported a failure.
    TerminalError,
}

/// The axis along which a line is drawn: `Horizontal` left to right,
/// `Vertical` top to bottom.
#[derive(Clone, Copy, Debug, PartialEq, Eq, Structural)]
pub enum Direction {
    Vertical,
    Horizontal,
}

/// Owns the full-screen buffer and draws into it in play-area coordinates.
///
/// The play area of size `dimensions` is centred on a screen of size
/// `screen_size`: a play-area position `p` is stored at buffer position
/// `offset + p`. All bounds checks are made in play-area coordinates.
pub struct DisplayController {
    dimensions: Point,
    offset: Point,
    screen_size: Point,
    display: CellMap,
    default_element: Element,
}

/// The look of the play-area border drawn at construction.
pub open spec fn border_element() -> Element {
    Element { value: 'x', foreground: Color::Blue, background: Color::Green }
}

/// What a buffer cell shows: its element, or `blank` when it is empty.
pub open spec fn shown(cell: Option<Element>, blank: Element) -> Element {
    match cell {
        Some(e) => e,
        None => blank,
    }
}

/// The first `len` cells of a line from `(sx, sy)` along `direction` hold `(x, y)`.
pub open spec fn line_covers(sx: int, sy: int, direction: Direction, len: int, x: int, y: int) -> bool {
    match direction {
        Direction::Horizontal => y == sy && sx <= x < sx + len,
        Direction::Vertical => x == sx && sy <= y < sy + len,
    }
}

/// `(x, y)` lies on the border of the rectangle of size `dims` whose top-left
/// corner is `start`: its top and bottom rows, its left and right columns.
pub open spec fn rect_border_covers(start: Point, dims: Point, x: int, y: int) -> bool {
    ||| line_covers(start.width as int, start.height as int, Direction::Horizontal, dims.width as int, x, y)
    ||| line_covers(start.width as int, start.height + dims.height - 1, Direction::Horizontal, dims.width as int, x, y)
    ||| line_covers(start.width as int, start.height as int, Direction::Vertical, dims.height as int, x, y)
    ||| line_covers(start.width + dims.width - 1, start.height as int, Direction::Vertical, dims.height as int, x, y)
}

/// The sprite cell of `state` that lands on the play-area position
/// `(x, y)`, counting only sprite rows before `row_limit` and, in that row,
/// columns before `col_limit`; `None` where no non-empty one does.
pub open spec fn sprite_cell_before(state: DrawableState, x: int, y: int, row_limit: int, col_limit: int) -> Option<
    Element,
> {
    let sx = x - state.location.width;
    let sy = y - state.location.height;
    if 0 <= sx < state.layout.dimensions.width && 0 <= sy < state.layout.dimensions.height && (sy < row_limit || (sy
        == row_limit && sx < col_limit)) {
        state.layout.cell(sx, sy)
    } else {
        None
    }
}

/// The non-empty sprite cell of `state` that lands on the play-area
/// position `(x, y)`, if any.
pub open spec fn sprite_cell(state: DrawableState, x: int, y: int) -> Option<Element> {
    sprite_cell_before(state, x, y, state.layout.dimensions.height as int, 0)
}

/// A rectangle drawn at the origin of the play area covers exactly its
/// border cells: row `0`, row `h - 1`, column `0` and column `w - 1`, within
/// the rectangle, and none of its interior cells. (A rectangle with one
/// side zero and the other not is a bare line that leaves the rectangle.)
pub proof fn lemma_rect_at_origin_is_border(dims: Point, x: int, y: int)
    requires
        dims.width >= 0,
        dims.height >= 0,
        (dims.width == 0) == (dims.height == 0),
    ensures
        rect_border_covers(Point { width: 0, height: 0 }, dims, x, y) <==> (
            0 <= x < dims.width && 0 <= y < dims.height && (y == 0 || y == dims.height - 1 || x == 0 || x == dims.width - 1)),
{
}

/// A cleared buffer shows every cell as the blank element.
pub proof fn lemma_cleared_frame_is_blank(c: &DisplayController)
    requires
        c.is_clear(),
    ensures
        c.frame() == Seq::new(c.buffer().len(), |i: int| c.default_view()),
{
    assert(c.frame() =~= Seq::new(c.buffer().len(), |i: int| c.default_view()));
}

/// What a well-formed controller's buffer looks like from outside: one cell
/// per screen position stored row by row, and a play area that lies on the
/// screen once shifted by the offset.
pub proof fn lemma_buffer_layout(c: &DisplayController)
    requires
        c.wf(),
    ensures
        c.buffer().len() == c.screen_view().width * c.screen_view().height,
        0 <= c.dimensions_view().width && 0 <= c.dimensions_view().height,
        0 <= c.offset_view().width && 0 <= c.offset_view().height,
        c.offset_view().width + c.dimensions_view().width <= c.screen_view().width,
        c.offset_view().height + c.dimensions_view().height <= c.screen_view().height,
        forall|x: int, y: int|
            #![trigger c.buffer_cell(x, y)]
            c.on_screen(x, y) ==> 0 <= y * c.screen_view().width + x < c.buffer().len() && c.buffer_cell(x, y)
                == c.buffer()[y * c.screen_view().width + x],
{
    assert forall|x: int, y: int|
        #![trigger c.buffer_cell(x, y)]
        c.on_screen(x, y) implies 0 <= y * c.screen_view().width + x < c.buffer().len() && c.buffer_cell(x, y)
            == c.buffer()[y * c.screen_view().width + x] by {
        crate::cell_map::lemma_grid_index(
            c.screen_view().width as int,
            c.screen_view().height as int,
            x,
            y,
            x,
            y,
        );
    }
}

impl DisplayController {
    pub closed spec fn dimensions_view(&self) -> Point {
        self.dimensions
    }

    pub closed spec fn offset_view(&self) -> Point {
        self.offset
    }

    pub closed spec fn screen_view(&self) -> Point {
        self.screen_size
    }

    /// The element an empty cell is shown as.
    pub closed spec fn default_view(&self) -> Element {
        self.default_element
    }

    /// The buffer, row by row.
    pub closed spec fn buffer(&self) -> Seq<Option<Element>> {
        self.display.cells@
    }

    /// The buffer cell in column `x` of row `y` (buffer coordinates).
    pub closed spec fn buffer_cell(&self, x: int, y: int) -> Option<Element> {
        self.display.cell(x, y)
    }

    /// The controller's invariant: the play area fits the screen, the offset
    /// centres it, and the buffer has one cell per screen position.
    pub closed spec fn wf(&self) -> bool {
        &&& 0 <= self.dimensions.width <= self.screen_size.width <= u16::MAX
        &&& 0 <= self.dimensions.height <= self.screen_size.height <= u16::MAX
        &&& self.offset.width == (self.screen_size.width - self.dimensions.width) / 2
        &&& self.offset.height == (self.screen_size.height - self.dimensions.height) / 2
        &&& self.display.wf()
        &&& self.display.width == self.screen_size.width
        &&& self.display.height == self.screen_size.height
    }

    /// `(x, y)` is a position of the play area (play-area coordinates).
    pub open spec fn in_play_area(&self, x: int, y: int) -> bool {
        0 <= x < self.dimensions_view().width && 0 <= y < self.dimensions_view().height
    }

    /// `(x, y)` is a position of the screen (buffer coordinates).
    pub open spec fn on_screen(&self, x: int, y: int) -> bool {
        0 <= x < self.screen_view().width && 0 <= y < self.screen_view().height
    }

    /// Every buffer cell is empty.
    pub open spec fn is_clear(&self) -> bool {
        forall|i: int| 0 <= i < self.buffer().len() ==> #[trigger] self.buffer()[i] is None
    }

    /// What the screen shows, row by row.
    pub open spec fn frame(&self) -> Seq<Element> {
        Seq::new(self.buffer().len(), |i: int| shown(self.buffer()[i], self.default_view()))
    }

    /// Everything but the buffer's contents is the same in both.
    pub open spec fn same_frame(&self, other: &DisplayController) -> bool {
        &&& self.dimensions_view() == other.dimensions_view()
        &&& self.offset_view() == other.offset_view()
        &&& self.screen_view() == other.screen_view()
        &&& self.default_view() == other.default_view()
        &&& self.buffer().len() == other.buffer().len()
    }

    /// How many cells of a line from `start` along `direction` can be drawn
    /// before the first one outside the play area (at most `len`).
    pub open spec fn line_prefix(&self, start: Point, direction: Direction, len: int) -> int {
        if len <= 0 || !self.in_play_area(start.width as int, start.height as int) {
            0
        } else {
            let room = match direction {
                Direction::Horizontal => self.dimensions_view().width - start.width,
                Direction::Vertical => self.dimensions_view().height - start.height,
            };
            if len <= room {
                len
            } else {
                room
            }
        }
    }

    /// Every cell of the line lies in the play area.
    pub open spec fn line_fits(&self, start: Point, direction: Direction, len: int) -> bool {
        self.line_prefix(start, direction, len) == len
    }

    /// Every border cell of the rectangle lies in the play area.
    pub open spec fn rect_fits(&self, start: Point, dims: Point) -> bool {
        &&& self.line_fits(start, Direction::Horizontal, dims.width as int)
        &&& self.line_fits(
            Point { width: start.width, height: (start.height + dims.height - 1) as i64 },
            Direction::Horizontal,
            dims.width as int,
        )
        &&& self.line_fits(start, Direction::Vertical, dims.height as int)
        &&& self.line_fits(
            Point { width: (start.width + dims.width - 1) as i64, height: start.height },
            Direction::Vertical,
            dims.height as int,
        )
    }

    /// A controller for a screen of `columns` by `rows` cells whose play area
    /// of size `dimensions` is centred on it, with the play area's border
    /// already drawn. Fails with `DisplayTooSmallForDimensions` when the play
    /// area is wider or taller than the screen, and with `PositionOutOfRange`
    /// when exactly one of its sides is zero (its border leaves the area).
    pub fn new(dimensions: &Point, columns: u16, rows: u16) -> (r: Result<DisplayController, DisplayControllerError>)
        requires
            dimensions.width >= 0,
            dimensions.height >= 0,
        ensures
            r == Err::<DisplayController, DisplayControllerError>(DisplayControllerError::DisplayTooSmallForDimensions)
                <==> (dimensions.width > columns || dimensions.height > rows),
            r == Err::<DisplayController, DisplayControllerError>(DisplayControllerError::PositionOutOfRange) <==> (
            dimensions.width <= columns && dimensions.height <= rows && (dimensions.width == 0) != (dimensions.height
                == 0)),
            r is Err ==> r == Err::<DisplayController, DisplayControllerError>(
                DisplayControllerError::DisplayTooSmallForDimensions,
            ) || r == Err::<DisplayController, DisplayControllerError>(DisplayControllerError::PositionOutOfRange),
            r is Ok ==> {
                let c = r->Ok_0;
                &&& c.wf()
                &&& c.dimensions_view() == *dimensions
                &&& c.screen_view() == Point { width: columns as i64, height: rows as i64 }
                &&& c.offset_view() == Point {
                    width: ((columns - dimensions.width) / 2) as i64,
                    height: ((rows - dimensions.height) / 2) as i64,
                }
                &&& c.default_view() == default_element()
                &&& c.buffer().len() == columns * rows
                &&& forall|x: int, y: int|
                    #![trigger c.buffer_cell(x, y)]
                    c.on_screen(x, y) ==> c.buffer_cell(x, y) == if rect_border_covers(
                        Point { width: 0, height: 0 },
                        *dimensions,
                        x - c.offset_view().width,
                        y - c.offset_view().height,
                    ) {
                        Some(border_element())
                    } else {
                        None
                    }
            },
    {
        if dimensions.width > columns as i64 || dimensions.height > rows as i64 {
            return Err(DisplayControllerError::DisplayTooSmallForDimensions);
        }
        let screen_size = Point::new(columns as i64, rows as i64);
        proof {
            let (c, w) = (columns as int, rows as int);
            assert(c * w <= 0xffff * 0xffff) by (nonlinear_arith)
                requires
                    0 <= c <= 0xffff,
                    0 <= w <= 0xffff,
            ;
        }
        let offset = screen_size.sub(*dimensions).div(Point::new(2, 2));
        let mut controller = DisplayController {
            dimensions: *dimensions,
            offset,
            screen_size,
            display: CellMap::new(columns as usize, rows as usize),
            default_element: Element::default(),
        };
        proof {
            assert forall|x: int, y: int|
                #![trigger controller.buffer_cell(x, y)]
                controller.on_screen(x, y) implies controller.buffer_cell(x, y) is None by {
                crate::cell_map::lemma_grid_index(columns as int, rows as int, x, y, x, y);
            }
        }
        let drawn = controller.draw_borders();
        if drawn.is_err() {
            return Err(DisplayControllerError::PositionOutOfRange);
        }
        Ok(controller)
    }

    /// Draws the border of the whole play area.
    fn draw_borders(&mut self) -> (r: Result<(), DisplayControllerError>)
        requires
            old(self).wf(),
        ensures
            final(self).wf(),
            final(self).same_frame(old(self)),
            r is Ok <==> old(self).rect_fits(Point { width: 0, height: 0 }, old(self).dimensions_view()),
            r is Ok ==> forall|x: int, y: int|
                #![trigger final(self).buffer_cell(x, y)]
                old(self).on_screen(x, y) ==> final(self).buffer_cell(x, y) == if rect_border_covers(
                    Point { width: 0, height: 0 },
                    old(self).dimensions_view(),
                    x - old(self).offset_view().width,
                    y - old(self).offset_view().height,
                ) {
                    Some(border_element())
                } else {
                    old(self).buffer_cell(x, y)
                },
    {
        let dimensions = self.dimensions;
        self.draw_rect(&Point::new(0, 0), &dimensions, Element::new('x', Color::Blue, Color::Green))
    }

    /// Empties every buffer cell.
    pub fn reset(&mut self)
        requires
            old(self).wf(),
        ensures
            final(self).wf(),
            final(self).same_frame(old(self)),
            final(self).is_clear(),
            forall|x: int, y: int|
                #![trigger final(self).buffer_cell(x, y)]
                old(self).on_screen(x, y) ==> final(self).buffer_cell(x, y) is None,
    {
        self.display.reset();
        proof {
            lemma_buffer_layout(self);
        }
    }

    /// The frame to send to the terminal: every buffer cell, row by row, an
    /// empty one shown as the blank element.
    pub fn print_display(&self) -> (r: Vec<Element>)
        requires
            self.wf(),
        ensures
            r@ == self.frame(),
            r@.len() == self.screen_view().width * self.screen_view().height,
            forall|x: int, y: int|
                #![trigger self.buffer_cell(x, y)]
                self.on_screen(x, y) ==> r@[y * self.screen_view().width + x] == shown(
                    self.buffer_cell(x, y),
                    self.default_view(),
                ),
    {
        let n: usize = self.display.cells.len();
        let mut out: Vec<Element> = Vec::with_capacity(n);
        let mut i: usize = 0;
        while i < n
            invariant
                n == self.buffer().len(),
                i <= n,
                out@.len() == i,
                forall|j: int| 0 <= j < i ==> #[trigger] out@[j] == shown(self.buffer()[j], self.default_view()),
            decreases n - i,
        {
            match self.display.cells[i] {
                Some(element) => out.push(element),
                None => out.push(self.default_element),
            }
            i = i + 1;
        }
        assert(out@ =~= self.frame());
        proof {
            lemma_buffer_layout(self);
        }
        out
    }

    /// Copies every non-empty cell of the entity's sprite into the play area
    /// with the sprite's top-left corner at the entity's location. Empty
    /// sprite cells leave what is under them; sprite cells that fall outside
    /// the play area are clipped.
    pub fn draw_drawable<D: Drawable>(&mut self, drawable: &D)
        requires
            old(self).wf(),
            drawable.drawable_view().layout.wf(),
            fits_i64(drawable.drawable_view().location.width + drawable.drawable_view().layout.dimensions.width),
            fits_i64(drawable.drawable_view().location.height + drawable.drawable_view().layout.dimensions.height),
        ensures
            final(self).wf(),
            final(self).same_frame(old(self)),
            forall|x: int, y: int|
                #![trigger final(self).buffer_cell(x, y)]
                old(self).on_screen(x, y) ==> final(self).buffer_cell(x, y) == {
                    let lx = x - old(self).offset_view().width;
                    let ly = y - old(self).offset_view().height;
                    if old(self).in_play_area(lx, ly) && sprite_cell(drawable.drawable_view(), lx, ly) is Some {
                        sprite_cell(drawable.drawable_view(), lx, ly)
                    } else {
                        old(self).buffer_cell(x, y)
                    }
                },
    {
        let ghost pre = *self;
        let state = drawable.get_drawable_state();
        let width = state.layout.dimensions.width as usize;
        let height = state.layout.dimensions.height as usize;
        let mut sy: usize = 0;
        while sy < height
            invariant
                self.wf(),
                self.same_frame(&pre),
                pre.wf(),
                *state == drawable.drawable_view(),
                state.layout.wf(),
                width == state.layout.dimensions.width,
                height == state.layout.dimensions.height,
                fits_i64(state.location.width + width),
                fits_i64(state.location.height + height),
                sy <= height,
                forall|x: int, y: int|
                    #![trigger self.buffer_cell(x, y)]
                    pre.on_screen(x, y) ==> self.buffer_cell(x, y) == {
                        let lx = x - pre.offset_view().width;
                        let ly = y - pre.offset_view().height;
                        if pre.in_play_area(lx, ly) && sprite_cell_before(*state, lx, ly, sy as int, 0) is Some {
                            sprite_cell_before(*state, lx, ly, sy as int, 0)
                        } else {
                            pre.buffer_cell(x, y)
                        }
                    },
            decreases height - sy,
        {
            let row = &state.layout.cells[sy];
            let mut sx: usize = 0;
            while sx < width
                invariant
                    self.wf(),
                    self.same_frame(&pre),
                    pre.wf(),
                    state.layout.wf(),
                    *row == state.layout.cells@[sy as int],
                    width == state.layout.dimensions.width,
                    height == state.layout.dimensions.height,
                    fits_i64(state.location.width + width),
                    fits_i64(state.location.height + height),
                    sy < height,
                    sx <= width,
                    forall|x: int, y: int|
                        #![trigger self.buffer_cell(x, y)]
                        pre.on_screen(x, y) ==> self.buffer_cell(x, y) == {
                            let lx = x - pre.offset_view().width;
                            let ly = y - pre.offset_view().height;
                            if pre.in_play_area(lx, ly) && sprite_cell_before(*state, lx, ly, sy as int, sx as int) is Some {
                                sprite_cell_before(*state, lx, ly, sy as int, sx as int)
                            } else {
                                pre.buffer_cell(x, y)
                            }
                        },
                decreases width - sx,
            {
                if let Some(element) = row[sx] {
                    let position = state.location.add(Point::new(sx as i64, sy as i64));
                    let _ = self.draw_item(element, &position);
                }
                sx = sx + 1;
            }
            sy = sy + 1;
        }
    }

    /// The play-area position `(0, 0)` in buffer coordinates.
    pub fn offset(&self) -> (r: Point)
        ensures
            r == self.offset_view(),
    {
        self.offset
    }

    /// The size of the play area.
    pub fn dimensions(&self) -> (r: Point)
        ensures
            r == self.dimensions_view(),
    {
        self.dimensions
    }

    /// The size of the screen, and of the buffer.
    pub fn screen_size(&self) -> (r: Point)
        ensures
            r == self.screen_view(),
    {
        self.screen_size
    }

    /// The play-area cells that drawing the border of the rectangle of size
    /// `dims` at `start` writes: each of its four lines (top, bottom, left,
    /// right) is drawn only if the lines before it fitted, and then up to
    /// its first cell outside the play area.
    pub open spec fn rect_drawn_covers(&self, start: Point, dims: Point, x: int, y: int) -> bool {
        let bottom = Point { width: start.width, height: (start.height + dims.height - 1) as i64 };
        let right = Point { width: (start.width + dims.width - 1) as i64, height: start.height };
        let k1 = self.line_prefix(start, Direction::Horizontal, dims.width as int);
        let k2 = if k1 == dims.width {
            self.line_prefix(bottom, Direction::Horizontal, dims.width as int)
        } else {
            0
        };
        let k3 = if k1 == dims.width && k2 == dims.width {
            self.line_prefix(start, Direction::Vertical, dims.height as int)
        } else {
            0
        };
        let k4 = if k1 == dims.width && k2 == dims.width && k3 == dims.height {
            self.line_prefix(right, Direction::Vertical, dims.height as int)
        } else {
            0
        };
        ||| line_covers(start.width as int, start.height as int, Direction::Horizontal, k1, x, y)
        ||| line_covers(bottom.width as int, bottom.height as int, Direction::Horizontal, k2, x, y)
        ||| line_covers(start.width as int, start.height as int, Direction::Vertical, k3, x, y)
        ||| line_covers(right.width as int, right.height as int, Direction::Vertical, k4, x, y)
    }

    /// Writes `element` at the play-area position `position`.
    /// Fails with `PositionOutOfRange`, writing nothing, when the position
    /// lies outside the play area.
    pub fn draw_item(&mut self, element: Element, position: &Point) -> (r: Result<(), DisplayControllerError>)
        requires
            old(self).wf(),
        ensures
            final(self).wf(),
            final(self).same_frame(old(self)),
            r is Ok <==> old(self).in_play_area(position.width as int, position.height as int),
            r is Err ==> r == Err::<(), DisplayControllerError>(DisplayControllerError::PositionOutOfRange),
            forall|x: int, y: int|
                #![trigger final(self).buffer_cell(x, y)]
                old(self).on_screen(x, y) ==> final(self).buffer_cell(x, y) == if r is Ok && x == old(
                    self,
                ).offset_view().width + position.width && y == old(self).offset_view().height + position.height {
                    Some(element)
                } else {
                    old(self).buffer_cell(x, y)
                },
    {
        if position.width < 0 || position.height < 0 || position.width >= self.dimensions.width
            || position.height >= self.dimensions.height {
            return Err(DisplayControllerError::PositionOutOfRange);
        }
        let updated = self.offset.add(*position);
        self.display.set(updated.width as usize, updated.height as usize, element);
        Ok(())
    }

    /// Draws `len` cells of `element` from the play-area position
    /// `start_position` along `direction`. Stops with `PositionOutOfRange` at
    /// the first cell outside the play area; the cells before it stay drawn.
    pub fn draw_line(&mut self, element: Element, len: u32, start_position: &Point, direction: Direction) -> (r:
        Result<(), DisplayControllerError>)
        requires
            old(self).wf(),
        ensures
            final(self).wf(),
            final(self).same_frame(old(self)),
            r is Ok <==> old(self).line_fits(*start_position, direction, len as int),
            r is Err ==> r == Err::<(), DisplayControllerError>(DisplayControllerError::PositionOutOfRange),
            forall|x: int, y: int|
                #![trigger final(self).buffer_cell(x, y)]
                old(self).on_screen(x, y) ==> final(self).buffer_cell(x, y) == if line_covers(
                    start_position.width as int,
                    start_position.height as int,
                    direction,
                    old(self).line_prefix(*start_position, direction, len as int),
                    x - old(self).offset_view().width,
                    y - old(self).offset_view().height,
                ) {
                    Some(element)
                } else {
                    old(self).buffer_cell(x, y)
                },
    {
        let ghost pre = *self;
        let ghost k = pre.line_prefix(*start_position, direction, len as int);
        let mut i: u32 = 0;
        while i < len
            invariant
                self.wf(),
                self.same_frame(&pre),
                i <= len,
                i <= k,
                k == pre.line_prefix(*start_position, direction, len as int),
                pre.wf(),
                pre == *old(self),
                forall|x: int, y: int|
                    #![trigger self.buffer_cell(x, y)]
                    pre.on_screen(x, y) ==> self.buffer_cell(x, y) == if line_covers(
                        start_position.width as int,
                        start_position.height as int,
                        direction,
                        i as int,
                        x - pre.offset_view().width,
                        y - pre.offset_view().height,
                    ) {
                        Some(element)
                    } else {
                        pre.buffer_cell(x, y)
                    },
            decreases len - i,
        {
            let position = match direction {
                Direction::Horizontal => start_position.add_width(i as i64),
                Direction::Vertical => start_position.add_height(i as i64),
            };
            let drawn = self.draw_item(element, &position);
            if drawn.is_err() {
                assert(i == k);
                return drawn;
            }
            i = i + 1;
        }
        Ok(())
    }

    /// Draws the border of the rectangle of size `dimensions` whose top-left
    /// corner is the play-area position `start_position`, as four lines: top,
    /// bottom, left, right. Stops with `PositionOutOfRange` at the first cell
    /// outside the play area; what was drawn before it stays.
    pub fn draw_rect(&mut self, start_position: &Point, dimensions: &Point, element: Element) -> (r: Result<
        (),
        DisplayControllerError,
    >)
        requires
            old(self).wf(),
            0 <= dimensions.width <= u32::MAX,
            0 <= dimensions.height <= u32::MAX,
            fits_i64(start_position.width + dimensions.width - 1),
            fits_i64(start_position.height + dimensions.height - 1),
        ensures
            final(self).wf(),
            final(self).same_frame(old(self)),
            r is Ok <==> old(self).rect_fits(*start_position, *dimensions),
            r is Err ==> r == Err::<(), DisplayControllerError>(DisplayControllerError::PositionOutOfRange),
            r is Ok ==> forall|x: int, y: int|
                #![trigger final(self).buffer_cell(x, y)]
                old(self).on_screen(x, y) ==> final(self).buffer_cell(x, y) == if rect_border_covers(
                    *start_position,
                    *dimensions,
                    x - old(self).offset_view().width,
                    y - old(self).offset_view().height,
                ) {
                    Some(element)
                } else {
                    old(self).buffer_cell(x, y)
                },
            forall|x: int, y: int|
                #![trigger final(self).buffer_cell(x, y)]
                old(self).on_screen(x, y) ==> final(self).buffer_cell(x, y) == if old(self).rect_drawn_covers(
                    *start_position,
                    *dimensions,
                    x - old(self).offset_view().width,
                    y - old(self).offset_view().height,
                ) {
                    Some(element)
                } else {
                    old(self).buffer_cell(x, y)
                },
    {
        let ghost pre = *self;
        let width = dimensions.width as u32;
        let height = dimensions.height as u32;
        let bottom = start_position.add_height(dimensions.height - 1);
        let right = start_position.add_width(dimensions.width - 1);
        let r1 = self.draw_line(element, width, start_position, Direction::Horizontal);
        if r1.is_err() {
            return r1;
        }
        let r2 = self.draw_line(element, width, &bottom, Direction::Horizontal);
        if r2.is_err() {
            return r2;
        }
        let r3 = self.draw_line(element, height, start_position, Direction::Vertical);
        if r3.is_err() {
            return r3;
        }
        self.draw_line(element, height, &right, Direction::Vertical)
    }
}

} // verus!
