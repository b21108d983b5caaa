use vstd::prelude::*;
use crate::element::{Color, Element};
use crate::point::Point;

verus! {

/// A sprite: a rectangular grid of optional elements, stored row by row.
pub struct Layout {
    pub dimensions: Point,
    pub cells: Vec<Vec<Option<Element>>>,
}

/// The longest row of `rows`, or 0 when there is none.
pub open spec fn max_row_len(rows: Seq<Seq<char>>) -> int
    decreases rows.len(),
{
    if rows.len() == 0 {
        0
    } else {
        let rest = max_row_len(rows.drop_last());
        if rows.last().len() > rest {
            rows.last().len() as int
        } else {
            rest
        }
    }
}

/// The cell that column `x` of an ASCII row gives: a space, or a column past
/// the row's end, is empty; any other character is that glyph in the
/// sprite's colours.
pub open spec fn ascii_cell(row: Seq<char>, x: int, foreground: Color, background: Color) -> Option<Element> {
    if x < row.len() && row[x] != ' ' {
        Some(Element { value: row[x], foreground, background })
    } else {
        None
    }
}

/// ASCII rows that all have length `n` make a sprite `n` wide.
pub proof fn lemma_uniform_rows(rows: Seq<Seq<char>>, n: int)
    requires
        rows.len() > 0,
        n >= 0,
        forall|i: int| 0 <= i < rows.len() ==> (#[trigger] rows[i]).len() == n,
    ensures
        max_row_len(rows) == n,
    decreases rows.len(),
{
    if rows.len() > 1 {
        let rest = rows.drop_last();
        assert forall|i: int| 0 <= i < rest.len() implies (#[trigger] rest[i]).len() == n by {
            assert(rest[i] == rows[i]);
        }
        lemma_uniform_rows(rest, n);
    } else {
        assert(rows.drop_last().len() == 0);
        assert(max_row_len(rows.drop_last()) == 0);
    }
    assert(rows.last() == rows[rows.len() - 1]);
}

impl Layout {
    /// The grid has `dimensions.height` rows of `dimensions.width` cells each.
    pub open spec fn wf(&self) -> bool {
        &&& 0 <= self.dimensions.width <= u32::MAX
        &&& 0 <= self.dimensions.height <= u32::MAX
        &&& self.cells@.len() == self.dimensions.height
        &&& forall|r: int| 0 <= r < self.cells@.len() ==> (#[trigger] self.cells@[r])@.len() == self.dimensions.width
    }

    /// The cell in column `x` of row `y`.
    pub open spec fn cell(&self, x: int, y: int) -> Option<Element> {
        self.cells@[y]@[x]
    }

    /// A layout of size `dimensions` with every cell set to `fill`.
    pub fn new(dimensions: &Point, fill: Option<Element>) -> (r: Layout)
        requires
            0 <= dimensions.width <= u32::MAX,
            0 <= dimensions.height <= u32::MAX,
        ensures
            r.wf(),
            r.dimensions == *dimensions,
            forall|x: int, y: int|
                0 <= x < dimensions.width && 0 <= y < dimensions.height ==> #[trigger] r.cell(x, y) == fill,
    {
        let width = dimensions.width as usize;
        let height = dimensions.height as usize;
        let mut cells: Vec<Vec<Option<Element>>> = Vec::new();
        let mut y: usize = 0;
        while y < height
            invariant
                y <= height,
                cells@.len() == y,
                forall|r: int| 0 <= r < y ==> (#[trigger] cells@[r])@.len() == width,
                forall|r: int, c: int| 0 <= r < y && 0 <= c < width ==> #[trigger] cells@[r]@[c] == fill,
            decreases height - y,
        {
            let mut row: Vec<Option<Element>> = Vec::new();
            let mut x: usize = 0;
            while x < width
                invariant
                    x <= width,
                    row@.len() == x,
                    forall|c: int| 0 <= c < x ==> #[trigger] row@[c] == fill,
                decreases width - x,
            {
                row.push(fill);
                x = x + 1;
            }
            cells.push(row);
            y = y + 1;
        }
        Layout { dimensions: *dimensions, cells }
    }

    /// A layout of size `dimensions` whose outermost rows and columns hold
    /// `element` and whose inside is empty.
    pub fn outline(dimensions: &Point, element: Element) -> (r: Layout)
        requires
            0 <= dimensions.width <= u32::MAX,
            0 <= dimensions.height <= u32::MAX,
        ensures
            r.wf(),
            r.dimensions == *dimensions,
            forall|x: int, y: int|
                0 <= x < dimensions.width && 0 <= y < dimensions.height ==> #[trigger] r.cell(x, y) == if x == 0
                    || y == 0 || x == dimensions.width - 1 || y == dimensions.height - 1 {
                    Some(element)
                } else {
                    None
                },
    {
        let width = dimensions.width as usize;
        let height = dimensions.height as usize;
        let mut cells: Vec<Vec<Option<Element>>> = Vec::new();
        let mut y: usize = 0;
        while y < height
            invariant
                y <= height,
                width == dimensions.width,
                height == dimensions.height,
                cells@.len() == y,
                forall|r: int| 0 <= r < y ==> (#[trigger] cells@[r])@.len() == width,
                forall|r: int, c: int|
                    0 <= r < y && 0 <= c < width ==> #[trigger] cells@[r]@[c] == if c == 0 || r == 0 || c == width - 1
                        || r == height - 1 {
                        Some(element)
                    } else {
                        None
                    },
            decreases height - y,
        {
            let mut row: Vec<Option<Element>> = Vec::new();
            let mut x: usize = 0;
            while x < width
                invariant
                    x <= width,
                    y < height,
                    row@.len() == x,
                    forall|c: int|
                        0 <= c < x ==> #[trigger] row@[c] == if c == 0 || y == 0 || c == width - 1 || y == height - 1 {
                            Some(element)
                        } else {
                            None
                        },
                decreases width - x,
            {
                if x == 0 || y == 0 || x == width - 1 || y == height - 1 {
                    row.push(Some(element));
                } else {
                    row.push(None);
                }
                x = x + 1;
            }
            cells.push(row);
            y = y + 1;
        }
        Layout { dimensions: *dimensions, cells }
    }

    /// A layout drawn as ASCII art, one string per row: it is as wide as the
    /// longest row; a space, or a column past a row's end, is an empty cell;
    /// any other character is that glyph in the given colours.
    pub fn from_ascii(template: &Vec<&str>, foreground: Color, background: Color) -> (r: Layout)
        requires
            template@.len() <= u32::MAX,
            forall|i: int| 0 <= i < template@.len() ==> (#[trigger] template@[i])@.len() <= u32::MAX,
        ensures
            r.wf(),
            r.dimensions.height == template@.len(),
            r.dimensions.width == max_row_len(template@.map_values(|s: &str| s@)),
            forall|x: int, y: int|
                0 <= x < r.dimensions.width && 0 <= y < r.dimensions.height ==> #[trigger] r.cell(x, y)
                    == ascii_cell(template@[y]@, x, foreground, background),
    {
        let ghost rows = template@.map_values(|s: &str| s@);
        let height = template.len();
        let mut width: usize = 0;
        let mut i: usize = 0;
        while i < height
            invariant
                i <= height,
                height == template@.len(),
                rows == template@.map_values(|s: &str| s@),
                width == max_row_len(rows.take(i as int)),
                width <= u32::MAX,
                forall|k: int| 0 <= k < template@.len() ==> (#[trigger] template@[k])@.len() <= u32::MAX,
            decreases height - i,
        {
            let len = template[i].unicode_len();
            assert(rows.take(i + 1).drop_last() =~= rows.take(i as int));
            if len > width {
                width = len;
            }
            i = i + 1;
        }
        assert(rows.take(height as int) =~= rows);
        let mut cells: Vec<Vec<Option<Element>>> = Vec::new();
        let mut y: usize = 0;
        while y < height
            invariant
                y <= height,
                height == template@.len(),
                cells@.len() == y,
                forall|r: int| 0 <= r < y ==> (#[trigger] cells@[r])@.len() == width,
                forall|r: int, c: int|
                    0 <= r < y && 0 <= c < width ==> #[trigger] cells@[r]@[c] == ascii_cell(
                        template@[r]@,
                        c,
                        foreground,
                        background,
                    ),
            decreases height - y,
        {
            let line: &str = template[y];
            let len = line.unicode_len();
            let mut row: Vec<Option<Element>> = Vec::new();
            let mut x: usize = 0;
            while x < width
                invariant
                    x <= width,
                    len == line@.len(),
                    line == template@[y as int],
                    row@.len() == x,
                    forall|c: int| 0 <= c < x ==> #[trigger] row@[c] == ascii_cell(line@, c, foreground, background),
                decreases width - x,
            {
                if x < len {
                    let ch = line.get_char(x);
                    if ch != ' ' {
                        row.push(Some(Element::new(ch, foreground, background)));
                    } else {
                        row.push(None);
                    }
                } else {
                    row.push(None);
                }
                x = x + 1;
            }
            cells.push(row);
            y = y + 1;
        }
        Layout { dimensions: Point::new(width as i64, height as i64), cells }
    }
}

} // verus!
