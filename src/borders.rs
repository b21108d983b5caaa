use vstd::prelude::*;
use crate::display_controller::border_element;
use crate::drawable::{Drawable, DrawableState, DrawableType};
use crate::element::{Color, Element};
use crate::layout::Layout;
use crate::point::Point;

verus! {

/// The frame around the play area, drawn as an entity every frame.
pub struct Borders {
    pub drawable: DrawableState,
}

impl Borders {
    /// The outline of a play area of size `dimensions`, anchored at its origin.
    pub fn new(dimensions: &Point) -> (r: Borders)
        requires
            0 <= dimensions.width <= u32::MAX,
            0 <= dimensions.height <= u32::MAX,
        ensures
            r.drawable.location == (Point { width: 0, height: 0 }),
            r.drawable.velocity == (Point { width: 0, height: 0 }),
            r.drawable.kind == DrawableType::Border,
            r.drawable.layout.wf(),
            r.drawable.layout.dimensions == *dimensions,
            forall|x: int, y: int|
                0 <= x < dimensions.width && 0 <= y < dimensions.height ==> #[trigger] r.drawable.layout.cell(x, y)
                    == if x == 0 || y == 0 || x == dimensions.width - 1 || y == dimensions.height - 1 {
                    Some(border_element())
                } else {
                    None
                },
    {
        let layout = Layout::outline(dimensions, Element::new('x', Color::Blue, Color::Green));
        Borders { drawable: DrawableState::new(layout, Point::new(0, 0), DrawableType::Border, None) }
    }
}

impl Drawable for Borders {
    open spec fn drawable_view(&self) -> DrawableState {
        self.drawable
    }

    open spec fn keeps_rest_of(&self, before: &Self) -> bool {
        true
    }

    fn get_drawable_state(&self) -> (r: &DrawableState) {
        &self.drawable
    }

    fn set_position(&mut self, updated_position: Point) {
        self.drawable.location = updated_position;
    }
}

} // verus!
