use vstd::prelude::*;
use crate::drawable::{Drawable, DrawableState, DrawableType};
use crate::element::{Element, DEFAULT_BACKGROUND, DEFAULT_FOREGROUND};
use crate::layout::Layout;
use crate::point::Point;

verus! {

/// A shot fired by the player: a single arrow cell.
pub struct Bullet {
    pub drawable: DrawableState,
}

/// The bullet's glyph, in the blank cell's colours swapped.
pub open spec fn arrow_element() -> Element {
    Element { value: '^', foreground: DEFAULT_BACKGROUND, background: DEFAULT_FOREGROUND }
}

/// `b` is a freshly made bullet at `location`: standing still, one arrow
/// cell in size.
pub open spec fn is_new_bullet(b: Bullet, location: Point) -> bool {
    &&& b.drawable.location == location
    &&& b.drawable.velocity == (Point { width: 0, height: 0 })
    &&& b.drawable.kind == DrawableType::Enemy
    &&& b.drawable.layout.wf()
    &&& b.drawable.layout.dimensions == (Point { width: 1, height: 1 })
    &&& b.drawable.layout.cell(0, 0) == Some(arrow_element())
}

impl Bullet {
    /// A standing bullet at `location`, one arrow cell in size.
    pub fn new(location: Point) -> (r: Bullet)
        ensures
            is_new_bullet(r, location),
    {
        let map = Layout::new(
            &Point::new(1, 1),
            Some(Element::new('^', DEFAULT_BACKGROUND, DEFAULT_FOREGROUND)),
        );
        Bullet { drawable: DrawableState::new(map, location, DrawableType::Enemy, None) }
    }
}

impl Drawable for Bullet {
    open spec fn drawable_view(&self) -> DrawableState {
        self.drawable
    }

    open spec fn keeps_rest_of(&self, before: &Self) -> bool {
        true
    }

    fn get_drawable_state(&self) -> (r: &DrawableState) {
        &self.drawable
    }

    fn set_position(&mut self, updated_position: Point) {
        self.drawable.location = updated_position;
    }
}

} // verus!
