use vstd::prelude::*;
use crate::drawable::{Drawable, DrawableState, DrawableType};
use crate::element::{Color, DEFAULT_BACKGROUND};
use crate::layout::{ascii_cell, lemma_uniform_rows, Layout};
use crate::point::Point;

verus! {

/// A falling rock.
pub struct Asteroid {
    pub drawable: DrawableState,
    pub health: u32,
}

/// Falling speed, in rows per frame.
pub const ASTEROID_FALL_VELOCITY: i64 = 3;

/// The rows of the asteroid's ASCII art.
pub open spec fn asteroid_rows() -> Seq<Seq<char>> {
    seq![" ___ "@, "/ o \\"@, "\\___/"@]
}

/// The asteroid's sprite, one string per row.
pub fn asteroid_sprite() -> (r: Vec<&'static str>)
    ensures
        r@.map_values(|s: &str| s@) == asteroid_rows(),
        r@.len() == 3,
        forall|i: int| 0 <= i < 3 ==> (#[trigger] r@[i])@.len() == 5,
{
    let rows = vec![" ___ ", "/ o \\", "\\___/"];
    proof {
        reveal_strlit(" ___ ");
        reveal_strlit("/ o \\");
        reveal_strlit("\\___/");
        assert(rows@.map_values(|s: &str| s@) =~= asteroid_rows());
    }
    rows
}

impl Asteroid {
    /// A whole asteroid at `location`, falling three rows per frame.
    pub fn new(location: Point) -> (r: Asteroid)
        ensures
            r.drawable.location == location,
            r.drawable.velocity == (Point { width: 0, height: ASTEROID_FALL_VELOCITY }),
            r.drawable.kind == DrawableType::Enemy,
            r.drawable.layout.wf(),
            r.drawable.layout.dimensions == (Point { width: 5, height: 3 }),
            forall|x: int, y: int|
                0 <= x < 5 && 0 <= y < 3 ==> #[trigger] r.drawable.layout.cell(x, y) == ascii_cell(
                    asteroid_rows()[y],
                    x,
                    Color::Grey,
                    DEFAULT_BACKGROUND,
                ),
            r.health == 1,
    {
        let sprite = asteroid_sprite();
        let map = Layout::from_ascii(&sprite, Color::Grey, DEFAULT_BACKGROUND);
        proof {
            let rows = sprite@.map_values(|s: &str| s@);
            assert forall|i: int| 0 <= i < rows.len() implies (#[trigger] rows[i]).len() == 5 by {
                assert(rows[i] == sprite@[i]@);
            }
            lemma_uniform_rows(rows, 5);
            assert forall|y: int| 0 <= y < 3 implies sprite@[y]@ == #[trigger] asteroid_rows()[y] by {
                assert(rows[y] == sprite@[y]@);
            }
        }
        let velocity: Point = Point { width: 0, height: ASTEROID_FALL_VELOCITY };
        Asteroid {
            drawable: DrawableState::new(map, location, DrawableType::Enemy, Some(velocity)),
            health: 1,
        }
    }
}

impl Drawable for Asteroid {
    open spec fn drawable_view(&self) -> DrawableState {
        self.drawable
    }

    open spec fn keeps_rest_of(&self, before: &Self) -> bool {
        self.health == before.health
    }

    fn get_drawable_state(&self) -> (r: &DrawableState) {
        &self.drawable
    }

    fn set_position(&mut self, updated_position: Point) {
        self.drawable.location = updated_position;
    }
}

} // verus!
