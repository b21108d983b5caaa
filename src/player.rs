use vstd::prelude::*;
use crate::bullet::{is_new_bullet, Bullet};
use crate::drawable::{Drawable, DrawableState, DrawableType, Spawnable};
use crate::element::{Color, DEFAULT_BACKGROUND};
use crate::game_state::InputEvent;
use crate::layout::{ascii_cell, lemma_uniform_rows, Layout};
use crate::point::{fits_i64, Point};

verus! {

/// The player's ship and the bullets it has fired.
pub struct Player {
    pub drawable: DrawableState,
    pub bullets: Spawnable<Bullet>,
}

/// Horizontal speed, in columns per frame.
pub const WIDTH_MAX_VELOCITY: i64 = 2;

/// Vertical speed, in rows per frame.
pub const HEIGHT_MAX_VELOCITY: i64 = 1;

/// The rows of the ship's ASCII art.
pub open spec fn space_ship_rows() -> Seq<Seq<char>> {
    seq!["  ^  "@, " /#\\ "@, "/###\\"@]
}

/// The ship's sprite, one string per row.
pub fn space_ship_sprite() -> (r: Vec<&'static str>)
    ensures
        r@.map_values(|s: &str| s@) == space_ship_rows(),
        r@.len() == 3,
        forall|i: int| 0 <= i < 3 ==> (#[trigger] r@[i])@.len() == 5,
{
    let rows = vec!["  ^  ", " /#\\ ", "/###\\"];
    proof {
        reveal_strlit("  ^  ");
        reveal_strlit(" /#\\ ");
        reveal_strlit("/###\\");
        assert(rows@.map_values(|s: &str| s@) =~= space_ship_rows());
    }
    rows
}

/// Where a bullet fired from `location` by a ship `width` wide appears:
/// one row down, at the column just left of the ship's middle.
pub open spec fn spawn_point(location: Point, width: i64) -> Point {
    Point { width: (location.width + width / 2 - 1) as i64, height: (location.height + 1) as i64 }
}

/// The ship's width is a size, and the spawn point can be computed without
/// overflow.
pub open spec fn can_fire(location: Point, width: i64) -> bool {
    width >= 0 && fits_i64(location.width + width / 2 - 1) && fits_i64(location.height + 1)
}

impl Player {
    /// A standing ship at `(5, 5)` with no bullets.
    pub fn new() -> (r: Player)
        ensures
            r.drawable.location == (Point { width: 5, height: 5 }),
            r.drawable.velocity == (Point { width: 0, height: 0 }),
            r.drawable.kind == DrawableType::Player,
            r.drawable.layout.wf(),
            r.drawable.layout.dimensions == (Point { width: 5, height: 3 }),
            forall|x: int, y: int|
                0 <= x < 5 && 0 <= y < 3 ==> #[trigger] r.drawable.layout.cell(x, y) == ascii_cell(
                    space_ship_rows()[y],
                    x,
                    Color::Cyan,
                    DEFAULT_BACKGROUND,
                ),
            r.bullets@.len() == 0,
    {
        let location = Point { width: 5, height: 5 };
        let sprite = space_ship_sprite();
        let layout = Layout::from_ascii(&sprite, Color::Cyan, DEFAULT_BACKGROUND);
        proof {
            let rows = sprite@.map_values(|s: &str| s@);
            assert forall|i: int| 0 <= i < rows.len() implies (#[trigger] rows[i]).len() == 5 by {
                assert(rows[i] == sprite@[i]@);
            }
            lemma_uniform_rows(rows, 5);
            assert forall|y: int| 0 <= y < 3 implies sprite@[y]@ == #[trigger] space_ship_rows()[y] by {
                assert(rows[y] == sprite@[y]@);
            }
        }
        Player {
            drawable: DrawableState::new(layout, location, DrawableType::Player, None),
            bullets: Spawnable::new(),
        }
    }

    /// Heads up: one row per frame, no sideways motion.
    pub fn up(&mut self)
        ensures
            final(self).drawable.velocity == (Point { width: 0, height: (-HEIGHT_MAX_VELOCITY) as i64 }),
            final(self).drawable.location == old(self).drawable.location,
            final(self).drawable.layout == old(self).drawable.layout,
            final(self).drawable.kind == old(self).drawable.kind,
            final(self).bullets@ == old(self).bullets@,
    {
        self.drawable.velocity = Point::new(0, -HEIGHT_MAX_VELOCITY);
    }

    /// Heads down: one row per frame, no sideways motion.
    pub fn down(&mut self)
        ensures
            final(self).drawable.velocity == (Point { width: 0, height: HEIGHT_MAX_VELOCITY }),
            final(self).drawable.location == old(self).drawable.location,
            final(self).drawable.layout == old(self).drawable.layout,
            final(self).drawable.kind == old(self).drawable.kind,
            final(self).bullets@ == old(self).bullets@,
    {
        self.drawable.velocity = Point::new(0, HEIGHT_MAX_VELOCITY);
    }

    /// Heads left: two columns per frame, no vertical motion.
    pub fn left(&mut self)
        ensures
            final(self).drawable.velocity == (Point { width: (-WIDTH_MAX_VELOCITY) as i64, height: 0 }),
            final(self).drawable.location == old(self).drawable.location,
            final(self).drawable.layout == old(self).drawable.layout,
            final(self).drawable.kind == old(self).drawable.kind,
            final(self).bullets@ == old(self).bullets@,
    {
        self.drawable.velocity = Point::new(-WIDTH_MAX_VELOCITY, 0);
    }

    /// Heads right: two columns per frame, no vertical motion.
    pub fn right(&mut self)
        ensures
            final(self).drawable.velocity == (Point { width: WIDTH_MAX_VELOCITY, height: 0 }),
            final(self).drawable.location == old(self).drawable.location,
            final(self).drawable.layout == old(self).drawable.layout,
            final(self).drawable.kind == old(self).drawable.kind,
            final(self).bullets@ == old(self).bullets@,
    {
        self.drawable.velocity = Point::new(WIDTH_MAX_VELOCITY, 0);
    }

    /// Reacts to a key that is not a direction: `Enter` fires one bullet at
    /// the spawn point; any other key changes nothing.
    pub fn additional_event_logic(&mut self, event: &InputEvent)
        requires
            *event == InputEvent::Enter ==> can_fire(
                old(self).drawable.location,
                old(self).drawable.layout.dimensions.width,
            ),
        ensures
            final(self).drawable == old(self).drawable,
            *event == InputEvent::Enter ==> final(self).bullets@.len() == old(self).bullets@.len() + 1,
            *event == InputEvent::Enter ==> final(self).bullets@.drop_last() == old(self).bullets@,
            *event == InputEvent::Enter ==> final(self).bullets@.last().drawable.location == spawn_point(
                old(self).drawable.location,
                old(self).drawable.layout.dimensions.width,
            ),
            *event == InputEvent::Enter ==> is_new_bullet(
                final(self).bullets@.last(),
                spawn_point(old(self).drawable.location, old(self).drawable.layout.dimensions.width),
            ),
            *event == InputEvent::Enter ==> final(self).bullets@ == old(self).bullets@.push(
                final(self).bullets@.last(),
            ),
            *event != InputEvent::Enter ==> final(self).bullets@ == old(self).bullets@,
    {
        if *event == InputEvent::Enter {
            let spawn_position = self.drawable.location.add_width(self.drawable.layout.dimensions.width / 2 - 1).add_height(
                1,
            );
            self.bullets.spawn(Bullet::new(spawn_position));
            assert(self.bullets@.drop_last() =~= old(self).bullets@);
            assert(self.bullets@ =~= old(self).bullets@.push(self.bullets@.last()));
        }
    }

    /// Dispatches a key: a direction sets the velocity along it (the last
    /// direction read wins), any other key goes to `additional_event_logic`.
    pub fn handle_event(&mut self, event: &InputEvent)
        requires
            *event == InputEvent::Enter ==> can_fire(
                old(self).drawable.location,
                old(self).drawable.layout.dimensions.width,
            ),
        ensures
            final(self).drawable.location == old(self).drawable.location,
            final(self).drawable.layout == old(self).drawable.layout,
            final(self).drawable.kind == old(self).drawable.kind,
            final(self).drawable.velocity == match *event {
                InputEvent::Up => Point { width: 0, height: (-HEIGHT_MAX_VELOCITY) as i64 },
                InputEvent::Down => Point { width: 0, height: HEIGHT_MAX_VELOCITY },
                InputEvent::Left => Point { width: (-WIDTH_MAX_VELOCITY) as i64, height: 0 },
                InputEvent::Right => Point { width: WIDTH_MAX_VELOCITY, height: 0 },
                _ => old(self).drawable.velocity,
            },
            *event == InputEvent::Enter ==> final(self).bullets@.len() == old(self).bullets@.len() + 1,
            *event == InputEvent::Enter ==> final(self).bullets@.drop_last() == old(self).bullets@,
            *event == InputEvent::Enter ==> final(self).bullets@.last().drawable.location == spawn_point(
                old(self).drawable.location,
                old(self).drawable.layout.dimensions.width,
            ),
            *event == InputEvent::Enter ==> is_new_bullet(
                final(self).bullets@.last(),
                spawn_point(old(self).drawable.location, old(self).drawable.layout.dimensions.width),
            ),
            *event == InputEvent::Enter ==> final(self).bullets@ == old(self).bullets@.push(
                final(self).bullets@.last(),
            ),
            *event != InputEvent::Enter ==> final(self).bullets@ == old(self).bullets@,
    {
        match event {
            InputEvent::Up => self.up(),
            InputEvent::Down => self.down(),
            InputEvent::Left => self.left(),
            InputEvent::Right => self.right(),
            _ => self.additional_event_logic(event),
        }
    }
}

impl Drawable for Player {
    open spec fn drawable_view(&self) -> DrawableState {
        self.drawable
    }

    open spec fn keeps_rest_of(&self, before: &Self) -> bool {
        self.bullets@ == before.bullets@
    }

    fn get_drawable_state(&self) -> (r: &DrawableState) {
        &self.drawable
    }

    fn set_position(&mut self, updated_position: Point) {
        self.drawable.location = updated_position;
    }
}

} // verus!
