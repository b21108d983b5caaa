use vstd::prelude::*;
use crate::layout::Layout;
use crate::point::{fits_i64, Point};

verus! {

/// What an entity is, for game logic; rendering does not look at it.
#[derive(Clone, Copy, Debug, PartialEq, Eq, Structural)]
pub enum DrawableType {
    Player,
    Enemy,
    Projectile,
    Border,
}

/// What the renderer needs of an entity: its sprite, where it is, how it
/// moves each frame, and what it is.
pub struct DrawableState {
    pub layout: Layout,
    pub location: Point,
    pub velocity: Point,
    pub kind: DrawableType,
}

impl DrawableState {
    /// A drawable at `location`; without a `velocity` it stands still.
    pub fn new(layout: Layout, location: Point, kind: DrawableType, velocity: Option<Point>) -> (r: DrawableState)
        ensures
            r.layout == layout,
            r.location == location,
            r.kind == kind,
            r.velocity == match velocity {
                Some(v) => v,
                None => Point { width: 0, height: 0 },
            },
    {
        let velocity = match velocity {
            Some(v) => v,
            None => Point::new(0, 0),
        };
        DrawableState { layout, location, velocity, kind }
    }

    /// One frame of movement: `location += velocity`.
    pub fn advance(&mut self)
        requires
            fits_i64(old(self).location.width + old(self).velocity.width),
            fits_i64(old(self).location.height + old(self).velocity.height),
        ensures
            final(self).location.width == old(self).location.width + old(self).velocity.width,
            final(self).location.height == old(self).location.height + old(self).velocity.height,
            final(self).velocity == old(self).velocity,
            final(self).layout == old(self).layout,
            final(self).kind == old(self).kind,
    {
        self.location = self.location.add(self.velocity);
    }
}

/// An entity that can be rendered and repositioned.
pub trait Drawable {
    /// The entity's drawable state.
    spec fn drawable_view(&self) -> DrawableState;

    /// Everything of the entity outside its drawable state is the same in
    /// `self` and `before`.
    spec fn keeps_rest_of(&self, before: &Self) -> bool;

    /// Read-only access for the renderer.
    fn get_drawable_state(&self) -> (r: &DrawableState)
        ensures
            *r == self.drawable_view(),
    ;

    /// Moves the entity to `updated_position`; nothing else of its drawable
    /// state changes.
    fn set_position(&mut self, updated_position: Point)
        ensures
            final(self).drawable_view().location == updated_position,
            final(self).drawable_view().velocity == old(self).drawable_view().velocity,
            final(self).drawable_view().layout == old(self).drawable_view().layout,
            final(self).drawable_view().kind == old(self).drawable_view().kind,
            final(self).keeps_rest_of(old(self)),
    ;
}

/// An ordered pool of spawned child entities, oldest first.
pub struct Spawnable<T> {
    items: Vec<T>,
}

impl<T> View for Spawnable<T> {
    type V = Seq<T>;

    closed spec fn view(&self) -> Seq<T> {
        self.items@
    }
}

/// Spawning `first` and then `second` into a pool puts them behind what it
/// held, in that order.
pub proof fn lemma_spawn_order<T>(pool: Seq<T>, first: T, second: T)
    ensures
        pool.push(first).push(second) == pool + seq![first, second],
        pool.len() == 0 ==> pool.push(first).push(second) == seq![first, second],
{
    assert(pool.push(first).push(second) =~= pool + seq![first, second]);
    if pool.len() == 0 {
        assert(pool.push(first).push(second) =~= seq![first, second]);
    }
}

impl<T> Spawnable<T> {
    /// An empty pool.
    pub fn new() -> (r: Spawnable<T>)
        ensures
            r@ == Seq::<T>::empty(),
    {
        Spawnable { items: Vec::new() }
    }

    /// Appends `item`, taking ownership of it.
    pub fn spawn(&mut self, item: T)
        ensures
            final(self)@ == old(self)@.push(item),
    {
        self.items.push(item);
    }

    /// The live entities, oldest first.
    pub fn items(&self) -> (r: &Vec<T>)
        ensures
            r@ == self@,
    {
        &self.items
    }

    /// How many entities are live.
    pub fn len(&self) -> (r: usize)
        ensures
            r == self@.len(),
    {
        self.items.len()
    }

    /// Removes and returns the entity at `index`; the others keep their order.
    pub fn retire(&mut self, index: usize) -> (r: T)
        requires
            index < old(self)@.len(),
        ensures
            r == old(self)@[index as int],
            final(self)@ == old(self)@.remove(index as int),
    {
        self.items.remove(index)
    }
}

impl<T> Default for Spawnable<T> {
    fn default() -> (r: Spawnable<T>)
        ensures
            r@ == Seq::<T>::empty(),
    {
        Spawnable::new()
    }
}

} // verus!
