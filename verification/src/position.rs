//! The `Positioned` capability: an entity with a mutable `(x, y)` position.

use vstd::prelude::*;

verus! {

/// An entity that exposes get/set/shift of an `(x, y)` coordinate pair.
///
/// An implementer states its coordinates through the spec functions `pos_x`
/// and `pos_y`, and what "the same value at another position" means through
/// `at_position`; the three methods are then pinned against those: setting
/// lands exactly at the given point, shifting adds the offsets, and neither
/// changes anything besides the position.
pub trait Positioned: Sized {
    /// The current x coordinate.
    spec fn pos_x(&self) -> int;

    /// The current y coordinate.
    spec fn pos_y(&self) -> int;

    /// This value with its position replaced by `(x, y)` and everything
    /// else unchanged.
    spec fn at_position(self, x: i64, y: i64) -> Self;

    /// Reads the current position; a pure read.
    fn get_position(&self) -> (p: (i64, i64))
        ensures
            p.0 as int == self.pos_x(),
            p.1 as int == self.pos_y(),
    ;

    /// Overwrites both coordinates unconditionally; nothing else changes.
    fn set_position(&mut self, x: i64, y: i64)
        ensures
            *final(self) == old(self).at_position(x, y),
            final(self).pos_x() == x as int,
            final(self).pos_y() == y as int,
    ;

    /// Adds `dx` and `dy` to the current coordinates; nothing else changes.
    fn shift_position(&mut self, dx: i64, dy: i64)
        requires
            i64::MIN <= old(self).pos_x() + dx <= i64::MAX,
            i64::MIN <= old(self).pos_y() + dy <= i64::MAX,
        ensures
            *final(self) == old(self).at_position(
                ((old(self).pos_x() + dx) as i64),
                ((old(self).pos_y() + dy) as i64),
            ),
            final(self).pos_x() == old(self).pos_x() + dx,
            final(self).pos_y() == old(self).pos_y() + dy,
    ;
}

} // verus!
