//! What the compositor asks of an animated object.

use vstd::prelude::*;
use crate::terminal::Element;

verus! {

/// A cell of the grid by column and row, counted from the top left corner.
/// A position off the grid, to any side, is a position like any other: what
/// stands there is not drawn.
#[derive(Debug, Clone, Copy, PartialEq, Eq, Structural)]
pub struct Position(pub i64, pub i64);

/// An animated object: it shows cells at positions, and it moves on by one
/// tick at a time. What it shows and how it moves is its own affair.
pub trait Sprite {
    /// The cells that the sprite shows now, each with its position. Where two
    /// of them share a position, the later one is seen.
    fn elements(&self) -> Vec<(Element, Position)>;

    /// Moves the sprite on by one tick.
    fn next(&mut self);
}

/// Calls `step` on `target`, so that what `step` promises of its calls is
/// known of this one.
fn apply<A, F: FnOnce(A)>(step: F, target: A)
    requires
        call_requires(step, (target,)),
    ensures
        call_ensures(step, (target,), ()),
{
    step(target)
}

/// Moves a sprite on by one tick: what the sprite is afterwards is what one
/// call of its `next` made of what it was before.
pub(crate) fn tick<S: Sprite + ?Sized>(sprite: &mut S)
    ensures
        exists|call: &mut S|
            &*call == &*old(sprite) && &*final(call) == &*final(sprite) && #[trigger] call_ensures(
                S::next,
                (call,),
                (),
            ),
{
    apply(S::next, sprite);
}

/// A sprite in a box is the sprite: it shows what the sprite shows and moves
/// as the sprite moves. So sprites of different kinds can stand in one list.
impl<S: Sprite + ?Sized> Sprite for Box<S> {
    fn elements(&self) -> (cells: Vec<(Element, Position)>)
        ensures
            call_ensures(S::elements, (&**self,), cells),
    {
        (**self).elements()
    }

    fn next(&mut self)
        ensures
            exists|call: &mut S|
                &*call == &**old(self) && &*final(call) == &**final(self)
                    && #[trigger] call_ensures(S::next, (call,), ()),
    {
        tick(&mut **self)
    }
}

} // verus!
