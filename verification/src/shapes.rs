//! Shapes drawn with plain characters.

use vstd::prelude::*;

verus! {

/// The character at row `i` and column `j` of the outline of a rectangle:
/// `#` on the border, a space inside.
pub open spec fn outline_cell(width: nat, height: nat, i: int, j: int) -> char {
    if i == 0 || i == height - 1 || j == 0 || j == width - 1 {
        '#'
    } else {
        ' '
    }
}

/// Row `i` of the outline, with the line break that ends it.
pub open spec fn outline_row(width: nat, height: nat, i: int) -> Seq<char> {
    Seq::new(width, |j: int| outline_cell(width, height, i, j)).push('\n')
}

/// The first `rows` rows of the outline.
pub open spec fn outline(width: nat, height: nat, rows: nat) -> Seq<char>
    decreases rows,
{
    if rows == 0 {
        Seq::<char>::empty()
    } else {
        outline(width, height, (rows - 1) as nat) + outline_row(width, height, rows - 1)
    }
}

/// What a square is made of: its size and the place of its top left corner.
pub struct Frame {
    pub width: nat,
    pub height: nat,
    pub x: nat,
    pub y: nat,
}

/// A rectangle of a given size at a given place.
pub struct Square {
    width: usize,
    height: usize,
    x: usize,
    y: usize,
}

impl View for Square {
    type V = Frame;

    closed spec fn view(&self) -> Frame {
        Frame {
            width: self.width as nat,
            height: self.height as nat,
            x: self.x as nat,
            y: self.y as nat,
        }
    }
}

impl Square {
    /// A rectangle of `width` columns and `height` rows whose top left corner
    /// is at column `x` and row `y`.
    pub fn new(width: usize, height: usize, x: usize, y: usize) -> (square: Self)
        ensures
            square@ == (Frame {
                width: width as nat,
                height: height as nat,
                x: x as nat,
                y: y as nat,
            }),
    {
        Self { width, height, x, y }
    }

    /// The outline of the rectangle as text, one line for each row.
    pub fn draw(&self) -> (text: String)
        ensures
            text@ == outline(self@.width, self@.height, self@.height),
    {
        let mut text = String::new();
        let mut i: usize = 0;
        while i < self.height
            invariant
                i <= self.height,
                text@ == outline(self@.width, self@.height, i as nat),
            decreases self.height - i,
        {
            let ghost above = text@;
            let mut j: usize = 0;
            while j < self.width
                invariant
                    i < self.height,
                    j <= self.width,
                    text@ == above + Seq::new(
                        j as nat,
                        |k: int| outline_cell(self@.width, self@.height, i as int, k),
                    ),
                decreases self.width - j,
            {
                if i == 0 || i == self.height - 1 || j == 0 || j == self.width - 1 {
                    text.push('#');
                } else {
                    text.push(' ');
                }
                proof {
                    assert(text@ =~= above + Seq::new(
                        (j + 1) as nat,
                        |k: int| outline_cell(self@.width, self@.height, i as int, k),
                    ));
                }
                j += 1;
            }
            text.push('\n');
            proof {
                assert(text@ =~= above + outline_row(self@.width, self@.height, i as int));
            }
            i += 1;
        }
        text
    }
}

} // verus!
