//! Sprites that come with the engine.

use vstd::prelude::*;
use crate::sprite::{Position, Sprite};
use crate::terminal::Element;

verus! {

/// The character of a filled square of a checkerboard.
pub const FILLED: char = '\u{2588}';

/// The character of an empty square of a checkerboard.
pub const EMPTY: char = ' ';

/// What a checkerboard is made of.
pub struct Board {
    /// The number of columns.
    pub width: nat,
    /// The number of rows.
    pub height: nat,
    /// The foreground and background color of the first phase.
    pub first: (u8, u8),
    /// The foreground and background color of the second phase.
    pub second: (u8, u8),
    /// Whether the board is in its second phase.
    pub alt: bool,
}

impl Board {
    /// The colors of the phase that the board is in.
    pub open spec fn colors(self) -> (u8, u8) {
        if self.alt {
            self.second
        } else {
            self.first
        }
    }

    /// The cell at `index`, counted row by row from the top left corner, with
    /// its position: filled where column and row add up to an even number,
    /// empty elsewhere, in the colors of the board's phase.
    pub open spec fn cell(self, index: int) -> (Element, Position) {
        let x = index % self.width as int;
        let y = index / self.width as int;
        (
            Element {
                char: if (x + y) % 2 == 0 {
                    FILLED
                } else {
                    EMPTY
                },
                fg_code: self.colors().0,
                bg_code: self.colors().1,
            },
            Position(x as i64, y as i64),
        )
    }

    /// All cells of the board, row by row.
    pub open spec fn cells(self) -> Seq<(Element, Position)> {
        Seq::new(self.width * self.height, |index: int| self.cell(index))
    }

    /// The board in its other phase.
    pub open spec fn toggled(self) -> Board {
        Board { alt: !self.alt, ..self }
    }
}

/// A board of alternating filled and empty squares. It has two pairs of
/// colors and shows one of them at a time; each tick changes to the other.
pub struct Checkerboard {
    width: usize,
    height: usize,
    fg_color1: u8,
    bg_color1: u8,
    fg_color2: u8,
    bg_color2: u8,
    alt: bool,
}

impl View for Checkerboard {
    type V = Board;

    closed spec fn view(&self) -> Board {
        Board {
            width: self.width as nat,
            height: self.height as nat,
            first: (self.fg_color1, self.bg_color1),
            second: (self.fg_color2, self.bg_color2),
            alt: self.alt,
        }
    }
}

impl Checkerboard {
    #[verifier::type_invariant]
    spec fn fits(&self) -> bool {
        self.width * self.height <= isize::MAX
    }

    /// A board of `width` columns and `height` rows, in its first phase.
    ///
    /// The board must not have more squares than a vector can hold.
    pub fn new(
        width: usize,
        height: usize,
        fg_color1: u8,
        bg_color1: u8,
        fg_color2: u8,
        bg_color2: u8,
    ) -> (board: Self)
        requires
            width * height <= isize::MAX,
        ensures
            board@ == (Board {
                width: width as nat,
                height: height as nat,
                first: (fg_color1, bg_color1),
                second: (fg_color2, bg_color2),
                alt: false,
            }),
    {
        Self { width, height, fg_color1, bg_color1, fg_color2, bg_color2, alt: false }
    }
}

impl Sprite for Checkerboard {
    /// Every square of the board, row by row.
    fn elements(&self) -> (cells: Vec<(Element, Position)>)
        ensures
            cells@ == self@.cells(),
    {
        proof {
            use_type_invariant(self);
            assert(self.height * self.width == self.width * self.height) by (nonlinear_arith);
        }
        let area: usize = self.height * self.width;
        let (fg_code, bg_code) = if self.alt {
            (self.fg_color2, self.bg_color2)
        } else {
            (self.fg_color1, self.bg_color1)
        };
        let mut cells: Vec<(Element, Position)> = Vec::new();
        let mut i: usize = 0;
        while i < area
            invariant
                i <= area,
                area == self.width * self.height,
                area <= isize::MAX,
                (fg_code, bg_code) == self@.colors(),
                cells@.len() == i,
                forall|k: int| 0 <= k < i ==> cells@[k] == self@.cell(k),
            decreases area - i,
        {
            proof {
                assert(self.width > 0) by (nonlinear_arith)
                    requires
                        i < self.width * self.height,
                ;
            }
            let x: usize = i % self.width;
            assert(x <= i) by (nonlinear_arith)
                requires
                    self.width > 0,
                    x == i as int % self.width as int,
            ;
            let y: usize = (i - x) / self.width;
            proof {
                assert(y == i as int / self.width as int) by (nonlinear_arith)
                    requires
                        self.width > 0,
                        x == i as int % self.width as int,
                        y == (i - x) / self.width as int,
                ;
            }
            let ch: char = if (x + y) % 2 == 0 {
                FILLED
            } else {
                EMPTY
            };
            cells.push((Element::new(ch, fg_code, bg_code), Position(x as i64, y as i64)));
            i += 1;
        }
        proof {
            assert(cells@ =~= self@.cells());
        }
        cells
    }

    /// Changes the board to its other phase.
    fn next(&mut self)
        ensures
            final(self)@ == old(self)@.toggled(),
    {
        proof {
            use_type_invariant(&*self);
        }
        self.alt = !self.alt;
    }
}

} // verus!
