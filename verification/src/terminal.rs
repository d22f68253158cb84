//! Cells, palette colors and the text of a frame.

use vstd::prelude::*;
use crate::sprite::{tick, Position, Sprite};

verus! {

/// The channel level that `rgb` works with: anything above 5 counts as 5.
pub open spec fn level(channel: u8) -> int {
    if channel > 5 {
        5
    } else {
        channel as int
    }
}

/// The palette index of a color given by three channel levels.
///
/// Gray triples use the grayscale ramp, except black, which is the first
/// entry of the color cube, and the brightest level, which is the last entry
/// of the ramp. Every other triple is an entry of the 6x6x6 color cube.
pub open spec fn palette_index(r: u8, g: u8, b: u8) -> int {
    let (r, g, b) = (level(r), level(g), level(b));
    if r == g && g == b {
        if r == 0 {
            16
        } else if r == 5 {
            255
        } else {
            232 + 4 * r
        }
    } else {
        16 + 36 * r + 6 * g + b
    }
}

/// Converts a color from RGB levels to an index of the 256-color palette.
///
/// Levels run from 0 to 5; a larger value is taken as 5.
pub fn rgb(r: u8, g: u8, b: u8) -> (index: u8)
    ensures
        index == palette_index(r, g, b),
{
    let r: u8 = if r > 5 { 5 } else { r };
    let g: u8 = if g > 5 { 5 } else { g };
    let b: u8 = if b > 5 { 5 } else { b };
    if r == g && g == b {
        if r == 0 {
            16
        } else if r == 5 {
            255
        } else {
            232 + 4 * r
        }
    } else {
        16 + 36 * r + 6 * g + b
    }
}

/// Gray triples land on black or on the grayscale ramp, all other triples
/// inside the color cube.
pub proof fn lemma_palette_ranges(r: u8, g: u8, b: u8)
    requires
        r <= 5,
        g <= 5,
        b <= 5,
    ensures
        r == g && g == b ==> palette_index(r, g, b) == 16 || 232 <= palette_index(r, g, b) <= 255,
        !(r == g && g == b) ==> 16 <= palette_index(r, g, b) <= 231,
{
}

/// One cell of the screen: a character and the palette indices of its
/// foreground and background colors.
#[derive(Debug, Clone, Copy, PartialEq, Eq, Structural)]
pub struct Element {
    pub char: char,
    pub fg_code: u8,
    pub bg_code: u8,
}

/// The character that stands for a digit.
pub open spec fn digit(value: nat) -> char
    recommends
        value < 10,
{
    (48 + value) as char
}

/// A number in decimal, without leading zeros.
pub open spec fn decimal(number: nat) -> Seq<char>
    decreases number,
{
    if number < 10 {
        seq![digit(number)]
    } else {
        decimal(number / 10).push(digit(number % 10))
    }
}

/// The control sequence that sets the foreground color to a palette index.
pub open spec fn foreground_code(index: u8) -> Seq<char> {
    seq!['\x1b', '[', '3', '8', ';', '5', ';'] + decimal(index as nat) + seq!['m']
}

/// The control sequence that sets the background color to a palette index.
pub open spec fn background_code(index: u8) -> Seq<char> {
    seq!['\x1b', '[', '4', '8', ';', '5', ';'] + decimal(index as nat) + seq!['m']
}

/// Taken on trust of the standard library's `String::push`, which nothing
/// here proves: it puts the character at the end of the string and leaves
/// what the string held before as it is.
pub assume_specification[ String::push ](text: &mut String, character: char)
    ensures
        final(text)@ == old(text)@.push(character),
;

/// Writes `number` in decimal at the end of `text`.
fn push_decimal(text: &mut String, number: u8)
    ensures
        final(text)@ == old(text)@ + decimal(number as nat),
{
    let hundreds: u8 = number / 100;
    let tens: u8 = (number / 10) % 10;
    let ones: u8 = number % 10;
    proof {
        reveal_with_fuel(decimal, 3);
    }
    if number >= 100 {
        text.push((48u8 + hundreds) as char);
    }
    if number >= 10 {
        text.push((48u8 + tens) as char);
    }
    text.push((48u8 + ones) as char);
    proof {
        assert(text@ =~= old(text)@ + decimal(number as nat));
    }
}

impl Element {
    /// A cell with the given character and colors.
    pub fn new(character: char, foreground_code: u8, background_code: u8) -> (element: Self)
        ensures
            element == (Element {
                char: character,
                fg_code: foreground_code,
                bg_code: background_code,
            }),
    {
        Self { char: character, fg_code: foreground_code, bg_code: background_code }
    }

    /// The character of the cell.
    pub fn char(&self) -> (character: char)
        ensures
            character == self.char,
    {
        self.char
    }

    /// The control sequence that sets the cell's foreground color.
    pub fn fg(&self) -> (code: String)
        ensures
            code@ == foreground_code(self.fg_code),
    {
        let mut code = String::new();
        code.append("\x1b[38;5;");
        proof {
            reveal_strlit("\x1b[38;5;");
            assert(code@ =~= seq!['\x1b', '[', '3', '8', ';', '5', ';']);
        }
        push_decimal(&mut code, self.fg_code);
        code.push('m');
        proof {
            assert(code@ =~= foreground_code(self.fg_code));
        }
        code
    }

    /// The control sequence that sets the cell's background color.
    pub fn bg(&self) -> (code: String)
        ensures
            code@ == background_code(self.bg_code),
    {
        let mut code = String::new();
        code.append("\x1b[48;5;");
        proof {
            reveal_strlit("\x1b[48;5;");
            assert(code@ =~= seq!['\x1b', '[', '4', '8', ';', '5', ';']);
        }
        push_decimal(&mut code, self.bg_code);
        code.push('m');
        proof {
            assert(code@ =~= background_code(self.bg_code));
        }
        code
    }

    /// Exchanges the foreground and the background color.
    pub fn reverse_colors(&mut self)
        ensures
            *final(self) == (Element {
                char: old(self).char,
                fg_code: old(self).bg_code,
                bg_code: old(self).fg_code,
            }),
    {
        let foreground: u8 = self.fg_code;
        self.fg_code = self.bg_code;
        self.bg_code = foreground;
    }
}

/// How many cells lie between two edges of a window, both edges included;
/// none where the far edge lies before the near one.
pub open spec fn extent_of(near: i16, far: i16) -> int {
    if far - near + 1 > 0 {
        far - near + 1
    } else {
        0
    }
}

/// How many cells lie between two edges of a window, both edges included.
pub fn extent(near: i16, far: i16) -> (cells: usize)
    ensures
        cells == extent_of(near, far),
{
    let cells: i32 = far as i32 - near as i32 + 1;
    if cells > 0 {
        cells as usize
    } else {
        0
    }
}

/// Why a frame was not put together.
#[derive(Debug, Clone, Copy, PartialEq, Eq, Structural)]
pub enum DisplayError {
    /// The size of the terminal is not known.
    SizeUnavailable,
    /// The frame has fewer cells than the terminal.
    FrameTooShort,
}

impl DisplayError {
    /// The error in words.
    pub fn message(&self) -> (text: &'static str)
        ensures
            *self == DisplayError::SizeUnavailable ==> text@ == "Failed to get display size"@,
            *self == DisplayError::FrameTooShort ==> text@ == "Index out of bounds"@,
    {
        match self {
            DisplayError::SizeUnavailable => "Failed to get display size",
            DisplayError::FrameTooShort => "Index out of bounds",
        }
    }
}

/// The control sequence that clears the screen and moves the cursor to the
/// top left corner.
pub open spec fn clear_home() -> Seq<char> {
    seq!['\x1b', '[', '2', 'J', '\x1b', '[', 'H']
}

/// The control sequence that switches to the alternate screen, clears it and
/// moves the cursor to the top left corner.
pub open spec fn enter_alternate() -> Seq<char> {
    seq!['\x1b', '[', '?', '1', '0', '4', '9', 'h'] + clear_home()
}

/// The text of one cell that follows `previous` on the screen: the code of
/// each color that differs from that of the cell before, or of both colors
/// for the first cell, and then the character.
pub open spec fn cell_text(previous: Option<Element>, cell: Element) -> Seq<char> {
    let foreground = if previous matches Some(before) && before.fg_code == cell.fg_code {
        Seq::<char>::empty()
    } else {
        foreground_code(cell.fg_code)
    };
    let background = if previous matches Some(before) && before.bg_code == cell.bg_code {
        Seq::<char>::empty()
    } else {
        background_code(cell.bg_code)
    };
    foreground + background + seq![cell.char]
}

/// The cell before position `index`, if there is one.
pub open spec fn cell_before(cells: Seq<Element>, index: int) -> Option<Element> {
    if index <= 0 {
        None
    } else {
        Some(cells[index - 1])
    }
}

/// The text of the first `count` cells, in order.
pub open spec fn cells_text(cells: Seq<Element>, count: nat) -> Seq<char>
    decreases count,
{
    if count == 0 {
        Seq::<char>::empty()
    } else {
        cells_text(cells, (count - 1) as nat) + cell_text(
            cell_before(cells, count - 1),
            cells[count - 1],
        )
    }
}

/// The text that shows the first `area` cells on a cleared screen.
pub open spec fn frame_text(cells: Seq<Element>, area: nat) -> Seq<char> {
    clear_home() + cells_text(cells, area)
}

/// The characters of the first `count` cells, without any color code.
pub open spec fn glyphs(cells: Seq<Element>, count: nat) -> Seq<char> {
    Seq::new(count, |i: int| cells[i].char)
}

/// Cells that all have the same two colors take one code for each color,
/// however many they are: the two codes come first, and then only the
/// characters of the cells.
pub proof fn lemma_uniform_colors(cells: Seq<Element>, count: nat)
    requires
        0 < count <= cells.len(),
        forall|i: int|
            0 <= i < count ==> (#[trigger] cells[i]).fg_code == cells[0].fg_code
                && cells[i].bg_code == cells[0].bg_code,
    ensures
        cells_text(cells, count) == foreground_code(cells[0].fg_code) + background_code(
            cells[0].bg_code,
        ) + glyphs(cells, count),
    decreases count,
{
    let codes = foreground_code(cells[0].fg_code) + background_code(cells[0].bg_code);
    if count == 1 {
        reveal_with_fuel(cells_text, 2);
        assert(cells_text(cells, 1) =~= codes + glyphs(cells, 1));
    } else {
        let fewer = (count - 1) as nat;
        lemma_uniform_colors(cells, fewer);
        assert(cells[count - 2].fg_code == cells[count - 1].fg_code);
        assert(cells[count - 2].bg_code == cells[count - 1].bg_code);
        assert(cell_text(cell_before(cells, count - 1), cells[count - 1]) =~= seq![
            cells[count - 1].char,
        ]);
        assert(glyphs(cells, count) =~= glyphs(cells, fewer) + seq![cells[count - 1].char]);
        assert(cells_text(cells, count) =~= codes + glyphs(cells, count));
    }
}

/// The text that shows a frame on a terminal of the given size.
///
/// `elements` holds the cells row by row, from the top left corner. The text
/// clears the screen and then gives the first `width * height` cells, each
/// color code only where the color changes from one cell to the next. No text
/// is made where the size is not known or the frame has fewer cells than the
/// terminal.
pub fn display_raw(elements: &Vec<Element>, size: Option<(usize, usize)>) -> (result: Result<
    String,
    DisplayError,
>)
    ensures
        size is None ==> result == Err::<String, DisplayError>(DisplayError::SizeUnavailable),
        size matches Some((width, height)) ==> {
            if elements@.len() < width * height {
                result == Err::<String, DisplayError>(DisplayError::FrameTooShort)
            } else {
                result matches Ok(text) && text@ == frame_text(
                    elements@,
                    (width * height) as nat,
                )
            }
        },
{
    let (width, height) = match size {
        Some(size) => size,
        None => { return Err(DisplayError::SizeUnavailable); },
    };
    let given: usize = elements.len();
    let area: usize = match width.checked_mul(height) {
        Some(area) => area,
        None => { return Err(DisplayError::FrameTooShort); },
    };
    if given < area {
        return Err(DisplayError::FrameTooShort);
    }
    let mut text = String::new();
    text.append("\x1b[2J\x1b[H");
    proof {
        reveal_strlit("\x1b[2J\x1b[H");
        assert(text@ =~= frame_text(elements@, 0));
    }
    let mut shown: usize = 0;
    while shown < area
        invariant
            shown <= area <= elements@.len(),
            text@ == frame_text(elements@, shown as nat),
        decreases area - shown,
    {
        let element: Element = elements[shown];
        let first: bool = shown == 0;
        let ghost before = text@;
        if first || elements[shown - 1].fg_code != element.fg_code {
            let code = element.fg();
            text.append(code.as_str());
        }
        if first || elements[shown - 1].bg_code != element.bg_code {
            let code = element.bg();
            text.append(code.as_str());
        }
        text.push(element.char());
        proof {
            assert(text@ =~= before + cell_text(cell_before(elements@, shown as int), element));
            assert(text@ =~= frame_text(elements@, (shown + 1) as nat));
        }
        shown += 1;
    }
    Ok(text)
}

/// The cell of an empty screen: a space in the default colors.
pub open spec fn blank() -> Element {
    Element { char: ' ', fg_code: 0, bg_code: 0 }
}

/// Whether `position` lies on a grid of the given size.
pub open spec fn on_grid(position: Position, width: nat, height: nat) -> bool {
    0 <= position.0 < width && 0 <= position.1 < height
}

/// `frame` with one cell drawn: at its position where that lies on the grid,
/// nowhere else.
pub open spec fn drawn(
    frame: Seq<Element>,
    width: nat,
    height: nat,
    item: (Element, Position),
) -> Seq<Element> {
    if on_grid(item.1, width, height) {
        frame.update(item.1.1 * width + item.1.0, item.0)
    } else {
        frame
    }
}

/// `frame` with the first `count` cells of `layer` drawn, in order.
pub open spec fn layered(
    frame: Seq<Element>,
    width: nat,
    height: nat,
    layer: Seq<(Element, Position)>,
    count: nat,
) -> Seq<Element>
    decreases count,
{
    if count == 0 {
        frame
    } else {
        drawn(
            layered(frame, width, height, layer, (count - 1) as nat),
            width,
            height,
            layer[count - 1],
        )
    }
}

/// An empty frame with the first `count` of `layers` drawn, in order, so that
/// a later layer covers an earlier one wherever both draw.
pub open spec fn composed(
    width: nat,
    height: nat,
    layers: Seq<Seq<(Element, Position)>>,
    count: nat,
) -> Seq<Element>
    decreases count,
{
    if count == 0 {
        Seq::new(width * height, |i: int| blank())
    } else {
        layered(
            composed(width, height, layers, (count - 1) as nat),
            width,
            height,
            layers[count - 1],
            layers[count - 1].len(),
        )
    }
}

/// What each layer holds, as a sequence of sequences.
pub open spec fn layers_of(layers: Seq<Vec<(Element, Position)>>) -> Seq<Seq<(Element, Position)>> {
    Seq::new(layers.len(), |i: int| layers[i]@)
}

/// Drawing on a frame of the grid's size keeps the number of its cells.
pub proof fn lemma_layered_len(
    frame: Seq<Element>,
    width: nat,
    height: nat,
    layer: Seq<(Element, Position)>,
    count: nat,
)
    requires
        frame.len() == width * height,
    ensures
        layered(frame, width, height, layer, count).len() == frame.len(),
    decreases count,
{
    if count > 0 {
        lemma_layered_len(frame, width, height, layer, (count - 1) as nat);
        let position = layer[count - 1].1;
        if on_grid(position, width, height) {
            assert(0 <= position.1 * width + position.0 < width * height) by (nonlinear_arith)
                requires
                    0 <= position.0 < width,
                    0 <= position.1 < height,
            ;
        }
    }
}

/// A composed frame has one cell for each cell of the grid.
pub proof fn lemma_composed_len(
    width: nat,
    height: nat,
    layers: Seq<Seq<(Element, Position)>>,
    count: nat,
)
    ensures
        composed(width, height, layers, count).len() == width * height,
    decreases count,
{
    if count > 0 {
        lemma_composed_len(width, height, layers, (count - 1) as nat);
        lemma_layered_len(
            composed(width, height, layers, (count - 1) as nat),
            width,
            height,
            layers[count - 1],
            layers[count - 1].len(),
        );
    }
}

/// Whether a cell is drawn at position `index` of a frame.
pub open spec fn lands_on(item: (Element, Position), width: nat, height: nat, index: int) -> bool {
    on_grid(item.1, width, height) && item.1.1 * width + item.1.0 == index
}

/// What a layer does to one cell of a frame: nothing, where none of its cells
/// is drawn there; else the cell shows the last of them.
pub proof fn lemma_layered_cell(
    frame: Seq<Element>,
    width: nat,
    height: nat,
    layer: Seq<(Element, Position)>,
    count: nat,
    index: int,
)
    requires
        frame.len() == width * height,
        0 <= index < width * height,
        count <= layer.len(),
    ensures
        (forall|e: int| 0 <= e < count ==> !lands_on(#[trigger] layer[e], width, height, index))
            ==> layered(frame, width, height, layer, count)[index] == frame[index],
        forall|e: int|
            0 <= e < count && lands_on(#[trigger] layer[e], width, height, index) && (forall|
                later: int,
            |
                e < later < count ==> !lands_on(#[trigger] layer[later], width, height, index))
                ==> layered(frame, width, height, layer, count)[index] == layer[e].0,
    decreases count,
{
    if count > 0 {
        let fewer = (count - 1) as nat;
        let last = layer[count - 1];
        let before = layered(frame, width, height, layer, fewer);
        lemma_layered_cell(frame, width, height, layer, fewer, index);
        lemma_layered_len(frame, width, height, layer, fewer);
        if on_grid(last.1, width, height) {
            assert(0 <= last.1.1 * width + last.1.0 < width * height) by (nonlinear_arith)
                requires
                    0 <= last.1.0 < width,
                    0 <= last.1.1 < height,
            ;
        }
        assert forall|e: int|
            0 <= e < count && lands_on(#[trigger] layer[e], width, height, index) && (forall|
                later: int,
            |
                e < later < count ==> !lands_on(
                    #[trigger] layer[later],
                    width,
                    height,
                    index,
                )) implies layered(frame, width, height, layer, count)[index] == layer[e].0 by {
            if e < count - 1 {
                assert(!lands_on(layer[count - 1], width, height, index));
            }
        }
    }
}

/// What a composed frame shows at one cell: a blank, where no layer draws
/// there; else the last cell drawn there, which is the last such cell of the
/// last layer that has one.
pub proof fn lemma_composed_cell(
    width: nat,
    height: nat,
    layers: Seq<Seq<(Element, Position)>>,
    count: nat,
    index: int,
)
    requires
        0 <= index < width * height,
        count <= layers.len(),
    ensures
        (forall|l: int, e: int|
            0 <= l < count && 0 <= e < layers[l].len() ==> !lands_on(
                #[trigger] layers[l][e],
                width,
                height,
                index,
            )) ==> composed(width, height, layers, count)[index] == blank(),
        forall|l: int, e: int|
            0 <= l < count && 0 <= e < layers[l].len() && lands_on(
                #[trigger] layers[l][e],
                width,
                height,
                index,
            ) && (forall|later: int|
                e < later < layers[l].len() ==> !lands_on(
                    #[trigger] layers[l][later],
                    width,
                    height,
                    index,
                )) && (forall|above: int, any: int|
                l < above < count && 0 <= any < layers[above].len() ==> !lands_on(
                    #[trigger] layers[above][any],
                    width,
                    height,
                    index,
                )) ==> composed(width, height, layers, count)[index] == layers[l][e].0,
    decreases count,
{
    if count > 0 {
        let fewer = (count - 1) as nat;
        let top = layers[count - 1];
        let below = composed(width, height, layers, fewer);
        lemma_composed_cell(width, height, layers, fewer, index);
        lemma_composed_len(width, height, layers, fewer);
        lemma_layered_cell(below, width, height, top, top.len(), index);
        assert forall|l: int, e: int|
            0 <= l < count && 0 <= e < layers[l].len() && lands_on(
                #[trigger] layers[l][e],
                width,
                height,
                index,
            ) && (forall|later: int|
                e < later < layers[l].len() ==> !lands_on(
                    #[trigger] layers[l][later],
                    width,
                    height,
                    index,
                )) && (forall|above: int, any: int|
                l < above < count && 0 <= any < layers[above].len() ==> !lands_on(
                    #[trigger] layers[above][any],
                    width,
                    height,
                    index,
                )) implies composed(width, height, layers, count)[index] == layers[l][e].0 by {
            if l < count - 1 {
                assert forall|any: int| 0 <= any < top.len() implies !lands_on(
                    #[trigger] top[any],
                    width,
                    height,
                    index,
                ) by {
                    assert(!lands_on(layers[count - 1][any], width, height, index));
                }
            }
        }
    }
}

/// Draws layers of cells onto an empty frame of `width * height` cells, row
/// by row from the top left corner.
///
/// The layers are drawn in order and each layer's cells in order, so where
/// several cells share a position the last one is seen. A cell whose position
/// is off the grid is left out.
pub fn compose(width: usize, height: usize, layers: &Vec<Vec<(Element, Position)>>) -> (frame: Vec<
    Element,
>)
    requires
        width * height <= usize::MAX,
    ensures
        frame@ == composed(width as nat, height as nat, layers_of(layers@), layers@.len()),
        frame@.len() == width * height,
{
    let area: usize = width * height;
    let mut frame: Vec<Element> = Vec::new();
    let mut made: usize = 0;
    while made < area
        invariant
            made <= area,
            frame@ == Seq::new(made as nat, |i: int| blank()),
        decreases area - made,
    {
        frame.push(Element::new(' ', 0, 0));
        proof {
            assert(frame@ =~= Seq::new((made + 1) as nat, |i: int| blank()));
        }
        made += 1;
    }
    let ghost all = layers_of(layers@);
    let mut l: usize = 0;
    while l < layers.len()
        invariant
            l <= layers@.len(),
            area == width * height,
            all == layers_of(layers@),
            frame@ == composed(width as nat, height as nat, all, l as nat),
            frame@.len() == area,
        decreases layers@.len() - l,
    {
        let layer = &layers[l];
        let ghost below = frame@;
        let mut e: usize = 0;
        while e < layer.len()
            invariant
                e <= layer@.len(),
                area == width * height,
                frame@ == layered(below, width as nat, height as nat, layer@, e as nat),
                frame@.len() == area,
            decreases layer@.len() - e,
        {
            let (element, position) = layer[e];
            if position.0 >= 0 && position.1 >= 0 {
                let x: u64 = position.0 as u64;
                let y: u64 = position.1 as u64;
                if x < width as u64 && y < height as u64 {
                    proof {
                        assert(y * width + x < width * height) by (nonlinear_arith)
                            requires
                                0 <= x < width,
                                0 <= y < height,
                        ;
                        assert(0 <= y * width) by (nonlinear_arith)
                            requires
                                0 <= y,
                                0 <= width,
                        ;
                    }
                    frame[y as usize * width + x as usize] = element;
                }
            }
            e += 1;
        }
        proof {
            assert(all[l as int] == layer@);
            lemma_composed_len(width as nat, height as nat, all, (l + 1) as nat);
        }
        l += 1;
    }
    frame
}

/// Whether `layers` are what `sprites` show, sprite by sprite: as many layers
/// as sprites, and each layer an answer of its sprite to `elements`.
pub open spec fn shown_by<S: Sprite>(
    sprites: Seq<S>,
    layers: Seq<Vec<(Element, Position)>>,
) -> bool {
    layers.len() == sprites.len() && forall|i: int|
        0 <= i < sprites.len() ==> call_ensures(S::elements, (&sprites[i],), #[trigger] layers[i])
}

/// Asks every sprite, in order, for the cells that it shows.
pub fn collect<S: Sprite>(sprites: &Vec<S>) -> (layers: Vec<Vec<(Element, Position)>>)
    ensures
        shown_by(sprites@, layers@),
{
    let mut layers: Vec<Vec<(Element, Position)>> = Vec::new();
    let mut i: usize = 0;
    while i < sprites.len()
        invariant
            i <= sprites@.len(),
            layers@.len() == i,
            forall|k: int|
                0 <= k < i ==> call_ensures(S::elements, (&sprites@[k],), #[trigger] layers@[k]),
        decreases sprites@.len() - i,
    {
        let layer = sprites[i].elements();
        layers.push(layer);
        i += 1;
    }
    layers
}

/// Whether `index` is a place in a list of `count` entries.
pub open spec fn in_list(index: int, count: nat) -> bool {
    0 <= index < count
}

/// Moves every sprite on by one tick, each once, in order: what each sprite
/// is afterwards is what one call of its `next` made of what it was before.
pub fn advance<S: Sprite>(sprites: &mut Vec<S>)
    ensures
        final(sprites)@.len() == old(sprites)@.len(),
        forall|i: int|
            #![trigger in_list(i, old(sprites)@.len())]
            #![trigger old(sprites)@[i]]
            in_list(i, old(sprites)@.len()) ==> exists|call: &mut S|
                *call == old(sprites)@[i] && *final(call) == final(sprites)@[i]
                    && #[trigger] call_ensures(S::next, (call,), ()),
{
    let count: usize = sprites.len();
    let mut i: usize = 0;
    while i < count
        invariant
            i <= count,
            sprites@.len() == count,
            count == old(sprites)@.len(),
            forall|k: int|
                #![trigger old(sprites)@[k]]
                0 <= k < i ==> exists|call: &mut S|
                    *call == old(sprites)@[k] && *final(call) == sprites@[k]
                        && #[trigger] call_ensures(S::next, (call,), ()),
            forall|k: int| i <= k < count ==> sprites@[k] == old(sprites)@[k],
        decreases count - i,
    {
        tick(&mut sprites[i]);
        i += 1;
    }
    proof {
        assert forall|k: int|
            #![trigger in_list(k, old(sprites)@.len())]
            in_list(k, old(sprites)@.len()) implies exists|call: &mut S|
            *call == old(sprites)@[k] && *final(call) == sprites@[k] && #[trigger] call_ensures(
                S::next,
                (call,),
                (),
            ) by {
            let before = old(sprites)@[k];
        }
    }
}

/// Makes the text that shows a list of sprites on a terminal of the given
/// size, and moves the sprites on by one tick.
///
/// Every sprite is first asked for its cells. These are drawn onto an empty
/// frame, sprite by sprite, so that a later sprite covers an earlier one. Only
/// then is each sprite moved on, once, in the same order, so no sprite is
/// asked for its cells while another has already moved: the text shows the
/// sprites as they were, and each sprite is afterwards what one call of its
/// `next` made of what it was. Where the size is not known, no sprite is
/// asked or moved.
pub fn display<S: Sprite>(sprites: &mut Vec<S>, size: Option<(usize, usize)>) -> (result: Result<
    String,
    DisplayError,
>)
    requires
        size matches Some((width, height)) ==> width * height <= usize::MAX,
    ensures
        final(sprites)@.len() == old(sprites)@.len(),
        size is None ==> *final(sprites) == *old(sprites) && result == Err::<String, DisplayError>(
            DisplayError::SizeUnavailable,
        ),
        size matches Some((width, height)) ==> result is Ok && exists|
            layers: Seq<Vec<(Element, Position)>>,
        |
            shown_by(old(sprites)@, layers) && #[trigger] frame_text(
                composed(width as nat, height as nat, layers_of(layers), layers.len()),
                (width * height) as nat,
            ) == result->Ok_0@,
        size is Some ==> forall|i: int|
            #![trigger in_list(i, old(sprites)@.len())]
            #![trigger old(sprites)@[i]]
            in_list(i, old(sprites)@.len()) ==> exists|call: &mut S|
                *call == old(sprites)@[i] && *final(call) == final(sprites)@[i]
                    && #[trigger] call_ensures(S::next, (call,), ()),
{
    let (width, height) = match size {
        Some(size) => size,
        None => { return Err(DisplayError::SizeUnavailable); },
    };
    let layers = collect(sprites);
    let frame = compose(width, height, &layers);
    advance(sprites);
    let result = display_raw(&frame, size);
    proof {
        assert(frame_text(
            composed(width as nat, height as nat, layers_of(layers@), layers@.len()),
            (width * height) as nat,
        ) == result->Ok_0@);
    }
    result
}

} // verus!
