//! Random values: decoding entropy bytes, folding draws into a range, and
//! shuffling.
//!
//! Nothing here reads entropy. The caller reads the bytes and passes them in,
//! so every function is a plain function of its arguments.

use vstd::prelude::*;

verus! {

/// One more than the largest number that `width` bytes can hold.
pub open spec fn limit(width: nat) -> nat
    decreases width,
{
    if width == 0 {
        1
    } else {
        256 * limit((width - 1) as nat)
    }
}

/// The number that `bytes` spell, least significant byte first.
pub open spec fn le_value(bytes: Seq<u8>) -> nat
    decreases bytes.len(),
{
    if bytes.len() == 0 {
        0
    } else {
        bytes[0] as nat + 256 * le_value(bytes.drop_first())
    }
}

/// A number spelled by `bytes.len()` bytes stays below the limit of that width.
pub proof fn lemma_le_value_bounded(bytes: Seq<u8>)
    ensures
        le_value(bytes) < limit(bytes.len()),
    decreases bytes.len(),
{
    if bytes.len() > 0 {
        lemma_le_value_bounded(bytes.drop_first());
    }
}

/// A wider value has a larger limit.
pub proof fn lemma_limit_grows(narrow: nat, wide: nat)
    requires
        narrow <= wide,
    ensures
        0 < limit(narrow) <= limit(wide),
    decreases wide,
{
    if wide > 0 {
        if narrow < wide {
            lemma_limit_grows(narrow, (wide - 1) as nat);
        } else {
            lemma_limit_grows((narrow - 1) as nat, (wide - 1) as nat);
        }
    }
}

/// The limits of the widths that the integer types have.
pub proof fn lemma_limits()
    ensures
        limit(1) == 0x100,
        limit(2) == 0x1_0000,
        limit(4) == 0x1_0000_0000,
        limit(8) == 0x1_0000_0000_0000_0000,
{
    reveal_with_fuel(limit, 9);
}

/// An unsigned integer of a fixed width: what entropy is decoded into.
pub trait Unsigned: Copy {
    /// How many bytes a value takes.
    spec fn bytes() -> nat;

    /// The number that a value stands for.
    spec fn value(self) -> nat;

    /// A value takes between one and eight bytes.
    proof fn lemma_width()
        ensures
            1 <= Self::bytes() <= 8,
    ;

    /// A value is below the limit of its width.
    proof fn lemma_bounded(self)
        ensures
            self.value() < limit(Self::bytes()),
    ;

    /// Two values that stand for one number are the same value.
    proof fn lemma_same(self, other: Self)
        requires
            self.value() == other.value(),
        ensures
            self == other,
    ;

    /// How many bytes a value takes.
    fn width() -> (width: usize)
        ensures
            width == Self::bytes(),
    ;

    /// The value as a 64-bit number.
    fn widen(self) -> (wide: u64)
        ensures
            wide == self.value(),
    ;

    /// The value that stands for `wide`.
    fn narrow(wide: u64) -> (value: Self)
        requires
            wide < limit(Self::bytes()),
        ensures
            value.value() == wide,
    ;
}

impl Unsigned for u8 {
    open spec fn bytes() -> nat {
        1
    }

    open spec fn value(self) -> nat {
        self as nat
    }

    proof fn lemma_width() {
    }

    proof fn lemma_bounded(self) {
        lemma_limits();
    }

    proof fn lemma_same(self, other: Self) {
    }

    fn width() -> (width: usize) {
        1
    }

    fn widen(self) -> (wide: u64) {
        self as u64
    }

    fn narrow(wide: u64) -> (value: Self) {
        proof {
            lemma_limits();
        }
        wide as u8
    }
}

impl Unsigned for u16 {
    open spec fn bytes() -> nat {
        2
    }

    open spec fn value(self) -> nat {
        self as nat
    }

    proof fn lemma_width() {
    }

    proof fn lemma_bounded(self) {
        lemma_limits();
    }

    proof fn lemma_same(self, other: Self) {
    }

    fn width() -> (width: usize) {
        2
    }

    fn widen(self) -> (wide: u64) {
        self as u64
    }

    fn narrow(wide: u64) -> (value: Self) {
        proof {
            lemma_limits();
        }
        wide as u16
    }
}

impl Unsigned for u32 {
    open spec fn bytes() -> nat {
        4
    }

    open spec fn value(self) -> nat {
        self as nat
    }

    proof fn lemma_width() {
    }

    proof fn lemma_bounded(self) {
        lemma_limits();
    }

    proof fn lemma_same(self, other: Self) {
    }

    fn width() -> (width: usize) {
        4
    }

    fn widen(self) -> (wide: u64) {
        self as u64
    }

    fn narrow(wide: u64) -> (value: Self) {
        proof {
            lemma_limits();
        }
        wide as u32
    }
}

impl Unsigned for u64 {
    open spec fn bytes() -> nat {
        8
    }

    open spec fn value(self) -> nat {
        self as nat
    }

    proof fn lemma_width() {
    }

    proof fn lemma_bounded(self) {
        lemma_limits();
    }

    proof fn lemma_same(self, other: Self) {
    }

    fn width() -> (width: usize) {
        8
    }

    fn widen(self) -> (wide: u64) {
        self
    }

    fn narrow(wide: u64) -> (value: Self) {
        wide
    }
}

impl Unsigned for usize {
    open spec fn bytes() -> nat {
        (usize::BITS / 8) as nat
    }

    open spec fn value(self) -> nat {
        self as nat
    }

    proof fn lemma_width() {
    }

    proof fn lemma_bounded(self) {
        lemma_limits();
    }

    proof fn lemma_same(self, other: Self) {
    }

    fn width() -> (width: usize) {
        (usize::BITS / 8) as usize
    }

    fn widen(self) -> (wide: u64) {
        self as u64
    }

    fn narrow(wide: u64) -> (value: Self) {
        proof {
            lemma_limits();
        }
        wide as usize
    }
}

/// The bytes of the `index`-th value in a run of values of `width` bytes each.
pub open spec fn chunk(bytes: Seq<u8>, width: nat, index: int) -> Seq<u8> {
    bytes.subrange(index * width, (index + 1) * width)
}

/// Reads the number that `width` bytes spell, starting at `start`.
fn decode(bytes: &[u8], start: usize, width: usize) -> (wide: u64)
    requires
        width <= 8,
        start + width <= bytes@.len(),
    ensures
        wide == le_value(bytes@.subrange(start as int, start + width)),
{
    let ghost end: int = start + width;
    let total: usize = bytes.len();
    let mut wide: u64 = 0;
    let mut left: usize = width;
    proof {
        assert(bytes@.subrange(end, end).len() == 0);
    }
    while left > 0
        invariant
            left <= width <= 8,
            end == start + width,
            end <= total == bytes@.len(),
            wide == le_value(bytes@.subrange(start + left, end)),
        decreases left,
    {
        left -= 1;
        let byte: u8 = bytes[start + left];
        proof {
            let rest = bytes@.subrange(start + left + 1, end);
            let whole = bytes@.subrange(start + left, end);
            assert(whole.drop_first() =~= rest);
            assert(whole[0] == byte);
            lemma_le_value_bounded(rest);
            lemma_limit_grows(rest.len(), 7);
            lemma_limits();
            reveal_with_fuel(limit, 8);
        }
        wide = wide * 256 + byte as u64;
    }
    wide
}

/// Decodes one value from exactly as many entropy bytes as the value takes,
/// least significant byte first.
pub fn rand<T: Unsigned>(bytes: &[u8]) -> (value: T)
    requires
        bytes@.len() == T::bytes(),
    ensures
        value.value() == le_value(bytes@),
{
    proof {
        T::lemma_width();
        lemma_le_value_bounded(bytes@);
        assert(bytes@.subrange(0, bytes@.len() as int) =~= bytes@);
    }
    let wide = decode(bytes, 0, T::width());
    T::narrow(wide)
}

/// Decodes entropy bytes into values, least significant byte first: one value
/// for each full run of bytes, in order. Bytes left over at the end are not
/// used.
pub fn vec<T: Unsigned>(bytes: &[u8]) -> (values: Vec<T>)
    ensures
        values@.len() == bytes@.len() / T::bytes(),
        forall|i: int|
            0 <= i < values@.len() ==> (#[trigger] values@[i]).value() == le_value(
                chunk(bytes@, T::bytes(), i),
            ),
{
    proof {
        T::lemma_width();
    }
    let width: usize = T::width();
    let total: usize = bytes.len();
    let count: usize = total / width;
    let mut values: Vec<T> = Vec::new();
    let mut done: usize = 0;
    while done < count
        invariant
            1 <= width <= 8,
            width == T::bytes(),
            count == bytes@.len() / width as nat,
            total == bytes@.len(),
            done <= count,
            values@.len() == done,
            forall|i: int|
                0 <= i < done ==> (#[trigger] values@[i]).value() == le_value(
                    chunk(bytes@, T::bytes(), i),
                ),
        decreases count - done,
    {
        proof {
            assert((done + 1) * width <= count * width) by (nonlinear_arith)
                requires
                    done + 1 <= count,
                    width >= 0,
            ;
            assert(count * width <= bytes@.len()) by (nonlinear_arith)
                requires
                    count == bytes@.len() / width as nat,
                    width > 0,
            ;
            assert((done + 1) * width == done * width + width) by (nonlinear_arith);
            assert(0 <= done * width) by (nonlinear_arith);
        }
        let start: usize = done * width;
        let wide = decode(bytes, start, width);
        proof {
            let piece = chunk(bytes@, T::bytes(), done as int);
            assert(piece =~= bytes@.subrange(start as int, start + width));
            lemma_le_value_bounded(piece);
        }
        let value: T = T::narrow(wide);
        values.push(value);
        done += 1;
    }
    values
}

/// Why a range was turned down.
#[derive(Debug, Clone, Copy, PartialEq, Eq, Structural)]
pub enum RangeError {
    /// The lower bound lies above the upper bound.
    InvalidRange,
}

impl RangeError {
    /// The error in words.
    pub fn message(&self) -> (text: &'static str)
        ensures
            text@ == "min must be less than or equal to max"@,
    {
        "min must be less than or equal to max"
    }
}

/// Where a draw lands in the range from `min` up to, but not including, `max`:
/// the remainder of the draw by the size of the range, counted from `min`.
///
/// Draws are folded, not rejected, so the low values of a range come up a
/// little more often wherever the size of the range does not divide the number
/// of values a draw can take.
pub open spec fn folded(draw: nat, min: nat, max: nat) -> nat
    recommends
        min < max,
{
    min + draw % ((max - min) as nat)
}

/// A folded draw lies in its range.
pub proof fn lemma_folded_in_range(draw: nat, min: nat, max: nat)
    requires
        min < max,
    ensures
        min <= folded(draw, min, max) < max,
{
}

/// Whether a value between `min` and `max` takes a draw: only a range that
/// holds more than one value does.
pub fn needs_draw<T: Unsigned>(min: T, max: T) -> (needed: bool)
    ensures
        needed == (min.value() < max.value()),
{
    min.widen() < max.widen()
}

/// Folds `draw` into a range that holds at least one value.
fn fold<T: Unsigned>(draw: T, min: T, max: T) -> (value: T)
    requires
        min.value() < max.value(),
    ensures
        value.value() == folded(draw.value(), min.value(), max.value()),
{
    let low: u64 = min.widen();
    let high: u64 = max.widen();
    let wide: u64 = low + draw.widen() % (high - low);
    proof {
        max.lemma_bounded();
    }
    T::narrow(wide)
}

/// A value in the range from `min` up to, but not including, `max`, chosen
/// by `draw`.
///
/// A range with `min == max` gives `min`, whatever the draw. A range with
/// `min` above `max` is an error.
pub fn range<T: Unsigned>(min: T, max: T, draw: T) -> (result: Result<T, RangeError>)
    ensures
        min.value() > max.value() ==> result == Err::<T, RangeError>(RangeError::InvalidRange),
        min.value() == max.value() ==> result == Ok::<T, RangeError>(min),
        min.value() < max.value() ==> result is Ok && result->Ok_0.value() == folded(
            draw.value(),
            min.value(),
            max.value(),
        ),
        result matches Ok(value) ==> min.value() <= value.value() && (value.value() < max.value()
            || value == min),
{
    let low: u64 = min.widen();
    let high: u64 = max.widen();
    if low > high {
        Err(RangeError::InvalidRange)
    } else if low == high {
        Ok(min)
    } else {
        Ok(fold(draw, min, max))
    }
}

/// What `vec_range` gives at one position: `min` in a range of one value,
/// else the fold of the draw at that position.
pub open spec fn ranged<T: Unsigned>(min: T, max: T, draws: Seq<T>, index: int) -> nat {
    if min.value() == max.value() {
        min.value()
    } else {
        folded(draws[index].value(), min.value(), max.value())
    }
}

/// `len` values in the range from `min` up to, but not including, `max`, the
/// value at each position chosen by the draw at that position.
///
/// A range with `min == max` gives `len` times `min` and looks at no draw. A
/// range with `min` above `max` is an error.
pub fn vec_range<T: Unsigned>(min: T, max: T, len: usize, draws: &[T]) -> (result: Result<
    Vec<T>,
    RangeError,
>)
    requires
        min.value() < max.value() ==> draws@.len() == len,
    ensures
        min.value() > max.value() ==> result == Err::<Vec<T>, RangeError>(
            RangeError::InvalidRange,
        ),
        min.value() <= max.value() ==> result is Ok && result->Ok_0@.len() == len,
        result matches Ok(values) ==> forall|i: int|
            0 <= i < len ==> (#[trigger] values@[i]).value() == ranged(min, max, draws@, i),
{
    let low: u64 = min.widen();
    let high: u64 = max.widen();
    if low > high {
        return Err(RangeError::InvalidRange);
    }
    let mut values: Vec<T> = Vec::new();
    let mut done: usize = 0;
    while done < len
        invariant
            low == min.value(),
            high == max.value(),
            low <= high,
            low < high ==> draws@.len() == len,
            done <= len,
            values@.len() == done,
            forall|i: int|
                0 <= i < done ==> (#[trigger] values@[i]).value() == ranged(min, max, draws@, i),
        decreases len - done,
    {
        let value: T = if low == high {
            min
        } else {
            fold(draws[done], min, max)
        };
        values.push(value);
        done += 1;
    }
    Ok(values)
}

/// `items` with the entries at `i` and `j` exchanged.
pub open spec fn swapped<T>(items: Seq<T>, i: int, j: int) -> Seq<T> {
    items.update(i, items[j]).update(j, items[i])
}

/// `items` after the first `steps` steps of a shuffle: step `i` exchanges the
/// entry at `i` with the entry at the position that draw `i` folds to, which
/// may be any position of the sequence, `i` itself included.
pub open spec fn shuffled<T>(items: Seq<T>, draws: Seq<usize>, steps: nat) -> Seq<T>
    decreases steps,
{
    if steps == 0 {
        items
    } else {
        let i = steps - 1;
        swapped(shuffled(items, draws, i as nat), i, draws[i] as int % items.len() as int)
    }
}

/// Exchanging two entries keeps the length, and keeps what the sequence
/// holds, each entry as often as before.
pub proof fn lemma_swapped_permutes<T>(items: Seq<T>, i: int, j: int)
    requires
        0 <= i < items.len(),
        0 <= j < items.len(),
    ensures
        swapped(items, i, j).len() == items.len(),
        swapped(items, i, j).to_multiset() == items.to_multiset(),
{
    broadcast use {
        vstd::seq_lib::to_multiset_update,
        vstd::seq_lib::to_multiset_contains,
        vstd::multiset::group_multiset_axioms,
    };

    let first = items.update(i, items[j]);
    assert(first[j] == items[j]);
    assert(items.contains(items[i]));
    assert(first.to_multiset() == items.to_multiset().insert(items[j]).remove(items[i]));
    assert(swapped(items, i, j).to_multiset() == first.to_multiset().insert(items[i]).remove(
        items[j],
    ));
    assert(swapped(items, i, j).to_multiset() =~= items.to_multiset());
}

/// A shuffle rearranges: whatever the draws, every step of it holds what the
/// sequence held at the start, each entry as often as before.
pub proof fn lemma_shuffled_permutes<T>(items: Seq<T>, draws: Seq<usize>, steps: nat)
    requires
        steps <= items.len(),
        draws.len() == items.len(),
    ensures
        shuffled(items, draws, steps).len() == items.len(),
        shuffled(items, draws, steps).to_multiset() == items.to_multiset(),
    decreases steps,
{
    if steps > 0 {
        let i = (steps - 1) as nat;
        lemma_shuffled_permutes(items, draws, i);
        lemma_swapped_permutes(
            shuffled(items, draws, i),
            i as int,
            draws[i as int] as int % items.len() as int,
        );
    }
}

/// Shuffles `vec` in place, one draw for each position.
///
/// For each position from the first to the last, the entry there changes
/// places with the entry at the position that the draw folds to. That
/// position may be any of the vector, so an entry may change places with
/// itself.
pub fn shuffle<T: Copy>(vec: &mut Vec<T>, draws: &[usize])
    requires
        draws@.len() == old(vec)@.len(),
    ensures
        final(vec)@ == shuffled(old(vec)@, draws@, old(vec)@.len()),
        final(vec)@.to_multiset() == old(vec)@.to_multiset(),
{
    let len: usize = vec.len();
    let mut i: usize = 0;
    while i < len
        invariant
            i <= len,
            len == old(vec)@.len(),
            draws@.len() == len,
            vec@ == shuffled(old(vec)@, draws@, i as nat),
            vec@.len() == len,
        decreases len - i,
    {
        let j: usize = fold(draws[i], 0, len);
        let here: T = vec[i];
        let there: T = vec[j];
        vec[i] = there;
        vec[j] = here;
        proof {
            lemma_shuffled_permutes(old(vec)@, draws@, (i + 1) as nat);
        }
        i += 1;
    }
    proof {
        lemma_shuffled_permutes(old(vec)@, draws@, len as nat);
    }
}

} // verus!
