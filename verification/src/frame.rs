//! What the five-by-five LED matrix shows.

use vstd::prelude::*;
use microbit::display::nonblocking::BitImage;

verus! {

/// `microbit::display::nonblocking::BitImage`, the picture that the board's
/// display code takes. Nothing of its inside is visible here; `image_rows`
/// names what it holds.
#[verifier::external_type_specification]
#[verifier::external_body]
pub struct ExBitImage(BitImage);

/// The five bytes that a `BitImage` holds, one for each row from the top.
pub uninterp spec fn image_rows(image: BitImage) -> Seq<u8>;

/// One row of an image as the board's display code packs it: the cell of
/// column `c` shifted left by `c`, all five joined by bitwise or.
pub open spec fn packed_row(cells: Seq<u8>) -> u8 {
    cells[0] | (cells[1] << 1) | (cells[2] << 2) | (cells[3] << 3) | (cells[4] << 4)
}

/// The byte of a row of lit and dark cells: bit `c` is set exactly when the
/// cell of column `c` is lit, and the three top bits are clear.
pub open spec fn row_byte(cells: Seq<bool>) -> u8 {
    packed_row(Seq::new(5, |c: int| if cells[c] { 1u8 } else { 0u8 }))
}

/// Whether the LED in column `col` of row `row` is lit when `image` is shown:
/// bit `col` of the row's byte.
pub open spec fn image_lit(image: BitImage, row: int, col: int) -> bool {
    image_rows(image)[row] & (1u8 << (col as u8)) != 0
}

/// `microbit::display::nonblocking::BitImage::new`. The image it returns holds
/// five row bytes, and the byte of each row is that row of `cells` packed as
/// `packed_row` says. Nothing is claimed beyond the packing: a cell other
/// than 0 or 1 spills into the bits of its neighbours.
#[verifier::external_body]
fn pack_image(cells: &[[u8; 5]; 5]) -> (image: BitImage)
    ensures
        image_rows(image).len() == 5,
        forall|r: int| 0 <= r < 5 ==> #[trigger] image_rows(image)[r] == packed_row(cells@[r]@),
{
    BitImage::new(cells)
}

/// A grid of five rows of five cells.
pub open spec fn is_grid(cells: Seq<Seq<bool>>) -> bool {
    &&& cells.len() == 5
    &&& forall|r: int| 0 <= r < 5 ==> (#[trigger] cells[r]).len() == 5
}

/// Every LED dark.
pub open spec fn blank_grid() -> Seq<Seq<bool>> {
    Seq::new(5, |r: int| Seq::new(5, |c: int| false))
}

/// A single dot in the centre: the picture of a device at rest.
pub open spec fn stable_grid() -> Seq<Seq<bool>> {
    Seq::new(5, |r: int| Seq::new(5, |c: int| r == 2 && c == 2))
}

/// A dashed vertical line down the middle column, broken in the fourth row:
/// the picture of a falling device.
pub open spec fn falling_grid() -> Seq<Seq<bool>> {
    Seq::new(5, |r: int| Seq::new(5, |c: int| c == 2 && r != 3))
}

/// A picture for the matrix: each of the 25 LEDs is lit or dark.
#[derive(Clone, Copy, Debug, PartialEq, Eq)]
pub struct DisplayFrame {
    cells: [[bool; 5]; 5],
}

impl View for DisplayFrame {
    type V = Seq<Seq<bool>>;

    /// The rows from the top, each from the left: `self@[row][col]` tells
    /// whether that LED is lit.
    closed spec fn view(&self) -> Seq<Seq<bool>> {
        Seq::new(5, |r: int| Seq::new(5, |c: int| self.cells@[r]@[c]))
    }
}

/// One for a lit cell, zero for a dark one.
fn cell_bit(lit: bool) -> (bit: u8)
    ensures
        bit == if lit { 1u8 } else { 0u8 },
{
    if lit {
        1
    } else {
        0
    }
}

/// A row with one for each lit cell and zero for each dark one.
fn row_bits(row: &[bool; 5]) -> (bits: [u8; 5])
    ensures
        forall|c: int| 0 <= c < 5 ==> #[trigger] bits@[c] == if row@[c] { 1u8 } else { 0u8 },
{
    [cell_bit(row[0]), cell_bit(row[1]), cell_bit(row[2]), cell_bit(row[3]), cell_bit(row[4])]
}

/// In a row packed from ones and zeros, bit `c` is the cell of column `c`.
proof fn lemma_packed_bits(c0: u8, c1: u8, c2: u8, c3: u8, c4: u8)
    requires
        c0 <= 1,
        c1 <= 1,
        c2 <= 1,
        c3 <= 1,
        c4 <= 1,
    ensures
        ((c0 | (c1 << 1) | (c2 << 2) | (c3 << 3) | (c4 << 4)) & (1u8 << 0u8) != 0) == (c0 == 1),
        ((c0 | (c1 << 1) | (c2 << 2) | (c3 << 3) | (c4 << 4)) & (1u8 << 1u8) != 0) == (c1 == 1),
        ((c0 | (c1 << 1) | (c2 << 2) | (c3 << 3) | (c4 << 4)) & (1u8 << 2u8) != 0) == (c2 == 1),
        ((c0 | (c1 << 1) | (c2 << 2) | (c3 << 3) | (c4 << 4)) & (1u8 << 3u8) != 0) == (c3 == 1),
        ((c0 | (c1 << 1) | (c2 << 2) | (c3 << 3) | (c4 << 4)) & (1u8 << 4u8) != 0) == (c4 == 1),
{
    assert(c0 <= 1 && c1 <= 1 && c2 <= 1 && c3 <= 1 && c4 <= 1 ==> {
        &&& ((c0 | (c1 << 1) | (c2 << 2) | (c3 << 3) | (c4 << 4)) & (1u8 << 0u8) != 0) == (c0 == 1)
        &&& ((c0 | (c1 << 1) | (c2 << 2) | (c3 << 3) | (c4 << 4)) & (1u8 << 1u8) != 0) == (c1 == 1)
        &&& ((c0 | (c1 << 1) | (c2 << 2) | (c3 << 3) | (c4 << 4)) & (1u8 << 2u8) != 0) == (c2 == 1)
        &&& ((c0 | (c1 << 1) | (c2 << 2) | (c3 << 3) | (c4 << 4)) & (1u8 << 3u8) != 0) == (c3 == 1)
        &&& ((c0 | (c1 << 1) | (c2 << 2) | (c3 << 3) | (c4 << 4)) & (1u8 << 4u8) != 0) == (c4 == 1)
    }) by (bit_vector);
}

/// Whether two rows agree in every cell.
fn rows_equal(a: &[bool; 5], b: &[bool; 5]) -> (same: bool)
    ensures
        same == (forall|c: int| 0 <= c < 5 ==> a@[c] == b@[c]),
{
    let same = a[0] == b[0] && a[1] == b[1] && a[2] == b[2] && a[3] == b[3] && a[4] == b[4];
    proof {
        if !same {
            let c = if a@[0] != b@[0] {
                0int
            } else if a@[1] != b@[1] {
                1int
            } else if a@[2] != b@[2] {
                2int
            } else if a@[3] != b@[3] {
                3int
            } else {
                4int
            };
            assert(a@[c] != b@[c]);
        }
    }
    same
}

impl DisplayFrame {
    /// Every frame is a five-by-five grid.
    pub proof fn lemma_is_grid(self)
        ensures
            is_grid(self@),
    {
    }

    /// The frame whose LED in row `r`, column `c` is lit exactly when
    /// `cells[r][c]` is set. Row 0 is the top, column 0 the left.
    pub fn new(cells: [[bool; 5]; 5]) -> (frame: DisplayFrame)
        ensures
            is_grid(frame@),
            forall|r: int, c: int| 0 <= r < 5 && 0 <= c < 5 ==> frame@[r][c] == cells@[r]@[c],
    {
        DisplayFrame { cells }
    }

    /// The frame with every LED dark.
    pub fn blank() -> (frame: DisplayFrame)
        ensures
            frame@ == blank_grid(),
    {
        let o = false;
        let frame = DisplayFrame { cells: [[o; 5]; 5] };
        assert(frame@ =~~= blank_grid());
        frame
    }

    /// The picture of a device at rest: one dot in the centre.
    pub fn stable() -> (frame: DisplayFrame)
        ensures
            frame@ == stable_grid(),
    {
        let o = false;
        let x = true;
        let frame = DisplayFrame {
            cells: [
                [o, o, o, o, o],
                [o, o, o, o, o],
                [o, o, x, o, o],
                [o, o, o, o, o],
                [o, o, o, o, o],
            ],
        };
        assert(frame@ =~~= stable_grid());
        frame
    }

    /// The picture of a falling device: a dashed line down the middle.
    pub fn falling() -> (frame: DisplayFrame)
        ensures
            frame@ == falling_grid(),
    {
        let o = false;
        let x = true;
        let frame = DisplayFrame {
            cells: [
                [o, o, x, o, o],
                [o, o, x, o, o],
                [o, o, x, o, o],
                [o, o, o, o, o],
                [o, o, x, o, o],
            ],
        };
        assert(frame@ =~~= falling_grid());
        frame
    }

    /// Whether the two frames light the same LEDs.
    pub fn same_as(&self, other: &DisplayFrame) -> (same: bool)
        ensures
            same == (self@ == other@),
    {
        let same = rows_equal(&self.cells[0], &other.cells[0])
            && rows_equal(&self.cells[1], &other.cells[1])
            && rows_equal(&self.cells[2], &other.cells[2])
            && rows_equal(&self.cells[3], &other.cells[3])
            && rows_equal(&self.cells[4], &other.cells[4]);
        proof {
            if same {
                assert(self@ =~~= other@);
            } else {
                let r = if !(forall|c: int| 0 <= c < 5 ==> self.cells@[0]@[c] == other.cells@[0]@[c]) {
                    0int
                } else if !(forall|c: int| 0 <= c < 5 ==> self.cells@[1]@[c] == other.cells@[1]@[c]) {
                    1int
                } else if !(forall|c: int| 0 <= c < 5 ==> self.cells@[2]@[c] == other.cells@[2]@[c]) {
                    2int
                } else if !(forall|c: int| 0 <= c < 5 ==> self.cells@[3]@[c] == other.cells@[3]@[c]) {
                    3int
                } else {
                    4int
                };
                let c = choose|c: int| 0 <= c < 5 && self.cells@[r]@[c] != other.cells@[r]@[c];
                assert(self@[r][c] != other@[r][c]);
            }
        }
        same
    }

    /// Whether the LED in row `row`, column `col` is lit.
    pub fn is_lit(&self, row: usize, col: usize) -> (lit: bool)
        requires
            row < 5,
            col < 5,
        ensures
            lit == self@[row as int][col as int],
    {
        self.cells[row][col]
    }

    /// The cells of row `row`, from the left.
    pub fn row(&self, row: usize) -> (cells: [bool; 5])
        requires
            row < 5,
        ensures
            cells@ == self@[row as int],
    {
        let cells = self.cells[row];
        assert(cells@ =~= self@[row as int]);
        cells
    }

    /// The image that the board's display code takes, with the same LEDs lit.
    pub fn to_bit_image(&self) -> (image: BitImage)
        ensures
            image_rows(image).len() == 5,
            forall|r: int| 0 <= r < 5 ==> #[trigger] image_rows(image)[r] == row_byte(self@[r]),
            forall|r: int, c: int| 0 <= r < 5 && 0 <= c < 5 ==> image_lit(image, r, c) == self@[r][c],
    {
        let bits: [[u8; 5]; 5] = [
            row_bits(&self.cells[0]),
            row_bits(&self.cells[1]),
            row_bits(&self.cells[2]),
            row_bits(&self.cells[3]),
            row_bits(&self.cells[4]),
        ];
        let image = pack_image(&bits);
        proof {
            assert forall|r: int| 0 <= r < 5 implies #[trigger] image_rows(image)[r] == row_byte(self@[r]) by {
                assert(bits@[r]@ =~= Seq::new(5, |c: int| if self@[r][c] { 1u8 } else { 0u8 }));
            }
            assert forall|r: int, c: int| 0 <= r < 5 && 0 <= c < 5 implies image_lit(image, r, c) == self@[r][c] by {
                let row = bits@[r]@;
                assert(image_rows(image)[r] == packed_row(row));
                lemma_packed_bits(row[0], row[1], row[2], row[3], row[4]);
            }
        }
        image
    }
}

} // verus!
