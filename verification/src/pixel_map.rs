//! Grids over the map: pathing, placement, creep, terrain height and
//! visibility, stored as two-dimensional arrays indexed by (x, y).

use vstd::prelude::*;
use ndarray::{Array2, ShapeError};

verus! {

/// A cell of a grid of bits.
#[derive(Debug, Clone, Copy, PartialEq, Eq, Structural)]
pub enum Pixel {
    Filled,
    Empty,
}

impl Pixel {
    /// Whether this is `Filled`.
    pub fn is_set(self) -> (r: bool)
        ensures
            r == (self is Filled),
    {
        matches!(self, Pixel::Filled)
    }

    /// Whether this is `Empty`.
    pub fn is_empty(self) -> (r: bool)
        ensures
            r == (self is Empty),
    {
        matches!(self, Pixel::Empty)
    }

    /// The pixel for a bit: `0` is `Filled`, `1` is `Empty`.
    pub fn from_u8(n: u8) -> (r: Option<Pixel>)
        ensures
            r == (if n == 0 {
                Some(Pixel::Filled)
            } else if n == 1 {
                Some(Pixel::Empty)
            } else {
                None
            }),
    {
        match n {
            0 => Some(Pixel::Filled),
            1 => Some(Pixel::Empty),
            _ => None,
        }
    }
}

impl Default for Pixel {
    fn default() -> (r: Pixel)
        ensures
            r == Pixel::Empty,
    {
        Pixel::Empty
    }
}

/// How much of a cell of the map the bot sees.
#[derive(Debug, Clone, Copy, PartialEq, Eq, Structural)]
pub enum Visibility {
    Hidden,
    Fogged,
    Visible,
    FullHidden,
}

impl Visibility {
    /// Whether this is `Hidden`.
    pub fn is_hidden(self) -> (r: bool)
        ensures
            r == (self is Hidden),
    {
        matches!(self, Visibility::Hidden)
    }

    /// Whether this is `Fogged`.
    pub fn is_fogged(self) -> (r: bool)
        ensures
            r == (self is Fogged),
    {
        matches!(self, Visibility::Fogged)
    }

    /// Whether this is `Visible`.
    pub fn is_visible(self) -> (r: bool)
        ensures
            r == (self is Visible),
    {
        matches!(self, Visibility::Visible)
    }

    /// Whether this is `FullHidden`.
    pub fn is_full_hidden(self) -> (r: bool)
        ensures
            r == (self is FullHidden),
    {
        matches!(self, Visibility::FullHidden)
    }

    /// Whether the cell was ever seen: it is not `Hidden`.
    pub fn is_explored(self) -> (r: bool)
        ensures
            r == !(self is Hidden),
    {
        !matches!(self, Visibility::Hidden)
    }

    /// The visibility with the given number, in the order of declaration.
    pub open spec fn spec_from_u8(n: u8) -> Option<Visibility> {
        if n == 0 {
            Some(Visibility::Hidden)
        } else if n == 1 {
            Some(Visibility::Fogged)
        } else if n == 2 {
            Some(Visibility::Visible)
        } else if n == 3 {
            Some(Visibility::FullHidden)
        } else {
            None
        }
    }

    /// The visibility with the given number, in the order of declaration.
    pub fn from_u8(n: u8) -> (r: Option<Visibility>)
        ensures
            r == Visibility::spec_from_u8(n),
    {
        match n {
            0 => Some(Visibility::Hidden),
            1 => Some(Visibility::Fogged),
            2 => Some(Visibility::Visible),
            3 => Some(Visibility::FullHidden),
            _ => None,
        }
    }
}

impl Default for Visibility {
    fn default() -> (r: Visibility)
        ensures
            r == Visibility::Hidden,
    {
        Visibility::Hidden
    }
}

/// The eight pixels of a byte, most significant bit first; a bit `0` is
/// `Filled` and a bit `1` is `Empty`.
pub open spec fn spec_to_binary(n: u8) -> Seq<Pixel> {
    Seq::new(8, |i: int| if (n >> ((7 - i) as u8)) & 1u8 == 1u8 { Pixel::Empty } else { Pixel::Filled })
}

/// The eight pixels of a byte, most significant bit first.
pub fn to_binary(n: u8) -> (r: Vec<Pixel>)
    ensures
        r@ == spec_to_binary(n),
{
    match n {
        0 => {
            let r = vec![Pixel::Filled, Pixel::Filled, Pixel::Filled, Pixel::Filled, Pixel::Filled, Pixel::Filled, Pixel::Filled, Pixel::Filled];
            proof {
                assert(forall|x: u8| x < 8 ==> #[trigger] (0u8 >> x) & 1u8 == 0u8) by (bit_vector);
                assert forall|i: int| 0 <= i < 8 implies spec_to_binary(n)[i] == Pixel::Filled by {
                    assert(((7 - i) as u8) < 8);
                }
                assert(r@ =~= spec_to_binary(n));
            }
            r
        },
        255 => {
            let r = vec![
                Pixel::Empty,
                Pixel::Empty,
                Pixel::Empty,
                Pixel::Empty,
                Pixel::Empty,
                Pixel::Empty,
                Pixel::Empty,
                Pixel::Empty,
            ];
            proof {
                assert(forall|x: u8| x < 8 ==> #[trigger] (255u8 >> x) & 1u8 == 1u8) by (bit_vector);
                assert forall|i: int| 0 <= i < 8 implies spec_to_binary(n)[i] == Pixel::Empty by {
                    assert(((7 - i) as u8) < 8);
                }
                assert(r@ =~= spec_to_binary(n));
            }
            r
        },
        _ => {
            let mut r: Vec<Pixel> = Vec::new();
            let mut k: u8 = 0;
            while k < 8
                invariant
                    0 <= k <= 8,
                    r@ == spec_to_binary(n).take(k as int),
                decreases 8 - k,
            {
                let bit = (n >> (7 - k)) & 1;
                proof {
                    assert(bit == 0u8 || bit == 1u8) by (bit_vector)
                        requires
                            bit == (n >> (7 - k) as u8) & 1u8,
                    ;
                }
                let p = Pixel::from_u8(bit).unwrap();
                r.push(p);
                proof {
                    assert(spec_to_binary(n).take(k + 1) =~= spec_to_binary(n).take(k as int).push(p));
                }
                k = k + 1;
            }
            proof {
                assert(spec_to_binary(n).take(8) =~= spec_to_binary(n));
            }
            r
        },
    }
}

/// The pixels of a sequence of bytes, eight per byte, in order.
pub open spec fn spec_expand(bytes: Seq<u8>) -> Seq<Pixel>
    decreases bytes.len(),
{
    if bytes.len() == 0 {
        Seq::empty()
    } else {
        spec_expand(bytes.drop_last()) + spec_to_binary(bytes.last())
    }
}

/// A two-dimensional ndarray array of bytes, held in a field that the
/// contracts do not read; `array_shape` and `array_cells` describe it.
#[verifier::external_body]
pub struct ByteArray {
    array: Array2<u8>,
}

/// The error of ndarray for a shape that does not fit the data.
#[verifier::external_type_specification]
#[verifier::external_body]
pub struct ExShapeError(ShapeError);

/// The lengths of the two axes of an array.
pub uninterp spec fn array_shape(a: ByteArray) -> (nat, nat);

/// The elements of an array, indexed `[i][j]` along its two axes.
pub uninterp spec fn array_cells(a: ByteArray) -> Seq<Seq<u8>>;

/// Whether the array has `rows` and `cols` as the lengths of its axes and
/// `element(i, j)` at each index.
pub open spec fn array_is(a: ByteArray, rows: nat, cols: nat, element: spec_fn(int, int) -> u8) -> bool {
    &&& array_shape(a) == (rows, cols)
    &&& array_cells(a).len() == rows
    &&& forall|i: int| 0 <= i < rows ==> #[trigger] array_cells(a)[i].len() == cols
    &&& forall|i: int, j: int| 0 <= i < rows && 0 <= j < cols ==> array_cells(a)[i][j] == element(i, j)
}

/// `Array2::from_shape_vec` with the shape `(rows, cols)` in the default
/// (row-major) order: element (i, j) is `data[i * cols + j]`. It fails
/// when the length of `data` is not `rows * cols`, and it succeeds when
/// it is and each axis length and their product fit in an `isize` (an
/// axis longer than that is refused even when the other axis is empty).
#[verifier::external_body]
fn array_from_shape_vec(rows: usize, cols: usize, data: Vec<u8>) -> (r: Result<ByteArray, ShapeError>)
    ensures
        r is Ok ==> data@.len() == rows * cols,
        data@.len() == rows * cols && rows <= isize::MAX && cols <= isize::MAX && rows * cols <= isize::MAX ==> r is Ok,
        r matches Ok(a) ==> array_is(a, rows as nat, cols as nat, |i: int, j: int| data@[i * cols + j]),
{
    match Array2::from_shape_vec((rows, cols), data) {
        Ok(array) => Ok(ByteArray { array }),
        Err(e) => Err(e),
    }
}

/// `ArrayBase::reversed_axes`: the transposed array, whose element (i, j)
/// is the element (j, i) of `a`.
#[verifier::external_body]
fn array_reversed_axes(a: ByteArray) -> (r: ByteArray)
    ensures
        array_is(
            r,
            array_shape(a).1,
            array_shape(a).0,
            |i: int, j: int| array_cells(a)[j][i],
        ),
{
    ByteArray { array: a.array.reversed_axes() }
}

/// Indexing of an array by `(i, j)`; it panics out of bounds.
#[verifier::external_body]
fn array_index(a: &ByteArray, i: usize, j: usize) -> (r: u8)
    requires
        i < array_shape(*a).0,
        j < array_shape(*a).1,
    ensures
        r == array_cells(*a)[i as int][j as int],
{
    a.array[(i, j)]
}

/// The array with cell (x, y) holding `data[y * width + x]`: the data is
/// read row by row into a `height` by `width` array, then transposed.
fn grid_from_rows(width: usize, height: usize, data: Vec<u8>) -> (a: ByteArray)
    requires
        data@.len() == width * height,
        width <= isize::MAX && height <= isize::MAX && width * height <= isize::MAX,
    ensures
        array_is(a, width as nat, height as nat, |x: int, y: int| data@[y * width + x]),
{
    let ghost d = data@;
    let a = array_from_shape_vec(height, width, data).unwrap();
    let t = array_reversed_axes(a);
    proof {
        assert forall|x: int, y: int| 0 <= x < width && 0 <= y < height implies array_cells(t)[x][y]
            == d[y * width + x] by {
            assert(array_cells(t)[x][y] == array_cells(a)[y][x]);
        }
    }
    t
}

/// The pixel a bit of a grid stands for.
pub open spec fn pixel_of(b: u8) -> Pixel {
    if b == 0 { Pixel::Filled } else { Pixel::Empty }
}

/// A grid of pixels over the map, indexed by (x, y).
pub struct PixelMap {
    bits: ByteArray,
}

impl PixelMap {
    /// A grid with no cells.
    pub fn empty() -> (r: PixelMap)
        ensures
            r.width() == 0,
            r.height() == 0,
    {
        PixelMap { bits: grid_from_rows(0, 0, Vec::new()) }
    }

    /// The number of columns.
    pub closed spec fn width(&self) -> nat {
        array_shape(self.bits).0
    }

    /// The number of rows.
    pub closed spec fn height(&self) -> nat {
        array_shape(self.bits).1
    }

    /// The pixel at (x, y).
    pub closed spec fn cell(&self, x: int, y: int) -> Pixel {
        pixel_of(array_cells(self.bits)[x][y])
    }

    /// The grid of a bitmap image `width` by `height`, whose bytes hold
    /// eight pixels each, row by row, most significant bit first.
    pub fn from_image(width: usize, height: usize, bytes: &[u8]) -> (r: PixelMap)
        requires
            8 * bytes@.len() == width * height,
            width <= isize::MAX && height <= isize::MAX && width * height <= isize::MAX,
        ensures
            r.width() == width,
            r.height() == height,
            forall|x: int, y: int|
                0 <= x < width && 0 <= y < height ==> #[trigger] r.cell(x, y) == spec_expand(bytes@)[y * width + x],
    {
        let mut data: Vec<u8> = Vec::new();
        let mut i: usize = 0;
        proof {
            assert(bytes@.take(0) =~= Seq::<u8>::empty());
            assert(data@.map_values(|b: u8| pixel_of(b)) =~= spec_expand(bytes@.take(0)));
        }
        while i < bytes.len()
            invariant
                0 <= i <= bytes@.len(),
                data@.map_values(|b: u8| pixel_of(b)) == spec_expand(bytes@.take(i as int)),
                data@.len() == 8 * i,
            decreases bytes@.len() - i,
        {
            let b = to_binary(bytes[i]);
            let mut k: usize = 0;
            let ghost start = data@;
            while k < b.len()
                invariant
                    0 <= k <= b@.len(),
                    b@.len() == 8,
                    data@.len() == start.len() + k,
                    data@.take(start.len() as int) == start,
                    data@.skip(start.len() as int).map_values(|b: u8| pixel_of(b)) == b@.take(k as int),
                decreases b@.len() - k,
            {
                let bit: u8 = if b[k].is_set() { 0 } else { 1 };
                data.push(bit);
                proof {
                    assert(data@.take(start.len() as int) =~= start);
                    assert(data@.skip(start.len() as int).map_values(|b: u8| pixel_of(b)) =~= b@.take(k + 1));
                }
                k = k + 1;
            }
            proof {
                assert(b@.take(8) =~= b@);
                assert(bytes@.take(i + 1).drop_last() =~= bytes@.take(i as int));
                assert(bytes@.take(i + 1).last() == bytes@[i as int]);
                assert(data@ =~= start + data@.skip(start.len() as int));
                assert(data@.map_values(|b: u8| pixel_of(b)) =~= start.map_values(|b: u8| pixel_of(b))
                    + data@.skip(start.len() as int).map_values(|b: u8| pixel_of(b)));
            }
            i = i + 1;
        }
        proof {
            assert(bytes@.take(bytes@.len() as int) =~= bytes@);
        }
        let ghost d = data@;
        let bits = grid_from_rows(width, height, data);
        let r = PixelMap { bits };
        proof {
            assert forall|x: int, y: int| 0 <= x < width && 0 <= y < height implies #[trigger] r.cell(x, y)
                == spec_expand(bytes@)[y * width + x] by {
                assert(0 <= y * width + x < width * height) by (nonlinear_arith)
                    requires
                        0 <= x < width,
                        0 <= y < height,
                ;
                assert(d.map_values(|b: u8| pixel_of(b))[y * width + x] == pixel_of(d[y * width + x]));
            }
        }
        r
    }

    /// The pixel at (x, y).
    pub fn get(&self, x: usize, y: usize) -> (r: Pixel)
        requires
            x < self.width(),
            y < self.height(),
        ensures
            r == self.cell(x as int, y as int),
    {
        let b = array_index(&self.bits, x, y);
        if b == 0 { Pixel::Filled } else { Pixel::Empty }
    }
}

/// A grid of bytes over the map, indexed by (x, y).
pub struct ByteMap {
    bytes: ByteArray,
}

impl ByteMap {
    /// A grid with no cells.
    pub fn empty() -> (r: ByteMap)
        ensures
            r.width() == 0,
            r.height() == 0,
    {
        ByteMap { bytes: grid_from_rows(0, 0, Vec::new()) }
    }

    /// The number of columns.
    pub closed spec fn width(&self) -> nat {
        array_shape(self.bytes).0
    }

    /// The number of rows.
    pub closed spec fn height(&self) -> nat {
        array_shape(self.bytes).1
    }

    /// The byte at (x, y).
    pub closed spec fn cell(&self, x: int, y: int) -> u8 {
        array_cells(self.bytes)[x][y]
    }

    /// The grid of a greyscale image `width` by `height`, row by row.
    pub fn from_image(width: usize, height: usize, bytes: &[u8]) -> (r: ByteMap)
        requires
            bytes@.len() == width * height,
            width <= isize::MAX && height <= isize::MAX && width * height <= isize::MAX,
        ensures
            r.width() == width,
            r.height() == height,
            forall|x: int, y: int|
                0 <= x < width && 0 <= y < height ==> #[trigger] r.cell(x, y) == bytes@[y * width + x],
    {
        let mut data: Vec<u8> = Vec::new();
        let mut i: usize = 0;
        while i < bytes.len()
            invariant
                0 <= i <= bytes@.len(),
                data@ == bytes@.take(i as int),
            decreases bytes@.len() - i,
        {
            data.push(bytes[i]);
            proof {
                assert(bytes@.take(i + 1) =~= bytes@.take(i as int).push(bytes@[i as int]));
            }
            i = i + 1;
        }
        proof {
            assert(bytes@.take(bytes@.len() as int) =~= bytes@);
        }
        ByteMap { bytes: grid_from_rows(width, height, data) }
    }

    /// The byte at (x, y).
    pub fn get(&self, x: usize, y: usize) -> (r: u8)
        requires
            x < self.width(),
            y < self.height(),
        ensures
            r == self.cell(x as int, y as int),
    {
        array_index(&self.bytes, x, y)
    }
}

/// The visibility a byte of a grid stands for.
pub open spec fn visibility_of(b: u8) -> Visibility {
    match Visibility::spec_from_u8(b) {
        Some(v) => v,
        None => Visibility::Hidden,
    }
}

/// A grid of visibilities over the map, indexed by (x, y).
pub struct VisibilityMap {
    levels: ByteArray,
}

impl VisibilityMap {
    /// A grid with no cells.
    pub fn empty() -> (r: VisibilityMap)
        ensures
            r.width() == 0,
            r.height() == 0,
    {
        VisibilityMap { levels: grid_from_rows(0, 0, Vec::new()) }
    }

    /// The number of columns.
    pub closed spec fn width(&self) -> nat {
        array_shape(self.levels).0
    }

    /// The number of rows.
    pub closed spec fn height(&self) -> nat {
        array_shape(self.levels).1
    }

    /// The visibility at (x, y).
    pub closed spec fn cell(&self, x: int, y: int) -> Visibility {
        visibility_of(array_cells(self.levels)[x][y])
    }

    /// The grid of an image `width` by `height` whose bytes number
    /// visibilities in the order of declaration, row by row.
    pub fn from_image(width: usize, height: usize, bytes: &[u8]) -> (r: VisibilityMap)
        requires
            bytes@.len() == width * height,
            width <= isize::MAX && height <= isize::MAX && width * height <= isize::MAX,
            forall|i: int| 0 <= i < bytes@.len() ==> bytes@[i] <= 3,
        ensures
            r.width() == width,
            r.height() == height,
            forall|x: int, y: int|
                0 <= x < width && 0 <= y < height ==> #[trigger] r.cell(x, y) == Visibility::spec_from_u8(
                    bytes@[y * width + x],
                ).unwrap(),
    {
        let mut data: Vec<u8> = Vec::new();
        let mut i: usize = 0;
        while i < bytes.len()
            invariant
                0 <= i <= bytes@.len(),
                data@ == bytes@.take(i as int),
            decreases bytes@.len() - i,
        {
            data.push(bytes[i]);
            proof {
                assert(bytes@.take(i + 1) =~= bytes@.take(i as int).push(bytes@[i as int]));
            }
            i = i + 1;
        }
        proof {
            assert(bytes@.take(bytes@.len() as int) =~= bytes@);
        }
        let r = VisibilityMap { levels: grid_from_rows(width, height, data) };
        proof {
            assert forall|x: int, y: int| 0 <= x < width && 0 <= y < height implies #[trigger] r.cell(x, y)
                == Visibility::spec_from_u8(bytes@[y * width + x]).unwrap() by {
                assert(0 <= y * width + x < width * height) by (nonlinear_arith)
                    requires
                        0 <= x < width,
                        0 <= y < height,
                ;
            }
        }
        r
    }

    /// The visibility at (x, y).
    pub fn get(&self, x: usize, y: usize) -> (r: Visibility)
        requires
            x < self.width(),
            y < self.height(),
        ensures
            r == self.cell(x as int, y as int),
    {
        let b = array_index(&self.levels, x, y);
        match Visibility::from_u8(b) {
            Some(v) => v,
            None => Visibility::Hidden,
        }
    }
}

} // verus!
