use vstd::prelude::*;

verus! {

/// An 8-bit RGB triple.
#[derive(Clone, Copy, Debug, PartialEq, Eq, Structural)]
pub struct Rgba {
    pub r: u8,
    pub g: u8,
    pub b: u8,
}

impl Rgba {
    pub fn new(r: u8, g: u8, b: u8) -> (c: Rgba)
        ensures
            c == (Rgba { r, g, b }),
    {
        Rgba { r, g, b }
    }

    /// Black.
    pub fn zero() -> (c: Rgba)
        ensures
            c == (Rgba { r: 0, g: 0, b: 0 }),
    {
        Rgba { r: 0, g: 0, b: 0 }
    }
}

/// The mathematical content of a canvas: its dimensions and its pixels in
/// row-major order (rows top to bottom).
pub struct CanvasView {
    pub width: nat,
    pub height: nat,
    pub pixels: Seq<Rgba>,
}

impl CanvasView {
    /// One pixel per cell of the grid.
    pub open spec fn wf(self) -> bool {
        self.pixels.len() == self.width * self.height
    }

    /// Position of the pixel at `(row, column)` in `pixels`.
    pub open spec fn offset(self, row: int, column: int) -> int {
        row * self.width + column
    }

    pub open spec fn in_bounds(self, row: int, column: int) -> bool {
        0 <= row < self.height && 0 <= column < self.width
    }

    pub open spec fn pixel(self, row: int, column: int) -> Rgba {
        self.pixels[self.offset(row, column)]
    }
}

/// Every cell of a `width` by `height` grid lies inside a sequence of
/// `width * height` pixels.
pub proof fn lemma_offset_in_range(width: nat, height: nat, row: int, column: int)
    requires
        0 <= row < height,
        0 <= column < width,
    ensures
        0 <= row * width + column < width * height,
{
    assert(row * width + column < width * height) by (nonlinear_arith)
        requires
            0 <= row < height,
            0 <= column < width,
    ;
    assert(0 <= row * width) by (nonlinear_arith)
        requires
            0 <= row,
    ;
}

/// A `width` by `height` grid of 8-bit RGB pixels stored row-major.
pub struct Canvas {
    width: usize,
    height: usize,
    data: Vec<Rgba>,
}

impl View for Canvas {
    type V = CanvasView;

    closed spec fn view(&self) -> CanvasView {
        CanvasView { width: self.width as nat, height: self.height as nat, pixels: self.data@ }
    }
}

impl Canvas {
    /// A canvas of the given size with every pixel black.
    pub fn new(width: usize, height: usize) -> (c: Canvas)
        requires
            width * height <= usize::MAX,
        ensures
            c@.wf(),
            c@.width == width,
            c@.height == height,
            forall|i: int| 0 <= i < c@.pixels.len() ==> c@.pixels[i] == Rgba::zero_spec(),
    {
        let n: usize = width * height;
        let mut data: Vec<Rgba> = Vec::with_capacity(n);
        let mut i: usize = 0;
        while i < n
            invariant
                i <= n,
                data@.len() == i,
                forall|j: int| 0 <= j < i ==> data@[j] == Rgba::zero_spec(),
            decreases n - i,
        {
            data.push(Rgba::zero());
            i = i + 1;
        }
        Canvas { width, height, data }
    }

    pub fn width(&self) -> (w: usize)
        ensures
            w == self@.width,
    {
        self.width
    }

    pub fn height(&self) -> (h: usize)
        ensures
            h == self@.height,
    {
        self.height
    }

    /// The pixels in row-major order.
    pub fn data(&self) -> (d: &Vec<Rgba>)
        ensures
            d@ == self@.pixels,
    {
        &self.data
    }

    /// Position in `data` of the pixel at `(row, column)`.
    fn offset(&self, row: usize, column: usize) -> (i: usize)
        requires
            self@.wf(),
            self@.in_bounds(row as int, column as int),
        ensures
            i == self@.offset(row as int, column as int),
            0 <= i < self@.pixels.len(),
    {
        let total = self.data.len();
        proof {
            lemma_offset_in_range(self@.width, self@.height, row as int, column as int);
            assert(0 <= row * self.width <= row * self.width + column < total);
        }
        row * self.width + column
    }

    /// The pixel at `(row, column)`.
    pub fn get(&self, row: usize, column: usize) -> (p: Rgba)
        requires
            self@.wf(),
            self@.in_bounds(row as int, column as int),
        ensures
            p == self@.pixel(row as int, column as int),
    {
        let i = self.offset(row, column);
        self.data[i]
    }

    /// Overwrites the pixel at `(row, column)`, leaving every other pixel as it was.
    pub fn set(&mut self, row: usize, column: usize, value: Rgba)
        requires
            old(self)@.wf(),
            old(self)@.in_bounds(row as int, column as int),
        ensures
            final(self)@.wf(),
            final(self)@.width == old(self)@.width,
            final(self)@.height == old(self)@.height,
            final(self)@.pixels == old(self)@.pixels.update(
                old(self)@.offset(row as int, column as int),
                value,
            ),
    {
        let i = self.offset(row, column);
        self.data.set(i, value);
    }

    /// Sets every pixel to black, keeping the size.
    pub fn clear(&mut self)
        requires
            old(self)@.wf(),
        ensures
            final(self)@.wf(),
            final(self)@.width == old(self)@.width,
            final(self)@.height == old(self)@.height,
            forall|i: int|
                0 <= i < final(self)@.pixels.len() ==> final(self)@.pixels[i] == Rgba::zero_spec(),
    {
        let n = self.data.len();
        let mut i: usize = 0;
        while i < n
            invariant
                i <= n,
                n == self.data@.len(),
                self.width == old(self).width,
                self.height == old(self).height,
                self.data@.len() == old(self).data@.len(),
                forall|j: int| 0 <= j < i ==> self.data@[j] == Rgba::zero_spec(),
            decreases n - i,
        {
            self.data.set(i, Rgba::zero());
            i = i + 1;
        }
    }
}

impl Rgba {
    pub open spec fn zero_spec() -> Rgba {
        Rgba { r: 0, g: 0, b: 0 }
    }
}

} // verus!
