use vstd::prelude::*;

verus! {

/// Why an image operation was refused.
#[derive(Clone, Copy, Debug, PartialEq, Eq, Structural)]
pub enum ImageError {
    /// `width * height` does not fit in `usize`.
    SizeOverflow,
    /// The row index is not below the image's height.
    RowOutOfBounds,
}

/// A row-major buffer of `width * height` pixels: row `r` is the run of
/// `width` pixels starting at `r * width`.
pub struct Image<P> {
    width: usize,
    height: usize,
    pixels: Vec<P>,
}

impl<P> Image<P> {
    /// Pixels per row.
    pub closed spec fn spec_width(&self) -> nat {
        self.width as nat
    }

    /// Number of rows.
    pub closed spec fn spec_height(&self) -> nat {
        self.height as nat
    }

    /// All pixels, row after row.
    pub closed spec fn spec_pixels(&self) -> Seq<P> {
        self.pixels@
    }

    /// The cell count fits in `usize`, and the buffer holds exactly one pixel per cell.
    pub open spec fn wf(&self) -> bool {
        &&& self.spec_width() * self.spec_height() <= usize::MAX
        &&& self.spec_pixels().len() == self.spec_width() * self.spec_height()
    }

    /// Row `r` exists and its span lies inside the buffer.
    pub open spec fn has_row(&self, r: int) -> bool {
        &&& 0 <= r < self.spec_height()
        &&& r * self.spec_width() + self.spec_width() <= self.spec_pixels().len()
    }

    /// The pixels of row `r`.
    pub open spec fn spec_row(&self, r: int) -> Seq<P> {
        self.spec_pixels().subrange(r * self.spec_width(), r * self.spec_width() + self.spec_width())
    }
}

proof fn lemma_row_in_buffer(r: nat, width: nat, height: nat)
    requires
        r < height,
    ensures
        r * width + width <= width * height,
{
    assert(r * width + width <= height * width) by (nonlinear_arith)
        requires
            r < height,
    ;
    assert(height * width == width * height) by (nonlinear_arith);
}

impl<P: Copy> Image<P> {
    /// An image of `width` by `height` pixels, each of them `value`.
    pub fn filled(width: usize, height: usize, value: P) -> (res: Result<Image<P>, ImageError>)
        ensures
            res is Ok <==> width * height <= usize::MAX,
            res is Err ==> res == Err::<Image<P>, ImageError>(ImageError::SizeOverflow),
            res matches Ok(img) ==> {
                &&& img.wf()
                &&& img.spec_width() == width
                &&& img.spec_height() == height
                &&& forall|i: int| 0 <= i < img.spec_pixels().len() ==> #[trigger] img.spec_pixels()[i] == value
            },
    {
        let n = match width.checked_mul(height) {
            Some(n) => n,
            None => return Err(ImageError::SizeOverflow),
        };
        let mut pixels: Vec<P> = Vec::with_capacity(n);
        let mut i: usize = 0;
        while i < n
            invariant
                i <= n,
                pixels@.len() == i,
                forall|k: int| 0 <= k < i ==> #[trigger] pixels@[k] == value,
            decreases n - i,
        {
            pixels.push(value);
            i += 1;
        }
        Ok(Image { width, height, pixels })
    }

    /// The pixels of row `r`. Fails with `RowOutOfBounds` when `r >= height`, or
    /// when the row's span runs past the end of the buffer (never, for a
    /// well-formed image).
    pub fn row(&self, r: usize) -> (res: Result<&[P], ImageError>)
        ensures
            res is Ok <==> self.has_row(r as int),
            self.wf() ==> (res is Ok <==> r < self.spec_height()),
            res is Err ==> res == Err::<&[P], ImageError>(ImageError::RowOutOfBounds),
            res matches Ok(s) ==> s@ == self.spec_row(r as int),
    {
        let start = match self.row_start(r) {
            Some(start) => start,
            None => return Err(ImageError::RowOutOfBounds),
        };
        let (_, tail) = self.pixels.as_slice().split_at(start);
        let (mid, _) = tail.split_at(self.width);
        Ok(mid)
    }

    /// The pixels of row `r`, to write through. Fails as `row` does, and then
    /// leaves the image unchanged. Writing through the slice changes that row
    /// and nothing else.
    pub fn row_mut(&mut self, r: usize) -> (res: Result<&mut [P], ImageError>)
        ensures
            res is Ok <==> old(self).has_row(r as int),
            old(self).wf() ==> (res is Ok <==> r < old(self).spec_height()),
            res is Err ==> *final(self) == *old(self),
            res is Err ==> res == Err::<&mut [P], ImageError>(ImageError::RowOutOfBounds),
            final(self).spec_width() == old(self).spec_width(),
            final(self).spec_height() == old(self).spec_height(),
            res matches Ok(s) ==> {
                &&& s@ == old(self).spec_row(r as int)
                &&& final(self).spec_pixels() == old(self).spec_pixels().subrange(0, r * old(self).spec_width())
                    + final(s)@ + old(self).spec_pixels().subrange(
                    r * old(self).spec_width() + old(self).spec_width(),
                    old(self).spec_pixels().len() as int,
                )
            },
    {
        let start = match self.row_start(r) {
            Some(start) => start,
            None => return Err(ImageError::RowOutOfBounds),
        };
        let width = self.width;
        let (_, tail) = self.pixels.as_mut_slice().split_at_mut(start);
        let (mid, _) = tail.split_at_mut(width);
        Ok(mid)
    }
}

impl<P> Image<P> {
    /// Where row `r` starts in the buffer, when the row lies inside it.
    fn row_start(&self, r: usize) -> (res: Option<usize>)
        ensures
            res is Some <==> self.has_row(r as int),
            self.wf() ==> (res is Some <==> r < self.spec_height()),
            res matches Some(start) ==> start == r * self.spec_width(),
            res matches Some(start) ==> start + self.spec_width() <= self.spec_pixels().len(),
    {
        if r >= self.height {
            return None;
        }
        proof {
            lemma_row_in_buffer(r as nat, self.width as nat, self.height as nat);
        }
        let len = self.pixels.len();
        let start = match r.checked_mul(self.width) {
            Some(start) => start,
            None => return None,
        };
        let end = match start.checked_add(self.width) {
            Some(end) => end,
            None => return None,
        };
        if end > len {
            return None;
        }
        Some(start)
    }
}

impl<P: Default + Copy> Image<P> {
    /// An image of `width` by `height` pixels, each of them the value that
    /// `P::default()` gives. Fails with `SizeOverflow` when `width * height`
    /// does not fit in `usize`.
    pub fn new(width: usize, height: usize) -> (res: Result<Image<P>, ImageError>)
        ensures
            res is Ok <==> width * height <= usize::MAX,
            res is Err ==> res == Err::<Image<P>, ImageError>(ImageError::SizeOverflow),
            res matches Ok(img) ==> {
                &&& img.wf()
                &&& img.spec_width() == width
                &&& img.spec_height() == height
                &&& exists|d: P| {
                    &&& call_ensures(P::default, (), d)
                    &&& forall|i: int| 0 <= i < img.spec_pixels().len() ==> #[trigger] img.spec_pixels()[i] == d
                }
            },
    {
        let d = P::default();
        Image::filled(width, height, d)
    }
}

/// In a well-formed image, and so in any image that `new` or `filled` made,
/// each row below the height is there and holds exactly `width` pixels, and
/// no row at or past the height is there.
pub proof fn lemma_rows<P>(img: Image<P>, r: int)
    requires
        img.wf(),
    ensures
        0 <= r < img.spec_height() ==> img.has_row(r) && img.spec_row(r).len() == img.spec_width(),
        r >= img.spec_height() ==> !img.has_row(r),
{
    if 0 <= r < img.spec_height() {
        lemma_row_in_buffer(r as nat, img.spec_width(), img.spec_height());
    }
}

} // verus!
