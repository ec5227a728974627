use vstd::prelude::*;

verus! {

/// The number of channels of one pixel: red, green and blue.
pub const CHANNELS: usize = 3;

/// Where the first channel of pixel `(x, y)` stands in a row-major buffer
/// of rows `width` pixels wide.
pub open spec fn pixel_start(width: nat, x: nat, y: nat) -> int {
    ((y * width + x) * 3) as int
}

/// The three channels of pixel `(x, y)`.
pub open spec fn pixel_of<T>(data: Seq<T>, width: nat, x: nat, y: nat) -> Seq<T> {
    data.subrange(pixel_start(width, x, y), pixel_start(width, x, y) + 3)
}

/// `data` with the channels of pixel `(x, y)` replaced by `v`.
pub open spec fn with_pixel<T>(data: Seq<T>, width: nat, x: nat, y: nat, v: Seq<T>) -> Seq<T> {
    let i = pixel_start(width, x, y);
    data.update(i, v[0]).update(i + 1, v[1]).update(i + 2, v[2])
}

/// A buffer of `width * height * 3` channels holds every pixel of the grid.
pub open spec fn buffer_fits<T>(data: Seq<T>, width: nat, height: nat) -> bool {
    data.len() == width * height * 3
}

/// For a pixel inside the grid, its three channels lie inside the buffer.
pub proof fn lemma_pixel_in_buffer(width: nat, height: nat, x: nat, y: nat)
    requires
        x < width,
        y < height,
    ensures
        0 <= pixel_start(width, x, y),
        pixel_start(width, x, y) + 3 <= width * height * 3,
{
    assert(y * width + x < width * height) by (nonlinear_arith)
        requires
            x < width,
            y < height,
    ;
}

/// Two distinct pixels of the grid have disjoint channels.
pub proof fn lemma_pixels_disjoint(width: nat, x1: nat, y1: nat, x2: nat, y2: nat)
    requires
        x1 < width,
        x2 < width,
        x1 != x2 || y1 != y2,
    ensures
        pixel_start(width, x1, y1) + 3 <= pixel_start(width, x2, y2) || pixel_start(
            width,
            x2,
            y2,
        ) + 3 <= pixel_start(width, x1, y1),
{
    assert(y1 * width + x1 != y2 * width + x2) by (nonlinear_arith)
        requires
            x1 < width,
            x2 < width,
            x1 != x2 || y1 != y2,
    ;
}

/// Writing a pixel and reading it back gives the value written, and leaves
/// every other pixel of the grid as it was.
pub proof fn lemma_pixel_round_trip<T>(
    data: Seq<T>,
    width: nat,
    height: nat,
    x: nat,
    y: nat,
    v: Seq<T>,
)
    requires
        buffer_fits(data, width, height),
        x < width,
        y < height,
        v.len() == 3,
    ensures
        buffer_fits(with_pixel(data, width, x, y, v), width, height),
        pixel_of(with_pixel(data, width, x, y, v), width, x, y) == v,
        forall|x2: nat, y2: nat|
            x2 < width && y2 < height && (x2 != x || y2 != y) ==> #[trigger] pixel_of(
                with_pixel(data, width, x, y, v),
                width,
                x2,
                y2,
            ) == pixel_of(data, width, x2, y2),
{
    lemma_pixel_in_buffer(width, height, x, y);
    let d2 = with_pixel(data, width, x, y, v);
    assert(pixel_of(d2, width, x, y) =~= v);
    assert forall|x2: nat, y2: nat|
        x2 < width && y2 < height && (x2 != x || y2 != y) implies #[trigger] pixel_of(
            d2,
            width,
            x2,
            y2,
        ) == pixel_of(data, width, x2, y2) by {
        lemma_pixel_in_buffer(width, height, x2, y2);
        lemma_pixels_disjoint(width, x, y, x2, y2);
        assert(pixel_of(d2, width, x2, y2) =~= pixel_of(data, width, x2, y2));
    }
}

/// A bounds-checked accessor over a row-major RGB pixel buffer.
pub struct RenderTextureView<T> {
    pixels: Vec<T>,
    width: u32,
    height: u32,
}

impl<T: Copy> RenderTextureView<T> {
    /// The channels of the buffer, row by row, three to a pixel.
    pub closed spec fn data(&self) -> Seq<T> {
        self.pixels@
    }

    pub closed spec fn spec_width(&self) -> nat {
        self.width as nat
    }

    pub closed spec fn spec_height(&self) -> nat {
        self.height as nat
    }

    pub open spec fn wf(&self) -> bool {
        buffer_fits(self.data(), self.spec_width(), self.spec_height())
    }

    /// The channels of pixel `(x, y)`.
    pub open spec fn pixel(&self, x: nat, y: nat) -> Seq<T> {
        pixel_of(self.data(), self.spec_width(), x, y)
    }

    /// A `width` by `height` buffer with every channel set to `fill`.
    pub fn new(width: u32, height: u32, fill: T) -> (r: RenderTextureView<T>)
        requires
            width as int * height as int * 3 <= usize::MAX,
        ensures
            r.wf(),
            r.spec_width() == width,
            r.spec_height() == height,
            r.data() == Seq::new(width as nat * height as nat * 3, |i: int| fill),
    {
        let len: usize = width as usize * height as usize * CHANNELS;
        let mut pixels: Vec<T> = Vec::with_capacity(len);
        let mut i: usize = 0;
        while i < len
            invariant
                i <= len,
                pixels@ == Seq::new(i as nat, |k: int| fill),
            decreases len - i,
        {
            pixels.push(fill);
            i = i + 1;
        }
        assert(pixels@ =~= Seq::new(width as nat * height as nat * 3, |k: int| fill));
        RenderTextureView { pixels, width, height }
    }

    fn start_of(&self, x: u32, y: u32) -> (r: usize)
        requires
            self.wf(),
            x < self.spec_width(),
            y < self.spec_height(),
        ensures
            r == pixel_start(self.spec_width(), x as nat, y as nat),
            r + 3 <= self.data().len() <= usize::MAX,
    {
        proof {
            lemma_pixel_in_buffer(self.spec_width(), self.spec_height(), x as nat, y as nat);
            assert(y as int * self.width as int <= y as int * self.width as int + x as int);
        }
        let len = self.pixels.len();
        (y as usize * self.width as usize + x as usize) * CHANNELS
    }

    /// Get the pixel at `[x, y]`.
    pub fn get_pixel(&self, x: u32, y: u32) -> (r: [T; 3])
        requires
            self.wf(),
            x < self.spec_width(),
            y < self.spec_height(),
        ensures
            r@ == self.pixel(x as nat, y as nat),
    {
        proof {
            lemma_pixel_in_buffer(self.spec_width(), self.spec_height(), x as nat, y as nat);
        }
        let start: usize = self.start_of(x, y);
        let r = [self.pixels[start], self.pixels[start + 1], self.pixels[start + 2]];
        assert(r@ =~= self.pixel(x as nat, y as nat));
        r
    }

    /// Set the pixel at `[x, y]` to `value`.
    pub fn set_pixel(&mut self, x: u32, y: u32, value: &[T; 3])
        requires
            old(self).wf(),
            x < old(self).spec_width(),
            y < old(self).spec_height(),
        ensures
            final(self).wf(),
            final(self).spec_width() == old(self).spec_width(),
            final(self).spec_height() == old(self).spec_height(),
            final(self).data() == with_pixel(
                old(self).data(),
                old(self).spec_width(),
                x as nat,
                y as nat,
                value@,
            ),
            final(self).pixel(x as nat, y as nat) == value@,
    {
        proof {
            lemma_pixel_in_buffer(self.spec_width(), self.spec_height(), x as nat, y as nat);
            lemma_pixel_round_trip(
                self.data(),
                self.spec_width(),
                self.spec_height(),
                x as nat,
                y as nat,
                value@,
            );
        }
        let start: usize = self.start_of(x, y);
        self.pixels[start] = value[0];
        self.pixels[start + 1] = value[1];
        self.pixels[start + 2] = value[2];
    }

    /// Get the width in pixels.
    pub fn width(&self) -> (r: u32)
        ensures
            r == self.spec_width(),
    {
        self.width
    }

    /// Get the height in pixels.
    pub fn height(&self) -> (r: u32)
        ensures
            r == self.spec_height(),
    {
        self.height
    }

    /// The whole buffer, row by row, three channels to a pixel.
    pub fn pixels(&self) -> (r: &[T])
        ensures
            r@ == self.data(),
    {
        self.pixels.as_slice()
    }
}

} // verus!
