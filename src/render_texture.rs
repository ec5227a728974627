use vstd::prelude::*;

use crate::render_texture_type::RenderTextureType;
use crate::render_texture_view::{
    lemma_pixel_in_buffer, lemma_pixel_round_trip, pixel_of, with_pixel, RenderTextureView,
};
use crate::resizing::{get_sized_dims, sized_dims, RenderTextureResizing};
use crate::staging::{flushed_in_frame, lemma_staging_rotation, slot_of_frame, StagingPool};

verus! {

/// The number of staging slots of a render texture that stages its uploads.
pub const STAGING_SLOTS: usize = 2;

/// A buffer of `width * height` pixels of three elements of `T` fits in
/// memory, counted in bytes.
pub open spec fn fits<T: RenderTextureType>(dims: (u32, u32)) -> bool {
    dims.0 as int * dims.1 as int * 3 * T::spec_byte_width() <= usize::MAX
}

/// Where the pixels of a frame come from when they reach the texture.
#[derive(Clone, Copy, Debug, PartialEq, Eq, Structural)]
pub enum Upload {
    /// Straight from the pixel buffer.
    Direct,
    /// From the staging slot with this index.
    Staged(usize),
    /// Nothing reaches the texture this frame.
    Skip,
}

/// What one frame asks of the device: copy the pixel buffer into a staging
/// slot (`stage`), then update the texture (`upload`), in that order.
#[derive(Clone, Copy, Debug, PartialEq, Eq, Structural)]
pub struct FrameWrite {
    pub stage: Option<usize>,
    pub upload: Upload,
}

/// A row-major RGB pixel buffer with elements of type `T`, together with the
/// state of its staged upload to a texture of the same size.
pub struct RenderTexture<T> {
    src_width: u32,
    src_height: u32,
    view: RenderTextureView<T>,
    staging: Option<StagingPool>,
    resizing: RenderTextureResizing,
    ty: u32,
    staged: Ghost<Seq<Option<Seq<T>>>>,
    texture: Ghost<Option<Seq<T>>>,
}

impl<T: RenderTextureType> RenderTexture<T> {
    /// The pixel view of the buffer.
    pub closed spec fn view(&self) -> RenderTextureView<T> {
        self.view
    }

    /// The last source (window) dimensions the texture was given.
    pub closed spec fn src_dims(&self) -> (u32, u32) {
        (self.src_width, self.src_height)
    }

    pub closed spec fn resizing_mode(&self) -> RenderTextureResizing {
        self.resizing
    }

    /// The staging rotation, or `None` where frames upload straight from the
    /// buffer.
    pub closed spec fn pool(&self) -> Option<StagingPool> {
        self.staging
    }

    /// What each staging slot holds, `None` for a slot not written since
    /// it was allocated.
    pub closed spec fn staged(&self) -> Seq<Option<Seq<T>>> {
        self.staged@
    }

    /// What the texture holds, or `None` while it holds nothing defined.
    pub closed spec fn texture(&self) -> Option<Seq<T>> {
        self.texture@
    }

    pub open spec fn data(&self) -> Seq<T> {
        self.view().data()
    }

    pub open spec fn dims(&self) -> (u32, u32) {
        (self.view().spec_width() as u32, self.view().spec_height() as u32)
    }

    pub closed spec fn wf(&self) -> bool {
        &&& self.view.wf()
        &&& self.view.spec_width() <= u32::MAX
        &&& self.view.spec_height() <= u32::MAX
        &&& fits::<T>((self.view.spec_width() as u32, self.view.spec_height() as u32))
        &&& self.resizing.wf()
        &&& self.ty == T::spec_gl_type()
        &&& match self.staging {
            Some(p) => p.wf() && p.size() == STAGING_SLOTS && self.staged@.len() == STAGING_SLOTS,
            None => self.staged@.len() == 0,
        }
    }

    /// With staging, the pool has `STAGING_SLOTS` slots and the model one
    /// entry for each; without, there is none.
    pub open spec fn staging_shape(&self) -> bool {
        match self.pool() {
            Some(p) => p.size() == STAGING_SLOTS && self.staged().len() == STAGING_SLOTS,
            None => self.staged().len() == 0,
        }
    }

    /// A buffer of zeros of dimensions `dims`, with a fresh staging rotation
    /// and nothing defined in the texture.
    pub open spec fn is_fresh(&self, dims: (u32, u32)) -> bool {
        &&& self.dims() == dims
        &&& self.data() == Seq::new(dims.0 as nat * dims.1 as nat * 3, |i: int| T::spec_zero())
        &&& self.texture() is None
        &&& match self.pool() {
            Some(p) => p.frame() == 0,
            None => true,
        }
    }

    proof fn lemma_fits(dims: (u32, u32), bw: nat)
        requires
            fits::<T>(dims),
            bw == T::spec_byte_width(),
            bw >= 1,
        ensures
            dims.0 as int * dims.1 as int * 3 <= usize::MAX,
    {
        assert(dims.0 as int * dims.1 as int * 3 <= dims.0 as int * dims.1 as int * 3 * bw)
            by (nonlinear_arith)
            requires
                bw >= 1,
        ;
    }

    /// Whether a buffer of `width * height` pixels fits in memory.
    pub fn buffer_fits(width: u32, height: u32) -> (r: bool)
        ensures
            r == fits::<T>((width, height)),
    {
        let bw = T::byte_width();
        proof {
            assert(width as int * height as int <= 0xffff_ffff * 0xffff_ffff) by (nonlinear_arith);
        }
        let area: u128 = width as u128 * height as u128;
        proof {
            assert(area * 3 * bw <= 0xffff_ffff * 0xffff_ffff * 12) by (nonlinear_arith)
                requires
                    bw <= 4,
                    area <= 0xffff_ffff * 0xffff_ffff,
            ;
        }
        let bytes: u128 = area * 3 * bw as u128;
        bytes <= usize::MAX as u128
    }

    fn allocate(
        src: (u32, u32),
        dims: (u32, u32),
        use_pbo: bool,
        resizing: RenderTextureResizing,
    ) -> (r: RenderTexture<T>)
        requires
            fits::<T>(dims),
            resizing.wf(),
        ensures
            r.wf(),
            r.is_fresh(dims),
            r.src_dims() == src,
            r.resizing_mode() == resizing,
            r.pool() is Some <==> use_pbo,
            r.staging_shape(),
    {
        let bw = T::byte_width();
        proof {
            Self::lemma_fits(dims, bw as nat);
        }
        let view = RenderTextureView::new(dims.0, dims.1, T::zero());
        let staging = if use_pbo {
            Some(StagingPool::new(STAGING_SLOTS))
        } else {
            None
        };
        let ghost len = if use_pbo {
            STAGING_SLOTS as nat
        } else {
            0
        };
        RenderTexture {
            src_width: src.0,
            src_height: src.1,
            view,
            staging,
            resizing,
            ty: T::get_type(),
            staged: Ghost(Seq::new(len, |i: int| None)),
            texture: Ghost(None),
        }
    }

    /// A render texture for a source of `width` by `height` pixels: its
    /// buffer takes the size that `resizing` gives and starts at zero. With
    /// `use_pbo`, frames reach the texture through two staging slots.
    pub fn new(width: u32, height: u32, use_pbo: bool, resizing: RenderTextureResizing) -> (r:
        RenderTexture<T>)
        requires
            resizing.wf(),
            fits::<T>(sized_dims(width, height, resizing, (width, height))),
        ensures
            r.wf(),
            r.is_fresh(sized_dims(width, height, resizing, (width, height))),
            r.src_dims() == (width, height),
            r.resizing_mode() == resizing,
            r.pool() is Some <==> use_pbo,
            r.staging_shape(),
    {
        let dims = get_sized_dims(width, height, resizing, (width, height));
        Self::allocate((width, height), dims, use_pbo, resizing)
    }

    fn internal_resize(&mut self, width: u32, height: u32)
        requires
            old(self).wf(),
            fits::<T>(
                sized_dims(width, height, old(self).resizing_mode(), old(self).dims()),
            ),
        ensures
            final(self).wf(),
            final(self).is_fresh(
                sized_dims(width, height, old(self).resizing_mode(), old(self).dims()),
            ),
            final(self).src_dims() == (width, height),
            final(self).resizing_mode() == old(self).resizing_mode(),
            final(self).pool() is Some <==> old(self).pool() is Some,
            final(self).staging_shape(),
    {
        let current = (self.view.width(), self.view.height());
        let dims = get_sized_dims(width, height, self.resizing, current);
        let use_pbo = self.staging.is_some();
        *self = Self::allocate((width, height), dims, use_pbo, self.resizing);
    }

    /// Resize the render texture to follow a source of `width` by `height`
    /// pixels. Under `NonResizable` only the source size is recorded and
    /// `false` comes back. Otherwise the buffer is reallocated at the size the
    /// resizing mode gives, every pixel back at zero, the staging rotation
    /// starts over, and `true` comes back: the texture and the staging slots
    /// of the device are then to be allocated anew at the new size.
    pub fn resize(&mut self, width: u32, height: u32) -> (r: bool)
        requires
            old(self).wf(),
            !(old(self).resizing_mode() is NonResizable) ==> fits::<T>(
                sized_dims(width, height, old(self).resizing_mode(), old(self).dims()),
            ),
        ensures
            final(self).wf(),
            final(self).src_dims() == (width, height),
            final(self).resizing_mode() == old(self).resizing_mode(),
            final(self).pool() is Some <==> old(self).pool() is Some,
            final(self).staging_shape(),
            r == !(old(self).resizing_mode() is NonResizable),
            r ==> final(self).is_fresh(
                sized_dims(width, height, old(self).resizing_mode(), old(self).dims()),
            ),
            !r ==> final(self).view() == old(self).view() && final(self).pool() == old(
                self,
            ).pool() && final(self).staged() == old(self).staged() && final(self).texture()
                == old(self).texture(),
    {
        self.src_width = width;
        self.src_height = height;
        if let RenderTextureResizing::NonResizable = self.resizing {
            return false;
        }
        self.internal_resize(width, height);
        true
    }

    /// Set the resizing mode, and reallocate the buffer at the size it gives
    /// for the last source size, every pixel back at zero.
    pub fn set_resizing_mode(&mut self, resizing: RenderTextureResizing)
        requires
            old(self).wf(),
            resizing.wf(),
            fits::<T>(
                sized_dims(old(self).src_dims().0, old(self).src_dims().1, resizing, old(self).dims()),
            ),
        ensures
            final(self).wf(),
            final(self).is_fresh(
                sized_dims(old(self).src_dims().0, old(self).src_dims().1, resizing, old(self).dims()),
            ),
            final(self).src_dims() == old(self).src_dims(),
            final(self).resizing_mode() == resizing,
            final(self).pool() is Some <==> old(self).pool() is Some,
            final(self).staging_shape(),
    {
        self.resizing = resizing;
        self.internal_resize(self.src_width, self.src_height);
    }

    /// Get the current resizing mode.
    pub fn get_resizing_mode(&self) -> (r: RenderTextureResizing)
        ensures
            r == self.resizing_mode(),
    {
        self.resizing
    }

    /// Get the width of the buffer in pixels.
    pub fn get_width(&self) -> (r: u32)
        requires
            self.wf(),
        ensures
            r == self.dims().0,
    {
        self.view.width()
    }

    /// Get the height of the buffer in pixels.
    pub fn get_height(&self) -> (r: u32)
        requires
            self.wf(),
        ensures
            r == self.dims().1,
    {
        self.view.height()
    }

    /// Get the pixel at `[x, y]`.
    pub fn get_pixel(&self, x: u32, y: u32) -> (r: [T; 3])
        requires
            self.wf(),
            x < self.dims().0,
            y < self.dims().1,
        ensures
            r@ == pixel_of(self.data(), self.dims().0 as nat, x as nat, y as nat),
    {
        self.view.get_pixel(x, y)
    }

    /// Set the pixel at `[x, y]` to `value`.
    pub fn set_pixel(&mut self, x: u32, y: u32, value: &[T; 3])
        requires
            old(self).wf(),
            x < old(self).dims().0,
            y < old(self).dims().1,
        ensures
            final(self).wf(),
            final(self).dims() == old(self).dims(),
            final(self).data() == with_pixel(
                old(self).data(),
                old(self).dims().0 as nat,
                x as nat,
                y as nat,
                value@,
            ),
            final(self).src_dims() == old(self).src_dims(),
            final(self).resizing_mode() == old(self).resizing_mode(),
            final(self).pool() == old(self).pool(),
            final(self).staged() == old(self).staged(),
            final(self).texture() == old(self).texture(),
            final(self).staging_shape(),
    {
        self.view.set_pixel(x, y, value);
    }

    /// The view over the current pixel buffer. Every call until the next
    /// reallocation returns a view of the same buffer.
    pub fn get_view(&self) -> (r: &RenderTextureView<T>)
        requires
            self.wf(),
        ensures
            *r == self.view(),
            r.wf(),
            r.spec_width() == self.dims().0,
            r.spec_height() == self.dims().1,
    {
        &self.view
    }

    /// The pixel buffer, row by row, three elements to a pixel.
    pub fn pixels(&self) -> (r: &[T])
        ensures
            r@ == self.data(),
    {
        self.view.pixels()
    }

    /// The transfer type tag of the elements.
    pub fn get_type(&self) -> (r: u32)
        requires
            self.wf(),
        ensures
            r == T::spec_gl_type(),
    {
        self.ty
    }

    /// The size of the pixel buffer in bytes, which each staging slot holds.
    pub fn byte_len(&self) -> (r: usize)
        requires
            self.wf(),
        ensures
            r == self.data().len() * T::spec_byte_width(),
    {
        let bw = T::byte_width();
        let len = self.view.pixels().len();
        proof {
            assert(len * bw == self.dims().0 as int * self.dims().1 as int * 3 * bw) by (nonlinear_arith)
                requires
                    len == self.dims().0 as int * self.dims().1 as int * 3,
            ;
        }
        len * bw
    }

    /// The number of staging slots: none where frames upload straight from
    /// the buffer.
    pub fn staging_slots(&self) -> (r: usize)
        requires
            self.wf(),
        ensures
            r == match self.pool() {
                Some(p) => p.size(),
                None => 0,
            },
    {
        match &self.staging {
            Some(p) => p.slot_count(),
            None => 0,
        }
    }

    /// `next` and `r` are what committing one frame makes of `self`: the
    /// buffer goes into the writable staging slot and the slot that the
    /// rotation flushes reaches the texture; without staging the buffer
    /// reaches the texture at once.
    pub open spec fn frame_written(&self, next: Self, r: FrameWrite) -> bool {
        &&& next.view() == self.view()
        &&& next.src_dims() == self.src_dims()
        &&& next.resizing_mode() == self.resizing_mode()
        &&& match self.pool() {
            None => {
                &&& r == FrameWrite { stage: None, upload: Upload::Direct }
                &&& next.pool() is None
                &&& next.staged() == self.staged()
                &&& next.texture() == Some(self.data())
            },
            Some(p) => {
                let k = p.frame();
                let w = slot_of_frame(k, p.size());
                &&& r.stage == Some(w as usize)
                &&& next.staged() == self.staged().update(w as int, Some(self.data()))
                &&& next.pool() matches Some(q) && q.frame() == k + 1 && q.size() == p.size()
                &&& match flushed_in_frame(k, p.size()) {
                    Some(f) => r.upload == Upload::Staged(f as usize) && next.texture()
                        == next.staged()[f as int],
                    None => r.upload == Upload::Skip && next.texture() == self.texture(),
                }
            },
        }
    }

    /// Commit the pixels written this frame. With staging, the buffer is
    /// copied into the writable slot (`stage`) and the slot written the frame
    /// before is uploaded (`upload`), so the texture shows each frame one
    /// frame late and never waits for a copy. Without staging, the buffer is
    /// uploaded at once.
    pub fn commit_frame_write(&mut self) -> (r: FrameWrite)
        requires
            old(self).wf(),
        ensures
            final(self).wf(),
            final(self).staging_shape(),
            old(self).frame_written(*final(self), r),
    {
        match &mut self.staging {
            None => {
                self.texture = Ghost(Some(self.view.data()));
                FrameWrite { stage: None, upload: Upload::Direct }
            },
            Some(pool) => {
                let w = pool.acquire_writable();
                let flushed = pool.flush();
                self.staged = Ghost(self.staged@.update(w as int, Some(self.view.data())));
                let upload = match flushed {
                    Some(f) => {
                        self.texture = Ghost(self.staged@[f as int]);
                        Upload::Staged(f)
                    },
                    None => Upload::Skip,
                };
                FrameWrite { stage: Some(w), upload }
            },
        }
    }
}


/// After an allocation (construction, a resize, a change of resizing mode)
/// every pixel of the buffer reads back as three zeros.
pub proof fn lemma_fresh_pixels_zero<T: RenderTextureType>(
    rt: RenderTexture<T>,
    dims: (u32, u32),
    x: u32,
    y: u32,
)
    requires
        rt.is_fresh(dims),
        x < dims.0,
        y < dims.1,
    ensures
        pixel_of(rt.data(), dims.0 as nat, x as nat, y as nat) == seq![
            T::spec_zero(),
            T::spec_zero(),
            T::spec_zero(),
        ],
{
    lemma_pixel_in_buffer(dims.0 as nat, dims.1 as nat, x as nat, y as nat);
    assert(pixel_of(rt.data(), dims.0 as nat, x as nat, y as nat) =~= seq![
        T::spec_zero(),
        T::spec_zero(),
        T::spec_zero(),
    ]);
}

/// Two views fetched from the same render texture, with no reallocation
/// between them, are views of the same buffer.
pub proof fn lemma_view_fetch_stable<T: RenderTextureType>(
    rt: RenderTexture<T>,
    v1: RenderTextureView<T>,
    v2: RenderTextureView<T>,
)
    requires
        v1 == rt.view(),
        v2 == rt.view(),
    ensures
        v1.data() == v2.data(),
        v1.spec_width() == v2.spec_width(),
        v1.spec_height() == v2.spec_height(),
{
}

/// With staging, the slot that a frame writes is the slot that the next
/// frame uploads, and the texture then holds the buffer as it was committed
/// in the first frame, whatever pixels were set in between.
pub proof fn lemma_texture_lags_one_frame<T: RenderTextureType>(
    a: RenderTexture<T>,
    b: RenderTexture<T>,
    r1: FrameWrite,
    b2: RenderTexture<T>,
    c: RenderTexture<T>,
    r2: FrameWrite,
)
    requires
        a.wf(),
        a.pool() is Some,
        a.frame_written(b, r1),
        b2.pool() == b.pool(),
        b2.staged() == b.staged(),
        b2.frame_written(c, r2),
    ensures
        r1.stage matches Some(s) && r2.upload == Upload::Staged(s),
        r1.stage matches Some(s) && b.staged()[s as int] == Some(a.data()),
        r1.stage matches Some(s) && r2.stage == Some(((s + 1) % (STAGING_SLOTS as int)) as usize),
        c.texture() == Some(a.data()),
{
    let p = a.pool()->Some_0;
    let k = p.frame();
    lemma_staging_rotation(STAGING_SLOTS as nat, k);
    lemma_staging_rotation(STAGING_SLOTS as nat, k + 1);
    assert((k + 1) % 2 == (k % 2 + 1) % 2) by (nonlinear_arith);
}

/// What a well-formed render texture shows of itself: the shape of its
/// staging, a buffer that fits in memory, and a view of its dimensions.
pub proof fn lemma_wf_facts<T: RenderTextureType>(rt: RenderTexture<T>)
    requires
        rt.wf(),
    ensures
        rt.staging_shape(),
        fits::<T>(rt.dims()),
        rt.view().wf(),
        rt.data().len() == rt.dims().0 as nat * rt.dims().1 as nat * 3,
        rt.pool() matches Some(p) ==> slot_of_frame(p.frame(), p.size()) < STAGING_SLOTS,
{
    if let Some(p) = rt.pool() {
        lemma_staging_rotation(STAGING_SLOTS as nat, p.frame());
    }
}

/// After a resize that reallocates, a pixel written inside the new
/// dimensions reads back as written, addressed by the new width, and every
/// other pixel still reads as zeros.
pub proof fn lemma_round_trip_after_resize<T: RenderTextureType>(
    b: RenderTexture<T>,
    dims: (u32, u32),
    x: u32,
    y: u32,
    v: Seq<T>,
    x2: u32,
    y2: u32,
)
    requires
        b.is_fresh(dims),
        x < dims.0,
        y < dims.1,
        x2 < dims.0,
        y2 < dims.1,
        x2 != x || y2 != y,
        v.len() == 3,
    ensures
        pixel_of(with_pixel(b.data(), dims.0 as nat, x as nat, y as nat, v), dims.0 as nat, x as nat, y as nat) == v,
        pixel_of(with_pixel(b.data(), dims.0 as nat, x as nat, y as nat, v), dims.0 as nat, x2 as nat, y2 as nat)
            == seq![T::spec_zero(), T::spec_zero(), T::spec_zero()],
{
    lemma_pixel_round_trip(b.data(), dims.0 as nat, dims.1 as nat, x as nat, y as nat, v);
    lemma_fresh_pixels_zero(b, dims, x2, y2);
}

} // verus!
