use vstd::prelude::*;

verus! {

/// A positive rational scale factor `num / den`.
#[derive(Clone, Copy, Debug, PartialEq, Eq, Structural)]
pub struct ScaleFactor {
    pub num: u32,
    pub den: u32,
}

impl ScaleFactor {
    pub open spec fn wf(self) -> bool {
        self.num > 0 && self.den > 0
    }

    /// The factor `num / den`, or `None` where either part is zero.
    pub fn new(num: u32, den: u32) -> (r: Option<ScaleFactor>)
        ensures
            r is Some <==> num > 0 && den > 0,
            r matches Some(f) ==> f.num == num && f.den == den && f.wf(),
    {
        if num > 0 && den > 0 {
            Some(ScaleFactor { num, den })
        } else {
            None
        }
    }
}

/// How the buffer dimensions of a render texture follow the window.
/// - `Resizable`: the buffer takes the window size.
/// - `ResizableScaled(f)`: the buffer takes the window size scaled by `f`,
///   rounded down and at least one pixel in each axis.
/// - `NonResizable`: the buffer keeps the size it was last allocated at.
#[derive(Clone, Copy, Debug, PartialEq, Eq, Structural)]
pub enum RenderTextureResizing {
    Resizable,
    ResizableScaled(ScaleFactor),
    NonResizable,
}

impl RenderTextureResizing {
    pub open spec fn wf(self) -> bool {
        match self {
            RenderTextureResizing::ResizableScaled(f) => f.wf(),
            _ => true,
        }
    }
}

/// `floor(src * num / den)`, clamped to `1 ..= u32::MAX`.
pub open spec fn scaled_dim(src: u32, f: ScaleFactor) -> u32 {
    let v = (src as int * f.num as int) / (f.den as int);
    if v < 1 {
        1
    } else if v > u32::MAX as int {
        u32::MAX
    } else {
        v as u32
    }
}

/// The buffer dimensions for source (window) dimensions `(width, height)`
/// under `resizing`, where `fixed` is the size the buffer has now.
pub open spec fn sized_dims(
    width: u32,
    height: u32,
    resizing: RenderTextureResizing,
    fixed: (u32, u32),
) -> (u32, u32) {
    match resizing {
        RenderTextureResizing::Resizable => (width, height),
        RenderTextureResizing::ResizableScaled(f) => (scaled_dim(width, f), scaled_dim(height, f)),
        RenderTextureResizing::NonResizable => fixed,
    }
}

fn scale_dim(src: u32, f: ScaleFactor) -> (r: u32)
    requires
        f.wf(),
    ensures
        r == scaled_dim(src, f),
{
    proof {
        assert((src as int) * (f.num as int) <= (u32::MAX as int) * (u32::MAX as int)) by (nonlinear_arith);
    }
    let prod: u64 = src as u64 * f.num as u64;
    let v: u64 = prod / f.den as u64;
    if v < 1 {
        1
    } else if v > u32::MAX as u64 {
        u32::MAX
    } else {
        v as u32
    }
}

/// The buffer dimensions for source dimensions `(width, height)` under
/// `resizing`; `fixed` is the current buffer size, kept under `NonResizable`.
pub fn get_sized_dims(
    width: u32,
    height: u32,
    resizing: RenderTextureResizing,
    fixed: (u32, u32),
) -> (r: (u32, u32))
    requires
        resizing.wf(),
    ensures
        r == sized_dims(width, height, resizing, fixed),
{
    match resizing {
        RenderTextureResizing::Resizable => (width, height),
        RenderTextureResizing::ResizableScaled(f) => (scale_dim(width, f), scale_dim(height, f)),
        RenderTextureResizing::NonResizable => fixed,
    }
}

} // verus!
