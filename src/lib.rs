//! A window with a CPU-side pixel buffer that is staged and uploaded to the
//! GPU each frame. This crate holds the buffer logic: the resizing policy,
//! the pixel view, the staging rotation and the render texture that ties them
//! together. The window, the graphics context and the device calls live
//! around it.
pub mod core_loop;
pub mod input;
pub mod rc_cell;
pub mod render_texture;
pub mod render_texture_type;
pub mod render_texture_view;
pub mod resizing;
pub mod staging;

pub use core_loop::{decide, window_dims, LoopAction, LoopEvent, ESCAPE_KEY};
pub use input::{CursorMode, DebugUiButton, Input, MouseButton};
pub use rc_cell::RcCell;
pub use render_texture::{FrameWrite, RenderTexture, Upload};
pub use render_texture_type::{
    PackedU128, PackedU32, PackedU64, RenderTexturePackedType, RenderTextureType, GL_BYTE, GL_INT,
    GL_RGB, GL_SHORT, GL_UNSIGNED_BYTE, GL_UNSIGNED_INT, GL_UNSIGNED_SHORT,
};
pub use render_texture_view::RenderTextureView;
pub use resizing::{get_sized_dims, RenderTextureResizing, ScaleFactor};
pub use staging::StagingPool;
