use minigw::{FrameWrite, RenderTexture, RenderTextureResizing, ScaleFactor, Upload};

fn all_pixels(rt: &RenderTexture<u8>) -> Vec<[u8; 3]> {
    let mut out = Vec::new();
    for y in 0..rt.get_height() {
        for x in 0..rt.get_width() {
            out.push(rt.get_pixel(x, y));
        }
    }
    out
}

#[test]
fn set_then_get_round_trip() {
    let mut rt = RenderTexture::<u8>::new(3, 2, false, RenderTextureResizing::Resizable);
    rt.set_pixel(2, 1, &[10, 20, 30]);
    rt.set_pixel(0, 0, &[1, 2, 3]);
    assert_eq!(rt.get_pixel(2, 1), [10, 20, 30]);
    assert_eq!(rt.get_pixel(0, 0), [1, 2, 3]);
    assert_eq!(rt.get_pixel(1, 0), [0, 0, 0]);
}

#[test]
fn round_trip_after_resize() {
    let mut rt = RenderTexture::<u16>::new(2, 2, true, RenderTextureResizing::Resizable);
    assert!(rt.resize(5, 3));
    rt.set_pixel(4, 2, &[u16::MAX, 7, 0]);
    assert_eq!(rt.get_pixel(4, 2), [u16::MAX, 7, 0]);
}

#[test]
fn round_trip_signed() {
    let mut rt = RenderTexture::<i32>::new(2, 2, false, RenderTextureResizing::Resizable);
    rt.set_pixel(1, 1, &[i32::MIN, -1, i32::MAX]);
    assert_eq!(rt.get_pixel(1, 1), [i32::MIN, -1, i32::MAX]);
}

#[test]
fn pixel_layout_is_row_major_rgb() {
    let mut rt = RenderTexture::<u8>::new(2, 2, false, RenderTextureResizing::Resizable);
    rt.set_pixel(1, 0, &[1, 2, 3]);
    rt.set_pixel(0, 1, &[4, 5, 6]);
    assert_eq!(rt.pixels(), &[0, 0, 0, 1, 2, 3, 4, 5, 6, 0, 0, 0]);
}

#[test]
fn resize_clears_every_pixel() {
    let mut rt = RenderTexture::<u8>::new(3, 3, false, RenderTextureResizing::Resizable);
    for y in 0..3 {
        for x in 0..3 {
            rt.set_pixel(x, y, &[9, 9, 9]);
        }
    }
    assert!(rt.resize(3, 3));
    assert!(all_pixels(&rt).iter().all(|p| *p == [0, 0, 0]));
}

#[test]
fn resize_from_two_to_four() {
    let mut rt = RenderTexture::<u8>::new(2, 2, false, RenderTextureResizing::Resizable);
    assert_eq!(rt.pixels().len(), 2 * 2 * 3);
    rt.set_pixel(1, 1, &[5, 6, 7]);
    assert!(rt.resize(4, 4));
    assert_eq!(rt.get_width(), 4);
    assert_eq!(rt.get_height(), 4);
    assert_eq!(rt.pixels().len(), 4 * 4 * 3);
    assert!(rt.pixels().iter().all(|v| *v == 0));
}

#[test]
fn resize_under_fixed_keeps_buffer() {
    let mut rt = RenderTexture::<u8>::new(8, 6, false, RenderTextureResizing::NonResizable);
    rt.set_pixel(1, 1, &[1, 1, 1]);
    assert!(!rt.resize(1920, 1080));
    assert_eq!((rt.get_width(), rt.get_height()), (8, 6));
    assert_eq!(rt.get_pixel(1, 1), [1, 1, 1]);
}

#[test]
fn scaled_construction() {
    let half = RenderTextureResizing::ResizableScaled(ScaleFactor::new(1, 2).unwrap());
    let rt = RenderTexture::<u8>::new(800, 600, false, half);
    assert_eq!((rt.get_width(), rt.get_height()), (400, 300));
    assert_eq!(rt.get_resizing_mode(), half);
}

#[test]
fn set_resizing_mode_reallocates_at_source_size() {
    let mut rt = RenderTexture::<u8>::new(10, 10, false, RenderTextureResizing::Resizable);
    assert!(rt.resize(20, 8));
    rt.set_pixel(0, 0, &[3, 3, 3]);
    let tenth = RenderTextureResizing::ResizableScaled(ScaleFactor::new(1, 10).unwrap());
    rt.set_resizing_mode(tenth);
    assert_eq!((rt.get_width(), rt.get_height()), (2, 1));
    assert_eq!(rt.get_pixel(0, 0), [0, 0, 0]);
    rt.set_resizing_mode(RenderTextureResizing::Resizable);
    assert_eq!((rt.get_width(), rt.get_height()), (20, 8));
}

#[test]
fn fixed_mode_keeps_size_and_clears() {
    let mut rt = RenderTexture::<u8>::new(800, 600, false, RenderTextureResizing::Resizable);
    assert!(rt.resize(640, 480));
    rt.set_pixel(0, 0, &[3, 3, 3]);
    rt.set_resizing_mode(RenderTextureResizing::NonResizable);
    assert_eq!((rt.get_width(), rt.get_height()), (640, 480));
    assert_eq!(rt.get_pixel(0, 0), [0, 0, 0]);
    assert!(!rt.resize(1920, 1080));
    assert_eq!((rt.get_width(), rt.get_height()), (640, 480));
}

#[test]
fn view_fetch_is_stable() {
    let mut rt = RenderTexture::<u8>::new(2, 2, false, RenderTextureResizing::Resizable);
    rt.set_pixel(1, 0, &[4, 5, 6]);
    let a = rt.get_view();
    let b = rt.get_view();
    assert!(std::ptr::eq(a, b));
    assert_eq!(a.get_pixel(1, 0), [4, 5, 6]);
    assert_eq!(b.get_pixel(1, 0), [4, 5, 6]);
    assert_eq!((a.width(), a.height()), (2, 2));
}

#[test]
fn direct_upload_carries_the_frame() {
    let mut rt = RenderTexture::<u8>::new(4, 4, false, RenderTextureResizing::Resizable);
    for y in 0..4 {
        for x in 0..4 {
            rt.set_pixel(x, y, &[255, 0, 0]);
        }
    }
    let w = rt.commit_frame_write();
    assert_eq!(w, FrameWrite { stage: None, upload: Upload::Direct });
    let expected: Vec<u8> = [255u8, 0, 0].iter().copied().cycle().take(4 * 4 * 3).collect();
    assert_eq!(rt.pixels(), &expected[..]);
    assert_eq!(rt.byte_len(), 48);
    assert_eq!(rt.staging_slots(), 0);
}

#[test]
fn staged_rotation_lags_one_frame() {
    let mut rt = RenderTexture::<u8>::new(2, 2, true, RenderTextureResizing::Resizable);
    assert_eq!(rt.staging_slots(), 2);
    let frames: Vec<FrameWrite> = (0..5).map(|_| rt.commit_frame_write()).collect();
    assert_eq!(frames[0], FrameWrite { stage: Some(0), upload: Upload::Skip });
    assert_eq!(frames[1], FrameWrite { stage: Some(1), upload: Upload::Staged(0) });
    assert_eq!(frames[2], FrameWrite { stage: Some(0), upload: Upload::Staged(1) });
    assert_eq!(frames[3], FrameWrite { stage: Some(1), upload: Upload::Staged(0) });
    assert_eq!(frames[4], FrameWrite { stage: Some(0), upload: Upload::Staged(1) });
}

#[test]
fn staged_rotation_restarts_after_resize() {
    let mut rt = RenderTexture::<u8>::new(2, 2, true, RenderTextureResizing::Resizable);
    rt.commit_frame_write();
    rt.commit_frame_write();
    assert!(rt.resize(3, 3));
    assert_eq!(rt.commit_frame_write(), FrameWrite { stage: Some(0), upload: Upload::Skip });
}

#[test]
fn byte_len_counts_element_width() {
    let rt = RenderTexture::<u32>::new(3, 2, true, RenderTextureResizing::Resizable);
    assert_eq!(rt.byte_len(), 3 * 2 * 3 * 4);
    let rt = RenderTexture::<i16>::new(3, 2, true, RenderTextureResizing::Resizable);
    assert_eq!(rt.byte_len(), 3 * 2 * 3 * 2);
}

#[test]
fn buffer_fits_bounds() {
    assert!(RenderTexture::<u8>::buffer_fits(1920, 1080));
    assert!(RenderTexture::<u32>::buffer_fits(0, u32::MAX));
}

#[test]
fn staged_slot_alternates_with_period_two() {
    let mut rt = RenderTexture::<i8>::new(1, 1, true, RenderTextureResizing::NonResizable);
    let stages: Vec<Option<usize>> = (0..6).map(|_| rt.commit_frame_write().stage).collect();
    assert_eq!(stages, vec![Some(0), Some(1), Some(0), Some(1), Some(0), Some(1)]);
    assert_eq!(rt.get_type(), gl::BYTE);
}
