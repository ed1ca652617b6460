use raytracer::frame_buffer::{FrameBuffer, FrameBufferError};
use raytracer::vector::Vec2D;

#[test]
fn new_fills_every_pixel() {
    let fb = FrameBuffer::new(Vec2D::new(3u32, 2u32), (1u8, 2u8, 3u8));
    assert_eq!(*fb.size(), Vec2D::new(3, 2));
    assert_eq!(fb.buffer().len(), 6);
    assert!(fb.buffer().iter().all(|p| *p == (1, 2, 3)));
}

#[test]
fn new_dummy_holds_no_pixels() {
    let fb: FrameBuffer<u8> = FrameBuffer::new_dummy(Vec2D::new(4u32, 4u32));
    assert_eq!(*fb.size(), Vec2D::new(4, 4));
    assert!(fb.buffer().is_empty());
}

#[test]
fn set_buffer_of_same_length() {
    let mut fb = FrameBuffer::new(Vec2D::new(2u32, 1u32), 0u32);
    assert_eq!(fb.set_buffer(&vec![7, 9]), Ok(()));
    assert_eq!(fb.buffer(), &vec![7, 9]);
}

#[test]
fn set_buffer_of_other_length_is_refused() {
    let mut fb = FrameBuffer::new(Vec2D::new(2u32, 1u32), 0u32);
    assert_eq!(fb.set_buffer(&vec![7, 9, 11]), Err(FrameBufferError::InvalidLength));
    assert_eq!(fb.buffer(), &vec![0, 0]);
}

#[test]
fn bytes_with_and_without_alpha() {
    let mut fb = FrameBuffer::new(Vec2D::new(2u32, 1u32), (0u8, 0u8, 0u8));
    fb.set_buffer(&vec![(1, 2, 3), (4, 5, 6)]).unwrap();
    let (rgba, size) = fb.to_vec_u8(true);
    assert_eq!(rgba, vec![1, 2, 3, 255, 4, 5, 6, 255]);
    assert_eq!(size, Vec2D::new(2, 1));
    let (rgb, _) = fb.to_vec_u8(false);
    assert_eq!(rgb, vec![1, 2, 3, 4, 5, 6]);
}

#[test]
fn byte_lengths_follow_size() {
    let fb = FrameBuffer::new(Vec2D::new(80u32, 60u32), (9u8, 9u8, 9u8));
    assert_eq!(fb.to_vec_u8(true).0.len(), 4 * 80 * 60);
    assert_eq!(fb.to_vec_u8(false).0.len(), 3 * 80 * 60);
    let empty = FrameBuffer::new(Vec2D::new(0u32, 5u32), (0u8, 0u8, 0u8));
    assert!(empty.to_vec_u8(true).0.is_empty());
}
