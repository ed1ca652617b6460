use raytracer::image::{rgb_triples, ImageData};
use raytracer::vector::Vec2D;

#[test]
fn bytes_grouped_by_three() {
    assert_eq!(rgb_triples(&vec![1, 2, 3, 4, 5, 6, 7]), vec![(1, 2, 3), (4, 5, 6)]);
    assert!(rgb_triples(&vec![1, 2]).is_empty());
}

#[test]
fn raster_size_from_width() {
    let img = ImageData::new(3, vec![0u8; 12]);
    assert_eq!(img.size(), Vec2D::new(3, 4));
}

#[test]
fn pixel_by_column_and_row() {
    let img = ImageData::new(2, vec![10, 11, 20, 21, 30, 31]);
    assert_eq!(*img.pixel(Vec2D::new(0, 0)), 10);
    assert_eq!(*img.pixel(Vec2D::new(1, 0)), 11);
    assert_eq!(*img.pixel(Vec2D::new(0, 2)), 30);
    assert_eq!(*img.pixel(Vec2D::new(1, 1)), 21);
}

#[test]
fn index_past_the_edge_is_clamped() {
    let img = ImageData::new(2, vec![0u8; 6]);
    assert_eq!(img.clamp_index(Vec2D::new(5, 1)), Vec2D::new(1, 1));
    assert_eq!(img.clamp_index(Vec2D::new(0, 3)), Vec2D::new(0, 2));
    assert_eq!(img.clamp_index(Vec2D::new(1, 2)), Vec2D::new(1, 2));
}
