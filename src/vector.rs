mod vec_2d;
mod vec_3d;

pub use vec_2d::Vec2D;
pub use vec_3d::Vec3D;
