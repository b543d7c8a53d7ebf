/// A box with its edges along the axes.
pub mod cuboid;
/// A cylinder about any axis.
pub mod cylinder;
/// The part as one of its shapes.
pub mod parts;
/// A sphere.
pub mod sphere;
