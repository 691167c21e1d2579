//! Small fixed-size vectors, square matrices and points, generic over the element type,
//! with elementwise arithmetic and a few geometric operations.

pub mod laws;
pub mod mat;
pub mod point;
pub mod vec;
