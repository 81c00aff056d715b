//! The verified core of a command-line image processor: how a command
//! line is read, what each operation makes of an image, and which colors
//! the fractal has. Beside it stand a few small studies of loops, strings
//! and traits.

pub mod bitmap;
pub mod color;
pub mod exercises;
pub mod fractal;
pub mod raster;
pub mod report;
pub mod request;
pub mod text;
pub mod transform;
