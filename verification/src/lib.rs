//! Random fractal "logo" images from iterated function systems.
//!
//! This library holds the integer and decision logic of the renderer: the
//! render configuration and its validation, the seeding of the random stream,
//! the draw of the transform count, the fixed palette, and the rasterizer that
//! plots truncated pixel indices onto an RGB canvas. The numeric core of
//! the renderer runs in floating point, outside this library; `sigma` and
//! `normalize` state its arithmetic over the real numbers and prove the
//! bounds that it is designed to keep.

pub mod canvas;
pub mod config;
pub mod error;
pub mod ifs;
pub mod normalize;
pub mod renderer;
pub mod rng;
pub mod sigma;
pub mod utils;

pub use canvas::Canvas;
pub use config::Config;
pub use error::Error;
pub use ifs::{random_sign_diagonal, transform_count};
pub use renderer::{plot_points, rasterize, render, seeded_rng, validate_config};
pub use utils::{
    decimal_string, julia_color, julia_color_alpha, random_julia_color, random_julia_color_alpha,
    Color, ColorAlpha,
};
