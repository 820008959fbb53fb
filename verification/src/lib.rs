//! Camera control and animation state machine of a raymarched-fractal
//! viewer, together with the mandelbulb distance estimator its zoom and
//! shading logic depend on.
//!
//! All scalar quantities are signed 64-bit fixed-point numbers with 32
//! fractional bits (Q31.32): the integer `v` stands for the real number
//! `v / 2^32`. Arithmetic truncates toward zero and saturates at the
//! `i64` range instead of wrapping, so every operation is total.

pub mod camera;
pub mod fx;
pub mod light;
pub mod mandelbulb;
pub mod math;
pub mod renderer;
pub mod scene;
pub mod three_d;
pub mod vec3;

pub use camera::Camera;
pub use fx::FX_ONE;
pub use light::SunLight;
pub use mandelbulb::mandelbulb;
pub use renderer::Renderer;
pub use renderer::UniformData;
pub use scene::Scene;
pub use three_d::LocalToGlobal;
pub use vec3::Vec3;
pub use vec3::vec3;
