//! A CPU-only software rasterizer: camera-relative 3D triangles are projected,
//! filled with barycentric interpolation, depth-tested and shaded into a 2D
//! pixel buffer.  All geometry runs on a fixed-point scalar type with exact
//! integer semantics, so every stage of the pipeline carries a precise contract.

pub mod camera;
pub mod color;
pub mod dither_shader;
pub mod draw_list;
pub mod dummy_passthru_shader;
pub mod even_line_missing_shader;
pub mod everything_is_red_shader;
pub mod fixed;
pub mod game;
pub mod input_handler;
pub mod key_event;
pub mod keycode;
pub mod mouse_button;
pub mod mouse_event;
pub mod pixel_placement;
pub mod pixel_shader;
pub mod rect;
pub mod screen;
pub mod texture;
pub mod triangle;
pub mod triangle_gen;
pub mod trig;
pub mod vec2;
pub mod vec3;
pub mod vertex;
pub mod window;
