//! Physics and collision core of a small tile-based platformer.
//!
//! The world is a grid of 8x8 tiles on a 240x160 screen. Positions are whole
//! pixels; velocities and the carried sub-pixel remainders are fixed-point
//! numbers counted in thousandths of a pixel. Every function is total on
//! well-formed values: counters and velocities saturate at the range of
//! `i32` instead of overflowing.
pub mod animation;
pub mod blutti;
pub mod collision;
pub mod constants;
pub mod direction;
pub mod drawable;
pub mod drawing;
pub mod fixed;
pub mod functions;
pub mod game_state;
pub mod input;
pub mod level;
pub mod monster;
pub mod particle;
pub mod player_state;
pub mod point_math;
pub mod rect;
pub mod rendering;
pub mod state;
pub mod tile_collider;
pub mod updateable;
pub mod vec2;
