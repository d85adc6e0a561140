//! Frame simulator of a small arcade game: a player-controlled disc dodges
//! squares that fall from the top of the screen.
//!
//! All quantities are whole numbers. A length is a number of sub-pixel units,
//! a duration a number of clock ticks, and a speed a number of pixels per
//! second. One pixel holds as many units as one second holds ticks, so a
//! shape that moves at `speed` covers exactly `speed * dt` units in `dt`
//! ticks.

pub mod units;
pub mod shape;
pub mod player;
pub mod enemies;
pub mod spawn;
pub mod frame;
pub mod render;
pub mod window;

