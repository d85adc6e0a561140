//! The window in which the game is shown.

use vstd::prelude::*;
use crate::frame::Screen;
use crate::units::UNITS_PER_PIXEL;

verus! {

/// Width of the window, in pixels.
pub const WINDOW_WIDTH: i32 = 1280;

/// Height of the window, in pixels.
pub const WINDOW_HEIGHT: i32 = 720;

/// Colour that fills the window before anything is drawn.
pub const BACKGROUND_COLOR: u32 = 0x254d70;

/// How the window is opened. The dimensions are in pixels.
#[derive(Clone, Debug)]
pub struct WindowConf {
    pub window_title: String,
    pub window_width: i32,
    pub window_height: i32,
    pub fullscreen: bool,
}

/// The configuration of the game's window: titled, 1280 by 720 pixels, not
/// full screen.
pub fn set_window_conf() -> (conf: WindowConf)
    ensures
        conf.window_title@ == "Rusty Space Shooter"@,
        conf.window_width == WINDOW_WIDTH,
        conf.window_height == WINDOW_HEIGHT,
        !conf.fullscreen,
{
    WindowConf {
        window_title: "Rusty Space Shooter".to_owned(),
        window_width: WINDOW_WIDTH,
        window_height: WINDOW_HEIGHT,
        fullscreen: false,
    }
}

/// Whether a window of `width` by `height` pixels has dimensions that can be
/// stored in units.
pub open spec fn measurable(width: i32, height: i32) -> bool {
    &&& 0 <= width * UNITS_PER_PIXEL <= i32::MAX
    &&& 0 <= height * UNITS_PER_PIXEL <= i32::MAX
}

/// The screen of a window of `width` by `height` pixels, or nothing when a
/// dimension is negative or too large to be stored in units.
pub fn screen_of(width: i32, height: i32) -> (screen: Option<Screen>)
    ensures
        match screen {
            Some(s) => s.width == width * UNITS_PER_PIXEL && s.height == height * UNITS_PER_PIXEL,
            None => true,
        },
        screen is Some <==> measurable(width, height),
{
    let limit: i32 = i32::MAX / UNITS_PER_PIXEL;
    if 0 <= width && width <= limit && 0 <= height && height <= limit {
        Some(Screen { width: width * UNITS_PER_PIXEL, height: height * UNITS_PER_PIXEL })
    } else {
        None
    }
}

} // verus!
