use vstd::prelude::*;

verus! {

/// The width of the screen, in pixels.
pub const SCREEN_WIDTH: u16 = 320;

/// The height of the screen, in pixels.
pub const SCREEN_HEIGHT: u16 = 240;

/// A rectangle of the screen: origin `(x, y)`, width `w`, height `h`.
#[derive(Clone, Copy, Debug, Default, PartialEq, Eq, Structural)]
pub struct Rect {
    pub x: u16,
    pub y: u16,
    pub w: u16,
    pub h: u16,
}

/// A point of the screen.
#[derive(Clone, Copy, Debug, Default, PartialEq, Eq, Structural)]
pub struct Point {
    pub x: u16,
    pub y: u16,
}

/// The whole screen.
pub fn screen_rect() -> (r: Rect)
    ensures
        r == (Rect { x: 0, y: 0, w: SCREEN_WIDTH, h: SCREEN_HEIGHT }),
{
    Rect { x: 0, y: 0, w: SCREEN_WIDTH, h: SCREEN_HEIGHT }
}

} // verus!
