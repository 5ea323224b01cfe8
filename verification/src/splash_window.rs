//! The splash window: where it stands, and that it is closed once.

use vstd::prelude::*;

verus! {

/// The window's width in pixels.
pub const SPLASH_WIDTH: i32 = 340;

/// The window's height in pixels.
pub const SPLASH_HEIGHT: i32 = 100;

/// The name of the window's class.
pub const CLASS_NAME: &'static str = "SpamBayesSplash";

/// The text shown.
pub const LOADING_TEXT: &'static str = "Loading SpamBayes Manager...";

/// Half a number, rounded towards zero.
pub open spec fn half(n: int) -> int {
    if n >= 0 {
        n / 2
    } else {
        -((-n) / 2)
    }
}

/// Half a number, rounded towards zero.
fn halved(n: i32) -> (h: i32)
    ensures
        h == half(n as int),
{
    if n >= 0 {
        n / 2
    } else {
        let opposite: i64 = -(n as i64);
        (-(opposite / 2)) as i32
    }
}

/// The upper left corner that centres the window on a screen of the given size.
pub fn centered(screen_w: i32, screen_h: i32) -> (corner: (i32, i32))
    requires
        screen_w >= i32::MIN + SPLASH_WIDTH,
        screen_h >= i32::MIN + SPLASH_HEIGHT,
    ensures
        corner.0 == half(screen_w - SPLASH_WIDTH),
        corner.1 == half(screen_h - SPLASH_HEIGHT),
{
    (halved(screen_w - SPLASH_WIDTH), halved(screen_h - SPLASH_HEIGHT))
}

/// On a screen that is large enough, the margins on the left and on the right, and those above and
/// below, differ by at most one pixel.
pub proof fn margins_are_even(screen: int, size: int)
    requires
        size <= screen,
    ensures
        0 <= half(screen - size),
        half(screen - size) + size <= screen,
        0 <= (screen - size - half(screen - size)) - half(screen - size) <= 1,
{
}

/// The splash window.
#[derive(Debug, Clone, Copy, PartialEq, Eq, Structural)]
pub struct SplashHandle {
    pub closed: bool,
}

impl SplashHandle {
    /// A window that was just shown.
    pub fn new() -> (splash: SplashHandle)
        ensures
            !splash.closed,
    {
        SplashHandle { closed: false }
    }

    /// Marks the window as closed; says whether it still has to be destroyed, which is so the first
    /// time only.
    pub fn close(&mut self) -> (destroy: bool)
        ensures
            destroy == !old(self).closed,
            final(self).closed,
    {
        let destroy = !self.closed;
        self.closed = true;
        destroy
    }
}

/// The window is centred: on a screen that is large enough, the margins on both sides, and those
/// above and below, differ by at most one pixel, and the window is 340 by 100.
pub proof fn the_splash_is_centred(screen_w: i32, screen_h: i32, corner: (i32, i32))
    requires
        screen_w >= 340,
        screen_h >= 100,
        call_ensures(centered, (screen_w, screen_h), corner),
    ensures
        corner.0 >= 0,
        corner.1 >= 0,
        0 <= (screen_w - 340 - corner.0) - corner.0 <= 1,
        0 <= (screen_h - 100 - corner.1) - corner.1 <= 1,
{
}

/// On a screen that is too small, the window reaches over both edges alike.
pub proof fn a_large_splash_reaches_over_both_edges(
    screen_w: i32,
    screen_h: i32,
    corner: (i32, i32),
)
    requires
        i32::MIN + 340 <= screen_w < 340,
        i32::MIN + 100 <= screen_h < 100,
        call_ensures(centered, (screen_w, screen_h), corner),
    ensures
        corner.0 <= 0,
        corner.1 <= 0,
        -1 <= (screen_w - 340 - corner.0) - corner.0 <= 0,
        -1 <= (screen_h - 100 - corner.1) - corner.1 <= 0,
{
}

/// A window is destroyed by the first closing, and by no later one.
pub proof fn a_splash_is_destroyed_once(
    shown: SplashHandle,
    first: &mut SplashHandle,
    destroy: bool,
    second: &mut SplashHandle,
    again: bool,
)
    requires
        call_ensures(SplashHandle::new, (), shown),
        *old(first) == shown,
        call_ensures(SplashHandle::close, (first,), destroy),
        *old(second) == *final(first),
        call_ensures(SplashHandle::close, (second,), again),
    ensures
        destroy,
        !again,
{
}

} // verus!
