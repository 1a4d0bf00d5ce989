use vstd::prelude::*;

use crate::error::BuddyError;

verus! {

/// The sizing options of the configuration: explicit dimensions, the height
/// used when neither is given, and the bound on a derived dimension.
#[derive(Clone, Copy, Debug, PartialEq, Eq, Structural)]
pub struct SizeConfig {
    pub width: Option<u32>,
    pub height: Option<u32>,
    pub default_height: u32,
    pub max_size: u32,
}

/// A dimension derived from `known` by the ratio `num / den` (rounded down),
/// held at `max`; without a usable ratio (a zero side) `known` itself, held at `max`.
pub open spec fn derived(known: u32, num: u32, den: u32, max: u32) -> u32 {
    let v: int = if num == 0 || den == 0 {
        known as int
    } else {
        (known as int * num as int) / (den as int)
    };
    if v > max as int {
        max
    } else {
        v as u32
    }
}

/// The character's `(width, height)`: explicit dimensions where given, the
/// missing one from the other by the intrinsic aspect ratio `aspect_w : aspect_h`.
pub open spec fn size_spec(cfg: SizeConfig, aspect_w: u32, aspect_h: u32) -> (u32, u32) {
    match (cfg.width, cfg.height) {
        (Some(w), Some(h)) => (w, h),
        (Some(w), None) => (w, derived(w, aspect_h, aspect_w, cfg.max_size)),
        (None, Some(h)) => (derived(h, aspect_w, aspect_h, cfg.max_size), h),
        (None, None) => (
            derived(cfg.default_height, aspect_w, aspect_h, cfg.max_size),
            cfg.default_height,
        ),
    }
}

fn derive_dimension(known: u32, num: u32, den: u32, max: u32) -> (r: u32)
    ensures
        r == derived(known, num, den, max),
{
    let v: u64 = if num == 0 || den == 0 {
        known as u64
    } else {
        assert((known as int) * (num as int) <= u32::MAX as int * u32::MAX as int) by (nonlinear_arith);
        (known as u64) * (num as u64) / (den as u64)
    };
    if v > max as u64 {
        max
    } else {
        v as u32
    }
}

/// Works out the character's size from the configuration and the intrinsic
/// width and height of its sprites.
pub fn infer_size(cfg: &SizeConfig, aspect_w: u32, aspect_h: u32) -> (r: (u32, u32))
    ensures
        r == size_spec(*cfg, aspect_w, aspect_h),
{
    match (cfg.width, cfg.height) {
        (Some(w), Some(h)) => (w, h),
        (Some(w), None) => (w, derive_dimension(w, aspect_h, aspect_w, cfg.max_size)),
        (None, Some(h)) => (derive_dimension(h, aspect_w, aspect_h, cfg.max_size), h),
        (None, None) => (
            derive_dimension(cfg.default_height, aspect_w, aspect_h, cfg.max_size),
            cfg.default_height,
        ),
    }
}

/// Whether the rectangle at `(x, y)` of the given size lies inside
/// `[0, screen_width) x [0, screen_height)`, its far edges included.
pub open spec fn fits_on_screen(
    x: int,
    y: int,
    width: int,
    height: int,
    screen_width: int,
    screen_height: int,
) -> bool {
    &&& 0 <= x
    &&& x + width < screen_width
    &&& 0 <= y
    &&& y + height < screen_height
}

/// The start-up bounds check: the starting rectangle must fit on the screen,
/// unless the debug override allows it anywhere.
pub fn check_placement(
    x: i32,
    y: i32,
    width: u32,
    height: u32,
    screen_width: i32,
    screen_height: i32,
    debug: bool,
) -> (r: Result<(), BuddyError>)
    ensures
        r is Err <==> !debug && !fits_on_screen(
            x as int,
            y as int,
            width as int,
            height as int,
            screen_width as int,
            screen_height as int,
        ),
        r is Err ==> r->Err_0 == BuddyError::CoordinatesOutOfBounds(
            x,
            y,
            screen_width,
            screen_height,
            width,
            height,
        ),
{
    let out = (x as i64) + (width as i64) >= screen_width as i64 || x < 0 || (y as i64) + (
    height as i64) >= screen_height as i64 || y < 0;
    if !debug && out {
        Err(BuddyError::CoordinatesOutOfBounds(x, y, screen_width, screen_height, width, height))
    } else {
        Ok(())
    }
}

/// A rectangle on the screen.
#[derive(Clone, Copy, Debug, PartialEq, Eq, Structural)]
pub struct Rect {
    pub x: i32,
    pub y: i32,
    pub width: u32,
    pub height: u32,
}

/// The part of the overlay that takes pointer input: exactly the character's
/// rectangle at its current position; everywhere else clicks pass through.
pub fn input_region(x: i32, y: i32, width: u32, height: u32) -> (r: Rect)
    ensures
        r == (Rect { x, y, width, height }),
{
    Rect { x, y, width, height }
}

} // verus!
