//! Geometry of a window's chrome: a toolbar strip across the top and the
//! content surface filling whatever height is left beneath it.

use vstd::prelude::*;

verus! {

/// Height of the toolbar strip, in pixels.
pub const TOOLBAR_HEIGHT: u32 = 50;

/// Width given to a freshly built window.
pub const INITIAL_WIDTH: u32 = 1200;

/// Height given to a freshly built window.
pub const INITIAL_HEIGHT: u32 = 800;

/// Inner size of a window, in pixels.
#[derive(Clone, Copy, Debug, PartialEq, Eq, Structural)]
pub struct WindowSize {
    pub width: u32,
    pub height: u32,
}

/// The rectangle a surface occupies inside its window.
#[derive(Clone, Copy, Debug, PartialEq, Eq, Structural)]
pub struct Bounds {
    pub x: u32,
    pub y: u32,
    pub width: u32,
    pub height: u32,
}

/// Where the two surfaces of a composed window lie.
#[derive(Clone, Copy, Debug, PartialEq, Eq, Structural)]
pub struct ChromeLayout {
    pub toolbar: Bounds,
    pub content: Bounds,
}

/// Height left for the content surface: the window's height less the
/// toolbar's, and nothing when the window is shorter than the toolbar.
pub open spec fn content_height(window_height: u32, toolbar_height: u32) -> u32 {
    if window_height >= toolbar_height {
        (window_height - toolbar_height) as u32
    } else {
        0
    }
}

/// The layout of a window of the given size under a toolbar of the given
/// height: the toolbar spans the top edge, the content sits directly below
/// it, both as wide as the window.
pub open spec fn layout_of(size: WindowSize, toolbar_height: u32) -> ChromeLayout {
    ChromeLayout {
        toolbar: Bounds { x: 0, y: 0, width: size.width, height: toolbar_height },
        content: Bounds {
            x: 0,
            y: toolbar_height,
            width: size.width,
            height: content_height(size.height, toolbar_height),
        },
    }
}

/// The size a window has when it is first built.
pub open spec fn initial_size() -> WindowSize {
    WindowSize { width: INITIAL_WIDTH, height: INITIAL_HEIGHT }
}

/// Computes the bounds of both surfaces for a window of `size`.
///
/// The two heights add up to the window's height whenever the window is at
/// least as tall as the toolbar; a shorter window gets a content surface of
/// height zero instead of a wrapped-around difference.
pub fn compute_layout(size: WindowSize, toolbar_height: u32) -> (layout: ChromeLayout)
    ensures
        layout == layout_of(size, toolbar_height),
        size.height >= toolbar_height ==> layout.toolbar.height + layout.content.height
            == size.height,
        size.height < toolbar_height ==> layout.content.height == 0,
        layout.content.y == layout.toolbar.y + layout.toolbar.height,
{
    let rest: u32 = if size.height >= toolbar_height {
        size.height - toolbar_height
    } else {
        0
    };
    ChromeLayout {
        toolbar: Bounds { x: 0, y: 0, width: size.width, height: toolbar_height },
        content: Bounds { x: 0, y: toolbar_height, width: size.width, height: rest },
    }
}

/// The layout a window starts with, before any resize has been seen.
pub fn initial_layout() -> (layout: ChromeLayout)
    ensures
        layout == layout_of(initial_size(), TOOLBAR_HEIGHT),
        layout.toolbar == (Bounds { x: 0, y: 0, width: 1200, height: 50 }),
        layout.content == (Bounds { x: 0, y: 50, width: 1200, height: 750 }),
{
    compute_layout(WindowSize { width: INITIAL_WIDTH, height: INITIAL_HEIGHT }, TOOLBAR_HEIGHT)
}

/// The surfaces of a layout never reach past the window's lower edge
/// unless the toolbar alone is taller than the window, and the content
/// surface always starts where the toolbar ends.
pub proof fn lemma_layout_tiles_window(size: WindowSize, toolbar_height: u32)
    ensures
        layout_of(size, toolbar_height).toolbar.width == size.width,
        layout_of(size, toolbar_height).content.width == size.width,
        layout_of(size, toolbar_height).content.y == toolbar_height,
        size.height >= toolbar_height ==> layout_of(size, toolbar_height).content.y + layout_of(
            size,
            toolbar_height,
        ).content.height == size.height,
        layout_of(size, toolbar_height).content.height <= size.height,
{
}

} // verus!
