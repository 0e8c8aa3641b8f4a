use vstd::prelude::*;

verus! {

/// What the overlay layout reads, each value already rounded to whole
/// physical pixels: the toolbar height and minimum window width for the
/// display scale, the screen edges, and the selected rectangle.
#[derive(Clone, Copy, Debug, PartialEq, Eq)]
pub struct LayoutPixels {
    pub toolbar: i32,
    pub minimum_width: i32,
    pub screen_left: i32,
    pub screen_top: i32,
    pub screen_right: i32,
    pub screen_bottom: i32,
    pub selection_x: i32,
    pub selection_y: i32,
    pub selection_width: i32,
    pub selection_height: i32,
}

/// The overlay window in physical pixels: where the window stands, and where
/// the captured content and the toolbar stand inside it.
#[derive(Clone, Copy, Debug, PartialEq, Eq)]
pub struct OverlayPixels {
    pub window_x: i32,
    pub window_y: i32,
    pub window_width: i32,
    pub window_height: i32,
    pub content_left: i32,
    pub content_top: i32,
    pub content_width: i32,
    pub content_height: i32,
    pub toolbar_top: i32,
}

pub open spec fn is_i32(v: int) -> bool {
    i32::MIN <= v <= i32::MAX
}

pub open spec fn min_int(a: int, b: int) -> int {
    if a <= b {
        a
    } else {
        b
    }
}

pub open spec fn max_int(a: int, b: int) -> int {
    if a >= b {
        a
    } else {
        b
    }
}

impl LayoutPixels {
    /// The window is at least the minimum width, at most the screen width.
    pub open spec fn window_width_spec(self) -> int {
        min_int(
            max_int(self.selection_width as int, self.minimum_width as int),
            self.screen_right - self.screen_left,
        )
    }

    /// The window starts at the selection, pushed left to fit the screen's
    /// right edge, but never past the screen's left edge.
    pub open spec fn window_x_spec(self) -> int {
        max_int(
            min_int(self.selection_x as int, self.screen_right - self.window_width_spec()),
            self.screen_left as int,
        )
    }

    /// There is room for the toolbar above the selection.
    pub open spec fn toolbar_fits_above(self) -> bool {
        self.selection_y - self.toolbar >= self.screen_top
    }

    /// There is no room above, but room below the selection.
    pub open spec fn toolbar_fits_below(self) -> bool {
        !self.toolbar_fits_above() && self.selection_y + self.selection_height + self.toolbar
            <= self.screen_bottom
    }

    /// Every intermediate value of the layout fits in an `i32`.
    pub open spec fn fits_i32(self) -> bool {
        &&& is_i32(self.screen_right - self.screen_left)
        &&& is_i32(self.screen_right - self.window_width_spec())
        &&& is_i32(self.selection_y - self.toolbar)
        &&& !self.toolbar_fits_above() ==> is_i32(self.selection_y + self.selection_height)
            && is_i32(self.selection_y + self.selection_height + self.toolbar)
        &&& (self.toolbar_fits_above() || self.toolbar_fits_below()) ==> is_i32(
            self.selection_height + self.toolbar,
        )
        &&& is_i32(self.selection_x - self.window_x_spec())
    }

    /// The layout of the overlay window for this selection.
    pub open spec fn layout_spec(self) -> OverlayPixels {
        let window_x = self.window_x_spec() as i32;
        let window_width = self.window_width_spec() as i32;
        let content_left = (self.selection_x - self.window_x_spec()) as i32;
        if self.toolbar_fits_above() {
            OverlayPixels {
                window_x,
                window_y: (self.selection_y - self.toolbar) as i32,
                window_width,
                window_height: (self.selection_height + self.toolbar) as i32,
                content_left,
                content_top: self.toolbar,
                content_width: self.selection_width,
                content_height: self.selection_height,
                toolbar_top: 0,
            }
        } else if self.toolbar_fits_below() {
            OverlayPixels {
                window_x,
                window_y: self.selection_y,
                window_width,
                window_height: (self.selection_height + self.toolbar) as i32,
                content_left,
                content_top: 0,
                content_width: self.selection_width,
                content_height: self.selection_height,
                toolbar_top: self.selection_height,
            }
        } else {
            OverlayPixels {
                window_x,
                window_y: self.selection_y,
                window_width,
                window_height: self.selection_height,
                content_left,
                content_top: 0,
                content_width: self.selection_width,
                content_height: self.selection_height,
                toolbar_top: 0,
            }
        }
    }
}

fn fits(v: i64) -> (r: bool)
    ensures
        r == is_i32(v as int),
{
    -2147483648i64 <= v && v <= 2147483647i64
}

/// Checks the layout's precondition: that every intermediate value of the
/// layout fits in an `i32`.
pub fn layout_fits_i32(p: LayoutPixels) -> (r: bool)
    ensures
        r == p.fits_i32(),
{
    let screen_right = p.screen_right as i64;
    let screen_width = screen_right - p.screen_left as i64;
    let mut window_width: i64 = if p.selection_width >= p.minimum_width {
        p.selection_width as i64
    } else {
        p.minimum_width as i64
    };
    if window_width > screen_width {
        window_width = screen_width;
    }
    let rightmost = screen_right - window_width;
    let mut window_x: i64 = if (p.selection_x as i64) <= rightmost {
        p.selection_x as i64
    } else {
        rightmost
    };
    if window_x < p.screen_left as i64 {
        window_x = p.screen_left as i64;
    }
    let above_top = p.selection_y as i64 - p.toolbar as i64;
    let above = above_top >= p.screen_top as i64;
    let below_bottom = p.selection_y as i64 + p.selection_height as i64 + p.toolbar as i64;
    let below = !above && below_bottom <= p.screen_bottom as i64;
    fits(screen_width) && fits(rightmost) && fits(above_top) && (above || (fits(
        p.selection_y as i64 + p.selection_height as i64,
    ) && fits(below_bottom))) && (!(above || below) || fits(
        p.selection_height as i64 + p.toolbar as i64,
    )) && fits(p.selection_x as i64 - window_x)
}

/// Where the overlay window goes, stated from the inputs: it is as wide as
/// the selection or the minimum toolbar width, whichever is larger, but no
/// wider than the screen; it starts where the selection starts, moved left
/// just enough to end at the screen's right edge, and never left of the
/// screen; the toolbar band goes above the content where the screen has room
/// for it, else below, else the window holds the content alone; the content
/// keeps the selection's size.
pub open spec fn overlay_window_law(p: LayoutPixels, r: OverlayPixels) -> bool {
    let screen_width = p.screen_right - p.screen_left;
    let wide = if p.selection_width >= p.minimum_width {
        p.selection_width as int
    } else {
        p.minimum_width as int
    };
    &&& r.window_width == (if wide <= screen_width {
        wide
    } else {
        screen_width
    })
    &&& r.window_width >= p.minimum_width || r.window_width == screen_width
    &&& r.window_width >= p.selection_width || r.window_width == screen_width
    &&& p.screen_left <= p.selection_x && p.selection_x + r.window_width <= p.screen_right
        ==> r.window_x == p.selection_x
    &&& p.selection_x + r.window_width > p.screen_right ==> r.window_x == p.screen_right
        - r.window_width
    &&& p.selection_x < p.screen_left ==> r.window_x == p.screen_left
    &&& r.content_left == p.selection_x - r.window_x
    &&& r.content_width == p.selection_width
    &&& r.content_height == p.selection_height
    &&& if p.selection_y - p.toolbar >= p.screen_top {
        &&& r.window_y == p.selection_y - p.toolbar
        &&& r.content_top == p.toolbar
        &&& r.toolbar_top == 0
        &&& r.window_height == p.selection_height + p.toolbar
    } else if p.selection_y + p.selection_height + p.toolbar <= p.screen_bottom {
        &&& r.window_y == p.selection_y
        &&& r.content_top == 0
        &&& r.toolbar_top == p.selection_height
        &&& r.window_height == p.selection_height + p.toolbar
    } else {
        &&& r.window_y == p.selection_y
        &&& r.content_top == 0
        &&& r.toolbar_top == 0
        &&& r.window_height == p.selection_height
    }
}

/// Every layout on a screen and selection within a quarter of the `i32` range
/// fits: the overflow check rejects only layouts near the `i32` limits.
pub proof fn lemma_small_layouts_fit(p: LayoutPixels)
    requires
        -0x2000_0000 <= p.toolbar <= 0x2000_0000,
        -0x2000_0000 <= p.minimum_width <= 0x2000_0000,
        -0x2000_0000 <= p.screen_left <= 0x2000_0000,
        -0x2000_0000 <= p.screen_top <= 0x2000_0000,
        -0x2000_0000 <= p.screen_right <= 0x2000_0000,
        -0x2000_0000 <= p.screen_bottom <= 0x2000_0000,
        -0x2000_0000 <= p.selection_x <= 0x2000_0000,
        -0x2000_0000 <= p.selection_y <= 0x2000_0000,
        -0x2000_0000 <= p.selection_width <= 0x2000_0000,
        -0x2000_0000 <= p.selection_height <= 0x2000_0000,
    ensures
        p.fits_i32(),
{
}

/// The layout keeps the placement rules of `overlay_window_law`.
pub proof fn lemma_overlay_window_law(p: LayoutPixels)
    requires
        p.fits_i32(),
    ensures
        overlay_window_law(p, p.layout_spec()),
{
}

/// Places the overlay window over the selected screen rectangle, with the
/// toolbar outside the captured content where the screen leaves room for it.
pub fn overlay_pixels(p: LayoutPixels) -> (r: OverlayPixels)
    requires
        p.fits_i32(),
    ensures
        r == p.layout_spec(),
        overlay_window_law(p, r),
        // the content stands exactly on the selected screen rectangle
        r.window_x + r.content_left == p.selection_x,
        r.window_y + r.content_top == p.selection_y,
        r.content_width == p.selection_width,
        r.content_height == p.selection_height,
        // the window stays on the screen horizontally
        p.screen_left <= r.window_x,
        r.window_x + r.window_width <= p.screen_right,
        r.window_width <= p.screen_right - p.screen_left,
        // the toolbar goes above the content where there is room, else below,
        // else the window holds the content alone
        p.toolbar_fits_above() ==> r.toolbar_top == 0 && r.content_top == p.toolbar
            && r.window_height == p.selection_height + p.toolbar && p.screen_top <= r.window_y,
        p.toolbar_fits_below() ==> r.content_top == 0 && r.toolbar_top == p.selection_height
            && r.window_height == p.selection_height + p.toolbar && r.window_y + r.window_height
            <= p.screen_bottom,
        !p.toolbar_fits_above() && !p.toolbar_fits_below() ==> r.content_top == 0
            && r.window_height == p.selection_height,
{
    let screen_width = p.screen_right - p.screen_left;
    let mut window_width = if p.selection_width >= p.minimum_width {
        p.selection_width
    } else {
        p.minimum_width
    };
    if window_width > screen_width {
        window_width = screen_width;
    }
    let rightmost = p.screen_right - window_width;
    let mut window_x = if p.selection_x <= rightmost {
        p.selection_x
    } else {
        rightmost
    };
    if window_x < p.screen_left {
        window_x = p.screen_left;
    }
    let (window_y, content_top, toolbar_top, window_height) = if p.selection_y - p.toolbar
        >= p.screen_top {
        (p.selection_y - p.toolbar, p.toolbar, 0, p.selection_height + p.toolbar)
    } else if p.selection_y + p.selection_height + p.toolbar <= p.screen_bottom {
        (p.selection_y, 0, p.selection_height, p.selection_height + p.toolbar)
    } else {
        (p.selection_y, 0, 0, p.selection_height)
    };
    OverlayPixels {
        window_x,
        window_y,
        window_width,
        window_height,
        content_left: p.selection_x - window_x,
        content_top,
        content_width: p.selection_width,
        content_height: p.selection_height,
        toolbar_top,
    }
}

} // verus!
