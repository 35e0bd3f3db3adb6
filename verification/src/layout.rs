//! Geometry computations: where a window goes under each placement policy.
//!
//! Every function here is total and pure.  Width and height of a computed
//! geometry never drop below one pixel, and every coordinate is kept inside
//! the machine range by saturation, so the functions cannot overflow or
//! panic whatever the configuration and screen report.  Each policy's
//! result is stated exactly by an open spec constructor, and the executable
//! function returns precisely that value.

use vstd::prelude::*;

use crate::config::Config;

verus! {

/// A window's position and size, in screen pixel coordinates.
#[derive(Clone, Copy, PartialEq, Eq, Structural, Debug)]
pub struct Geometry {
    pub x: i32,
    pub y: i32,
    pub width: i32,
    pub height: i32,
}

impl Geometry {
    /// A placed window is never degenerate: both sides measure at least
    /// one pixel.
    pub open spec fn wf(&self) -> bool {
        &&& self.width >= 1
        &&& self.height >= 1
    }
}

/// A width or height, clamped to at least one pixel and to the machine
/// range.
pub open spec fn clamp_dim(v: int) -> int {
    if v < 1 {
        1
    } else if v > i32::MAX {
        i32::MAX as int
    } else {
        v
    }
}

/// A coordinate, saturated to the machine range.
pub open spec fn clamp_coord(v: int) -> int {
    if v < i32::MIN {
        i32::MIN as int
    } else if v > i32::MAX {
        i32::MAX as int
    } else {
        v
    }
}

/// The width of the main full-height tile: the screen width less the
/// margin on both vertical edges.
pub open spec fn stack_width(edge_gap: int, screen_width: int) -> int {
    clamp_dim(screen_width - 2 * edge_gap)
}

/// The height of the main full-height tile: the screen height less the
/// reserved strip at the top and the margin at the bottom.
pub open spec fn stack_height(top_gap: int, edge_gap: int, screen_height: int) -> int {
    clamp_dim(screen_height - (top_gap + edge_gap))
}

/// Full-bleed placement: the whole screen, gaps ignored.
pub open spec fn maximize_geometry(screen_width: int, screen_height: int) -> Geometry {
    Geometry {
        x: 0,
        y: 0,
        width: clamp_dim(screen_width) as i32,
        height: clamp_dim(screen_height) as i32,
    }
}

/// The main tile: full height under the reserved top strip, honouring the
/// configured gaps on the other three edges.
pub open spec fn stack_geometry(cfg: Config, screen_width: int, screen_height: int) -> Geometry {
    Geometry {
        x: cfg.edge_gap,
        y: cfg.top_gap,
        width: stack_width(cfg.edge_gap as int, screen_width) as i32,
        height: stack_height(cfg.top_gap as int, cfg.edge_gap as int, screen_height) as i32,
    }
}

/// The small preview tile: the main tile with each side divided by four
/// (integer division, floor), its origin unchanged.
pub open spec fn shrink_geometry(cfg: Config, screen_width: int, screen_height: int) -> Geometry {
    Geometry {
        x: cfg.edge_gap,
        y: cfg.top_gap,
        width: clamp_dim(stack_width(cfg.edge_gap as int, screen_width) / 4) as i32,
        height: clamp_dim(
            stack_height(cfg.top_gap as int, cfg.edge_gap as int, screen_height) / 4,
        ) as i32,
    }
}

/// A drag-move: the window keeps its size and follows the pointer by the
/// offset travelled since the drag began.
pub open spec fn moved_geometry(
    attr: Geometry,
    start_x_root: int,
    start_y_root: int,
    x_root: int,
    y_root: int,
) -> Geometry {
    Geometry {
        x: clamp_coord(attr.x + (x_root - start_x_root)) as i32,
        y: clamp_coord(attr.y + (y_root - start_y_root)) as i32,
        width: clamp_dim(attr.width as int) as i32,
        height: clamp_dim(attr.height as int) as i32,
    }
}

/// A drag-resize: the window keeps its position and grows or shrinks by
/// the offset travelled since the drag began, never below one pixel a
/// side.
pub open spec fn resized_geometry(
    attr: Geometry,
    start_x_root: int,
    start_y_root: int,
    x_root: int,
    y_root: int,
) -> Geometry {
    Geometry {
        x: attr.x,
        y: attr.y,
        width: clamp_dim(attr.width + (x_root - start_x_root)) as i32,
        height: clamp_dim(attr.height + (y_root - start_y_root)) as i32,
    }
}

fn clamp_dim_exec(v: i64) -> (r: i32)
    ensures
        r as int == clamp_dim(v as int),
{
    if v < 1 {
        1
    } else if v > i32::MAX as i64 {
        i32::MAX
    } else {
        v as i32
    }
}

fn clamp_coord_exec(v: i64) -> (r: i32)
    ensures
        r as int == clamp_coord(v as int),
{
    if v < i32::MIN as i64 {
        i32::MIN
    } else if v > i32::MAX as i64 {
        i32::MAX
    } else {
        v as i32
    }
}

/// Compute the full-bleed placement.
pub fn maximize(screen_width: i32, screen_height: i32) -> (g: Geometry)
    ensures
        g == maximize_geometry(screen_width as int, screen_height as int),
        g.wf(),
{
    Geometry {
        x: 0,
        y: 0,
        width: clamp_dim_exec(screen_width as i64),
        height: clamp_dim_exec(screen_height as i64),
    }
}

/// Compute the main tile.
pub fn stack(cfg: &Config, screen_width: i32, screen_height: i32) -> (g: Geometry)
    ensures
        g == stack_geometry(*cfg, screen_width as int, screen_height as int),
        g.wf(),
{
    let width: i64 = screen_width as i64 - 2 * (cfg.edge_gap as i64);
    let height: i64 = screen_height as i64 - (cfg.top_gap as i64 + cfg.edge_gap as i64);
    Geometry {
        x: cfg.edge_gap,
        y: cfg.top_gap,
        width: clamp_dim_exec(width),
        height: clamp_dim_exec(height),
    }
}

/// Compute the small preview tile.
pub fn shrink(cfg: &Config, screen_width: i32, screen_height: i32) -> (g: Geometry)
    ensures
        g == shrink_geometry(*cfg, screen_width as int, screen_height as int),
        g.wf(),
{
    let full = stack(cfg, screen_width, screen_height);
    Geometry {
        x: cfg.edge_gap,
        y: cfg.top_gap,
        width: clamp_dim_exec(full.width as i64 / 4),
        height: clamp_dim_exec(full.height as i64 / 4),
    }
}

/// Compute the placement of a newly mapped window: new windows open as
/// the main tile, not shrunk.
pub fn initial_placement(cfg: &Config, screen_width: i32, screen_height: i32) -> (g: Geometry)
    ensures
        g == stack_geometry(*cfg, screen_width as int, screen_height as int),
        g.wf(),
{
    stack(cfg, screen_width, screen_height)
}

/// Compute a drag-move step.
pub fn move_win(
    attr: &Geometry,
    start_x_root: i32,
    start_y_root: i32,
    x_root: i32,
    y_root: i32,
) -> (g: Geometry)
    ensures
        g == moved_geometry(
            *attr,
            start_x_root as int,
            start_y_root as int,
            x_root as int,
            y_root as int,
        ),
        g.wf(),
{
    let dx: i64 = x_root as i64 - start_x_root as i64;
    let dy: i64 = y_root as i64 - start_y_root as i64;
    Geometry {
        x: clamp_coord_exec(attr.x as i64 + dx),
        y: clamp_coord_exec(attr.y as i64 + dy),
        width: clamp_dim_exec(attr.width as i64),
        height: clamp_dim_exec(attr.height as i64),
    }
}

/// Compute a drag-resize step.
pub fn resize_win(
    attr: &Geometry,
    start_x_root: i32,
    start_y_root: i32,
    x_root: i32,
    y_root: i32,
) -> (g: Geometry)
    ensures
        g == resized_geometry(
            *attr,
            start_x_root as int,
            start_y_root as int,
            x_root as int,
            y_root as int,
        ),
        g.wf(),
{
    let dx: i64 = x_root as i64 - start_x_root as i64;
    let dy: i64 = y_root as i64 - start_y_root as i64;
    Geometry {
        x: attr.x,
        y: attr.y,
        width: clamp_dim_exec(attr.width as i64 + dx),
        height: clamp_dim_exec(attr.height as i64 + dy),
    }
}

/// A move never changes a well-formed window's size, and a resize never
/// changes its position, whatever the pointer did.
pub proof fn lemma_move_resize_invariance(
    attr: Geometry,
    start_x_root: int,
    start_y_root: int,
    x_root: int,
    y_root: int,
)
    requires
        attr.wf(),
    ensures
        moved_geometry(attr, start_x_root, start_y_root, x_root, y_root).width == attr.width,
        moved_geometry(attr, start_x_root, start_y_root, x_root, y_root).height == attr.height,
        resized_geometry(attr, start_x_root, start_y_root, x_root, y_root).x == attr.x,
        resized_geometry(attr, start_x_root, start_y_root, x_root, y_root).y == attr.y,
{
}

/// A resize that would drive a side to zero or below clamps that side to
/// one pixel.
pub proof fn lemma_resize_clamps_to_one(
    attr: Geometry,
    start_x_root: int,
    start_y_root: int,
    x_root: int,
    y_root: int,
)
    ensures
        attr.width + (x_root - start_x_root) <= 0 ==> resized_geometry(
            attr,
            start_x_root,
            start_y_root,
            x_root,
            y_root,
        ).width == 1,
        attr.height + (y_root - start_y_root) <= 0 ==> resized_geometry(
            attr,
            start_x_root,
            start_y_root,
            x_root,
            y_root,
        ).height == 1,
{
}

} // verus!
