//! The tiling engine: a pure pass from (screen size, ordered window list) to
//! updated geometries, in the fixed master-stack layout.
//!
//! The window at index 0 is the master. With a single window the master
//! fills the screen; with two or more it takes the left strip of width
//! `floor(screen.width * 6 / 10)` at full height, and the remaining windows
//! are stacked top to bottom in the right strip, each of height
//! `floor(screen.height / (n - 1))`. The division truncates; the lost rows at
//! the bottom are accepted, not redistributed.

use vstd::prelude::*;
use vstd::arithmetic::div_mod::lemma_fundamental_div_mod;
use vstd::arithmetic::div_mod::lemma_mod_bound;
use crate::geometry::Command;
use crate::geometry::ConfigureRequest;
use crate::geometry::ScreenGeometry;
use crate::geometry::WindowData;

verus! {

/// Width of the master window when it shares the screen: 60 percent of the
/// screen width, rounded down.
pub open spec fn master_width(screen: ScreenGeometry) -> int {
    screen.width * 6 / 10
}

/// Height of each stack window when `n >= 2` windows are tracked.
pub open spec fn stack_height(screen: ScreenGeometry, n: int) -> int {
    screen.height as int / (n - 1)
}

/// The rectangle `(x, y, width, height)` that the tile pass assigns to the
/// window at position `i` out of `n` tracked windows.
pub open spec fn tile_rect(screen: ScreenGeometry, n: int, i: int) -> (int, int, int, int) {
    let sw = screen.width as int;
    let sh = screen.height as int;
    if n == 1 {
        (0, 0, sw, sh)
    } else if i == 0 {
        (0, 0, master_width(screen), sh)
    } else {
        (
            master_width(screen),
            (i - 1) * stack_height(screen, n),
            sw - master_width(screen),
            stack_height(screen, n),
        )
    }
}

/// The window at position `i` out of `n` after a tile pass: same id, the
/// geometry of `tile_rect`.
pub open spec fn tiled_window(screen: ScreenGeometry, w: WindowData, n: int, i: int) -> WindowData {
    let r = tile_rect(screen, n, i);
    WindowData { window: w.window, x: r.0 as i32, y: r.1 as i32, w: r.2 as u32, h: r.3 as u32 }
}

/// The whole registry after a tile pass over `s`.
pub open spec fn tiled_windows(screen: ScreenGeometry, s: Seq<WindowData>) -> Seq<WindowData> {
    Seq::new(s.len(), |i: int| tiled_window(screen, s[i], s.len() as int, i))
}

/// The geometry-change commands a tile pass over `s` emits, master first,
/// then the stack top to bottom: one per window, in index order.
pub open spec fn tile_commands(screen: ScreenGeometry, s: Seq<WindowData>) -> Seq<Command> {
    Seq::new(s.len(), |i: int| {
        let w = tiled_window(screen, s[i], s.len() as int, i);
        Command::Configure(ConfigureRequest {
            window: w.window,
            x: w.x,
            y: w.y,
            width: w.w,
            height: w.h,
        })
    })
}

/// A tile pass looks only at the ids and the order of its input: two window
/// lists of the same length with the same ids tile to the same windows.
pub proof fn lemma_tiled_windows_depend_on_ids(
    screen: ScreenGeometry,
    s1: Seq<WindowData>,
    s2: Seq<WindowData>,
)
    requires
        s1.len() == s2.len(),
        forall|i: int| 0 <= i < s1.len() ==> s1[i].window == s2[i].window,
    ensures
        tiled_windows(screen, s1) == tiled_windows(screen, s2),
{
    assert(tiled_windows(screen, s1) =~= tiled_windows(screen, s2));
}

/// Every rectangle of the layout fits the screen's coordinate range:
/// offsets and extents are nonnegative and at most 65535.
pub proof fn lemma_tile_rect_bounds(screen: ScreenGeometry, n: int, i: int)
    requires
        1 <= n,
        0 <= i < n,
    ensures
        0 <= tile_rect(screen, n, i).0 <= 65535,
        0 <= tile_rect(screen, n, i).1 <= 65535,
        0 <= tile_rect(screen, n, i).2 <= 65535,
        0 <= tile_rect(screen, n, i).3 <= 65535,
{
    let sw = screen.width as int;
    let sh = screen.height as int;
    if n == 1 || i == 0 {
    } else {
        let k = n - 1;
        let q = stack_height(screen, n);
        let r = sh % k;
        lemma_fundamental_div_mod(sh, k);
        lemma_mod_bound(sh, k);
        assert(0 <= (i - 1) * q <= 65535 && 0 <= q <= 65535) by (nonlinear_arith)
            requires
                sh == k * q + r,
                0 <= r < k,
                1 <= i <= k,
                0 <= sh <= 65535,
        ;
    }
}

/// The stack partitions the screen height exactly: with `n >= 3` windows the
/// `n - 1` stack windows' heights sum to the screen height minus the rounding
/// remainder `screen.height % (n - 1)`, and no stack window has a negative
/// width or height.
pub proof fn lemma_stack_heights_cover_screen(screen: ScreenGeometry, n: int)
    requires
        n >= 3,
    ensures
        (n - 1) * stack_height(screen, n) + screen.height as int % (n - 1) == screen.height as int,
        forall|i: int| 1 <= i < n ==> #[trigger] tile_rect(screen, n, i).3 == stack_height(screen, n),
        forall|i: int| 1 <= i < n ==> #[trigger] tile_rect(screen, n, i).2 >= 0,
        stack_height(screen, n) >= 0,
{
    lemma_fundamental_div_mod(screen.height as int, n - 1);
    assert forall|i: int| 1 <= i < n implies #[trigger] tile_rect(screen, n, i).2 >= 0 by {
        lemma_tile_rect_bounds(screen, n, i);
    }
}

/// The master's width: exactly the screen width when it is the only window,
/// exactly `floor(screen.width * 6 / 10)` as soon as a second one is tracked.
pub proof fn lemma_master_width(screen: ScreenGeometry, n: int)
    requires
        1 <= n,
    ensures
        n == 1 ==> tile_rect(screen, n, 0).2 == screen.width as int,
        n >= 2 ==> tile_rect(screen, n, 0).2 == screen.width * 6 / 10,
{
}

/// One step of `tile_rect`, executably: the rectangle for window `i` of `n`.
fn tile_rect_exec(screen: &ScreenGeometry, n: usize, i: usize) -> (r: (i32, i32, u32, u32))
    requires
        1 <= n,
        i < n,
    ensures
        (r.0 as int, r.1 as int, r.2 as int, r.3 as int) == tile_rect(*screen, n as int, i as int),
{
    let sw = screen.width as u32;
    let sh = screen.height as u32;
    if n == 1 {
        (0, 0, sw, sh)
    } else {
        let mw: u32 = sw * 6 / 10;
        if i == 0 {
            (0, 0, mw, sh)
        } else {
            let nsl: usize = n - 1;
            let stack_h: u64 = (sh as u64) / (nsl as u64);
            proof {
                let shi = sh as int;
                let k = nsl as int;
                let q = stack_h as int;
                let r = shi % k;
                lemma_fundamental_div_mod(shi, k);
                lemma_mod_bound(shi, k);
                assert(0 <= (i - 1) * q <= 65535 && 0 <= q <= 65535) by (nonlinear_arith)
                    requires
                        shi == k * q + r,
                        0 <= r < k,
                        1 <= i <= k,
                        0 <= shi <= 65535,
                ;
            }
            let y: u64 = ((i - 1) as u64) * stack_h;
            (mw as i32, y as i32, sw - mw, stack_h as u32)
        }
    }
}

/// One full tile pass: recomputes every tracked window's geometry for the
/// master-stack layout and pairs it with the geometry-change commands to
/// send, master first, then the stack top to bottom. With no windows it is a
/// no-op and emits nothing.
pub fn master_tiling(screen: &ScreenGeometry, windows: &Vec<WindowData>) -> (r: (
    Vec<WindowData>,
    Vec<Command>,
))
    ensures
        r.0@ == tiled_windows(*screen, windows@),
        r.1@ == tile_commands(*screen, windows@),
{
    let n = windows.len();
    let mut out: Vec<WindowData> = Vec::new();
    let mut cmds: Vec<Command> = Vec::new();
    let mut i: usize = 0;
    while i < n
        invariant
            n == windows@.len(),
            i <= n,
            out@.len() == i,
            cmds@.len() == i,
            forall|j: int| 0 <= j < i ==> out@[j] == tiled_windows(*screen, windows@)[j],
            forall|j: int| 0 <= j < i ==> cmds@[j] == tile_commands(*screen, windows@)[j],
        decreases n - i,
    {
        let rect = tile_rect_exec(screen, n, i);
        let wd = WindowData {
            window: windows[i].window,
            x: rect.0,
            y: rect.1,
            w: rect.2,
            h: rect.3,
        };
        cmds.push(crate::geometry::update_window(&wd));
        out.push(wd);
        i += 1;
    }
    proof {
        assert(out@ =~= tiled_windows(*screen, windows@));
        assert(cmds@ =~= tile_commands(*screen, windows@));
    }
    (out, cmds)
}

} // verus!
