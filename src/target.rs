use vstd::prelude::*;

verus! {

/// The pixel size of an offscreen render target.
#[derive(Clone, Copy, Debug, PartialEq, Eq, Structural)]
pub struct RenderTarget {
    pub width: i32,
    pub height: i32,
}

/// Half of an extent, rounded down, and never below one pixel.
pub open spec fn halved(d: int) -> int {
    if d / 2 >= 1 {
        d / 2
    } else {
        1
    }
}

/// The extent of chain level `level`: level 0 is the viewport itself, each
/// further level halves the previous one.
pub open spec fn level_extent(d: int, level: nat) -> int
    decreases level,
{
    if level == 0 {
        d
    } else {
        halved(level_extent(d, (level - 1) as nat))
    }
}

pub open spec fn level_target(width: i32, height: i32, level: nat) -> RenderTarget {
    RenderTarget {
        width: level_extent(width as int, level) as i32,
        height: level_extent(height as int, level) as i32,
    }
}

/// The chain of `n + 1` targets of a multi-resolution blur.
pub open spec fn chain_targets(width: i32, height: i32, n: nat) -> Seq<RenderTarget> {
    Seq::new(n + 1, |i: int| level_target(width, height, i as nat))
}

/// A target of the full viewport size.
pub open spec fn full_target(width: i32, height: i32) -> RenderTarget {
    RenderTarget { width, height }
}

fn halve(d: i32) -> (r: i32)
    ensures
        r as int == halved(d as int),
{
    if d / 2 >= 1 {
        d / 2
    } else {
        1
    }
}

/// Allocates the sizes of the `n + 1` levels of a halving chain.
pub fn kawase_chain(width: i32, height: i32, n: usize) -> (r: Vec<RenderTarget>)
    requires
        n < usize::MAX,
    ensures
        r@ == chain_targets(width, height, n as nat),
{
    let mut r: Vec<RenderTarget> = Vec::new();
    let mut w: i32 = width;
    let mut h: i32 = height;
    let mut i: usize = 0;
    while i <= n
        invariant
            i <= n + 1,
            n < usize::MAX,
            w as int == level_extent(width as int, i as nat),
            h as int == level_extent(height as int, i as nat),
            r@ =~= chain_targets(width, height, n as nat).subrange(0, i as int),
        decreases n + 1 - i,
    {
        r.push(RenderTarget { width: w, height: h });
        w = halve(w);
        h = halve(h);
        i = i + 1;
    }
    r
}

} // verus!
