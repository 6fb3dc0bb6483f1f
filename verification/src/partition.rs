//! The vertical layout divides the screen among its tiles exactly.

use vstd::prelude::*;
use crate::layout::{lemma_step, vertical_place};
use crate::types::Screen;

verus! {

/// The area of the tiles before position `upto` among `count` tiles.
pub open spec fn vertical_area(screen: Screen, count: int, upto: int) -> int
    decreases upto,
{
    if upto <= 0 {
        0
    } else {
        vertical_area(screen, count, upto - 1) + vertical_place(upto - 1, screen, count).area()
    }
}

/// The rectangle of a side tile, written out in plain integers.
pub proof fn lemma_side_tile(screen: Screen, count: int, index: int)
    requires
        screen.in_range(),
        1 <= index < count,
    ensures
        ({
            let g = vertical_place(index, screen, count);
            let half = screen.width as int / 2;
            let step = screen.height as int / (count - 1);
            &&& 0 <= step
            &&& g.x == half
            &&& g.y == (index - 1) * step
            &&& g.width == screen.width - half
            &&& index < count - 1 ==> g.height == step
            &&& index == count - 1 ==> g.height == screen.height - step * (count - 2)
            &&& g.y + g.height <= screen.height
            &&& index < count - 1 ==> g.y + g.height == index * step
        }),
{
    let step = screen.height as int / (count - 1);
    lemma_step(screen.height as int, count - 1, index - 1);
    lemma_step(screen.height as int, count - 1, count - 2);
    assert((index - 1) * step + step == index * step) by (nonlinear_arith);
}

/// The area of the master and the first `k` side tiles.
proof fn lemma_area_upto(screen: Screen, count: int, k: int)
    requires
        screen.in_range(),
        count >= 2,
        0 <= k <= count - 2,
    ensures
        vertical_area(screen, count, k + 1) == (screen.width as int / 2) * screen.height + (
        screen.width - screen.width as int / 2) * ((screen.height as int / (count - 1)) * k),
    decreases k,
{
    let half = screen.width as int / 2;
    let step = screen.height as int / (count - 1);
    let rest = screen.width - half;
    if k == 0 {
        assert(vertical_area(screen, count, 1) == vertical_area(screen, count, 0) + vertical_place(
            0,
            screen,
            count,
        ).area());
        assert(vertical_area(screen, count, 0) == 0);
        assert(rest * (step * 0) == 0) by (nonlinear_arith);
    } else {
        lemma_area_upto(screen, count, k - 1);
        lemma_side_tile(screen, count, k);
        assert(vertical_place(k, screen, count).area() == rest * step);
        assert(rest * (step * (k - 1)) + rest * step == rest * (step * k)) by (nonlinear_arith);
    }
}

/// On a screen whose coordinates are in range, the tiles of the vertical
/// layout lie within the screen, no two of them share a pixel, and their
/// areas add up to the area of the screen.
pub proof fn lemma_vertical_partition(screen: Screen, count: int)
    requires
        screen.in_range(),
        count >= 1,
    ensures
        vertical_area(screen, count, count) == screen.width * screen.height,
        forall|i: int| 0 <= i < count ==> (#[trigger] vertical_place(i, screen, count)).within(screen),
        forall|i: int, j: int|
            0 <= i < j < count ==> !(#[trigger] vertical_place(i, screen, count)).overlaps(
                #[trigger] vertical_place(j, screen, count),
            ),
{
    let half = screen.width as int / 2;
    let rest = screen.width - half;
    if count == 1 {
        assert(vertical_area(screen, count, 1) == vertical_area(screen, count, 0) + vertical_place(
            0,
            screen,
            count,
        ).area());
        assert(vertical_area(screen, count, 0) == 0);
    } else {
        let step = screen.height as int / (count - 1);
        lemma_area_upto(screen, count, count - 2);
        lemma_side_tile(screen, count, count - 1);
        let last = vertical_place(count - 1, screen, count);
        assert(last.area() == rest * (screen.height - step * (count - 2)));
        assert(half * screen.height + rest * (step * (count - 2)) + rest * (screen.height - step * (
        count - 2)) == screen.width * screen.height) by (nonlinear_arith)
            requires
                rest == screen.width - half,
        ;
    }
    assert forall|i: int| 0 <= i < count implies (#[trigger] vertical_place(
        i,
        screen,
        count,
    )).within(screen) by {
        if i > 0 {
            lemma_side_tile(screen, count, i);
        }
    }
    assert forall|i: int, j: int| 0 <= i < j < count implies !(#[trigger] vertical_place(
        i,
        screen,
        count,
    )).overlaps(#[trigger] vertical_place(j, screen, count)) by {
        let a = vertical_place(i, screen, count);
        let b = vertical_place(j, screen, count);
        lemma_side_tile(screen, count, j);
        if i > 0 {
            lemma_side_tile(screen, count, i);
            let step = screen.height as int / (count - 1);
            assert(i * step <= (j - 1) * step) by (nonlinear_arith)
                requires
                    0 <= step,
                    i <= j - 1,
            ;
            assert(a.y + a.height <= b.y);
        } else {
            assert(a.x + a.width <= b.x);
        }
        assert forall|px: int, py: int| !(a.covers(px, py) && b.covers(px, py)) by {}
    }
}

} // verus!
