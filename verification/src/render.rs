//! The discrete decisions of the radiance integrator and of the render
//! driver: what a traced ray contributes for a given recursion budget, and
//! where each pixel's bytes stand in the final buffer.

use vstd::prelude::*;

verus! {

/// What tracing one ray against the scene found.
#[derive(Clone, Copy, Debug, PartialEq, Eq, Structural)]
pub enum TraceEvent {
    /// No surface lies on the ray inside the search interval.
    Miss,
    /// The nearest surface's material absorbed the ray.
    Absorbed,
    /// The nearest surface's material scattered the ray onward.
    Scattered,
}

/// What the integrator contributes for a ray, or how it continues.
#[derive(Clone, Copy, Debug, PartialEq, Eq, Structural)]
pub enum TraceAction {
    /// Contribute black.
    EmitBlack,
    /// Contribute the background gradient for the ray's direction.
    EmitBackground,
    /// Multiply in the attenuation and trace the scattered ray with the
    /// remaining budget carried by this variant.
    Recurse(i32),
}

/// The integrator's decision for a ray with `depth` budget left whose trace
/// produced `event`: an exhausted budget always yields black; a miss is shaded
/// with the background alone; an absorbed ray is black; a scattered ray is
/// traced again with one budget unit fewer.
pub open spec fn radiance_policy(depth: i32, event: TraceEvent) -> TraceAction {
    if depth <= 0 {
        TraceAction::EmitBlack
    } else {
        match event {
            TraceEvent::Miss => TraceAction::EmitBackground,
            TraceEvent::Absorbed => TraceAction::EmitBlack,
            TraceEvent::Scattered => TraceAction::Recurse((depth - 1) as i32),
        }
    }
}

/// One decision step of the radiance integrator.
pub fn radiance_step(depth: i32, event: TraceEvent) -> (r: TraceAction)
    ensures
        r == radiance_policy(depth, event),
        depth <= 0 ==> r == TraceAction::EmitBlack,
        r matches TraceAction::Recurse(d) ==> 0 <= d < depth,
{
    if depth <= 0 {
        TraceAction::EmitBlack
    } else {
        match event {
            TraceEvent::Miss => TraceAction::EmitBackground,
            TraceEvent::Absorbed => TraceAction::EmitBlack,
            TraceEvent::Scattered => TraceAction::Recurse(depth - 1),
        }
    }
}

/// An exhausted recursion budget contributes exactly black, whatever the
/// trace found — scene content never enters the decision.
pub proof fn lemma_exhausted_budget_is_black(depth: i32, event: TraceEvent)
    requires
        depth <= 0,
    ensures
        radiance_policy(depth, event) == TraceAction::EmitBlack,
{
}

/// A ray that misses every surface is shaded with the background gradient
/// alone: no material decision is consulted.
pub proof fn lemma_miss_is_background(depth: i32)
    requires
        depth > 0,
    ensures
        radiance_policy(depth, TraceEvent::Miss) == TraceAction::EmitBackground,
{
}

/// Whenever the policy continues, the remaining budget is strictly smaller
/// and never negative, so a trace that follows the policy takes at most
/// `depth` steps.
pub proof fn lemma_budget_strictly_decreases(depth: i32, event: TraceEvent)
    ensures
        radiance_policy(depth, event) matches TraceAction::Recurse(d) ==> 0 <= d < depth,
{
}

/// A byte index within a block of a row-major buffer stays below the start
/// of every later block.
proof fn lemma_block_index(width: int, k: int, y: int, j: int)
    requires
        0 <= k < y,
        0 <= width,
        0 <= j < 3 * width,
    ensures
        0 <= 3 * width * k + j < 3 * width * y,
{
    assert(0 <= 3 * width * k && 3 * width * k + j < 3 * width * y) by (nonlinear_arith)
        requires
            0 <= k < y && 0 <= width && 0 <= j < 3 * width,
    ;
}

/// One more row of bytes moves the buffer length up by one row's width.
proof fn lemma_row_step(width: int, y: int)
    ensures
        3 * width * (y + 1) == 3 * width * y + 3 * width,
{
    assert(3 * width * (y + 1) == 3 * width * y + 3 * width) by (nonlinear_arith);
}

/// Byte offset of the first channel of pixel (x, y) in a row-major RGB
/// buffer `width` pixels wide: position alone fixes the offset.
pub fn pixel_offset(width: usize, x: usize, y: usize) -> (r: usize)
    requires
        x < width,
        3 * (y + 1) * width <= usize::MAX,
    ensures
        r == 3 * (y * width + x),
{
    proof {
        assert(0 <= y * width && 3 * (y * width + x) < 3 * (y + 1) * width)
            by (nonlinear_arith)
            requires
                x < width && 0 <= y && 0 <= width,
        ;
    }
    3 * (y * width + x)
}

/// Concatenates per-row pixel bytes into one row-major buffer: row 0 first,
/// each row's bytes kept left to right, so however the rows were computed the
/// byte for row `y`, offset `i` stands at `y * 3 * width + i`.
pub fn assemble_rows(rows: &Vec<Vec<u8>>, width: usize) -> (r: Vec<u8>)
    requires
        forall|y: int| 0 <= y < rows@.len() ==> (#[trigger] rows@[y])@.len() == 3 * width,
        3 * width * rows@.len() <= usize::MAX,
    ensures
        r@.len() == 3 * width * rows@.len(),
        forall|y: int, i: int|
            0 <= y < rows@.len() && 0 <= i < 3 * width ==> r@[3 * width * y + i] == (
            #[trigger] rows@[y]@[i]),
        forall|x: int, y: int, ch: int|
            0 <= y < rows@.len() && 0 <= x < width && 0 <= ch < 3 ==> r@[3 * (y * width + x)
                + ch] == (#[trigger] rows@[y]@[3 * x + ch]),
{
    let mut r: Vec<u8> = Vec::new();
    let mut y: usize = 0;
    while y < rows.len()
        invariant
            0 <= y <= rows@.len(),
            forall|k: int| 0 <= k < rows@.len() ==> (#[trigger] rows@[k])@.len() == 3 * width,
            3 * width * rows@.len() <= usize::MAX,
            r@.len() == 3 * width * y,
            forall|k: int, i: int|
                0 <= k < y && 0 <= i < 3 * width ==> r@[3 * width * k + i] == (
                #[trigger] rows@[k]@[i]),
        decreases rows@.len() - y,
    {
        let row = &rows[y];
        let mut i: usize = 0;
        proof {
            assert(3 * width * (y as int) + 3 * width <= 3 * width * rows@.len())
                by (nonlinear_arith)
                requires
                    y < rows@.len() && 0 <= width,
            ;
        }
        while i < row.len()
            invariant
                0 <= i <= row@.len(),
                row@ == rows@[y as int]@,
                y < rows@.len(),
                row@.len() == 3 * width,
                r@.len() == 3 * width * y + i,
                3 * width * (y as int) + 3 * width <= 3 * width * rows@.len() <= usize::MAX,
                forall|k: int, j: int|
                    0 <= k < y && 0 <= j < 3 * width ==> r@[3 * width * k + j] == (
                    #[trigger] rows@[k]@[j]),
                forall|j: int|
                    0 <= j < i ==> r@[3 * width * (y as int) + j] == #[trigger] row@[j],
            decreases row@.len() - i,
        {
            let ghost r0 = r@;
            r.push(row[i]);
            proof {
                assert forall|k: int, j: int| 0 <= k < y && 0 <= j < 3 * width implies r@[3
                    * width * k + j] == (#[trigger] rows@[k]@[j]) by {
                    lemma_block_index(width as int, k, y as int, j);
                    assert(r0[3 * width * k + j] == rows@[k]@[j]);
                    assert(r@[3 * width * k + j] == r0[3 * width * k + j]);
                }
            }
            i += 1;
        }
        proof {
            lemma_row_step(width as int, y as int);
            assert forall|k: int, j: int| 0 <= k < y + 1 && 0 <= j < 3 * width implies r@[3
                * width * k + j] == (#[trigger] rows@[k]@[j]) by {
                if k == y {
                    assert(r@[3 * width * k + j] == row@[j]);
                } else {
                    lemma_block_index(width as int, k, y as int, j);
                }
            }
        }
        y += 1;
    }
    proof {
        assert forall|x: int, k: int, ch: int|
            0 <= k < rows@.len() && 0 <= x < width && 0 <= ch < 3 implies r@[3 * (k * width + x)
            + ch] == (#[trigger] rows@[k]@[3 * x + ch]) by {
            assert(3 * (k * width + x) + ch == 3 * width * k + (3 * x + ch) && 0 <= 3 * x + ch < 3
                * width) by (nonlinear_arith)
                requires
                    0 <= x < width && 0 <= ch < 3,
            ;
        }
    }
    r
}

} // verus!
