//! How the trailing elementwise block is spread over the units of a device.

use crate::reduce::expr::{Argument, AxisSize, Builtin, Expr, Launch, UnitPosition};
use vstd::prelude::*;

verus! {

/// Which workers share a row.
#[derive(Clone, Copy, Debug, PartialEq, Eq, Structural)]
pub enum Workers {
    /// A row to a unit.
    Unit,
    /// A row to a plane, whose lanes stride over it.
    Plane,
    /// A row to a cube, whose units stride over it.
    Cube,
}

impl UnitPosition {
    /// The row of the unit.
    pub open spec fn row(self, workers: Workers) -> int {
        match workers {
            Workers::Unit => self.absolute_pos as int,
            Workers::Plane => self.cube_pos * self.cube_dim_y + self.unit_pos_y,
            Workers::Cube => self.cube_pos as int,
        }
    }

    /// The first vector of its row that the unit takes.
    pub open spec fn lane(self, workers: Workers) -> int {
        match workers {
            Workers::Unit => 0,
            Workers::Plane => self.unit_pos_x as int,
            Workers::Cube => self.unit_pos as int,
        }
    }

    /// How many units work on a row.
    pub open spec fn stride(self, workers: Workers) -> int {
        match workers {
            Workers::Unit => 1,
            Workers::Plane => self.cube_dim_x as int,
            Workers::Cube => self.cube_dim as int,
        }
    }
}

/// The loop that runs the elementwise block on a unit. Where `row` is below `rows`, the counter
/// goes from `lane` to below `num_iter` in steps of `stride`, and the block writes the vector of
/// `width` elements at `index` each time.
#[derive(Debug, PartialEq, Eq)]
pub struct ElementwiseLoop {
    pub row: Expr,
    pub rows: Expr,
    pub lane: Expr,
    pub num_iter: Expr,
    pub stride: Expr,
    pub index: Expr,
    pub width: usize,
}

/// The row of a unit, as the unit computes it.
pub open spec fn row_expr(workers: Workers) -> Expr {
    match workers {
        Workers::Unit => Expr::Builtin(Builtin::AbsolutePos),
        Workers::Plane => Expr::Sum(
            Box::new(
                Expr::Product(
                    Box::new(Expr::Builtin(Builtin::CubePos)),
                    Box::new(Expr::Builtin(Builtin::CubeDimY)),
                ),
            ),
            Box::new(Expr::Builtin(Builtin::UnitPosY)),
        ),
        Workers::Cube => Expr::Builtin(Builtin::CubePos),
    }
}

/// How many vectors of `width` elements a row holds, as a unit computes it.
pub open spec fn num_iter_expr(axis_size: AxisSize, width: usize) -> Expr {
    Expr::Quotient(Box::new(Expr::AxisSize(axis_size)), Box::new(Expr::Constant(width)))
}

/// The loop of a block of vectors of `width` elements, over `rows` rows of the size of an axis.
pub open spec fn elementwise_loop(
    workers: Workers,
    axis_size: AxisSize,
    width: usize,
    rows: Argument,
) -> ElementwiseLoop {
    ElementwiseLoop {
        row: row_expr(workers),
        rows: Expr::Argument(rows),
        lane: match workers {
            Workers::Unit => Expr::Constant(0),
            Workers::Plane => Expr::Builtin(Builtin::UnitPosX),
            Workers::Cube => Expr::Builtin(Builtin::UnitPos),
        },
        num_iter: num_iter_expr(axis_size, width),
        stride: match workers {
            Workers::Unit => Expr::Constant(1),
            Workers::Plane => Expr::Builtin(Builtin::CubeDimX),
            Workers::Cube => Expr::Builtin(Builtin::CubeDim),
        },
        index: Expr::Sum(
            Box::new(
                Expr::Product(
                    Box::new(row_expr(workers)),
                    Box::new(num_iter_expr(axis_size, width)),
                ),
            ),
            Box::new(Expr::Step),
        ),
        width,
    }
}

fn row_code(workers: Workers) -> (row: Expr)
    ensures
        row == row_expr(workers),
{
    match workers {
        Workers::Unit => Expr::Builtin(Builtin::AbsolutePos),
        Workers::Plane => {
            let cube = Box::new(Expr::Builtin(Builtin::CubePos));
            let planes = Box::new(Expr::Builtin(Builtin::CubeDimY));
            let plane = Box::new(Expr::Builtin(Builtin::UnitPosY));
            Expr::Sum(Box::new(Expr::Product(cube, planes)), plane)
        },
        Workers::Cube => Expr::Builtin(Builtin::CubePos),
    }
}

fn num_iter_code(axis_size: AxisSize, width: usize) -> (num_iter: Expr)
    ensures
        num_iter == num_iter_expr(axis_size, width),
{
    Expr::Quotient(Box::new(Expr::AxisSize(axis_size)), Box::new(Expr::Constant(width)))
}

/// How many of the numbers `lane`, `lane + stride`, `lane + 2 * stride` and so on are below
/// `end`.
pub open spec fn steps(lane: int, end: int, stride: int) -> nat {
    if lane < end {
        ((end - lane + stride - 1) / stride) as nat
    } else {
        0
    }
}

impl ElementwiseLoop {
    /// The loop of a block of vectors of `width` elements, over `rows` rows of the size of an
    /// axis.
    pub fn new(workers: Workers, axis_size: AxisSize, width: usize, rows: Argument) -> (code: Self)
        ensures
            code == elementwise_loop(workers, axis_size, width, rows),
    {
        let (lane, stride) = match workers {
            Workers::Unit => (Expr::Constant(0), Expr::Constant(1)),
            Workers::Plane => (Expr::Builtin(Builtin::UnitPosX), Expr::Builtin(Builtin::CubeDimX)),
            Workers::Cube => (Expr::Builtin(Builtin::UnitPos), Expr::Builtin(Builtin::CubeDim)),
        };
        let start = Expr::Product(
            Box::new(row_code(workers)),
            Box::new(num_iter_code(axis_size, width)),
        );
        ElementwiseLoop {
            row: row_code(workers),
            rows: Expr::Argument(rows),
            lane,
            num_iter: num_iter_code(axis_size, width),
            stride,
            index: Expr::Sum(Box::new(start), Box::new(Expr::Step)),
            width,
        }
    }

    /// The vectors that the unit at `unit` writes, in order. A unit past the last row writes none.
    pub open spec fn written(self, launch: Launch, unit: UnitPosition) -> Seq<int> {
        let lane = self.lane.eval(launch, unit, 0);
        let num_iter = self.num_iter.eval(launch, unit, 0);
        let stride = self.stride.eval(launch, unit, 0);
        if self.row.eval(launch, unit, 0) < self.rows.eval(launch, unit, 0) {
            Seq::new(
                steps(lane, num_iter, stride),
                |k: int| self.index.eval(launch, unit, lane + k * stride),
            )
        } else {
            seq![]
        }
    }

    /// Whether a device runs the loop: it computes the bounds, takes steps forward, and computes
    /// the index of every step of a unit that has a row.
    pub open spec fn runs(self, launch: Launch, unit: UnitPosition) -> bool {
        let lane = self.lane.eval(launch, unit, 0);
        let num_iter = self.num_iter.eval(launch, unit, 0);
        &&& self.row.computes(launch, unit, 0)
        &&& self.rows.computes(launch, unit, 0)
        &&& self.lane.computes(launch, unit, 0)
        &&& self.num_iter.computes(launch, unit, 0)
        &&& self.stride.computes(launch, unit, 0)
        &&& self.stride.eval(launch, unit, 0) > 0
        &&& self.row.eval(launch, unit, 0) < self.rows.eval(launch, unit, 0) ==> forall|step: int|
            lane <= step < num_iter ==> #[trigger] self.index.computes(launch, unit, step)
    }

    /// Runs the loop as a device does on the unit at `unit`, and returns the indices of the
    /// vectors that the block writes.
    ///
    /// Workers past the last row are terminated inside the reduction on the devices that support
    /// it; the check on the row covers the ones that mask instead.
    pub fn indices(&self, launch: &Launch, unit: &UnitPosition) -> (indices: Vec<usize>)
        requires
            self.runs(*launch, *unit),
        ensures
            indices@.map_values(|index: usize| index as int) == self.written(*launch, *unit),
    {
        let row: usize = self.row.value(launch, unit, 0);
        let rows: usize = self.rows.value(launch, unit, 0);
        let lane: usize = self.lane.value(launch, unit, 0);
        let num_iter: usize = self.num_iter.value(launch, unit, 0);
        let stride: usize = self.stride.value(launch, unit, 0);
        let ghost expected = self.written(*launch, *unit);

        let mut indices: Vec<usize> = Vec::new();
        if row < rows {
            let mut i: usize = lane;
            let mut done: bool = lane >= num_iter;
            proof {
                if lane < num_iter {
                    lemma_steps(lane as int, num_iter as int, stride as int, 0);
                }
            }
            while !done
                invariant
                    stride > 0,
                    forall|step: int|
                        lane <= step < num_iter ==> #[trigger] self.index.computes(
                            *launch,
                            *unit,
                            step,
                        ),
                    expected == Seq::new(
                        steps(lane as int, num_iter as int, stride as int),
                        |k: int| self.index.eval(*launch, *unit, lane + k * stride),
                    ),
                    indices@.len() <= expected.len(),
                    done ==> indices@.len() == expected.len(),
                    !done ==> lane <= i < num_iter && i == lane + indices@.len() * stride,
                    forall|k: int|
                        0 <= k < indices@.len() ==> #[trigger] indices@[k] as int == expected[k],
                decreases expected.len() - indices@.len(),
            {
                let ghost k = indices@.len() as int;
                proof {
                    lemma_steps(lane as int, num_iter as int, stride as int, k);
                }
                indices.push(self.index.value(launch, unit, i));
                assert((k + 1) * stride == k * stride + stride) by (nonlinear_arith);
                proof {
                    lemma_steps(lane as int, num_iter as int, stride as int, k + 1);
                }
                if num_iter - i <= stride {
                    done = true;
                } else {
                    i += stride;
                }
            }
        }
        assert(indices@.map_values(|index: usize| index as int) =~= expected);
        indices
    }
}

/// The step at `k` is one of those below `end`, or there are no more than `k` of them.
pub(crate) proof fn lemma_steps(lane: int, end: int, stride: int, k: int)
    requires
        stride > 0,
        0 <= k,
    ensures
        k < steps(lane, end, stride) <==> lane + k * stride < end,
{
    let q = (end - lane + stride - 1) / stride;
    if lane < end {
        vstd::arithmetic::div_mod::lemma_fundamental_div_mod(end - lane + stride - 1, stride);
        let r = (end - lane + stride - 1) % stride;
        assert(end - lane + stride - 1 == stride * q + r);
        assert(0 <= r < stride);
        assert(q >= 0) by (nonlinear_arith)
            requires
                end - lane + stride - 1 == stride * q + r,
                r < stride,
                stride > 0,
                lane < end,
        ;
        assert(k < q <==> lane + k * stride < end) by (nonlinear_arith)
            requires
                end - lane + stride - 1 == stride * q + r,
                0 <= r < stride,
                stride > 0,
        ;
    } else {
        assert(k * stride >= 0) by (nonlinear_arith)
            requires
                k >= 0,
                stride > 0,
        ;
    }
}

} // verus!
