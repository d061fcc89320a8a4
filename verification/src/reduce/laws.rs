//! What holds of the fused broadcasted reduction as a whole.

use crate::reduce::expr::{Argument, AxisSize, Builtin, Expr, Launch, UnitPosition};
use crate::reduce::fuse::{FuseType, MultiBlockPos};
use crate::reduce::kernel::{
    blocks_ops, init_ops, kernel_ops, share_ops, workers_of, ElemwiseFuseBlock, KernelOp,
    ReduceFuseBlock,
};
use crate::reduce::workers::{elementwise_loop, lemma_steps, row_expr, steps, Workers};
use cubecl::ir::ElemType;
use cubek::reduce::routines::GlobalReduceBlueprint;
use vstd::arithmetic::div_mod::{lemma_fundamental_div_mod, lemma_fundamental_div_mod_converse};
use vstd::prelude::*;

verus! {

/// The kinds of numbers that a precision can be one of.
pub enum NumberKind {
    Float,
    Signed,
    Unsigned,
}

/// The kind of numbers that have the precision.
pub open spec fn kind(precision: FuseType) -> NumberKind {
    match precision {
        FuseType::F64 | FuseType::F32 | FuseType::Flex32 | FuseType::F16 | FuseType::BF16 => {
            NumberKind::Float
        },
        FuseType::I64 | FuseType::I32 | FuseType::I16 | FuseType::I8 => NumberKind::Signed,
        FuseType::U64 | FuseType::U32 | FuseType::U16 | FuseType::U8 => NumberKind::Unsigned,
    }
}

/// How many bits a number of the precision may take.
pub open spec fn bits(precision: FuseType) -> int {
    match precision {
        FuseType::F64 | FuseType::I64 | FuseType::U64 => 64,
        FuseType::F32 | FuseType::Flex32 | FuseType::I32 | FuseType::U32 => 32,
        FuseType::F16 | FuseType::BF16 | FuseType::I16 | FuseType::U16 => 16,
        FuseType::I8 | FuseType::U8 => 8,
    }
}

/// What is accumulated is of the kind of what is reduced, takes as many bits or 32 where those
/// are fewer, and is accumulated in turn as it is.
pub proof fn law_accumulator_precision(precision: FuseType)
    ensures
        kind(precision.accumulator()) == kind(precision),
        bits(precision.accumulator()) == if bits(precision) < 32 {
            32
        } else {
            bits(precision)
        },
        precision.accumulator().accumulator() == precision.accumulator(),
{
}

/// Expressions compute with whole numbers: a sum is the sum of its parts, a product their product,
/// and a quotient their quotient, rounded down.
pub proof fn law_expressions_compute(
    a: Expr,
    b: Expr,
    launch: Launch,
    unit: UnitPosition,
    step: int,
)
    ensures
        Expr::Sum(Box::new(a), Box::new(b)).eval(launch, unit, step) == a.eval(
            launch,
            unit,
            step,
        ) + b.eval(launch, unit, step),
        Expr::Product(Box::new(a), Box::new(b)).eval(launch, unit, step) == a.eval(
            launch,
            unit,
            step,
        ) * b.eval(launch, unit, step),
        a.eval(launch, unit, step) >= 0 && b.eval(launch, unit, step) > 0 ==> {
            let quotient = Expr::Quotient(Box::new(a), Box::new(b)).eval(launch, unit, step);
            quotient * b.eval(launch, unit, step) <= a.eval(launch, unit, step) < (quotient + 1)
                * b.eval(launch, unit, step)
        },
{
    let (x, y) = (a.eval(launch, unit, step), b.eval(launch, unit, step));
    if x >= 0 && y > 0 {
        lemma_fundamental_div_mod(x, y);
        assert((x / y) * y <= x < (x / y + 1) * y) by (nonlinear_arith)
            requires
                x == y * (x / y) + x % y,
                0 <= x % y < y,
        ;
    }
}

/// Expressions read what they name: a constant itself, an argument of the launch, an axis of the
/// input of a block, the counter of the loop, or the place of the unit.
pub proof fn law_expressions_read(
    value: usize,
    argument: Argument,
    size: AxisSize,
    launch: Launch,
    unit: UnitPosition,
    step: int,
)
    ensures
        Expr::Constant(value).eval(launch, unit, step) == value,
        Expr::Argument(argument).eval(launch, unit, step)
            == launch.arguments@[argument.position as int],
        Expr::AxisSize(size).eval(launch, unit, step)
            == launch.shapes@[size.block as int]@[launch.arguments@[size.axis.position as int]
            as int],
        Expr::Step.eval(launch, unit, step) == step,
        Expr::Builtin(Builtin::AbsolutePos).eval(launch, unit, step) == unit.absolute_pos,
        Expr::Builtin(Builtin::CubePos).eval(launch, unit, step) == unit.cube_pos,
        Expr::Builtin(Builtin::UnitPos).eval(launch, unit, step) == unit.unit_pos,
        Expr::Builtin(Builtin::UnitPosX).eval(launch, unit, step) == unit.unit_pos_x,
        Expr::Builtin(Builtin::UnitPosY).eval(launch, unit, step) == unit.unit_pos_y,
        Expr::Builtin(Builtin::CubeDim).eval(launch, unit, step) == unit.cube_dim,
        Expr::Builtin(Builtin::CubeDimX).eval(launch, unit, step) == unit.cube_dim_x,
        Expr::Builtin(Builtin::CubeDimY).eval(launch, unit, step) == unit.cube_dim_y,
{
}

/// An expression is computed wherever its parts are, what it reads is there, and its value can be
/// held.
pub proof fn law_expressions_are_computed(
    a: Expr,
    b: Expr,
    argument: Argument,
    size: AxisSize,
    builtin: Builtin,
    launch: Launch,
    unit: UnitPosition,
    step: int,
)
    ensures
        Expr::Builtin(builtin).computes(launch, unit, step),
        0 <= step <= usize::MAX <==> Expr::Step.computes(launch, unit, step),
        argument.position < launch.arguments@.len() <==> Expr::Argument(argument).computes(
            launch,
            unit,
            step,
        ),
        Expr::AxisSize(size).computes(launch, unit, step) <==> size.axis.position
            < launch.arguments@.len() && size.block < launch.shapes@.len()
            && launch.arguments@[size.axis.position as int] < launch.shapes@[size.block as int]@.len(),
        a.computes(launch, unit, step) && b.computes(launch, unit, step) ==> {
            let (x, y) = (a.eval(launch, unit, step), b.eval(launch, unit, step));
            &&& x + y <= usize::MAX ==> Expr::Sum(Box::new(a), Box::new(b)).computes(
                launch,
                unit,
                step,
            )
            &&& x * y <= usize::MAX ==> Expr::Product(Box::new(a), Box::new(b)).computes(
                launch,
                unit,
                step,
            )
            &&& y > 0 ==> Expr::Quotient(Box::new(a), Box::new(b)).computes(launch, unit, step)
        },
{
}

/// The axis that the last block reduces.
pub open spec fn last_axis(reduce_axis: Argument, blocks: Seq<ReduceFuseBlock>) -> AxisSize {
    AxisSize { block: (blocks.len() - 1) as usize, axis: reduce_axis }
}

/// The vectors that a unit with such a share takes, of `rows` rows of `num_iter` vectors each
/// that are laid out one after the other. A unit past the last row takes none.
pub open spec fn taken(row: int, lane: int, stride: int, rows: int, num_iter: int) -> Seq<int> {
    if row < rows {
        Seq::new(
            steps(lane, num_iter, stride),
            |k: int| row * num_iter + (lane + k * stride),
        )
    } else {
        seq![]
    }
}

/// A unit takes the vectors of its row that are a whole number of strides from its lane.
proof fn lemma_taken(row: int, lane: int, stride: int, rows: int, num_iter: int, t: int)
    requires
        0 <= row,
        0 <= lane < stride,
        0 < num_iter,
        0 <= t,
    ensures
        taken(row, lane, stride, rows, num_iter).contains(t) <==> row < rows && t / num_iter == row
            && (t % num_iter) % stride == lane,
{
    let all = taken(row, lane, stride, rows, num_iter);
    if all.contains(t) {
        let k = choose|k: int| 0 <= k < all.len() && all[k] == t;
        let i = lane + k * stride;
        lemma_steps(lane, num_iter, stride, k);
        assert(k * stride >= 0) by (nonlinear_arith)
            requires
                k >= 0,
                stride > 0,
        ;
        lemma_fundamental_div_mod_converse(t, num_iter, row, i);
        lemma_fundamental_div_mod_converse(i, stride, k, lane);
    }
    if row < rows && t / num_iter == row && (t % num_iter) % stride == lane {
        let i = t % num_iter;
        let k = i / stride;
        lemma_fundamental_div_mod(t, num_iter);
        lemma_fundamental_div_mod(i, stride);
        assert(0 <= i < num_iter);
        assert(k >= 0) by (nonlinear_arith)
            requires
                i >= 0,
                stride > 0,
                k == i / stride,
        ;
        assert(k * stride == stride * k) by (nonlinear_arith);
        assert(row * num_iter == num_iter * row) by (nonlinear_arith);
        lemma_steps(lane, num_iter, stride, k);
        assert(all[k] == t);
    }
}

proof fn lemma_unit_totalcovered(unit: UnitPosition, rows: int, num_iter: int, t: int)
    requires
        0 <= rows,
        0 <= t < rows * num_iter,
    ensures
        taken(
            unit.row(Workers::Unit),
            unit.lane(Workers::Unit),
            unit.stride(Workers::Unit),
            rows,
            num_iter,
        ).contains(t) <==> unit.absolute_pos == t / num_iter,
        0 <= t / num_iter < rows,
{
    lemma_row_of(rows, num_iter, t);
    lemma_taken(unit.absolute_pos as int, 0, 1, rows, num_iter, t);
}

proof fn lemma_plane_totalcovered(
    unit: UnitPosition,
    cubes: int,
    rows: int,
    num_iter: int,
    t: int,
)
    requires
        unit.unit_pos_x < unit.cube_dim_x,
        unit.unit_pos_y < unit.cube_dim_y,
        rows <= cubes * unit.cube_dim_y,
        0 <= rows,
        0 <= t < rows * num_iter,
    ensures
        taken(
            unit.row(Workers::Plane),
            unit.lane(Workers::Plane),
            unit.stride(Workers::Plane),
            rows,
            num_iter,
        ).contains(t) <==> unit.cube_pos == t / num_iter / (unit.cube_dim_y as int)
            && unit.unit_pos_y == t / num_iter % unit.cube_dim_y as int && unit.unit_pos_x
            == t % num_iter % unit.cube_dim_x as int,
        0 <= t / num_iter / (unit.cube_dim_y as int) < cubes,
        0 <= t / num_iter % (unit.cube_dim_y as int) < unit.cube_dim_y,
        0 <= t % num_iter % (unit.cube_dim_x as int) < unit.cube_dim_x,
{
    let row = t / num_iter;
    let dim = unit.cube_dim_y as int;
    let (cube, plane) = (unit.cube_pos as int, unit.unit_pos_y as int);
    lemma_row_of(rows, num_iter, t);
    assert(cube * dim >= 0) by (nonlinear_arith)
        requires
            cube >= 0,
            dim > 0,
    ;
    lemma_taken(
        unit.row(Workers::Plane),
        unit.lane(Workers::Plane),
        unit.stride(Workers::Plane),
        rows,
        num_iter,
        t,
    );
    lemma_fundamental_div_mod(row, dim);
    if cube * dim + plane == row {
        lemma_fundamental_div_mod_converse(row, dim, cube, plane);
    }
    assert(dim * (row / dim) == (row / dim) * dim) by (nonlinear_arith);
    assert(0 <= row / dim < cubes) by (nonlinear_arith)
        requires
            row == dim * (row / dim) + row % dim,
            0 <= row % dim < dim,
            0 <= row < cubes * dim,
            dim > 0,
    ;
}

proof fn lemma_cube_totalcovered(unit: UnitPosition, rows: int, num_iter: int, t: int)
    requires
        unit.unit_pos < unit.cube_dim,
        0 <= rows,
        0 <= t < rows * num_iter,
    ensures
        taken(
            unit.row(Workers::Cube),
            unit.lane(Workers::Cube),
            unit.stride(Workers::Cube),
            rows,
            num_iter,
        ).contains(t) <==> unit.cube_pos == t / num_iter && unit.unit_pos == t
            % num_iter % unit.cube_dim as int,
        0 <= t / num_iter < rows,
        0 <= t % num_iter % (unit.cube_dim as int) < unit.cube_dim,
{
    lemma_row_of(rows, num_iter, t);
    lemma_taken(
        unit.row(Workers::Cube),
        unit.lane(Workers::Cube),
        unit.stride(Workers::Cube),
        rows,
        num_iter,
        t,
    );
}

/// A vector is in one of the rows.
proof fn lemma_row_of(rows: int, num_iter: int, t: int)
    requires
        0 <= rows,
        0 <= t < rows * num_iter,
    ensures
        num_iter > 0,
        0 <= t / num_iter < rows,
{
    assert(num_iter > 0) by (nonlinear_arith)
        requires
            0 <= rows,
            0 < rows * num_iter,
    ;
    lemma_fundamental_div_mod(t, num_iter);
    let (row, i) = (t / num_iter, t % num_iter);
    assert(0 <= row < rows) by (nonlinear_arith)
        requires
            t == num_iter * row + i,
            0 <= i < num_iter,
            0 <= t < rows * num_iter,
    ;
}

proof fn lemma_no_elementwise(
    blocks: Seq<ReduceFuseBlock>,
    reduce_axis: Argument,
    out_vec_axis: Argument,
    n: int,
)
    requires
        0 <= n < blocks_ops(blocks, reduce_axis, out_vec_axis).len(),
    ensures
        !(blocks_ops(blocks, reduce_axis, out_vec_axis)[n] is Elementwise),
    decreases blocks.len(),
{
    if blocks.len() > 0 {
        let before = blocks_ops(blocks.drop_last(), reduce_axis, out_vec_axis);
        let block = blocks.last();
        if n < before.len() {
            lemma_no_elementwise(blocks.drop_last(), reduce_axis, out_vec_axis, n);
        } else if n - before.len() >= 5 {
            lemma_no_elementwise_shared(
                block.config_output.variables@,
                block.config_output.width,
                block.blueprint,
                n - before.len() - 5,
            );
        }
    }
}

proof fn lemma_no_elementwise_shared(
    keys: Seq<(MultiBlockPos, ElemType)>,
    width: usize,
    blueprint: GlobalReduceBlueprint,
    n: int,
)
    requires
        0 <= n < share_ops(keys, width, blueprint).len(),
    ensures
        !(share_ops(keys, width, blueprint)[n] is Elementwise),
    decreases keys.len(),
{
    if keys.len() > 0 && n < share_ops(keys.drop_last(), width, blueprint).len() {
        lemma_no_elementwise_shared(keys.drop_last(), width, blueprint, n);
    }
}

/// A kernel with a trailing elementwise block runs it once, as its last operation, on the workers
/// of the first block and over the axis that the last block reduced.
pub proof fn law_elementwise_comes_last(
    reduce_axis: Argument,
    out_vec_axis: Argument,
    rows: Argument,
    blocks: Seq<ReduceFuseBlock>,
    end: ElemwiseFuseBlock,
)
    requires
        blocks.len() > 0,
    ensures
        ({
            let ops = kernel_ops(reduce_axis, out_vec_axis, rows, blocks, Some(end));
            &&& ops.len() > 0
            &&& ops.last() == KernelOp::Elementwise(
                elementwise_loop(
                    workers_of(blocks[0].blueprint),
                    last_axis(reduce_axis, blocks),
                    end.config.width,
                    rows,
                ),
            )
            &&& forall|n: int|
                0 <= n < ops.len() - 1 ==> !((#[trigger] ops[n]) is Elementwise)
        }),
{
    let ops = kernel_ops(reduce_axis, out_vec_axis, rows, blocks, Some(end));
    let first = init_ops(blocks.len());
    let middle = blocks_ops(blocks, reduce_axis, out_vec_axis);
    assert forall|n: int| 0 <= n < ops.len() - 1 implies !((#[trigger] ops[n]) is Elementwise) by {
        if first.len() <= n < first.len() + middle.len() {
            lemma_no_elementwise(blocks, reduce_axis, out_vec_axis, n - first.len());
        }
    }
}

/// A kernel without a trailing elementwise block runs none.
pub proof fn law_no_elementwise_block(
    reduce_axis: Argument,
    out_vec_axis: Argument,
    rows: Argument,
    blocks: Seq<ReduceFuseBlock>,
    n: int,
)
    requires
        0 <= n < kernel_ops(reduce_axis, out_vec_axis, rows, blocks, None).len(),
    ensures
        !(kernel_ops(reduce_axis, out_vec_axis, rows, blocks, None)[n] is Elementwise),
{
    let first = init_ops(blocks.len());
    if n >= first.len() {
        lemma_no_elementwise(blocks, reduce_axis, out_vec_axis, n - first.len());
    }
}

/// The vectors that an operation writes on the unit at `unit` where it runs the elementwise
/// block. No other operation does.
pub open spec fn op_written(op: KernelOp, launch: Launch, unit: UnitPosition) -> Seq<int> {
    match op {
        KernelOp::Elementwise(code) => code.written(launch, unit),
        _ => seq![],
    }
}

/// The vectors that the last operation of a kernel writes on the unit at `unit`.
pub open spec fn end_written(
    launch: Launch,
    unit: UnitPosition,
    reduce_axis: Argument,
    out_vec_axis: Argument,
    rows: Argument,
    blocks: Seq<ReduceFuseBlock>,
    end: ElemwiseFuseBlock,
) -> Seq<int> {
    op_written(
        kernel_ops(reduce_axis, out_vec_axis, rows, blocks, Some(end)).last(),
        launch,
        unit,
    )
}

/// How many rows the elementwise block is run over.
pub open spec fn row_count(launch: Launch, rows: Argument) -> int {
    launch.arguments@[rows.position as int] as int
}

/// How many vectors of the elementwise block a row holds: as many as fit the axis that the last
/// block reduces.
pub open spec fn vectors(
    launch: Launch,
    reduce_axis: Argument,
    blocks: Seq<ReduceFuseBlock>,
    end: ElemwiseFuseBlock,
) -> int {
    let axis = launch.arguments@[reduce_axis.position as int];
    let size = launch.shapes@[(blocks.len() - 1) as usize as int]@[axis as int];
    size as int / end.config.width as int
}

proof fn lemma_row(workers: Workers, launch: Launch, unit: UnitPosition, step: int)
    ensures
        row_expr(workers).eval(launch, unit, step) == unit.row(workers),
{
    reveal_with_fuel(Expr::eval, 4);
}

/// The loop of a kernel computes the shares of the units: what it writes is a row to a worker.
pub proof fn law_loop_takes_shares(
    launch: Launch,
    unit: UnitPosition,
    workers: Workers,
    axis_size: AxisSize,
    width: usize,
    rows: Argument,
)
    ensures
        elementwise_loop(workers, axis_size, width, rows).written(launch, unit) == taken(
            unit.row(workers),
            unit.lane(workers),
            unit.stride(workers),
            launch.argument(rows) as int,
            launch.axis_size(axis_size) as int / width as int,
        ),
{
    reveal_with_fuel(Expr::eval, 5);
    let code = elementwise_loop(workers, axis_size, width, rows);
    let all = taken(
        unit.row(workers),
        unit.lane(workers),
        unit.stride(workers),
        launch.argument(rows) as int,
        launch.axis_size(axis_size) as int / width as int,
    );
    lemma_row(workers, launch, unit, 0);
    assert forall|k: int| 0 <= k < all.len() implies #[trigger] code.written(launch, unit)[k]
        == all[k] by {
        lemma_row(workers, launch, unit, unit.lane(workers) + k * unit.stride(workers));
    }
    assert(code.written(launch, unit) =~= all);
}

proof fn lemma_end_written(
    launch: Launch,
    unit: UnitPosition,
    reduce_axis: Argument,
    out_vec_axis: Argument,
    rows: Argument,
    blocks: Seq<ReduceFuseBlock>,
    end: ElemwiseFuseBlock,
)
    requires
        blocks.len() > 0,
    ensures
        end_written(launch, unit, reduce_axis, out_vec_axis, rows, blocks, end) == taken(
            unit.row(workers_of(blocks[0].blueprint)),
            unit.lane(workers_of(blocks[0].blueprint)),
            unit.stride(workers_of(blocks[0].blueprint)),
            row_count(launch, rows),
            vectors(launch, reduce_axis, blocks, end),
        ),
{
    law_elementwise_comes_last(reduce_axis, out_vec_axis, rows, blocks, end);
    law_loop_takes_shares(
        launch,
        unit,
        workers_of(blocks[0].blueprint),
        last_axis(reduce_axis, blocks),
        end.config.width,
        rows,
    );
}

/// A device runs the loop of a kernel wherever the rows and all their vectors can be numbered:
/// what the loop reads is there, and no index on the way is too large.
pub proof fn law_loop_runs(
    launch: Launch,
    unit: UnitPosition,
    workers: Workers,
    axis_size: AxisSize,
    width: usize,
    rows: Argument,
)
    requires
        rows.position < launch.arguments@.len(),
        axis_size.axis.position < launch.arguments@.len(),
        axis_size.block < launch.shapes@.len(),
        launch.arguments@[axis_size.axis.position as int]
            < launch.shapes@[axis_size.block as int]@.len(),
        width > 0,
        unit.stride(workers) > 0,
        unit.row(workers) <= usize::MAX,
        launch.argument(rows) * (launch.axis_size(axis_size) as int / width as int) <= usize::MAX,
    ensures
        elementwise_loop(workers, axis_size, width, rows).runs(launch, unit),
{
    reveal_with_fuel(Expr::eval, 5);
    reveal_with_fuel(Expr::computes, 5);
    let code = elementwise_loop(workers, axis_size, width, rows);
    let (row, count) = (unit.row(workers), launch.argument(rows) as int);
    let num_iter = launch.axis_size(axis_size) as int / width as int;
    assert(unit.cube_pos * unit.cube_dim_y >= 0) by (nonlinear_arith);
    lemma_row(workers, launch, unit, 0);
    assert(code.row.computes(launch, unit, 0));
    if row < count {
        assert forall|step: int|
            unit.lane(workers) <= step < num_iter implies #[trigger] code.index.computes(
            launch,
            unit,
            step,
        ) by {
            lemma_row(workers, launch, unit, step);
            lemma_in_row(row, step, count, num_iter);
        }
    }
}

/// A vector of one of the rows is one of all the vectors.
proof fn lemma_in_row(row: int, i: int, rows: int, num_iter: int)
    requires
        0 <= row < rows,
        0 <= i < num_iter,
    ensures
        0 <= row * num_iter <= row * num_iter + i < rows * num_iter,
{
    assert(0 <= row * num_iter <= row * num_iter + i < rows * num_iter) by (nonlinear_arith)
        requires
            0 <= row < rows,
            0 <= i < num_iter,
    ;
}

/// No unit writes a vector twice.
pub proof fn law_written_in_order(
    launch: Launch,
    unit: UnitPosition,
    reduce_axis: Argument,
    out_vec_axis: Argument,
    rows: Argument,
    blocks: Seq<ReduceFuseBlock>,
    end: ElemwiseFuseBlock,
    a: int,
    b: int,
)
    requires
        blocks.len() > 0,
        end.config.width > 0,
        unit.stride(workers_of(blocks[0].blueprint)) > 0,
        0 <= a < b < end_written(launch, unit, reduce_axis, out_vec_axis, rows, blocks, end).len(),
    ensures
        end_written(launch, unit, reduce_axis, out_vec_axis, rows, blocks, end)[a]
            < end_written(launch, unit, reduce_axis, out_vec_axis, rows, blocks, end)[b],
{
    lemma_end_written(launch, unit, reduce_axis, out_vec_axis, rows, blocks, end);
    let stride = unit.stride(workers_of(blocks[0].blueprint));
    assert(a * stride < b * stride) by (nonlinear_arith)
        requires
            a < b,
            stride > 0,
    ;
}

/// A unit writes vectors of its own row alone, and only where there is such a row.
pub proof fn law_written_within_row(
    launch: Launch,
    unit: UnitPosition,
    reduce_axis: Argument,
    out_vec_axis: Argument,
    rows: Argument,
    blocks: Seq<ReduceFuseBlock>,
    end: ElemwiseFuseBlock,
    k: int,
)
    requires
        blocks.len() > 0,
        end.config.width > 0,
        unit.stride(workers_of(blocks[0].blueprint)) > 0,
        0 <= k < end_written(launch, unit, reduce_axis, out_vec_axis, rows, blocks, end).len(),
    ensures
        ({
            let row = unit.row(workers_of(blocks[0].blueprint));
            let count = row_count(launch, rows);
            let num_iter = vectors(launch, reduce_axis, blocks, end);
            &&& row < count
            &&& row * num_iter <= end_written(
                launch,
                unit,
                reduce_axis,
                out_vec_axis,
                rows,
                blocks,
                end,
            )[k] < (row + 1) * num_iter <= count * num_iter
        }),
{
    lemma_end_written(launch, unit, reduce_axis, out_vec_axis, rows, blocks, end);
    let workers = workers_of(blocks[0].blueprint);
    let (row, lane, stride) = (unit.row(workers), unit.lane(workers), unit.stride(workers));
    let num_iter = vectors(launch, reduce_axis, blocks, end);
    let count = row_count(launch, rows);
    lemma_steps(lane, num_iter, stride, k);
    assert(k * stride >= 0) by (nonlinear_arith)
        requires
            k >= 0,
            stride > 0,
    ;
    assert((row + 1) * num_iter == row * num_iter + num_iter) by (nonlinear_arith);
    assert((row + 1) * num_iter <= count * num_iter) by (nonlinear_arith)
        requires
            row < count,
            num_iter > 0,
    ;
}

/// Where the first block gives a row to a unit, every vector of every row is written by one unit:
/// that of its row.
pub proof fn law_unit_totalcovered(
    launch: Launch,
    unit: UnitPosition,
    reduce_axis: Argument,
    out_vec_axis: Argument,
    rows: Argument,
    blocks: Seq<ReduceFuseBlock>,
    end: ElemwiseFuseBlock,
    t: int,
)
    requires
        blocks.len() > 0,
        blocks[0].blueprint is Unit,
        end.config.width > 0,
        0 <= t < row_count(launch, rows) * vectors(launch, reduce_axis, blocks, end),
    ensures
        ({
            let num_iter = vectors(launch, reduce_axis, blocks, end);
            &&& 0 <= t / num_iter < row_count(launch, rows)
            &&& end_written(launch, unit, reduce_axis, out_vec_axis, rows, blocks, end).contains(t)
                <==> unit.absolute_pos == t / num_iter
        }),
{
    lemma_end_written(launch, unit, reduce_axis, out_vec_axis, rows, blocks, end);
    lemma_unit_totalcovered(
        unit,
        row_count(launch, rows),
        vectors(launch, reduce_axis, blocks, end),
        t,
    );
}

/// Where the first block gives a row to a plane, on cubes of `cube_dim_y` planes of `cube_dim_x`
/// lanes, every vector of every row is written by one unit: that of one lane of the plane of its
/// row. Where there are planes enough for the rows, the unit is among those that were launched.
pub proof fn law_plane_totalcovered(
    launch: Launch,
    unit: UnitPosition,
    reduce_axis: Argument,
    out_vec_axis: Argument,
    rows: Argument,
    blocks: Seq<ReduceFuseBlock>,
    end: ElemwiseFuseBlock,
    cubes: int,
    t: int,
)
    requires
        blocks.len() > 0,
        blocks[0].blueprint is Plane,
        end.config.width > 0,
        unit.unit_pos_x < unit.cube_dim_x,
        unit.unit_pos_y < unit.cube_dim_y,
        row_count(launch, rows) <= cubes * unit.cube_dim_y,
        0 <= t < row_count(launch, rows) * vectors(launch, reduce_axis, blocks, end),
    ensures
        ({
            let num_iter = vectors(launch, reduce_axis, blocks, end);
            let cube = t / num_iter / (unit.cube_dim_y as int);
            let plane = t / num_iter % (unit.cube_dim_y as int);
            let lane = t % num_iter % (unit.cube_dim_x as int);
            &&& 0 <= cube < cubes
            &&& 0 <= plane < unit.cube_dim_y
            &&& 0 <= lane < unit.cube_dim_x
            &&& end_written(launch, unit, reduce_axis, out_vec_axis, rows, blocks, end).contains(t)
                <==> unit.cube_pos == cube && unit.unit_pos_y == plane && unit.unit_pos_x == lane
        }),
{
    lemma_end_written(launch, unit, reduce_axis, out_vec_axis, rows, blocks, end);
    lemma_plane_totalcovered(
        unit,
        cubes,
        row_count(launch, rows),
        vectors(launch, reduce_axis, blocks, end),
        t,
    );
}

/// Where the first block gives a row to a cube of `cube_dim` units, every vector of every row is
/// written by one unit: that of one place in the cube of its row.
pub proof fn law_cube_totalcovered(
    launch: Launch,
    unit: UnitPosition,
    reduce_axis: Argument,
    out_vec_axis: Argument,
    rows: Argument,
    blocks: Seq<ReduceFuseBlock>,
    end: ElemwiseFuseBlock,
    t: int,
)
    requires
        blocks.len() > 0,
        blocks[0].blueprint is Cube,
        end.config.width > 0,
        unit.unit_pos < unit.cube_dim,
        0 <= t < row_count(launch, rows) * vectors(launch, reduce_axis, blocks, end),
    ensures
        ({
            let num_iter = vectors(launch, reduce_axis, blocks, end);
            let place = t % num_iter % (unit.cube_dim as int);
            &&& 0 <= t / num_iter < row_count(launch, rows)
            &&& 0 <= place < unit.cube_dim
            &&& end_written(launch, unit, reduce_axis, out_vec_axis, rows, blocks, end).contains(t)
                <==> unit.cube_pos == t / num_iter && unit.unit_pos == place
        }),
{
    lemma_end_written(launch, unit, reduce_axis, out_vec_axis, rows, blocks, end);
    lemma_cube_totalcovered(
        unit,
        row_count(launch, rows),
        vectors(launch, reduce_axis, blocks, end),
        t,
    );
}

/// Whether the unit at `i` is the one at `lane` of the worker of `row`.
pub open spec fn stands_at(
    units: Seq<UnitPosition>,
    workers: Workers,
    i: int,
    row: int,
    lane: int,
) -> bool {
    0 <= i < units.len() && units[i].row(workers) == row && units[i].lane(workers) == lane
}

/// Whether some unit is the one at `lane` of the worker of `row`.
pub open spec fn has_unit(
    units: Seq<UnitPosition>,
    workers: Workers,
    row: int,
    lane: int,
) -> bool {
    exists|i: int| stands_at(units, workers, i, row, lane)
}

/// Whether `units` are the units of `count` workers, each of `stride` units: every place of every
/// worker is taken once, and there are no others.
pub open spec fn launched(
    units: Seq<UnitPosition>,
    workers: Workers,
    count: int,
    stride: int,
) -> bool {
    &&& forall|i: int|
        0 <= i < units.len() ==> {
            &&& 0 <= (#[trigger] units[i]).row(workers) < count
            &&& 0 <= units[i].lane(workers) < stride
            &&& units[i].stride(workers) == stride
        }
    &&& forall|i: int, j: int|
        0 <= i < units.len() && 0 <= j < units.len() && (#[trigger] units[i]).row(workers) == (
        #[trigger] units[j]).row(workers) && units[i].lane(workers) == units[j].lane(workers) ==> i
            == j
    &&& forall|row: int, lane: int|
        0 <= row < count && 0 <= lane < stride ==> #[trigger] has_unit(units, workers, row, lane)
}

/// Whether the last operation of a kernel writes the vector at `t` on the unit at `unit`.
pub open spec fn writes(
    launch: Launch,
    unit: UnitPosition,
    reduce_axis: Argument,
    out_vec_axis: Argument,
    rows: Argument,
    blocks: Seq<ReduceFuseBlock>,
    end: ElemwiseFuseBlock,
    t: int,
) -> bool {
    end_written(launch, unit, reduce_axis, out_vec_axis, rows, blocks, end).contains(t)
}

proof fn lemma_writes(
    launch: Launch,
    unit: UnitPosition,
    reduce_axis: Argument,
    out_vec_axis: Argument,
    rows: Argument,
    blocks: Seq<ReduceFuseBlock>,
    end: ElemwiseFuseBlock,
    t: int,
)
    requires
        blocks.len() > 0,
        end.config.width > 0,
        0 <= unit.row(workers_of(blocks[0].blueprint)),
        0 <= unit.lane(workers_of(blocks[0].blueprint)) < unit.stride(
            workers_of(blocks[0].blueprint),
        ),
    ensures
        ({
            let workers = workers_of(blocks[0].blueprint);
            let total = row_count(launch, rows);
            let num_iter = vectors(launch, reduce_axis, blocks, end);
            writes(launch, unit, reduce_axis, out_vec_axis, rows, blocks, end, t) <==> {
                &&& 0 <= t < total * num_iter
                &&& t / num_iter == unit.row(workers)
                &&& t % num_iter % unit.stride(workers) == unit.lane(workers)
            }
        }),
{
    let workers = workers_of(blocks[0].blueprint);
    let (row, lane, stride) = (unit.row(workers), unit.lane(workers), unit.stride(workers));
    let total = row_count(launch, rows);
    let num_iter = vectors(launch, reduce_axis, blocks, end);
    let all = end_written(launch, unit, reduce_axis, out_vec_axis, rows, blocks, end);
    lemma_end_written(launch, unit, reduce_axis, out_vec_axis, rows, blocks, end);
    if all.contains(t) {
        let k = all.index_of(t);
        law_written_within_row(
            launch,
            unit,
            reduce_axis,
            out_vec_axis,
            rows,
            blocks,
            end,
            k,
        );
        assert(num_iter > 0 && row * num_iter >= 0) by (nonlinear_arith)
            requires
                row >= 0,
                row * num_iter < (row + 1) * num_iter,
        ;
        lemma_taken(row, lane, stride, total, num_iter, t);
    }
    if 0 <= t < total * num_iter {
        lemma_row_of(total, num_iter, t);
        lemma_taken(row, lane, stride, total, num_iter, t);
    }
}

/// With a worker or more for each row, the vectors written over a whole launch are those of every
/// row and no others, and each is written once: by one unit, at one step. It holds whichever
/// workers share a row and however many of them are left over.
pub proof fn law_launch_writes_every_vector_once(
    launch: Launch,
    units: Seq<UnitPosition>,
    count: int,
    stride: int,
    reduce_axis: Argument,
    out_vec_axis: Argument,
    rows: Argument,
    blocks: Seq<ReduceFuseBlock>,
    end: ElemwiseFuseBlock,
    t: int,
)
    requires
        blocks.len() > 0,
        end.config.width > 0,
        stride > 0,
        launched(units, workers_of(blocks[0].blueprint), count, stride),
        row_count(launch, rows) <= count,
    ensures
        (exists|i: int|
            0 <= i < units.len() && #[trigger] writes(
                launch,
                units[i],
                reduce_axis,
                out_vec_axis,
                rows,
                blocks,
                end,
                t,
            )) <==> 0 <= t < row_count(launch, rows) * vectors(launch, reduce_axis, blocks, end),
        forall|i: int, j: int|
            0 <= i < units.len() && 0 <= j < units.len() && #[trigger] writes(
                launch,
                units[i],
                reduce_axis,
                out_vec_axis,
                rows,
                blocks,
                end,
                t,
            ) && #[trigger] writes(
                launch,
                units[j],
                reduce_axis,
                out_vec_axis,
                rows,
                blocks,
                end,
                t,
            ) ==> i == j,
        forall|i: int|
            0 <= i < units.len() ==> (#[trigger] end_written(
                launch,
                units[i],
                reduce_axis,
                out_vec_axis,
                rows,
                blocks,
                end,
            )).no_duplicates(),
{
    let workers = workers_of(blocks[0].blueprint);
    let total = row_count(launch, rows);
    let num_iter = vectors(launch, reduce_axis, blocks, end);
    assert forall|i: int| 0 <= i < units.len() implies (#[trigger] writes(
        launch,
        units[i],
        reduce_axis,
        out_vec_axis,
        rows,
        blocks,
        end,
        t,
    ) <==> {
        &&& 0 <= t < total * num_iter
        &&& t / num_iter == units[i].row(workers)
        &&& t % num_iter % stride == units[i].lane(workers)
    }) by {
        lemma_writes(launch, units[i], reduce_axis, out_vec_axis, rows, blocks, end, t);
    }
    if 0 <= t < total * num_iter {
        lemma_row_of(total, num_iter, t);
        let (row, lane) = (t / num_iter, t % num_iter % stride);
        assert(has_unit(units, workers, row, lane));
        let i = choose|i: int| stands_at(units, workers, i, row, lane);
        assert(writes(launch, units[i], reduce_axis, out_vec_axis, rows, blocks, end, t));
    }
    assert forall|i: int| 0 <= i < units.len() implies (#[trigger] end_written(
        launch,
        units[i],
        reduce_axis,
        out_vec_axis,
        rows,
        blocks,
        end,
    )).no_duplicates() by {
        let all = end_written(launch, units[i], reduce_axis, out_vec_axis, rows, blocks, end);
        assert forall|a: int, b: int| 0 <= a < b < all.len() implies all[a] < all[b] by {
            law_written_in_order(
                launch,
                units[i],
                reduce_axis,
                out_vec_axis,
                rows,
                blocks,
                end,
                a,
                b,
            );
        }
    }
}

} // verus!
