//! What holds of every call that lays out a kernel or runs its loop.

use crate::reduce::expr::{Argument, AxisSize, Builtin, Expr, Launch, UnitPosition};
use crate::reduce::fuse::{DeviceType, FuseArg, FuseBlockConfig, FuseType, MultiBlockPos};
use crate::reduce::kernel::{
    kernel_ops, many_ops, polyfill_ops, reduce_kernel_broadcasted, reduce_many, reduce_step,
    set_polyfill_block, share_ops, share_variables, BlockSide, ElemwiseFuseBlock, Kernel, KernelOp,
    Polyfill, ReduceFuseBlock,
};
use crate::reduce::laws::{bits, kind, law_loop_takes_shares, taken};
use crate::reduce::layout::{
    accumulates, has_precision, is_vector, is_wide, law_same_configuration, law_step_reduces,
    law_types_of_a_block, law_variables_are_shared_in_turn, law_variables_get_room_first,
    once_and_first, precision_of, reduces, set_to,
};
use crate::reduce::workers::{ElementwiseLoop, Workers};
use cubecl::ir::ElemType;
use cubek::reduce::components::instructions::ReduceOperationConfig;
use cubek::reduce::routines::GlobalReduceBlueprint;
use vstd::prelude::*;

verus! {

/// The operations that were added to a kernel, where none that it had were changed.
pub open spec fn added(before: Seq<KernelOp>, after: Seq<KernelOp>) -> Seq<KernelOp> {
    after.skip(before.len() as int)
}

/// Whether the operations that a kernel had are still its first ones.
pub open spec fn kept(before: Seq<KernelOp>, after: Seq<KernelOp>) -> bool {
    before.len() <= after.len() && after.take(before.len() as int) == before
}

proof fn lemma_added(before: Seq<KernelOp>, more: Seq<KernelOp>)
    ensures
        kept(before, before + more),
        added(before, before + more) == more,
{
    assert((before + more).take(before.len() as int) =~= before);
    assert((before + more).skip(before.len() as int) =~= more);
}

/// A precision is turned into the element that holds its numbers, into vectors of the width that is
/// asked for, and into a precision to accumulate in, of its kind and wide enough.
pub proof fn law_precisions_are_turned_into_types(
    precision: FuseType,
    width: usize,
    elem: ElemType,
    ty: DeviceType,
    acc: FuseType,
)
    requires
        call_ensures(FuseType::into_elem, (precision,), elem),
        call_ensures(FuseType::into_type, (precision, width), ty),
        call_ensures(FuseType::into_accumulator, (precision,), acc),
    ensures
        precision_of(elem) == Some(precision),
        ty.elem == elem,
        is_wide(ty, width),
        kind(acc) == kind(precision),
        bits(precision) <= 32 ==> bits(acc) == 32,
        bits(precision) > 32 ==> acc == precision,
        acc != FuseType::Flex32,
{
}

/// An argument has its own precision, a configuration lists all its variables in order behind what
/// is listed, and its clones leave them too.
pub proof fn law_blocks_keep_their_parts(
    arg: FuseArg,
    precision: FuseType,
    config: FuseBlockConfig,
    copy: FuseBlockConfig,
    keys: &mut Vec<(MultiBlockPos, ElemType)>,
)
    requires
        call_ensures(FuseArg::precision, (&arg,), precision),
        call_ensures(FuseBlockConfig::clone, (&config,), copy),
        call_ensures(FuseBlockConfig::multi_block_variables, (&config, keys), ()),
    ensures
        precision == arg.ty,
        copy.width == config.width,
        copy.variables@ == config.variables@,
        final(keys)@ == old(keys)@ + config.variables@,
{
    law_same_configuration(copy, config);
}

/// Clones of blocks keep every part of them.
pub proof fn law_clones_keep_the_block(
    block: ReduceFuseBlock,
    copy: ReduceFuseBlock,
    end: ElemwiseFuseBlock,
    end_copy: ElemwiseFuseBlock,
)
    requires
        call_ensures(ReduceFuseBlock::clone, (&block,), copy),
        call_ensures(ElemwiseFuseBlock::clone, (&end,), end_copy),
    ensures
        copy.op == block.op,
        copy.config_input.width == block.config_input.width,
        copy.config_input.variables@ == block.config_input.variables@,
        copy.config_output.width == block.config_output.width,
        copy.config_output.variables@ == block.config_output.variables@,
        copy.input == block.input,
        copy.output == block.output,
        copy.blueprint == block.blueprint,
        end_copy.config.width == end.config.width,
        end_copy.config.variables@ == end.config.variables@,
{
    law_same_configuration(copy.config_input, block.config_input);
    law_same_configuration(copy.config_output, block.config_output);
    law_same_configuration(end_copy.config, end.config);
}

/// A kernel begins with nothing.
pub proof fn law_new_kernels_are_empty(kernel: Kernel)
    requires
        call_ensures(Kernel::new, (), kernel),
    ensures
        kernel@.len() == 0,
{
}

/// Setting the types of a block adds three operations: the input and the output get the precisions
/// of the arguments, in their own widths, and what is accumulated gets a type of the kind of the
/// input, of as many bits or 32 where those are fewer, as wide as the input.
pub proof fn law_setting_types(kernel: &mut Kernel, block: ReduceFuseBlock)
    requires
        call_ensures(set_polyfill_block, (kernel, &block), ()),
    ensures
        ({
            let ops = added(old(kernel)@, final(kernel)@);
            let input = set_to(ops[0], Polyfill::In);
            let output = set_to(ops[1], Polyfill::Out);
            let acc = set_to(ops[2], Polyfill::Acc);
            &&& kept(old(kernel)@, final(kernel)@)
            &&& ops.len() == 3
            &&& input is Some && has_precision(
                input->0,
                block.input.ty,
                block.config_input.width,
            )
            &&& output is Some && has_precision(
                output->0,
                block.output.ty,
                block.config_output.width,
            )
            &&& acc is Some && accumulates(acc->0, block.input.ty, block.config_input.width)
        }),
{
    lemma_added(old(kernel)@, polyfill_ops(block));
    law_types_of_a_block(block);
}

/// A reduction step adds one operation, which reduces the block as it is told to, and measures the
/// axis that it reduces.
pub proof fn law_reducing(
    kernel: &mut Kernel,
    block: usize,
    reduce_axis: Argument,
    out_vec_axis: Argument,
    config: ReduceOperationConfig,
    blueprint: GlobalReduceBlueprint,
    axis_size: AxisSize,
)
    requires
        call_ensures(
            reduce_step,
            (kernel, block, reduce_axis, out_vec_axis, config, blueprint),
            axis_size,
        ),
    ensures
        ({
            let ops = added(old(kernel)@, final(kernel)@);
            &&& kept(old(kernel)@, final(kernel)@)
            &&& ops.len() == 1
            &&& reduces(
                ops[0],
                block as int,
                config,
                reduce_axis,
                out_vec_axis,
                blueprint,
            )
            &&& axis_size.block == block
            &&& axis_size.axis == reduce_axis
        }),
{
    law_step_reduces(block, config, reduce_axis, out_vec_axis, blueprint);
    let before = old(kernel)@;
    let after = final(kernel)@;
    assert(after.take(before.len() as int) =~= before);
}

/// Sharing the variables of a block handles each of them in its own type: in a plane it is read,
/// taken from the first lane and written, and in a cube it goes through a slot of its own that the
/// cube waits for.
pub proof fn law_sharing_variables(
    kernel: &mut Kernel,
    config: FuseBlockConfig,
    blueprint: GlobalReduceBlueprint,
    j: int,
)
    requires
        call_ensures(share_variables, (kernel, &config, blueprint), ()),
        0 <= j < config.variables@.len(),
    ensures
        ({
            let ops = added(old(kernel)@, final(kernel)@);
            let (key, elem) = config.variables@[j];
            let c = match blueprint {
                GlobalReduceBlueprint::Unit(_) => 1int,
                GlobalReduceBlueprint::Plane(_) => 4int,
                GlobalReduceBlueprint::Cube(_) => 6int,
            };
            let ty = set_to(ops[c * j], Polyfill::Dyn);
            &&& kept(old(kernel)@, final(kernel)@)
            &&& ops.len() == c * config.variables@.len()
            &&& ty is Some && is_vector(ty->0, elem, config.width)
            &&& blueprint is Plane ==> {
                &&& ops[c * j + 1] == KernelOp::ReadVariable { key }
                &&& ops[c * j + 2] == KernelOp::PlaneBroadcast { lane: 0 }
                &&& ops[c * j + 3] == KernelOp::WriteVariable { key }
            }
            &&& blueprint is Cube ==> {
                &&& ops[c * j + 1] == KernelOp::NewSharedSlot
                &&& ops[c * j + 2] == KernelOp::FirstUnitToSlot { key }
                &&& ops[c * j + 3] == KernelOp::SyncCube
                &&& ops[c * j + 4] == KernelOp::ReadSlot
                &&& ops[c * j + 5] == KernelOp::WriteVariable { key }
            }
        }),
{
    let keys = config.variables@;
    lemma_added(old(kernel)@, share_ops(keys, config.width, blueprint));
    law_variables_are_shared_in_turn(keys, config.width, blueprint, j);
    match blueprint {
        GlobalReduceBlueprint::Unit(_) => {
            assert(1int * j == j && 1int * keys.len() == keys.len());
        },
        _ => {},
    }
}

/// Laying out the blocks adds what the blocks need and no more.
pub proof fn law_laying_out_blocks(
    kernel: &mut Kernel,
    reduce_axis: Argument,
    out_vec_axis: Argument,
    rows: Argument,
    blocks: Vec<ReduceFuseBlock>,
    block_end: Option<ElemwiseFuseBlock>,
)
    requires
        call_ensures(
            reduce_many,
            (kernel, reduce_axis, out_vec_axis, rows, &blocks, &block_end),
            (),
        ),
    ensures
        kept(old(kernel)@, final(kernel)@),
        added(old(kernel)@, final(kernel)@) == many_ops(
            reduce_axis,
            out_vec_axis,
            rows,
            blocks@,
            block_end,
        ),
{
    lemma_added(
        old(kernel)@,
        many_ops(reduce_axis, out_vec_axis, rows, blocks@, block_end),
    );
}

/// Laying out a whole kernel makes room for the variables of both sides of every block, once, and
/// before anything that may use them.
pub proof fn law_laying_out_kernels(
    kernel: &mut Kernel,
    reduce_axis: Argument,
    out_vec_axis: Argument,
    rows: Argument,
    blocks: Vec<ReduceFuseBlock>,
    block_end: Option<ElemwiseFuseBlock>,
    b: int,
    side: BlockSide,
)
    requires
        call_ensures(
            reduce_kernel_broadcasted,
            (kernel, reduce_axis, out_vec_axis, rows, &blocks, &block_end),
            (),
        ),
        0 <= b < blocks@.len() <= usize::MAX,
    ensures
        ({
            let ops = added(old(kernel)@, final(kernel)@);
            &&& kept(old(kernel)@, final(kernel)@)
            &&& ops == kernel_ops(reduce_axis, out_vec_axis, rows, blocks@, block_end)
            &&& exists|first: int|
                #[trigger] once_and_first(ops, first) && ops[first] == (KernelOp::InitVariables {
                    block: b as usize,
                    side,
                })
        }),
{
    lemma_added(
        old(kernel)@,
        kernel_ops(reduce_axis, out_vec_axis, rows, blocks@, block_end),
    );
    law_variables_get_room_first(
        reduce_axis,
        out_vec_axis,
        rows,
        blocks@,
        block_end,
        b,
        side,
    );
}

/// A unit reads its own place.
pub proof fn law_units_read_their_place(unit: UnitPosition, builtin: Builtin, value: usize)
    requires
        call_ensures(UnitPosition::read, (&unit, builtin), value),
    ensures
        value == match builtin {
            Builtin::AbsolutePos => unit.absolute_pos as int,
            Builtin::CubePos => unit.cube_pos as int,
            Builtin::UnitPos => unit.unit_pos as int,
            Builtin::UnitPosX => unit.unit_pos_x as int,
            Builtin::UnitPosY => unit.unit_pos_y as int,
            Builtin::CubeDim => unit.cube_dim as int,
            Builtin::CubeDimX => unit.cube_dim_x as int,
            Builtin::CubeDimY => unit.cube_dim_y as int,
        },
{
}

/// The value of an expression is what the expression is on the unit.
pub proof fn law_values_are_computed(
    expr: Expr,
    launch: Launch,
    unit: UnitPosition,
    step: usize,
    value: usize,
)
    requires
        call_ensures(Expr::value, (&expr, &launch, &unit, step), value),
    ensures
        value == expr.eval(launch, unit, step as int),
{
}

/// A loop that is made for workers and run on a unit gives the vectors of the row of the unit, from
/// its lane on, a stride apart, where there is such a row. Its vectors are of its own width.
pub proof fn law_loops_take_shares(
    workers: Workers,
    axis_size: AxisSize,
    width: usize,
    rows: Argument,
    code: ElementwiseLoop,
    launch: Launch,
    unit: UnitPosition,
    indices: Vec<usize>,
)
    requires
        call_ensures(ElementwiseLoop::new, (workers, axis_size, width, rows), code),
        call_ensures(ElementwiseLoop::indices, (&code, &launch, &unit), indices),
    ensures
        code.width == width,
        ({
            let axis = launch.arguments@[axis_size.axis.position as int];
            let size = launch.shapes@[axis_size.block as int]@[axis as int];
            let (row, lane, stride) = match workers {
                Workers::Unit => (unit.absolute_pos as int, 0int, 1int),
                Workers::Plane => (
                    unit.cube_pos * unit.cube_dim_y + unit.unit_pos_y,
                    unit.unit_pos_x as int,
                    unit.cube_dim_x as int,
                ),
                Workers::Cube => (
                    unit.cube_pos as int,
                    unit.unit_pos as int,
                    unit.cube_dim as int,
                ),
            };
            indices@.map_values(|index: usize| index as int) == taken(
                row,
                lane,
                stride,
                launch.arguments@[rows.position as int] as int,
                size as int / width as int,
            )
        }),
{
    law_loop_takes_shares(launch, unit, workers, axis_size, width, rows);
}

} // verus!
