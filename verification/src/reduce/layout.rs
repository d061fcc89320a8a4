//! What every kernel is made of, whatever its blocks are.

use crate::reduce::expr::Argument;
use crate::reduce::fuse::{
    device_type_of, DeviceType, FuseBlockConfig, FuseType, MultiBlockPos,
};
use crate::reduce::kernel::{
    block_ops, blocks_ops, init_ops, kernel_ops, many_ops, parallel_call, polyfill_ops,
    reduce_op, share_one, share_ops, BlockSide, ElemwiseFuseBlock, KernelOp, Polyfill,
    ReduceCall, ReduceFuseBlock,
};
use crate::reduce::laws::{bits, kind};
use cubecl::ir::{ElemType, FloatKind, IntKind, UIntKind};
use cubek::reduce::components::instructions::ReduceOperationConfig;
use cubek::reduce::routines::GlobalReduceBlueprint;
use cubek::reduce::VectorizationMode;
use vstd::prelude::*;

verus! {

// Types.

/// The precision of the numbers that an element holds, for the elements that have one.
pub open spec fn precision_of(elem: ElemType) -> Option<FuseType> {
    match elem {
        ElemType::Float(FloatKind::F64) => Some(FuseType::F64),
        ElemType::Float(FloatKind::F32) => Some(FuseType::F32),
        ElemType::Float(FloatKind::Flex32) => Some(FuseType::Flex32),
        ElemType::Float(FloatKind::F16) => Some(FuseType::F16),
        ElemType::Float(FloatKind::BF16) => Some(FuseType::BF16),
        ElemType::Int(IntKind::I64) => Some(FuseType::I64),
        ElemType::Int(IntKind::I32) => Some(FuseType::I32),
        ElemType::Int(IntKind::I16) => Some(FuseType::I16),
        ElemType::Int(IntKind::I8) => Some(FuseType::I8),
        ElemType::UInt(UIntKind::U64) => Some(FuseType::U64),
        ElemType::UInt(UIntKind::U32) => Some(FuseType::U32),
        ElemType::UInt(UIntKind::U16) => Some(FuseType::U16),
        ElemType::UInt(UIntKind::U8) => Some(FuseType::U8),
        _ => None,
    }
}

/// Whether the type has room for `width` elements, or for one where `width` is less.
pub open spec fn is_wide(ty: DeviceType, width: usize) -> bool {
    &&& width <= 1 ==> ty.width == 1
    &&& width > 1 ==> ty.width == width
}

/// Whether `ty` is the type of vectors of `width` elements.
pub open spec fn is_vector(ty: DeviceType, elem: ElemType, width: usize) -> bool {
    ty.elem == elem && is_wide(ty, width)
}

/// Whether `ty` is the type of vectors of `width` numbers of the precision.
pub open spec fn has_precision(ty: DeviceType, precision: FuseType, width: usize) -> bool {
    precision_of(ty.elem) == Some(precision) && is_wide(ty, width)
}

/// Whether vectors of `width` numbers of the precision are accumulated in `ty`: in numbers of the
/// same kind, of as many bits or 32 where those are fewer, that keep all their bits.
pub open spec fn accumulates(ty: DeviceType, precision: FuseType, width: usize) -> bool {
    match precision_of(ty.elem) {
        Some(acc) => {
            &&& kind(acc) == kind(precision)
            &&& bits(precision) <= 32 ==> bits(acc) == 32
            &&& bits(precision) > 32 ==> bits(acc) == bits(precision)
            &&& acc != FuseType::Flex32
            &&& is_wide(ty, width)
        },
        None => false,
    }
}

/// The type that the operation sets `polyfill` to, if it sets it.
pub open spec fn set_to(op: KernelOp, polyfill: Polyfill) -> Option<DeviceType> {
    match op {
        KernelOp::SetPolyfill { polyfill: other, ty } => if other == polyfill {
            Some(ty)
        } else {
            None
        },
        _ => None,
    }
}

/// The type that `polyfill` has when the operation at `n` begins: the one that it was last set
/// to.
pub open spec fn newest(ops: Seq<KernelOp>, polyfill: Polyfill, n: int) -> Option<DeviceType>
    decreases n,
{
    if n <= 0 {
        None
    } else if set_to(ops[n - 1], polyfill) is Some {
        set_to(ops[n - 1], polyfill)
    } else {
        newest(ops, polyfill, n - 1)
    }
}

/// A precision stands for the element that holds its numbers, in vectors of the width that is
/// asked for.
pub proof fn law_device_type_of_precision(precision: FuseType, width: usize)
    ensures
        has_precision(device_type_of(precision.elem(), width), precision, width),
{
}

/// Different precisions stand for different elements.
pub proof fn law_elements_distinct(a: FuseType, b: FuseType)
    ensures
        a.elem() == b.elem() <==> a == b,
{
    law_device_type_of_precision(a, 1);
    law_device_type_of_precision(b, 1);
}

/// What is accumulated is wide enough for what is reduced, and of its kind.
pub proof fn law_accumulator_type(precision: FuseType, width: usize)
    ensures
        accumulates(device_type_of(precision.accumulator().elem(), width), precision, width),
{
}

/// Setting the types of a block sets its input to the precision of what it reads, its output to
/// that of what it writes, and what it accumulates to one that is wide enough for what it reads,
/// in vectors as wide as those it reads. Each is set once, and nothing else is done.
pub proof fn law_types_of_a_block(block: ReduceFuseBlock)
    ensures
        ({
            let ops = polyfill_ops(block);
            &&& ops.len() == 3
            &&& set_to(ops[0], Polyfill::In) is Some
            &&& has_precision(
                set_to(ops[0], Polyfill::In)->0,
                block.input.ty,
                block.config_input.width,
            )
            &&& set_to(ops[1], Polyfill::Out) is Some
            &&& has_precision(
                set_to(ops[1], Polyfill::Out)->0,
                block.output.ty,
                block.config_output.width,
            )
            &&& set_to(ops[2], Polyfill::Acc) is Some
            &&& accumulates(
                set_to(ops[2], Polyfill::Acc)->0,
                block.input.ty,
                block.config_input.width,
            )
        }),
{
}

/// The types of a block follow from its arguments and its widths alone: blocks that agree on them
/// have the same types, whatever they compute and whoever computes it.
pub proof fn law_types_depend_on_arguments(a: ReduceFuseBlock, b: ReduceFuseBlock)
    requires
        a.input.ty == b.input.ty,
        a.output.ty == b.output.ty,
        a.config_input.width == b.config_input.width,
        a.config_output.width == b.config_output.width,
    ensures
        polyfill_ops(a) == polyfill_ops(b),
{
}

// Reductions.

/// The reduction that the operation is, and the routine that computes it.
pub open spec fn reduction(op: KernelOp) -> Option<(ReduceCall, GlobalReduceBlueprint)> {
    match op {
        KernelOp::UnitReduce(call, unit) => Some((call, GlobalReduceBlueprint::Unit(unit))),
        KernelOp::PlaneReduce(call, plane) => Some((call, GlobalReduceBlueprint::Plane(plane))),
        KernelOp::CubeReduce(call, cube) => Some((call, GlobalReduceBlueprint::Cube(cube))),
        _ => None,
    }
}

/// Whether the operation reduces `block` with `op`, along the axis that it is given, in vectors
/// along that axis, with the routine that `blueprint` names.
pub open spec fn reduces(
    op: KernelOp,
    block: int,
    config: ReduceOperationConfig,
    reduce_axis: Argument,
    out_vec_axis: Argument,
    blueprint: GlobalReduceBlueprint,
) -> bool {
    match reduction(op) {
        Some((call, routine)) => {
            &&& call.block == block
            &&& call.op == config
            &&& call.reduce_axis == reduce_axis
            &&& call.out_vec_axis == out_vec_axis
            &&& call.vectorization == VectorizationMode::Parallel
            &&& routine == blueprint
        },
        None => false,
    }
}

/// A reduction step reduces its own block, with its own operation and along its own axes, with
/// the routine that the blueprint names.
pub proof fn law_step_reduces(
    block: usize,
    config: ReduceOperationConfig,
    reduce_axis: Argument,
    out_vec_axis: Argument,
    blueprint: GlobalReduceBlueprint,
)
    ensures
        reduces(
            reduce_op(parallel_call(block, config, reduce_axis, out_vec_axis), blueprint),
            block as int,
            config,
            reduce_axis,
            out_vec_axis,
            blueprint,
        ),
{
}

// Sharing.

/// The variables of a list are shared one after the other, each in its own type. A unit has
/// nobody to share with. In a plane, the variable is read, taken from the first lane, and written.
/// In a cube, the first unit puts the variable in a new slot, the others wait for it, and all of
/// them read the slot and write the variable. Nothing else is done.
pub proof fn law_variables_are_shared_in_turn(
    keys: Seq<(MultiBlockPos, ElemType)>,
    width: usize,
    blueprint: GlobalReduceBlueprint,
    j: int,
)
    requires
        0 <= j < keys.len(),
    ensures
        ({
            let ops = share_ops(keys, width, blueprint);
            let (key, elem) = keys[j];
            match blueprint {
                GlobalReduceBlueprint::Unit(_) => {
                    &&& ops.len() == keys.len()
                    &&& set_to(ops[j], Polyfill::Dyn) is Some
                    &&& is_vector(set_to(ops[j], Polyfill::Dyn)->0, elem, width)
                },
                GlobalReduceBlueprint::Plane(_) => {
                    &&& ops.len() == 4 * keys.len()
                    &&& set_to(ops[4 * j], Polyfill::Dyn) is Some
                    &&& is_vector(set_to(ops[4 * j], Polyfill::Dyn)->0, elem, width)
                    &&& ops[4 * j + 1] == KernelOp::ReadVariable { key }
                    &&& ops[4 * j + 2] == KernelOp::PlaneBroadcast { lane: 0 }
                    &&& ops[4 * j + 3] == KernelOp::WriteVariable { key }
                },
                GlobalReduceBlueprint::Cube(_) => {
                    &&& ops.len() == 6 * keys.len()
                    &&& set_to(ops[6 * j], Polyfill::Dyn) is Some
                    &&& is_vector(set_to(ops[6 * j], Polyfill::Dyn)->0, elem, width)
                    &&& ops[6 * j + 1] == KernelOp::NewSharedSlot
                    &&& ops[6 * j + 2] == KernelOp::FirstUnitToSlot { key }
                    &&& ops[6 * j + 3] == KernelOp::SyncCube
                    &&& ops[6 * j + 4] == KernelOp::ReadSlot
                    &&& ops[6 * j + 5] == KernelOp::WriteVariable { key }
                },
            }
        }),
    decreases keys.len(),
{
    let rest = keys.drop_last();
    lemma_share_len(rest, width, blueprint);
    lemma_share_len(keys, width, blueprint);
    if j < rest.len() {
        law_variables_are_shared_in_turn(rest, width, blueprint, j);
    }
}

proof fn lemma_share_len(
    keys: Seq<(MultiBlockPos, ElemType)>,
    width: usize,
    blueprint: GlobalReduceBlueprint,
)
    ensures
        blueprint is Unit ==> share_ops(keys, width, blueprint).len() == keys.len(),
        blueprint is Plane ==> share_ops(keys, width, blueprint).len() == 4 * keys.len(),
        blueprint is Cube ==> share_ops(keys, width, blueprint).len() == 6 * keys.len(),
    decreases keys.len(),
{
    if keys.len() > 0 {
        lemma_share_len(keys.drop_last(), width, blueprint);
    }
}

/// Sharing two lists of variables one after the other is sharing the list of both.
pub proof fn law_sharing_two_lists(
    a: Seq<(MultiBlockPos, ElemType)>,
    b: Seq<(MultiBlockPos, ElemType)>,
    width: usize,
    blueprint: GlobalReduceBlueprint,
)
    ensures
        share_ops(a + b, width, blueprint) == share_ops(a, width, blueprint) + share_ops(
            b,
            width,
            blueprint,
        ),
    decreases b.len(),
{
    if b.len() == 0 {
        assert(a + b =~= a);
    } else {
        assert((a + b).drop_last() =~= a + b.drop_last());
        law_sharing_two_lists(a, b.drop_last(), width, blueprint);
        assert(share_ops(a + b, width, blueprint) =~= share_ops(a, width, blueprint) + share_ops(
            b,
            width,
            blueprint,
        ));
    }
}

/// The variable that the operation reads, puts in a slot or writes.
pub open spec fn touched(op: KernelOp) -> Option<MultiBlockPos> {
    match op {
        KernelOp::ReadVariable { key } => Some(key),
        KernelOp::FirstUnitToSlot { key } => Some(key),
        KernelOp::WriteVariable { key } => Some(key),
        _ => None,
    }
}

/// Whether `ty` is the type of a variable of the list.
pub open spec fn typed(
    keys: Seq<(MultiBlockPos, ElemType)>,
    width: usize,
    key: MultiBlockPos,
    ty: DeviceType,
) -> bool {
    exists|j: int|
        0 <= j < keys.len() && (#[trigger] keys[j]).0 == key && is_vector(ty, keys[j].1, width)
}

/// Wherever a variable is read, put in a slot or written by the sharing, it is handled in the
/// type that the list gives for it, in vectors of the block.
pub proof fn law_variables_keep_their_type(
    keys: Seq<(MultiBlockPos, ElemType)>,
    width: usize,
    blueprint: GlobalReduceBlueprint,
    n: int,
)
    requires
        0 <= n < share_ops(keys, width, blueprint).len(),
        touched(share_ops(keys, width, blueprint)[n]) is Some,
    ensures
        ({
            let ops = share_ops(keys, width, blueprint);
            &&& newest(ops, Polyfill::Dyn, n) is Some
            &&& typed(keys, width, touched(ops[n])->0, newest(ops, Polyfill::Dyn, n)->0)
        }),
    decreases keys.len(),
{
    let rest = keys.drop_last();
    let before = share_ops(rest, width, blueprint);
    let (key, elem) = keys.last();
    let last = share_one(key, elem, width, blueprint);
    let ops = share_ops(keys, width, blueprint);
    if n < before.len() {
        law_variables_keep_their_type(rest, width, blueprint, n);
        lemma_newest_prefix(before, last, Polyfill::Dyn, n);
        let ty = newest(before, Polyfill::Dyn, n)->0;
        let j = choose|j: int|
            0 <= j < rest.len() && (#[trigger] rest[j]).0 == touched(before[n])->0 && is_vector(
                ty,
                rest[j].1,
                width,
            );
        assert(keys[j] == rest[j]);
    } else {
        reveal_with_fuel(newest, 7);
        assert(newest(last, Polyfill::Dyn, n - before.len()) is Some);
        lemma_newest_suffix(before, last, Polyfill::Dyn, n - before.len());
        assert(keys[keys.len() - 1] == (key, elem));
    }
}

proof fn lemma_newest_prefix(a: Seq<KernelOp>, b: Seq<KernelOp>, polyfill: Polyfill, n: int)
    requires
        n <= a.len(),
    ensures
        newest(a + b, polyfill, n) == newest(a, polyfill, n),
    decreases n,
{
    if n > 0 {
        assert((a + b)[n - 1] == a[n - 1]);
        lemma_newest_prefix(a, b, polyfill, n - 1);
    }
}

proof fn lemma_newest_suffix(a: Seq<KernelOp>, b: Seq<KernelOp>, polyfill: Polyfill, n: int)
    requires
        0 <= n <= b.len(),
        newest(b, polyfill, n) is Some,
    ensures
        newest(a + b, polyfill, a.len() + n) == newest(b, polyfill, n),
    decreases n,
{
    if n > 0 {
        assert((a + b)[a.len() + n - 1] == b[n - 1]);
        if set_to(b[n - 1], polyfill) is None {
            lemma_newest_suffix(a, b, polyfill, n - 1);
        }
    }
}

// Whole kernels.

/// Whether the operation may read or write a variable that a block leaves to another.
pub open spec fn uses_variables(op: KernelOp) -> bool {
    match op {
        KernelOp::InitTensors { .. } => true,
        KernelOp::Elementwise(_) => true,
        _ => reduction(op) is Some || touched(op) is Some,
    }
}

/// Whether `first` is the only one of the operations that equals it, and comes before every
/// operation that may use a variable.
pub open spec fn once_and_first(ops: Seq<KernelOp>, first: int) -> bool {
    &&& 0 <= first < ops.len()
    &&& forall|m: int| 0 <= m < ops.len() && #[trigger] ops[m] == ops[first] ==> m == first
    &&& forall|m: int| 0 <= m < ops.len() && uses_variables(#[trigger] ops[m]) ==> first < m
}

/// Whether the operation only sets types, waits, or hands a variable from unit to unit.
spec fn moves(op: KernelOp) -> bool {
    match op {
        KernelOp::SetPolyfill { polyfill, .. } => polyfill == Polyfill::Dyn,
        KernelOp::ReadVariable { .. } => true,
        KernelOp::PlaneBroadcast { .. } => true,
        KernelOp::WriteVariable { .. } => true,
        KernelOp::NewSharedSlot => true,
        KernelOp::FirstUnitToSlot { .. } => true,
        KernelOp::ReadSlot => true,
        KernelOp::SyncCube => true,
        _ => false,
    }
}

proof fn lemma_share_moves(
    keys: Seq<(MultiBlockPos, ElemType)>,
    width: usize,
    blueprint: GlobalReduceBlueprint,
    n: int,
)
    requires
        0 <= n < share_ops(keys, width, blueprint).len(),
    ensures
        moves(share_ops(keys, width, blueprint)[n]),
    decreases keys.len(),
{
    if keys.len() > 0 && n < share_ops(keys.drop_last(), width, blueprint).len() {
        lemma_share_moves(keys.drop_last(), width, blueprint, n);
    }
}

/// A block sets its types, opens its tensors, reduces, and then shares its variables, unless a
/// unit reduces a row alone. Nothing else is done for it.
pub proof fn law_operations_of_a_block(
    i: usize,
    block: ReduceFuseBlock,
    reduce_axis: Argument,
    out_vec_axis: Argument,
)
    ensures
        ({
            let ops = block_ops(i, block, reduce_axis, out_vec_axis);
            let keys = block.config_output.variables@;
            &&& ops.len() >= 5
            &&& ops.take(3) == polyfill_ops(block)
            &&& ops[3] == KernelOp::InitTensors { block: i }
            &&& reduces(
                ops[4],
                i as int,
                block.op,
                reduce_axis,
                out_vec_axis,
                block.blueprint,
            )
            &&& block.blueprint is Unit ==> ops.len() == 5
            &&& !(block.blueprint is Unit) ==> ops.skip(5) == share_ops(
                keys,
                block.config_output.width,
                block.blueprint,
            )
            &&& block.blueprint is Plane ==> ops.len() == 5 + 4 * keys.len()
            &&& block.blueprint is Cube ==> ops.len() == 5 + 6 * keys.len()
        }),
{
    let ops = block_ops(i, block, reduce_axis, out_vec_axis);
    let keys = block.config_output.variables@;
    lemma_share_len(keys, block.config_output.width, block.blueprint);
    assert(ops.take(3) =~= polyfill_ops(block));
    if !(block.blueprint is Unit) {
        assert(ops.skip(5) =~= share_ops(keys, block.config_output.width, block.blueprint));
    }
}

/// One more block adds its operations at the end, and changes none that come before.
pub proof fn law_one_more_block(
    reduce_axis: Argument,
    out_vec_axis: Argument,
    rows: Argument,
    blocks: Seq<ReduceFuseBlock>,
    block: ReduceFuseBlock,
)
    requires
        blocks.len() < usize::MAX,
    ensures
        many_ops(reduce_axis, out_vec_axis, rows, blocks.push(block), None) == many_ops(
            reduce_axis,
            out_vec_axis,
            rows,
            blocks,
            None,
        ) + block_ops(blocks.len() as usize, block, reduce_axis, out_vec_axis),
        many_ops(reduce_axis, out_vec_axis, rows, seq![], None).len() == 0,
{
    assert(blocks.push(block).drop_last() =~= blocks);
    assert(many_ops(reduce_axis, out_vec_axis, rows, blocks.push(block), None) =~= many_ops(
        reduce_axis,
        out_vec_axis,
        rows,
        blocks,
        None,
    ) + block_ops(blocks.len() as usize, block, reduce_axis, out_vec_axis));
}

/// A trailing elementwise block adds its loop at the end of a kernel, after a wait of the plane or
/// the cube where those reduced the rows of the first block. It changes nothing that comes before,
/// and its loop writes vectors of its own width.
pub proof fn law_elementwise_block_is_added(
    reduce_axis: Argument,
    out_vec_axis: Argument,
    rows: Argument,
    blocks: Seq<ReduceFuseBlock>,
    end: ElemwiseFuseBlock,
)
    requires
        blocks.len() > 0,
    ensures
        ({
            let ops = many_ops(reduce_axis, out_vec_axis, rows, blocks, Some(end));
            let reduced = many_ops(reduce_axis, out_vec_axis, rows, blocks, None);
            let blueprint = blocks[0].blueprint;
            &&& ops.take(reduced.len() as int) == reduced
            &&& blueprint is Unit ==> ops.len() == reduced.len() + 1
            &&& blueprint is Plane ==> ops.len() == reduced.len() + 2 && ops[reduced.len() as int]
                == KernelOp::SyncPlane
            &&& blueprint is Cube ==> ops.len() == reduced.len() + 2 && ops[reduced.len() as int]
                == KernelOp::SyncCube
            &&& match ops.last() {
                KernelOp::Elementwise(code) => code.width == end.config.width,
                _ => false,
            }
        }),
{
    let ops = many_ops(reduce_axis, out_vec_axis, rows, blocks, Some(end));
    let reduced = many_ops(reduce_axis, out_vec_axis, rows, blocks, None);
    assert(reduced =~= blocks_ops(blocks, reduce_axis, out_vec_axis));
    assert(ops.take(reduced.len() as int) =~= reduced);
}

/// A kernel makes room for the variables of its blocks, in order and for both sides of each, and
/// then does what it does for its blocks.
pub proof fn law_kernel_makes_room_and_reduces(
    reduce_axis: Argument,
    out_vec_axis: Argument,
    rows: Argument,
    blocks: Seq<ReduceFuseBlock>,
    block_end: Option<ElemwiseFuseBlock>,
    b: int,
)
    requires
        0 <= b < blocks.len() <= usize::MAX,
    ensures
        ({
            let ops = kernel_ops(reduce_axis, out_vec_axis, rows, blocks, block_end);
            &&& ops[2 * b] == KernelOp::InitVariables { block: b as usize, side: BlockSide::Input }
            &&& ops[2 * b + 1] == KernelOp::InitVariables {
                block: b as usize,
                side: BlockSide::Output,
            }
            &&& ops.len() >= 2 * blocks.len()
            &&& ops.skip(2 * blocks.len() as int) == many_ops(
                reduce_axis,
                out_vec_axis,
                rows,
                blocks,
                block_end,
            )
        }),
{
    let ops = kernel_ops(reduce_axis, out_vec_axis, rows, blocks, block_end);
    assert(ops.skip(2 * blocks.len() as int) =~= many_ops(
        reduce_axis,
        out_vec_axis,
        rows,
        blocks,
        block_end,
    ));
}

/// A kernel without blocks does nothing.
pub proof fn law_empty_kernel(reduce_axis: Argument, out_vec_axis: Argument, rows: Argument)
    ensures
        kernel_ops(reduce_axis, out_vec_axis, rows, seq![], None).len() == 0,
{
}

proof fn lemma_segment(
    blocks: Seq<ReduceFuseBlock>,
    reduce_axis: Argument,
    out_vec_axis: Argument,
    b: int,
)
    requires
        0 <= b < blocks.len(),
    ensures
        ({
            let ops = blocks_ops(blocks, reduce_axis, out_vec_axis);
            let start = blocks_ops(blocks.take(b), reduce_axis, out_vec_axis).len();
            let next = blocks_ops(blocks.take(b + 1), reduce_axis, out_vec_axis).len();
            let own = block_ops(b as usize, blocks[b], reduce_axis, out_vec_axis);
            &&& next == start + own.len()
            &&& next <= ops.len()
            &&& forall|k: int| 0 <= k < own.len() ==> ops[start + k] == #[trigger] own[k]
        }),
    decreases blocks.len(),
{
    let rest = blocks.drop_last();
    assert(blocks.take(b + 1).drop_last() =~= blocks.take(b));
    assert(blocks.take(b + 1).last() == blocks[b]);
    if b == blocks.len() - 1 {
        assert(blocks.take(b) =~= rest);
        assert(blocks.take(b + 1) =~= blocks);
    } else {
        assert(rest.take(b) =~= blocks.take(b));
        assert(rest.take(b + 1) =~= blocks.take(b + 1));
        lemma_segment(rest, reduce_axis, out_vec_axis, b);
    }
}

proof fn lemma_locate(
    blocks: Seq<ReduceFuseBlock>,
    reduce_axis: Argument,
    out_vec_axis: Argument,
    n: int,
) -> (b: int)
    requires
        0 <= n < blocks_ops(blocks, reduce_axis, out_vec_axis).len(),
    ensures
        0 <= b < blocks.len(),
        blocks_ops(blocks.take(b), reduce_axis, out_vec_axis).len() <= n < blocks_ops(
            blocks.take(b + 1),
            reduce_axis,
            out_vec_axis,
        ).len(),
    decreases blocks.len(),
{
    let rest = blocks.drop_last();
    let last = blocks.len() - 1;
    assert(blocks.take(last) =~= rest);
    assert(blocks.take(last + 1) =~= blocks);
    if n < blocks_ops(rest, reduce_axis, out_vec_axis).len() {
        let b = lemma_locate(rest, reduce_axis, out_vec_axis, n);
        assert(rest.take(b) =~= blocks.take(b));
        assert(rest.take(b + 1) =~= blocks.take(b + 1));
        b
    } else {
        last
    }
}

proof fn lemma_starts(
    blocks: Seq<ReduceFuseBlock>,
    reduce_axis: Argument,
    out_vec_axis: Argument,
    a: int,
    b: int,
)
    requires
        0 <= a <= b <= blocks.len(),
    ensures
        blocks_ops(blocks.take(a), reduce_axis, out_vec_axis).len() <= blocks_ops(
            blocks.take(b),
            reduce_axis,
            out_vec_axis,
        ).len(),
    decreases b - a,
{
    if a < b {
        lemma_segment(blocks, reduce_axis, out_vec_axis, a);
        lemma_starts(blocks, reduce_axis, out_vec_axis, a + 1, b);
    }
}

/// Where the operation at `n` of a kernel comes from.
#[verifier::spinoff_prover]
#[verifier::rlimit(60)]
proof fn lemma_origin(
    reduce_axis: Argument,
    out_vec_axis: Argument,
    rows: Argument,
    blocks: Seq<ReduceFuseBlock>,
    block_end: Option<ElemwiseFuseBlock>,
    n: int,
) -> (b: int)
    requires
        block_end is Some ==> blocks.len() > 0,
        0 <= n < kernel_ops(reduce_axis, out_vec_axis, rows, blocks, block_end).len(),
    ensures
        ({
            let ops = kernel_ops(reduce_axis, out_vec_axis, rows, blocks, block_end);
            let room = 2 * blocks.len();
            let middle = blocks_ops(blocks, reduce_axis, out_vec_axis);
            &&& n < room ==> ops[n] is InitVariables
            &&& room <= n < room + middle.len() ==> {
                let start = room + blocks_ops(blocks.take(b), reduce_axis, out_vec_axis).len();
                let own = block_ops(b as usize, blocks[b], reduce_axis, out_vec_axis);
                &&& 0 <= b < blocks.len()
                &&& start <= n < start + own.len()
                &&& start + own.len() <= room + middle.len()
                &&& ops[n] == own[n - start]
                &&& forall|k: int| 0 <= k < own.len() ==> ops[start + k] == #[trigger] own[k]
                &&& n - start >= 5 ==> moves(ops[n])
            }
            &&& n >= room + middle.len() ==> ops[n] is SyncPlane || ops[n] is SyncCube
                || ops[n] is Elementwise
        }),
{
    let ops = kernel_ops(reduce_axis, out_vec_axis, rows, blocks, block_end);
    let room = 2 * blocks.len() as int;
    let middle = blocks_ops(blocks, reduce_axis, out_vec_axis);
    if room <= n < room + middle.len() {
        let b = lemma_locate(blocks, reduce_axis, out_vec_axis, n - room);
        let start = room + blocks_ops(blocks.take(b), reduce_axis, out_vec_axis).len();
        let block = blocks[b];
        let own = block_ops(b as usize, block, reduce_axis, out_vec_axis);
        lemma_segment(blocks, reduce_axis, out_vec_axis, b);
        assert forall|k: int| 0 <= k < own.len() implies ops[start + k] == #[trigger] own[k] by {
            assert(ops[start + k] == middle[start - room + k]);
        }
        assert(own[n - start] == ops[n]);
        if n - start >= 5 {
            lemma_share_moves(
                block.config_output.variables@,
                block.config_output.width,
                block.blueprint,
                n - start - 5,
            );
        }
        b
    } else {
        0
    }
}

/// A kernel makes room for the variables of each side of each of its blocks, once, before
/// anything that may read or write a variable, and for no other block.
#[verifier::spinoff_prover]
#[verifier::rlimit(60)]
pub proof fn law_variables_get_room_first(
    reduce_axis: Argument,
    out_vec_axis: Argument,
    rows: Argument,
    blocks: Seq<ReduceFuseBlock>,
    block_end: Option<ElemwiseFuseBlock>,
    b: int,
    side: BlockSide,
)
    requires
        0 <= b < blocks.len() <= usize::MAX,
    ensures
        ({
            let ops = kernel_ops(reduce_axis, out_vec_axis, rows, blocks, block_end);
            &&& exists|first: int|
                #[trigger] once_and_first(ops, first) && ops[first] == (KernelOp::InitVariables {
                    block: b as usize,
                    side,
                })
            &&& forall|m: int|
                0 <= m < ops.len() ==> match #[trigger] ops[m] {
                    KernelOp::InitVariables { block, .. } => block < blocks.len(),
                    _ => true,
                }
        }),
{
    let ops = kernel_ops(reduce_axis, out_vec_axis, rows, blocks, block_end);
    let first = if side == BlockSide::Input {
        2 * b
    } else {
        2 * b + 1
    };
    law_kernel_makes_room_and_reduces(
        reduce_axis,
        out_vec_axis,
        rows,
        blocks,
        block_end,
        b,
    );
    assert forall|m: int| 0 <= m < ops.len() implies {
        &&& #[trigger] ops[m] == ops[first] ==> m == first
        &&& uses_variables(ops[m]) ==> first < m
        &&& match ops[m] {
            KernelOp::InitVariables { block, .. } => block < blocks.len(),
            _ => true,
        }
    } by {
        let from = lemma_origin(reduce_axis, out_vec_axis, rows, blocks, block_end, m);
        if m < 2 * blocks.len() {
            assert(ops[m] == init_ops(blocks.len())[m]);
        }
    }
    assert(once_and_first(ops, first));
}

#[verifier::spinoff_prover]
#[verifier::rlimit(60)]
proof fn lemma_reduction_at(
    reduce_axis: Argument,
    out_vec_axis: Argument,
    rows: Argument,
    blocks: Seq<ReduceFuseBlock>,
    block_end: Option<ElemwiseFuseBlock>,
    n: int,
) -> (b: int)
    requires
        blocks.len() <= usize::MAX,
        block_end is Some ==> blocks.len() > 0,
        0 <= n < kernel_ops(reduce_axis, out_vec_axis, rows, blocks, block_end).len(),
        reduction(kernel_ops(reduce_axis, out_vec_axis, rows, blocks, block_end)[n]) is Some,
    ensures
        0 <= b < blocks.len(),
        n == 2 * blocks.len() + blocks_ops(blocks.take(b), reduce_axis, out_vec_axis).len() + 4,
        (reduction(
            kernel_ops(reduce_axis, out_vec_axis, rows, blocks, block_end)[n],
        )->0).0.block == b,
{
    let b = lemma_origin(reduce_axis, out_vec_axis, rows, blocks, block_end, n);
    law_operations_of_a_block(b as usize, blocks[b], reduce_axis, out_vec_axis);
    b
}

/// Every reduction of a kernel is that of one of its blocks, along the axes of the kernel, with
/// the routine that the block names. It finds the tensors of the block open, and its types set:
/// the input and the output to the precisions of the arguments of the block, and what is
/// accumulated to a type that is wide enough for the input.
#[verifier::spinoff_prover]
#[verifier::rlimit(60)]
pub proof fn law_reductions_are_prepared(
    reduce_axis: Argument,
    out_vec_axis: Argument,
    rows: Argument,
    blocks: Seq<ReduceFuseBlock>,
    block_end: Option<ElemwiseFuseBlock>,
    n: int,
)
    requires
        blocks.len() <= usize::MAX,
        block_end is Some ==> blocks.len() > 0,
        0 <= n < kernel_ops(reduce_axis, out_vec_axis, rows, blocks, block_end).len(),
        reduction(kernel_ops(reduce_axis, out_vec_axis, rows, blocks, block_end)[n]) is Some,
    ensures
        ({
            let ops = kernel_ops(reduce_axis, out_vec_axis, rows, blocks, block_end);
            let b = (reduction(ops[n])->0).0.block;
            let block = blocks[b as int];
            let input = newest(ops, Polyfill::In, n);
            let output = newest(ops, Polyfill::Out, n);
            let acc = newest(ops, Polyfill::Acc, n);
            &&& b < blocks.len()
            &&& reduces(
                ops[n],
                b as int,
                block.op,
                reduce_axis,
                out_vec_axis,
                block.blueprint,
            )
            &&& n > 0
            &&& ops[n - 1] == KernelOp::InitTensors { block: b }
            &&& input is Some && has_precision(
                input->0,
                block.input.ty,
                block.config_input.width,
            )
            &&& output is Some && has_precision(
                output->0,
                block.output.ty,
                block.config_output.width,
            )
            &&& acc is Some && accumulates(acc->0, block.input.ty, block.config_input.width)
        }),
{
    let ops = kernel_ops(reduce_axis, out_vec_axis, rows, blocks, block_end);
    let b = lemma_origin(reduce_axis, out_vec_axis, rows, blocks, block_end, n);
    let block = blocks[b];
    let own = block_ops(b as usize, block, reduce_axis, out_vec_axis);
    let start: int = 2 * blocks.len() as int + blocks_ops(
        blocks.take(b),
        reduce_axis,
        out_vec_axis,
    ).len();
    law_operations_of_a_block(b as usize, block, reduce_axis, out_vec_axis);
    law_types_of_a_block(block);
    let types = polyfill_ops(block);
    assert(own.take(3)[0] == types[0] && own.take(3)[1] == types[1] && own.take(3)[2] == types[2]);
    assert(own[0] == types[0] && own[1] == types[1] && own[2] == types[2]);
    assert(n == start + 4);
    assert(ops[start + 0] == own[0] && ops[start + 1] == own[1] && ops[start + 2] == own[2]);
    assert(ops[start + 3] == own[3]);
    reveal_with_fuel(newest, 6);
}

/// Every block of a kernel is reduced, once, and the blocks are reduced in order.
#[verifier::spinoff_prover]
#[verifier::rlimit(60)]
pub proof fn law_every_block_is_reduced_in_order(
    reduce_axis: Argument,
    out_vec_axis: Argument,
    rows: Argument,
    blocks: Seq<ReduceFuseBlock>,
    block_end: Option<ElemwiseFuseBlock>,
    b: int,
)
    requires
        0 <= b < blocks.len() <= usize::MAX,
    ensures
        ({
            let ops = kernel_ops(reduce_axis, out_vec_axis, rows, blocks, block_end);
            &&& exists|n: int|
                0 <= n < ops.len() && reduces(
                    #[trigger] ops[n],
                    b,
                    blocks[b].op,
                    reduce_axis,
                    out_vec_axis,
                    blocks[b].blueprint,
                )
            &&& forall|n: int, m: int|
                0 <= n < m < ops.len() && reduction(#[trigger] ops[n]) is Some && reduction(
                    #[trigger] ops[m],
                ) is Some ==> (reduction(ops[n])->0).0.block < (reduction(ops[m])->0).0.block
        }),
{
    let ops = kernel_ops(reduce_axis, out_vec_axis, rows, blocks, block_end);
    let room = 2 * blocks.len() as int;
    let middle = blocks_ops(blocks, reduce_axis, out_vec_axis);
    let start = blocks_ops(blocks.take(b), reduce_axis, out_vec_axis).len() as int;
    let own = block_ops(b as usize, blocks[b], reduce_axis, out_vec_axis);
    lemma_segment(blocks, reduce_axis, out_vec_axis, b);
    law_operations_of_a_block(b as usize, blocks[b], reduce_axis, out_vec_axis);
    assert(middle[start + 4] == own[4]);
    assert(ops[room + start + 4] == own[4]);
    assert forall|n: int, m: int|
        0 <= n < m < ops.len() && reduction(#[trigger] ops[n]) is Some && reduction(
            #[trigger] ops[m],
        ) is Some implies (reduction(ops[n])->0).0.block < (reduction(ops[m])->0).0.block by {
        let a = lemma_reduction_at(reduce_axis, out_vec_axis, rows, blocks, block_end, n);
        let c = lemma_reduction_at(reduce_axis, out_vec_axis, rows, blocks, block_end, m);
        if c <= a {
            lemma_starts(blocks, reduce_axis, out_vec_axis, c, a);
        }
    }
}

/// Whether the variable is one of those that a block shares, and `ty` the type that the block gives
/// it.
pub open spec fn shared_by(block: ReduceFuseBlock, key: MultiBlockPos, ty: DeviceType) -> bool {
    &&& !(block.blueprint is Unit)
    &&& typed(block.config_output.variables@, block.config_output.width, key, ty)
}

/// Wherever a kernel reads a variable, puts it in a slot or writes it, the variable is one that a
/// block shares over a plane or a cube, and is handled in the type that the block gives it.
#[verifier::spinoff_prover]
#[verifier::rlimit(60)]
pub proof fn law_shared_variables_keep_their_type(
    reduce_axis: Argument,
    out_vec_axis: Argument,
    rows: Argument,
    blocks: Seq<ReduceFuseBlock>,
    block_end: Option<ElemwiseFuseBlock>,
    n: int,
)
    requires
        blocks.len() <= usize::MAX,
        block_end is Some ==> blocks.len() > 0,
        0 <= n < kernel_ops(reduce_axis, out_vec_axis, rows, blocks, block_end).len(),
        touched(kernel_ops(reduce_axis, out_vec_axis, rows, blocks, block_end)[n]) is Some,
    ensures
        ({
            let ops = kernel_ops(reduce_axis, out_vec_axis, rows, blocks, block_end);
            let ty = newest(ops, Polyfill::Dyn, n);
            &&& ty is Some
            &&& exists|b: int|
                0 <= b < blocks.len() && shared_by(
                    #[trigger] blocks[b],
                    touched(ops[n])->0,
                    ty->0,
                )
        }),
{
    let ops = kernel_ops(reduce_axis, out_vec_axis, rows, blocks, block_end);
    let b = lemma_origin(reduce_axis, out_vec_axis, rows, blocks, block_end, n);
    let block = blocks[b];
    let keys = block.config_output.variables@;
    let width = block.config_output.width;
    let own = block_ops(b as usize, block, reduce_axis, out_vec_axis);
    let start: int = 2 * blocks.len() as int + blocks_ops(
        blocks.take(b),
        reduce_axis,
        out_vec_axis,
    ).len();
    law_operations_of_a_block(b as usize, block, reduce_axis, out_vec_axis);
    let shared = share_ops(keys, width, block.blueprint);
    let k = n - start - 5;
    assert(k >= 0);
    assert(own.skip(5)[k] == own[n - start]);
    law_variables_keep_their_type(keys, width, block.blueprint, k);
    let head = ops.take(start + 5);
    let tail = ops.skip(start + 5 + shared.len());
    assert forall|j: int| 0 <= j < shared.len() implies ops[start + 5 + j] == #[trigger] shared[j] by {
        assert(own.skip(5)[j] == own[5 + j]);
        assert(ops[start + (5 + j)] == own[5 + j]);
    }
    assert(ops =~= (head + shared) + tail);
    lemma_newest_suffix(head, shared, Polyfill::Dyn, k);
    lemma_newest_prefix(head + shared, tail, Polyfill::Dyn, n);
}

// Configurations.

/// Two configurations that are the same have one width and leave one list of variables.
pub proof fn law_same_configuration(a: FuseBlockConfig, b: FuseBlockConfig)
    ensures
        a.same(b) <==> a.width == b.width && a.variables@ == b.variables@,
{
}

} // verus!
