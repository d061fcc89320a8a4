//! The kernel of a fused broadcasted reduction, as the sequence of operations that every unit
//! of the device goes through.

use crate::reduce::expr::{Argument, AxisSize};
use crate::reduce::fuse::{
    device_type, device_type_of, DeviceType, FuseArg, FuseBlockConfig, MultiBlockPos,
};
use crate::reduce::workers::{elementwise_loop, ElementwiseLoop, Workers};
use cubecl::ir::ElemType;
use cubek::reduce::components::instructions::ReduceOperationConfig;
use cubek::reduce::routines::{
    CubeBlueprint, GlobalReduceBlueprint, PlaneReduceBlueprint, UnitReduceBlueprint,
};
use cubek::reduce::VectorizationMode;
use vstd::prelude::*;

verus! {

/// A configuration block for a reduction operation within a fused kernel: the operation, and
/// the layout of both its input and its output.
#[derive(Debug)]
pub struct ReduceFuseBlock {
    pub op: ReduceOperationConfig,
    pub config_input: FuseBlockConfig,
    pub config_output: FuseBlockConfig,
    pub input: FuseArg,
    pub output: FuseArg,
    /// Which workers reduce a row: one unit, one plane or one cube. The trailing elementwise
    /// block is spread over the same workers.
    pub blueprint: GlobalReduceBlueprint,
}

/// A configuration block for an elementwise operation that follows a reduction.
#[derive(Debug)]
pub struct ElemwiseFuseBlock {
    pub config: FuseBlockConfig,
}

impl Clone for ReduceFuseBlock {
    fn clone(&self) -> (copy: Self)
        ensures
            copy.op == self.op,
            copy.config_input.same(self.config_input),
            copy.config_output.same(self.config_output),
            copy.input == self.input,
            copy.output == self.output,
            copy.blueprint == self.blueprint,
    {
        ReduceFuseBlock {
            op: self.op,
            config_input: self.config_input.clone(),
            config_output: self.config_output.clone(),
            input: self.input,
            output: self.output,
            blueprint: self.blueprint,
        }
    }
}

impl Clone for ElemwiseFuseBlock {
    fn clone(&self) -> (copy: Self)
        ensures
            copy.config.same(self.config),
    {
        ElemwiseFuseBlock { config: self.config.clone() }
    }
}

/// The two sides of a reduction block.
#[derive(Clone, Copy, Debug, PartialEq, Eq, Structural)]
pub enum BlockSide {
    /// What is read into the reduction.
    Input,
    /// What is written from it.
    Output,
}

/// The types that are left open in the code of a kernel and set block by block.
#[derive(Clone, Copy, Debug, PartialEq, Eq, Structural)]
pub enum Polyfill {
    /// The values that are reduced.
    In,
    /// The values that are written.
    Out,
    /// The values that are accumulated.
    Acc,
    /// A variable that is handed from unit to unit.
    Dyn,
}

/// A reduction of every row of the input of `block` along `reduce_axis`.
#[derive(Clone, Copy, Debug, PartialEq, Eq)]
pub struct ReduceCall {
    pub block: usize,
    pub op: ReduceOperationConfig,
    pub reduce_axis: Argument,
    pub out_vec_axis: Argument,
    pub vectorization: VectorizationMode,
}

/// One operation of the kernel. A unit holds the variables that blocks leave to one another, and
/// one value that it works on.
#[derive(Debug, PartialEq, Eq)]
pub enum KernelOp {
    /// Makes room for the variables of one side of a block.
    InitVariables { block: usize, side: BlockSide },
    /// Sets the type of a polyfill.
    SetPolyfill { polyfill: Polyfill, ty: DeviceType },
    /// Opens the input and the output of a block, over what its code fuses to them.
    InitTensors { block: usize },
    /// Reduces the rows with one unit each.
    UnitReduce(ReduceCall, UnitReduceBlueprint),
    /// Reduces the rows with one plane each.
    PlaneReduce(ReduceCall, PlaneReduceBlueprint),
    /// Reduces the rows with one cube each.
    CubeReduce(ReduceCall, CubeBlueprint),
    /// Takes the variable as the value.
    ReadVariable { key: MultiBlockPos },
    /// Takes the value of one lane of the plane as the value.
    PlaneBroadcast { lane: u32 },
    /// Sets the variable to the value.
    WriteVariable { key: MultiBlockPos },
    /// Makes room for one value in the memory that a cube shares, apart from any other.
    NewSharedSlot,
    /// Writes the variable of the first unit of the cube to the newest slot.
    FirstUnitToSlot { key: MultiBlockPos },
    /// Takes what the newest slot holds as the value.
    ReadSlot,
    /// Waits for the other units of the plane.
    SyncPlane,
    /// Waits for the other units of the cube.
    SyncCube,
    /// Runs the trailing elementwise block over the rows.
    Elementwise(ElementwiseLoop),
}

/// A kernel: the operations that it is made of, in order.
pub struct Kernel {
    pub ops: Vec<KernelOp>,
}

impl View for Kernel {
    type V = Seq<KernelOp>;

    open spec fn view(&self) -> Seq<KernelOp> {
        self.ops@
    }
}

impl Kernel {
    /// A kernel that does nothing.
    pub fn new() -> (kernel: Self)
        ensures
            kernel@ == Seq::<KernelOp>::empty(),
    {
        Kernel { ops: Vec::new() }
    }

    fn push(&mut self, op: KernelOp)
        ensures
            final(self)@ == old(self)@.push(op),
    {
        self.ops.push(op);
    }
}

/// The operation that sets `polyfill` to vectors of `width` elements.
pub open spec fn polyfill_op(polyfill: Polyfill, elem: ElemType, width: usize) -> KernelOp {
    KernelOp::SetPolyfill { polyfill, ty: device_type_of(elem, width) }
}

/// The operations that set the types of a block: its input, its output, and what it accumulates,
/// in vectors of the input.
pub open spec fn polyfill_ops(block: ReduceFuseBlock) -> Seq<KernelOp> {
    seq![
        polyfill_op(Polyfill::In, block.input.ty.elem(), block.config_input.width),
        polyfill_op(Polyfill::Out, block.output.ty.elem(), block.config_output.width),
        polyfill_op(Polyfill::Acc, block.input.ty.accumulator().elem(), block.config_input.width),
    ]
}

/// Sets the types of a block according to the precisions of its arguments.
pub fn set_polyfill_block(kernel: &mut Kernel, block: &ReduceFuseBlock)
    ensures
        final(kernel)@ == old(kernel)@ + polyfill_ops(*block),
{
    let input_precision = block.input.precision();
    let output_precision = block.output.precision();
    let acc_precision = input_precision.into_accumulator();

    let input = input_precision.into_type(block.config_input.width);
    kernel.push(KernelOp::SetPolyfill { polyfill: Polyfill::In, ty: input });
    let output = output_precision.into_type(block.config_output.width);
    kernel.push(KernelOp::SetPolyfill { polyfill: Polyfill::Out, ty: output });
    let acc = acc_precision.into_type(block.config_input.width);
    kernel.push(KernelOp::SetPolyfill { polyfill: Polyfill::Acc, ty: acc });
    assert(kernel@ =~= old(kernel)@ + polyfill_ops(*block));
}

/// The operation that reduces with the routine that `blueprint` names.
pub open spec fn reduce_op(call: ReduceCall, blueprint: GlobalReduceBlueprint) -> KernelOp {
    match blueprint {
        GlobalReduceBlueprint::Unit(unit) => KernelOp::UnitReduce(call, unit),
        GlobalReduceBlueprint::Plane(plane) => KernelOp::PlaneReduce(call, plane),
        GlobalReduceBlueprint::Cube(cube) => KernelOp::CubeReduce(call, cube),
    }
}

/// A reduction in vectors that run along the reduced axis.
pub open spec fn parallel_call(
    block: usize,
    op: ReduceOperationConfig,
    reduce_axis: Argument,
    out_vec_axis: Argument,
) -> ReduceCall {
    ReduceCall {
        block,
        op,
        reduce_axis,
        out_vec_axis,
        vectorization: VectorizationMode::Parallel,
    }
}

/// Executes a single reduction step with the routine that `blueprint` names, and returns the
/// size of the axis that is reduced.
pub fn reduce_step(
    kernel: &mut Kernel,
    block: usize,
    reduce_axis: Argument,
    out_vec_axis: Argument,
    op: ReduceOperationConfig,
    blueprint: GlobalReduceBlueprint,
) -> (axis_size: AxisSize)
    ensures
        final(kernel)@ == old(kernel)@.push(
            reduce_op(parallel_call(block, op, reduce_axis, out_vec_axis), blueprint),
        ),
        axis_size == (AxisSize { block, axis: reduce_axis }),
{
    let call = ReduceCall {
        block,
        op,
        reduce_axis,
        out_vec_axis,
        vectorization: VectorizationMode::Parallel,
    };
    let axis_size = AxisSize { block, axis: reduce_axis };

    match blueprint {
        GlobalReduceBlueprint::Unit(unit) => {
            kernel.push(KernelOp::UnitReduce(call, unit));
        },
        GlobalReduceBlueprint::Plane(plane) => {
            kernel.push(KernelOp::PlaneReduce(call, plane));
        },
        GlobalReduceBlueprint::Cube(cube) => {
            kernel.push(KernelOp::CubeReduce(call, cube));
        },
    }

    axis_size
}

/// The operations that hand one variable to every unit of a plane or a cube.
pub open spec fn share_one(
    key: MultiBlockPos,
    elem: ElemType,
    width: usize,
    blueprint: GlobalReduceBlueprint,
) -> Seq<KernelOp> {
    seq![polyfill_op(Polyfill::Dyn, elem, width)] + match blueprint {
        GlobalReduceBlueprint::Unit(_) => seq![],
        GlobalReduceBlueprint::Plane(_) => seq![
            KernelOp::ReadVariable { key },
            KernelOp::PlaneBroadcast { lane: 0 },
            KernelOp::WriteVariable { key },
        ],
        GlobalReduceBlueprint::Cube(_) => seq![
            KernelOp::NewSharedSlot,
            KernelOp::FirstUnitToSlot { key },
            KernelOp::SyncCube,
            KernelOp::ReadSlot,
            KernelOp::WriteVariable { key },
        ],
    }
}

/// The operations that hand the variables to every unit of a plane or a cube, one after the
/// other.
pub open spec fn share_ops(
    keys: Seq<(MultiBlockPos, ElemType)>,
    width: usize,
    blueprint: GlobalReduceBlueprint,
) -> Seq<KernelOp>
    decreases keys.len(),
{
    if keys.len() == 0 {
        seq![]
    } else {
        share_ops(keys.drop_last(), width, blueprint) + share_one(
            keys.last().0,
            keys.last().1,
            width,
            blueprint,
        )
    }
}

/// Hands the multi-block variables of a reduction's write block to every unit of the plane or
/// the cube that reduced the row. They are registers: only the routine's writing unit holds the
/// reduced value and whatever the write block derived from it, while the next block's read and
/// the trailing elementwise block run on every unit.
pub fn share_variables(
    kernel: &mut Kernel,
    block: &FuseBlockConfig,
    blueprint: GlobalReduceBlueprint,
)
    ensures
        final(kernel)@ == old(kernel)@ + share_ops(block.variables@, block.width, blueprint),
{
    let mut keys: Vec<(MultiBlockPos, ElemType)> = Vec::new();
    block.multi_block_variables(&mut keys);
    assert(keys@ =~= block.variables@);

    let mut i: usize = 0;
    while i < keys.len()
        invariant
            i <= keys.len(),
            keys@ == block.variables@,
            kernel@ == old(kernel)@ + share_ops(keys@.take(i as int), block.width, blueprint),
        decreases keys.len() - i,
    {
        let ghost before = kernel@;
        let (key, elem) = keys[i];
        kernel.push(
            KernelOp::SetPolyfill {
                polyfill: Polyfill::Dyn,
                ty: device_type(elem, block.width),
            },
        );

        match blueprint {
            GlobalReduceBlueprint::Unit(_) => {},
            GlobalReduceBlueprint::Plane(_) => {
                kernel.push(KernelOp::ReadVariable { key });
                kernel.push(KernelOp::PlaneBroadcast { lane: 0 });
                kernel.push(KernelOp::WriteVariable { key });
            },
            GlobalReduceBlueprint::Cube(_) => {
                kernel.push(KernelOp::NewSharedSlot);
                kernel.push(KernelOp::FirstUnitToSlot { key });
                kernel.push(KernelOp::SyncCube);
                kernel.push(KernelOp::ReadSlot);
                kernel.push(KernelOp::WriteVariable { key });
            },
        }

        proof {
            let next = keys@.take(i + 1);
            assert(next.drop_last() =~= keys@.take(i as int));
            assert(next.last() == keys@[i as int]);
            assert(kernel@ =~= before + share_one(key, elem, block.width, blueprint));
            assert(kernel@ =~= old(kernel)@ + share_ops(next, block.width, blueprint));
        }
        i += 1;
    }
    assert(keys@.take(i as int) =~= keys@);
}

/// The operations of one block: its types, its reduction, and, where more than one unit works on
/// a row, the sharing of the variables that it leaves.
pub open spec fn block_ops(
    i: usize,
    block: ReduceFuseBlock,
    reduce_axis: Argument,
    out_vec_axis: Argument,
) -> Seq<KernelOp> {
    polyfill_ops(block) + seq![
        KernelOp::InitTensors { block: i },
        reduce_op(parallel_call(i, block.op, reduce_axis, out_vec_axis), block.blueprint),
    ] + if block.blueprint is Unit {
        seq![]
    } else {
        share_ops(block.config_output.variables@, block.config_output.width, block.blueprint)
    }
}

/// The operations of the blocks, one block after the other.
pub open spec fn blocks_ops(
    blocks: Seq<ReduceFuseBlock>,
    reduce_axis: Argument,
    out_vec_axis: Argument,
) -> Seq<KernelOp>
    decreases blocks.len(),
{
    if blocks.len() == 0 {
        seq![]
    } else {
        blocks_ops(blocks.drop_last(), reduce_axis, out_vec_axis) + block_ops(
            (blocks.len() - 1) as usize,
            blocks.last(),
            reduce_axis,
            out_vec_axis,
        )
    }
}

/// The workers that reduce a row.
pub open spec fn workers_of(blueprint: GlobalReduceBlueprint) -> Workers {
    match blueprint {
        GlobalReduceBlueprint::Unit(_) => Workers::Unit,
        GlobalReduceBlueprint::Plane(_) => Workers::Plane,
        GlobalReduceBlueprint::Cube(_) => Workers::Cube,
    }
}

/// The operations of the trailing elementwise block. It is spread over the workers of the first
/// block, after they have waited for one another, and covers the axis that the last block
/// reduced.
pub open spec fn end_ops(
    blocks: Seq<ReduceFuseBlock>,
    end: ElemwiseFuseBlock,
    reduce_axis: Argument,
    rows: Argument,
) -> Seq<KernelOp> {
    let axis_size = AxisSize { block: (blocks.len() - 1) as usize, axis: reduce_axis };
    let workers = workers_of(blocks[0].blueprint);
    let wait = match workers {
        Workers::Unit => seq![],
        Workers::Plane => seq![KernelOp::SyncPlane],
        Workers::Cube => seq![KernelOp::SyncCube],
    };
    wait.push(KernelOp::Elementwise(elementwise_loop(workers, axis_size, end.config.width, rows)))
}

/// The operations of the blocks and of the elementwise block that may follow them.
pub open spec fn many_ops(
    reduce_axis: Argument,
    out_vec_axis: Argument,
    rows: Argument,
    blocks: Seq<ReduceFuseBlock>,
    block_end: Option<ElemwiseFuseBlock>,
) -> Seq<KernelOp> {
    blocks_ops(blocks, reduce_axis, out_vec_axis) + match block_end {
        Some(end) => end_ops(blocks, end, reduce_axis, rows),
        None => seq![],
    }
}

/// Executes a sequence of reduction blocks followed by an optional trailing elementwise block.
///
/// The elementwise block runs over the row each worker reduced: a unit walks its row alone,
/// while the lanes of a plane or the units of a cube stride over theirs, after a sync that makes
/// the reduced value written by their first lane visible to the others.
pub fn reduce_many(
    kernel: &mut Kernel,
    reduce_axis: Argument,
    out_vec_axis: Argument,
    rows: Argument,
    blocks: &Vec<ReduceFuseBlock>,
    block_end: &Option<ElemwiseFuseBlock>,
)
    requires
        block_end is Some ==> blocks@.len() > 0,
    ensures
        final(kernel)@ == old(kernel)@ + many_ops(
            reduce_axis,
            out_vec_axis,
            rows,
            blocks@,
            *block_end,
        ),
{
    let mut axis_size = AxisSize { block: 0, axis: reduce_axis };

    let mut i: usize = 0;
    while i < blocks.len()
        invariant
            i <= blocks.len(),
            kernel@ == old(kernel)@ + blocks_ops(
                blocks@.take(i as int),
                reduce_axis,
                out_vec_axis,
            ),
            i > 0 ==> axis_size == (AxisSize { block: (i - 1) as usize, axis: reduce_axis }),
        decreases blocks.len() - i,
    {
        let ghost before = kernel@;
        let block = &blocks[i];

        set_polyfill_block(kernel, block);
        kernel.push(KernelOp::InitTensors { block: i });

        axis_size = reduce_step(
            kernel,
            i,
            reduce_axis,
            out_vec_axis,
            block.op,
            block.blueprint,
        );

        let shared = match block.blueprint {
            GlobalReduceBlueprint::Unit(_) => false,
            _ => true,
        };
        if shared {
            share_variables(kernel, &block.config_output, block.blueprint);
        }

        proof {
            let next = blocks@.take(i + 1);
            assert(next.drop_last() =~= blocks@.take(i as int));
            assert(next.last() == blocks@[i as int]);
            assert(kernel@ =~= before + block_ops(i, *block, reduce_axis, out_vec_axis));
            assert(kernel@ =~= old(kernel)@ + blocks_ops(next, reduce_axis, out_vec_axis));
        }
        i += 1;
    }
    assert(blocks@.take(i as int) =~= blocks@);

    if let Some(end) = block_end {
        let first = &blocks[0];
        let mut workers = Workers::Unit;

        if let GlobalReduceBlueprint::Plane(_) = first.blueprint {
            workers = Workers::Plane;
            kernel.push(KernelOp::SyncPlane);
        }

        if let GlobalReduceBlueprint::Cube(_) = first.blueprint {
            workers = Workers::Cube;
            kernel.push(KernelOp::SyncCube);
        }

        let width: usize = end.config.width;
        kernel.push(KernelOp::Elementwise(ElementwiseLoop::new(workers, axis_size, width, rows)));
    }
    assert(kernel@ =~= old(kernel)@ + many_ops(
        reduce_axis,
        out_vec_axis,
        rows,
        blocks@,
        *block_end,
    ));
}

/// The operations that make room for the variables of every block, the input side of a block
/// before its output side.
pub open spec fn init_ops(blocks: nat) -> Seq<KernelOp> {
    Seq::new(
        2 * blocks,
        |k: int|
            KernelOp::InitVariables {
                block: (k / 2) as usize,
                side: if k % 2 == 0 {
                    BlockSide::Input
                } else {
                    BlockSide::Output
                },
            },
    )
}

/// The operations of a whole kernel.
pub open spec fn kernel_ops(
    reduce_axis: Argument,
    out_vec_axis: Argument,
    rows: Argument,
    blocks: Seq<ReduceFuseBlock>,
    block_end: Option<ElemwiseFuseBlock>,
) -> Seq<KernelOp> {
    init_ops(blocks.len()) + many_ops(reduce_axis, out_vec_axis, rows, blocks, block_end)
}

/// The entry point for a broadcasted reduction kernel: makes room for the variables of every
/// block, then executes the reductions.
///
/// * `reduce_axis` - The dimension along which the reduction is performed.
/// * `rows` - How many vectors are reduced, one per worker.
/// * `blocks` - A sequence of reduction operations to execute.
/// * `block_end` - An optional elementwise block to execute after reductions are complete.
pub fn reduce_kernel_broadcasted(
    kernel: &mut Kernel,
    reduce_axis: Argument,
    out_vec_axis: Argument,
    rows: Argument,
    blocks: &Vec<ReduceFuseBlock>,
    block_end: &Option<ElemwiseFuseBlock>,
)
    requires
        block_end is Some ==> blocks@.len() > 0,
    ensures
        final(kernel)@ == old(kernel)@ + kernel_ops(
            reduce_axis,
            out_vec_axis,
            rows,
            blocks@,
            *block_end,
        ),
{
    let mut i: usize = 0;
    while i < blocks.len()
        invariant
            i <= blocks.len(),
            kernel@ == old(kernel)@ + init_ops(i as nat),
        decreases blocks.len() - i,
    {
        kernel.push(KernelOp::InitVariables { block: i, side: BlockSide::Input });
        kernel.push(KernelOp::InitVariables { block: i, side: BlockSide::Output });
        assert(kernel@ =~= old(kernel)@ + init_ops((i + 1) as nat));
        i += 1;
    }

    reduce_many(kernel, reduce_axis, out_vec_axis, rows, blocks, block_end);
    assert(kernel@ =~= old(kernel)@ + kernel_ops(
        reduce_axis,
        out_vec_axis,
        rows,
        blocks@,
        *block_end,
    ));
}

} // verus!
