//! What holds of the variables that the units of a plane or a cube share.

use crate::reduce::expr::Argument;
use crate::reduce::fuse::MultiBlockPos;
use crate::reduce::kernel::{
    block_ops, blocks_ops, end_ops, init_ops, kernel_ops, many_ops, parallel_call, polyfill_ops,
    reduce_op, share_one, share_ops, ElemwiseFuseBlock, KernelOp, ReduceFuseBlock,
};
use cubecl::ir::ElemType;
use cubek::reduce::routines::GlobalReduceBlueprint;
use vstd::prelude::*;

verus! {

/// What the units of one plane or one cube hold, the first unit first: the variables of each
/// unit, the value that each works on, and the newest slot of the memory that they share.
pub struct GroupState<V> {
    pub variables: Seq<Map<MultiBlockPos, V>>,
    pub values: Seq<V>,
    pub slot: V,
}

/// What an operation does to the units of a group. The operations that move variables between
/// units do what they say, and the ones that set types or wait change nothing. What the others
/// do is up to the code that is fused into the kernel, which `device` stands for.
pub open spec fn step<V>(
    op: KernelOp,
    state: GroupState<V>,
    device: spec_fn(KernelOp, GroupState<V>) -> GroupState<V>,
) -> GroupState<V> {
    let units = state.variables.len();
    match op {
        KernelOp::ReadVariable { key } => GroupState {
            values: Seq::new(units, |u: int| state.variables[u][key]),
            ..state
        },
        KernelOp::PlaneBroadcast { lane } => GroupState {
            values: Seq::new(units, |u: int| state.values[lane as int]),
            ..state
        },
        KernelOp::WriteVariable { key } => GroupState {
            variables: Seq::new(units, |u: int| state.variables[u].insert(key, state.values[u])),
            ..state
        },
        KernelOp::NewSharedSlot => GroupState { slot: arbitrary(), ..state },
        KernelOp::FirstUnitToSlot { key } => GroupState { slot: state.variables[0][key], ..state },
        KernelOp::ReadSlot => GroupState {
            values: Seq::new(units, |u: int| state.slot),
            ..state
        },
        KernelOp::SetPolyfill { .. } | KernelOp::SyncPlane | KernelOp::SyncCube => state,
        _ => device(op, state),
    }
}

/// What the operations do, one after the other.
pub open spec fn run<V>(
    ops: Seq<KernelOp>,
    state: GroupState<V>,
    device: spec_fn(KernelOp, GroupState<V>) -> GroupState<V>,
) -> GroupState<V>
    decreases ops.len(),
{
    if ops.len() == 0 {
        state
    } else {
        step(ops.last(), run(ops.drop_last(), state, device), device)
    }
}

proof fn lemma_run_push<V>(
    ops: Seq<KernelOp>,
    op: KernelOp,
    state: GroupState<V>,
    device: spec_fn(KernelOp, GroupState<V>) -> GroupState<V>,
)
    ensures
        run(ops.push(op), state, device) == step(op, run(ops, state, device), device),
{
    assert(ops.push(op).drop_last() =~= ops);
}

proof fn lemma_run_add<V>(
    a: Seq<KernelOp>,
    b: Seq<KernelOp>,
    state: GroupState<V>,
    device: spec_fn(KernelOp, GroupState<V>) -> GroupState<V>,
)
    ensures
        run(a + b, state, device) == run(b, run(a, state, device), device),
    decreases b.len(),
{
    if b.len() == 0 {
        assert(a + b =~= a);
    } else {
        lemma_run_add(a, b.drop_last(), state, device);
        assert((a + b).drop_last() =~= a + b.drop_last());
    }
}

/// Whether the variable is one of `keys`.
pub open spec fn among(keys: Seq<(MultiBlockPos, ElemType)>, key: MultiBlockPos) -> bool {
    exists|i: int| 0 <= i < keys.len() && (#[trigger] keys[i]).0 == key
}

/// Whether the variable is `value` on every unit.
pub open spec fn holds<V>(state: GroupState<V>, key: MultiBlockPos, value: V) -> bool {
    forall|u: int|
        0 <= u < state.variables.len() ==> (#[trigger] state.variables[u])[key] == value
}

proof fn lemma_share_one<V>(
    key: MultiBlockPos,
    elem: ElemType,
    width: usize,
    blueprint: GlobalReduceBlueprint,
    state: GroupState<V>,
    device: spec_fn(KernelOp, GroupState<V>) -> GroupState<V>,
)
    requires
        state.variables.len() > 0,
        !(blueprint is Unit),
    ensures
        run(share_one(key, elem, width, blueprint), state, device).variables == Seq::new(
            state.variables.len(),
            |u: int| state.variables[u].insert(key, state.variables[0][key]),
        ),
{
    let ops = share_one(key, elem, width, blueprint);
    let none = Seq::<KernelOp>::empty();
    let one = none.push(ops[0]);
    let two = one.push(ops[1]);
    let three = two.push(ops[2]);
    let four = three.push(ops[3]);
    lemma_run_push(none, ops[0], state, device);
    lemma_run_push(one, ops[1], state, device);
    lemma_run_push(two, ops[2], state, device);
    lemma_run_push(three, ops[3], state, device);
    if blueprint is Plane {
        assert(ops =~= four);
    } else {
        let five = four.push(ops[4]);
        lemma_run_push(four, ops[4], state, device);
        lemma_run_push(five, ops[5], state, device);
        assert(ops =~= five.push(ops[5]));
    }
    assert(run(ops, state, device).variables =~= Seq::new(
        state.variables.len(),
        |u: int| state.variables[u].insert(key, state.variables[0][key]),
    ));
}

/// After the variables of a block are shared, every unit of the plane or the cube holds those
/// that the first unit held, and every other variable is what it was.
pub proof fn law_sharing<V>(
    keys: Seq<(MultiBlockPos, ElemType)>,
    width: usize,
    blueprint: GlobalReduceBlueprint,
    state: GroupState<V>,
    device: spec_fn(KernelOp, GroupState<V>) -> GroupState<V>,
    u: int,
    key: MultiBlockPos,
)
    requires
        !(blueprint is Unit),
        0 <= u < state.variables.len(),
    ensures
        ({
            let after = run(share_ops(keys, width, blueprint), state, device);
            &&& after.variables.len() == state.variables.len()
            &&& after.variables[u][key] == if among(keys, key) {
                state.variables[0][key]
            } else {
                state.variables[u][key]
            }
        }),
    decreases keys.len(),
{
    if keys.len() > 0 {
        let rest = keys.drop_last();
        let (last, elem) = keys.last();
        let before = share_ops(rest, width, blueprint);
        let middle = run(before, state, device);
        law_sharing(rest, width, blueprint, state, device, u, key);
        law_sharing(rest, width, blueprint, state, device, 0, last);
        lemma_run_add(before, share_one(last, elem, width, blueprint), state, device);
        lemma_share_one(last, elem, width, blueprint, middle, device);
        assert(among(rest, key) || last == key <==> among(keys, key)) by {
            if among(rest, key) {
                let i = choose|i: int| 0 <= i < rest.len() && (#[trigger] rest[i]).0 == key;
                assert(keys[i].0 == key);
            }
            if last == key {
                assert(keys[keys.len() - 1].0 == key);
            }
            if among(keys, key) && last != key {
                let i = choose|i: int| 0 <= i < keys.len() && (#[trigger] keys[i]).0 == key;
                assert(rest[i].0 == key);
            }
        }
    }
}

/// A unit that reduces a row alone shares with nobody: nothing changes.
pub proof fn law_unit_shares_with_nobody<V>(
    keys: Seq<(MultiBlockPos, ElemType)>,
    width: usize,
    blueprint: GlobalReduceBlueprint,
    state: GroupState<V>,
    device: spec_fn(KernelOp, GroupState<V>) -> GroupState<V>,
)
    requires
        blueprint is Unit,
    ensures
        run(share_ops(keys, width, blueprint), state, device) == state,
    decreases keys.len(),
{
    if keys.len() > 0 {
        let before = share_ops(keys.drop_last(), width, blueprint);
        let (key, elem) = keys.last();
        let last = share_one(key, elem, width, blueprint);
        let none = Seq::<KernelOp>::empty();
        law_unit_shares_with_nobody(keys.drop_last(), width, blueprint, state, device);
        lemma_run_add(before, last, state, device);
        lemma_run_push(none, last[0], state, device);
        assert(last =~= none.push(last[0]));
    }
}

/// Whether `device` keeps the units of a group together.
pub open spec fn keeps_group<V>(
    device: spec_fn(KernelOp, GroupState<V>) -> GroupState<V>,
) -> bool {
    forall|op: KernelOp, state: GroupState<V>|
        (#[trigger] device(op, state)).variables.len() == state.variables.len()
}

/// The operations of a block before its variables are shared.
pub open spec fn own_ops(
    i: usize,
    block: ReduceFuseBlock,
    reduce_axis: Argument,
    out_vec_axis: Argument,
) -> Seq<KernelOp> {
    polyfill_ops(block) + seq![
        KernelOp::InitTensors { block: i },
        reduce_op(parallel_call(i, block.op, reduce_axis, out_vec_axis), block.blueprint),
    ]
}

proof fn lemma_own_ops<V>(
    i: usize,
    block: ReduceFuseBlock,
    reduce_axis: Argument,
    out_vec_axis: Argument,
    state: GroupState<V>,
    device: spec_fn(KernelOp, GroupState<V>) -> GroupState<V>,
)
    ensures
        run(own_ops(i, block, reduce_axis, out_vec_axis), state, device) == device(
            reduce_op(parallel_call(i, block.op, reduce_axis, out_vec_axis), block.blueprint),
            device(KernelOp::InitTensors { block: i }, state),
        ),
{
    let ops = own_ops(i, block, reduce_axis, out_vec_axis);
    let none = Seq::<KernelOp>::empty();
    let one = none.push(ops[0]);
    let two = one.push(ops[1]);
    let three = two.push(ops[2]);
    let four = three.push(ops[3]);
    lemma_run_push(none, ops[0], state, device);
    lemma_run_push(one, ops[1], state, device);
    lemma_run_push(two, ops[2], state, device);
    lemma_run_push(three, ops[3], state, device);
    lemma_run_push(four, ops[4], state, device);
    assert(ops =~= four.push(ops[4]));
}

proof fn lemma_block<V>(
    i: usize,
    block: ReduceFuseBlock,
    reduce_axis: Argument,
    out_vec_axis: Argument,
    state: GroupState<V>,
    device: spec_fn(KernelOp, GroupState<V>) -> GroupState<V>,
)
    requires
        keeps_group(device),
    ensures
        ({
            let middle = run(own_ops(i, block, reduce_axis, out_vec_axis), state, device);
            &&& middle.variables.len() == state.variables.len()
            &&& run(block_ops(i, block, reduce_axis, out_vec_axis), state, device)
                == if block.blueprint is Unit {
                middle
            } else {
                run(
                    share_ops(
                        block.config_output.variables@,
                        block.config_output.width,
                        block.blueprint,
                    ),
                    middle,
                    device,
                )
            }
        }),
{
    let own = own_ops(i, block, reduce_axis, out_vec_axis);
    lemma_own_ops(i, block, reduce_axis, out_vec_axis, state, device);
    if block.blueprint is Unit {
        assert(block_ops(i, block, reduce_axis, out_vec_axis) =~= own);
    } else {
        let shared = share_ops(
            block.config_output.variables@,
            block.config_output.width,
            block.blueprint,
        );
        assert(block_ops(i, block, reduce_axis, out_vec_axis) =~= own + shared);
        lemma_run_add(own, shared, state, device);
    }
}

/// Whether the units of `state` are those that share a row: more than one of them only where
/// the block is reduced by a plane or a cube.
pub open spec fn fits<V>(block: ReduceFuseBlock, state: GroupState<V>) -> bool {
    &&& state.variables.len() > 0
    &&& block.blueprint is Unit ==> state.variables.len() == 1
}

/// After a block, whatever its reduction did, every unit that shares a row holds, of each variable
/// that the block leaves, what the first of them held once the row was reduced.
pub proof fn law_block_hands_over<V>(
    i: usize,
    block: ReduceFuseBlock,
    reduce_axis: Argument,
    out_vec_axis: Argument,
    state: GroupState<V>,
    device: spec_fn(KernelOp, GroupState<V>) -> GroupState<V>,
    key: MultiBlockPos,
)
    requires
        keeps_group(device),
        fits(block, state),
        among(block.config_output.variables@, key),
    ensures
        holds(
            run(block_ops(i, block, reduce_axis, out_vec_axis), state, device),
            key,
            run(own_ops(i, block, reduce_axis, out_vec_axis), state, device).variables[0][key],
        ),
{
    let after = run(block_ops(i, block, reduce_axis, out_vec_axis), state, device);
    let middle = run(own_ops(i, block, reduce_axis, out_vec_axis), state, device);
    let keys = block.config_output.variables@;
    let width = block.config_output.width;
    lemma_block(i, block, reduce_axis, out_vec_axis, state, device);
    if !(block.blueprint is Unit) {
        law_sharing(keys, width, block.blueprint, middle, device, 0, key);
        assert forall|u: int| 0 <= u < after.variables.len() implies (
        #[trigger] after.variables[u])[key] == middle.variables[0][key] by {
            law_sharing(keys, width, block.blueprint, middle, device, u, key);
        }
    }
}

/// Whether `device` leaves the variable as it is in every block after `i`.
pub open spec fn kept_after<V>(
    i: int,
    key: MultiBlockPos,
    device: spec_fn(KernelOp, GroupState<V>) -> GroupState<V>,
) -> bool {
    forall|op: KernelOp, state: GroupState<V>, u: int|
        later_block(op, i) && 0 <= u < state.variables.len() ==> (#[trigger] device(
            op,
            state,
        ).variables[u])[key] == state.variables[u][key]
}

/// Whether the operation opens or reduces a block after `i`.
pub open spec fn later_block(op: KernelOp, i: int) -> bool {
    match op {
        KernelOp::InitTensors { block } => block > i,
        KernelOp::UnitReduce(call, _) => call.block > i,
        KernelOp::PlaneReduce(call, _) => call.block > i,
        KernelOp::CubeReduce(call, _) => call.block > i,
        _ => false,
    }
}

proof fn lemma_block_keeps<V>(
    i: usize,
    block: ReduceFuseBlock,
    reduce_axis: Argument,
    out_vec_axis: Argument,
    state: GroupState<V>,
    device: spec_fn(KernelOp, GroupState<V>) -> GroupState<V>,
    earlier: int,
    key: MultiBlockPos,
    value: V,
)
    requires
        keeps_group(device),
        state.variables.len() > 0,
        earlier < i,
        kept_after(earlier, key, device),
        holds(state, key, value),
    ensures
        holds(run(block_ops(i, block, reduce_axis, out_vec_axis), state, device), key, value),
{
    let after = run(block_ops(i, block, reduce_axis, out_vec_axis), state, device);
    let middle = run(own_ops(i, block, reduce_axis, out_vec_axis), state, device);
    let opened = device(KernelOp::InitTensors { block: i }, state);
    let keys = block.config_output.variables@;
    let width = block.config_output.width;
    lemma_block(i, block, reduce_axis, out_vec_axis, state, device);
    lemma_own_ops(i, block, reduce_axis, out_vec_axis, state, device);
    assert forall|u: int| 0 <= u < state.variables.len() implies (
    #[trigger] middle.variables[u])[key] == value by {
        assert(opened.variables[u][key] == state.variables[u][key]);
    }
    if !(block.blueprint is Unit) {
        law_sharing(keys, width, block.blueprint, middle, device, 0, key);
        assert forall|u: int| 0 <= u < after.variables.len() implies (
        #[trigger] after.variables[u])[key] == value by {
            law_sharing(keys, width, block.blueprint, middle, device, u, key);
        }
    }
}

proof fn lemma_run_keeps_group<V>(
    ops: Seq<KernelOp>,
    state: GroupState<V>,
    device: spec_fn(KernelOp, GroupState<V>) -> GroupState<V>,
)
    requires
        keeps_group(device),
    ensures
        run(ops, state, device).variables.len() == state.variables.len(),
    decreases ops.len(),
{
    if ops.len() > 0 {
        lemma_run_keeps_group(ops.drop_last(), state, device);
    }
}

/// The state in which block `i` is reduced: what the kernel does before it is done.
pub open spec fn before_block<V>(
    reduce_axis: Argument,
    out_vec_axis: Argument,
    blocks: Seq<ReduceFuseBlock>,
    state: GroupState<V>,
    device: spec_fn(KernelOp, GroupState<V>) -> GroupState<V>,
    i: int,
) -> GroupState<V> {
    run(
        init_ops(blocks.len()) + blocks_ops(blocks.take(i), reduce_axis, out_vec_axis),
        state,
        device,
    )
}

/// What the first unit holds of the variable right after the reduction of block `i`.
pub open spec fn left_by<V>(
    reduce_axis: Argument,
    out_vec_axis: Argument,
    blocks: Seq<ReduceFuseBlock>,
    state: GroupState<V>,
    device: spec_fn(KernelOp, GroupState<V>) -> GroupState<V>,
    i: int,
    key: MultiBlockPos,
) -> V {
    run(
        own_ops(i as usize, blocks[i], reduce_axis, out_vec_axis),
        before_block(reduce_axis, out_vec_axis, blocks, state, device, i),
        device,
    ).variables[0][key]
}

proof fn lemma_blocks_hold<V>(
    blocks: Seq<ReduceFuseBlock>,
    reduce_axis: Argument,
    out_vec_axis: Argument,
    state: GroupState<V>,
    device: spec_fn(KernelOp, GroupState<V>) -> GroupState<V>,
    i: int,
    key: MultiBlockPos,
)
    requires
        blocks.len() <= usize::MAX,
        keeps_group(device),
        0 <= i < blocks.len(),
        fits(blocks[i], state),
        among(blocks[i].config_output.variables@, key),
        kept_after(i, key, device),
    ensures
        holds(
            run(blocks_ops(blocks, reduce_axis, out_vec_axis), state, device),
            key,
            run(
                own_ops(i as usize, blocks[i], reduce_axis, out_vec_axis),
                run(blocks_ops(blocks.take(i), reduce_axis, out_vec_axis), state, device),
                device,
            ).variables[0][key],
        ),
    decreases blocks.len(),
{
    let rest = blocks.drop_last();
    let last = (blocks.len() - 1) as usize;
    let before = blocks_ops(rest, reduce_axis, out_vec_axis);
    let state_before = run(before, state, device);
    lemma_run_keeps_group(before, state, device);
    lemma_run_add(
        before,
        block_ops(last, blocks.last(), reduce_axis, out_vec_axis),
        state,
        device,
    );
    if i == last {
        assert(blocks.take(i) =~= rest);
        law_block_hands_over(
            last,
            blocks.last(),
            reduce_axis,
            out_vec_axis,
            state_before,
            device,
            key,
        );
    } else {
        assert(blocks.take(i) =~= rest.take(i));
        lemma_blocks_hold(rest, reduce_axis, out_vec_axis, state, device, i, key);
        lemma_block_keeps(
            last,
            blocks.last(),
            reduce_axis,
            out_vec_axis,
            state_before,
            device,
            i,
            key,
            run(
                own_ops(i as usize, blocks[i], reduce_axis, out_vec_axis),
                run(blocks_ops(blocks.take(i), reduce_axis, out_vec_axis), state, device),
                device,
            ).variables[0][key],
        );
    }
}

/// A variable that a block leaves, and that the later reductions do not write, reaches the
/// trailing elementwise block on all the units that share a row: each of them holds what the first
/// held right after the reduction of the block. Where there is no elementwise block, each holds it
/// once the kernel is done.
pub proof fn law_variables_reach_the_end<V>(
    reduce_axis: Argument,
    out_vec_axis: Argument,
    rows: Argument,
    blocks: Seq<ReduceFuseBlock>,
    end: ElemwiseFuseBlock,
    state: GroupState<V>,
    device: spec_fn(KernelOp, GroupState<V>) -> GroupState<V>,
    i: int,
    key: MultiBlockPos,
)
    requires
        blocks.len() <= usize::MAX,
        keeps_group(device),
        0 <= i < blocks.len(),
        fits(blocks[i], state),
        among(blocks[i].config_output.variables@, key),
        kept_after(i, key, device),
    ensures
        holds(
            run(
                kernel_ops(reduce_axis, out_vec_axis, rows, blocks, Some(end)).drop_last(),
                state,
                device,
            ),
            key,
            left_by(reduce_axis, out_vec_axis, blocks, state, device, i, key),
        ),
        holds(
            run(kernel_ops(reduce_axis, out_vec_axis, rows, blocks, None), state, device),
            key,
            left_by(reduce_axis, out_vec_axis, blocks, state, device, i, key),
        ),
{
    let first = init_ops(blocks.len());
    let middle = blocks_ops(blocks, reduce_axis, out_vec_axis);
    let reduced = first + middle;
    let wait = end_ops(blocks, end, reduce_axis, rows).drop_last();
    let opened = run(first, state, device);
    lemma_run_keeps_group(first, state, device);
    lemma_run_add(first, middle, state, device);
    lemma_run_add(
        first,
        blocks_ops(blocks.take(i), reduce_axis, out_vec_axis),
        state,
        device,
    );
    lemma_blocks_hold(blocks, reduce_axis, out_vec_axis, opened, device, i, key);
    assert(kernel_ops(reduce_axis, out_vec_axis, rows, blocks, None) =~= reduced);

    assert(kernel_ops(reduce_axis, out_vec_axis, rows, blocks, Some(end)).drop_last() =~= reduced
        + wait);
    lemma_run_add(reduced, wait, state, device);
    let before = run(reduced, state, device);
    if wait.len() > 0 {
        let none = Seq::<KernelOp>::empty();
        lemma_run_push(none, wait[0], before, device);
        assert(wait =~= none.push(wait[0]));
    }
}

/// Whether the operation at `n` writes to a new slot, which the cube waits for and then reads.
pub open spec fn guarded_write(ops: Seq<KernelOp>, n: int) -> bool {
    &&& 1 <= n < ops.len() - 2
    &&& ops[n - 1] is NewSharedSlot
    &&& ops[n] is FirstUnitToSlot
    &&& ops[n + 1] is SyncCube
    &&& ops[n + 2] is ReadSlot
}

/// Whether every write to shared memory goes to a slot of its own and is waited for by the whole
/// cube before it is read, and every read is of such a write.
pub open spec fn guarded(ops: Seq<KernelOp>) -> bool {
    &&& forall|n: int|
        0 <= n < ops.len() && (#[trigger] ops[n]) is FirstUnitToSlot ==> guarded_write(ops, n)
    &&& forall|n: int|
        0 <= n < ops.len() && (#[trigger] ops[n]) is ReadSlot ==> guarded_write(ops, n - 2)
}

proof fn lemma_guarded_add(a: Seq<KernelOp>, b: Seq<KernelOp>)
    requires
        guarded(a),
        guarded(b),
    ensures
        guarded(a + b),
{
    let ops = a + b;
    assert forall|n: int| 0 <= n < ops.len() && (#[trigger] ops[n]) is FirstUnitToSlot implies
        guarded_write(ops, n) by {
        if n < a.len() {
            assert(a[n] is FirstUnitToSlot);
        } else {
            assert(b[n - a.len()] is FirstUnitToSlot);
        }
    }
    assert forall|n: int| 0 <= n < ops.len() && (#[trigger] ops[n]) is ReadSlot implies
        guarded_write(ops, n - 2) by {
        if n < a.len() {
            assert(a[n] is ReadSlot);
        } else {
            assert(b[n - a.len()] is ReadSlot);
        }
    }
}

proof fn lemma_guarded_share(
    keys: Seq<(MultiBlockPos, ElemType)>,
    width: usize,
    blueprint: GlobalReduceBlueprint,
)
    ensures
        guarded(share_ops(keys, width, blueprint)),
    decreases keys.len(),
{
    if keys.len() > 0 {
        let last = share_one(keys.last().0, keys.last().1, width, blueprint);
        lemma_guarded_share(keys.drop_last(), width, blueprint);
        lemma_guarded_add(share_ops(keys.drop_last(), width, blueprint), last);
    }
}

proof fn lemma_guarded_blocks(
    blocks: Seq<ReduceFuseBlock>,
    reduce_axis: Argument,
    out_vec_axis: Argument,
)
    ensures
        guarded(blocks_ops(blocks, reduce_axis, out_vec_axis)),
    decreases blocks.len(),
{
    if blocks.len() > 0 {
        let i = (blocks.len() - 1) as usize;
        let block = blocks.last();
        let own = own_ops(i, block, reduce_axis, out_vec_axis);
        let shared = if block.blueprint is Unit {
            seq![]
        } else {
            share_ops(block.config_output.variables@, block.config_output.width, block.blueprint)
        };
        lemma_guarded_blocks(blocks.drop_last(), reduce_axis, out_vec_axis);
        lemma_guarded_share(
            block.config_output.variables@,
            block.config_output.width,
            block.blueprint,
        );
        lemma_guarded_add(own, shared);
        lemma_guarded_add(
            blocks_ops(blocks.drop_last(), reduce_axis, out_vec_axis),
            block_ops(i, block, reduce_axis, out_vec_axis),
        );
    }
}

/// In the whole kernel, what the first unit of a cube hands to the others goes to a slot that
/// nothing else is written to, no unit reads it before the cube has waited for the write, and no
/// slot is read that was not written.
pub proof fn law_slots_are_guarded(
    reduce_axis: Argument,
    out_vec_axis: Argument,
    rows: Argument,
    blocks: Seq<ReduceFuseBlock>,
    block_end: Option<ElemwiseFuseBlock>,
)
    ensures
        guarded(kernel_ops(reduce_axis, out_vec_axis, rows, blocks, block_end)),
{
    let end = match block_end {
        Some(end) => end_ops(blocks, end, reduce_axis, rows),
        None => seq![],
    };
    lemma_guarded_blocks(blocks, reduce_axis, out_vec_axis);
    lemma_guarded_add(blocks_ops(blocks, reduce_axis, out_vec_axis), end);
    lemma_guarded_add(
        init_ops(blocks.len()),
        many_ops(reduce_axis, out_vec_axis, rows, blocks, block_end),
    );
}

} // verus!
