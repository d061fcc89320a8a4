use cubecl::ir::{ElemType, FloatKind, IntKind, UIntKind};
use cubek::reduce::components::instructions::ReduceOperationConfig;
use cubek::reduce::routines::{
    CubeBlueprint, GlobalReduceBlueprint, PlaneMergeStrategy, PlaneReduceBlueprint,
    UnitReduceBlueprint,
};
use cubek::reduce::{BoundChecks, IdleMode, VectorizationMode};
use fused_kernels::reduce::expr::{Argument, AxisSize, Builtin, Expr, Launch, UnitPosition};
use fused_kernels::reduce::fuse::{DeviceType, FuseArg, FuseBlockConfig, FuseType, MultiBlockPos};
use fused_kernels::reduce::kernel::{
    reduce_kernel_broadcasted, reduce_many, reduce_step, set_polyfill_block, share_variables,
    BlockSide, ElemwiseFuseBlock, Kernel, KernelOp, Polyfill, ReduceCall, ReduceFuseBlock,
};
use fused_kernels::reduce::workers::{ElementwiseLoop, Workers};

const AXIS: Argument = Argument { position: 0 };
const OUT_VEC_AXIS: Argument = Argument { position: 1 };
const ROWS: Argument = Argument { position: 2 };

const UNIT: UnitReduceBlueprint = UnitReduceBlueprint {
    unit_idle: IdleMode::Terminate,
};
const PLANE: PlaneReduceBlueprint = PlaneReduceBlueprint {
    plane_idle: IdleMode::Mask,
    bound_checks: BoundChecks::Branch,
    plane_merge_strategy: PlaneMergeStrategy::Lazy,
    plane_dim_ceil: false,
};
const CUBE: CubeBlueprint = CubeBlueprint {
    cube_idle: IdleMode::None,
    bound_checks: BoundChecks::Mask,
    num_shared_accumulators: 32,
    use_planes: true,
};

const SINGLE: ElemType = ElemType::Float(FloatKind::F32);
const HALF: ElemType = ElemType::Float(FloatKind::F16);

fn pos(block_pos: usize, block_local_pos: usize) -> MultiBlockPos {
    MultiBlockPos {
        block_pos,
        block_local_pos,
    }
}

fn block(
    blueprint: GlobalReduceBlueprint,
    variables: Vec<(MultiBlockPos, ElemType)>,
) -> ReduceFuseBlock {
    ReduceFuseBlock {
        op: ReduceOperationConfig::Sum,
        config_input: FuseBlockConfig {
            width: 4,
            variables: vec![],
        },
        config_output: FuseBlockConfig {
            width: 1,
            variables,
        },
        input: FuseArg {
            id: 0,
            ty: FuseType::F16,
        },
        output: FuseArg {
            id: 1,
            ty: FuseType::F32,
        },
        blueprint,
    }
}

fn end(width: usize) -> Option<ElemwiseFuseBlock> {
    Some(ElemwiseFuseBlock {
        config: FuseBlockConfig {
            width,
            variables: vec![],
        },
    })
}

fn set(polyfill: Polyfill, elem: ElemType, width: usize) -> KernelOp {
    KernelOp::SetPolyfill {
        polyfill,
        ty: DeviceType { elem, width },
    }
}

fn call(block: usize) -> ReduceCall {
    ReduceCall {
        block,
        op: ReduceOperationConfig::Sum,
        reduce_axis: AXIS,
        out_vec_axis: OUT_VEC_AXIS,
        vectorization: VectorizationMode::Parallel,
    }
}

fn elementwise(workers: Workers, block: usize, width: usize) -> KernelOp {
    let axis_size = AxisSize { block, axis: AXIS };
    KernelOp::Elementwise(ElementwiseLoop::new(workers, axis_size, width, ROWS))
}

fn types() -> Vec<KernelOp> {
    vec![
        set(Polyfill::In, HALF, 4),
        set(Polyfill::Out, SINGLE, 1),
        set(Polyfill::Acc, SINGLE, 4),
    ]
}

fn many(blocks: &Vec<ReduceFuseBlock>, block_end: &Option<ElemwiseFuseBlock>) -> Vec<KernelOp> {
    let mut kernel = Kernel::new();
    reduce_many(&mut kernel, AXIS, OUT_VEC_AXIS, ROWS, blocks, block_end);
    kernel.ops
}

fn units(cubes: usize, cube_dim_x: u32, cube_dim_y: u32) -> Vec<UnitPosition> {
    let cube_dim = cube_dim_x * cube_dim_y;
    let mut units = vec![];
    for cube_pos in 0..cubes {
        for unit_pos in 0..cube_dim {
            units.push(UnitPosition {
                absolute_pos: cube_pos * cube_dim as usize + unit_pos as usize,
                cube_pos,
                unit_pos,
                unit_pos_x: unit_pos % cube_dim_x,
                unit_pos_y: unit_pos / cube_dim_x,
                cube_dim,
                cube_dim_x,
                cube_dim_y,
            });
        }
    }
    units
}

fn launch(rows: usize, axis_size: usize) -> Launch {
    Launch {
        arguments: vec![1, 0, rows],
        shapes: vec![vec![5, axis_size]],
    }
}

fn elementwise_indices(
    workers: Workers,
    unit: &UnitPosition,
    rows: usize,
    axis_size: usize,
    width: usize,
) -> Vec<usize> {
    let axis = AxisSize {
        block: 0,
        axis: AXIS,
    };
    ElementwiseLoop::new(workers, axis, width, ROWS).indices(&launch(rows, axis_size), unit)
}

fn all_indices(
    workers: Workers,
    units: &Vec<UnitPosition>,
    rows: usize,
    axis_size: usize,
    width: usize,
) -> Vec<usize> {
    let mut indices: Vec<usize> = vec![];
    for unit in units {
        indices.extend(elementwise_indices(workers, unit, rows, axis_size, width));
    }
    indices.sort();
    indices
}

#[test]
fn accumulators() {
    let expected = [
        (FuseType::F64, FuseType::F64),
        (FuseType::F32, FuseType::F32),
        (FuseType::Flex32, FuseType::F32),
        (FuseType::F16, FuseType::F32),
        (FuseType::BF16, FuseType::F32),
        (FuseType::I64, FuseType::I64),
        (FuseType::I32, FuseType::I32),
        (FuseType::I16, FuseType::I32),
        (FuseType::I8, FuseType::I32),
        (FuseType::U64, FuseType::U64),
        (FuseType::U32, FuseType::U32),
        (FuseType::U16, FuseType::U32),
        (FuseType::U8, FuseType::U32),
    ];
    for (precision, accumulator) in expected {
        assert_eq!(precision.into_accumulator(), accumulator);
        assert_eq!(accumulator.into_accumulator(), accumulator);
    }
}

#[test]
fn device_types_of_precisions() {
    let expected = [
        (FuseType::F64, ElemType::Float(FloatKind::F64)),
        (FuseType::F32, ElemType::Float(FloatKind::F32)),
        (FuseType::Flex32, ElemType::Float(FloatKind::Flex32)),
        (FuseType::F16, ElemType::Float(FloatKind::F16)),
        (FuseType::BF16, ElemType::Float(FloatKind::BF16)),
        (FuseType::I64, ElemType::Int(IntKind::I64)),
        (FuseType::I32, ElemType::Int(IntKind::I32)),
        (FuseType::I16, ElemType::Int(IntKind::I16)),
        (FuseType::I8, ElemType::Int(IntKind::I8)),
        (FuseType::U64, ElemType::UInt(UIntKind::U64)),
        (FuseType::U32, ElemType::UInt(UIntKind::U32)),
        (FuseType::U16, ElemType::UInt(UIntKind::U16)),
        (FuseType::U8, ElemType::UInt(UIntKind::U8)),
    ];
    for (precision, elem) in expected {
        assert_eq!(precision.into_elem(), elem);
        assert_eq!(precision.into_type(4), DeviceType { elem, width: 4 });
    }
}

#[test]
fn narrow_vectors_are_scalars() {
    for width in [0, 1] {
        let scalar = DeviceType {
            elem: SINGLE,
            width: 1,
        };
        assert_eq!(FuseType::F32.into_type(width), scalar);
    }
    assert_eq!(FuseType::F32.into_type(2).width, 2);
}

#[test]
fn variables_are_appended() {
    let config = FuseBlockConfig {
        width: 1,
        variables: vec![(pos(1, 0), SINGLE), (pos(1, 1), HALF)],
    };
    let mut keys = vec![(pos(0, 0), SINGLE)];
    config.multi_block_variables(&mut keys);

    assert_eq!(
        keys,
        vec![(pos(0, 0), SINGLE), (pos(1, 0), SINGLE), (pos(1, 1), HALF)]
    );
}

#[test]
fn types_of_a_block() {
    let mut kernel = Kernel::new();
    let mut integers = block(GlobalReduceBlueprint::Unit(UNIT), vec![]);
    integers.input.ty = FuseType::U8;
    integers.output.ty = FuseType::I64;
    integers.config_input.width = 2;
    integers.config_output.width = 8;
    set_polyfill_block(&mut kernel, &integers);

    assert_eq!(
        kernel.ops,
        vec![
            set(Polyfill::In, ElemType::UInt(UIntKind::U8), 2),
            set(Polyfill::Out, ElemType::Int(IntKind::I64), 8),
            set(Polyfill::Acc, ElemType::UInt(UIntKind::U32), 2),
        ]
    );
}

#[test]
fn step_with_each_routine() {
    let mut kernel = Kernel::new();
    for (block, blueprint) in [
        (0, GlobalReduceBlueprint::Unit(UNIT)),
        (1, GlobalReduceBlueprint::Plane(PLANE)),
        (2, GlobalReduceBlueprint::Cube(CUBE)),
    ] {
        let op = ReduceOperationConfig::Sum;
        let axis_size = reduce_step(&mut kernel, block, AXIS, OUT_VEC_AXIS, op, blueprint);
        assert_eq!(axis_size, AxisSize { block, axis: AXIS });
    }

    assert_eq!(
        kernel.ops,
        vec![
            KernelOp::UnitReduce(call(0), UNIT),
            KernelOp::PlaneReduce(call(1), PLANE),
            KernelOp::CubeReduce(call(2), CUBE),
        ]
    );
}

#[test]
fn step_keeps_the_operation() {
    let mut kernel = Kernel::new();
    let op = ReduceOperationConfig::ArgTopK(3);
    let (axis, out_vec_axis) = (Argument { position: 5 }, Argument { position: 4 });
    let unit = GlobalReduceBlueprint::Unit(UNIT);
    reduce_step(&mut kernel, 0, axis, out_vec_axis, op, unit);

    match &kernel.ops[0] {
        KernelOp::UnitReduce(call, _) => {
            assert_eq!(call.op, op);
            assert_eq!(call.reduce_axis, axis);
            assert_eq!(call.out_vec_axis, out_vec_axis);
            assert_eq!(call.vectorization, VectorizationMode::Parallel);
        }
        _ => panic!("not a reduction by units"),
    }
}

#[test]
fn variables_are_shared_over_a_plane() {
    let mut kernel = Kernel::new();
    let config = FuseBlockConfig {
        width: 2,
        variables: vec![(pos(0, 0), SINGLE), (pos(0, 1), HALF)],
    };
    share_variables(&mut kernel, &config, GlobalReduceBlueprint::Plane(PLANE));

    assert_eq!(
        kernel.ops,
        vec![
            set(Polyfill::Dyn, SINGLE, 2),
            KernelOp::ReadVariable { key: pos(0, 0) },
            KernelOp::PlaneBroadcast { lane: 0 },
            KernelOp::WriteVariable { key: pos(0, 0) },
            set(Polyfill::Dyn, HALF, 2),
            KernelOp::ReadVariable { key: pos(0, 1) },
            KernelOp::PlaneBroadcast { lane: 0 },
            KernelOp::WriteVariable { key: pos(0, 1) },
        ]
    );
}

#[test]
fn variables_are_shared_over_a_cube() {
    let mut kernel = Kernel::new();
    let config = FuseBlockConfig {
        width: 1,
        variables: vec![(pos(3, 0), SINGLE), (pos(3, 1), SINGLE)],
    };
    share_variables(&mut kernel, &config, GlobalReduceBlueprint::Cube(CUBE));

    assert_eq!(
        kernel.ops,
        vec![
            set(Polyfill::Dyn, SINGLE, 1),
            KernelOp::NewSharedSlot,
            KernelOp::FirstUnitToSlot { key: pos(3, 0) },
            KernelOp::SyncCube,
            KernelOp::ReadSlot,
            KernelOp::WriteVariable { key: pos(3, 0) },
            set(Polyfill::Dyn, SINGLE, 1),
            KernelOp::NewSharedSlot,
            KernelOp::FirstUnitToSlot { key: pos(3, 1) },
            KernelOp::SyncCube,
            KernelOp::ReadSlot,
            KernelOp::WriteVariable { key: pos(3, 1) },
        ]
    );
}

#[test]
fn a_unit_shares_with_nobody() {
    let mut kernel = Kernel::new();
    let config = FuseBlockConfig {
        width: 1,
        variables: vec![(pos(0, 0), SINGLE)],
    };
    share_variables(&mut kernel, &config, GlobalReduceBlueprint::Unit(UNIT));

    assert_eq!(kernel.ops, vec![set(Polyfill::Dyn, SINGLE, 1)]);
}

#[test]
fn nothing_to_reduce() {
    assert_eq!(many(&vec![], &None), vec![]);
    let mut kernel = Kernel::new();
    reduce_kernel_broadcasted(&mut kernel, AXIS, OUT_VEC_AXIS, ROWS, &vec![], &None);
    assert_eq!(kernel.ops, vec![]);
}

#[test]
fn one_block_of_units() {
    let blocks = vec![block(
        GlobalReduceBlueprint::Unit(UNIT),
        vec![(pos(0, 0), SINGLE)],
    )];
    let mut expected = types();
    expected.push(KernelOp::InitTensors { block: 0 });
    expected.push(KernelOp::UnitReduce(call(0), UNIT));
    assert_eq!(many(&blocks, &None), expected);

    expected.push(elementwise(Workers::Unit, 0, 4));
    assert_eq!(many(&blocks, &end(4)), expected);
}

#[test]
fn one_block_of_planes() {
    let blocks = vec![block(
        GlobalReduceBlueprint::Plane(PLANE),
        vec![(pos(0, 0), SINGLE)],
    )];
    let mut expected = types();
    expected.extend(vec![
        KernelOp::InitTensors { block: 0 },
        KernelOp::PlaneReduce(call(0), PLANE),
        set(Polyfill::Dyn, SINGLE, 1),
        KernelOp::ReadVariable { key: pos(0, 0) },
        KernelOp::PlaneBroadcast { lane: 0 },
        KernelOp::WriteVariable { key: pos(0, 0) },
        KernelOp::SyncPlane,
        elementwise(Workers::Plane, 0, 2),
    ]);
    assert_eq!(many(&blocks, &end(2)), expected);
}

#[test]
fn two_blocks_of_cubes() {
    let blocks = vec![
        block(
            GlobalReduceBlueprint::Cube(CUBE),
            vec![(pos(0, 0), SINGLE)],
        ),
        block(GlobalReduceBlueprint::Cube(CUBE), vec![]),
    ];
    let mut expected = types();
    expected.extend(vec![
        KernelOp::InitTensors { block: 0 },
        KernelOp::CubeReduce(call(0), CUBE),
        set(Polyfill::Dyn, SINGLE, 1),
        KernelOp::NewSharedSlot,
        KernelOp::FirstUnitToSlot { key: pos(0, 0) },
        KernelOp::SyncCube,
        KernelOp::ReadSlot,
        KernelOp::WriteVariable { key: pos(0, 0) },
    ]);
    expected.extend(types());
    expected.extend(vec![
        KernelOp::InitTensors { block: 1 },
        KernelOp::CubeReduce(call(1), CUBE),
        KernelOp::SyncCube,
        elementwise(Workers::Cube, 1, 4),
    ]);
    assert_eq!(many(&blocks, &end(4)), expected);
}

#[test]
fn elementwise_follows_the_first_block() {
    let blocks = vec![
        block(GlobalReduceBlueprint::Unit(UNIT), vec![]),
        block(GlobalReduceBlueprint::Plane(PLANE), vec![]),
    ];
    let ops = many(&blocks, &end(1));

    assert_eq!(
        ops[ops.len() - 1],
        elementwise(Workers::Unit, 1, 1)
    );
    assert!(!ops.contains(&KernelOp::SyncPlane));
}

#[test]
fn room_for_variables_comes_first() {
    let blocks = vec![
        block(GlobalReduceBlueprint::Unit(UNIT), vec![]),
        block(GlobalReduceBlueprint::Unit(UNIT), vec![]),
    ];
    let mut kernel = Kernel::new();
    reduce_kernel_broadcasted(&mut kernel, AXIS, OUT_VEC_AXIS, ROWS, &blocks, &end(4));

    let mut expected = vec![];
    for block in [0, 1] {
        for side in [BlockSide::Input, BlockSide::Output] {
            expected.push(KernelOp::InitVariables { block, side });
        }
    }
    expected.extend(many(&blocks, &end(4)));
    assert_eq!(kernel.ops, expected);
}

#[test]
fn kernels_are_appended_to() {
    let blocks = vec![block(GlobalReduceBlueprint::Unit(UNIT), vec![])];
    let mut kernel = Kernel::new();
    reduce_kernel_broadcasted(&mut kernel, AXIS, OUT_VEC_AXIS, ROWS, &blocks, &None);
    let once = kernel.ops.len();
    reduce_kernel_broadcasted(&mut kernel, AXIS, OUT_VEC_AXIS, ROWS, &blocks, &None);

    assert_eq!(kernel.ops.len(), 2 * once);
    assert_eq!(kernel.ops[..once], kernel.ops[once..]);
}

#[test]
fn every_unit_ends_with_the_variable_of_the_first() {
    for blueprint in [
        GlobalReduceBlueprint::Plane(PLANE),
        GlobalReduceBlueprint::Cube(CUBE),
    ] {
        let mut kernel = Kernel::new();
        let config = FuseBlockConfig {
            width: 1,
            variables: vec![(pos(0, 0), SINGLE), (pos(0, 1), SINGLE)],
        };
        share_variables(&mut kernel, &config, blueprint);

        let key = |key: MultiBlockPos| key.block_local_pos;
        let mut variables = [[10, 20, 30], [11, 21, 31], [12, 22, 32]];
        let mut values = [0, 0, 0];
        let mut slot = 0;
        for op in &kernel.ops {
            for unit in 0..3 {
                match op {
                    KernelOp::ReadVariable { key: k } => values[unit] = variables[unit][key(*k)],
                    KernelOp::PlaneBroadcast { lane } => values[unit] = values[*lane as usize],
                    KernelOp::WriteVariable { key: k } => variables[unit][key(*k)] = values[unit],
                    KernelOp::FirstUnitToSlot { key: k } => slot = variables[0][key(*k)],
                    KernelOp::ReadSlot => values[unit] = slot,
                    _ => {}
                }
            }
        }

        assert_eq!(variables, [[10, 20, 30], [10, 20, 31], [10, 20, 32]]);
    }
}

#[test]
fn slots_are_new_and_waited_for() {
    let variables = vec![(pos(0, 0), SINGLE), (pos(0, 1), HALF), (pos(0, 2), SINGLE)];
    let blocks = vec![block(GlobalReduceBlueprint::Cube(CUBE), variables)];
    let ops = many(&blocks, &end(1));
    let mut writes = 0;
    for n in 0..ops.len() {
        if let KernelOp::FirstUnitToSlot { .. } = ops[n] {
            assert_eq!(ops[n - 1], KernelOp::NewSharedSlot);
            assert_eq!(ops[n + 1], KernelOp::SyncCube);
            assert_eq!(ops[n + 2], KernelOp::ReadSlot);
            writes += 1;
        }
        if ops[n] == KernelOp::ReadSlot {
            assert!(matches!(ops[n - 2], KernelOp::FirstUnitToSlot { .. }));
        }
    }
    assert_eq!(writes, 3);
}

#[test]
fn shares_of_a_unit() {
    let unit = UnitPosition {
        absolute_pos: 29,
        cube_pos: 3,
        unit_pos: 5,
        unit_pos_x: 1,
        unit_pos_y: 1,
        cube_dim: 8,
        cube_dim_x: 4,
        cube_dim_y: 2,
    };
    let launch = launch(9, 16);
    let axis = AxisSize {
        block: 0,
        axis: AXIS,
    };
    for (workers, share) in [
        (Workers::Unit, [29, 0, 1]),
        (Workers::Plane, [7, 1, 4]),
        (Workers::Cube, [3, 5, 8]),
    ] {
        let code = ElementwiseLoop::new(workers, axis, 4, ROWS);
        let value = |expr: &Expr| expr.value(&launch, &unit, 0);
        assert_eq!([&code.row, &code.lane, &code.stride].map(value), share);
        assert_eq!(value(&code.rows), 9);
        assert_eq!(value(&code.num_iter), 4);
        assert_eq!(code.index.value(&launch, &unit, 3), share[0] * 4 + 3);
        assert_eq!(code.width, 4);
    }
}

#[test]
fn loop_of_a_plane() {
    let axis_size = AxisSize {
        block: 1,
        axis: AXIS,
    };
    let code = ElementwiseLoop::new(Workers::Plane, axis_size, 2, ROWS);
    let builtin = |builtin: Builtin| Box::new(Expr::Builtin(builtin));
    let row = || {
        let first = Expr::Product(builtin(Builtin::CubePos), builtin(Builtin::CubeDimY));
        Expr::Sum(Box::new(first), builtin(Builtin::UnitPosY))
    };
    let num_iter = || {
        let size = Box::new(Expr::AxisSize(axis_size));
        Expr::Quotient(size, Box::new(Expr::Constant(2)))
    };

    assert_eq!(code.row, row());
    assert_eq!(code.rows, Expr::Argument(ROWS));
    assert_eq!(code.lane, Expr::Builtin(Builtin::UnitPosX));
    assert_eq!(code.num_iter, num_iter());
    assert_eq!(code.stride, Expr::Builtin(Builtin::CubeDimX));
    let start = Expr::Product(Box::new(row()), Box::new(num_iter()));
    let index = Expr::Sum(Box::new(start), Box::new(Expr::Step));
    assert_eq!(code.index, index);
}

#[test]
fn builtins_of_a_unit() {
    let unit = UnitPosition {
        absolute_pos: 1,
        cube_pos: 2,
        unit_pos: 3,
        unit_pos_x: 4,
        unit_pos_y: 5,
        cube_dim: 6,
        cube_dim_x: 7,
        cube_dim_y: 8,
    };
    let builtins = [
        Builtin::AbsolutePos,
        Builtin::CubePos,
        Builtin::UnitPos,
        Builtin::UnitPosX,
        Builtin::UnitPosY,
        Builtin::CubeDim,
        Builtin::CubeDimX,
        Builtin::CubeDimY,
    ];
    assert_eq!(builtins.map(|b| unit.read(b)), [1, 2, 3, 4, 5, 6, 7, 8]);
}

#[test]
fn one_kernel_takes_every_number_of_rows() {
    let blocks = vec![block(GlobalReduceBlueprint::Unit(UNIT), vec![])];
    let ops = many(&blocks, &end(4));
    let unit = units(1, 8, 1)[3];

    match &ops[ops.len() - 1] {
        KernelOp::Elementwise(code) => {
            assert_eq!(code.indices(&launch(4, 8), &unit), vec![6, 7]);
            assert_eq!(code.indices(&launch(4, 12), &unit), vec![9, 10, 11]);
            assert!(code.indices(&launch(3, 8), &unit).is_empty());
        }
        _ => panic!("not the elementwise block"),
    }
}

#[test]
fn a_unit_walks_its_row() {
    let unit = units(2, 4, 1)[5];
    assert_eq!(
        elementwise_indices(Workers::Unit, &unit, 8, 12, 4),
        vec![15, 16, 17]
    );
}

#[test]
fn lanes_stride_over_the_row_of_their_plane() {
    // The second lane of the second plane of the second cube: row 3.
    let unit = units(2, 4, 2)[13];
    assert_eq!(
        elementwise_indices(Workers::Plane, &unit, 4, 20, 2),
        vec![31, 35, 39]
    );
}

#[test]
fn units_stride_over_the_row_of_their_cube() {
    let unit = units(2, 4, 2)[8 + 6];
    assert_eq!(
        elementwise_indices(Workers::Cube, &unit, 2, 20, 1),
        vec![26, 34]
    );
}

#[test]
fn what_does_not_fill_a_vector_is_left_out() {
    let unit = units(1, 1, 1)[0];
    assert_eq!(
        elementwise_indices(Workers::Unit, &unit, 1, 11, 4),
        vec![0, 1]
    );
    assert_eq!(
        elementwise_indices(Workers::Unit, &unit, 1, 3, 4),
        Vec::<usize>::new()
    );
}

#[test]
fn workers_past_the_last_row_do_nothing() {
    let all = units(3, 4, 2);
    for unit in &all {
        if unit.cube_pos >= 2 {
            let indices = elementwise_indices(Workers::Cube, unit, 2, 16, 1);
            assert!(indices.is_empty());
        }
        if unit.cube_pos * 2 + unit.unit_pos_y as usize >= 5 {
            let indices = elementwise_indices(Workers::Plane, unit, 5, 16, 1);
            assert!(indices.is_empty());
        }
        if unit.absolute_pos >= 21 {
            let indices = elementwise_indices(Workers::Unit, unit, 21, 16, 1);
            assert!(indices.is_empty());
        }
    }
}

#[test]
fn a_stride_past_the_end_of_the_numbers() {
    let unit = UnitPosition {
        absolute_pos: 0,
        cube_pos: 0,
        unit_pos: 0,
        unit_pos_x: 0,
        unit_pos_y: 0,
        cube_dim: u32::MAX,
        cube_dim_x: u32::MAX,
        cube_dim_y: 1,
    };
    assert_eq!(
        elementwise_indices(Workers::Plane, &unit, 1, u32::MAX as usize + 2, 1),
        vec![0, u32::MAX as usize]
    );
}

#[test]
fn unit_rows_are_covered_once() {
    let units = units(3, 4, 2);
    let expected: Vec<usize> = (0..21 * 4).collect();
    assert_eq!(all_indices(Workers::Unit, &units, 21, 16, 4), expected);
}

#[test]
fn plane_rows_are_covered_once() {
    let units = units(3, 4, 2);
    let expected: Vec<usize> = (0..5 * 7).collect();
    assert_eq!(all_indices(Workers::Plane, &units, 5, 14, 2), expected);
}

#[test]
fn cube_rows_are_covered_once() {
    let units = units(3, 4, 2);
    let expected: Vec<usize> = (0..3 * 19).collect();
    assert_eq!(all_indices(Workers::Cube, &units, 3, 19, 1), expected);
}

#[test]
fn a_unit_takes_vectors_in_order() {
    for unit in &units(2, 4, 2) {
        for workers in [Workers::Unit, Workers::Plane, Workers::Cube] {
            let indices = elementwise_indices(workers, unit, 16, 30, 1);
            for pair in indices.windows(2) {
                assert!(pair[0] < pair[1]);
                assert_eq!(pair[0] / 30, pair[1] / 30);
            }
        }
    }
}

#[test]
fn clones_of_blocks() {
    let variables = vec![(pos(0, 0), SINGLE), (pos(0, 1), HALF)];
    let block = block(GlobalReduceBlueprint::Plane(PLANE), variables);
    let copy = block.clone();

    assert_eq!(copy.op, block.op);
    assert_eq!(copy.config_input, block.config_input);
    assert_eq!(copy.config_output, block.config_output);
    assert_eq!(copy.input, block.input);
    assert_eq!(copy.output, block.output);
    assert_eq!(copy.blueprint, block.blueprint);

    let end = end(4).unwrap();
    assert_eq!(end.clone().config, end.config);
}

#[test]
fn the_elementwise_block_runs_once_and_last() {
    for (blueprint, workers) in [
        (GlobalReduceBlueprint::Unit(UNIT), Workers::Unit),
        (GlobalReduceBlueprint::Plane(PLANE), Workers::Plane),
        (GlobalReduceBlueprint::Cube(CUBE), Workers::Cube),
    ] {
        let variables = vec![(pos(0, 0), SINGLE)];
        let blocks = vec![block(blueprint, variables), block(blueprint, vec![])];
        let mut kernel = Kernel::new();
        reduce_kernel_broadcasted(&mut kernel, AXIS, OUT_VEC_AXIS, ROWS, &blocks, &end(4));

        let last = kernel.ops.pop().unwrap();
        let expected = elementwise(workers, 1, 4);
        assert_eq!(last, expected);
        for op in &kernel.ops {
            assert!(!matches!(op, KernelOp::Elementwise(_)));
        }
    }
}

#[test]
fn the_last_operation_covers_every_row_once() {
    for (blueprint, rows) in [
        (GlobalReduceBlueprint::Unit(UNIT), 20),
        (GlobalReduceBlueprint::Plane(PLANE), 5),
        (GlobalReduceBlueprint::Cube(CUBE), 3),
    ] {
        let blocks = vec![block(blueprint, vec![])];
        let mut kernel = Kernel::new();
        reduce_kernel_broadcasted(&mut kernel, AXIS, OUT_VEC_AXIS, ROWS, &blocks, &end(2));

        match &kernel.ops[kernel.ops.len() - 1] {
            KernelOp::Elementwise(code) => {
                let mut indices: Vec<usize> = vec![];
                for unit in &units(3, 4, 2) {
                    indices.extend(code.indices(&launch(rows, 14), unit));
                }
                indices.sort();
                let expected: Vec<usize> = (0..rows * 7).collect();
                assert_eq!(indices, expected);
            }
            _ => panic!("not the elementwise block"),
        }
    }
}
