use burn_backend::ops::AttentionModuleOptions;
use burn_backend::quantization::{QuantScheme, QuantStore, QuantValue};
use burn_backend::{BoolStore, DType};
use cubecl::ir::features::MmaConfig;
use cubecl::ir::{ElemType, FloatKind, IntKind, UIntKind};
use cubek::attention::forward::launch::AttentionAutotuneKey;
use fused_kernels::attention::inputs::{input_gen, CubeTensor, Degrade, Inputs};
use fused_kernels::attention::key::{can_have_key, create_key, key_problem};
use fused_kernels::attention::tune::{
    attention_autotune, has_accelerated, AttentionCall, AttentionStrategy, AttentionTunable,
    AttentionTunableSet, PRIORITY_HIGH, PRIORITY_LOW, PRIORITY_MAX, PRIORITY_MIN,
};
use fused_kernels::dtype::TensorDType;

const HALF: ElemType = ElemType::Float(FloatKind::F16);
const SINGLE: ElemType = ElemType::Float(FloatKind::F32);

const FALLBACK: usize = 0;
const BLACKBOX: [usize; 3] = [1, 2, 3];
const UNIT: usize = 4;

fn cmma(a_type: ElemType, b_type: ElemType) -> MmaConfig {
    MmaConfig {
        a_type,
        b_type,
        cd_type: SINGLE,
        m: 16,
        n: 16,
        k: 16,
    }
}

fn accelerated() -> AttentionTunableSet {
    AttentionTunableSet::new(&vec![cmma(HALF, HALF)])
}

fn unaccelerated() -> AttentionTunableSet {
    AttentionTunableSet::new(&vec![])
}

fn tensor(shape: [usize; 4], dtype: TensorDType, handle: &str) -> CubeTensor<String> {
    CubeTensor {
        shape: shape.to_vec(),
        dtype,
        handle: handle.to_string(),
    }
}

fn options() -> AttentionModuleOptions {
    AttentionModuleOptions {
        scale: Some(0.25),
        softcap: None,
        is_causal: true,
    }
}

fn inputs_of(dtype: TensorDType) -> Inputs<String> {
    Inputs {
        query: tensor([2, 3, 5, 7], dtype, "q"),
        key: tensor([2, 3, 11, 7], dtype, "k"),
        value: tensor([2, 3, 11, 13], dtype, "v"),
        mask: None,
        attn_bias: None,
        options: options(),
        degrade: Degrade::ToFallback,
    }
}

fn elem_of(dtype: TensorDType) -> ElemType {
    key_problem(&inputs_of(dtype)).elem_query
}

#[test]
fn accelerator_needs_both_operands_in_half_precision() {
    let bf16 = ElemType::Float(FloatKind::BF16);

    assert!(!has_accelerated(&vec![]));
    assert!(has_accelerated(&vec![cmma(HALF, HALF)]));
    assert!(!has_accelerated(&vec![cmma(HALF, SINGLE)]));
    assert!(!has_accelerated(&vec![cmma(SINGLE, HALF)]));
    assert!(!has_accelerated(&vec![cmma(bf16, bf16), cmma(SINGLE, SINGLE)]));
    assert!(!has_accelerated(&vec![cmma(HALF, bf16), cmma(bf16, HALF)]));
    assert!(has_accelerated(&vec![cmma(bf16, bf16), cmma(HALF, HALF)]));
}

#[test]
fn accelerator_ignores_the_accumulator_and_the_tile() {
    let config = MmaConfig {
        a_type: HALF,
        b_type: HALF,
        cd_type: HALF,
        m: 8,
        n: 32,
        k: 16,
    };

    assert!(has_accelerated(&vec![config]));
}

#[test]
fn candidates_in_order_of_registration() {
    let set = unaccelerated();
    let names: Vec<&str> = set.tunables.iter().map(|t| t.name.as_str()).collect();

    assert_eq!(
        names,
        vec![
            "fallback",
            "blackbox_accelerated_2_planes_p_1-1",
            "blackbox_accelerated_4_planes_p_1-1",
            "blackbox_accelerated_8_planes_p_1-1",
            "unit",
        ]
    );
}

#[test]
fn candidates_run_what_they_are_named_after() {
    let set = accelerated();

    assert!(matches!(
        set.tunables[FALLBACK].strategy,
        AttentionStrategy::Fallback
    ));
    for (candidate, planes) in BLACKBOX.into_iter().zip([2, 4, 8]) {
        match &set.tunables[candidate].strategy {
            AttentionStrategy::FlashBlackboxAccelerated(sizes) => {
                assert_eq!(sizes.num_planes, planes);
                assert_eq!(sizes.seq_q, 1);
                assert_eq!(sizes.seq_kv, 1);
            }
            _ => panic!("not an accelerated kernel"),
        }
    }
    assert!(matches!(
        set.tunables[UNIT].strategy,
        AttentionStrategy::FlashUnit
    ));
}

#[test]
fn names_hold_every_digit() {
    let sizes = cubek::attention::forward::routines::blackbox_accelerated::BlackboxAcceleratedStrategy {
        num_planes: 16,
        seq_q: 205,
        seq_kv: 90,
    };
    let tunable = AttentionTunable::new(AttentionStrategy::FlashBlackboxAccelerated(sizes));

    assert_eq!(tunable.name, "blackbox_accelerated_16_planes_p_205-90");
}

#[test]
fn names_are_distinct() {
    let set = accelerated();
    for i in 0..set.tunables.len() {
        for j in 0..i {
            assert_ne!(set.tunables[i].name, set.tunables[j].name);
        }
    }
}

#[test]
fn levels_are_ordered() {
    assert_eq!(
        [PRIORITY_MAX, PRIORITY_HIGH, PRIORITY_LOW, PRIORITY_MIN],
        [3, 2, 1, 0]
    );
    assert_eq!(accelerated().group_priority(), 3);
    assert_eq!(unaccelerated().group_name(), "attention");
}

#[test]
fn short_shapes_with_an_accelerator() {
    let set = accelerated();
    for (seq_q, head_dim) in [(1, 128), (64, 64), (127, 128), (0, 0)] {
        assert_eq!(set.priority(FALLBACK, seq_q, head_dim), 3);
        for candidate in BLACKBOX {
            assert_eq!(set.priority(candidate, seq_q, head_dim), 3);
        }
        assert_eq!(set.priority(UNIT, seq_q, head_dim), 1);
    }
}

#[test]
fn short_shapes_without_an_accelerator() {
    let set = unaccelerated();
    assert_eq!(set.priority(FALLBACK, 64, 64), 3);
    for candidate in BLACKBOX {
        assert_eq!(set.priority(candidate, 64, 64), 1);
    }
    assert_eq!(set.priority(UNIT, 64, 64), 1);
}

#[test]
fn long_shapes_with_an_accelerator() {
    let set = accelerated();
    for (seq_q, head_dim) in [(512, 128), (65, 64), (usize::MAX, 0)] {
        assert_eq!(set.priority(FALLBACK, seq_q, head_dim), 2);
        for candidate in BLACKBOX {
            assert_eq!(set.priority(candidate, seq_q, head_dim), 3);
        }
        assert_eq!(set.priority(UNIT, seq_q, head_dim), 1);
    }
}

#[test]
fn long_shapes_without_an_accelerator() {
    let set = unaccelerated();
    assert_eq!(set.priority(FALLBACK, 65, 64), 0);
    for candidate in BLACKBOX {
        assert_eq!(set.priority(candidate, 65, 64), 1);
    }
    assert_eq!(set.priority(UNIT, 65, 64), 1);
}

#[test]
fn no_candidate_is_skipped() {
    for set in [accelerated(), unaccelerated()] {
        for candidate in 0..set.tunables.len() {
            for (seq_q, head_dim) in [(1, 64), (64, 64), (65, 64), (4096, 64)] {
                let priority = set.priority(candidate, seq_q, head_dim);
                assert!((PRIORITY_MIN..=PRIORITY_MAX).contains(&priority));
            }
        }
    }
}

#[test]
fn fallback_precedes_the_unit_kernel_with_an_accelerator() {
    let set = accelerated();
    assert!(set.priority(FALLBACK, 512, 128) > set.priority(UNIT, 512, 128));
}

#[test]
fn unit_kernel_precedes_the_fallback_without_an_accelerator() {
    let set = unaccelerated();
    assert!(set.priority(UNIT, 512, 128) > set.priority(FALLBACK, 512, 128));
}

#[test]
fn tuner_settles_at_the_highest_level_that_runs() {
    let set = accelerated();
    let runs = [true, false, false, false, true];
    let settled = (0..5)
        .filter(|&candidate| runs[candidate])
        .map(|candidate| set.priority(candidate, 512, 128))
        .max();
    assert_eq!(settled, Some(PRIORITY_HIGH));
}

#[test]
fn fallback_competes_while_its_scores_fit_an_activation() {
    let set = accelerated();
    let (batches, heads, seq_kv, head_dim) = (2, 8, 300, 64);
    for seq_q in [1, 63, 64, 65, 512] {
        let scores = batches * heads * seq_q * seq_kv;
        let activation = batches * seq_kv * (heads * head_dim);
        let first = set.priority(FALLBACK, seq_q, head_dim) == PRIORITY_MAX;
        assert_eq!(first, scores <= activation);
    }
}

#[test]
fn fallback_does_not_degrade() {
    let set = accelerated();
    for degrade in [Degrade::ToFallback, Degrade::Never] {
        assert!(matches!(
            set.tunables[FALLBACK].call(degrade),
            AttentionCall::Attention(AttentionStrategy::Fallback)
        ));
    }
}

#[test]
fn flash_kernels_degrade_as_they_are_told() {
    let set = accelerated();
    for degrade in [Degrade::ToFallback, Degrade::Never] {
        match set.tunables[UNIT].call(degrade) {
            AttentionCall::AttentionDegrading(AttentionStrategy::FlashUnit, given) => {
                assert_eq!(given, degrade);
            }
            _ => panic!("not the unit kernel"),
        }
        match set.tunables[2].call(degrade) {
            AttentionCall::AttentionDegrading(
                AttentionStrategy::FlashBlackboxAccelerated(sizes),
                given,
            ) => {
                assert_eq!((sizes.num_planes, sizes.seq_q, sizes.seq_kv), (4, 1, 1));
                assert_eq!(given, degrade);
            }
            _ => panic!("not an accelerated kernel"),
        }
    }
}

#[test]
fn call_inputs_may_degrade() {
    let dtype = TensorDType::Plain(DType::F16);
    let inputs = attention_autotune(
        tensor([1, 2, 3, 4], dtype, "q"),
        tensor([1, 2, 5, 4], dtype, "k"),
        tensor([1, 2, 5, 6], dtype, "v"),
        Some(tensor([1, 1, 3, 5], TensorDType::Plain(DType::U8), "m")),
        None,
        options(),
    );

    assert_eq!(inputs.degrade, Degrade::ToFallback);
    assert_eq!(inputs.query.handle, "q");
    assert_eq!(inputs.key.handle, "k");
    assert_eq!(inputs.value.handle, "v");
    assert_eq!(inputs.mask.unwrap().handle, "m");
    assert!(inputs.attn_bias.is_none());
    assert_eq!(inputs.options, options());
}

#[test]
fn call_inputs_keep_the_bias() {
    let inputs = inputs_of(TensorDType::Plain(DType::F32));
    let inputs = attention_autotune(
        inputs.query,
        inputs.key,
        inputs.value,
        None,
        Some(tensor([2, 3, 5, 11], TensorDType::Plain(DType::F32), "b")),
        options(),
    );

    assert!(inputs.mask.is_none());
    assert_eq!(inputs.attn_bias.unwrap().handle, "b");
}

#[test]
fn candidates_of_a_device() {
    assert!(accelerated().has_accelerated);
    assert!(!unaccelerated().has_accelerated);
    assert!(!AttentionTunableSet::new(&vec![cmma(SINGLE, SINGLE)]).has_accelerated);
    assert_eq!(accelerated().tunables.len(), 5);
}

#[test]
fn benchmark_inputs_never_degrade() {
    let mut inputs = inputs_of(TensorDType::Plain(DType::F32));
    inputs.mask = Some(tensor([2, 1, 5, 11], TensorDType::Plain(DType::U8), "m"));
    let key = create_key(&inputs);
    let benchmark = input_gen(&key.into_key(), &inputs);

    assert_eq!(benchmark.degrade, Degrade::Never);
    assert_eq!(benchmark.query.handle, "q");
    assert_eq!(benchmark.query.shape, vec![2, 3, 5, 7]);
    assert_eq!(benchmark.key.handle, "k");
    assert_eq!(benchmark.key.shape, vec![2, 3, 11, 7]);
    assert_eq!(benchmark.value.handle, "v");
    assert_eq!(benchmark.value.dtype, TensorDType::Plain(DType::F32));
    assert_eq!(benchmark.mask.unwrap().handle, "m");
    assert!(benchmark.attn_bias.is_none());
    assert_eq!(benchmark.options, options());
    assert_eq!(inputs.degrade, Degrade::ToFallback);
}

#[test]
fn benchmark_inputs_pose_the_same_problem() {
    let inputs = inputs_of(TensorDType::Plain(DType::BF16));
    let benchmark = input_gen(&create_key(&inputs).into_key(), &inputs);

    assert_eq!(key_problem(&benchmark), key_problem(&inputs));
    assert_eq!(create_key(&benchmark).problem(), create_key(&inputs).problem());
}

#[test]
fn clones_keep_what_a_call_may_do() {
    let inputs = inputs_of(TensorDType::Plain(DType::F32));
    let copy = inputs.clone();

    assert_eq!(copy.degrade, Degrade::ToFallback);
    assert_eq!(copy.value.shape, inputs.value.shape);
    assert_eq!(copy.value.handle, inputs.value.handle);
}

#[test]
fn problem_is_read_off_the_query_and_the_value() {
    let problem = key_problem(&inputs_of(TensorDType::Plain(DType::F32)));

    assert_eq!(problem.total_batches, 6);
    assert_eq!(problem.seq_q, 5);
    assert_eq!(problem.head_dim, 7);
    assert_eq!(problem.seq_kv, 11);
    assert_eq!(problem.val_dim, 13);
    assert!(!problem.attention_mask);
}

#[test]
fn problem_takes_each_type_from_its_tensor() {
    let mut inputs = inputs_of(TensorDType::Plain(DType::F32));
    inputs.key.dtype = TensorDType::Plain(DType::F16);
    inputs.value.dtype = TensorDType::Plain(DType::BF16);
    let problem = key_problem(&inputs);

    assert_eq!(problem.elem_query, SINGLE);
    assert_eq!(problem.elem_key, HALF);
    assert_eq!(problem.elem_value, ElemType::Float(FloatKind::BF16));
    assert_eq!(problem.elem_out, SINGLE);
}

#[test]
fn problem_tells_a_mask_from_a_bias() {
    let mut inputs = inputs_of(TensorDType::Plain(DType::F32));
    inputs.attn_bias = Some(tensor([2, 3, 5, 11], TensorDType::Plain(DType::F32), "b"));
    assert!(!key_problem(&inputs).attention_mask);

    inputs.mask = Some(tensor([2, 3, 5, 11], TensorDType::Plain(DType::U8), "m"));
    assert!(key_problem(&inputs).attention_mask);
    assert!(create_key(&inputs).attention_mask());
}

fn generated(inputs: &Inputs<String>) -> AttentionAutotuneKey {
    let problem = key_problem(inputs);
    AttentionAutotuneKey::generate(
        problem.elem_query,
        problem.elem_key,
        problem.elem_value,
        problem.elem_out,
        problem.total_batches,
        problem.seq_q,
        problem.head_dim,
        problem.seq_kv,
        problem.val_dim,
        problem.attention_mask,
    )
}

#[test]
fn key_is_the_one_of_its_problem() {
    let mut inputs = inputs_of(TensorDType::Plain(DType::F32));
    inputs.query.shape = vec![3, 5, 100, 64];
    inputs.query.dtype = TensorDType::Plain(DType::BF16);
    inputs.key.dtype = TensorDType::Plain(DType::F16);
    inputs.value.shape = vec![3, 5, 1000, 80];
    let key = create_key(&inputs);

    assert_eq!(key.problem(), key_problem(&inputs));
    assert!(!key.attention_mask());
    assert!(key.into_key() == generated(&inputs));
}

#[test]
fn keys_of_other_types_differ() {
    let single = inputs_of(TensorDType::Plain(DType::F32));
    let mut key = inputs_of(TensorDType::Plain(DType::F32));
    key.key.dtype = TensorDType::Plain(DType::F16);
    let mut value = inputs_of(TensorDType::Plain(DType::F32));
    value.value.dtype = TensorDType::Plain(DType::F16);
    let mut masked = inputs_of(TensorDType::Plain(DType::F32));
    masked.mask = Some(tensor([2, 3, 5, 11], TensorDType::Plain(DType::U8), "m"));

    for other in [&key, &value, &masked] {
        assert!(create_key(&single).into_key() != create_key(other).into_key());
    }
    assert!(create_key(&key).into_key() != create_key(&value).into_key());
}

#[test]
fn key_carries_its_own_lengths() {
    let inputs = inputs_of(TensorDType::Plain(DType::F32));
    let key = create_key(&inputs);
    let (lengths, masked) = (key.lengths(), key.attention_mask());
    let key = key.into_key();

    assert_eq!(key.total_batches, lengths.total_batches);
    assert_eq!(key.seq_q, lengths.seq_q);
    assert_eq!(key.head_dim, lengths.head_dim);
    assert_eq!(key.seq_kv, lengths.seq_kv);
    assert_eq!(key.val_dim, lengths.val_dim);
    assert_eq!(key.attention_mask, masked);
}

#[test]
fn key_of_empty_lengths() {
    let mut inputs = inputs_of(TensorDType::Plain(DType::F32));
    inputs.query.shape = vec![0, 5, 0, 1];
    inputs.value.shape = vec![0, 5, 0, 1];
    let lengths = create_key(&inputs).lengths();

    assert_eq!(lengths.total_batches, 0);
    assert_eq!(lengths.seq_q, 0);
    assert_ne!(lengths.head_dim, 0);
    assert_eq!(lengths.seq_kv, 0);
    assert_ne!(lengths.val_dim, 0);
}

#[test]
fn elements_of_plain_types() {
    let expected = [
        (DType::F64, ElemType::Float(FloatKind::F64)),
        (DType::F32, ElemType::Float(FloatKind::F32)),
        (DType::Flex32, ElemType::Float(FloatKind::Flex32)),
        (DType::F16, ElemType::Float(FloatKind::F16)),
        (DType::BF16, ElemType::Float(FloatKind::BF16)),
        (DType::I64, ElemType::Int(IntKind::I64)),
        (DType::I32, ElemType::Int(IntKind::I32)),
        (DType::I16, ElemType::Int(IntKind::I16)),
        (DType::I8, ElemType::Int(IntKind::I8)),
        (DType::U64, ElemType::UInt(UIntKind::U64)),
        (DType::U32, ElemType::UInt(UIntKind::U32)),
        (DType::U16, ElemType::UInt(UIntKind::U16)),
        (DType::U8, ElemType::UInt(UIntKind::U8)),
        (DType::Bool(BoolStore::Native), ElemType::Bool),
        (DType::Bool(BoolStore::U8), ElemType::UInt(UIntKind::U8)),
        (DType::Bool(BoolStore::U32), ElemType::UInt(UIntKind::U32)),
    ];
    for (dtype, elem) in expected {
        assert_eq!(elem_of(TensorDType::Plain(dtype)), elem);
    }
}

#[test]
fn elements_of_quantized_types() {
    let expected = [
        (QuantValue::Q8F, ElemType::Int(IntKind::I8)),
        (QuantValue::Q8S, ElemType::Int(IntKind::I8)),
        (QuantValue::E4M3, ElemType::Float(FloatKind::E4M3)),
        (QuantValue::E5M2, ElemType::Float(FloatKind::E5M2)),
    ];
    for (value, elem) in expected {
        let native = TensorDType::Quantized(value, QuantStore::Native);
        assert_eq!(elem_of(native), elem);
        let packed = TensorDType::Quantized(value, QuantStore::PackedU32(0));
        assert_eq!(elem_of(packed), ElemType::UInt(UIntKind::U32));
    }
    let packed = TensorDType::Quantized(QuantValue::Q4S, QuantStore::PackedU32(1));
    assert_eq!(elem_of(packed), ElemType::UInt(UIntKind::U32));
}

#[test]
fn some_types_are_no_single_element() {
    assert!(TensorDType::Plain(DType::F32).has_elem_type());
    assert!(TensorDType::Plain(DType::Bool(BoolStore::Native)).has_elem_type());
    assert!(!TensorDType::Plain(DType::QFloat(QuantScheme::default())).has_elem_type());
    for value in [
        QuantValue::Q4F,
        QuantValue::Q4S,
        QuantValue::Q2F,
        QuantValue::Q2S,
        QuantValue::E2M1,
    ] {
        assert!(!TensorDType::Quantized(value, QuantStore::Native).has_elem_type());
        assert!(!TensorDType::Quantized(value, QuantStore::PackedNative(0)).has_elem_type());
        assert!(TensorDType::Quantized(value, QuantStore::PackedU32(0)).has_elem_type());
    }
    for value in [
        QuantValue::Q8F,
        QuantValue::Q8S,
        QuantValue::E4M3,
        QuantValue::E5M2,
    ] {
        assert!(TensorDType::Quantized(value, QuantStore::Native).has_elem_type());
        assert!(!TensorDType::Quantized(value, QuantStore::PackedNative(0)).has_elem_type());
    }
}

#[test]
fn some_inputs_have_no_key() {
    let single = TensorDType::Plain(DType::F32);
    assert!(can_have_key(&inputs_of(single)));

    let mut flat = inputs_of(single);
    flat.query.shape = vec![2, 3, 5];
    assert!(!can_have_key(&flat));

    let mut flat = inputs_of(single);
    flat.value.shape = vec![2, 3, 11];
    assert!(!can_have_key(&flat));

    // The key tensor gives its type alone.
    let mut flat = inputs_of(single);
    flat.key.shape = vec![];
    assert!(can_have_key(&flat));

    let mut large = inputs_of(single);
    large.query.shape = vec![usize::MAX, 2, 5, 7];
    assert!(!can_have_key(&large));

    let mut packed = inputs_of(single);
    packed.key.dtype = TensorDType::Quantized(QuantValue::E2M1, QuantStore::PackedNative(0));
    assert!(!can_have_key(&packed));
}
