//! What holds of the inputs of every attention call, and of the problem that they pose.

use crate::attention::inputs::{input_gen, same_call, CubeTensor, Degrade, Inputs};
use crate::attention::key::{can_have_key, create_key, has_key, key_problem, problem_of};
use crate::attention::tune::attention_autotune;
use crate::attention::tune_key::{AttentionKey, KeyProblem};
use crate::dtype::{plain_elem_type, quantized_elem_type, TensorDType};
use burn_backend::ops::AttentionModuleOptions;
use burn_backend::quantization::{QuantStore, QuantValue};
use burn_backend::{BoolStore, DType};
use cubecl::ir::{ElemType, FloatKind, IntKind, UIntKind};
use cubek::attention::forward::launch::AttentionAutotuneKey;
use vstd::prelude::*;

verus! {

/// The problem of a call is read off its tensors: the lengths off the query and the value, the
/// batches and the heads of the query taken together, and each element off its own tensor. The
/// output is of the element of the query, whatever that is.
pub proof fn law_problem_is_that_of_the_tensors<H>(inputs: Inputs<H>)
    requires
        has_key(inputs),
    ensures
        ({
            let problem = problem_of(inputs);
            &&& inputs.query.dtype.spec_elem_type() == Some(problem.elem_query)
            &&& inputs.key.dtype.spec_elem_type() == Some(problem.elem_key)
            &&& inputs.value.dtype.spec_elem_type() == Some(problem.elem_value)
            &&& problem.elem_out == problem.elem_query
            &&& problem.total_batches == inputs.query.shape@[0] * inputs.query.shape@[1]
            &&& problem.seq_q == inputs.query.shape@[2]
            &&& problem.head_dim == inputs.query.shape@[3]
            &&& problem.seq_kv == inputs.value.shape@[2]
            &&& problem.val_dim == inputs.value.shape@[3]
            &&& problem.attention_mask <==> inputs.mask is Some
        }),
{
}

/// Calls whose tensors are all of one type pose a problem of one element.
pub proof fn law_problem_of_one_type<H>(inputs: Inputs<H>, dtype: TensorDType)
    requires
        has_key(inputs),
        inputs.query.dtype == dtype,
        inputs.key.dtype == dtype,
        inputs.value.dtype == dtype,
    ensures
        ({
            let problem = problem_of(inputs);
            &&& dtype.spec_elem_type() == Some(problem.elem_out)
            &&& problem.elem_query == problem.elem_out
            &&& problem.elem_key == problem.elem_out
            &&& problem.elem_value == problem.elem_out
        }),
{
    law_problem_is_that_of_the_tensors(inputs);
}

/// Calls with the same lengths, the same types and a mask in both or in neither pose one problem:
/// the shape of the key, the bias, the options, and where the tensors lie do not count, nor how
/// the batches and the heads are divided.
pub proof fn law_problem_depends_on_lengths_and_types<H>(a: Inputs<H>, b: Inputs<H>)
    requires
        has_key(a),
        has_key(b),
        a.query.shape@[0] * a.query.shape@[1] == b.query.shape@[0] * b.query.shape@[1],
        a.query.shape@[2] == b.query.shape@[2],
        a.query.shape@[3] == b.query.shape@[3],
        a.value.shape@[2] == b.value.shape@[2],
        a.value.shape@[3] == b.value.shape@[3],
        a.query.dtype == b.query.dtype,
        a.key.dtype == b.key.dtype,
        a.value.dtype == b.value.dtype,
        a.mask is Some <==> b.mask is Some,
    ensures
        problem_of(a) == problem_of(b),
{
    law_problem_is_that_of_the_tensors(a);
    law_problem_is_that_of_the_tensors(b);
}

/// Calls that pose one problem have the same lengths and the same elements, and a mask in both or
/// in neither.
pub proof fn law_one_problem_one_shape<H>(a: Inputs<H>, b: Inputs<H>)
    requires
        has_key(a),
        has_key(b),
        problem_of(a) == problem_of(b),
    ensures
        a.query.shape@[0] * a.query.shape@[1] == b.query.shape@[0] * b.query.shape@[1],
        a.query.shape@[2] == b.query.shape@[2],
        a.query.shape@[3] == b.query.shape@[3],
        a.value.shape@[2] == b.value.shape@[2],
        a.value.shape@[3] == b.value.shape@[3],
        a.query.dtype.spec_elem_type() == b.query.dtype.spec_elem_type(),
        a.key.dtype.spec_elem_type() == b.key.dtype.spec_elem_type(),
        a.value.dtype.spec_elem_type() == b.value.dtype.spec_elem_type(),
        a.mask is Some <==> b.mask is Some,
{
    law_problem_is_that_of_the_tensors(a);
    law_problem_is_that_of_the_tensors(b);
}

/// A call has a key where its query and its value have four dimensions or more, its batches and
/// heads can be multiplied, and a device holds the elements of its three tensors. Nothing else
/// counts.
pub proof fn law_which_calls_have_a_key<H>(inputs: Inputs<H>)
    ensures
        has_key(inputs) <==> {
            &&& inputs.query.shape@.len() >= 4
            &&& inputs.value.shape@.len() >= 4
            &&& inputs.query.shape@[0] * inputs.query.shape@[1] <= usize::MAX
            &&& inputs.query.dtype.spec_elem_type() is Some
            &&& inputs.key.dtype.spec_elem_type() is Some
            &&& inputs.value.dtype.spec_elem_type() is Some
        },
{
}

/// The type that an element stands for, for elements other than truth values.
pub open spec fn dtype_of(elem: ElemType) -> Option<DType> {
    match elem {
        ElemType::Float(FloatKind::F64) => Some(DType::F64),
        ElemType::Float(FloatKind::F32) => Some(DType::F32),
        ElemType::Float(FloatKind::Flex32) => Some(DType::Flex32),
        ElemType::Float(FloatKind::F16) => Some(DType::F16),
        ElemType::Float(FloatKind::BF16) => Some(DType::BF16),
        ElemType::Int(IntKind::I64) => Some(DType::I64),
        ElemType::Int(IntKind::I32) => Some(DType::I32),
        ElemType::Int(IntKind::I16) => Some(DType::I16),
        ElemType::Int(IntKind::I8) => Some(DType::I8),
        ElemType::UInt(UIntKind::U64) => Some(DType::U64),
        ElemType::UInt(UIntKind::U32) => Some(DType::U32),
        ElemType::UInt(UIntKind::U16) => Some(DType::U16),
        ElemType::UInt(UIntKind::U8) => Some(DType::U8),
        _ => None,
    }
}

/// Every type of numbers that is not quantized has an element of its own, and the stores of truth
/// values have the element that they are stored in.
pub proof fn law_elements_of_plain_types(dtype: DType)
    ensures
        TensorDType::Plain(dtype).spec_elem_type() == plain_elem_type(dtype),
        !(dtype is QFloat) && !(dtype is Bool) ==> plain_elem_type(dtype) is Some && dtype_of(
            plain_elem_type(dtype)->0,
        ) == Some(dtype),
        dtype is QFloat ==> plain_elem_type(dtype) is None,
        plain_elem_type(DType::Bool(BoolStore::Native)) == Some(ElemType::Bool),
        plain_elem_type(DType::Bool(BoolStore::U8)) == plain_elem_type(DType::U8),
        plain_elem_type(DType::Bool(BoolStore::U32)) == plain_elem_type(DType::U32),
{
}

/// A quantized type has the element of its words where it is packed into words, whatever is
/// packed and along whichever dimension. Stored as they are, only values of eight bits have an
/// element, and packed in a native format none have.
pub proof fn law_elements_of_quantized_types(value: QuantValue, store: QuantStore)
    ensures
        TensorDType::Quantized(value, store).spec_elem_type() == quantized_elem_type(value, store),
        store is PackedU32 ==> quantized_elem_type(value, store) == plain_elem_type(DType::U32),
        store is PackedNative ==> quantized_elem_type(value, store) is None,
        store is Native && (value is Q8F || value is Q8S) ==> quantized_elem_type(value, store)
            == plain_elem_type(DType::I8),
        store is Native && value is E4M3 ==> quantized_elem_type(value, store) == Some(
            ElemType::Float(FloatKind::E4M3),
        ),
        store is Native && value is E5M2 ==> quantized_elem_type(value, store) == Some(
            ElemType::Float(FloatKind::E5M2),
        ),
        store is Native && (value is Q4F || value is Q4S || value is Q2F || value is Q2S
            || value is E2M1) ==> quantized_elem_type(value, store) is None,
{
}

/// Whether `copy` stands for `tensor`: it has the shape and the type, and a clone of the handle.
pub open spec fn stands_for<H: Clone>(tensor: CubeTensor<H>, copy: CubeTensor<H>) -> bool {
    &&& copy.shape@ == tensor.shape@
    &&& copy.dtype == tensor.dtype
    &&& cloned(tensor.handle, copy.handle)
}

/// Whether `copy` holds every tensor of `inputs`, each in its own place, no other, and its options.
pub open spec fn holds_call<H: Clone>(inputs: Inputs<H>, copy: Inputs<H>) -> bool {
    &&& stands_for(inputs.query, copy.query)
    &&& stands_for(inputs.key, copy.key)
    &&& stands_for(inputs.value, copy.value)
    &&& inputs.mask is Some <==> copy.mask is Some
    &&& inputs.mask is Some ==> stands_for(inputs.mask->0, copy.mask->0)
    &&& inputs.attn_bias is Some <==> copy.attn_bias is Some
    &&& inputs.attn_bias is Some ==> stands_for(inputs.attn_bias->0, copy.attn_bias->0)
    &&& copy.options == inputs.options
}

/// Inputs of the same call have every tensor of it, each in its own place, no tensor that it has
/// not, and its options.
pub proof fn law_same_call_has_every_tensor<H: Clone>(inputs: Inputs<H>, copy: Inputs<H>)
    ensures
        same_call(inputs, copy) <==> holds_call(inputs, copy),
{
}

/// Whatever the key and the call are, a benchmark runs on the tensors of the call, and never
/// degrades.
pub proof fn law_benchmarks_never_degrade<H: Clone>(
    key: AttentionAutotuneKey,
    inputs: Inputs<H>,
    benchmark: Inputs<H>,
)
    requires
        call_ensures(input_gen::<H>, (&key, &inputs), benchmark),
    ensures
        benchmark.degrade == Degrade::Never,
        holds_call(inputs, benchmark),
{
    law_same_call_has_every_tensor(inputs, benchmark);
}

/// A clone of a call holds its tensors, and degrades where the call does.
pub proof fn law_clones_hold_the_call<H: Clone>(
    tensor: CubeTensor<H>,
    tensor_copy: CubeTensor<H>,
    inputs: Inputs<H>,
    copy: Inputs<H>,
)
    requires
        call_ensures(CubeTensor::<H>::clone, (&tensor,), tensor_copy),
        call_ensures(Inputs::<H>::clone, (&inputs,), copy),
    ensures
        stands_for(tensor, tensor_copy),
        copy.degrade == inputs.degrade,
        holds_call(inputs, copy),
{
    law_same_call_has_every_tensor(inputs, copy);
}

/// A call runs on its own tensors, each in its own place, and may always degrade.
pub proof fn law_calls_may_degrade<H>(
    query: CubeTensor<H>,
    key: CubeTensor<H>,
    value: CubeTensor<H>,
    mask: Option<CubeTensor<H>>,
    attn_bias: Option<CubeTensor<H>>,
    options: AttentionModuleOptions,
    inputs: Inputs<H>,
)
    requires
        call_ensures(
            attention_autotune::<H>,
            (query, key, value, mask, attn_bias, options),
            inputs,
        ),
    ensures
        inputs.query == query,
        inputs.key == key,
        inputs.value == value,
        inputs.mask == mask,
        inputs.attn_bias == attn_bias,
        inputs.options == options,
        inputs.degrade == Degrade::ToFallback,
{
}

/// Whether `problem` is the one that the tensors pose: the output has the element of the query.
pub open spec fn poses<H>(inputs: Inputs<H>, problem: KeyProblem) -> bool {
    &&& inputs.query.dtype.spec_elem_type() == Some(problem.elem_query)
    &&& inputs.query.dtype.spec_elem_type() == Some(problem.elem_out)
    &&& inputs.key.dtype.spec_elem_type() == Some(problem.elem_key)
    &&& inputs.value.dtype.spec_elem_type() == Some(problem.elem_value)
    &&& problem.total_batches == inputs.query.shape@[0] * inputs.query.shape@[1]
    &&& problem.seq_q == inputs.query.shape@[2]
    &&& problem.head_dim == inputs.query.shape@[3]
    &&& problem.seq_kv == inputs.value.shape@[2]
    &&& problem.val_dim == inputs.value.shape@[3]
    &&& problem.attention_mask <==> inputs.mask is Some
}

/// The problem that is read off a call, and the one that its key is made for, are the problem that
/// its tensors pose.
pub proof fn law_keys_are_made_for_the_call<H>(
    inputs: Inputs<H>,
    problem: KeyProblem,
    key: AttentionKey,
)
    requires
        has_key(inputs),
        call_ensures(key_problem::<H>, (&inputs,), problem),
        call_ensures(create_key::<H>, (&inputs,), key),
    ensures
        poses(inputs, problem),
        poses(inputs, key.problem()),
        key.attention_mask() <==> inputs.mask is Some,
        key.lengths().seq_q == 0 <==> inputs.query.shape@[2] == 0,
        key.lengths().head_dim == 0 <==> inputs.query.shape@[3] == 0,
        key.lengths().seq_kv == 0 <==> inputs.value.shape@[2] == 0,
        key.lengths().val_dim == 0 <==> inputs.value.shape@[3] == 0,
        key.lengths().total_batches == 0 <==> inputs.query.shape@[0] == 0
            || inputs.query.shape@[1] == 0,
{
    law_problem_is_that_of_the_tensors(inputs);
}

/// A call is told to have a key where it has the dimensions for one, its batches and heads can be
/// multiplied, and each of its three tensors is told to have an element.
pub proof fn law_calls_are_told_to_have_a_key<H>(
    inputs: Inputs<H>,
    possible: bool,
    query: bool,
    key: bool,
    value: bool,
)
    requires
        call_ensures(can_have_key::<H>, (&inputs,), possible),
        call_ensures(TensorDType::has_elem_type, (&inputs.query.dtype,), query),
        call_ensures(TensorDType::has_elem_type, (&inputs.key.dtype,), key),
        call_ensures(TensorDType::has_elem_type, (&inputs.value.dtype,), value),
    ensures
        possible <==> {
            &&& inputs.query.shape@.len() >= 4
            &&& inputs.value.shape@.len() >= 4
            &&& inputs.query.shape@[0] * inputs.query.shape@[1] <= usize::MAX
            &&& query
            &&& key
            &&& value
        },
{
    law_which_calls_have_a_key(inputs);
}

/// A type is told to have an element where it is not quantized, is packed into words, or holds
/// eight bits as they are.
pub proof fn law_types_are_told_to_have_an_element(dtype: TensorDType, held: bool)
    requires
        call_ensures(TensorDType::has_elem_type, (&dtype,), held),
    ensures
        held <==> match dtype {
            TensorDType::Plain(plain) => !(plain is QFloat),
            TensorDType::Quantized(value, store) => {
                ||| store is PackedU32
                ||| store is Native && (value is Q8F || value is Q8S || value is E4M3
                    || value is E5M2)
            },
        },
{
    match dtype {
        TensorDType::Plain(plain) => law_elements_of_plain_types(plain),
        TensorDType::Quantized(value, store) => law_elements_of_quantized_types(value, store),
    }
}

} // verus!
