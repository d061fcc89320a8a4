//! The inputs of an attention call, as the tuner hands them to a candidate.

use crate::dtype::TensorDType;
use burn_backend::ops::AttentionModuleOptions;
use cubek::attention::forward::launch::AttentionAutotuneKey;
use vstd::prelude::*;

verus! {

/// A tensor: its shape and type, and the handle of the memory that holds it.
pub struct CubeTensor<H> {
    pub shape: Vec<usize>,
    pub dtype: TensorDType,
    pub handle: H,
}

/// What a flash kernel does with a shape that it cannot launch.
#[derive(Clone, Copy, Debug, PartialEq, Eq, Structural)]
pub enum Degrade {
    /// It runs the fallback instead.
    ToFallback,
    /// It fails.
    Never,
}

/// The inputs of one attention call.
pub struct Inputs<H> {
    pub query: CubeTensor<H>,
    pub key: CubeTensor<H>,
    pub value: CubeTensor<H>,
    pub mask: Option<CubeTensor<H>>,
    pub attn_bias: Option<CubeTensor<H>>,
    pub options: AttentionModuleOptions,
    pub degrade: Degrade,
}

/// Whether `copy` is a clone of `tensor`: the same shape and type, on a clone of its handle.
pub open spec fn tensor_cloned<H: Clone>(tensor: CubeTensor<H>, copy: CubeTensor<H>) -> bool {
    &&& copy.shape@ == tensor.shape@
    &&& copy.dtype == tensor.dtype
    &&& cloned(tensor.handle, copy.handle)
}

/// Whether `copy` is a clone of `tensor`, which may be absent.
pub open spec fn option_cloned<H: Clone>(
    tensor: Option<CubeTensor<H>>,
    copy: Option<CubeTensor<H>>,
) -> bool {
    match (tensor, copy) {
        (Some(tensor), Some(copy)) => tensor_cloned(tensor, copy),
        (None, None) => true,
        _ => false,
    }
}

impl<H: Clone> Clone for CubeTensor<H> {
    fn clone(&self) -> (copy: Self)
        ensures
            tensor_cloned(*self, copy),
    {
        CubeTensor { shape: self.shape.clone(), dtype: self.dtype, handle: self.handle.clone() }
    }
}

fn clone_option<H: Clone>(tensor: &Option<CubeTensor<H>>) -> (copy: Option<CubeTensor<H>>)
    ensures
        option_cloned(*tensor, copy),
{
    match tensor {
        Some(tensor) => Some(tensor.clone()),
        None => None,
    }
}

/// Whether `copy` holds clones of the tensors of `inputs` and the same options, whatever
/// either does with a shape that cannot be launched.
pub open spec fn same_call<H: Clone>(inputs: Inputs<H>, copy: Inputs<H>) -> bool {
    &&& tensor_cloned(inputs.query, copy.query)
    &&& tensor_cloned(inputs.key, copy.key)
    &&& tensor_cloned(inputs.value, copy.value)
    &&& option_cloned(inputs.mask, copy.mask)
    &&& option_cloned(inputs.attn_bias, copy.attn_bias)
    &&& copy.options == inputs.options
}

/// The benchmark inputs: the call's tensors, run without degrading, so that a flash candidate
/// which cannot launch the shape loses instead of standing in for the fallback.
pub fn input_gen<H: Clone>(
    _key: &AttentionAutotuneKey,
    inputs: &Inputs<H>,
) -> (benchmark: Inputs<H>)
    ensures
        same_call(*inputs, benchmark),
        benchmark.degrade == Degrade::Never,
{
    Inputs {
        query: inputs.query.clone(),
        key: inputs.key.clone(),
        value: inputs.value.clone(),
        mask: clone_option(&inputs.mask),
        attn_bias: clone_option(&inputs.attn_bias),
        options: inputs.options,
        degrade: Degrade::Never,
    }
}

impl<H: Clone> Clone for Inputs<H> {
    fn clone(&self) -> (copy: Self)
        ensures
            same_call(*self, copy),
            copy.degrade == self.degrade,
    {
        Inputs {
            query: self.query.clone(),
            key: self.key.clone(),
            value: self.value.clone(),
            mask: clone_option(&self.mask),
            attn_bias: clone_option(&self.attn_bias),
            options: self.options,
            degrade: self.degrade,
        }
    }
}

} // verus!
