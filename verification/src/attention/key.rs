//! The key of an attention call: the problem that its inputs pose, and the key of that problem.

use crate::attention::inputs::Inputs;
use crate::attention::tune_key::{generate, AttentionKey, KeyProblem};
use crate::dtype::elem_type;
use vstd::prelude::*;

verus! {

/// Whether a key can be made for `inputs`: the query and the value have four dimensions or
/// more, the batches and the heads of the query can be multiplied, and the three tensors have
/// types that a device can hold.
pub open spec fn has_key<H>(inputs: Inputs<H>) -> bool {
    &&& inputs.query.shape@.len() >= 4
    &&& inputs.value.shape@.len() >= 4
    &&& inputs.query.shape@[0] * inputs.query.shape@[1] <= usize::MAX
    &&& inputs.query.dtype.spec_elem_type() is Some
    &&& inputs.key.dtype.spec_elem_type() is Some
    &&& inputs.value.dtype.spec_elem_type() is Some
}

/// The problem that `inputs` pose. The query is `[batches, heads, seq_q, head_dim]`, the value
/// `[batches, heads, seq_kv, val_dim]`, and the output has the type of the query.
pub open spec fn problem_of<H>(inputs: Inputs<H>) -> KeyProblem {
    KeyProblem {
        elem_query: inputs.query.dtype.spec_elem_type()->0,
        elem_key: inputs.key.dtype.spec_elem_type()->0,
        elem_value: inputs.value.dtype.spec_elem_type()->0,
        elem_out: inputs.query.dtype.spec_elem_type()->0,
        total_batches: (inputs.query.shape@[0] * inputs.query.shape@[1]) as usize,
        seq_q: inputs.query.shape@[2],
        head_dim: inputs.query.shape@[3],
        seq_kv: inputs.value.shape@[2],
        val_dim: inputs.value.shape@[3],
        attention_mask: inputs.mask is Some,
    }
}

/// Whether a key can be made for the inputs.
pub fn can_have_key<H>(inputs: &Inputs<H>) -> (possible: bool)
    ensures
        possible == has_key(*inputs),
{
    if inputs.query.shape.len() < 4 || inputs.value.shape.len() < 4 {
        return false;
    }
    let multiplies = inputs.query.shape[0].checked_mul(inputs.query.shape[1]).is_some();
    multiplies && inputs.query.dtype.has_elem_type() && inputs.key.dtype.has_elem_type()
        && inputs.value.dtype.has_elem_type()
}

/// Reads the problem off the shapes and the types of the inputs.
pub fn key_problem<H>(inputs: &Inputs<H>) -> (problem: KeyProblem)
    requires
        has_key(*inputs),
    ensures
        problem == problem_of(*inputs),
{
    let total_batches: usize = inputs.query.shape[0] * inputs.query.shape[1];
    KeyProblem {
        elem_query: elem_type(inputs.query.dtype),
        elem_key: elem_type(inputs.key.dtype),
        elem_value: elem_type(inputs.value.dtype),
        elem_out: elem_type(inputs.query.dtype),
        total_batches,
        seq_q: inputs.query.shape[2],
        head_dim: inputs.query.shape[3],
        seq_kv: inputs.value.shape[2],
        val_dim: inputs.value.shape[3],
        attention_mask: inputs.mask.is_some(),
    }
}

/// The key of the inputs: the one generated for the problem that they pose.
pub fn create_key<H>(inputs: &Inputs<H>) -> (key: AttentionKey)
    requires
        has_key(*inputs),
    ensures
        key.problem() == problem_of(*inputs),
        key.attention_mask() == (inputs.mask is Some),
        (key.lengths().total_batches == 0) == (inputs.query.shape@[0] == 0
            || inputs.query.shape@[1] == 0),
        (key.lengths().seq_q == 0) == (inputs.query.shape@[2] == 0),
        (key.lengths().head_dim == 0) == (inputs.query.shape@[3] == 0),
        (key.lengths().seq_kv == 0) == (inputs.value.shape@[2] == 0),
        (key.lengths().val_dim == 0) == (inputs.value.shape@[3] == 0),
{
    let problem = key_problem(inputs);
    assert(inputs.query.shape@[0] * inputs.query.shape@[1] == 0
        <==> inputs.query.shape@[0] == 0 || inputs.query.shape@[1] == 0) by (nonlinear_arith);
    generate(problem)
}

} // verus!
