//! The key of an attention problem: the shapes that share one tuning result.

use cubecl::ir::ElemType;
use cubek::attention::forward::launch::AttentionAutotuneKey;
use vstd::prelude::*;

verus! {

/// The problem that an attention call poses, before its lengths are rounded into a key.
#[derive(Clone, Copy, Debug, PartialEq, Eq)]
pub struct KeyProblem {
    pub elem_query: ElemType,
    pub elem_key: ElemType,
    pub elem_value: ElemType,
    pub elem_out: ElemType,
    pub total_batches: usize,
    pub seq_q: usize,
    pub head_dim: usize,
    pub seq_kv: usize,
    pub val_dim: usize,
    pub attention_mask: bool,
}

/// The lengths that a key was rounded to.
#[derive(Clone, Copy, Debug, PartialEq, Eq, Structural)]
pub struct KeyLengths {
    pub total_batches: usize,
    pub seq_q: usize,
    pub head_dim: usize,
    pub seq_kv: usize,
    pub val_dim: usize,
}

/// The key of a problem, as a tuner keeps its results under. A key is made by generating it, so
/// it is always the one of the problem that it records.
pub struct AttentionKey {
    problem: KeyProblem,
    lengths: KeyLengths,
    attention_mask: bool,
    key: AttentionAutotuneKey,
}

impl AttentionKey {
    /// The problem that the key was generated for.
    pub closed spec fn spec_problem(&self) -> KeyProblem {
        self.problem
    }

    /// The lengths that the problem was rounded to.
    pub closed spec fn spec_lengths(&self) -> KeyLengths {
        self.lengths
    }

    /// Whether the problem has a mask.
    pub closed spec fn spec_attention_mask(&self) -> bool {
        self.attention_mask
    }

    /// The key itself.
    pub closed spec fn key(self) -> AttentionAutotuneKey {
        self.key
    }

    /// The problem that the key was generated for.
    #[verifier::when_used_as_spec(spec_problem)]
    pub fn problem(&self) -> (problem: KeyProblem)
        ensures
            problem == self.spec_problem(),
    {
        self.problem
    }

    /// The lengths that the problem was rounded to.
    #[verifier::when_used_as_spec(spec_lengths)]
    pub fn lengths(&self) -> (lengths: KeyLengths)
        ensures
            lengths == self.spec_lengths(),
    {
        self.lengths
    }

    /// Whether the problem has a mask.
    #[verifier::when_used_as_spec(spec_attention_mask)]
    pub fn attention_mask(&self) -> (masked: bool)
        ensures
            masked == self.spec_attention_mask(),
    {
        self.attention_mask
    }

    /// Hands over the key itself.
    pub fn into_key(self) -> (key: AttentionAutotuneKey)
        ensures
            key == self.key(),
    {
        self.key
    }
}

/// `cubek`'s `AttentionAutotuneKey::generate`: the key of `problem`. It keeps the element
/// types and the mask flag, and rounds each length on its own to a power of a base, which the
/// runtime configuration sets. Rounding gives zero for zero and nothing else. What another length
/// is rounded to is not stated: the configuration is read from files and from the environment,
/// and the power is computed in floating point.
#[verifier::external_body]
pub(crate) fn generate(problem: KeyProblem) -> (key: AttentionKey)
    ensures
        key.problem() == problem,
        key.attention_mask() == problem.attention_mask,
        (key.lengths().total_batches == 0) == (problem.total_batches == 0),
        (key.lengths().seq_q == 0) == (problem.seq_q == 0),
        (key.lengths().head_dim == 0) == (problem.head_dim == 0),
        (key.lengths().seq_kv == 0) == (problem.seq_kv == 0),
        (key.lengths().val_dim == 0) == (problem.val_dim == 0),
{
    let p = problem;
    let key = AttentionAutotuneKey::generate(
        p.elem_query, p.elem_key, p.elem_value, p.elem_out, p.total_batches, p.seq_q, p.head_dim,
        p.seq_kv, p.val_dim, p.attention_mask,
    );
    let (total_batches, seq_q, head_dim) = (key.total_batches, key.seq_q, key.head_dim);
    let (seq_kv, val_dim, attention_mask) = (key.seq_kv, key.val_dim, key.attention_mask);
    let lengths = KeyLengths { total_batches, seq_q, head_dim, seq_kv, val_dim };
    AttentionKey { problem, lengths, attention_mask, key }
}

} // verus!
