//! The candidates of attention tuning and their priorities.

use crate::attention::inputs::{CubeTensor, Degrade, Inputs};
use crate::dtype::plain_elem_type;
use burn_backend::cubecl::dtype_to_storage_type;
use burn_backend::ops::AttentionModuleOptions;
use burn_backend::DType;
use cubecl::ir::features::MmaConfig;
use cubecl::ir::ElemType;
use cubek::attention::forward::routines::blackbox_accelerated::BlackboxAcceleratedStrategy;
use vstd::prelude::*;
use vstd::string::StringExecFns;

verus! {

/// The level that is tried first.
pub const PRIORITY_MAX: i8 = 3;

/// The level that is tried when nothing at [`PRIORITY_MAX`] runs.
pub const PRIORITY_HIGH: i8 = 2;

/// The level that is tried when nothing at [`PRIORITY_HIGH`] runs.
pub const PRIORITY_LOW: i8 = 1;

/// The level that is tried last.
pub const PRIORITY_MIN: i8 = 0;

/// A way of computing attention.
pub enum AttentionStrategy {
    /// A flash kernel on the matrix instructions of the device.
    FlashBlackboxAccelerated(BlackboxAcceleratedStrategy),
    /// A flash kernel that needs no matrix instructions.
    FlashUnit,
    /// Separate kernels, which hold the whole score matrix in memory.
    Fallback,
}

/// A call that runs a candidate.
pub enum AttentionCall {
    /// Attention with the strategy, and no other.
    Attention(AttentionStrategy),
    /// Attention with the strategy, which may give way to the fallback.
    AttentionDegrading(AttentionStrategy, Degrade),
}

/// A candidate of the tuner: a name, which its results are kept under, and what it runs.
pub struct AttentionTunable {
    pub name: String,
    pub strategy: AttentionStrategy,
}

/// The candidates of a device, in the order in which they are registered.
pub struct AttentionTunableSet {
    pub tunables: Vec<AttentionTunable>,
    pub has_accelerated: bool,
}

/// The decimal digits of `n`.
pub open spec fn decimal(n: nat) -> Seq<char>
    decreases n,
{
    let digit = seq![('0' as u32 + n % 10) as char];
    if n < 10 {
        digit
    } else {
        decimal(n / 10) + digit
    }
}

fn push_digit(text: &mut String, digit: u8)
    requires
        digit < 10,
    ensures
        final(text)@ == old(text)@ + seq![('0' as u32 + digit) as char],
{
    proof {
        reveal_strlit("0");
        reveal_strlit("1");
        reveal_strlit("2");
        reveal_strlit("3");
        reveal_strlit("4");
        reveal_strlit("5");
        reveal_strlit("6");
        reveal_strlit("7");
        reveal_strlit("8");
        reveal_strlit("9");
    }
    let digits: &str = match digit {
        0 => "0",
        1 => "1",
        2 => "2",
        3 => "3",
        4 => "4",
        5 => "5",
        6 => "6",
        7 => "7",
        8 => "8",
        _ => "9",
    };
    assert(digits@ =~= seq![('0' as u32 + digit) as char]);
    text.append(digits);
}

fn push_decimal(text: &mut String, n: u8)
    ensures
        final(text)@ == old(text)@ + decimal(n as nat),
    decreases n,
{
    if n >= 10 {
        push_decimal(text, n / 10);
    }
    push_digit(text, n % 10);
    assert(text@ =~= old(text)@ + decimal(n as nat));
}

/// The name of the candidate that runs `strategy`.
pub open spec fn name_of(strategy: AttentionStrategy) -> Seq<char> {
    match strategy {
        AttentionStrategy::FlashBlackboxAccelerated(sizes) => {
            "blackbox_accelerated_"@ + decimal(sizes.num_planes as nat) + "_planes_p_"@ + decimal(
                sizes.seq_q as nat,
            ) + "-"@ + decimal(sizes.seq_kv as nat)
        },
        AttentionStrategy::FlashUnit => "unit"@,
        AttentionStrategy::Fallback => "fallback"@,
    }
}

/// An accelerated kernel over `num_planes` planes, with one tile of queries and one of keys.
pub open spec fn blackbox(num_planes: u8) -> AttentionStrategy {
    AttentionStrategy::FlashBlackboxAccelerated(
        BlackboxAcceleratedStrategy { num_planes, seq_q: 1, seq_kv: 1 },
    )
}

/// What the candidates run, in the order in which they are registered. The fallback comes
/// first: a tuner takes its first candidate for one that always works.
pub open spec fn strategies() -> Seq<AttentionStrategy> {
    seq![
        AttentionStrategy::Fallback,
        blackbox(2),
        blackbox(4),
        blackbox(8),
        AttentionStrategy::FlashUnit,
    ]
}

/// The priority of a strategy for a key of `seq_q` queries and heads of `head_dim` channels,
/// on a device with or without an accelerator.
pub open spec fn priority_of(
    strategy: AttentionStrategy,
    seq_q: usize,
    head_dim: usize,
    has_accelerated: bool,
) -> i8 {
    match strategy {
        AttentionStrategy::Fallback => if seq_q <= head_dim {
            PRIORITY_MAX
        } else if has_accelerated {
            PRIORITY_HIGH
        } else {
            PRIORITY_MIN
        },
        AttentionStrategy::FlashBlackboxAccelerated(_) => if has_accelerated {
            PRIORITY_MAX
        } else {
            PRIORITY_LOW
        },
        AttentionStrategy::FlashUnit => PRIORITY_LOW,
    }
}

/// The call that runs a candidate: the fallback as it is, a flash kernel with what it may do
/// with a shape that it cannot launch.
pub open spec fn call_of(strategy: AttentionStrategy, degrade: Degrade) -> AttentionCall {
    if strategy is Fallback {
        AttentionCall::Attention(strategy)
    } else {
        AttentionCall::AttentionDegrading(strategy, degrade)
    }
}

/// Whether a device with the matrix instructions `cmma` multiplies half-precision tiles.
pub open spec fn accelerates(cmma: Seq<MmaConfig>) -> bool {
    exists|i: int|
        0 <= i < cmma.len() && Some((#[trigger] cmma[i]).a_type) == plain_elem_type(DType::F16)
            && Some(cmma[i].b_type) == plain_elem_type(DType::F16)
}

impl AttentionStrategy {
    fn copy(&self) -> (strategy: Self)
        ensures
            strategy == *self,
    {
        match self {
            AttentionStrategy::FlashBlackboxAccelerated(sizes) => {
                AttentionStrategy::FlashBlackboxAccelerated(
                    BlackboxAcceleratedStrategy {
                        num_planes: sizes.num_planes,
                        seq_q: sizes.seq_q,
                        seq_kv: sizes.seq_kv,
                    },
                )
            },
            AttentionStrategy::FlashUnit => AttentionStrategy::FlashUnit,
            AttentionStrategy::Fallback => AttentionStrategy::Fallback,
        }
    }

    fn name(&self) -> (name: String)
        ensures
            name@ == name_of(*self),
    {
        match self {
            AttentionStrategy::FlashBlackboxAccelerated(sizes) => {
                let mut name = String::from_str("blackbox_accelerated_");
                push_decimal(&mut name, sizes.num_planes);
                name.append("_planes_p_");
                push_decimal(&mut name, sizes.seq_q);
                name.append("-");
                push_decimal(&mut name, sizes.seq_kv);
                name
            },
            AttentionStrategy::FlashUnit => String::from_str("unit"),
            AttentionStrategy::Fallback => String::from_str("fallback"),
        }
    }
}

impl AttentionTunable {
    /// Whether the candidate is named after what it runs.
    pub open spec fn wf(self) -> bool {
        self.name@ == name_of(self.strategy)
    }

    /// A candidate that runs `strategy`.
    pub fn new(strategy: AttentionStrategy) -> (tunable: Self)
        ensures
            tunable.wf(),
            tunable.strategy == strategy,
    {
        AttentionTunable { name: strategy.name(), strategy }
    }

    /// The priority of the candidate within its group.
    pub fn priority(&self, seq_q: usize, head_dim: usize, has_accelerated: bool) -> (priority: i8)
        ensures
            priority == priority_of(self.strategy, seq_q, head_dim, has_accelerated),
    {
        match self.strategy {
            AttentionStrategy::Fallback => {
                // The fallback holds the whole score matrix, which the flash kernels never
                // allocate, and even benchmarking it pays that allocation. It competes while
                // the matrix is no bigger than a key or a value with all its heads.
                if seq_q <= head_dim {
                    PRIORITY_MAX
                } else if has_accelerated {
                    // The accelerated kernels are expected to win. Where none of them launches
                    // the shape, the unit kernel is slower still than the fallback.
                    PRIORITY_HIGH
                } else {
                    // The unit kernel is the only flash kernel that can run.
                    PRIORITY_MIN
                }
            },
            AttentionStrategy::FlashBlackboxAccelerated(_) => {
                // A kernel that the device does not support keeps a low priority rather than
                // being discarded, so that there is always something left to try.
                if has_accelerated {
                    PRIORITY_MAX
                } else {
                    PRIORITY_LOW
                }
            },
            AttentionStrategy::FlashUnit => PRIORITY_LOW,
        }
    }

    /// The call that runs the candidate. The fallback cannot give way to itself, so it takes no
    /// account of `degrade`.
    pub fn call(&self, degrade: Degrade) -> (call: AttentionCall)
        ensures
            call == call_of(self.strategy, degrade),
    {
        match self.strategy {
            AttentionStrategy::Fallback => AttentionCall::Attention(AttentionStrategy::Fallback),
            _ => AttentionCall::AttentionDegrading(self.strategy.copy(), degrade),
        }
    }
}

/// Whether the device has an accelerator: a matrix instruction on half-precision operands. The
/// accelerated kernels run on such tiles whatever the type of the tensors is.
pub fn has_accelerated(cmma: &Vec<MmaConfig>) -> (accelerated: bool)
    ensures
        accelerated == accelerates(cmma@),
{
    let half: ElemType = dtype_to_storage_type(DType::F16);
    let mut i: usize = 0;
    while i < cmma.len()
        invariant
            i <= cmma.len(),
            Some(half) == plain_elem_type(DType::F16),
            forall|j: int|
                0 <= j < i ==> !((#[trigger] cmma@[j]).a_type == half && cmma@[j].b_type == half),
        decreases cmma.len() - i,
    {
        let config = cmma[i];
        if config.a_type == half && config.b_type == half {
            assert(cmma@[i as int] == config);
            return true;
        }
        i += 1;
    }
    false
}

impl AttentionTunableSet {
    /// Whether the set holds the candidates of [`strategies`], each under its name.
    pub open spec fn wf(self) -> bool {
        &&& self.tunables@.len() == strategies().len()
        &&& forall|i: int|
            0 <= i < strategies().len() ==> (#[trigger] self.tunables@[i]).wf()
                && self.tunables@[i].strategy == strategies()[i]
    }

    /// The candidates of a device with the matrix instructions `cmma`.
    pub fn new(cmma: &Vec<MmaConfig>) -> (set: Self)
        ensures
            set.wf(),
            set.has_accelerated == accelerates(cmma@),
    {
        let mut tunables: Vec<AttentionTunable> = Vec::new();
        tunables.push(AttentionTunable::new(AttentionStrategy::Fallback));
        let planes: [u8; 3] = [2, 4, 8];
        let mut i: usize = 0;
        while i < 3
            invariant
                i <= 3,
                planes@ == seq![2u8, 4u8, 8u8],
                tunables@.len() == i + 1,
                forall|j: int|
                    0 <= j <= i ==> (#[trigger] tunables@[j]).wf() && tunables@[j].strategy
                        == strategies()[j],
            decreases 3 - i,
        {
            let num_planes: u8 = planes[i];
            let sizes = BlackboxAcceleratedStrategy { num_planes, seq_q: 1, seq_kv: 1 };
            let strategy = AttentionStrategy::FlashBlackboxAccelerated(sizes);
            assert(strategy == strategies()[i + 1]);
            tunables.push(AttentionTunable::new(strategy));
            i += 1;
        }
        tunables.push(AttentionTunable::new(AttentionStrategy::FlashUnit));
        AttentionTunableSet { tunables, has_accelerated: has_accelerated(cmma) }
    }

    /// The name of the group that holds every candidate.
    pub fn group_name(&self) -> (name: &'static str)
        ensures
            name@ == "attention"@,
    {
        "attention"
    }

    /// The priority of the group that holds every candidate.
    pub fn group_priority(&self) -> (priority: i8)
        ensures
            priority == PRIORITY_MAX,
    {
        PRIORITY_MAX
    }

    /// The priority of a candidate within the group, for a key of `seq_q` queries and heads of
    /// `head_dim` channels.
    pub fn priority(&self, candidate: usize, seq_q: usize, head_dim: usize) -> (priority: i8)
        requires
            self.wf(),
            candidate < strategies().len(),
        ensures
            priority == priority_of(
                strategies()[candidate as int],
                seq_q,
                head_dim,
                self.has_accelerated,
            ),
    {
        self.tunables[candidate].priority(seq_q, head_dim, self.has_accelerated)
    }
}

/// The inputs that an attention call hands to the tuner, with the candidates of its device (see
/// [`AttentionTunableSet::new`]), which are made once for a device and not for each call.
///
/// The inputs are the call's own, which a cached winner runs on. A selection is kept per key,
/// and the key rounds the lengths, so a flash winner can meet a shape that it cannot launch and
/// must be allowed to degrade. Only the benchmark inputs forbid it, see
/// [`input_gen`](crate::attention::inputs::input_gen).
pub fn attention_autotune<H>(
    query: CubeTensor<H>,
    key: CubeTensor<H>,
    value: CubeTensor<H>,
    mask: Option<CubeTensor<H>>,
    attn_bias: Option<CubeTensor<H>>,
    options: AttentionModuleOptions,
) -> (inputs: Inputs<H>)
    ensures
        inputs == (Inputs {
            query,
            key,
            value,
            mask,
            attn_bias,
            options,
            degrade: Degrade::ToFallback,
        }),
{
    Inputs { query, key, value, mask, attn_bias, options, degrade: Degrade::ToFallback }
}

} // verus!
